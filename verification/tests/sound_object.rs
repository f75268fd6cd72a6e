use scanner_synth::sound_object::{
    other_than_scanner, scanner_contact, voice_for_keys, NoteAction, NoteEvent, NoteState,
    VoiceKind,
};

#[test]
fn each_key_spawns_its_voice() {
    assert_eq!(voice_for_keys(true, false, false), Some(VoiceKind::Snare));
    assert_eq!(voice_for_keys(false, true, false), Some(VoiceKind::Kick));
    assert_eq!(voice_for_keys(false, false, true), Some(VoiceKind::Organ));
    assert_eq!(voice_for_keys(false, false, false), None);
}

#[test]
fn z_wins_over_x_and_x_over_c() {
    assert_eq!(voice_for_keys(true, true, true), Some(VoiceKind::Snare));
    assert_eq!(voice_for_keys(true, false, true), Some(VoiceKind::Snare));
    assert_eq!(voice_for_keys(false, true, true), Some(VoiceKind::Kick));
}

#[test]
fn other_than_scanner_picks_the_other_body() {
    assert_eq!(other_than_scanner(1u32, 2u32, true, false), Some(2));
    assert_eq!(other_than_scanner(1u32, 2u32, false, true), Some(1));
    assert_eq!(other_than_scanner(1u32, 2u32, false, false), None);
    assert_eq!(other_than_scanner(1u32, 2u32, true, true), Some(2));
}

#[test]
fn only_the_start_of_a_contact_counts() {
    assert_eq!(scanner_contact(true, 7u64, 9u64, false, true), Some(7));
    assert_eq!(scanner_contact(false, 7u64, 9u64, false, true), None);
    assert_eq!(scanner_contact(true, 7u64, 9u64, false, false), None);
}

#[test]
fn note_is_held_until_its_length_passes() {
    let mut note = NoteState::new();
    assert!(!note.is_held());
    assert_eq!(note.handle(NoteEvent::ScannerContact { has_voice: true }), NoteAction::Start);
    assert!(note.is_held());
    assert_eq!(note.handle(NoteEvent::ScannerContact { has_voice: true }), NoteAction::Ignore);
    assert!(note.is_held());
    assert_eq!(note.handle(NoteEvent::LengthElapsed), NoteAction::Release);
    assert!(!note.is_held());
    assert_eq!(note.handle(NoteEvent::LengthElapsed), NoteAction::Ignore);
    assert_eq!(note.handle(NoteEvent::ScannerContact { has_voice: true }), NoteAction::Start);
}

#[test]
fn no_voice_no_note() {
    let mut note = NoteState::new();
    assert_eq!(note.handle(NoteEvent::ScannerContact { has_voice: false }), NoteAction::Ignore);
    assert!(!note.is_held());
}

#[test]
fn starts_and_releases_alternate() {
    let mut note = NoteState::new();
    let events = [
        NoteEvent::ScannerContact { has_voice: true },
        NoteEvent::ScannerContact { has_voice: true },
        NoteEvent::LengthElapsed,
        NoteEvent::LengthElapsed,
        NoteEvent::ScannerContact { has_voice: false },
        NoteEvent::ScannerContact { has_voice: true },
        NoteEvent::LengthElapsed,
    ];
    let actions: Vec<NoteAction> = events
        .iter()
        .map(|&e| note.handle(e))
        .filter(|&a| a != NoteAction::Ignore)
        .collect();
    assert_eq!(
        actions,
        vec![NoteAction::Start, NoteAction::Release, NoteAction::Start, NoteAction::Release]
    );
}
