//! The rules of sound objects: which voice a key spawns, which body of a
//! collision is the one the scanner touched, and when a note starts and ends.

use vstd::prelude::*;

verus! {

/// The voice a sound object plays.
#[derive(Clone, Copy, Debug, PartialEq, Eq, Structural)]
pub enum VoiceKind {
    /// Spawned with Z.
    Snare,
    /// Spawned with X.
    Kick,
    /// Spawned with C.
    Organ,
}

/// The voice spawned for the keys pressed this frame: Z before X before C.
pub open spec fn spec_voice_for_keys(z: bool, x: bool, c: bool) -> Option<VoiceKind> {
    if z {
        Some(VoiceKind::Snare)
    } else if x {
        Some(VoiceKind::Kick)
    } else if c {
        Some(VoiceKind::Organ)
    } else {
        None
    }
}

/// The body that is not the scanner, where one of the two is the scanner.
pub open spec fn spec_other_than_scanner<E>(
    a: E,
    b: E,
    a_is_scanner: bool,
    b_is_scanner: bool,
) -> Option<E> {
    if a_is_scanner {
        Some(b)
    } else if b_is_scanner {
        Some(a)
    } else {
        None
    }
}

/// Which voice to spawn when Z (snare), X (kick) or C (organ) was just
/// pressed; when several were, Z wins over X and X over C. `None` spawns nothing.
pub fn voice_for_keys(z: bool, x: bool, c: bool) -> (voice: Option<VoiceKind>)
    ensures
        voice == spec_voice_for_keys(z, x, c),
{
    if z {
        Some(VoiceKind::Snare)
    } else if x {
        Some(VoiceKind::Kick)
    } else if c {
        Some(VoiceKind::Organ)
    } else {
        None
    }
}

/// Returns the body colliding with the scanner, if either of the two is the scanner.
pub fn other_than_scanner<E>(a: E, b: E, a_is_scanner: bool, b_is_scanner: bool) -> (other:
    Option<E>)
    ensures
        other == spec_other_than_scanner(a, b, a_is_scanner, b_is_scanner),
{
    if a_is_scanner {
        Some(b)
    } else if b_is_scanner {
        Some(a)
    } else {
        None
    }
}

/// The body the scanner reached in a collision event, if any: only the start
/// of a contact counts, since notes end after their own length.
pub fn scanner_contact<E>(
    contact_started: bool,
    a: E,
    b: E,
    a_is_scanner: bool,
    b_is_scanner: bool,
) -> (reached: Option<E>)
    ensures
        reached == (if contact_started {
            spec_other_than_scanner(a, b, a_is_scanner, b_is_scanner)
        } else {
            None
        }),
{
    if !contact_started {
        return None;
    }
    other_than_scanner(a, b, a_is_scanner, b_is_scanner)
}

/// Something that happens to a sound object's note.
#[derive(Clone, Copy, Debug, PartialEq, Eq, Structural)]
pub enum NoteEvent {
    /// The scanner reached the sound object; `has_voice` says whether its
    /// voice could be found.
    ScannerContact { has_voice: bool },
    /// The note length of the held note has passed.
    LengthElapsed,
}

/// What to do with the voice.
#[derive(Clone, Copy, Debug, PartialEq, Eq, Structural)]
pub enum NoteAction {
    /// Start the note: the envelope attacks, and the hit animation plays.
    Start,
    /// End the note: the envelope releases.
    Release,
    /// Nothing.
    Ignore,
}

/// Whether the note is held afterwards, and what to do, given whether it was
/// held before and what happened.
pub open spec fn spec_note_step(held: bool, event: NoteEvent) -> (bool, NoteAction) {
    match event {
        NoteEvent::ScannerContact { has_voice } => {
            if !held && has_voice {
                (true, NoteAction::Start)
            } else {
                (held, NoteAction::Ignore)
            }
        },
        NoteEvent::LengthElapsed => {
            if held {
                (false, NoteAction::Release)
            } else {
                (false, NoteAction::Ignore)
            }
        },
    }
}

/// Whether a sound object's note is held.
pub struct NoteState {
    held: bool,
}

impl View for NoteState {
    type V = bool;

    closed spec fn view(&self) -> bool {
        self.held
    }
}

impl NoteState {
    /// A sound object with no note held.
    pub fn new() -> (state: NoteState)
        ensures
            state@ == false,
    {
        NoteState { held: false }
    }

    /// Whether a note is held now.
    pub fn is_held(&self) -> (held: bool)
        ensures
            held == self@,
    {
        self.held
    }

    /// Starts a note when the scanner reaches the sound object, unless its
    /// previous note is still held or it has no voice; releases the held note
    /// once its length has passed.
    pub fn handle(&mut self, event: NoteEvent) -> (action: NoteAction)
        ensures
            (final(self)@, action) == spec_note_step(old(self)@, event),
    {
        match event {
            NoteEvent::ScannerContact { has_voice } => {
                if !self.held && has_voice {
                    self.held = true;
                    NoteAction::Start
                } else {
                    NoteAction::Ignore
                }
            },
            NoteEvent::LengthElapsed => {
                if self.held {
                    self.held = false;
                    NoteAction::Release
                } else {
                    NoteAction::Ignore
                }
            },
        }
    }
}

/// The actions taken for `events`, one per event, starting from `held`.
pub open spec fn spec_note_actions(held: bool, events: Seq<NoteEvent>) -> Seq<NoteAction>
    decreases events.len(),
{
    if events.len() == 0 {
        Seq::empty()
    } else {
        let (next, action) = spec_note_step(held, events[0]);
        seq![action] + spec_note_actions(next, events.drop_first())
    }
}

/// Whether `actions`, taken from a state where a note is held or not, never
/// start a note over a held one and never release a note that is not held.
pub open spec fn notes_alternate(held: bool, actions: Seq<NoteAction>) -> bool
    decreases actions.len(),
{
    if actions.len() == 0 {
        true
    } else {
        match actions[0] {
            NoteAction::Start => !held && notes_alternate(true, actions.drop_first()),
            NoteAction::Release => held && notes_alternate(false, actions.drop_first()),
            NoteAction::Ignore => notes_alternate(held, actions.drop_first()),
        }
    }
}

/// Notes never overlap: whatever happens, starts and releases of a sound
/// object's note alternate, so a note is only started while none is held and
/// only released while one is.
pub proof fn lemma_notes_alternate(held: bool, events: Seq<NoteEvent>)
    ensures
        notes_alternate(held, spec_note_actions(held, events)),
    decreases events.len(),
{
    if events.len() > 0 {
        let (next, action) = spec_note_step(held, events[0]);
        lemma_notes_alternate(next, events.drop_first());
        let actions = spec_note_actions(held, events);
        assert(actions.drop_first() =~= spec_note_actions(next, events.drop_first()));
    }
}

/// A contact while a note is held changes nothing; the note goes on until its
/// length has passed.
pub proof fn lemma_contact_while_held_ignored(has_voice: bool)
    ensures
        spec_note_step(true, NoteEvent::ScannerContact { has_voice }) == (true, NoteAction::Ignore),
{
}

/// A held note ends once its length has passed, and the next contact starts a
/// new one.
pub proof fn lemma_release_then_restart()
    ensures
        spec_note_step(true, NoteEvent::LengthElapsed) == (false, NoteAction::Release),
        spec_note_step(false, NoteEvent::ScannerContact { has_voice: true }) == (
            true,
            NoteAction::Start,
        ),
{
}

/// Which body is the scanner does not depend on the order in which the
/// collision names the two bodies, where only one of them is the scanner.
pub proof fn lemma_other_than_scanner_symmetric<E>(
    a: E,
    b: E,
    a_is_scanner: bool,
    b_is_scanner: bool,
)
    requires
        !(a_is_scanner && b_is_scanner),
    ensures
        spec_other_than_scanner(a, b, a_is_scanner, b_is_scanner) == spec_other_than_scanner(
            b,
            a,
            b_is_scanner,
            a_is_scanner,
        ),
{
}

/// At most one voice is spawned per frame, and one is spawned whenever any of
/// the three keys was pressed.
pub proof fn lemma_one_voice_per_press(z: bool, x: bool, c: bool)
    ensures
        (spec_voice_for_keys(z, x, c) is Some) <==> (z || x || c),
{
}

/// Pressing Z always spawns the snare, whatever else is pressed; without Z,
/// X spawns the kick whatever C does; C alone spawns the organ; no key, no voice.
pub proof fn lemma_voice_priority(x: bool, c: bool)
    ensures
        spec_voice_for_keys(true, x, c) == Some(VoiceKind::Snare),
        spec_voice_for_keys(false, true, c) == Some(VoiceKind::Kick),
        spec_voice_for_keys(false, false, true) == Some(VoiceKind::Organ),
        spec_voice_for_keys(false, false, false) == None::<VoiceKind>,
{
}

/// Each voice comes from its own key: the snare only when Z is pressed, the
/// kick only when X is pressed and Z is not, the organ only when C alone of
/// the three is pressed.
pub proof fn lemma_voice_needs_its_key(z: bool, x: bool, c: bool)
    ensures
        spec_voice_for_keys(z, x, c) == Some(VoiceKind::Snare) ==> z,
        spec_voice_for_keys(z, x, c) == Some(VoiceKind::Kick) ==> x && !z,
        spec_voice_for_keys(z, x, c) == Some(VoiceKind::Organ) ==> c && !z && !x,
{
}

/// When the first body is the scanner the other one is returned; when only
/// the second one is, the first is returned; when neither is, nothing is.
pub proof fn lemma_other_than_scanner_cases<E>(a: E, b: E, b_is_scanner: bool)
    ensures
        spec_other_than_scanner(a, b, true, b_is_scanner) == Some(b),
        spec_other_than_scanner(a, b, false, true) == Some(a),
        spec_other_than_scanner(a, b, false, false) == None::<E>,
{
}

/// What each event does to a note: a contact starts a note only when none is
/// held and the voice was found, and leaves the note as it was otherwise; the
/// passing of the note length ends a held note, and leaves no note held.
pub proof fn lemma_note_step_cases(held: bool, has_voice: bool)
    ensures
        spec_note_step(false, NoteEvent::ScannerContact { has_voice: true }) == (
            true,
            NoteAction::Start,
        ),
        spec_note_step(held, NoteEvent::ScannerContact { has_voice: false }) == (
            held,
            NoteAction::Ignore,
        ),
        spec_note_step(true, NoteEvent::ScannerContact { has_voice }) == (true, NoteAction::Ignore),
        spec_note_step(true, NoteEvent::LengthElapsed) == (false, NoteAction::Release),
        spec_note_step(false, NoteEvent::LengthElapsed) == (false, NoteAction::Ignore),
        !spec_note_step(held, NoteEvent::LengthElapsed).0,
{
}

} // verus!
