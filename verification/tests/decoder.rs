use scanner_synth::decoder::{DecoderState, Poll, CHANNELS, SAMPLE_RATE};

/// Draws one sample the way the audio thread does, rendering from `frames`.
fn draw(state: &mut DecoderState<f32>, gate_open: bool, frames: &mut Vec<(f32, f32)>) -> f32 {
    match state.poll(gate_open) {
        Poll::Silence => 0.0,
        Poll::Sample(s) => s,
        Poll::Render => {
            let (l, r) = frames.remove(0);
            state.accept_frame(l, r)
        }
    }
}

#[test]
fn stream_format_is_stereo_at_44100() {
    assert_eq!(CHANNELS, 2);
    assert_eq!(SAMPLE_RATE, 44_100);
}

#[test]
fn silent_until_the_gate_first_opens() {
    let mut state: DecoderState<f32> = DecoderState::new();
    for _ in 0..5 {
        assert!(matches!(state.poll(false), Poll::Silence));
    }
    assert!(matches!(state.poll(true), Poll::Render));
}

#[test]
fn frame_comes_out_left_then_right() {
    let mut state: DecoderState<f32> = DecoderState::new();
    assert!(matches!(state.poll(true), Poll::Render));
    assert_eq!(state.accept_frame(0.25, -0.5), 0.25);
    assert!(matches!(state.poll(false), Poll::Sample(s) if s == -0.5));
    assert!(matches!(state.poll(false), Poll::Render));
}

#[test]
fn never_silent_again_after_start() {
    let mut frames = vec![(1.0, 2.0), (3.0, 4.0), (5.0, 6.0)];
    let mut state: DecoderState<f32> = DecoderState::new();
    let mut out = Vec::new();
    let gates = [false, false, true, false, false, true, false, false];
    for gate in gates {
        out.push(draw(&mut state, gate, &mut frames));
    }
    assert_eq!(out, vec![0.0, 0.0, 1.0, 2.0, 3.0, 4.0, 5.0, 6.0]);
    assert!(frames.is_empty());
}

#[test]
fn integer_samples_interleave_too() {
    let mut state: DecoderState<i32> = DecoderState::new();
    let mut out = Vec::new();
    let frames = [(10, 11), (20, 21)];
    let mut next_frame = 0;
    for _ in 0..4 {
        match state.poll(true) {
            Poll::Silence => out.push(0),
            Poll::Sample(s) => out.push(s),
            Poll::Render => {
                let (l, r) = frames[next_frame];
                next_frame += 1;
                out.push(state.accept_frame(l, r));
            }
        }
    }
    assert_eq!(out, vec![10, 11, 20, 21]);
}
