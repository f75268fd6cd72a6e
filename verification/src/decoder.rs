//! The decisions of the voice decoder: it plays a stereo voice as one stream
//! of samples, left then right, and stays silent until the first note.
//!
//! Rendering a frame is the caller's work; `DecoderState::poll` says when a
//! new frame is needed and `DecoderState::accept_frame` takes it.

use vstd::prelude::*;

verus! {

/// Channels in the decoded stream: left and right, interleaved.
pub const CHANNELS: u16 = 2;

/// Samples per second and channel.
pub const SAMPLE_RATE: u32 = 44_100;

/// What the decoder asks for next.
#[derive(Debug)]
pub enum Poll<S> {
    /// No note has been played yet: emit silence.
    Silence,
    /// Emit this sample, the right half of the frame rendered last.
    Sample(S),
    /// Render a new stereo frame and hand it to `accept_frame`.
    Render,
}

/// The decoder's state, as a plain value.
pub struct DecoderModel<S> {
    /// Whether a note has ever been held.
    pub started: bool,
    /// The right sample of the last frame, not yet emitted.
    pub pending: Option<S>,
}

/// The decoder's state between two samples.
pub struct DecoderState<S> {
    started: bool,
    pending: Option<S>,
}

impl<S> View for DecoderState<S> {
    type V = DecoderModel<S>;

    closed spec fn view(&self) -> DecoderModel<S> {
        DecoderModel { started: self.started, pending: self.pending }
    }
}

/// The state after a poll, with a note held or not, and what the poll asks for.
/// Until a note has been held once the decoder stays silent and changes nothing;
/// after that it hands out the waiting right sample, or asks for a new frame.
pub open spec fn spec_poll<S>(m: DecoderModel<S>, note_held: bool) -> (DecoderModel<S>, Poll<S>) {
    if !m.started && !note_held {
        (m, Poll::Silence)
    } else {
        match m.pending {
            Some(right) => (DecoderModel { started: true, pending: None }, Poll::Sample(right)),
            None => (DecoderModel { started: true, pending: None }, Poll::Render),
        }
    }
}

/// The state after a rendered frame is handed in, and the sample emitted now:
/// the left one, while the right one waits.
pub open spec fn spec_accept_frame<S>(m: DecoderModel<S>, left: S, right: S) -> (DecoderModel<S>, S) {
    (DecoderModel { started: m.started, pending: Some(right) }, left)
}

impl<S> DecoderState<S> {
    /// A decoder that has not started: silent until the first note.
    pub fn new() -> (d: Self)
        ensures
            d@.started == false,
            d@.pending is None,
    {
        DecoderState { started: false, pending: None }
    }

    /// Decides the next sample. `note_held` is whether a note is held right now.
    pub fn poll(&mut self, note_held: bool) -> (p: Poll<S>)
        ensures
            (final(self)@, p) == spec_poll(old(self)@, note_held),
    {
        if !self.started {
            if !note_held {
                return Poll::Silence;
            }
            self.started = true;
        }
        let pending = self.pending.take();
        match pending {
            Some(right) => Poll::Sample(right),
            None => Poll::Render,
        }
    }

    /// Takes the frame rendered after `Poll::Render`: returns the left sample to
    /// emit now and keeps the right one for the next poll.
    pub fn accept_frame(&mut self, left: S, right: S) -> (sample: S)
        ensures
            (final(self)@, sample) == spec_accept_frame(old(self)@, left, right),
    {
        self.pending = Some(right);
        left
    }
}

/// One sample of the stream as the audio thread draws it: poll, and when asked,
/// render `frame` and hand it in. Gives the new state, the sample (`None` for
/// silence) and whether the frame was used.
pub open spec fn spec_draw<S>(m: DecoderModel<S>, note_held: bool, frame: (S, S)) -> (
    DecoderModel<S>,
    Option<S>,
    bool,
) {
    let (m1, p) = spec_poll(m, note_held);
    match p {
        Poll::Silence => (m1, None, false),
        Poll::Sample(s) => (m1, Some(s), false),
        Poll::Render => {
            let (m2, left) = spec_accept_frame(m1, frame.0, frame.1);
            (m2, Some(left), true)
        },
    }
}

/// The samples drawn one after another, a note being held or not as `holds` says, the
/// frames being rendered in the order of `frames`.
pub open spec fn spec_stream<S>(m: DecoderModel<S>, holds: Seq<bool>, frames: Seq<(S, S)>) -> Seq<
    Option<S>,
>
    decreases holds.len(),
{
    if holds.len() == 0 {
        Seq::empty()
    } else {
        let (m1, out, used) = spec_draw(m, holds[0], frames[0]);
        let rest = if used {
            frames.drop_first()
        } else {
            frames
        };
        seq![out] + spec_stream(m1, holds.drop_first(), rest)
    }
}

/// The frames laid out one sample after another: left, right, left, right, ...
pub open spec fn interleave<S>(frames: Seq<(S, S)>) -> Seq<S>
    decreases frames.len(),
{
    if frames.len() == 0 {
        Seq::empty()
    } else {
        seq![frames[0].0, frames[0].1] + interleave(frames.drop_first())
    }
}

/// Before the first note nothing is rendered: with no note held the
/// decoder stays silent and keeps its state.
pub proof fn lemma_silent_until_first_note<S>(m: DecoderModel<S>)
    requires
        !m.started,
    ensures
        spec_poll(m, false) == (m, Poll::<S>::Silence),
{
}

/// Once a note has started, the decoder never falls silent again, whatever
/// the notes do afterwards.
pub proof fn lemma_never_silent_once_started<S>(m: DecoderModel<S>, note_held: bool)
    requires
        m.started || note_held,
    ensures
        spec_poll(m, note_held).0.started,
        !(spec_poll(m, note_held).1 is Silence),
{
}

/// A rendered frame comes out left first, then right, and only then is the
/// next frame asked for, whatever the notes do in between.
pub proof fn lemma_frame_left_then_right<S>(
    m: DecoderModel<S>,
    left: S,
    right: S,
    held_right: bool,
    held_next: bool,
)
    requires
        m.started,
        m.pending is None,
    ensures
        spec_poll(m, false).1 is Render,
        ({
            let (m1, l) = spec_accept_frame(spec_poll(m, false).0, left, right);
            let (m2, p2) = spec_poll(m1, held_right);
            &&& l == left
            &&& p2 == Poll::Sample(right)
            &&& spec_poll(m2, held_next).1 is Render
        }),
{
}

/// A started decoder turns `n` frames into exactly the `2 * n` samples
/// left, right, left, right, ... of those frames, in order, whatever the notes
/// do meanwhile: no sample is dropped, repeated or reordered.
pub proof fn lemma_stream_interleaves<S>(m: DecoderModel<S>, holds: Seq<bool>, frames: Seq<(S, S)>)
    requires
        m.started,
        m.pending is None,
        holds.len() == 2 * frames.len(),
    ensures
        spec_stream(m, holds, frames) == interleave(frames).map_values(|s: S| Some(s)),
    decreases frames.len(),
{
    if frames.len() == 0 {
        assert(interleave(frames).map_values(|s: S| Some(s)) =~= Seq::<Option<S>>::empty());
    } else {
        let f0 = frames[0];
        let rest_frames = frames.drop_first();
        let (m1, o1, u1) = spec_draw(m, holds[0], frames[0]);
        assert(u1);
        assert(o1 == Some(f0.0));
        let g1 = holds.drop_first();
        let (m2, o2, u2) = spec_draw(m1, g1[0], rest_frames[0]);
        assert(!u2);
        assert(o2 == Some(f0.1));
        let g2 = g1.drop_first();
        assert(m2.started && m2.pending is None);
        lemma_stream_interleaves(m2, g2, rest_frames);
        assert(spec_stream(m1, g1, rest_frames) == seq![o2] + spec_stream(m2, g2, rest_frames));
        assert(spec_stream(m, holds, frames) == seq![o1] + spec_stream(m1, g1, rest_frames));
        assert(interleave(frames) == seq![f0.0, f0.1] + interleave(rest_frames));
        assert(spec_stream(m, holds, frames) =~= interleave(frames).map_values(|s: S| Some(s)));
    }
}

/// The first held note starts a fresh decoder, which then asks for a frame.
pub proof fn lemma_first_note_renders<S>(m: DecoderModel<S>)
    requires
        !m.started,
        m.pending is None,
    ensures
        spec_poll(m, true).1 is Render,
        spec_poll(m, true).0.started,
        spec_poll(m, true).0.pending is None,
{
}

/// A waiting right sample is handed out next, whether a note is held or not
/// (once started), and nothing is left waiting afterwards.
pub proof fn lemma_waiting_sample_comes_next<S>(m: DecoderModel<S>, right: S, note_held: bool)
    requires
        m.started,
        m.pending == Some(right),
    ensures
        spec_poll(m, note_held).1 == Poll::Sample(right),
        spec_poll(m, note_held).0.started,
        spec_poll(m, note_held).0.pending is None,
{
}

/// Handing in a frame emits its left sample, keeps its right sample waiting
/// and does not change whether the decoder has started.
pub proof fn lemma_accept_frame_keeps_right<S>(m: DecoderModel<S>, left: S, right: S)
    ensures
        spec_accept_frame(m, left, right).1 == left,
        spec_accept_frame(m, left, right).0.pending == Some(right),
        spec_accept_frame(m, left, right).0.started == m.started,
{
}

/// Laid out one sample after another, `n` frames give `2 * n` samples: the
/// left sample of frame `i` at `2 * i` and its right sample at `2 * i + 1`.
pub proof fn lemma_interleave_layout<S>(frames: Seq<(S, S)>)
    ensures
        interleave(frames).len() == 2 * frames.len(),
        forall|i: int|
            0 <= i < frames.len() ==> #[trigger] interleave(frames)[2 * i] == frames[i].0
                && interleave(frames)[2 * i + 1] == frames[i].1,
    decreases frames.len(),
{
    if frames.len() > 0 {
        let rest = frames.drop_first();
        lemma_interleave_layout(rest);
        let whole = interleave(frames);
        assert(whole == seq![frames[0].0, frames[0].1] + interleave(rest));
        assert forall|i: int| 0 <= i < frames.len() implies #[trigger] whole[2 * i] == frames[i].0
            && whole[2 * i + 1] == frames[i].1 by {
            if i > 0 {
                assert(rest[i - 1] == frames[i]);
                assert(whole[2 * i] == interleave(rest)[2 * (i - 1)]);
                assert(whole[2 * i + 1] == interleave(rest)[2 * (i - 1) + 1]);
            }
        }
    }
}

} // verus!
