//! The step grid: one scanner sweep across the window is one bar of 1/16 steps.

use vstd::prelude::*;

verus! {

/// Steps in one bar; one scanner sweep covers exactly one bar.
pub const STEPS_PER_BAR: u32 = 16;

/// Steps in one beat; the first step of each beat gets a stronger line.
pub const STEPS_PER_BEAT: u32 = 4;

/// How a grid line is drawn.
#[derive(Clone, Copy, Debug, PartialEq, Eq, Structural)]
pub enum LineKind {
    /// The first step of a beat: drawn wider and brighter.
    Beat,
    /// Any other step.
    Step,
}

/// The kind of the line at `step`.
pub open spec fn spec_line_kind(step: int) -> LineKind {
    if step % (STEPS_PER_BEAT as int) == 0 {
        LineKind::Beat
    } else {
        LineKind::Step
    }
}

/// The index of the last step of the bar.
pub open spec fn last_step() -> int {
    STEPS_PER_BAR - 1
}

/// `rounded` held inside the bar: below the first step gives the first, past
/// the last step gives the last.
pub open spec fn spec_nearest_step(rounded: int) -> int {
    if rounded < 0 {
        0
    } else if rounded > last_step() {
        last_step()
    } else {
        rounded
    }
}

/// The kind of line drawn at `step`: a beat line on the first step of each beat.
pub fn line_kind(step: u32) -> (kind: LineKind)
    ensures
        kind == spec_line_kind(step as int),
{
    if step % STEPS_PER_BEAT == 0 {
        LineKind::Beat
    } else {
        LineKind::Step
    }
}

/// The lines of one bar, one per step, in order from the left edge.
pub fn bar_lines() -> (lines: Vec<LineKind>)
    ensures
        lines@.len() == STEPS_PER_BAR,
        forall|i: int| 0 <= i < STEPS_PER_BAR ==> #[trigger] lines@[i] == spec_line_kind(i),
{
    let mut lines: Vec<LineKind> = Vec::new();
    let mut step: u32 = 0;
    while step < STEPS_PER_BAR
        invariant
            step <= STEPS_PER_BAR,
            lines@.len() == step,
            forall|i: int| 0 <= i < step ==> #[trigger] lines@[i] == spec_line_kind(i),
        decreases STEPS_PER_BAR - step,
    {
        lines.push(line_kind(step));
        step = step + 1;
    }
    lines
}

/// The step whose line is nearest, given the position already divided by the
/// step width and rounded: held to the steps of the bar.
pub fn nearest_step(rounded: i64) -> (step: u32)
    ensures
        step == spec_nearest_step(rounded as int),
        step < STEPS_PER_BAR,
{
    if rounded < 0 {
        0
    } else if rounded > (STEPS_PER_BAR - 1) as i64 {
        STEPS_PER_BAR - 1
    } else {
        rounded as u32
    }
}

/// The beat lines of a bar are exactly the steps 0, 4, 8 and 12: four beats
/// to the bar.
pub proof fn lemma_beat_lines(step: int)
    requires
        0 <= step < STEPS_PER_BAR,
    ensures
        (spec_line_kind(step) == LineKind::Beat) <==> (step == 0 || step == 4 || step == 8 || step
            == 12),
{
}

/// A step of the bar is its own nearest step, so a ball on a line stays there.
pub proof fn lemma_nearest_step_of_a_step(step: int)
    requires
        0 <= step < STEPS_PER_BAR,
    ensures
        spec_nearest_step(step) == step,
{
}

/// Finding the nearest step again changes nothing.
pub proof fn lemma_nearest_step_idempotent(rounded: int)
    ensures
        spec_nearest_step(spec_nearest_step(rounded)) == spec_nearest_step(rounded),
{
}

/// Further right never gives a step further left.
pub proof fn lemma_nearest_step_monotone(left: int, right: int)
    requires
        left <= right,
    ensures
        spec_nearest_step(left) <= spec_nearest_step(right),
{
}

/// The pattern of lines repeats every beat: the first step of a beat is a beat
/// line and the three steps after it are plain step lines.
pub proof fn lemma_line_kind_per_beat(beat: int)
    requires
        beat >= 0,
    ensures
        spec_line_kind(4 * beat) == LineKind::Beat,
        spec_line_kind(4 * beat + 1) == LineKind::Step,
        spec_line_kind(4 * beat + 2) == LineKind::Step,
        spec_line_kind(4 * beat + 3) == LineKind::Step,
{
}

/// A position left of the bar snaps to the first step, one right of it to the
/// last step, and the step found always lies inside the bar.
pub proof fn lemma_nearest_step_outside_bar(rounded: int)
    ensures
        0 <= spec_nearest_step(rounded) < STEPS_PER_BAR,
        rounded < 0 ==> spec_nearest_step(rounded) == 0,
        rounded >= STEPS_PER_BAR ==> spec_nearest_step(rounded) == STEPS_PER_BAR - 1,
{
}

} // verus!
