//! The switch between sound objects moving freely and being pulled onto the grid.

use vstd::prelude::*;

verus! {

/// Whether sound objects move freely or are pulled onto the grid.
#[derive(Clone, Copy, Debug, PartialEq, Eq, Structural)]
pub enum BallMotion {
    /// Sound objects fly around on their own; the starting mode.
    Free,
    /// Every sound object is pulled toward its nearest grid line.
    PulledToGrid,
}

/// What has to happen to every sound object when the mode changes.
#[derive(Clone, Copy, Debug, PartialEq, Eq, Structural)]
pub enum MotionEffect {
    /// Entering the pull: stop them, so only grid gravity moves them from here on.
    StopSoundObjects,
    /// Leaving the pull: drop the grid force and damping and launch them again.
    ReleaseSoundObjects,
}

/// The other mode.
pub open spec fn spec_toggled(motion: BallMotion) -> BallMotion {
    match motion {
        BallMotion::Free => BallMotion::PulledToGrid,
        BallMotion::PulledToGrid => BallMotion::Free,
    }
}

/// What switching away from `motion` does to the sound objects.
pub open spec fn spec_switch_effect(motion: BallMotion) -> MotionEffect {
    match motion {
        BallMotion::Free => MotionEffect::StopSoundObjects,
        BallMotion::PulledToGrid => MotionEffect::ReleaseSoundObjects,
    }
}

impl Default for BallMotion {
    fn default() -> (motion: BallMotion)
        ensures
            motion == BallMotion::Free,
    {
        BallMotion::Free
    }
}

impl BallMotion {
    /// Whether grid gravity acts on the sound objects in this mode.
    pub fn pulls_to_grid(&self) -> (pulls: bool)
        ensures
            pulls == (*self == BallMotion::PulledToGrid),
    {
        match self {
            BallMotion::Free => false,
            BallMotion::PulledToGrid => true,
        }
    }
}

/// Switches between moving freely and being pulled onto the grid, and says
/// what the switch does to the sound objects: entering the pull stops them,
/// leaving it releases them.
pub fn toggle_grid_pull(motion: BallMotion) -> (switched: (BallMotion, MotionEffect))
    ensures
        switched.0 == spec_toggled(motion),
        switched.1 == spec_switch_effect(motion),
{
    match motion {
        BallMotion::Free => (BallMotion::PulledToGrid, MotionEffect::StopSoundObjects),
        BallMotion::PulledToGrid => (BallMotion::Free, MotionEffect::ReleaseSoundObjects),
    }
}

/// Each switch changes the mode, and two switches bring it back.
pub proof fn lemma_toggle_twice(motion: BallMotion)
    ensures
        spec_toggled(motion) != motion,
        spec_toggled(spec_toggled(motion)) == motion,
{
}

/// Sound objects are stopped exactly when the pull begins and released exactly
/// when it ends, so every pull that starts is later undone by a release.
pub proof fn lemma_effect_follows_mode(motion: BallMotion)
    ensures
        (spec_switch_effect(motion) == MotionEffect::StopSoundObjects) <==> (spec_toggled(motion)
            == BallMotion::PulledToGrid),
        (spec_switch_effect(motion) == MotionEffect::ReleaseSoundObjects) <==> (motion
            == BallMotion::PulledToGrid),
        spec_switch_effect(motion) != spec_switch_effect(spec_toggled(motion)),
{
}

/// Switching from moving freely pulls the sound objects onto the grid and
/// stops them; switching from the pull frees them and releases them.
pub proof fn lemma_switch_cases()
    ensures
        spec_toggled(BallMotion::Free) == BallMotion::PulledToGrid,
        spec_switch_effect(BallMotion::Free) == MotionEffect::StopSoundObjects,
        spec_toggled(BallMotion::PulledToGrid) == BallMotion::Free,
        spec_switch_effect(BallMotion::PulledToGrid) == MotionEffect::ReleaseSoundObjects,
{
}

} // verus!
