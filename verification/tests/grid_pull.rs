use scanner_synth::grid_pull::{toggle_grid_pull, BallMotion, MotionEffect};

#[test]
fn motion_starts_free() {
    assert_eq!(BallMotion::default(), BallMotion::Free);
    assert!(!BallMotion::default().pulls_to_grid());
}

#[test]
fn toggling_enters_then_leaves_the_pull() {
    let (pulled, effect) = toggle_grid_pull(BallMotion::Free);
    assert_eq!(pulled, BallMotion::PulledToGrid);
    assert_eq!(effect, MotionEffect::StopSoundObjects);
    assert!(pulled.pulls_to_grid());

    let (free, effect) = toggle_grid_pull(pulled);
    assert_eq!(free, BallMotion::Free);
    assert_eq!(effect, MotionEffect::ReleaseSoundObjects);
    assert!(!free.pulls_to_grid());
}

#[test]
fn toggling_twice_restores_the_mode() {
    for motion in [BallMotion::Free, BallMotion::PulledToGrid] {
        let (once, first) = toggle_grid_pull(motion);
        let (twice, second) = toggle_grid_pull(once);
        assert_ne!(once, motion);
        assert_eq!(twice, motion);
        assert_ne!(first, second);
    }
}
