use gallery_core::transition::Transition;

#[test]
fn step_at_zero_elapsed_returns_start() {
    let mut t = Transition::new(40, 100, 300, 1000);
    assert_eq!(t.step(1000), 40);
    assert!(!t.at_end());
}

#[test]
fn step_midway_eases_out() {
    // ease-out-quadratic at u = 1/2 is 3/4 of the distance
    let mut t = Transition::new(0, 100, 300, 1000);
    assert_eq!(t.step(1150), 75);
    assert!(!t.at_end());
}

#[test]
fn step_midway_negative_distance() {
    let mut t = Transition::new(100, 0, 300, 1000);
    assert_eq!(t.step(1150), 25);
}

#[test]
fn step_at_boundary_latches_target_exactly() {
    let mut t = Transition::new(0, 100, 300, 1000);
    assert_eq!(t.step(1300), 100);
    assert!(t.at_end());
    // repeated calls keep returning exactly the target, even if the
    // clock reads earlier than the boundary
    assert_eq!(t.step(1400), 100);
    assert_eq!(t.step(1100), 100);
    assert!(t.at_end());
    assert_eq!(t.target_val(), 100);
}

#[test]
fn zero_duration_finishes_immediately() {
    let mut t = Transition::new(7, 9, 0, 500);
    assert_eq!(t.step(500), 9);
    assert!(t.at_end());
}

#[test]
fn clock_before_start_counts_as_zero_elapsed() {
    let mut t = Transition::new(40, 100, 300, 1000);
    assert_eq!(t.step(900), 40);
    assert!(!t.at_end());
}
