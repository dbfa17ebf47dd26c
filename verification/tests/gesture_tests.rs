use gallery_core::gesture::{
    GestureDetector, GestureDetectorTypes, GestureEvent, InputEvent, TouchData,
};

fn td(finger: i64, x: i32, y: i32, dx: i32, dy: i32, t: u64) -> TouchData {
    TouchData { touch_id: 1, finger_id: finger, x, y, dx, dy, timestamp: t, pressure: 5000 }
}

fn tap_detector() -> GestureDetector {
    GestureDetector::new(vec![GestureDetectorTypes::Tap])
}

fn pan_detector() -> GestureDetector {
    GestureDetector::new(vec![GestureDetectorTypes::Pan])
}

#[test]
fn quick_touch_emits_exactly_one_tap() {
    let mut d = tap_detector();
    d.feed(&InputEvent::FingerDown(td(7, 5000, 5000, 0, 0, 1000)));
    assert_eq!(d.poll(), vec![]);
    d.feed(&InputEvent::FingerUp(td(7, 5100, 5050, 0, 0, 1100)));
    assert_eq!(d.poll(), vec![GestureEvent::Tap(5100, 5050)]);
    assert_eq!(d.poll(), vec![]);
}

#[test]
fn second_tap_within_window_becomes_double_tap() {
    let mut d = tap_detector();
    d.feed(&InputEvent::FingerDown(td(7, 5000, 5000, 0, 0, 1000)));
    d.feed(&InputEvent::FingerUp(td(7, 5000, 5000, 0, 0, 1050)));
    assert_eq!(d.poll(), vec![GestureEvent::Tap(5000, 5000)]);
    d.feed(&InputEvent::FingerDown(td(7, 5060, 5000, 0, 0, 1200)));
    d.feed(&InputEvent::FingerUp(td(7, 5080, 5010, 0, 0, 1260)));
    assert_eq!(d.poll(), vec![GestureEvent::DoubleTap(5080, 5010)]);
    // the double tap cleared the anchor: a third quick pair is a plain tap
    d.feed(&InputEvent::FingerDown(td(7, 5080, 5010, 0, 0, 1400)));
    d.feed(&InputEvent::FingerUp(td(7, 5080, 5010, 0, 0, 1450)));
    assert_eq!(d.poll(), vec![GestureEvent::Tap(5080, 5010)]);
}

#[test]
fn distant_second_tap_stays_single() {
    let mut d = tap_detector();
    d.feed(&InputEvent::FingerDown(td(7, 1000, 1000, 0, 0, 0)));
    d.feed(&InputEvent::FingerUp(td(7, 1000, 1000, 0, 0, 50)));
    assert_eq!(d.poll(), vec![GestureEvent::Tap(1000, 1000)]);
    d.feed(&InputEvent::FingerDown(td(7, 9000, 9000, 0, 0, 150)));
    d.feed(&InputEvent::FingerUp(td(7, 9000, 9000, 0, 0, 200)));
    assert_eq!(d.poll(), vec![GestureEvent::Tap(9000, 9000)]);
}

#[test]
fn slow_touch_is_no_tap() {
    let mut d = tap_detector();
    d.feed(&InputEvent::FingerDown(td(7, 5000, 5000, 0, 0, 1000)));
    d.feed(&InputEvent::FingerUp(td(7, 5000, 5000, 0, 0, 1200)));
    assert_eq!(d.poll(), vec![]);
}

#[test]
fn far_touch_up_is_no_tap() {
    let mut d = tap_detector();
    d.feed(&InputEvent::FingerDown(td(7, 5000, 5000, 0, 0, 1000)));
    d.feed(&InputEvent::FingerUp(td(7, 5500, 5000, 0, 0, 1050)));
    assert_eq!(d.poll(), vec![]);
}

#[test]
fn motion_past_threshold_cancels_tap() {
    let mut d = tap_detector();
    d.feed(&InputEvent::FingerDown(td(7, 5000, 5000, 0, 0, 1000)));
    d.feed(&InputEvent::FingerMotion(td(7, 5250, 5000, 250, 0, 1020)));
    d.feed(&InputEvent::FingerUp(td(7, 5010, 5000, 0, 0, 1050)));
    assert_eq!(d.poll(), vec![]);
}

#[test]
fn small_motion_keeps_tap() {
    let mut d = tap_detector();
    d.feed(&InputEvent::FingerDown(td(7, 5000, 5000, 0, 0, 1000)));
    d.feed(&InputEvent::FingerMotion(td(7, 5100, 5000, 100, 0, 1020)));
    d.feed(&InputEvent::FingerUp(td(7, 5010, 5000, 0, 0, 1050)));
    assert_eq!(d.poll(), vec![GestureEvent::Tap(5010, 5000)]);
}

#[test]
fn pan_follows_single_touch() {
    let mut d = pan_detector();
    d.feed(&InputEvent::FingerDown(td(7, 1000, 1000, 0, 0, 0)));
    assert_eq!(
        d.poll(),
        vec![GestureEvent::PanStart { timestamp: 0, x: 1000, y: 1000, dx: 0, dy: 0, pressure: 5000 }]
    );
    d.feed(&InputEvent::FingerMotion(td(7, 1200, 1000, 200, 0, 16)));
    assert_eq!(
        d.poll(),
        vec![GestureEvent::Pan { timestamp: 16, x: 1200, y: 1000, dx: 200, dy: 0, pressure: 5000 }]
    );
    d.feed(&InputEvent::FingerUp(td(7, 1200, 1000, 0, 0, 32)));
    assert_eq!(
        d.poll(),
        vec![GestureEvent::PanEnd { timestamp: 32, x: 1200, y: 1000, dx: 0, dy: 0, pressure: 5000 }]
    );
}

#[test]
fn second_finger_suppresses_pan_until_back_to_one() {
    let mut d = pan_detector();
    d.feed(&InputEvent::FingerDown(td(7, 1000, 1000, 0, 0, 0)));
    d.poll();
    assert_eq!(d.fingers(), 1);
    // second finger: its touch-down re-anchors, and motion no longer pans
    d.feed(&InputEvent::FingerDown(td(8, 4000, 4000, 0, 0, 10)));
    assert_eq!(
        d.poll(),
        vec![GestureEvent::PanStart { timestamp: 10, x: 4000, y: 4000, dx: 0, dy: 0, pressure: 5000 }]
    );
    assert_eq!(d.fingers(), 2);
    d.feed(&InputEvent::FingerMotion(td(8, 4200, 4000, 200, 0, 20)));
    assert_eq!(d.poll(), vec![]);
    d.feed(&InputEvent::FingerMotion(td(7, 1100, 1000, 100, 0, 20)));
    assert_eq!(d.poll(), vec![]);
    // first finger lifts: not the tracked pointer, so no pan-end either
    d.feed(&InputEvent::FingerUp(td(7, 1100, 1000, 0, 0, 30)));
    assert_eq!(d.poll(), vec![]);
    assert_eq!(d.fingers(), 1);
    // back to one finger matching the tracked id: panning resumes
    d.feed(&InputEvent::FingerMotion(td(8, 4300, 4000, 100, 0, 40)));
    assert_eq!(
        d.poll(),
        vec![GestureEvent::Pan { timestamp: 40, x: 4300, y: 4000, dx: 100, dy: 0, pressure: 5000 }]
    );
}

#[test]
fn mixed_detector_collects_in_configured_order() {
    let mut d = GestureDetector::new(vec![GestureDetectorTypes::Pan, GestureDetectorTypes::Tap]);
    d.feed(&InputEvent::FingerDown(td(7, 5000, 5000, 0, 0, 0)));
    d.feed(&InputEvent::FingerUp(td(7, 5000, 5000, 0, 0, 50)));
    assert_eq!(
        d.poll(),
        vec![
            GestureEvent::PanStart { timestamp: 0, x: 5000, y: 5000, dx: 0, dy: 0, pressure: 5000 },
            GestureEvent::PanEnd { timestamp: 50, x: 5000, y: 5000, dx: 0, dy: 0, pressure: 5000 },
            GestureEvent::Tap(5000, 5000),
        ]
    );
}
