use gallery_core::frame_rate::FrameRate;

#[test]
fn framerate_works() {
    let mut rate = FrameRate::new(200);
    for _ in 0..10 {
        rate.tick(0);
    }
    assert!(rate.get() == 10);
    // one second and a bit later, everything older has left the window
    rate.tick(1_100);
    assert!(rate.get() == 1);
}

#[test]
fn framerate_window_is_one_second() {
    let mut rate = FrameRate::new(200);
    rate.tick(0);
    rate.tick(500);
    rate.tick(1_000);
    // 0 is exactly at the window edge (1000 older than 1000): it stays
    assert_eq!(rate.get(), 3);
    rate.tick(1_400);
    // 0 has aged out, 500/1000/1400 remain
    assert_eq!(rate.get(), 3);
    rate.tick(2_500);
    assert_eq!(rate.get(), 1);
}

#[test]
fn framerate_mean_smooths() {
    let mut rate = FrameRate::new(200);
    rate.tick(0);
    rate.tick(10);
    // window count is 2; the first smoothed value is that count
    assert_eq!(rate.mean(), 2);
}
