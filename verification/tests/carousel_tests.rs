use gallery_core::cache::TextureCache;
use gallery_core::config::{Config, Gallery, GalleryItem};
use gallery_core::gesture::{InputEvent, TouchData};
use gallery_core::view::Preview;

fn td(finger: i64, x: i32, y: i32, dx: i32, dy: i32, t: u64) -> TouchData {
    TouchData { touch_id: 1, finger_id: finger, x, y, dx, dy, timestamp: t, pressure: 5000 }
}

fn three_pics() -> Config {
    Config::new(640, 500, Gallery {
        pics: vec![
            GalleryItem { url: "a.jpg".to_string(), preview: "a_t.jpg".to_string() },
            GalleryItem { url: "b.jpg".to_string(), preview: "b_t.jpg".to_string() },
            GalleryItem { url: "c.jpg".to_string(), preview: "c_t.jpg".to_string() },
        ],
    })
}

fn drag(p: &mut Preview, cfg: &Config, cache: &TextureCache, dx: i32, t0: u64) {
    p.handle_events(&InputEvent::FingerDown(td(1, 5000, 5000, 0, 0, t0)), cfg, cache, t0);
    p.handle_events(
        &InputEvent::FingerMotion(td(1, 5000 + dx, 5000, dx, 0, t0 + 16)),
        cfg,
        cache,
        t0 + 16,
    );
    p.handle_events(
        &InputEvent::FingerUp(td(1, 5000 + dx, 5000, 0, 0, t0 + 32)),
        cfg,
        cache,
        t0 + 32,
    );
}

fn settle(p: &mut Preview, cfg: &Config, cache: &mut TextureCache, t: u64) {
    p.update(cfg, cache, t);
    p.update(cfg, cache, t + 16);
}

#[test]
fn right_swipe_at_first_picture_is_a_no_op() {
    let cfg = three_pics();
    let mut cache = TextureCache::new();
    let mut p = Preview::new(&cfg, &mut cache);
    p.on_start(Some(0), &cfg, &mut cache);
    assert_eq!(p.img_idx, 0);
    // a 3000-unit drag is 192 px, beyond the 150 px threshold
    drag(&mut p, &cfg, &cache, 3000, 1000);
    assert_eq!(p.translate_x, 192_000);
    // the snap-back transition runs its course: index unchanged and the
    // translation restored to exactly zero
    settle(&mut p, &cfg, &mut cache, 1500);
    assert_eq!(p.img_idx, 0);
    assert_eq!(p.translate_x, 0);
    assert!(p.transition.is_none());
}

#[test]
fn left_swipe_at_last_picture_is_a_no_op() {
    let cfg = three_pics();
    let mut cache = TextureCache::new();
    let mut p = Preview::new(&cfg, &mut cache);
    p.on_start(Some(2), &cfg, &mut cache);
    drag(&mut p, &cfg, &cache, -3000, 1000);
    assert_eq!(p.translate_x, -192_000);
    settle(&mut p, &cfg, &mut cache, 1500);
    assert_eq!(p.img_idx, 2);
    assert_eq!(p.translate_x, 0);
}

#[test]
fn committed_swipe_moves_one_slide() {
    let cfg = three_pics();
    let mut cache = TextureCache::new();
    let mut p = Preview::new(&cfg, &mut cache);
    p.on_start(Some(1), &cfg, &mut cache);
    drag(&mut p, &cfg, &cache, -3000, 1000);
    // committed: the transition heads one stride left
    settle(&mut p, &cfg, &mut cache, 1500);
    assert_eq!(p.img_idx, 2);
    assert_eq!(p.translate_x, 0);
    // the slides re-bound: the current slide now shows the third picture
    assert_eq!(p.curr.content.get_src(), "c.jpg");
    assert_eq!(p.prev.content.get_src(), "b.jpg");
    assert_eq!(p.next.content.get_src(), "");
}

#[test]
fn small_drag_snaps_back_to_exactly_zero() {
    let cfg = three_pics();
    let mut cache = TextureCache::new();
    let mut p = Preview::new(&cfg, &mut cache);
    p.on_start(Some(1), &cfg, &mut cache);
    // 300 units is about 19 px, far below the 150 px threshold
    drag(&mut p, &cfg, &cache, 300, 1000);
    assert_eq!(p.translate_x, 19_200);
    settle(&mut p, &cfg, &mut cache, 1500);
    assert_eq!(p.img_idx, 1);
    assert_eq!(p.translate_x, 0);
}

#[test]
fn double_tap_toggles_zoom() {
    let cfg = three_pics();
    let mut cache = TextureCache::new();
    // the middle picture is decoded: 1280 x 500 in a 640 x 500 viewport
    cache.loaded("b.jpg", 1280, 500, 7);
    let mut p = Preview::new(&cfg, &mut cache);
    p.on_start(Some(1), &cfg, &mut cache);
    assert!(!p.curr.zoom_mode);
    let taps = [
        InputEvent::FingerDown(td(1, 5000, 5000, 0, 0, 1000)),
        InputEvent::FingerUp(td(1, 5000, 5000, 0, 0, 1050)),
        InputEvent::FingerDown(td(1, 5000, 5000, 0, 0, 1150)),
        InputEvent::FingerUp(td(1, 5000, 5000, 0, 0, 1200)),
    ];
    for e in &taps {
        p.handle_events(e, &cfg, &cache, 1200);
    }
    // cover/contain width ratio: 1280 / 640 = 2.0
    assert!(p.curr.zoom_mode);
    assert_eq!(p.curr.scale, 2000);
    // zoomed content overhangs horizontally by (2000*640 - 1000*640)/2
    assert_eq!(p.curr.offset_x_limit, 320_000);
    assert_eq!(p.curr.offset_y_limit, 0);
    // the second double tap exits zoom and recenters
    let taps2 = [
        InputEvent::FingerDown(td(1, 5000, 5000, 0, 0, 2000)),
        InputEvent::FingerUp(td(1, 5000, 5000, 0, 0, 2050)),
        InputEvent::FingerDown(td(1, 5000, 5000, 0, 0, 2150)),
        InputEvent::FingerUp(td(1, 5000, 5000, 0, 0, 2200)),
    ];
    for e in &taps2 {
        p.handle_events(e, &cfg, &cache, 2200);
    }
    assert!(!p.curr.zoom_mode);
    assert_eq!(p.curr.scale, 1000);
    assert_eq!(p.curr.offset_x, 0);
    assert_eq!(p.curr.offset_y, 0);
}

#[test]
fn entering_a_picture_requests_its_neighbors() {
    let cfg = three_pics();
    let mut cache = TextureCache::new();
    let mut p = Preview::new(&cfg, &mut cache);
    cache.take_requests();
    p.on_start(Some(1), &cfg, &mut cache);
    let reqs = cache.take_requests();
    assert_eq!(reqs, vec!["a.jpg".to_string(), "b.jpg".to_string(), "c.jpg".to_string()]);
}

#[test]
fn pinch_adjusts_zoom_scale_with_two_fingers() {
    let cfg = three_pics();
    let mut cache = TextureCache::new();
    cache.loaded("b.jpg", 1280, 500, 7);
    let mut p = Preview::new(&cfg, &mut cache);
    p.on_start(Some(1), &cfg, &mut cache);
    // two fingers down, then a widening pinch sample: half the
    // separation delta lands on the scale (in permille)
    p.handle_events(&InputEvent::FingerDown(td(1, 4000, 5000, 0, 0, 0)), &cfg, &cache, 0);
    p.handle_events(&InputEvent::FingerDown(td(2, 6000, 5000, 0, 0, 10)), &cfg, &cache, 10);
    assert_eq!(p.curr.scale, 1000);
    p.handle_events(
        &InputEvent::MultiGesture { x: 5000, y: 5000, d_dist: 800, timestamp: 20 },
        &cfg,
        &cache,
        20,
    );
    assert_eq!(p.curr.scale, 1400);
    assert!(p.curr.zoom_mode);
    // with one finger left the pinch sample is ignored
    p.handle_events(&InputEvent::FingerUp(td(2, 6000, 5000, 0, 0, 30)), &cfg, &cache, 30);
    p.handle_events(
        &InputEvent::MultiGesture { x: 5000, y: 5000, d_dist: 800, timestamp: 40 },
        &cfg,
        &cache,
        40,
    );
    assert_eq!(p.curr.scale, 1400);
}

#[test]
fn zoomed_slide_pans_inside_before_the_carousel_moves() {
    let cfg = three_pics();
    let mut cache = TextureCache::new();
    cache.loaded("b.jpg", 1280, 500, 7);
    let mut p = Preview::new(&cfg, &mut cache);
    p.on_start(Some(1), &cfg, &mut cache);
    // zoom in: pan limit is 320 px of overhang on each side
    let taps = [
        InputEvent::FingerDown(td(1, 5000, 5000, 0, 0, 1000)),
        InputEvent::FingerUp(td(1, 5000, 5000, 0, 0, 1050)),
        InputEvent::FingerDown(td(1, 5000, 5000, 0, 0, 1150)),
        InputEvent::FingerUp(td(1, 5000, 5000, 0, 0, 1200)),
    ];
    for e in &taps {
        p.handle_events(e, &cfg, &cache, 1200);
    }
    assert!(p.curr.zoom_mode);
    // a 64 px drag goes entirely into the inner offset
    p.handle_events(&InputEvent::FingerDown(td(1, 5000, 5000, 0, 0, 2000)), &cfg, &cache, 2000);
    p.handle_events(
        &InputEvent::FingerMotion(td(1, 6000, 5000, 1000, 0, 2016)),
        &cfg,
        &cache,
        2016,
    );
    assert_eq!(p.curr.offset_x, 64_000);
    assert_eq!(p.translate_x, 0);
}

#[test]
fn mid_range_drag_snaps_back_when_not_zoomed() {
    let cfg = three_pics();
    let mut cache = TextureCache::new();
    let mut p = Preview::new(&cfg, &mut cache);
    p.on_start(Some(1), &cfg, &mut cache);
    // 128 px sits between the zoomed (50 px) and unzoomed (150 px)
    // thresholds: without zoom it must snap back, not commit
    drag(&mut p, &cfg, &cache, 2000, 1000);
    assert_eq!(p.translate_x, 128_000);
    settle(&mut p, &cfg, &mut cache, 1500);
    assert_eq!(p.img_idx, 1);
    assert_eq!(p.translate_x, 0);
}

#[test]
fn zoomed_context_commits_at_the_lower_threshold() {
    let cfg = three_pics();
    let mut cache = TextureCache::new();
    cache.loaded("b.jpg", 1280, 500, 7);
    let mut p = Preview::new(&cfg, &mut cache);
    p.on_start(Some(1), &cfg, &mut cache);
    let taps = [
        InputEvent::FingerDown(td(1, 5000, 5000, 0, 0, 0)),
        InputEvent::FingerUp(td(1, 5000, 5000, 0, 0, 50)),
        InputEvent::FingerDown(td(1, 5000, 5000, 0, 0, 150)),
        InputEvent::FingerUp(td(1, 5000, 5000, 0, 0, 200)),
    ];
    for e in &taps {
        p.handle_events(e, &cfg, &cache, 200);
    }
    assert!(p.curr.zoom_mode);
    // a 384 px drag: the zoomed slide absorbs its 320 px of pan room,
    // the outer translation keeps the remaining 64 px
    drag(&mut p, &cfg, &cache, 6000, 1000);
    assert_eq!(p.curr.offset_x, 320_000);
    assert_eq!(p.translate_x, 64_000);
    // 64 px is under 150 but over the zoomed 50 px threshold: commit
    settle(&mut p, &cfg, &mut cache, 1500);
    assert_eq!(p.img_idx, 0);
    assert_eq!(p.translate_x, 0);
    assert_eq!(p.curr.content.get_src(), "a.jpg");
}
