use gallery_core::cache::TextureCache;
use gallery_core::config::{Config, Gallery, GalleryItem};
use gallery_core::gesture::{InputEvent, TouchData};
use gallery_core::stage::{Scene, Stage};
use gallery_core::view::{GalleryView, Preview};

fn td(finger: i64, x: i32, y: i32, dx: i32, dy: i32, t: u64) -> TouchData {
    TouchData { touch_id: 1, finger_id: finger, x, y, dx, dy, timestamp: t, pressure: 5000 }
}

fn twelve_pics() -> Config {
    let mut pics = Vec::new();
    for i in 0..12 {
        pics.push(GalleryItem {
            url: format!("img{}.jpg", i),
            preview: format!("thumb{}.jpg", i),
        });
    }
    Config::new(640, 500, Gallery { pics })
}

fn build_stage(cfg: &Config, cache: &mut TextureCache) -> Stage {
    let mut stage = Stage::new();
    stage.add_scene("gallery", Scene::Gallery(GalleryView::new(cfg, cache)));
    stage.add_scene("preview", Scene::Preview(Preview::new(cfg, cache)));
    stage.start("gallery", cfg, cache);
    stage
}

#[test]
fn gallery_loads_visible_thumbnails_on_build() {
    let cfg = twelve_pics();
    let mut cache = TextureCache::new();
    let _g = GalleryView::new(&cfg, &mut cache);
    // all 12 thumbnails sit in the four visible rows of a 500 px viewport
    let reqs = cache.take_requests();
    assert_eq!(reqs.len(), 12);
    assert_eq!(reqs[0], "thumb0.jpg".to_string());
    assert_eq!(reqs[11], "thumb11.jpg".to_string());
}

#[test]
fn unknown_scene_name_is_a_no_op() {
    let cfg = twelve_pics();
    let mut cache = TextureCache::new();
    let mut stage = build_stage(&cfg, &mut cache);
    assert_eq!(stage.active, Some(0));
    stage.start("settings", &cfg, &mut cache);
    assert_eq!(stage.active, Some(0));
}

#[test]
fn tap_on_thumbnail_opens_preview_with_its_index() {
    let cfg = twelve_pics();
    let mut cache = TextureCache::new();
    let mut stage = build_stage(&cfg, &mut cache);
    // grid cell 0 spans pixels [10, 126); normalized 1100 lands at 70 px
    let r1 = stage.handle_events(
        &InputEvent::FingerDown(td(1, 1100, 1100, 0, 0, 1000)),
        &cfg,
        &mut cache,
        1000,
    );
    let r2 = stage.handle_events(
        &InputEvent::FingerUp(td(1, 1100, 1100, 0, 0, 1050)),
        &cfg,
        &mut cache,
        1050,
    );
    assert!(r1.is_none() && r2.is_none());
    // the stage intercepted the action: parameter stashed, preview active
    assert_eq!(stage.get_params(), Some(0));
    assert_eq!(stage.active, Some(1));
    match &stage.scenes[1].1 {
        Scene::Preview(p) => {
            assert_eq!(p.img_idx, 0);
            assert_eq!(p.curr.content.get_src(), "img0.jpg");
        },
        _ => panic!("preview scene expected"),
    }
}

#[test]
fn tap_on_second_row_cell_picks_the_right_index() {
    let cfg = twelve_pics();
    let mut cache = TextureCache::new();
    let mut stage = build_stage(&cfg, &mut cache);
    // cell 6 (row 1, column 1) centers at (194, 199) px
    let x = 3000;  // 192 px
    let y = 4000;  // 200 px
    stage.handle_events(&InputEvent::FingerDown(td(1, x, y, 0, 0, 0)), &cfg, &mut cache, 0);
    stage.handle_events(&InputEvent::FingerUp(td(1, x, y, 0, 0, 50)), &cfg, &mut cache, 50);
    assert_eq!(stage.get_params(), Some(6));
}

#[test]
fn back_button_returns_to_gallery() {
    let cfg = twelve_pics();
    let mut cache = TextureCache::new();
    let mut stage = build_stage(&cfg, &mut cache);
    stage.set_params(3);
    stage.start("preview", &cfg, &mut cache);
    assert_eq!(stage.active, Some(1));
    // the back button sits at (594..630, 10..46): 9380 -> 600 px,
    // 500 -> 25 px
    stage.handle_events(&InputEvent::FingerDown(td(1, 9380, 500, 0, 0, 0)), &cfg, &mut cache, 0);
    stage.handle_events(&InputEvent::FingerUp(td(1, 9380, 500, 0, 0, 50)), &cfg, &mut cache, 50);
    assert_eq!(stage.active, Some(0));
}

#[test]
fn gallery_drag_is_damped_past_the_top_border() {
    let cfg = twelve_pics();
    let mut cache = TextureCache::new();
    let mut g = GalleryView::new(&cfg, &mut cache);
    g.handle_events(&InputEvent::FingerDown(td(1, 5000, 2000, 0, 0, 0)), 0);
    // dragging down from the top border overscrolls: 1000 units are
    // 50 px, damped by the rubber-band ramp to 34.08 px
    g.handle_events(&InputEvent::FingerMotion(td(1, 5000, 3000, 0, 1000, 16)), 16);
    assert_eq!(g.translate_y, 34_080);
}

#[test]
fn gallery_renders_only_visible_cells() {
    let cfg = twelve_pics();
    let mut cache = TextureCache::new();
    let g = GalleryView::new(&cfg, &mut cache);
    // nothing decoded yet: nothing to draw
    let rect = gallery_core::geom::Rect { x: 0, y: 0, w: 640, h: 500 };
    assert_eq!(g.render(&cache, rect).len(), 0);
    // decode one thumbnail: exactly one draw command appears
    cache.loaded("thumb3.jpg", 300, 300, 11);
    let cmds = g.render(&cache, rect);
    assert_eq!(cmds.len(), 1);
    assert_eq!(cmds[0].tex, 11);
    // cell 3 (row 0, column 3): center x = 10 + 58 + 126 * 3 = 446
    assert_eq!(cmds[0].dst.x, 446 - 58);
    assert_eq!(cmds[0].dst.y, 68 - 58);
    assert_eq!(cmds[0].dst.w, 116);
    assert_eq!(cmds[0].dst.h, 116);
}

#[test]
fn registering_a_used_name_replaces_the_scene() {
    let cfg = twelve_pics();
    let mut cache = TextureCache::new();
    let mut stage = Stage::new();
    let g1 = GalleryView::new(&cfg, &mut cache);
    let mut g2 = GalleryView::new(&cfg, &mut cache);
    g2.translate_y = -7_000;
    stage.add_scene("gallery", Scene::Gallery(g1));
    stage.add_scene("gallery", Scene::Gallery(g2));
    // at most one scene per name: the second registration replaced the
    // first instead of shadowing it
    assert_eq!(stage.scenes.len(), 1);
    match &stage.scenes[0].1 {
        Scene::Gallery(g) => assert_eq!(g.translate_y, -7_000),
        _ => panic!("gallery scene expected"),
    }
    stage.start("gallery", &cfg, &mut cache);
    assert_eq!(stage.active, Some(0));
}
