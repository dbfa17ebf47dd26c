use gallery_core::cache::TextureCache;
use gallery_core::config::{Config, Gallery, GalleryItem};
use gallery_core::display::{FillMode, Image};
use gallery_core::geom::Rect;
use gallery_core::mean::Mean;
use gallery_core::util::{get_window_dimensiton, get_window_dimention, rust_pow};
use gallery_core::view::get_row_layout;

#[test]
fn grid_layout_formula() {
    // n = floor((640 - 10) / 110) = 5 columns; the leftover width is
    // redistributed: item = 630 / 5 - 10 = 116; for 12 items,
    // scroll_height = ceil(12 / 5) * (116 + 10) + 10 = 388
    let l = get_row_layout(12, 640, 500).unwrap();
    assert_eq!(l.n, 5);
    assert_eq!(l.item_width, 116);
    assert_eq!(l.item_height, 116);
    assert_eq!(l.scroll_height, 388);
    assert_eq!(l.max_scroll, 0);
}

#[test]
fn grid_layout_scrolls_when_tall() {
    let l = get_row_layout(50, 640, 500).unwrap();
    assert_eq!(l.n, 5);
    assert_eq!(l.scroll_height, 10 * 126 + 10);
    assert_eq!(l.max_scroll, 1270 - 500);
}

#[test]
fn grid_layout_rejects_narrow_viewport() {
    assert!(get_row_layout(12, 100, 500).is_none());
    assert!(get_row_layout(12, 5, 500).is_none());
}

#[test]
fn cover_and_contain_sizes() {
    // wide image into a square target
    assert_eq!(Image::cover_size(200, 100, 100, 100), (200, 100));
    assert_eq!(Image::contain_size(200, 100, 100, 100), (100, 50));
    // tall image into a square target
    assert_eq!(Image::cover_size(100, 200, 100, 100), (100, 200));
    assert_eq!(Image::contain_size(100, 200, 100, 100), (50, 100));
    // matching aspect ratios fill exactly
    assert_eq!(Image::cover_size(300, 300, 100, 100), (100, 100));
    assert_eq!(Image::contain_size(300, 300, 100, 100), (100, 100));
}

#[test]
fn integer_power() {
    assert_eq!(rust_pow(2, 10), 1024);
    assert_eq!(rust_pow(-3, 3), -27);
    assert_eq!(rust_pow(5, 0), 1);
    assert_eq!(rust_pow(0, 4), 0);
}

#[test]
fn default_window_dimension() {
    assert_eq!(get_window_dimensiton(), (640, 500));
    assert_eq!(get_window_dimention(), (640, 500));
}

#[test]
fn mean_window_slides() {
    let mut m = Mean::new(3);
    m.push(1);
    m.push(2);
    m.push(3);
    assert_eq!(m.get(), 2);
    m.push(4);
    // window is now [2, 3, 4]
    assert_eq!(m.get(), 3);
    m.push(-10);
    // window is now [3, 4, -10]: -3 / 3 = -1
    assert_eq!(m.get(), -1);
}

#[test]
fn config_lookup_by_name() {
    let cfg = Config::new(640, 500, Gallery { pics: vec![] });
    assert_eq!(cfg.get_u32("width"), Some(640));
    assert_eq!(cfg.get_u32("height"), Some(500));
    assert_eq!(cfg.get_u32("depth"), None);
    assert_eq!(cfg.get_gallery().pics.len(), 0);
}

#[test]
fn config_holds_gallery() {
    let cfg = Config::new(640, 500, Gallery {
        pics: vec![GalleryItem { url: "a.jpg".to_string(), preview: "a_t.jpg".to_string() }],
    });
    assert_eq!(cfg.get_gallery().pics[0].url, "a.jpg");
    assert_eq!(cfg.get_gallery().pics[0].preview, "a_t.jpg");
}

#[test]
fn image_render_centers_contained_content() {
    let mut cache = TextureCache::new();
    cache.loaded("pic.jpg", 200, 100, 3);
    let img = Image::new("pic.jpg".to_string());
    let rect = Rect { x: 0, y: 0, w: 100, h: 100 };
    let cmd = img.render(&cache, rect).unwrap();
    assert_eq!(cmd.tex, 3);
    assert_eq!(cmd.src, Rect { x: 0, y: 0, w: 200, h: 100 });
    // contain: 100 x 50, letterboxed vertically
    assert_eq!(cmd.dst, Rect { x: 0, y: 25, w: 100, h: 50 });
    assert_eq!(cmd.clip, rect);
}

#[test]
fn image_render_skips_undecoded_and_degenerate_entries() {
    let mut cache = TextureCache::new();
    let img = Image::new("pic.jpg".to_string());
    let rect = Rect { x: 0, y: 0, w: 100, h: 100 };
    assert!(img.render(&cache, rect).is_none());
    cache.loaded("pic.jpg", 0, 100, 3);
    assert!(img.render(&cache, rect).is_none());
}

#[test]
fn cover_mode_crops_instead_of_letterboxing() {
    let mut cache = TextureCache::new();
    cache.loaded("pic.jpg", 200, 100, 3);
    let mut img = Image::new("pic.jpg".to_string());
    img.set_fill(FillMode::Cover);
    let rect = Rect { x: 0, y: 0, w: 100, h: 100 };
    let cmd = img.render(&cache, rect).unwrap();
    // cover: 200 x 100, cropped horizontally
    assert_eq!(cmd.dst, Rect { x: -50, y: 0, w: 200, h: 100 });
}
