use gallery_core::cache::TextureCache;
use gallery_core::display::{load_img, load_local_img};

#[test]
fn load_issues_one_request_per_outstanding_key() {
    let mut c = TextureCache::new();
    assert!(c.load("a.jpg"));
    // a second load before the first resolves is a no-op
    assert!(!c.load("a.jpg"));
    let reqs = c.take_requests();
    assert_eq!(reqs.len(), 1);
    assert_eq!(reqs[0], "a.jpg".to_string());
    // still in flight: no new request even after the queue was drained
    assert!(!c.load("a.jpg"));
    assert_eq!(c.take_requests().len(), 0);
}

#[test]
fn loaded_entry_serves_lookups_and_stops_reloads() {
    let mut c = TextureCache::new();
    assert!(c.load("a.jpg"));
    c.take_requests();
    assert_eq!(c.get("a.jpg"), None);
    assert_eq!(c.get_texture("a.jpg"), None);
    c.loaded("a.jpg", 800, 600, 42);
    assert_eq!(c.get("a.jpg"), Some((800, 600)));
    assert_eq!(c.get_texture("a.jpg"), Some(42));
    // present keys are never fetched again
    assert!(!c.load("a.jpg"));
    assert_eq!(c.take_requests().len(), 0);
}

#[test]
fn failed_load_leaves_key_absent_and_retryable() {
    let mut c = TextureCache::new();
    assert!(c.load("b.jpg"));
    c.take_requests();
    c.load_err("b.jpg");
    assert_eq!(c.get("b.jpg"), None);
    // the only recovery path is an explicit new load
    assert!(c.load("b.jpg"));
    assert_eq!(c.take_requests().len(), 1);
}

#[test]
fn distinct_keys_are_independent() {
    let mut c = TextureCache::new();
    assert!(c.load("a.jpg"));
    assert!(c.load("b.jpg"));
    let reqs = c.take_requests();
    assert_eq!(reqs.len(), 2);
    c.loaded("a.jpg", 10, 20, 1);
    assert_eq!(c.get("a.jpg"), Some((10, 20)));
    assert_eq!(c.get("b.jpg"), None);
    c.loaded("b.jpg", 30, 40, 2);
    assert_eq!(c.get("b.jpg"), Some((30, 40)));
    assert_eq!(c.get_texture("a.jpg"), Some(1));
}

#[test]
fn reloaded_key_overwrites_its_entry() {
    let mut c = TextureCache::new();
    c.loaded("a.jpg", 10, 20, 1);
    c.loaded("a.jpg", 50, 60, 9);
    assert_eq!(c.get("a.jpg"), Some((50, 60)));
    assert_eq!(c.get_texture("a.jpg"), Some(9));
}

#[test]
fn local_and_remote_images_use_distinct_keys() {
    let mut c = TextureCache::new();
    load_img(&mut c, "list.png");
    load_local_img(&mut c, "list.png");
    let reqs = c.take_requests();
    assert_eq!(reqs, vec!["list.png".to_string(), "!local:list.png".to_string()]);
    // requesting either again is a no-op while both are in flight
    load_img(&mut c, "list.png");
    load_local_img(&mut c, "list.png");
    assert_eq!(c.take_requests().len(), 0);
}
