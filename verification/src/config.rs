//! The application configuration: viewport size and the gallery model.
//!
//! The host derives the viewport from its window metrics and supplies the
//! picture list; the configuration is then an explicit value handed to the
//! views, not an ambient global.

use vstd::prelude::*;

verus! {

/// One picture: the full-size image and its thumbnail.
pub struct GalleryItem {
    pub url: String,
    pub preview: String,
}

/// The ordered list of pictures to show.
pub struct Gallery {
    pub pics: Vec<GalleryItem>,
}

/// Viewports larger than this (in pixels) are rejected as malformed, so
/// every layout computation fits comfortably in 64-bit arithmetic.
pub const MAX_VIEWPORT: u32 = 100_000;

/// No gallery holds more pictures than this; it bounds the grid layout
/// arithmetic.
pub const MAX_PICS: usize = 1_000_000;

/// The viewport size and the gallery to display.
pub struct Config {
    pub width: u32,
    pub height: u32,
    pub gallery: Gallery,
}

impl Config {
    /// Sane machine limits: a bounded viewport and a bounded picture list.
    pub open spec fn wf(self) -> bool {
        &&& self.width <= MAX_VIEWPORT
        &&& self.height <= MAX_VIEWPORT
        &&& self.gallery.pics@.len() <= MAX_PICS
    }

    pub fn new(width: u32, height: u32, gallery: Gallery) -> (r: Config)
        requires
            width <= MAX_VIEWPORT,
            height <= MAX_VIEWPORT,
            gallery.pics@.len() <= MAX_PICS,
        ensures
            r.width == width,
            r.height == height,
            r.gallery == gallery,
            r.wf(),
    {
        Config { width, height, gallery }
    }

    /// Look up a numeric configuration field by name: the two fields are
    /// the viewport's `"width"` and `"height"`.
    pub fn get_u32(&self, key: &str) -> (r: Option<u32>)
        ensures
            r == (if key@ == "width"@ {
                Some(self.width)
            } else if key@ == "height"@ {
                Some(self.height)
            } else {
                None::<u32>
            }),
    {
        let k: String = key.to_owned();
        if k == "width".to_owned() {
            Some(self.width)
        } else if k == "height".to_owned() {
            Some(self.height)
        } else {
            None
        }
    }

    /// The gallery model.
    pub fn get_gallery(&self) -> (r: &Gallery)
        ensures
            r == &self.gallery,
    {
        &self.gallery
    }
}

} // verus!
