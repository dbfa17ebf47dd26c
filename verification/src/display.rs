//! Display nodes: images with contain/cover fitting, buttons, and the
//! draw commands the host renders.
//!
//! Rendering is split from I/O: a node's `render` computes the draw
//! commands (source rectangle, fitted destination rectangle, clip) and the
//! host performs the actual surface copies.

use crate::cache::TextureCache;
use crate::config::Config;
use crate::geom::Rect;
use crate::gesture::{
    emitted_from, GestureDetector, GestureDetectorTypes, GestureEvent, InputEvent, COORD_SCALE,
};
use crate::util::{spec_clamp, spec_div_trunc, to_i32_sat, div_trunc};
use vstd::prelude::*;

verus! {

/// An action a node hands up to its container.
#[derive(Clone, Copy, Debug, PartialEq, Eq, Structural)]
pub enum Action {
    /// Open the detail view on the picture at this index.
    ShowPreview(usize),
    /// Return to the gallery grid.
    ShowGallery,
}

/// An RGBA color.
#[derive(Clone, Copy, Debug, PartialEq, Eq, Structural)]
pub struct Color {
    pub r: u8,
    pub g: u8,
    pub b: u8,
    pub a: u8,
}

/// How an image fills its target rectangle.
#[derive(Clone, Copy, Debug, PartialEq, Eq, Structural)]
pub enum FillMode {
    /// Scale to fill the whole rectangle, cropping what juts out.
    Cover,
    /// Scale to fit entirely inside the rectangle, possibly letterboxed.
    Contain,
}

/// One surface copy for the host: draw texture `tex`, from `src` in
/// texture space, into `dst` on the target, clipped to `clip`.
#[derive(Clone, Copy, Debug, PartialEq, Eq, Structural)]
pub struct DrawCmd {
    pub tex: u64,
    pub src: Rect,
    pub dst: Rect,
    pub clip: Rect,
}

/// Keys of images loaded from local files carry this prefix in the cache,
/// so a local and a remote image of the same name stay distinct entries.
pub const LOCAL_IMG_PREFIX: &'static str = "!local:";

/// The size that scales `img_w` by `img_h` to fill a `w` by `h` rectangle
/// entirely (possibly overflowing it), each dimension saturated to `u32`.
/// The aspect-ratio comparison is the exact cross product `img_w * h`
/// versus `w * img_h`.
pub open spec fn spec_cover_size(img_w: int, img_h: int, w: int, h: int) -> (int, int) {
    if img_w * h > w * img_h {
        (spec_clamp(h * img_w / img_h, 0, 0xffff_ffff), h)
    } else {
        (w, spec_clamp(w * img_h / img_w, 0, 0xffff_ffff))
    }
}

/// The size that scales `img_w` by `img_h` to fit inside a `w` by `h`
/// rectangle entirely, each dimension saturated to `u32`.
pub open spec fn spec_contain_size(img_w: int, img_h: int, w: int, h: int) -> (int, int) {
    if img_w * h > w * img_h {
        (w, spec_clamp(w * img_h / img_w, 0, 0xffff_ffff))
    } else {
        (spec_clamp(h * img_w / img_h, 0, 0xffff_ffff), h)
    }
}

/// The fitted size under the given fill mode.
pub open spec fn spec_fill_size(fill: FillMode, img_w: int, img_h: int, w: int, h: int) -> (
    int,
    int,
) {
    match fill {
        FillMode::Cover => spec_cover_size(img_w, img_h, w, h),
        FillMode::Contain => spec_contain_size(img_w, img_h, w, h),
    }
}

/// The destination rectangle: a `w` by `h` extent centered in `rect`,
/// corner coordinates saturated to `i32`.
pub open spec fn spec_dst_rect(rect: Rect, w: int, h: int) -> Rect {
    Rect {
        x: spec_clamp(
            spec_div_trunc(rect.w - w, 2) + rect.x,
            -0x8000_0000,
            0x7fff_ffff,
        ) as i32,
        y: spec_clamp(
            spec_div_trunc(rect.h - h, 2) + rect.y,
            -0x8000_0000,
            0x7fff_ffff,
        ) as i32,
        w: w as u32,
        h: h as u32,
    }
}

/// An image node: a source key, an optional intrinsic size, a fill mode,
/// and whether the source is a local file.
pub struct Image {
    pub dirty: bool,
    pub src: String,
    pub w: u32,
    pub h: u32,
    pub fill: FillMode,
    pub local: bool,
}

impl Image {
    /// The key this image is stored under in the texture cache.
    pub open spec fn spec_cache_key(self) -> Seq<char> {
        if self.local {
            LOCAL_IMG_PREFIX@ + self.src@
        } else {
            self.src@
        }
    }

    /// An image showing `src`, fill mode `Contain`, no intrinsic size.
    /// Construction only binds the key; fetching is the separate,
    /// explicit `load`, so a view requests exactly the images it wants
    /// visible.
    pub fn new(src: String) -> (r: Image)
        ensures
            r == (Image { dirty: false, src, w: 0, h: 0, fill: FillMode::Contain, local: false }),
    {
        Image { dirty: false, src, w: 0, h: 0, fill: FillMode::Contain, local: false }
    }

    /// An image showing the local file `src` at the given display size.
    /// Construction only binds the key; call `load` to request the file.
    pub fn new_with_dimension_local(src: String, w: u32, h: u32) -> (r: Image)
        ensures
            r == (Image { dirty: false, src, w, h, fill: FillMode::Contain, local: true }),
    {
        Image { dirty: false, src, w, h, fill: FillMode::Contain, local: true }
    }

    /// An image showing `src` at the given display size.  Construction
    /// only binds the key; call `load` to request the image.
    pub fn new_with_dimension(src: String, w: u32, h: u32) -> (r: Image)
        ensures
            r == (Image { dirty: false, src, w, h, fill: FillMode::Contain, local: false }),
    {
        Image { dirty: false, src, w, h, fill: FillMode::Contain, local: false }
    }

    pub fn get_src(&self) -> (r: &str)
        ensures
            r@ == self.src@,
    {
        self.src.as_str()
    }

    /// Point the node at another source key.  Loading is explicit: call
    /// `load` to request the new image.
    pub fn set_src(&mut self, src: &str)
        ensures
            final(self).src@ == src@,
            final(self).dirty == old(self).dirty,
            final(self).w == old(self).w,
            final(self).h == old(self).h,
            final(self).fill == old(self).fill,
            final(self).local == old(self).local,
    {
        self.src = src.to_owned();
    }

    pub fn set_fill(&mut self, v: FillMode)
        ensures
            *final(self) == (Image { fill: v, ..*old(self) }),
    {
        self.fill = v;
    }

    /// The cache key as a string value.
    pub fn key_string(&self) -> (r: String)
        ensures
            r@ == self.spec_cache_key(),
    {
        if self.local {
            let p: String = LOCAL_IMG_PREFIX.to_owned();
            p.concat(self.src.as_str())
        } else {
            self.src.as_str().to_owned()
        }
    }

    /// Request this image from the cache; an empty source requests
    /// nothing.
    pub fn load(&self, cache: &mut TextureCache)
        requires
            old(cache).wf(),
        ensures
            final(cache).wf(),
            self.src@.len() == 0 ==> *final(cache) == *old(cache),
            self.src@.len() > 0 ==> TextureCache::load_effect(
                *old(cache),
                *final(cache),
                self.spec_cache_key(),
            ),
    {
        if !self.src.as_str().is_empty() {
            let k = self.key_string();
            let _ = cache.load(k.as_str());
        }
    }

    /// The decoded size of this image, if it has arrived in the cache.
    pub fn get_img_size(&self, cache: &TextureCache) -> (r: Option<(u32, u32)>)
        requires
            cache.wf(),
        ensures
            r is Some <==> cache.has_entry(self.spec_cache_key()),
            match r {
                Some(wh) => wh == (
                    cache.entry_at(self.spec_cache_key()).0,
                    cache.entry_at(self.spec_cache_key()).1,
                ),
                None => true,
            },
    {
        let k = self.key_string();
        cache.get(k.as_str())
    }

    /// The size covering a `w` by `h` rectangle with an `img_w` by `img_h`
    /// image.
    pub fn cover_size(img_w: u32, img_h: u32, w: u32, h: u32) -> (r: (u32, u32))
        requires
            img_w > 0,
            img_h > 0,
        ensures
            (r.0 as int, r.1 as int) == spec_cover_size(
                img_w as int,
                img_h as int,
                w as int,
                h as int,
            ),
    {
        proof {
            lemma_u32_prod_fits(img_w as int, h as int);
            lemma_u32_prod_fits(w as int, img_h as int);
            lemma_u32_prod_fits(h as int, img_w as int);
            lemma_u32_prod_fits(w as int, img_h as int);
        }
        if (img_w as u64) * (h as u64) > (w as u64) * (img_h as u64) {
            let sw: u64 = (h as u64) * (img_w as u64) / (img_h as u64);
            (if sw > 0xffff_ffffu64 {
                u32::MAX
            } else {
                sw as u32
            }, h)
        } else {
            let sh: u64 = (w as u64) * (img_h as u64) / (img_w as u64);
            (w, if sh > 0xffff_ffffu64 {
                u32::MAX
            } else {
                sh as u32
            })
        }
    }

    /// The size containing an `img_w` by `img_h` image inside a `w` by
    /// `h` rectangle.
    pub fn contain_size(img_w: u32, img_h: u32, w: u32, h: u32) -> (r: (u32, u32))
        requires
            img_w > 0,
            img_h > 0,
        ensures
            (r.0 as int, r.1 as int) == spec_contain_size(
                img_w as int,
                img_h as int,
                w as int,
                h as int,
            ),
    {
        proof {
            lemma_u32_prod_fits(img_w as int, h as int);
            lemma_u32_prod_fits(w as int, img_h as int);
            lemma_u32_prod_fits(h as int, img_w as int);
        }
        if (img_w as u64) * (h as u64) > (w as u64) * (img_h as u64) {
            let sh: u64 = (w as u64) * (img_h as u64) / (img_w as u64);
            (w, if sh > 0xffff_ffffu64 {
                u32::MAX
            } else {
                sh as u32
            })
        } else {
            let sw: u64 = (h as u64) * (img_w as u64) / (img_h as u64);
            (if sw > 0xffff_ffffu64 {
                u32::MAX
            } else {
                sw as u32
            }, h)
        }
    }

    /// The draw command rendering this image into `rect`: absent while the
    /// image is not decoded yet or degenerate, so the host draws nothing
    /// rather than blocking.
    pub open spec fn spec_render(self, c: TextureCache, rect: Rect) -> Option<DrawCmd> {
        let k = self.spec_cache_key();
        if c.has_entry(k) && c.entry_at(k).0 > 0 && c.entry_at(k).1 > 0 {
            let e = c.entry_at(k);
            let wh = spec_fill_size(self.fill, e.0 as int, e.1 as int, rect.w as int, rect.h as int);
            Some(
                DrawCmd {
                    tex: e.2,
                    src: Rect { x: 0, y: 0, w: e.0, h: e.1 },
                    dst: spec_dst_rect(rect, wh.0, wh.1),
                    clip: rect,
                },
            )
        } else {
            None
        }
    }

    /// Compute the draw command for this image in `rect`.
    pub fn render(&self, cache: &TextureCache, rect: Rect) -> (r: Option<DrawCmd>)
        requires
            cache.wf(),
        ensures
            r == self.spec_render(*cache, rect),
    {
        let k = self.key_string();
        match cache.lookup(k.as_str()) {
            Some(e) => {
                if e.0 > 0 && e.1 > 0 {
                    let wh = match self.fill {
                        FillMode::Cover => Image::cover_size(e.0, e.1, rect.w, rect.h),
                        FillMode::Contain => Image::contain_size(e.0, e.1, rect.w, rect.h),
                    };
                    let dx = to_i32_sat(
                        div_trunc(rect.w as i64 - wh.0 as i64, 2) + rect.x as i64,
                    );
                    let dy = to_i32_sat(
                        div_trunc(rect.h as i64 - wh.1 as i64, 2) + rect.y as i64,
                    );
                    Some(
                        DrawCmd {
                            tex: e.2,
                            src: Rect { x: 0, y: 0, w: e.0, h: e.1 },
                            dst: Rect { x: dx, y: dy, w: wh.0, h: wh.1 },
                            clip: rect,
                        },
                    )
                } else {
                    None
                }
            },
            None => None,
        }
    }
}

impl Default for Image {
    /// An empty, sourceless image in `Contain` mode.
    fn default() -> (r: Image)
        ensures
            r.dirty == false,
            r.src@.len() == 0,
            r.w == 0,
            r.h == 0,
            r.fill == FillMode::Contain,
            r.local == false,
    {
        Image {
            dirty: false,
            src: String::new(),
            w: 0,
            h: 0,
            fill: FillMode::Contain,
            local: false,
        }
    }
}

/// What a button answers to a batch of polled gestures: the first tap
/// landing inside its rectangle (in pixel space) asks to show the
/// gallery.
pub open spec fn btn_scan(gs: Seq<GestureEvent>, rect: Rect, width: int, height: int) -> Option<
    Action,
>
    decreases gs.len(),
{
    if gs.len() == 0 {
        None
    } else {
        match gs[0] {
            GestureEvent::Tap(x, y) => {
                let px = spec_div_trunc(x * width, COORD_SCALE as int);
                let py = spec_div_trunc(y * height, COORD_SCALE as int);
                if rect.spec_contains(px, py) {
                    Some(Action::ShowGallery)
                } else {
                    btn_scan(gs.drop_first(), rect, width, height)
                }
            },
            _ => btn_scan(gs.drop_first(), rect, width, height),
        }
    }
}

/// Request a remote image: idempotent while the key is stored or already
/// in flight.
pub fn load_img(cache: &mut TextureCache, src: &str)
    requires
        old(cache).wf(),
    ensures
        final(cache).wf(),
        TextureCache::load_effect(*old(cache), *final(cache), src@),
{
    let _ = cache.load(src);
}

/// Request a local image: stored under the local-file prefix so it never
/// collides with a remote image of the same name.
pub fn load_local_img(cache: &mut TextureCache, src: &str)
    requires
        old(cache).wf(),
    ensures
        final(cache).wf(),
        TextureCache::load_effect(*old(cache), *final(cache), LOCAL_IMG_PREFIX@ + src@),
{
    let p: String = LOCAL_IMG_PREFIX.to_owned();
    let k = p.concat(src);
    let _ = cache.load(k.as_str());
}

/// A button can only ever ask for the gallery.
pub proof fn lemma_btn_scan_gallery(gs: Seq<GestureEvent>, rect: Rect, width: int, height: int)
    ensures
        match btn_scan(gs, rect, width, height) {
            Some(a) => a is ShowGallery,
            None => true,
        },
    decreases gs.len(),
{
    if gs.len() > 0 {
        lemma_btn_scan_gallery(gs.drop_first(), rect, width, height);
    }
}

/// Scale a fixed-point viewport fraction to pixels, truncating toward
/// zero.
pub fn coord_to_px(c: i32, extent: u32) -> (r: i64)
    ensures
        r as int == spec_div_trunc(c * extent, COORD_SCALE as int),
        -0x4_0000_0000_0000 <= r <= 0x4_0000_0000_0000,
{
    proof {
        assert(-0x8000_0000_0000_0000 < (c as int) * (extent as int)
            < 0x8000_0000_0000_0000) by (nonlinear_arith)
            requires
                -0x8000_0000 <= (c as int) && (c as int) <= 0x7fff_ffff,
                0 <= (extent as int) && (extent as int) <= 0xffff_ffff,
        ;
        let a = (c as int) * (extent as int);
        let mag = if a >= 0 {
            a
        } else {
            -a
        };
        assert(mag / (COORD_SCALE as int) <= 0x4_0000_0000_0000) by {
            vstd::arithmetic::div_mod::lemma_div_is_ordered(
                mag,
                0x8000_0000_0000_0000,
                COORD_SCALE as int,
            );
        }
        vstd::arithmetic::div_mod::lemma_div_pos_is_pos(mag, COORD_SCALE as int);
    }
    div_trunc(c as i64 * extent as i64, COORD_SCALE as i64)
}

/// The product of two `u32`-sized factors fits in a `u64`.
pub proof fn lemma_u32_prod_fits(a: int, b: int)
    requires
        0 <= a <= 0xffff_ffff,
        0 <= b <= 0xffff_ffff,
    ensures
        0 <= a * b < 0x1_0000_0000_0000_0000,
{
    assert(0 <= a * b < 0x1_0000_0000_0000_0000) by (nonlinear_arith)
        requires
            0 <= a <= 0xffff_ffff,
            0 <= b <= 0xffff_ffff,
    ;
}

/// A tappable button drawn at a fixed rectangle.
pub struct Button {
    pub rect: Rect,
    pub active_img: Option<Image>,
    pub active_color: Option<Color>,
    pub img: Option<Image>,
    pub color: Option<Color>,
    pub gesture_detector: GestureDetector,
}

impl Button {
    pub fn new(rect: Rect) -> (r: Button)
        ensures
            r.rect == rect,
            r.active_img is None,
            r.active_color is None,
            r.img is None,
            r.color is None,
            r.gesture_detector.pool@.len() == 0,
            r.gesture_detector.detectors@.len() == 1,
            r.gesture_detector.detectors@[0] == crate::gesture::init_sub(GestureDetectorTypes::Tap),
    {
        let mut types: Vec<GestureDetectorTypes> = Vec::new();
        types.push(GestureDetectorTypes::Tap);
        Button {
            rect,
            active_color: None,
            active_img: None,
            img: None,
            color: None,
            gesture_detector: GestureDetector::new(types),
        }
    }

    pub fn set_img(&mut self, img: Image)
        ensures
            final(self).img == Some(img),
            final(self).rect == old(self).rect,
            final(self).active_img == old(self).active_img,
            final(self).active_color == old(self).active_color,
            final(self).color == old(self).color,
            final(self).gesture_detector == old(self).gesture_detector,
    {
        self.img = Some(img);
    }

    /// Draw the button's image at the button's own rectangle.
    pub fn render(&self, cache: &TextureCache, _rect: Rect) -> (r: Option<DrawCmd>)
        requires
            cache.wf(),
        ensures
            r == (match self.img {
                Some(img) => img.spec_render(*cache, self.rect),
                None => None::<DrawCmd>,
            }),
    {
        match &self.img {
            Some(img) => img.render(cache, self.rect),
            None => None,
        }
    }

    /// Feed one event; a tap landing on the button asks for the gallery.
    #[verifier::loop_isolation(false)]
    pub fn handle_events(&mut self, evt: &InputEvent, cfg: &Config) -> (r: Option<Action>)
        ensures
            final(self).rect == old(self).rect,
            final(self).img == old(self).img,
            final(self).active_img == old(self).active_img,
            final(self).active_color == old(self).active_color,
            final(self).color == old(self).color,
            final(self).gesture_detector.pool@.len() == 0,
            final(self).gesture_detector.detectors@.len()
                == old(self).gesture_detector.detectors@.len(),
            forall|i: int|
                0 <= i < old(self).gesture_detector.detectors@.len()
                    ==> final(self).gesture_detector.detectors@[i] == crate::gesture::sub_step(
                    old(self).gesture_detector.detectors@[i],
                    *evt,
                ),
            r == btn_scan(
                old(self).gesture_detector.pool@ + emitted_from(
                    old(self).gesture_detector.detectors@,
                    *evt,
                ),
                old(self).rect,
                cfg.width as int,
                cfg.height as int,
            ),
    {
        self.gesture_detector.feed(evt);
        let polled = self.gesture_detector.poll();
        let n = polled.len();
        let mut i: usize = 0;
        proof {
            assert(polled@.skip(0) =~= polled@);
        }
        while i < n
            invariant
                i <= n,
                n == polled@.len(),
                self.rect == old(self).rect,
                btn_scan(polled@, self.rect, cfg.width as int, cfg.height as int) == btn_scan(
                    polled@.skip(i as int),
                    self.rect,
                    cfg.width as int,
                    cfg.height as int,
                ),
            decreases n - i,
        {
            proof {
                assert(polled@.skip(i as int)[0] == polled@[i as int]);
                assert(polled@.skip(i as int).drop_first() =~= polled@.skip(i as int + 1));
            }
            match polled[i] {
                GestureEvent::Tap(x, y) => {
                    let px = coord_to_px(x, cfg.width);
                    let py = coord_to_px(y, cfg.height);
                    if self.rect.contains_point_i64(px, py) {
                        return Some(Action::ShowGallery);
                    }
                },
                _ => {},
            }
            i = i + 1;
        }
        None
    }

    pub fn is_interactive(&self) -> (r: bool)
        ensures
            r == true,
    {
        true
    }
}

} // verus!
