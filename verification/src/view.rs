//! Interactive views: the zoomable slide (`ScrollView`), the paginated
//! image carousel (`Preview`), and the scrolling thumbnail grid
//! (`GalleryView`).
//!
//! All offsets and speeds are kept in milli-pixels (1/1000 of a pixel) so
//! sub-pixel drag and friction arithmetic stays exact in integers; scale
//! factors are in permille (1000 = natural "contain" size).

use crate::cache::TextureCache;
use crate::config::{Config, GalleryItem, MAX_PICS, MAX_VIEWPORT};
use crate::display::{
    coord_to_px, spec_contain_size, spec_cover_size, Action, Button, DrawCmd, FillMode,
    Image,
};
use crate::geom::Rect;
use crate::gesture::{
    emitted_from, GestureDetector, GestureDetectorTypes, GestureEvent, InputEvent, SubDetector,
};
use crate::mean::{mean_push_m, mean_value_m, Mean, MeanModel};
use crate::transition::Transition;
use crate::util::{clamp_i64, div_trunc, spec_clamp, spec_div_trunc};
use vstd::prelude::*;

verus! {

/// Friction in milli-pixels per frame: a gliding offset loses this much
/// speed every update.
pub const FRICTION_MPX: i64 = 2000;

/// View offsets never exceed this magnitude (in milli-pixels, matching
/// the transition value range); deltas beyond it are clamped away
/// defensively.
pub const OFFSET_CLAMP_MPX: i64 = 0x2000_0000_0000;

/// Per-frame speeds are clamped to this magnitude (in milli-pixels).
pub const SPEED_MAX_MPX: i64 = 0x1_0000_0000_0000;

/// Zoom offset limits never exceed this magnitude (in milli-pixels).
pub const LIMIT_MAX_MPX: i64 = 0x8_0000_0000_0000;

/// The rubber-band ramp: overscroll damping fades linearly from full
/// movement at the border to no movement at this overscroll depth
/// (about 157 px, in milli-pixels).
pub const RUBBER_RANGE_MPX: i64 = 157_080;

/// The smallest pinch scale, in permille.
pub const MIN_SCALE_PM: u32 = 100;

/// The largest pinch scale, in permille.
pub const MAX_SCALE_PM: u32 = 1_000_000;

/// The fallback cover scale used while an image's size is unknown.
pub const DEFAULT_COVER_PM: u32 = 2000;

/// What remains of a speed after one frame of friction: speeds below the
/// friction stop outright, others lose exactly the friction.
pub open spec fn spec_apply_friction(friction: int, dx: int) -> int {
    if -friction < dx < friction {
        0
    } else if dx > 0 {
        dx - friction
    } else {
        dx + friction
    }
}

/// Apply one frame of friction to a speed.
pub fn apply_friction(friction: i64, dx: i64) -> (r: i64)
    requires
        0 <= friction,
        -0x4000_0000_0000_0000 <= dx <= 0x4000_0000_0000_0000,
        friction <= 0x4000_0000_0000_0000,
    ensures
        r as int == spec_apply_friction(friction as int, dx as int),
{
    if -friction < dx && dx < friction {
        0
    } else if dx > 0 {
        dx - friction
    } else {
        dx + friction
    }
}

/// A permille scale times a `u32` extent stays comfortably inside both
/// `u64` and the pan-limit bound.
proof fn lemma_scale_prod_bound(scale: int, w: int)
    requires
        0 <= scale <= MAX_SCALE_PM,
        0 <= w <= 0xffff_ffff,
    ensures
        0 <= scale * w <= 1_000_000 * 0xffff_ffff,
{
    assert(0 <= scale * w <= 1_000_000 * 0xffff_ffff) by (nonlinear_arith)
        requires
            0 <= scale <= 1_000_000,
            0 <= w <= 0xffff_ffff,
    ;
}

/// The mathematical content of an `Image` node: its fields with the
/// source key as a character sequence.
pub struct ImageModel {
    pub dirty: bool,
    pub src: Seq<char>,
    pub w: u32,
    pub h: u32,
    pub fill: FillMode,
    pub local: bool,
}

/// The model of an image value.
pub open spec fn img_model(i: Image) -> ImageModel {
    ImageModel { dirty: i.dirty, src: i.src@, w: i.w, h: i.h, fill: i.fill, local: i.local }
}

/// The cache key an image model is stored under.
pub open spec fn im_key(im: ImageModel) -> Seq<char> {
    if im.local {
        crate::display::LOCAL_IMG_PREFIX@ + im.src
    } else {
        im.src
    }
}

/// The mathematical content of a `ScrollView`.
pub struct SvModel {
    pub content: ImageModel,
    pub rect: Rect,
    pub scale: u32,
    pub offset_x: i64,
    pub offset_y: i64,
    pub offset_x_limit: i64,
    pub offset_y_limit: i64,
    pub zoom_mode: bool,
    pub dx: i64,
    pub dy: i64,
    pub mean_x: MeanModel,
    pub mean_y: MeanModel,
}

/// The offsets after moving to `(x, y)`: clamped into the limit box.
pub open spec fn sv_set_pos(m: SvModel, x: int, y: int) -> SvModel {
    SvModel {
        offset_x: spec_clamp(x, -m.offset_x_limit as int, m.offset_x_limit as int) as i64,
        offset_y: spec_clamp(y, -m.offset_y_limit as int, m.offset_y_limit as int) as i64,
        ..m
    }
}

/// The state at a new scale: the pan limits become half of how far the
/// scaled content overhangs the viewport (kept unchanged while the image
/// size is unknown or degenerate), and zoom mode reflects the scale.
pub open spec fn sv_set_scale(m: SvModel, c: TextureCache, scale: u32) -> SvModel {
    let k = im_key(m.content);
    let m1 = if c.has_entry(k) && c.entry_at(k).0 > 0 && c.entry_at(k).1 > 0 {
        let wh = spec_contain_size(
            c.entry_at(k).0 as int,
            c.entry_at(k).1 as int,
            m.rect.w as int,
            m.rect.h as int,
        );
        SvModel {
            offset_x_limit: (if scale * wh.0 > 1000 * m.rect.w {
                (scale * wh.0 - 1000 * m.rect.w) / 2
            } else {
                0
            }) as i64,
            offset_y_limit: (if scale * wh.1 > 1000 * m.rect.h {
                (scale * wh.1 - 1000 * m.rect.h) / 2
            } else {
                0
            }) as i64,
            ..m
        }
    } else {
        m
    };
    SvModel { scale, zoom_mode: scale > 1000, ..m1 }
}

/// The scale at which the image covers the viewport: the ratio of the
/// cover width to the contain width in permille, clamped into the scale
/// range, with a fixed fallback while the image size is unknown.
pub open spec fn sv_cover_scale(m: SvModel, c: TextureCache) -> u32 {
    let k = im_key(m.content);
    if c.has_entry(k) && c.entry_at(k).0 > 0 && c.entry_at(k).1 > 0 {
        let cover = spec_cover_size(
            c.entry_at(k).0 as int,
            c.entry_at(k).1 as int,
            m.rect.w as int,
            m.rect.h as int,
        );
        let cont = spec_contain_size(
            c.entry_at(k).0 as int,
            c.entry_at(k).1 as int,
            m.rect.w as int,
            m.rect.h as int,
        );
        if cont.0 > 0 {
            spec_clamp(cover.0 * 1000 / cont.0, MIN_SCALE_PM as int, MAX_SCALE_PM as int) as u32
        } else {
            DEFAULT_COVER_PM
        }
    } else {
        DEFAULT_COVER_PM
    }
}

/// One frame of glide: friction wears the residual speeds down and the
/// offset moves by what remains; a stopped slide is left untouched.
pub open spec fn sv_update(m: SvModel) -> SvModel {
    if m.dx == 0 && m.dy == 0 {
        m
    } else {
        let ndx = spec_apply_friction(FRICTION_MPX as int, m.dx as int);
        let ndy = spec_apply_friction(FRICTION_MPX as int, m.dy as int);
        sv_set_pos(
            SvModel { dx: ndx as i64, dy: ndy as i64, ..m },
            m.offset_x + ndx,
            m.offset_y + ndy,
        )
    }
}

/// A drag step of `(dx, dy)` milli-pixels: the offset moves (clamped at
/// the limits), the deltas enter the speed means, a speed whose offset is
/// pinned at its limit is zeroed, and the part of the motion the clamped
/// offset could not absorb is handed back.
pub open spec fn sv_move_by(m: SvModel, dx: i64, dy: i64) -> (SvModel, (i64, i64)) {
    let m1 = sv_set_pos(m, m.offset_x + dx, m.offset_y + dy);
    let mx = mean_push_m(m.mean_x, dx);
    let my = mean_push_m(m.mean_y, dy);
    let ndx = if m1.offset_x_limit == (if m1.offset_x >= 0 {
        m1.offset_x as int
    } else {
        -(m1.offset_x as int)
    }) {
        0i64
    } else {
        spec_clamp(mean_value_m(mx), -SPEED_MAX_MPX as int, SPEED_MAX_MPX as int) as i64
    };
    let ndy = if m1.offset_y_limit == (if m1.offset_y >= 0 {
        m1.offset_y as int
    } else {
        -(m1.offset_y as int)
    }) {
        0i64
    } else {
        spec_clamp(mean_value_m(my), -SPEED_MAX_MPX as int, SPEED_MAX_MPX as int) as i64
    };
    (
        SvModel { mean_x: mx, mean_y: my, dx: ndx, dy: ndy, ..m1 },
        (
            (m.offset_x + dx - m1.offset_x) as i64,
            (m.offset_y + dy - m1.offset_y) as i64,
        ),
    )
}

/// A zoomable, pannable slide holding one image.
///
/// `scale` is in permille of the contain size; the offsets pan the scaled
/// content and are clamped to `offset_x_limit`/`offset_y_limit`, the
/// half-overhang of the scaled image over the viewport.
pub struct ScrollView {
    pub content: Image,
    pub rect: Rect,
    pub scale: u32,
    pub offset_x: i64,
    pub offset_y: i64,
    pub offset_x_limit: i64,
    pub offset_y_limit: i64,
    pub zoom_mode: bool,
    pub dx: i64,
    pub dy: i64,
    pub mean_x: Mean,
    pub mean_y: Mean,
}

impl ScrollView {
    /// The mathematical content of this slide.
    pub open spec fn model(self) -> SvModel {
        SvModel {
            content: img_model(self.content),
            rect: self.rect,
            scale: self.scale,
            offset_x: self.offset_x,
            offset_y: self.offset_y,
            offset_x_limit: self.offset_x_limit,
            offset_y_limit: self.offset_y_limit,
            zoom_mode: self.zoom_mode,
            dx: self.dx,
            dy: self.dy,
            mean_x: self.mean_x.model(),
            mean_y: self.mean_y.model(),
        }
    }

    pub open spec fn wf(self) -> bool {
        &&& self.mean_x.wf()
        &&& self.mean_y.wf()
        &&& MIN_SCALE_PM <= self.scale <= MAX_SCALE_PM
        &&& 0 <= self.offset_x_limit <= LIMIT_MAX_MPX
        &&& 0 <= self.offset_y_limit <= LIMIT_MAX_MPX
        &&& -LIMIT_MAX_MPX <= self.offset_x <= LIMIT_MAX_MPX
        &&& -LIMIT_MAX_MPX <= self.offset_y <= LIMIT_MAX_MPX
        &&& -SPEED_MAX_MPX <= self.dx <= SPEED_MAX_MPX
        &&& -SPEED_MAX_MPX <= self.dy <= SPEED_MAX_MPX
    }

    /// A slide showing `content`, unzoomed and centered.
    pub fn new(content: Image) -> (r: ScrollView)
        ensures
            r.content == content,
            r.rect == (Rect { x: 0, y: 0, w: 0, h: 0 }),
            r.scale == 1000,
            r.offset_x == 0,
            r.offset_y == 0,
            r.offset_x_limit == 0,
            r.offset_y_limit == 0,
            r.zoom_mode == false,
            r.dx == 0,
            r.dy == 0,
            r.mean_x.model() == (MeanModel { history: Seq::<i64>::empty(), capacity: 3 }),
            r.mean_y.model() == (MeanModel { history: Seq::<i64>::empty(), capacity: 3 }),
            r.wf(),
    {
        ScrollView {
            content,
            rect: Rect { x: 0, y: 0, w: 0, h: 0 },
            scale: 1000,
            offset_x: 0,
            offset_y: 0,
            offset_x_limit: 0,
            offset_y_limit: 0,
            zoom_mode: false,
            dx: 0,
            dy: 0,
            mean_x: Mean::new(3),
            mean_y: Mean::new(3),
        }
    }

    pub fn set_rect(&mut self, x: i32, y: i32, w: u32, h: u32)
        ensures
            *final(self) == (ScrollView { rect: Rect { x, y, w, h }, ..*old(self) }),
    {
        self.rect = Rect { x, y, w, h };
    }

    /// Move the content offset, clamping at the pan limits.
    pub fn set_pos(&mut self, x: i64, y: i64)
        requires
            old(self).wf(),
        ensures
            final(self).wf(),
            final(self).model() == sv_set_pos(old(self).model(), x as int, y as int),
    {
        self.offset_x = clamp_i64(x, -self.offset_x_limit, self.offset_x_limit);
        self.offset_y = clamp_i64(y, -self.offset_y_limit, self.offset_y_limit);
    }

    /// Change the zoom scale and recompute the pan limits.
    pub fn set_scale(&mut self, scale: u32, cache: &TextureCache)
        requires
            old(self).wf(),
            cache.wf(),
            MIN_SCALE_PM <= scale <= MAX_SCALE_PM,
        ensures
            final(self).wf(),
            final(self).model() == sv_set_scale(old(self).model(), *cache, scale),
    {
        if let Some((img_w, img_h)) = self.content.get_img_size(cache) {
            if img_w > 0 && img_h > 0 {
                let wh = Image::contain_size(img_w, img_h, self.rect.w, self.rect.h);
                proof {
                    lemma_scale_prod_bound(scale as int, wh.0 as int);
                    lemma_scale_prod_bound(scale as int, wh.1 as int);
                    crate::display::lemma_u32_prod_fits(1000, self.rect.w as int);
                    crate::display::lemma_u32_prod_fits(1000, self.rect.h as int);
                }
                let sx: u64 = (scale as u64) * (wh.0 as u64);
                let base_x: u64 = 1000u64 * (self.rect.w as u64);
                let sy: u64 = (scale as u64) * (wh.1 as u64);
                let base_y: u64 = 1000u64 * (self.rect.h as u64);
                self.offset_x_limit = if sx > base_x {
                    ((sx - base_x) / 2) as i64
                } else {
                    0
                };
                self.offset_y_limit = if sy > base_y {
                    ((sy - base_y) / 2) as i64
                } else {
                    0
                };
            }
        }
        self.scale = scale;
        self.zoom_mode = scale > 1000;
    }

    /// Unzoom: scale 1000 permille is exactly the contain size.
    pub fn contain(&mut self, cache: &TextureCache)
        requires
            old(self).wf(),
            cache.wf(),
        ensures
            final(self).wf(),
            final(self).model() == sv_set_scale(old(self).model(), *cache, 1000),
    {
        self.set_scale(1000, cache);
    }

    /// Zoom to the cover scale and stop any residual glide.
    pub fn cover(&mut self, cache: &TextureCache)
        requires
            old(self).wf(),
            cache.wf(),
        ensures
            final(self).wf(),
            final(self).model() == (SvModel {
                dx: 0,
                dy: 0,
                ..sv_set_scale(
                    old(self).model(),
                    *cache,
                    sv_cover_scale(old(self).model(), *cache),
                )
            }),
    {
        let mut r: u32 = DEFAULT_COVER_PM;
        if let Some((img_w, img_h)) = self.content.get_img_size(cache) {
            if img_w > 0 && img_h > 0 {
                let w1 = Image::cover_size(img_w, img_h, self.rect.w, self.rect.h);
                let w2 = Image::contain_size(img_w, img_h, self.rect.w, self.rect.h);
                if w2.0 > 0 {
                    proof {
                        crate::display::lemma_u32_prod_fits(w1.0 as int, 1000);
                    }
                    let ratio: u64 = (w1.0 as u64) * 1000u64 / (w2.0 as u64);
                    r = if ratio < MIN_SCALE_PM as u64 {
                        MIN_SCALE_PM
                    } else if ratio > MAX_SCALE_PM as u64 {
                        MAX_SCALE_PM
                    } else {
                        ratio as u32
                    };
                }
            }
        }
        self.set_scale(r, cache);
        self.dx = 0;
        self.dy = 0;
    }

    /// Enter zoom mode at the cover scale.
    pub fn enter_zoom(&mut self, cache: &TextureCache)
        requires
            old(self).wf(),
            cache.wf(),
        ensures
            final(self).wf(),
            final(self).model() == (SvModel {
                zoom_mode: true,
                dx: 0,
                dy: 0,
                ..sv_set_scale(
                    old(self).model(),
                    *cache,
                    sv_cover_scale(old(self).model(), *cache),
                )
            }),
    {
        self.cover(cache);
        self.zoom_mode = true;
    }

    /// Leave zoom mode: back to the contain scale, centered.
    pub fn exit_zoom(&mut self, cache: &TextureCache)
        requires
            old(self).wf(),
            cache.wf(),
        ensures
            final(self).wf(),
            final(self).model() == (SvModel {
                offset_x: 0,
                offset_y: 0,
                zoom_mode: false,
                ..sv_set_scale(old(self).model(), *cache, 1000)
            }),
    {
        self.contain(cache);
        self.offset_x = 0;
        self.offset_y = 0;
        self.zoom_mode = false;
    }

    /// Back to the unzoomed, centered state.
    pub fn reset(&mut self, cache: &TextureCache)
        requires
            old(self).wf(),
            cache.wf(),
        ensures
            final(self).wf(),
            final(self).model() == (SvModel {
                offset_x: 0,
                offset_y: 0,
                ..sv_set_scale(old(self).model(), *cache, 1000)
            }),
    {
        self.set_scale(1000, cache);
        self.offset_x = 0;
        self.offset_y = 0;
    }

    /// Adjust the zoom scale by a pinch delta (in permille), clamped into
    /// the scale range.
    pub fn scale_by(&mut self, x: i64, y: i64, d: i64, cache: &TextureCache)
        requires
            old(self).wf(),
            cache.wf(),
            -0x1_0000_0000 <= d <= 0x1_0000_0000,
        ensures
            final(self).wf(),
            final(self).model() == sv_set_scale(
                old(self).model(),
                *cache,
                spec_clamp(
                    old(self).scale + d,
                    MIN_SCALE_PM as int,
                    MAX_SCALE_PM as int,
                ) as u32,
            ),
    {
        let _ = x;
        let _ = y;
        let target: i64 = clamp_i64(
            self.scale as i64 + d,
            MIN_SCALE_PM as i64,
            MAX_SCALE_PM as i64,
        );
        self.set_scale(target as u32, cache);
    }

    /// Advance the glide by one frame.
    pub fn update(&mut self)
        requires
            old(self).wf(),
        ensures
            final(self).wf(),
            final(self).model() == sv_update(old(self).model()),
    {
        if self.dx == 0 && self.dy == 0 {
            return ;
        }
        self.dx = apply_friction(FRICTION_MPX, self.dx);
        self.dy = apply_friction(FRICTION_MPX, self.dy);
        let x = self.offset_x + self.dx;
        let y = self.offset_y + self.dy;
        self.set_pos(x, y);
    }

    /// Drag the content by `(dx, dy)` milli-pixels; the returned pair is
    /// the part of the motion the clamped offset could not absorb.
    pub fn move_by(&mut self, dx: i64, dy: i64) -> (r: (i64, i64))
        requires
            old(self).wf(),
            -0x1_0000_0000_0000 <= dx <= 0x1_0000_0000_0000,
            -0x1_0000_0000_0000 <= dy <= 0x1_0000_0000_0000,
        ensures
            final(self).wf(),
            (final(self).model(), r) == sv_move_by(old(self).model(), dx, dy),
    {
        let nx = self.offset_x + dx;
        let ny = self.offset_y + dy;
        self.set_pos(nx, ny);
        self.mean_x.push(dx);
        self.mean_y.push(dy);
        let ax = if self.offset_x >= 0 {
            self.offset_x
        } else {
            -self.offset_x
        };
        if self.offset_x_limit == ax {
            self.dx = 0;
        } else {
            self.dx = clamp_i64(self.mean_x.get(), -SPEED_MAX_MPX, SPEED_MAX_MPX);
        }
        let ay = if self.offset_y >= 0 {
            self.offset_y
        } else {
            -self.offset_y
        };
        if self.offset_y_limit == ay {
            self.dy = 0;
        } else {
            self.dy = clamp_i64(self.mean_y.get(), -SPEED_MAX_MPX, SPEED_MAX_MPX);
        }
        (nx - self.offset_x, ny - self.offset_y)
    }

    /// The draw command for this slide in `rect`: the content fitted into
    /// a rectangle scaled by `scale` around the offset center, clipped to
    /// the visible part of `rect`; nothing while the image is undecoded
    /// or pushed fully out of view.
    pub open spec fn spec_sv_render(s: ScrollView, c: TextureCache, rect: Rect) -> Option<
        DrawCmd,
    > {
        let cx = spec_clamp(
            spec_clamp(rect.spec_center().0, -0x8000_0000, 0x7fff_ffff) + spec_div_trunc(
                s.offset_x as int,
                1000,
            ),
            -0x8000_0000,
            0x7fff_ffff,
        );
        let cy = spec_clamp(
            spec_clamp(rect.spec_center().1, -0x8000_0000, 0x7fff_ffff) + spec_div_trunc(
                s.offset_y as int,
                1000,
            ),
            -0x8000_0000,
            0x7fff_ffff,
        );
        let sw = spec_clamp(rect.w * s.scale / 1000, 0, 0xffff_ffff);
        let sh = spec_clamp(rect.h * s.scale / 1000, 0, 0xffff_ffff);
        let r2 = Rect::spec_from_center(cx, cy, sw, sh);
        match s.content.spec_render(c, r2) {
            Some(cmd) => match rect.spec_intersect(r2) {
                Some(cl) => Some(DrawCmd { clip: cl, ..cmd }),
                None => None,
            },
            None => None,
        }
    }

    /// Compute the draw command for this slide.
    pub fn render(&self, cache: &TextureCache, rect: Rect) -> (r: Option<DrawCmd>)
        requires
            self.wf(),
            cache.wf(),
        ensures
            r == ScrollView::spec_sv_render(*self, *cache, rect),
    {
        let c = rect.center();
        let cx = crate::util::to_i32_sat(c.0 as i64 + div_trunc(self.offset_x, 1000));
        let cy = crate::util::to_i32_sat(c.1 as i64 + div_trunc(self.offset_y, 1000));
        proof {
            crate::display::lemma_u32_prod_fits(rect.w as int, self.scale as int);
            crate::display::lemma_u32_prod_fits(rect.h as int, self.scale as int);
        }
        let sw64: u64 = (rect.w as u64) * (self.scale as u64) / 1000u64;
        let sh64: u64 = (rect.h as u64) * (self.scale as u64) / 1000u64;
        let sw: u32 = if sw64 > 0xffff_ffffu64 {
            u32::MAX
        } else {
            sw64 as u32
        };
        let sh: u32 = if sh64 > 0xffff_ffffu64 {
            u32::MAX
        } else {
            sh64 as u32
        };
        let r2 = Rect::from_center(cx, cy, sw, sh);
        match self.content.render(cache, r2) {
            Some(cmd) => match rect.intersect(&r2) {
                Some(cl) => Some(DrawCmd { clip: cl, ..cmd }),
                None => None,
            },
            None => None,
        }
    }
}


/// Thumbnail edge length in the grid, in pixels.
pub const THUMB_W: u32 = 100;

/// Thumbnail height in the grid, in pixels.
pub const THUMB_H: u32 = 100;

/// Gap between grid cells and around the grid, in pixels.
pub const THUMB_GAP: u32 = 10;

/// The grid geometry: `n` columns of `item_width` by `item_height` cells,
/// a total scrollable `scroll_height`, and how far the content may scroll
/// up (`max_scroll`).
#[derive(Clone, Copy, Debug, PartialEq, Eq, Structural)]
pub struct GalleryLayout {
    pub n: u32,
    pub item_width: u32,
    pub item_height: u32,
    pub scroll_height: u32,
    pub max_scroll: i32,
}

/// The grid layout for `count` items in a `width` by `height` viewport:
/// `n = (width - gap) / (thumb + gap)` columns, the remaining width
/// redistributed to the cells, and
/// `scroll_height = ceil(count / n) * (item_height + gap) + gap`, capped
/// at `i32::MAX`.  A viewport too narrow for one column has no layout.
pub open spec fn spec_row_layout(count: int, width: int, height: int) -> Option<GalleryLayout> {
    let n = if width >= THUMB_GAP {
        (width - THUMB_GAP) / (THUMB_GAP + THUMB_W)
    } else {
        0
    };
    if n <= 0 {
        None
    } else {
        let q = (width - THUMB_GAP) / n;
        let iw = if q >= THUMB_GAP {
            q - THUMB_GAP
        } else {
            0
        };
        let rows = (count + n - 1) / n;
        let sh = spec_clamp(rows * (iw + THUMB_GAP) + THUMB_GAP, 0, 0x7fff_ffff);
        let ms = if sh - height > 0 {
            sh - height
        } else {
            0
        };
        Some(
            GalleryLayout {
                n: n as u32,
                item_width: iw as u32,
                item_height: iw as u32,
                scroll_height: sh as u32,
                max_scroll: ms as i32,
            },
        )
    }
}

/// Compute the grid layout.
pub fn get_row_layout(count: usize, width: u32, height: u32) -> (r: Option<GalleryLayout>)
    requires
        width <= MAX_VIEWPORT,
        height <= MAX_VIEWPORT,
        count <= MAX_PICS,
    ensures
        r == spec_row_layout(count as int, width as int, height as int),
{
    if width < THUMB_GAP {
        return None;
    }
    let n: u32 = (width - THUMB_GAP) / (THUMB_GAP + THUMB_W);
    if n == 0 {
        return None;
    }
    let q: u32 = (width - THUMB_GAP) / n;
    let iw: u32 = if q >= THUMB_GAP {
        q - THUMB_GAP
    } else {
        0
    };
    let rows: u64 = (count as u64 + n as u64 - 1) / (n as u64);
    proof {
        assert(rows as int <= 1_100_000) by {
            vstd::arithmetic::div_mod::lemma_div_basics_5(count as int + n - 1, n as int);
        }
        lemma_mul_le(rows as int, 1_100_000, iw as int + THUMB_GAP as int, 100_010);
    }
    let sh64: u64 = rows * (iw as u64 + THUMB_GAP as u64) + THUMB_GAP as u64;
    let sh: u32 = if sh64 > 0x7fff_ffffu64 {
        0x7fff_ffffu32
    } else {
        sh64 as u32
    };
    let ms: u32 = if sh > height {
        sh - height
    } else {
        0
    };
    Some(GalleryLayout { n, item_width: iw, item_height: iw, scroll_height: sh, max_scroll: ms as i32 })
}

/// For non-negative factors, a product is bounded by the product of the
/// bounds.
pub proof fn lemma_mul_le(a: int, bound_a: int, b: int, bound_b: int)
    requires
        0 <= a <= bound_a,
        0 <= b <= bound_b,
    ensures
        0 <= a * b <= bound_a * bound_b,
{
    assert(0 <= a * b <= bound_a * bound_b) by (nonlinear_arith)
        requires
            0 <= a <= bound_a,
            0 <= b <= bound_b,
    ;
}

/// The mathematical content of a `GalleryView`.
pub struct GvModel {
    pub images: Seq<ImageModel>,
    pub dragging: bool,
    pub translate_y: i64,
    pub detectors: Seq<SubDetector>,
    pub pool: Seq<GestureEvent>,
    pub transition: Option<Transition>,
    pub layout: Option<GalleryLayout>,
    pub mean_y: MeanModel,
    pub dy: i64,
    pub width: u32,
    pub height: u32,
}

/// How far up the grid content may scroll, in milli-pixels.
pub open spec fn gv_max_scroll_mpx(m: GvModel) -> int {
    match m.layout {
        Some(l) => l.max_scroll as int * 1000,
        None => 0,
    }
}

/// The grid after a drag step of `dy` milli-pixels: the raw delta enters
/// the speed mean, and the translation moves by the delta scaled down by
/// the rubber-band ramp (full past `RUBBER_RANGE_MPX` of overscroll).
pub open spec fn gv_move_by(m: GvModel, dy: i64) -> GvModel {
    let ty = m.translate_y + dy;
    let ms = gv_max_scroll_mpx(m);
    let over = if ty > 0 && dy > 0 {
        ty
    } else if ty < -ms {
        -ms - ty
    } else {
        0
    };
    let damped = if over >= RUBBER_RANGE_MPX {
        0
    } else {
        spec_div_trunc(
            dy * ((RUBBER_RANGE_MPX - over) * 10000 / (RUBBER_RANGE_MPX as int)),
            10000,
        )
    };
    let my = mean_push_m(m.mean_y, dy);
    GvModel {
        translate_y: spec_clamp(
            m.translate_y + damped,
            -OFFSET_CLAMP_MPX as int,
            OFFSET_CLAMP_MPX as int,
        ) as i64,
        mean_y: my,
        dy: spec_clamp(mean_value_m(my), -SPEED_MAX_MPX as int, SPEED_MAX_MPX as int) as i64,
        ..m
    }
}

/// The grid after releasing a drag: overscroll past either border starts
/// a 300 ms snap-back transition to the nearest border and stops the
/// glide; in-range content is left as it is.
pub open spec fn gv_snap(m: GvModel, now: u64) -> GvModel {
    let ms = gv_max_scroll_mpx(m);
    if m.translate_y > 0 {
        GvModel {
            transition: Some(
                Transition {
                    start_time: now,
                    duration: 300,
                    start_val: m.translate_y,
                    target_val: 0,
                    state: crate::transition::TransitionState::Running,
                },
            ),
            dy: 0,
            ..m
        }
    } else if m.translate_y < -ms {
        GvModel {
            transition: Some(
                Transition {
                    start_time: now,
                    duration: 300,
                    start_val: m.translate_y,
                    target_val: (-ms) as i64,
                    state: crate::transition::TransitionState::Running,
                },
            ),
            dy: 0,
            ..m
        }
    } else {
        m
    }
}


/// Whether some image in `imgs[lo..hi)` with a non-empty source has the
/// cache key `k`.
pub open spec fn key_in_range(imgs: Seq<ImageModel>, lo: int, hi: int, k: Seq<char>) -> bool {
    exists|i: int|
        lo <= i < hi && 0 <= i < imgs.len() && imgs[i].src.len() > 0 && im_key(imgs[i]) == k
}

/// How loading every image of `imgs[lo..hi)` relates the cache before and
/// after: entries are untouched, pending marks only grow and only by keys
/// of the range, every ranged key ends up stored or pending, and the
/// request queue grows only by keys of the range.
pub open spec fn range_load_effect(
    pre: TextureCache,
    post: TextureCache,
    imgs: Seq<ImageModel>,
    lo: int,
    hi: int,
) -> bool {
    &&& post.wf()
    &&& post.entries@ == pre.entries@
    &&& forall|k: Seq<char>| pre.is_pending(k) ==> post.is_pending(k)
    &&& forall|k: Seq<char>| post.is_pending(k) ==> pre.is_pending(k) || key_in_range(imgs, lo, hi, k)
    &&& forall|i: int|
        lo <= i < hi && 0 <= i < imgs.len() && imgs[i].src.len() > 0 ==> post.is_pending(
            im_key(imgs[i]),
        ) || post.has_entry(im_key(imgs[i]))
    &&& pre.request_keys().is_prefix_of(post.request_keys())
    &&& forall|j: int|
        pre.request_keys().len() <= j < post.request_keys().len() ==> key_in_range(
            imgs,
            lo,
            hi,
            post.request_keys()[j],
        )
}

/// An untouched cache is a range-load over the empty range.
pub proof fn lemma_range_load_refl(c: TextureCache, imgs: Seq<ImageModel>, lo: int)
    requires
        c.wf(),
    ensures
        range_load_effect(c, c, imgs, lo, lo),
{
    assert(c.request_keys().is_prefix_of(c.request_keys())) by {
        assert(c.request_keys() =~= c.request_keys().subrange(0, c.request_keys().len() as int));
    }
}

/// Extending a range-load by one more image: either the image's source is
/// empty and the cache is untouched, or one `load` of its key ran.
pub proof fn lemma_range_load_step(
    a: TextureCache,
    b: TextureCache,
    c: TextureCache,
    imgs: Seq<ImageModel>,
    lo: int,
    i: int,
)
    requires
        a.wf(),
        range_load_effect(a, b, imgs, lo, i),
        lo <= i,
        0 <= i < imgs.len(),
        imgs[i].src.len() == 0 ==> c == b,
        imgs[i].src.len() > 0 ==> TextureCache::load_effect(b, c, im_key(imgs[i])),
    ensures
        range_load_effect(a, c, imgs, lo, i + 1),
{
    if imgs[i].src.len() == 0 {
        assert forall|j: int|
            lo <= j < i + 1 && 0 <= j < imgs.len() && imgs[j].src.len() > 0 implies c.is_pending(
            im_key(imgs[j]),
        ) || c.has_entry(im_key(imgs[j])) by {
            assert(j < i);
        }
        assert forall|k: Seq<char>| c.is_pending(k) implies a.is_pending(k) || key_in_range(
            imgs,
            lo,
            i + 1,
            k,
        ) by {
            if !a.is_pending(k) {
                let w = choose|w: int|
                    lo <= w < i && 0 <= w < imgs.len() && imgs[w].src.len() > 0 && im_key(imgs[w])
                        == k;
                assert(key_in_range(imgs, lo, i + 1, k));
            }
        }
        assert forall|j: int|
            a.request_keys().len() <= j < c.request_keys().len() implies key_in_range(
            imgs,
            lo,
            i + 1,
            c.request_keys()[j],
        ) by {
            let w = choose|w: int|
                lo <= w < i && 0 <= w < imgs.len() && imgs[w].src.len() > 0 && im_key(imgs[w])
                    == c.request_keys()[j];
            assert(key_in_range(imgs, lo, i + 1, c.request_keys()[j]));
        }
    } else {
        let k_new = im_key(imgs[i]);
        crate::cache::lemma_same_entries(b, c);
        assert forall|k: Seq<char>| b.is_pending(k) implies c.is_pending(k) by {
            if b.load_decision(k_new) {
            }
        }
        assert(c.is_pending(k_new) || c.has_entry(k_new)) by {
            if b.load_decision(k_new) {
                assert(c.is_pending(k_new));
            } else {
                if b.has_entry(k_new) {
                    assert(c.has_entry(k_new));
                } else {
                    assert(b.is_pending(k_new));
                }
            }
        }
        assert forall|j: int|
            lo <= j < i + 1 && 0 <= j < imgs.len() && imgs[j].src.len() > 0 implies c.is_pending(
            im_key(imgs[j]),
        ) || c.has_entry(im_key(imgs[j])) by {
            if j < i {
                if b.is_pending(im_key(imgs[j])) {
                    assert(c.is_pending(im_key(imgs[j])));
                } else {
                    assert(b.has_entry(im_key(imgs[j])));
                }
            }
        }
        assert forall|k: Seq<char>| c.is_pending(k) implies a.is_pending(k) || key_in_range(
            imgs,
            lo,
            i + 1,
            k,
        ) by {
            if !a.is_pending(k) {
                if b.is_pending(k) {
                    let w = choose|w: int|
                        lo <= w < i && 0 <= w < imgs.len() && imgs[w].src.len() > 0 && im_key(
                            imgs[w],
                        ) == k;
                    assert(key_in_range(imgs, lo, i + 1, k));
                } else {
                    assert(k == k_new);
                    assert(key_in_range(imgs, lo, i + 1, k));
                }
            }
        }
        assert(a.request_keys().is_prefix_of(c.request_keys())) by {
            assert(a.request_keys() =~= b.request_keys().subrange(
                0,
                a.request_keys().len() as int,
            ));
            if b.load_decision(k_new) {
                assert(b.request_keys() =~= c.request_keys().subrange(
                    0,
                    b.request_keys().len() as int,
                ));
            } else {
                assert(c.request_keys() == b.request_keys());
            }
            assert(a.request_keys() =~= c.request_keys().subrange(
                0,
                a.request_keys().len() as int,
            ));
        }
        assert forall|j: int|
            a.request_keys().len() <= j < c.request_keys().len() implies key_in_range(
            imgs,
            lo,
            i + 1,
            c.request_keys()[j],
        ) by {
            if j < b.request_keys().len() {
                assert(b.request_keys() =~= c.request_keys().subrange(
                    0,
                    b.request_keys().len() as int,
                ));
                assert(c.request_keys()[j] == b.request_keys()[j]);
                let w = choose|w: int|
                    lo <= w < i && 0 <= w < imgs.len() && imgs[w].src.len() > 0 && im_key(imgs[w])
                        == b.request_keys()[j];
                assert(key_in_range(imgs, lo, i + 1, c.request_keys()[j]));
            } else {
                assert(b.load_decision(k_new));
                assert(c.request_keys() == b.request_keys().push(k_new));
                assert(c.request_keys()[j] == k_new);
                assert(key_in_range(imgs, lo, i + 1, k_new));
            }
        }
    }
}


/// Whether the point `(x, y)` (in unscrolled pixel space) lies inside
/// grid cell `i`.
pub open spec fn cell_contains(l: GalleryLayout, i: int, x: int, y: int) -> bool {
    let cx = THUMB_GAP + l.item_width / 2 + (l.item_width + THUMB_GAP) * (i % l.n as int);
    let cy = THUMB_GAP + l.item_height / 2 + (l.item_height + THUMB_GAP) * (i / l.n as int);
    let left = cx - l.item_width / 2;
    let top = cy - l.item_height / 2;
    &&& left <= x < left + l.item_width
    &&& top <= y < top + l.item_height
}

/// The first grid cell containing the point, scanning from index `i`.
pub open spec fn gv_hit_from(m: GvModel, l: GalleryLayout, x: int, y: int, i: int) -> Option<
    usize,
>
    decreases m.images.len() - i,
{
    if i < 0 || i >= m.images.len() {
        None
    } else if cell_contains(l, i, x, y) {
        Some(i as usize)
    } else {
        gv_hit_from(m, l, x, y, i + 1)
    }
}

/// The grid cell under an unscrolled pixel point, if any.
pub open spec fn gv_image_under_point(m: GvModel, x: int, y: int) -> Option<usize> {
    match m.layout {
        Some(l) => gv_hit_from(m, l, x, y, 0),
        None => None,
    }
}

/// The first grid row whose cells are requested at the current scroll
/// position, as an image index.
pub open spec fn gv_vis_lo(m: GvModel) -> int {
    match m.layout {
        Some(l) => {
            let rh = (l.item_height + THUMB_GAP) * 1000;
            let rs = if m.translate_y >= 0 {
                0
            } else {
                (-(m.translate_y as int)) / rh
            };
            if rs * l.n < m.images.len() {
                rs * l.n
            } else {
                m.images.len() as int
            }
        },
        None => 0,
    }
}

/// One past the last visible grid row at the current scroll position, as
/// an image index (never below `gv_vis_lo`).
pub open spec fn gv_vis_hi(m: GvModel) -> int {
    match m.layout {
        Some(l) => {
            let rh = (l.item_height + THUMB_GAP) * 1000;
            let num = -(m.translate_y as int) + (m.height - THUMB_GAP) * 1000;
            let re = if num <= 0 {
                0
            } else {
                (num + rh - 1) / rh
            };
            let hi = if re * l.n < m.images.len() {
                re * l.n
            } else {
                m.images.len() as int
            };
            if hi >= gv_vis_lo(m) {
                hi
            } else {
                gv_vis_lo(m)
            }
        },
        None => 0,
    }
}

/// The scrolling thumbnail grid.
pub struct GalleryView {
    pub images: Vec<Image>,
    pub dragging: bool,
    pub translate_y: i64,
    pub gesture_detector: GestureDetector,
    pub transition: Option<Transition>,
    pub layout: Option<GalleryLayout>,
    pub mean_y: Mean,
    pub dy: i64,
    pub width: u32,
    pub height: u32,
}

impl GalleryView {
    /// The mathematical content of this grid.
    pub open spec fn model(self) -> GvModel {
        GvModel {
            images: self.images@.map_values(|i: Image| img_model(i)),
            dragging: self.dragging,
            translate_y: self.translate_y,
            detectors: self.gesture_detector.detectors@,
            pool: self.gesture_detector.pool@,
            transition: self.transition,
            layout: self.layout,
            mean_y: self.mean_y.model(),
            dy: self.dy,
            width: self.width,
            height: self.height,
        }
    }

    pub open spec fn wf(self) -> bool {
        &&& self.mean_y.wf()
        &&& -OFFSET_CLAMP_MPX <= self.translate_y <= OFFSET_CLAMP_MPX
        &&& -SPEED_MAX_MPX <= self.dy <= SPEED_MAX_MPX
        &&& self.width <= MAX_VIEWPORT
        &&& self.height <= MAX_VIEWPORT
        &&& self.images@.len() <= MAX_PICS
        &&& match self.transition {
            Some(t) => t.wf(),
            None => true,
        }
        &&& match self.layout {
            Some(l) => l.n >= 1 && l.n <= MAX_VIEWPORT && l.item_width <= MAX_VIEWPORT
                && l.item_height <= MAX_VIEWPORT,
            None => true,
        }
    }

    /// Build the grid over the configured gallery: one cover-mode
    /// thumbnail per picture, and request the initially visible rows.
    pub fn new(cfg: &Config, cache: &mut TextureCache) -> (r: GalleryView)
        requires
            cfg.wf(),
            old(cache).wf(),
        ensures
            r.wf(),
            final(cache).wf(),
            r.model().images.len() == cfg.gallery.pics@.len(),
            forall|i: int|
                0 <= i < cfg.gallery.pics@.len() ==> r.model().images[i] == (ImageModel {
                    dirty: false,
                    src: cfg.gallery.pics@[i].preview@,
                    w: THUMB_W,
                    h: THUMB_H,
                    fill: FillMode::Cover,
                    local: false,
                }),
            r.dragging == false,
            r.translate_y == 0,
            r.transition is None,
            r.dy == 0,
            r.width == cfg.width,
            r.height == cfg.height,
            r.layout == spec_row_layout(
                cfg.gallery.pics@.len() as int,
                cfg.width as int,
                cfg.height as int,
            ),
            r.mean_y.history@.len() == 0,
            r.gesture_detector.pool@.len() == 0,
            r.gesture_detector.detectors@.len() == 2,
            r.gesture_detector.detectors@[0] == crate::gesture::init_sub(GestureDetectorTypes::Pan),
            r.gesture_detector.detectors@[1] == crate::gesture::init_sub(GestureDetectorTypes::Tap),
            range_load_effect(
                *old(cache),
                *final(cache),
                r.model().images,
                gv_vis_lo(r.model()),
                gv_vis_hi(r.model()),
            ),
    {
        let mut images: Vec<Image> = Vec::new();
        let n_pics = cfg.gallery.pics.len();
        let mut i: usize = 0;
        while i < n_pics
            invariant
                i <= n_pics,
                n_pics == cfg.gallery.pics@.len(),
                images@.len() == i,
                forall|j: int|
                    0 <= j < i ==> img_model(images@[j]) == (ImageModel {
                        dirty: false,
                        src: cfg.gallery.pics@[j].preview@,
                        w: THUMB_W,
                        h: THUMB_H,
                        fill: FillMode::Cover,
                        local: false,
                    }),
            decreases n_pics - i,
        {
            let src = cfg.gallery.pics[i].preview.clone();
            let mut img = Image::new_with_dimension(src, THUMB_W, THUMB_H);
            img.set_fill(FillMode::Cover);
            images.push(img);
            i = i + 1;
        }
        let mut types: Vec<GestureDetectorTypes> = Vec::new();
        types.push(GestureDetectorTypes::Pan);
        types.push(GestureDetectorTypes::Tap);
        let layout = get_row_layout(n_pics, cfg.width, cfg.height);
        let g = GalleryView {
            images,
            dragging: false,
            translate_y: 0,
            gesture_detector: GestureDetector::new(types),
            transition: None,
            layout,
            mean_y: Mean::new(3),
            dy: 0,
            width: cfg.width,
            height: cfg.height,
        };
        g.load_images_inview(cache);
        g
    }

    /// The grid cell under an unscrolled pixel point.
    #[verifier::loop_isolation(false)]
    pub fn image_under_point(&self, x: i64, y: i64) -> (r: Option<usize>)
        requires
            self.wf(),
        ensures
            r == gv_image_under_point(self.model(), x as int, y as int),
    {
        let l = match self.layout {
            Some(l) => l,
            None => {
                return None;
            },
        };
        let n = self.images.len();
        let mut i: usize = 0;
        while i < n
            invariant
                i <= n,
                gv_hit_from(self.model(), l, x as int, y as int, 0) == gv_hit_from(
                    self.model(),
                    l,
                    x as int,
                    y as int,
                    i as int,
                ),
            decreases n - i,
        {
            proof {
                vstd::arithmetic::div_mod::lemma_mod_bound(i as int, l.n as int);
                vstd::arithmetic::div_mod::lemma_div_basics_5(i as int, l.n as int);
                vstd::arithmetic::div_mod::lemma_div_pos_is_pos(i as int, l.n as int);
                lemma_mul_le(l.item_width as int + THUMB_GAP as int, 100_010, (i as int) % (
                l.n as int), 100_000);
                lemma_mul_le(l.item_height as int + THUMB_GAP as int, 100_010, (i as int) / (
                l.n as int), 1_000_000);
            }
            let col: u64 = (i as u64) % (l.n as u64);
            let row: u64 = (i as u64) / (l.n as u64);
            let cx: i64 = (THUMB_GAP as i64) + (l.item_width / 2) as i64 + ((l.item_width as i64
                + THUMB_GAP as i64) * col as i64);
            let cy: i64 = (THUMB_GAP as i64) + (l.item_height / 2) as i64 + ((l.item_height as i64
                + THUMB_GAP as i64) * row as i64);
            let left: i64 = cx - (l.item_width / 2) as i64;
            let top: i64 = cy - (l.item_height / 2) as i64;
            if x >= left && x < left + l.item_width as i64 && y >= top && y < top
                + l.item_height as i64 {
                return Some(i);
            }
            i = i + 1;
        }
        None
    }

    /// Drag the grid by `dy` milli-pixels, damped past the borders.
    pub fn move_by(&mut self, dy: i64)
        requires
            old(self).wf(),
            -0x1_0000_0000_0000 <= dy <= 0x1_0000_0000_0000,
        ensures
            final(self).wf(),
            final(self).model() == gv_move_by(old(self).model(), dy),
    {
        let ty = self.translate_y + dy;
        let ms_mpx: i64 = match self.layout {
            Some(l) => (l.max_scroll as i64) * 1000,
            None => 0,
        };
        let over: i64 = if ty > 0 && dy > 0 {
            ty
        } else if ty < -ms_mpx {
            -ms_mpx - ty
        } else {
            0
        };
        let damped: i64 = if over >= RUBBER_RANGE_MPX {
            0
        } else {
            let factor: i64 = (((RUBBER_RANGE_MPX - over) as u64 * 10000u64) / (
            RUBBER_RANGE_MPX as u64)) as i64;
            proof {
                lemma_mul_le(
                    if dy >= 0 {
                        dy as int
                    } else {
                        -(dy as int)
                    },
                    0x1_0000_0000_0000,
                    factor as int,
                    10000,
                );
                assert(dy * factor <= 0x1_0000_0000_0000 * 10000 && -(0x1_0000_0000_0000 * 10000)
                    <= dy * factor) by (nonlinear_arith)
                    requires
                        -0x1_0000_0000_0000 <= (dy as int) && (dy as int) <= 0x1_0000_0000_0000,
                        0 <= (factor as int) && (factor as int) <= 10000,
                ;
            }
            div_trunc(dy * factor, 10000)
        };
        self.mean_y.push(dy);
        self.dy = clamp_i64(self.mean_y.get(), -SPEED_MAX_MPX, SPEED_MAX_MPX);
        self.translate_y = clamp_i64(
            self.translate_y + damped,
            -OFFSET_CLAMP_MPX,
            OFFSET_CLAMP_MPX,
        );
    }

    /// Start the snap-back transition if the content sits past a border.
    pub fn snap_to_border(&mut self, now: u64)
        requires
            old(self).wf(),
        ensures
            final(self).wf(),
            final(self).model() == gv_snap(old(self).model(), now),
    {
        let ms_mpx: i64 = match self.layout {
            Some(l) => (l.max_scroll as i64) * 1000,
            None => 0,
        };
        if self.translate_y > 0 {
            self.transition = Some(Transition::new(self.translate_y, 0, 300, now));
            self.dy = 0;
        } else if self.translate_y < -ms_mpx {
            self.transition = Some(Transition::new(self.translate_y, -ms_mpx, 300, now));
            self.dy = 0;
        }
    }

    /// Request the thumbnails of the currently visible rows.
    #[verifier::loop_isolation(false)]
    pub fn load_images_inview(&self, cache: &mut TextureCache)
        requires
            self.wf(),
            old(cache).wf(),
        ensures
            final(cache).wf(),
            range_load_effect(
                *old(cache),
                *final(cache),
                self.model().images,
                gv_vis_lo(self.model()),
                gv_vis_hi(self.model()),
            ),
    {
        proof {
            lemma_range_load_refl(*old(cache), self.model().images, gv_vis_lo(self.model()));
        }
        let l = match self.layout {
            Some(l) => l,
            None => {
                return ;
            },
        };
        let rh: i64 = (l.item_height as i64 + THUMB_GAP as i64) * 1000;
        let rs64: i64 = if self.translate_y >= 0 {
            0
        } else {
            ((-self.translate_y) as u64 / rh as u64) as i64
        };
        let num: i64 = -self.translate_y + (self.height as i64 - THUMB_GAP as i64) * 1000;
        let re64: i64 = if num <= 0 {
            0
        } else {
            (((num as u64) + (rh as u64) - 1) / (rh as u64)) as i64
        };
        let len = self.images.len();
        proof {
            if self.translate_y < 0 {
                vstd::arithmetic::div_mod::lemma_div_basics_5(
                    -(self.translate_y as int),
                    rh as int,
                );
            }
            if num > 0 {
                vstd::arithmetic::div_mod::lemma_div_basics_5(num as int + rh - 1, rh as int);
            }
            lemma_mul_le(rs64 as int, 0x4000_0000_0000, l.n as int, 100_000);
            lemma_mul_le(re64 as int, 0x4000_0000_0000, l.n as int, 100_000);
        }
        let lo64: i64 = rs64 * (l.n as i64);
        let hi64: i64 = re64 * (l.n as i64);
        let lo: usize = if lo64 < len as i64 {
            lo64 as usize
        } else {
            len
        };
        let hi0: usize = if hi64 < len as i64 {
            hi64 as usize
        } else {
            len
        };
        let hi: usize = if hi0 >= lo {
            hi0
        } else {
            lo
        };
        let mut i: usize = lo;
        while i < hi
            invariant
                lo <= i <= hi,
                range_load_effect(
                    *old(cache),
                    *cache,
                    self.model().images,
                    lo as int,
                    i as int,
                ),
                cache.wf(),
            decreases hi - i,
        {
            let ghost pre = *cache;
            self.images[i].load(cache);
            proof {
                assert(img_model(self.images@[i as int]) == self.model().images[i as int]);
                assert(im_key(self.model().images[i as int]) == self.images@[i as int]
                    .spec_cache_key());
                lemma_range_load_step(
                    *old(cache),
                    pre,
                    *cache,
                    self.model().images,
                    lo as int,
                    i as int,
                );
            }
            i = i + 1;
        }
    }
}


/// A normalized delta scaled to milli-pixels stays well inside the drag
/// range.
pub proof fn lemma_norm_to_mpx_bounds(d: int, extent: int)
    requires
        -0x8000_0000 <= d <= 0x7fff_ffff,
        0 <= extent <= MAX_VIEWPORT,
    ensures
        -0x1_0000_0000_0000_0 <= d * extent <= 0x1_0000_0000_0000_0,
        -0x1_0000_0000_0000 <= spec_div_trunc(d * extent, 10) <= 0x1_0000_0000_0000,
{
    assert(-0x8000_0000 * 100_000 <= d * extent <= 0x8000_0000 * 100_000) by (nonlinear_arith)
        requires
            -0x8000_0000 <= d <= 0x7fff_ffff,
            0 <= extent <= 100_000,
    ;
    let a = d * extent;
    let mag = if a >= 0 {
        a
    } else {
        -a
    };
    let bnd: int = 0x8000_0000;
    assert(mag / 10 <= 0x1_0000_0000_0000) by {
        vstd::arithmetic::div_mod::lemma_div_is_ordered(mag, bnd * 100_000, 10);
    }
    vstd::arithmetic::div_mod::lemma_div_pos_is_pos(mag, 10);
}

/// The grid transition step of one frame: a finished transition snaps the
/// translation to its target exactly and is dropped; a running one moves
/// the translation to the eased value.
pub open spec fn gv_step_transition(m: GvModel, t: Transition, now: u64) -> GvModel {
    if t.state is AtEnd {
        GvModel { translate_y: t.target_val, transition: None, ..m }
    } else {
        GvModel {
            translate_y: t.step_model(now).1,
            transition: Some(t.step_model(now).0),
            ..m
        }
    }
}

/// The glide speed after one frame of friction, with extra friction
/// proportional to how far past a border the content sits.
pub open spec fn gv_slide_dy(m: GvModel) -> int {
    let ty = m.translate_y as int;
    let ms = gv_max_scroll_mpx(m);
    let f = (if ty > 0 {
        ty
    } else if ty < -ms {
        -ms - ty
    } else {
        0
    }) / 5;
    spec_apply_friction(f + FRICTION_MPX, m.dy as int)
}

/// The grid after one gesture: a tap over a cell asks to preview it, pans
/// drag the content, releasing a pan snaps back to the borders.
pub open spec fn gv_apply(m: GvModel, g: GestureEvent, now: u64) -> (GvModel, Option<Action>) {
    match g {
        GestureEvent::Tap(x, y) => {
            let px = spec_div_trunc(x * m.width, 10000);
            let py = spec_div_trunc(y * m.height, 10000) - spec_div_trunc(
                m.translate_y as int,
                1000,
            );
            (
                m,
                match gv_image_under_point(m, px, py) {
                    Some(i) => Some(Action::ShowPreview(i)),
                    None => None,
                },
            )
        },
        GestureEvent::PanStart { .. } => (GvModel { dragging: true, ..m }, None),
        GestureEvent::Pan { dy, .. } => (
            gv_move_by(m, spec_div_trunc(dy * m.height, 10) as i64),
            None,
        ),
        GestureEvent::PanEnd { .. } => (gv_snap(GvModel { dragging: false, ..m }, now), None),
        _ => (m, None),
    }
}

/// The grid after a batch of gestures, stopping at the first one that
/// raises an action.
pub open spec fn gv_process(m: GvModel, gs: Seq<GestureEvent>, now: u64) -> (
    GvModel,
    Option<Action>,
)
    decreases gs.len(),
{
    if gs.len() == 0 {
        (m, None)
    } else {
        let step = gv_apply(m, gs[0], now);
        if step.1 is Some {
            step
        } else {
            gv_process(step.0, gs.drop_first(), now)
        }
    }
}

impl GalleryView {
    /// Advance the grid by one frame: while not dragging, either play the
    /// snap-back transition, or glide under friction — and when the glide
    /// stops, request the newly visible thumbnails and snap to a border
    /// if the content overshot one.
    #[verifier::loop_isolation(false)]
    #[verifier::rlimit(60)]
    pub fn update(&mut self, cache: &mut TextureCache, now: u64)
        requires
            old(self).wf(),
            old(cache).wf(),
        ensures
            final(self).wf(),
            final(cache).wf(),
            ({
                let m = old(self).model();
                if !m.dragging && m.transition is Some {
                    &&& final(self).model() == gv_step_transition(m, m.transition->0, now)
                    &&& *final(cache) == *old(cache)
                } else if !m.dragging && m.dy != 0 {
                    let ndy = gv_slide_dy(m);
                    let m1 = GvModel { dy: ndy as i64, ..gv_move_by(m, ndy as i64) };
                    if ndy != 0 {
                        &&& final(self).model() == m1
                        &&& *final(cache) == *old(cache)
                    } else {
                        &&& final(self).model() == gv_snap(m1, now)
                        &&& range_load_effect(
                            *old(cache),
                            *final(cache),
                            m1.images,
                            gv_vis_lo(m1),
                            gv_vis_hi(m1),
                        )
                    }
                } else {
                    &&& final(self).model() == m
                    &&& *final(cache) == *old(cache)
                }
            }),
    {
        if !self.dragging && self.transition.is_some() {
            let mut tr = self.transition.unwrap();
            if tr.at_end() {
                self.translate_y = tr.target_val();
                self.transition = None;
            } else {
                self.translate_y = tr.step(now);
                self.transition = Some(tr);
            }
        } else if !self.dragging && self.dy != 0 {
            let ty = self.translate_y;
            let ms_mpx: i64 = match self.layout {
                Some(l) => (l.max_scroll as i64) * 1000,
                None => 0,
            };
            let over: i64 = if ty > 0 {
                ty
            } else if ty < -ms_mpx {
                -ms_mpx - ty
            } else {
                0
            };
            let f: i64 = ((over as u64) / 5u64) as i64 + FRICTION_MPX;
            let ndy = apply_friction(f, self.dy);
            self.move_by(ndy);
            self.dy = ndy;
            if ndy == 0 {
                self.load_images_inview(cache);
                self.snap_to_border(now);
            }
        }
    }

    /// Feed one input event: taps over a cell ask to open its preview,
    /// pans scroll the grid, and releasing a pan snaps to the borders.
    #[verifier::loop_isolation(false)]
    #[verifier::rlimit(60)]
    pub fn handle_events(&mut self, evt: &InputEvent, now: u64) -> (r: Option<Action>)
        requires
            old(self).wf(),
        ensures
            final(self).wf(),
            ({
                let m0 = old(self).model();
                let stepped = GvModel {
                    detectors: Seq::new(
                        m0.detectors.len(),
                        |i: int| crate::gesture::sub_step(m0.detectors[i], *evt),
                    ),
                    pool: Seq::empty(),
                    ..m0
                };
                let gs = m0.pool + emitted_from(m0.detectors, *evt);
                (final(self).model(), r) == gv_process(stepped, gs, now)
            }),
    {
        self.gesture_detector.feed(evt);
        let polled = self.gesture_detector.poll();
        let ghost stepped = GvModel {
            detectors: Seq::new(
                old(self).model().detectors.len(),
                |i: int| crate::gesture::sub_step(old(self).model().detectors[i], *evt),
            ),
            pool: Seq::empty(),
            ..old(self).model()
        };
        proof {
            assert(self.gesture_detector.detectors@ =~= stepped.detectors);
            assert(self.model() == stepped);
            assert(polled@.skip(0) =~= polled@);
        }
        let n = polled.len();
        let mut i: usize = 0;
        while i < n
            invariant
                i <= n,
                self.wf(),
                gv_process(stepped, polled@, now) == gv_process(
                    self.model(),
                    polled@.skip(i as int),
                    now,
                ),
            decreases n - i,
        {
            proof {
                assert(polled@.skip(i as int)[0] == polled@[i as int]);
                assert(polled@.skip(i as int).drop_first() =~= polled@.skip(i as int + 1));
            }
            match polled[i] {
                GestureEvent::Tap(x, y) => {
                    let px = coord_to_px(x, self.width);
                    let py = coord_to_px(y, self.height) - div_trunc(self.translate_y, 1000);
                    if let Some(idx) = self.image_under_point(px, py) {
                        return Some(Action::ShowPreview(idx));
                    }
                },
                GestureEvent::PanStart { .. } => {
                    self.dragging = true;
                },
                GestureEvent::Pan { dy, .. } => {
                    proof {
                        lemma_norm_to_mpx_bounds(dy as int, self.height as int);
                    }
                    let d = div_trunc(dy as i64 * (self.height as i64), 10);
                    self.move_by(d);
                },
                GestureEvent::PanEnd { .. } => {
                    self.dragging = false;
                    self.snap_to_border(now);
                },
                _ => {},
            }
            i = i + 1;
        }
        None
    }

    pub fn is_interactive(&self) -> (r: bool)
        ensures
            r == true,
    {
        true
    }
}


/// Gap between carousel slides, in pixels.
pub const PREVIEW_GAP: i64 = 30;

/// Releasing a drag that moved the carousel at least this far (150 px,
/// in milli-pixels) commits to the neighboring slide.
pub const SWIPE_THRESHOLD_MPX: i64 = 150_000;

/// The lower commit threshold (50 px, in milli-pixels) that applies while
/// the current slide is in zoom mode.
pub const SWIPE_THRESHOLD_ZOOM_MPX: i64 = 50_000;

/// The mathematical content of a `Preview` (its back button is tracked
/// separately through the button's own contract).
pub struct PvModel {
    pub prev: SvModel,
    pub curr: SvModel,
    pub next: SvModel,
    pub width: u32,
    pub height: u32,
    pub dragging: bool,
    pub translate_x: i64,
    pub translate_x_pre: i64,
    pub img_idx: usize,
    pub transition: Option<Transition>,
    pub detectors: Seq<SubDetector>,
    pub pool: Seq<GestureEvent>,
}

/// One slide stride: the viewport width plus the inter-slide gap, in
/// milli-pixels.
pub open spec fn pv_stride_mpx(m: PvModel) -> int {
    (m.width + PREVIEW_GAP) * 1000
}

/// The net-drag threshold a release must beat to commit to a neighbor:
/// 150 px normally, 50 px while the current slide is zoomed.
pub open spec fn pv_commit_threshold(m: PvModel) -> int {
    if m.curr.zoom_mode {
        SWIPE_THRESHOLD_ZOOM_MPX as int
    } else {
        SWIPE_THRESHOLD_MPX as int
    }
}

/// The carousel after one gesture: a double tap toggles zoom on the
/// current slide; a pan start anchors the drag; a pan feeds the motion to
/// the outer translation and (in zoom mode) the inner slide, the outer
/// part absorbing first whatever returns it toward zero; releasing
/// commits to a neighbor when the net drag beats the threshold (clamped
/// at the first and last picture) and starts the 300 ms slide transition.
pub open spec fn pv_apply(
    m: PvModel,
    c: TextureCache,
    pics_len: int,
    g: GestureEvent,
    now: u64,
) -> PvModel {
    match g {
        GestureEvent::DoubleTap(_x, _y) => if m.curr.zoom_mode {
            PvModel {
                curr: SvModel {
                    offset_x: 0,
                    offset_y: 0,
                    zoom_mode: false,
                    ..sv_set_scale(m.curr, c, 1000)
                },
                ..m
            }
        } else {
            PvModel {
                curr: SvModel {
                    zoom_mode: true,
                    dx: 0,
                    dy: 0,
                    ..sv_set_scale(m.curr, c, sv_cover_scale(m.curr, c))
                },
                ..m
            }
        },
        GestureEvent::PanStart { .. } => PvModel {
            dragging: true,
            transition: None,
            translate_x_pre: m.translate_x,
            ..m
        },
        GestureEvent::Pan { dx, dy, .. } => {
            let dxm = spec_div_trunc(dx * m.width, 10);
            let dym = spec_div_trunc(dy * m.height, 10);
            let tx = m.translate_x as int;
            let moved = if (tx > 0 && dxm < 0) || (tx < 0 && dxm > 0) {
                let adx = if dxm >= 0 {
                    dxm
                } else {
                    -dxm
                };
                let atx = if tx >= 0 {
                    tx
                } else {
                    -tx
                };
                let mag = if adx <= atx {
                    adx
                } else {
                    atx
                };
                if dxm > 0 {
                    mag
                } else {
                    -mag
                }
            } else {
                0
            };
            let tx1 = tx + moved;
            let rem0 = dxm - moved;
            let inner = if m.curr.zoom_mode {
                sv_move_by(m.curr, rem0 as i64, dym as i64)
            } else {
                (m.curr, (rem0 as i64, dym as i64))
            };
            let rem = if m.curr.zoom_mode {
                inner.1.0 as int
            } else {
                rem0
            };
            PvModel {
                curr: inner.0,
                translate_x: spec_clamp(
                    tx1 + rem,
                    -OFFSET_CLAMP_MPX as int,
                    OFFSET_CLAMP_MPX as int,
                ) as i64,
                ..m
            }
        },
        GestureEvent::PanEnd { .. } => {
            let delta = m.translate_x - m.translate_x_pre;
            let th = pv_commit_threshold(m);
            let mov: int = if delta > th {
                1
            } else if delta < -th {
                -1
            } else {
                0
            };
            let mov2: int = if (mov == -1 && m.img_idx + 1 >= pics_len) || (mov == 1 && m.img_idx
                == 0) {
                0
            } else {
                mov
            };
            let target = mov2 * pv_stride_mpx(m);
            PvModel {
                dragging: false,
                transition: Some(
                    Transition {
                        start_time: now,
                        duration: 300,
                        start_val: m.translate_x,
                        target_val: target as i64,
                        state: crate::transition::TransitionState::Running,
                    },
                ),
                ..m
            }
        },
        GestureEvent::Tap(_x, _y) => m,
    }
}

/// The carousel after a batch of gestures, applied in order.
pub open spec fn pv_process(
    m: PvModel,
    c: TextureCache,
    pics_len: int,
    gs: Seq<GestureEvent>,
    now: u64,
) -> PvModel
    decreases gs.len(),
{
    if gs.len() == 0 {
        m
    } else {
        pv_process(pv_apply(m, c, pics_len, gs[0], now), c, pics_len, gs.drop_first(), now)
    }
}

/// The source key shown in slide `slot` when the carousel sits on
/// `idx`: pictures out of range show nothing.
pub open spec fn pv_slot_src(cfg: Config, slot: int) -> Seq<char> {
    if 0 <= slot < cfg.gallery.pics@.len() {
        cfg.gallery.pics@[slot].url@
    } else {
        Seq::empty()
    }
}

/// One slide re-bound to the picture at `slot` and reset to the unzoomed,
/// centered state (pan limits from the cache's entries).
pub open spec fn pv_rebound_slide(s: SvModel, c: TextureCache, cfg: Config, slot: int) -> SvModel {
    let s1 = SvModel {
        content: ImageModel { src: pv_slot_src(cfg, slot), ..s.content },
        ..s
    };
    SvModel { offset_x: 0, offset_y: 0, ..sv_set_scale(s1, c, 1000) }
}

/// The carousel re-centered on picture `idx`: the three slides re-bound
/// to `idx - 1`, `idx`, `idx + 1` and reset.
pub open spec fn pv_set_curr_model(m: PvModel, c: TextureCache, cfg: Config, idx: int) -> PvModel {
    PvModel {
        prev: pv_rebound_slide(m.prev, c, cfg, idx - 1),
        curr: pv_rebound_slide(m.curr, c, cfg, idx),
        next: pv_rebound_slide(m.next, c, cfg, idx + 1),
        img_idx: idx as usize,
        ..m
    }
}

/// The key slide `slot` requests: its picture's full-size image, when the
/// slot is in range and the source is not empty.
pub open spec fn pv_key_at(cfg: Config, slot: int) -> Seq<Seq<char>> {
    if 0 <= slot < cfg.gallery.pics@.len() && cfg.gallery.pics@[slot].url@.len() > 0 {
        seq![cfg.gallery.pics@[slot].url@]
    } else {
        Seq::<Seq<char>>::empty()
    }
}

/// The keys the three slides of `pv_set_curr_model` request: the in-range
/// neighbors' full-size images.
pub open spec fn pv_curr_keys(cfg: Config, idx: int) -> Seq<Seq<char>> {
    pv_key_at(cfg, idx - 1) + pv_key_at(cfg, idx) + pv_key_at(cfg, idx + 1)
}


/// The model of a freshly built slide showing an empty `w` by `h` image.
pub open spec fn sv_fresh_model(w: u32, h: u32) -> SvModel {
    SvModel {
        content: ImageModel {
            dirty: false,
            src: Seq::empty(),
            w,
            h,
            fill: FillMode::Contain,
            local: false,
        },
        rect: Rect { x: 0, y: 0, w: 0, h: 0 },
        scale: 1000,
        offset_x: 0,
        offset_y: 0,
        offset_x_limit: 0,
        offset_y_limit: 0,
        zoom_mode: false,
        dx: 0,
        dy: 0,
        mean_x: MeanModel { history: Seq::empty(), capacity: 3 },
        mean_y: MeanModel { history: Seq::empty(), capacity: 3 },
    }
}

/// Rescaling reads only the cache's stored entries, so any two cache
/// states with the same entries rescale a slide identically.
pub proof fn lemma_sv_scale_same_entries(m: SvModel, c1: TextureCache, c2: TextureCache, scale: u32)
    requires
        c1.entries@ == c2.entries@,
    ensures
        sv_set_scale(m, c1, scale) == sv_set_scale(m, c2, scale),
        sv_cover_scale(m, c1) == sv_cover_scale(m, c2),
{
    crate::cache::lemma_same_entries(c1, c2);
}

/// The paginated full-size image carousel: three slides (previous,
/// current, next) sliding under a horizontal translation, with a back
/// button to the grid.
pub struct Preview {
    pub prev: ScrollView,
    pub curr: ScrollView,
    pub next: ScrollView,
    pub width: u32,
    pub height: u32,
    pub dragging: bool,
    pub translate_x: i64,
    pub translate_x_pre: i64,
    pub img_idx: usize,
    pub transition: Option<Transition>,
    pub gesture_detector: GestureDetector,
    pub back_btn: Button,
}

impl Preview {
    /// The mathematical content of this carousel.
    pub open spec fn model(self) -> PvModel {
        PvModel {
            prev: self.prev.model(),
            curr: self.curr.model(),
            next: self.next.model(),
            width: self.width,
            height: self.height,
            dragging: self.dragging,
            translate_x: self.translate_x,
            translate_x_pre: self.translate_x_pre,
            img_idx: self.img_idx,
            transition: self.transition,
            detectors: self.gesture_detector.detectors@,
            pool: self.gesture_detector.pool@,
        }
    }

    pub open spec fn wf(self) -> bool {
        &&& self.prev.wf()
        &&& self.curr.wf()
        &&& self.next.wf()
        &&& !self.prev.content.local
        &&& !self.curr.content.local
        &&& !self.next.content.local
        &&& self.width <= MAX_VIEWPORT
        &&& self.height <= MAX_VIEWPORT
        &&& -OFFSET_CLAMP_MPX <= self.translate_x <= OFFSET_CLAMP_MPX
        &&& -OFFSET_CLAMP_MPX <= self.translate_x_pre <= OFFSET_CLAMP_MPX
        &&& self.img_idx <= MAX_PICS
        &&& match self.transition {
            Some(t) => t.wf(),
            None => true,
        }
    }

    /// Build the carousel: three empty viewport-sized slides, and the
    /// back button (a local icon) in the top-right corner.
    pub fn new(cfg: &Config, cache: &mut TextureCache) -> (r: Preview)
        requires
            cfg.wf(),
            old(cache).wf(),
        ensures
            r.wf(),
            final(cache).wf(),
            r.prev.model() == (SvModel {
                rect: Rect { x: 0, y: 0, w: cfg.width, h: cfg.height },
                ..sv_fresh_model(cfg.width, cfg.height)
            }),
            r.curr.model() == r.prev.model(),
            r.next.model() == r.prev.model(),
            r.width == cfg.width,
            r.height == cfg.height,
            r.dragging == false,
            r.translate_x == 0,
            r.translate_x_pre == 0,
            r.img_idx == 0,
            r.transition is None,
            r.gesture_detector.pool@.len() == 0,
            r.gesture_detector.detectors@.len() == 2,
            r.gesture_detector.detectors@[0] == crate::gesture::init_sub(GestureDetectorTypes::Pan),
            r.gesture_detector.detectors@[1] == crate::gesture::init_sub(GestureDetectorTypes::Tap),
            r.back_btn.rect == (Rect {
                x: (cfg.width as int - 46) as i32,
                y: 10,
                w: 36,
                h: 36,
            }),
            r.back_btn.gesture_detector.pool@.len() == 0,
            r.back_btn.gesture_detector.detectors@.len() == 1,
            r.back_btn.gesture_detector.detectors@[0] == crate::gesture::init_sub(
                GestureDetectorTypes::Tap,
            ),
            match r.back_btn.img {
                Some(i) => img_model(i) == (ImageModel {
                    dirty: false,
                    src: "../assets/list.png"@,
                    w: 36,
                    h: 36,
                    fill: FillMode::Contain,
                    local: true,
                }),
                None => false,
            },
            TextureCache::load_effect(
                *old(cache),
                *final(cache),
                crate::display::LOCAL_IMG_PREFIX@ + "../assets/list.png"@,
            ),
    {
        let mut prev = ScrollView::new(Image::new_with_dimension(String::new(), cfg.width, cfg.height));
        prev.set_rect(0, 0, cfg.width, cfg.height);
        let mut curr = ScrollView::new(Image::new_with_dimension(String::new(), cfg.width, cfg.height));
        curr.set_rect(0, 0, cfg.width, cfg.height);
        let mut next = ScrollView::new(Image::new_with_dimension(String::new(), cfg.width, cfg.height));
        next.set_rect(0, 0, cfg.width, cfg.height);
        let size: u32 = 36;
        let bx = crate::util::to_i32_sat(cfg.width as i64 - size as i64 - 10);
        let mut back_btn = Button::new(Rect::new(bx, 10, size, size));
        let icon_src: String = "../assets/list.png".to_owned();
        let img = Image::new_with_dimension_local(icon_src, size, size);
        img.load(cache);
        proof {
            reveal_strlit("../assets/list.png");
        }
        back_btn.set_img(img);
        proof {
            assert(prev.content.src@ =~= Seq::<char>::empty());
            assert(curr.content.src@ =~= Seq::<char>::empty());
            assert(next.content.src@ =~= Seq::<char>::empty());
        }
        let mut types: Vec<GestureDetectorTypes> = Vec::new();
        types.push(GestureDetectorTypes::Pan);
        types.push(GestureDetectorTypes::Tap);
        Preview {
            prev,
            curr,
            next,
            width: cfg.width,
            height: cfg.height,
            dragging: false,
            translate_x: 0,
            translate_x_pre: 0,
            img_idx: 0,
            transition: None,
            gesture_detector: GestureDetector::new(types),
            back_btn,
        }
    }

    /// Re-center the carousel on picture `idx`: re-bind and reset the
    /// three slides and request the in-range neighbors' images.
    pub fn set_curr_image(&mut self, idx: usize, cfg: &Config, cache: &mut TextureCache)
        requires
            old(self).wf(),
            cfg.wf(),
            old(cache).wf(),
            idx <= MAX_PICS,
        ensures
            final(self).wf(),
            final(cache).wf(),
            final(self).model() == pv_set_curr_model(
                old(self).model(),
                *old(cache),
                *cfg,
                idx as int,
            ),
            final(self).back_btn == old(self).back_btn,
            TextureCache::load_set_effect(
                *old(cache),
                *final(cache),
                pv_curr_keys(*cfg, idx as int),
            ),
    {
        let ghost c0 = *old(cache);
        let ghost ks1 = pv_key_at(*cfg, idx as int - 1);
        let ghost ks2 = ks1 + pv_key_at(*cfg, idx as int);
        let ghost ks3 = ks2 + pv_key_at(*cfg, idx as int + 1);
        let pics = &cfg.gallery.pics;
        let p0: Option<&GalleryItem> = if idx >= 1 && idx - 1 < pics.len() {
            Some(&pics[idx - 1])
        } else {
            None
        };
        rebind_slide(&mut self.prev, p0, cache);
        let ghost ca = *cache;
        proof {
            assert(slot_keys(p0, old(self).prev.model().content.local) =~= pv_key_at(
                *cfg,
                idx as int - 1,
            ));
            lemma_sv_scale_same_entries(
                SvModel {
                    content: ImageModel {
                        src: pv_slot_src(*cfg, idx as int - 1),
                        ..old(self).prev.model().content
                    },
                    ..old(self).prev.model()
                },
                c0,
                c0,
                1000,
            );
        }
        let p1: Option<&GalleryItem> = if idx < pics.len() {
            Some(&pics[idx])
        } else {
            None
        };
        rebind_slide(&mut self.curr, p1, cache);
        let ghost cb = *cache;
        proof {
            assert(slot_keys(p1, old(self).curr.model().content.local) =~= pv_key_at(
                *cfg,
                idx as int,
            ));
            lemma_sv_scale_same_entries(
                SvModel {
                    content: ImageModel {
                        src: pv_slot_src(*cfg, idx as int),
                        ..old(self).curr.model().content
                    },
                    ..old(self).curr.model()
                },
                c0,
                ca,
                1000,
            );
            crate::cache::lemma_load_set_effect_trans(
                c0,
                ca,
                cb,
                pv_key_at(*cfg, idx as int - 1),
                pv_key_at(*cfg, idx as int),
            );
        }
        let p2: Option<&GalleryItem> = if idx + 1 < pics.len() {
            Some(&pics[idx + 1])
        } else {
            None
        };
        rebind_slide(&mut self.next, p2, cache);
        proof {
            assert(slot_keys(p2, old(self).next.model().content.local) =~= pv_key_at(
                *cfg,
                idx as int + 1,
            ));
            lemma_sv_scale_same_entries(
                SvModel {
                    content: ImageModel {
                        src: pv_slot_src(*cfg, idx as int + 1),
                        ..old(self).next.model().content
                    },
                    ..old(self).next.model()
                },
                c0,
                cb,
                1000,
            );
            crate::cache::lemma_load_set_effect_trans(c0, cb, *cache, ks2, pv_key_at(
                *cfg,
                idx as int + 1,
            ));
            assert(ks3 =~= pv_curr_keys(*cfg, idx as int));
        }
        self.img_idx = idx;
    }
}

/// The keys one re-bound slide requests.
pub open spec fn slot_keys(pic: Option<&GalleryItem>, local: bool) -> Seq<Seq<char>> {
    match pic {
        Some(p) => if p.url@.len() > 0 && !local {
            seq![p.url@]
        } else {
            Seq::<Seq<char>>::empty()
        },
        None => Seq::<Seq<char>>::empty(),
    }
}

/// Re-bind one slide to a picture (or to nothing), request its image and
/// reset the slide to the unzoomed, centered state.
fn rebind_slide(sv: &mut ScrollView, pic: Option<&GalleryItem>, cache: &mut TextureCache)
    requires
        old(sv).wf(),
        old(cache).wf(),
        !old(sv).content.local,
    ensures
        final(sv).wf(),
        final(cache).wf(),
        !final(sv).content.local,
        ({
            let src = match pic {
                Some(p) => p.url@,
                None => Seq::<char>::empty(),
            };
            let m1 = SvModel {
                content: ImageModel { src, ..old(sv).model().content },
                ..old(sv).model()
            };
            final(sv).model() == (SvModel {
                offset_x: 0,
                offset_y: 0,
                ..sv_set_scale(m1, *old(cache), 1000)
            })
        }),
        TextureCache::load_set_effect(
            *old(cache),
            *final(cache),
            slot_keys(pic, old(sv).content.local),
        ),
{
    proof {
        crate::cache::lemma_load_set_effect_refl(*old(cache));
    }
    match pic {
        Some(p) => {
            let u = p.url.clone();
            sv.content.set_src(u.as_str());
            let ghost cpre = *cache;
            sv.content.load(cache);
            proof {
                if u@.len() > 0 {
                    crate::cache::lemma_load_effect_single(
                        cpre,
                        *cache,
                        sv.content.spec_cache_key(),
                    );
                }
            }
        },
        None => {
            sv.content.set_src("");
            proof {
                lemma_empty_strlit();
            }
        },
    }
    let ghost cmid = *cache;
    sv.reset(cache);
    proof {
        lemma_sv_scale_same_entries(
            SvModel {
                content: ImageModel {
                    src: match pic {
                        Some(p) => p.url@,
                        None => Seq::<char>::empty(),
                    },
                    ..old(sv).model().content
                },
                ..old(sv).model()
            },
            *old(cache),
            cmid,
            1000,
        );
    }
}

/// The empty string literal views to the empty character sequence.
pub proof fn lemma_empty_strlit()
    ensures
        ""@ =~= Seq::<char>::empty(),
{
    reveal_strlit("");
}

/// Chaining one more image load onto an accumulated `load_set_effect`.
pub proof fn lemma_load_chain(
    c0: TextureCache,
    cpre: TextureCache,
    cpost: TextureCache,
    ks: Seq<Seq<char>>,
    k: Seq<char>,
)
    requires
        c0.wf(),
        cpre.wf(),
        TextureCache::load_set_effect(c0, cpre, ks),
        TextureCache::load_effect(cpre, cpost, k),
    ensures
        TextureCache::load_set_effect(c0, cpost, ks + seq![k]),
{
    crate::cache::lemma_load_effect_single(cpre, cpost, k);
    crate::cache::lemma_load_set_effect_trans(c0, cpre, cpost, ks, seq![k]);
}



/// The carousel after the slide transition lands on a neighbor: the
/// window of three slides shifts one step toward the drag and the
/// translation is rewound by one stride, so the new current slide sits at
/// rest; at the ends of the gallery nothing rotates.
pub open spec fn pv_rotate_model(m: PvModel, c: TextureCache, cfg: Config) -> PvModel {
    let stride = pv_stride_mpx(m);
    if m.translate_x > 0 && m.img_idx >= 1 {
        PvModel {
            translate_x: (m.translate_x - stride) as i64,
            ..pv_set_curr_model(m, c, cfg, m.img_idx - 1)
        }
    } else if m.translate_x < 0 && m.img_idx + 1 < cfg.gallery.pics@.len() {
        PvModel {
            translate_x: (m.translate_x + stride) as i64,
            ..pv_set_curr_model(m, c, cfg, m.img_idx + 1)
        }
    } else {
        m
    }
}

/// The keys a rotation requests.
pub open spec fn pv_rotate_keys(m: PvModel, cfg: Config) -> Seq<Seq<char>> {
    if m.translate_x > 0 && m.img_idx >= 1 {
        pv_curr_keys(cfg, m.img_idx - 1)
    } else if m.translate_x < 0 && m.img_idx + 1 < cfg.gallery.pics@.len() {
        pv_curr_keys(cfg, m.img_idx + 1)
    } else {
        Seq::<Seq<char>>::empty()
    }
}

impl Preview {
    /// Shift the three-slide window after a committed swipe.
    pub fn rotate(&mut self, cfg: &Config, cache: &mut TextureCache)
        requires
            old(self).wf(),
            cfg.wf(),
            old(cache).wf(),
            old(self).img_idx <= MAX_PICS,
        ensures
            final(self).wf(),
            final(cache).wf(),
            final(self).model() == pv_rotate_model(old(self).model(), *old(cache), *cfg),
            final(self).back_btn == old(self).back_btn,
            TextureCache::load_set_effect(
                *old(cache),
                *final(cache),
                pv_rotate_keys(old(self).model(), *cfg),
            ),
    {
        let stride: i64 = (self.width as i64 + PREVIEW_GAP) * 1000;
        if self.translate_x > 0 && self.img_idx >= 1 {
            self.translate_x = self.translate_x - stride;
            let i = self.img_idx - 1;
            self.set_curr_image(i, cfg, cache);
        } else if self.translate_x < 0 && self.img_idx + 1 < cfg.gallery.pics.len() {
            self.translate_x = self.translate_x + stride;
            let i = self.img_idx + 1;
            self.set_curr_image(i, cfg, cache);
        } else {
            proof {
                crate::cache::lemma_load_set_effect_refl(*old(cache));
            }
        }
    }

    /// Start the 300 ms slide transition toward `x` milli-pixels.
    pub fn move_to(&mut self, x: i64, duration: u32, now: u64)
        requires
            old(self).wf(),
            -OFFSET_CLAMP_MPX <= x <= OFFSET_CLAMP_MPX,
        ensures
            final(self).wf(),
            *final(self) == (Preview {
                transition: Some(
                    Transition {
                        start_time: now,
                        duration,
                        start_val: old(self).translate_x,
                        target_val: x,
                        state: crate::transition::TransitionState::Running,
                    },
                ),
                ..*old(self)
            }),
    {
        self.transition = Some(Transition::new(self.translate_x, x, duration, now));
    }

    /// Advance the carousel by one frame: glide the zoomed slide, play
    /// the slide transition, and rotate the window when it lands.
    #[verifier::rlimit(100)]
    pub fn update(&mut self, cfg: &Config, cache: &mut TextureCache, now: u64)
        requires
            old(self).wf(),
            cfg.wf(),
            old(cache).wf(),
            old(self).img_idx <= MAX_PICS,
        ensures
            final(self).wf(),
            final(cache).wf(),
            final(self).back_btn == old(self).back_btn,
            ({
                let m = old(self).model();
                let m1 = if !m.dragging && m.curr.zoom_mode {
                    PvModel { curr: sv_update(m.curr), ..m }
                } else {
                    m
                };
                if !m.dragging && m.transition is Some {
                    let t = m.transition->0;
                    if t.state is AtEnd {
                        let m2 = PvModel { translate_x: t.target_val, transition: None, ..m1 };
                        &&& final(self).model() == pv_rotate_model(m2, *old(cache), *cfg)
                        &&& TextureCache::load_set_effect(
                            *old(cache),
                            *final(cache),
                            pv_rotate_keys(m2, *cfg),
                        )
                    } else {
                        &&& final(self).model() == (PvModel {
                            translate_x: t.step_model(now).1,
                            transition: Some(t.step_model(now).0),
                            ..m1
                        })
                        &&& *final(cache) == *old(cache)
                    }
                } else {
                    &&& final(self).model() == m1
                    &&& *final(cache) == *old(cache)
                }
            }),
    {
        if !self.dragging && self.curr.zoom_mode {
            self.curr.update();
        }
        if !self.dragging && self.transition.is_some() {
            let mut tr = self.transition.unwrap();
            if tr.at_end() {
                self.translate_x = tr.target_val();
                self.transition = None;
                self.rotate(cfg, cache);
            } else {
                self.translate_x = tr.step(now);
                self.transition = Some(tr);
            }
        }
    }

    /// Enter the carousel on the picture the parameter bag selects.
    pub fn on_start(&mut self, params: Option<usize>, cfg: &Config, cache: &mut TextureCache)
        requires
            old(self).wf(),
            cfg.wf(),
            old(cache).wf(),
            match params {
                Some(i) => i <= MAX_PICS,
                None => true,
            },
        ensures
            final(self).wf(),
            final(cache).wf(),
            final(self).back_btn == old(self).back_btn,
            ({
                let i: int = match params {
                    Some(i) => i as int,
                    None => 0,
                };
                &&& final(self).model() == pv_set_curr_model(
                    old(self).model(),
                    *old(cache),
                    *cfg,
                    i,
                )
                &&& TextureCache::load_set_effect(
                    *old(cache),
                    *final(cache),
                    pv_curr_keys(*cfg, i),
                )
            }),
    {
        let i: usize = match params {
            Some(i) => i,
            None => 0,
        };
        self.set_curr_image(i, cfg, cache);
    }

    pub fn is_interactive(&self) -> (r: bool)
        ensures
            r == true,
    {
        true
    }
}


impl Preview {
    /// Feed one input event: the polled gestures drive zoom, drag and
    /// swipe commitment; with two or more fingers down a multi-gesture
    /// sample pinches the zoom scale; and the back button answers the
    /// event last.
    #[verifier::loop_isolation(false)]
    #[verifier::rlimit(100)]
    pub fn handle_events(
        &mut self,
        evt: &InputEvent,
        cfg: &Config,
        cache: &TextureCache,
        now: u64,
    ) -> (r: Option<Action>)
        requires
            old(self).wf(),
            cfg.wf(),
            cache.wf(),
        ensures
            final(self).wf(),
            ({
                let m0 = old(self).model();
                let stepped = PvModel {
                    detectors: Seq::new(
                        m0.detectors.len(),
                        |i: int| crate::gesture::sub_step(m0.detectors[i], *evt),
                    ),
                    pool: Seq::empty(),
                    ..m0
                };
                let gs = m0.pool + emitted_from(m0.detectors, *evt);
                let m1 = pv_process(stepped, *cache, cfg.gallery.pics@.len() as int, gs, now);
                let m2 = match *evt {
                    InputEvent::MultiGesture { x, y, d_dist, .. } => if
                        crate::gesture::GestureDetector::spec_fingers(stepped.detectors) >= 2 {
                        PvModel {
                            curr: sv_set_scale(
                                m1.curr,
                                *cache,
                                spec_clamp(
                                    m1.curr.scale + spec_div_trunc(d_dist as int, 2),
                                    MIN_SCALE_PM as int,
                                    MAX_SCALE_PM as int,
                                ) as u32,
                            ),
                            ..m1
                        }
                    } else {
                        m1
                    },
                    _ => m1,
                };
                &&& final(self).model() == m2
                &&& final(self).back_btn.rect == old(self).back_btn.rect
                &&& final(self).back_btn.img == old(self).back_btn.img
                &&& final(self).back_btn.gesture_detector.pool@.len() == 0
                &&& r == crate::display::btn_scan(
                    old(self).back_btn.gesture_detector.pool@ + emitted_from(
                        old(self).back_btn.gesture_detector.detectors@,
                        *evt,
                    ),
                    old(self).back_btn.rect,
                    cfg.width as int,
                    cfg.height as int,
                )
            }),
    {
        self.gesture_detector.feed(evt);
        let polled = self.gesture_detector.poll();
        let ghost stepped = PvModel {
            detectors: Seq::new(
                old(self).model().detectors.len(),
                |i: int| crate::gesture::sub_step(old(self).model().detectors[i], *evt),
            ),
            pool: Seq::empty(),
            ..old(self).model()
        };
        let ghost pics_len = cfg.gallery.pics@.len() as int;
        proof {
            assert(self.gesture_detector.detectors@ =~= stepped.detectors);
            assert(self.model() == stepped);
            assert(polled@.skip(0) =~= polled@);
        }
        let n = polled.len();
        let mut i: usize = 0;
        while i < n
            invariant
                i <= n,
                self.wf(),
                self.back_btn == old(self).back_btn,
                self.gesture_detector.detectors@ == stepped.detectors,
                pv_process(stepped, *cache, pics_len, polled@, now) == pv_process(
                    self.model(),
                    *cache,
                    pics_len,
                    polled@.skip(i as int),
                    now,
                ),
            decreases n - i,
        {
            proof {
                assert(polled@.skip(i as int)[0] == polled@[i as int]);
                assert(polled@.skip(i as int).drop_first() =~= polled@.skip(i as int + 1));
            }
            match polled[i] {
                GestureEvent::DoubleTap(_x, _y) => {
                    if self.curr.zoom_mode {
                        self.curr.exit_zoom(cache);
                    } else {
                        self.curr.enter_zoom(cache);
                    }
                },
                GestureEvent::PanStart { .. } => {
                    self.dragging = true;
                    self.transition = None;
                    self.translate_x_pre = self.translate_x;
                },
                GestureEvent::Pan { dx, dy, .. } => {
                    proof {
                        lemma_norm_to_mpx_bounds(dx as int, self.width as int);
                        lemma_norm_to_mpx_bounds(dy as int, self.height as int);
                    }
                    let mut dxm = div_trunc(dx as i64 * (self.width as i64), 10);
                    let dym = div_trunc(dy as i64 * (self.height as i64), 10);
                    if self.translate_x > 0 && dxm < 0 || self.translate_x < 0 && dxm > 0 {
                        let adx = if dxm >= 0 {
                            dxm
                        } else {
                            -dxm
                        };
                        let atx = if self.translate_x >= 0 {
                            self.translate_x
                        } else {
                            -self.translate_x
                        };
                        let mag = if adx <= atx {
                            adx
                        } else {
                            atx
                        };
                        let moved = if dxm > 0 {
                            mag
                        } else {
                            -mag
                        };
                        self.translate_x = self.translate_x + moved;
                        dxm = dxm - moved;
                    }
                    if self.curr.zoom_mode {
                        let remain = self.curr.move_by(dxm, dym);
                        dxm = remain.0;
                    }
                    self.translate_x = clamp_i64(
                        self.translate_x + dxm,
                        -OFFSET_CLAMP_MPX,
                        OFFSET_CLAMP_MPX,
                    );
                },
                GestureEvent::PanEnd { .. } => {
                    self.dragging = false;
                    let delta = self.translate_x - self.translate_x_pre;
                    let th: i64 = if self.curr.zoom_mode {
                        SWIPE_THRESHOLD_ZOOM_MPX
                    } else {
                        SWIPE_THRESHOLD_MPX
                    };
                    let mov: i64 = if delta > th {
                        1
                    } else if delta < -th {
                        -1
                    } else {
                        0
                    };
                    let len = cfg.gallery.pics.len();
                    let mov2: i64 = if (mov == -1 && self.img_idx + 1 >= len) || (mov == 1
                        && self.img_idx == 0) {
                        0
                    } else {
                        mov
                    };
                    proof {
                        assert(mov2 as int * ((self.width as int + PREVIEW_GAP) * 1000)
                            <= (self.width as int + PREVIEW_GAP) * 1000 && -((self.width as int
                            + PREVIEW_GAP) * 1000) <= mov2 as int * ((self.width as int
                            + PREVIEW_GAP) * 1000)) by (nonlinear_arith)
                            requires
                                -1 <= (mov2 as int) && (mov2 as int) <= 1,
                                0 <= (self.width as int) && (self.width as int) <= 100_000,
                        ;
                    }
                    let target: i64 = mov2 * ((self.width as i64 + PREVIEW_GAP) * 1000);
                    self.move_to(target, 300, now);
                },
                GestureEvent::Tap(_x, _y) => {},
            }
            i = i + 1;
        }
        let fingers = self.gesture_detector.fingers();
        if fingers >= 2 {
            match *evt {
                InputEvent::MultiGesture { x, y, d_dist, .. } => {
                    let px = coord_to_px(x, self.width);
                    let py = coord_to_px(y, self.height);
                    let d = div_trunc(d_dist as i64, 2);
                    self.curr.scale_by(px, py, d, cache);
                },
                _ => {},
            }
        }
        self.back_btn.handle_events(evt, cfg)
    }
}


/// The rectangle of grid cell `i` at vertical scroll `ty_px`, its center
/// saturated to the `i32` range.
pub open spec fn gv_cell_rect(l: GalleryLayout, i: int, ty_px: int) -> Rect {
    let cx = THUMB_GAP + l.item_width / 2 + (l.item_width + THUMB_GAP) * (i % l.n as int);
    let cy = THUMB_GAP + l.item_height / 2 + (l.item_height + THUMB_GAP) * (i / l.n as int)
        + ty_px;
    Rect::spec_from_center(
        spec_clamp(cx, -0x8000_0000, 0x7fff_ffff),
        spec_clamp(cy, -0x8000_0000, 0x7fff_ffff),
        l.item_width as int,
        l.item_height as int,
    )
}

/// The draw commands for the grid cells from index `i` on: each cell
/// whose rectangle crosses the viewport vertically draws its thumbnail,
/// clipped to the visible part.
pub open spec fn gv_render_from(
    imgs: Seq<Image>,
    l: GalleryLayout,
    c: TextureCache,
    rect: Rect,
    ty_px: int,
    i: int,
) -> Seq<DrawCmd>
    decreases imgs.len() - i,
{
    if i < 0 || i >= imgs.len() {
        Seq::empty()
    } else {
        let r = gv_cell_rect(l, i, ty_px);
        let rest = gv_render_from(imgs, l, c, rect, ty_px, i + 1);
        if r.bottom() > rect.top() && r.top() < rect.bottom() {
            match imgs[i].spec_render(c, r) {
                Some(cmd) => match rect.spec_intersect(r) {
                    Some(cl) => seq![DrawCmd { clip: cl, ..cmd }] + rest,
                    None => rest,
                },
                None => rest,
            }
        } else {
            rest
        }
    }
}

impl GalleryView {
    /// Compute the draw commands for the visible grid cells.
    #[verifier::loop_isolation(false)]
    pub fn render(&self, cache: &TextureCache, rect: Rect) -> (r: Vec<DrawCmd>)
        requires
            self.wf(),
            cache.wf(),
        ensures
            match self.layout {
                Some(l) => r@ == gv_render_from(
                    self.images@,
                    l,
                    *cache,
                    rect,
                    spec_div_trunc(self.translate_y as int, 1000),
                    0,
                ),
                None => r@.len() == 0,
            },
    {
        let mut out: Vec<DrawCmd> = Vec::new();
        let l = match self.layout {
            Some(l) => l,
            None => {
                return out;
            },
        };
        let ty_px = div_trunc(self.translate_y, 1000);
        let n = self.images.len();
        let ghost tp = spec_div_trunc(self.translate_y as int, 1000);
        let mut i: usize = 0;
        while i < n
            invariant
                i <= n,
                gv_render_from(self.images@, l, *cache, rect, tp, 0) == out@ + gv_render_from(
                    self.images@,
                    l,
                    *cache,
                    rect,
                    tp,
                    i as int,
                ),
            decreases n - i,
        {
            proof {
                vstd::arithmetic::div_mod::lemma_mod_bound(i as int, l.n as int);
                vstd::arithmetic::div_mod::lemma_div_basics_5(i as int, l.n as int);
                vstd::arithmetic::div_mod::lemma_div_pos_is_pos(i as int, l.n as int);
                lemma_mul_le(l.item_width as int + THUMB_GAP as int, 100_010, (i as int) % (
                l.n as int), 100_000);
                lemma_mul_le(l.item_height as int + THUMB_GAP as int, 100_010, (i as int) / (
                l.n as int), 1_000_000);
            }
            let col: u64 = (i as u64) % (l.n as u64);
            let row: u64 = (i as u64) / (l.n as u64);
            let cx: i64 = (THUMB_GAP as i64) + (l.item_width / 2) as i64 + ((l.item_width as i64
                + THUMB_GAP as i64) * col as i64);
            let cy: i64 = (THUMB_GAP as i64) + (l.item_height / 2) as i64 + ((l.item_height as i64
                + THUMB_GAP as i64) * row as i64) + ty_px;
            let cell = Rect::from_center(
                crate::util::to_i32_sat(cx),
                crate::util::to_i32_sat(cy),
                l.item_width,
                l.item_height,
            );
            let visible = (cell.y as i64 + cell.h as i64) > rect.y as i64 && (cell.y as i64)
                < rect.y as i64 + rect.h as i64;
            if visible {
                match self.images[i].render(cache, cell) {
                    Some(cmd) => {
                        match rect.intersect(&cell) {
                            Some(cl) => {
                                out.push(DrawCmd { clip: cl, ..cmd });
                                proof {
                                    assert(out@.drop_last() + (seq![out@.last()]
                                        + gv_render_from(
                                        self.images@,
                                        l,
                                        *cache,
                                        rect,
                                        tp,
                                        i as int + 1,
                                    )) =~= out@ + gv_render_from(
                                        self.images@,
                                        l,
                                        *cache,
                                        rect,
                                        tp,
                                        i as int + 1,
                                    ));
                                }
                            },
                            None => {},
                        }
                    },
                    None => {},
                }
            }
            i = i + 1;
        }
        out
    }
}

/// The draw commands for the whole carousel: the neighbor slides appear
/// while the translation uncovers them, the current slide follows the
/// translation, and the back button draws on top.
pub open spec fn pv_render(p: Preview, c: TextureCache, rect: Rect) -> Seq<DrawCmd> {
    let tx = spec_div_trunc(p.translate_x as int, 1000);
    let stride = p.width + PREVIEW_GAP;
    let part0: Seq<DrawCmd> = if p.translate_x > 0 {
        opt_cmd(
            ScrollView::spec_sv_render(
                p.prev,
                c,
                rect.spec_offset(tx - stride, 0),
            ),
        )
    } else {
        Seq::empty()
    };
    let part1 = opt_cmd(ScrollView::spec_sv_render(p.curr, c, rect.spec_offset(tx, 0)));
    let part2: Seq<DrawCmd> = if p.translate_x < 0 {
        opt_cmd(
            ScrollView::spec_sv_render(
                p.next,
                c,
                rect.spec_offset(tx + stride, 0),
            ),
        )
    } else {
        Seq::empty()
    };
    let part3 = match p.back_btn.img {
        Some(img) => opt_cmd(img.spec_render(c, p.back_btn.rect)),
        None => Seq::empty(),
    };
    part0 + part1 + part2 + part3
}

/// An optional draw command as a sequence of zero or one commands.
pub open spec fn opt_cmd(o: Option<DrawCmd>) -> Seq<DrawCmd> {
    match o {
        Some(c) => seq![c],
        None => Seq::empty(),
    }
}

impl Preview {
    /// Compute the draw commands for the carousel.
    pub fn render(&self, cache: &TextureCache, rect: Rect) -> (r: Vec<DrawCmd>)
        requires
            self.wf(),
            cache.wf(),
        ensures
            r@ == pv_render(*self, *cache, rect),
    {
        let mut out: Vec<DrawCmd> = Vec::new();
        let tx = div_trunc(self.translate_x, 1000);
        let stride: i64 = self.width as i64 + PREVIEW_GAP;
        if self.translate_x > 0 {
            let r0 = Rect {
                x: crate::util::to_i32_sat(rect.x as i64 + (tx - stride)),
                y: rect.y,
                w: rect.w,
                h: rect.h,
            };
            if let Some(cmd) = self.prev.render(cache, r0) {
                out.push(cmd);
            }
        }
        let r1 = Rect {
            x: crate::util::to_i32_sat(rect.x as i64 + tx),
            y: rect.y,
            w: rect.w,
            h: rect.h,
        };
        if let Some(cmd) = self.curr.render(cache, r1) {
            out.push(cmd);
        }
        if self.translate_x < 0 {
            let r2 = Rect {
                x: crate::util::to_i32_sat(rect.x as i64 + (tx + stride)),
                y: rect.y,
                w: rect.w,
                h: rect.h,
            };
            if let Some(cmd) = self.next.render(cache, r2) {
                out.push(cmd);
            }
        }
        if let Some(cmd) = self.back_btn.render(cache, rect) {
            out.push(cmd);
        }
        proof {
            assert(out@ =~= pv_render(*self, *cache, rect));
        }
        out
    }
}


/// How one `GalleryView::handle_events` call relates its states, result
/// and clock.
pub open spec fn gv_handle_rel(
    pre: GalleryView,
    post: GalleryView,
    evt: InputEvent,
    now: u64,
    r: Option<Action>,
) -> bool {
    let m0 = pre.model();
    let stepped = GvModel {
        detectors: Seq::new(
            m0.detectors.len(),
            |i: int| crate::gesture::sub_step(m0.detectors[i], evt),
        ),
        pool: Seq::empty(),
        ..m0
    };
    let gs = m0.pool + emitted_from(m0.detectors, evt);
    &&& post.wf()
    &&& (post.model(), r) == gv_process(stepped, gs, now)
}

/// How one `Preview::handle_events` call relates its states, result and
/// clock.
pub open spec fn pv_handle_rel(
    pre: Preview,
    post: Preview,
    cfg: Config,
    cache: TextureCache,
    evt: InputEvent,
    now: u64,
    r: Option<Action>,
) -> bool {
    let m0 = pre.model();
    let stepped = PvModel {
        detectors: Seq::new(
            m0.detectors.len(),
            |i: int| crate::gesture::sub_step(m0.detectors[i], evt),
        ),
        pool: Seq::empty(),
        ..m0
    };
    let gs = m0.pool + emitted_from(m0.detectors, evt);
    let m1 = pv_process(stepped, cache, cfg.gallery.pics@.len() as int, gs, now);
    let m2 = match evt {
        InputEvent::MultiGesture { x, y, d_dist, .. } => if
            crate::gesture::GestureDetector::spec_fingers(stepped.detectors) >= 2 {
            PvModel {
                curr: sv_set_scale(
                    m1.curr,
                    cache,
                    spec_clamp(
                        m1.curr.scale + spec_div_trunc(d_dist as int, 2),
                        MIN_SCALE_PM as int,
                        MAX_SCALE_PM as int,
                    ) as u32,
                ),
                ..m1
            }
        } else {
            m1
        },
        _ => m1,
    };
    &&& post.wf()
    &&& post.model() == m2
    &&& post.back_btn.rect == pre.back_btn.rect
    &&& post.back_btn.img == pre.back_btn.img
    &&& post.back_btn.gesture_detector.pool@.len() == 0
    &&& r == crate::display::btn_scan(
        pre.back_btn.gesture_detector.pool@ + emitted_from(
            pre.back_btn.gesture_detector.detectors@,
            evt,
        ),
        pre.back_btn.rect,
        cfg.width as int,
        cfg.height as int,
    )
}

/// How one `GalleryView::update` call relates its states, the cache and
/// the clock.
pub open spec fn gv_update_rel(
    pre: GalleryView,
    post: GalleryView,
    cpre: TextureCache,
    cpost: TextureCache,
    now: u64,
) -> bool {
    let m = pre.model();
    &&& post.wf()
    &&& cpost.wf()
    &&& if !m.dragging && m.transition is Some {
        &&& post.model() == gv_step_transition(m, m.transition->0, now)
        &&& cpost == cpre
    } else if !m.dragging && m.dy != 0 {
        let ndy = gv_slide_dy(m);
        let m1 = GvModel { dy: ndy as i64, ..gv_move_by(m, ndy as i64) };
        if ndy != 0 {
            &&& post.model() == m1
            &&& cpost == cpre
        } else {
            &&& post.model() == gv_snap(m1, now)
            &&& range_load_effect(cpre, cpost, m1.images, gv_vis_lo(m1), gv_vis_hi(m1))
        }
    } else {
        &&& post.model() == m
        &&& cpost == cpre
    }
}

/// How one `Preview::update` call relates its states, the cache and the
/// clock.
pub open spec fn pv_update_rel(
    pre: Preview,
    post: Preview,
    cfg: Config,
    cpre: TextureCache,
    cpost: TextureCache,
    now: u64,
) -> bool {
    let m = pre.model();
    let m1 = if !m.dragging && m.curr.zoom_mode {
        PvModel { curr: sv_update(m.curr), ..m }
    } else {
        m
    };
    &&& post.wf()
    &&& cpost.wf()
    &&& post.back_btn == pre.back_btn
    &&& if !m.dragging && m.transition is Some {
        let t = m.transition->0;
        if t.state is AtEnd {
            let m2 = PvModel { translate_x: t.target_val, transition: None, ..m1 };
            &&& post.model() == pv_rotate_model(m2, cpre, cfg)
            &&& TextureCache::load_set_effect(cpre, cpost, pv_rotate_keys(m2, cfg))
        } else {
            &&& post.model() == (PvModel {
                translate_x: t.step_model(now).1,
                transition: Some(t.step_model(now).0),
                ..m1
            })
            &&& cpost == cpre
        }
    } else {
        &&& post.model() == m1
        &&& cpost == cpre
    }
}

/// How one `Preview::on_start` call relates its states and the cache.
pub open spec fn pv_on_start_rel(
    pre: Preview,
    post: Preview,
    params: Option<usize>,
    cfg: Config,
    cpre: TextureCache,
    cpost: TextureCache,
) -> bool {
    let i: int = match params {
        Some(i) => i as int,
        None => 0,
    };
    &&& post.wf()
    &&& cpost.wf()
    &&& post.back_btn == pre.back_btn
    &&& post.model() == pv_set_curr_model(pre.model(), cpre, cfg, i)
    &&& TextureCache::load_set_effect(cpre, cpost, pv_curr_keys(cfg, i))
}

/// An action raised while processing gestures always points inside the
/// grid's picture list.
pub proof fn lemma_gv_process_action_bound(m: GvModel, gs: Seq<GestureEvent>, now: u64)
    ensures
        match gv_process(m, gs, now).1 {
            Some(a) => match a {
                Action::ShowPreview(i) => (i as int) < m.images.len(),
                Action::ShowGallery => true,
            },
            None => true,
        },
    decreases gs.len(),
{
    if gs.len() > 0 {
        let step = gv_apply(m, gs[0], now);
        if step.1 is Some {
            match gs[0] {
                GestureEvent::Tap(x, y) => {
                    let px = spec_div_trunc(x * m.width, 10000);
                    let py = spec_div_trunc(y * m.height, 10000) - spec_div_trunc(
                        m.translate_y as int,
                        1000,
                    );
                    match m.layout {
                        Some(l) => {
                            lemma_gv_hit_bound(m, l, px, py, 0);
                        },
                        None => {},
                    }
                },
                _ => {},
            }
        } else {
            assert(step.0.images == m.images);
            lemma_gv_process_action_bound(step.0, gs.drop_first(), now);
        }
    }
}

proof fn lemma_gv_hit_bound(m: GvModel, l: GalleryLayout, x: int, y: int, i: int)
    ensures
        match gv_hit_from(m, l, x, y, i) {
            Some(j) => (j as int) < m.images.len(),
            None => true,
        },
    decreases m.images.len() - i,
{
    if 0 <= i < m.images.len() && !cell_contains(l, i, x, y) {
        lemma_gv_hit_bound(m, l, x, y, i + 1);
    }
}


/// At the first picture a committed right-swipe is a no-op, and at the
/// last picture a committed left-swipe is: the release starts a snap-back
/// transition whose target is exactly zero, the picture index never
/// moves, and once the transition has run its course the translation is
/// exactly zero again and the landing rotation changes nothing.
pub proof fn lemma_carousel_boundary_noop(
    m: PvModel,
    c: TextureCache,
    c2: TextureCache,
    cfg: Config,
    g: GestureEvent,
    now: u64,
    now2: u64,
)
    requires
        g is PanEnd,
        cfg.gallery.pics@.len() <= MAX_PICS,
        (m.img_idx == 0 && m.translate_x - m.translate_x_pre > pv_commit_threshold(m)) || (
        m.img_idx + 1 >= cfg.gallery.pics@.len() && m.translate_x - m.translate_x_pre
            < -pv_commit_threshold(m)),
    ensures
        ({
            let m1 = pv_apply(m, c, cfg.gallery.pics@.len() as int, g, now);
            &&& m1.img_idx == m.img_idx
            &&& m1.transition is Some
            &&& m1.transition->0.target_val == 0
            &&& m1.transition->0.start_val == m.translate_x
            &&& m1.transition->0.elapsed_at(now2) >= m1.transition->0.duration
                ==> m1.transition->0.step_model(now2).1 == 0
            &&& pv_rotate_model(
                PvModel { translate_x: 0, transition: None, ..m1 },
                c2,
                cfg,
            ) == (PvModel { translate_x: 0, transition: None, ..m1 })
        }),
{
    let len = cfg.gallery.pics@.len() as int;
    let m1 = pv_apply(m, c, len, g, now);
    let t = m1.transition->0;
    if t.elapsed_at(now2) >= t.duration {
        crate::transition::lemma_step_boundary_latched(t, now2, now2);
    }
}

/// Releasing a drag whose net displacement stays within the swipe
/// threshold starts a snap-back transition with target exactly zero;
/// after the transition completes the translation is restored to exactly
/// zero, the picture index is unchanged, and the landing rotation changes
/// nothing.
pub proof fn lemma_snapback_restores_zero(
    m: PvModel,
    c: TextureCache,
    c2: TextureCache,
    cfg: Config,
    g: GestureEvent,
    now: u64,
    now2: u64,
)
    requires
        g is PanEnd,
        cfg.gallery.pics@.len() <= MAX_PICS,
        -pv_commit_threshold(m) <= m.translate_x - m.translate_x_pre <= pv_commit_threshold(m),
    ensures
        ({
            let m1 = pv_apply(m, c, cfg.gallery.pics@.len() as int, g, now);
            &&& m1.img_idx == m.img_idx
            &&& m1.transition is Some
            &&& m1.transition->0.target_val == 0
            &&& m1.transition->0.elapsed_at(now2) >= m1.transition->0.duration
                ==> m1.transition->0.step_model(now2).1 == 0
            &&& pv_rotate_model(
                PvModel { translate_x: 0, transition: None, ..m1 },
                c2,
                cfg,
            ) == (PvModel { translate_x: 0, transition: None, ..m1 })
        }),
{
    let len = cfg.gallery.pics@.len() as int;
    let m1 = pv_apply(m, c, len, g, now);
    let t = m1.transition->0;
    if t.elapsed_at(now2) >= t.duration {
        crate::transition::lemma_step_boundary_latched(t, now2, now2);
    }
}

} // verus!
