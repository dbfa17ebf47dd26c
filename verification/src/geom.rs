//! Integer rectangle geometry in pixel space.

use crate::util::{spec_clamp, to_i32_sat};
use vstd::prelude::*;

verus! {

/// An axis-aligned rectangle: top-left corner plus extent, in pixels.
#[derive(Clone, Copy, Debug, PartialEq, Eq, Structural)]
pub struct Rect {
    pub x: i32,
    pub y: i32,
    pub w: u32,
    pub h: u32,
}

impl Rect {
    pub open spec fn left(self) -> int {
        self.x as int
    }

    pub open spec fn top(self) -> int {
        self.y as int
    }

    pub open spec fn right(self) -> int {
        self.x as int + self.w as int
    }

    pub open spec fn bottom(self) -> int {
        self.y as int + self.h as int
    }

    /// Membership is half-open: the right and bottom edges are outside.
    pub open spec fn spec_contains(self, px: int, py: int) -> bool {
        self.left() <= px < self.right() && self.top() <= py < self.bottom()
    }

    pub fn new(x: i32, y: i32, w: u32, h: u32) -> (r: Rect)
        ensures
            r == (Rect { x, y, w, h }),
    {
        Rect { x, y, w, h }
    }

    pub fn contains_point(&self, px: i32, py: i32) -> (r: bool)
        ensures
            r == self.spec_contains(px as int, py as int),
    {
        px as i64 >= self.x as i64 && (px as i64) < self.x as i64 + self.w as i64 && py as i64
            >= self.y as i64 && (py as i64) < self.y as i64 + self.h as i64
    }

    /// Containment checked on wide coordinates, avoiding any narrowing.
    pub fn contains_point_i64(&self, px: i64, py: i64) -> (r: bool)
        ensures
            r == self.spec_contains(px as int, py as int),
    {
        px >= self.x as i64 && px < self.x as i64 + self.w as i64 && py >= self.y as i64 && py
            < self.y as i64 + self.h as i64
    }

    /// The corner that centers a `w` by `h` extent on `(cx, cy)`, saturated
    /// to the `i32` range.
    pub open spec fn spec_from_center(cx: int, cy: int, w: int, h: int) -> Rect {
        Rect {
            x: spec_clamp(cx - w / 2, -0x8000_0000, 0x7fff_ffff) as i32,
            y: spec_clamp(cy - h / 2, -0x8000_0000, 0x7fff_ffff) as i32,
            w: w as u32,
            h: h as u32,
        }
    }

    /// Build the rectangle of extent `w` by `h` centered on `(cx, cy)`.
    pub fn from_center(cx: i32, cy: i32, w: u32, h: u32) -> (r: Rect)
        ensures
            r == Rect::spec_from_center(cx as int, cy as int, w as int, h as int),
    {
        let x = to_i32_sat(cx as i64 - (w / 2) as i64);
        let y = to_i32_sat(cy as i64 - (h / 2) as i64);
        Rect { x, y, w, h }
    }

    pub open spec fn spec_offset(self, dx: int, dy: int) -> Rect {
        Rect {
            x: spec_clamp(self.x + dx, -0x8000_0000, 0x7fff_ffff) as i32,
            y: spec_clamp(self.y + dy, -0x8000_0000, 0x7fff_ffff) as i32,
            w: self.w,
            h: self.h,
        }
    }

    /// The same extent shifted by `(dx, dy)`, saturated to the `i32` range.
    pub fn offset(&self, dx: i32, dy: i32) -> (r: Rect)
        ensures
            r == self.spec_offset(dx as int, dy as int),
    {
        Rect {
            x: to_i32_sat(self.x as i64 + dx as i64),
            y: to_i32_sat(self.y as i64 + dy as i64),
            w: self.w,
            h: self.h,
        }
    }

    pub open spec fn spec_center(self) -> (int, int) {
        (self.x + self.w as int / 2, self.y + self.h as int / 2)
    }

    /// The center point, saturated to the `i32` range.
    pub fn center(&self) -> (r: (i32, i32))
        ensures
            r.0 as int == spec_clamp(self.spec_center().0, -0x8000_0000, 0x7fff_ffff),
            r.1 as int == spec_clamp(self.spec_center().1, -0x8000_0000, 0x7fff_ffff),
    {
        (
            to_i32_sat(self.x as i64 + (self.w / 2) as i64),
            to_i32_sat(self.y as i64 + (self.h / 2) as i64),
        )
    }

    /// Whether the two rectangles share at least one point.
    pub open spec fn spec_overlaps(self, other: Rect) -> bool {
        self.left() < other.right() && other.left() < self.right() && self.top() < other.bottom()
            && other.top() < self.bottom()
    }

    /// The common region of two rectangles, `None` when they are disjoint.
    pub open spec fn spec_intersect(self, other: Rect) -> Option<Rect> {
        if self.spec_overlaps(other) {
            let x = if self.left() >= other.left() {
                self.left()
            } else {
                other.left()
            };
            let y = if self.top() >= other.top() {
                self.top()
            } else {
                other.top()
            };
            let r = if self.right() <= other.right() {
                self.right()
            } else {
                other.right()
            };
            let b = if self.bottom() <= other.bottom() {
                self.bottom()
            } else {
                other.bottom()
            };
            Some(Rect { x: x as i32, y: y as i32, w: (r - x) as u32, h: (b - y) as u32 })
        } else {
            None
        }
    }

    /// Intersect two rectangles.
    pub fn intersect(&self, other: &Rect) -> (r: Option<Rect>)
        ensures
            r == self.spec_intersect(*other),
    {
        let ax: i64 = self.x as i64;
        let ay: i64 = self.y as i64;
        let ar: i64 = self.x as i64 + self.w as i64;
        let ab: i64 = self.y as i64 + self.h as i64;
        let bx: i64 = other.x as i64;
        let by: i64 = other.y as i64;
        let br: i64 = other.x as i64 + other.w as i64;
        let bb: i64 = other.y as i64 + other.h as i64;
        if ax < br && bx < ar && ay < bb && by < ab {
            let x = if ax >= bx { ax } else { bx };
            let y = if ay >= by { ay } else { by };
            let r = if ar <= br { ar } else { br };
            let b = if ab <= bb { ab } else { bb };
            Some(Rect { x: x as i32, y: y as i32, w: (r - x) as u32, h: (b - y) as u32 })
        } else {
            None
        }
    }
}

} // verus!
