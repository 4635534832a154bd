use vstd::prelude::*;

verus! {

/// Largest magnitude a screen coordinate may have. Real desktops sit far
/// inside this bound; it keeps every derived coordinate inside `i32`.
pub const COORD_LIMIT: i32 = 8_388_608;

/// Absolute on-screen bounding box of a window, in screen coordinates.
#[derive(Clone, Copy, PartialEq, Eq, Structural, Debug)]
pub struct ScreenRect {
    pub left: i32,
    pub top: i32,
    pub right: i32,
    pub bottom: i32,
}

impl ScreenRect {
    pub open spec fn width(self) -> int {
        self.right - self.left
    }

    pub open spec fn height(self) -> int {
        self.bottom - self.top
    }

    /// All four coordinates are small enough that scan arithmetic stays in `i32`.
    pub open spec fn in_bounds(self) -> bool {
        &&& -COORD_LIMIT <= self.left <= COORD_LIMIT
        &&& -COORD_LIMIT <= self.top <= COORD_LIMIT
        &&& -COORD_LIMIT <= self.right <= COORD_LIMIT
        &&& -COORD_LIMIT <= self.bottom <= COORD_LIMIT
    }

    /// A rectangle the scanner may work on: in bounds with strictly positive
    /// width and height. Anything else is an unusable input.
    pub open spec fn usable(self) -> bool {
        self.in_bounds() && self.width() > 0 && self.height() > 0
    }

    pub fn new(left: i32, top: i32, right: i32, bottom: i32) -> (r: ScreenRect)
        ensures
            r == (ScreenRect { left, top, right, bottom }),
    {
        ScreenRect { left, top, right, bottom }
    }

    pub fn is_usable(&self) -> (ok: bool)
        ensures
            ok == self.usable(),
    {
        self.left >= -COORD_LIMIT && self.left <= COORD_LIMIT && self.top >= -COORD_LIMIT
            && self.top <= COORD_LIMIT && self.right >= -COORD_LIMIT && self.right <= COORD_LIMIT
            && self.bottom >= -COORD_LIMIT && self.bottom <= COORD_LIMIT && self.right > self.left
            && self.bottom > self.top
    }

    pub fn width_px(&self) -> (w: i32)
        requires
            self.in_bounds(),
        ensures
            w == self.width(),
    {
        self.right - self.left
    }

    pub fn height_px(&self) -> (h: i32)
        requires
            self.in_bounds(),
        ensures
            h == self.height(),
    {
        self.bottom - self.top
    }
}

/// `p` hundredths of `v`, rounded toward zero; how fractional positions
/// inside a window are laid out on whole pixels.
pub open spec fn pct(v: int, p: int) -> int {
    (v * p) / 100
}

pub fn pct_of(v: i32, p: i32) -> (r: i32)
    requires
        0 <= v <= 2 * COORD_LIMIT,
        0 <= p <= 100,
    ensures
        r == pct(v as int, p as int),
        0 <= r <= v,
{
    proof {
        assert(0 <= v * p <= v * 100) by (nonlinear_arith)
            requires
                0 <= v,
                0 <= p <= 100,
        ;
        assert(v * p <= 2 * 8_388_608 * 100);
        assert(0 <= (v * p) / 100);
        assert((v * p) / 100 <= (v * 100) / 100) by {
            vstd::arithmetic::div_mod::lemma_div_is_ordered(v * p, v * 100, 100);
        }
        assert((v * 100) / 100 == v);
    }
    (v * p) / 100
}

} // verus!
