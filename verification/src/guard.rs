use vstd::prelude::*;

use crate::color::Color;
use crate::grid::{color_at, PixelGrid};
use crate::rect::{pct, pct_of, ScreenRect};

verus! {

/// Horizontal position, in hundredths of the width, of the k-th test point.
pub open spec fn test_xp(k: int) -> int {
    if k == 0 {
        30
    } else if k == 1 {
        50
    } else if k == 2 {
        70
    } else if k == 3 {
        30
    } else if k == 4 {
        90
    } else if k == 5 {
        50
    } else if k == 6 {
        80
    } else if k == 7 {
        60
    } else if k == 8 {
        40
    } else {
        90
    }
}

/// Vertical position, in hundredths of the height, of the k-th test point.
pub open spec fn test_yp(k: int) -> int {
    if k == 0 {
        30
    } else if k == 1 {
        50
    } else if k == 2 {
        30
    } else if k == 3 {
        70
    } else if k == 4 {
        90
    } else if k == 5 {
        80
    } else if k == 6 {
        50
    } else if k == 7 {
        60
    } else if k == 8 {
        90
    } else {
        40
    }
}

pub open spec fn test_px(r: ScreenRect, k: int) -> int {
    r.left + pct(r.width(), test_xp(k))
}

pub open spec fn test_py(r: ScreenRect, k: int) -> int {
    r.top + pct(r.height(), test_yp(k))
}

pub open spec fn guard_sample(g: Map<(int, int), Color>, r: ScreenRect, k: int) -> Option<Color> {
    color_at(g, test_px(r, k), test_py(r, k))
}

/// The sampling environment is degenerate: at least one of the ten diverse
/// test points yields a sample, and all the samples that exist are
/// bit-identical, so the pixel read cannot distinguish content here.
pub open spec fn degenerate(g: Map<(int, int), Color>, r: ScreenRect) -> bool {
    (exists|k: int| 0 <= k < 10 && (#[trigger] guard_sample(g, r, k)) is Some) && (forall|
        k1: int,
        k2: int,
    |
        0 <= k1 < 10 && 0 <= k2 < 10 && (#[trigger] guard_sample(g, r, k1)) is Some && (
        #[trigger] guard_sample(g, r, k2)) is Some ==> guard_sample(g, r, k1) == guard_sample(
            g,
            r,
            k2,
        ))
}

pub(crate) fn test_point_at(rect: &ScreenRect, k: usize) -> (pt: (i32, i32))
    requires
        rect.usable(),
        k < 10,
    ensures
        pt.0 == test_px(*rect, k as int),
        pt.1 == test_py(*rect, k as int),
{
    let w = rect.width_px();
    let h = rect.height_px();
    let (xp, yp): (i32, i32) = if k == 0 {
        (30, 30)
    } else if k == 1 {
        (50, 50)
    } else if k == 2 {
        (70, 30)
    } else if k == 3 {
        (30, 70)
    } else if k == 4 {
        (90, 90)
    } else if k == 5 {
        (50, 80)
    } else if k == 6 {
        (80, 50)
    } else if k == 7 {
        (60, 60)
    } else if k == 8 {
        (40, 90)
    } else {
        (90, 40)
    };
    (rect.left + pct_of(w, xp), rect.top + pct_of(h, yp))
}

/// Sample the ten test points and report whether the environment is
/// degenerate. Test points whose sample is unavailable are skipped.
#[verifier::loop_isolation(false)]
pub fn reliability_degenerate(rect: &ScreenRect, grid: &PixelGrid) -> (res: bool)
    requires
        rect.usable(),
    ensures
        res == degenerate(grid@, *rect),
{
    let ghost g = grid@;
    let ghost r = *rect;
    let mut first: Option<Color> = None;
    let mut all_same: bool = true;
    let mut k: usize = 0;
    while k < 10
        invariant
            k <= 10,
            first is None ==> forall|k2: int|
                0 <= k2 < k ==> (#[trigger] guard_sample(g, r, k2)) is None,
            first matches Some(f) ==> exists|k0: int|
                0 <= k0 < k && #[trigger] guard_sample(g, r, k0) == Some(f),
            all_same ==> (first matches Some(f) ==> forall|k2: int|
                0 <= k2 < k && (#[trigger] guard_sample(g, r, k2)) is Some ==> guard_sample(
                    g,
                    r,
                    k2,
                ) == Some(f)),
            !all_same ==> exists|k1: int, k2: int|
                0 <= k1 < k && 0 <= k2 < k && (#[trigger] guard_sample(g, r, k1)) is Some && (
                #[trigger] guard_sample(g, r, k2)) is Some && guard_sample(g, r, k1)
                    != guard_sample(g, r, k2),
        decreases 10 - k,
    {
        let pt = test_point_at(rect, k);
        let s = grid.sample(pt.0, pt.1);
        proof {
            assert(s == guard_sample(g, r, k as int));
        }
        match s {
            Some(c) => {
                match first {
                    None => {
                        first = Some(c);
                    },
                    Some(f) => {
                        if c != f {
                            proof {
                                let k0 = choose|k0: int|
                                    0 <= k0 < k && guard_sample(g, r, k0) == Some(f);
                                assert((guard_sample(g, r, k0)) is Some);
                                assert((guard_sample(g, r, k as int)) is Some);
                                assert(guard_sample(g, r, k0) != guard_sample(g, r, k as int));
                            }
                            all_same = false;
                        }
                    },
                }
            },
            None => {},
        }
        k = k + 1;
    }
    let res = match first {
        Some(_) => all_same,
        None => false,
    };
    proof {
        if res {
            assert(degenerate(g, r));
        } else {
            if first is None {
                assert(!(exists|k: int|
                    0 <= k < 10 && (#[trigger] guard_sample(g, r, k)) is Some));
            } else {
                assert(!all_same);
                assert(!degenerate(g, r));
            }
        }
    }
    res
}

} // verus!
