use vstd::prelude::*;

use crate::color::{
    accept_sig, corner_red_sig, is_accept_color, is_corner_red, is_pause_neighbor, is_pause_red,
    is_retry_candidate, is_retry_cluster, pause_neighbor_sig, pause_red_sig, retry_candidate_sig,
    retry_cluster_sig, Color,
};
use crate::grid::{color_at, PixelGrid};
use crate::rect::{pct, pct_of, ScreenRect};

verus! {

// ----------------------------------------------------------------------------
// Pass 1: accept/run button. The right half and the bottom 85% of the window
// are scanned row-major, bottom row first, columns left to right, at a fixed
// stride; the first qualifying pixel confirmed by its right-hand neighbor wins.
// ----------------------------------------------------------------------------
/// Column stride of the accept scan.
pub const P1_STEP_X: i32 = 30;

/// Row stride of the accept scan.
pub const P1_STEP_Y: i32 = 24;

/// Horizontal distance to the confirming neighbor sample.
pub const NEIGHBOR_OFFSET: i32 = 25;

pub open spec fn p1_start_x(r: ScreenRect) -> int {
    pct(r.width(), 50)
}

pub open spec fn p1_end_x(r: ScreenRect) -> int {
    pct(r.width(), 98)
}

pub open spec fn p1_start_y(r: ScreenRect) -> int {
    pct(r.height(), 15)
}

pub open spec fn p1_end_y(r: ScreenRect) -> int {
    pct(r.height(), 98)
}

/// Window-relative y of scan row `i`; row 0 is the bottom row and rows move up.
pub open spec fn p1_row_y(r: ScreenRect, i: int) -> int {
    p1_end_y(r) - P1_STEP_Y * i
}

/// Window-relative x of scan column `j`.
pub open spec fn p1_col_x(r: ScreenRect, j: int) -> int {
    p1_start_x(r) + P1_STEP_X * j
}

pub open spec fn p1_valid_cell(r: ScreenRect, i: int, j: int) -> bool {
    &&& 0 <= i
    &&& p1_row_y(r, i) > p1_start_y(r)
    &&& 0 <= j
    &&& p1_col_x(r, j) < p1_end_x(r)
}

/// An available pixel at absolute (x, y) has the accept signature and so does
/// the available pixel one neighbor-offset to its right.
pub open spec fn accept_match_at(g: Map<(int, int), Color>, x: int, y: int) -> bool {
    &&& color_at(g, x, y) matches Some(c) && accept_sig(c)
    &&& color_at(g, x + NEIGHBOR_OFFSET, y) matches Some(n) && accept_sig(n)
}

pub open spec fn p1_hit(g: Map<(int, int), Color>, r: ScreenRect, i: int, j: int) -> bool {
    p1_valid_cell(r, i, j) && accept_match_at(g, r.left + p1_col_x(r, j), r.top + p1_row_y(r, i))
}

pub open spec fn p1_found(g: Map<(int, int), Color>, r: ScreenRect) -> bool {
    exists|i: int, j: int| p1_hit(g, r, i, j)
}

/// Scan order: lower rows first (bottom-to-top), then left to right.
pub open spec fn scan_earlier(i1: int, j1: int, i2: int, j2: int) -> bool {
    i1 < i2 || (i1 == i2 && j1 < j2)
}

pub open spec fn p1_first_hit(g: Map<(int, int), Color>, r: ScreenRect, i: int, j: int) -> bool {
    p1_hit(g, r, i, j) && forall|i2: int, j2: int|
        scan_earlier(i2, j2, i, j) ==> !(#[trigger] p1_hit(g, r, i2, j2))
}

/// What the accept pass answers: the pixel of the first hit in scan order,
/// in absolute screen coordinates, or nothing anywhere.
pub open spec fn p1_result(g: Map<(int, int), Color>, r: ScreenRect, res: Option<(i32, i32)>) -> bool {
    &&& res matches Some(pt) ==> exists|i: int, j: int|
        #[trigger] p1_first_hit(g, r, i, j) && pt.0 == r.left + p1_col_x(r, j) && pt.1 == r.top
            + p1_row_y(r, i)
    &&& res is None ==> !p1_found(g, r)
}

/// Pass 1: find the first pixel pair carrying the accept-button signature.
#[verifier::loop_isolation(false)]
pub fn pass1_scan(rect: &ScreenRect, grid: &PixelGrid) -> (res: Option<(i32, i32)>)
    requires
        rect.usable(),
    ensures
        p1_result(grid@, *rect, res),
{
    let ghost g = grid@;
    let ghost r = *rect;
    let w = rect.width_px();
    let h = rect.height_px();
    let start_x = pct_of(w, 50);
    let end_x = pct_of(w, 98);
    let start_y = pct_of(h, 15);
    let end_y = pct_of(h, 98);

    let mut y: i32 = end_y;
    let ghost mut i: int = 0;
    while y > start_y
        invariant
            0 <= i,
            y == p1_row_y(r, i),
            forall|i2: int, j2: int| i2 < i ==> !(#[trigger] p1_hit(g, r, i2, j2)),
        decreases y + P1_STEP_Y - start_y,
    {
        let mut x: i32 = start_x;
        let ghost mut j: int = 0;
        while x < end_x
            invariant
                0 <= j,
                x == p1_col_x(r, j),
                forall|j2: int| j2 < j ==> !(#[trigger] p1_hit(g, r, i, j2)),
            decreases end_x + P1_STEP_X - x,
        {
            let sx = rect.left + x;
            let sy = rect.top + y;
            let mut matched = false;
            match grid.sample(sx, sy) {
                Some(c) => {
                    if is_accept_color(c) {
                        match grid.sample(sx + NEIGHBOR_OFFSET, sy) {
                            Some(n) => {
                                if is_accept_color(n) {
                                    matched = true;
                                }
                            },
                            None => {},
                        }
                    }
                },
                None => {},
            }
            if matched {
                proof {
                    assert(p1_hit(g, r, i, j));
                    assert forall|i2: int, j2: int| scan_earlier(i2, j2, i, j) implies !(
                    #[trigger] p1_hit(g, r, i2, j2)) by {
                        if i2 < i {
                        } else {
                            assert(i2 == i && j2 < j);
                        }
                    }
                    assert(p1_first_hit(g, r, i, j));
                }
                return Some((sx, sy));
            }
            proof {
                assert(!p1_hit(g, r, i, j));
            }
            x = x + P1_STEP_X;
            proof {
                j = j + 1;
            }
        }
        proof {
            assert forall|j2: int| !(#[trigger] p1_hit(g, r, i, j2)) by {
                if 0 <= j2 < j {
                } else if j2 >= j {
                    assert(P1_STEP_X * j2 >= P1_STEP_X * j);
                    assert(p1_col_x(r, j2) >= p1_end_x(r));
                }
            }
        }
        y = y - P1_STEP_Y;
        proof {
            i = i + 1;
        }
    }
    proof {
        assert forall|i2: int, j2: int| !(#[trigger] p1_hit(g, r, i2, j2)) by {
            if i2 >= i {
                assert(P1_STEP_Y * i2 >= P1_STEP_Y * i);
                assert(p1_row_y(r, i2) <= p1_start_y(r));
            }
        }
    }
    None
}

// ----------------------------------------------------------------------------
// Pass 2: pause/stop indicator. A small bottom-right sub-region is scanned at
// a coarser stride, top to bottom, for a red-dominant pixel confirmed by the
// red channel of one close neighbor. Only existence matters: the state it
// yields carries no coordinates.
// ----------------------------------------------------------------------------
/// Row and column stride of the pause scan.
pub const P2_STEP: i32 = 12;

/// Horizontal distance to the pause confirmation sample.
pub const P2_NEIGHBOR_OFFSET: i32 = 5;

pub open spec fn p2_start_x(r: ScreenRect) -> int {
    pct(r.width(), 80)
}

pub open spec fn p2_end_x(r: ScreenRect) -> int {
    pct(r.width(), 97)
}

pub open spec fn p2_start_y(r: ScreenRect) -> int {
    pct(r.height(), 82)
}

pub open spec fn p2_end_y(r: ScreenRect) -> int {
    pct(r.height(), 97)
}

pub open spec fn p2_row_y(r: ScreenRect, i: int) -> int {
    p2_start_y(r) + P2_STEP * i
}

pub open spec fn p2_col_x(r: ScreenRect, j: int) -> int {
    p2_start_x(r) + P2_STEP * j
}

pub open spec fn p2_valid_cell(r: ScreenRect, i: int, j: int) -> bool {
    &&& 0 <= i
    &&& p2_row_y(r, i) < p2_end_y(r)
    &&& 0 <= j
    &&& p2_col_x(r, j) < p2_end_x(r)
}

pub open spec fn pause_match_at(g: Map<(int, int), Color>, x: int, y: int) -> bool {
    &&& color_at(g, x, y) matches Some(c) && pause_red_sig(c)
    &&& color_at(g, x + P2_NEIGHBOR_OFFSET, y) matches Some(n) && pause_neighbor_sig(n)
}

pub open spec fn p2_hit(g: Map<(int, int), Color>, r: ScreenRect, i: int, j: int) -> bool {
    p2_valid_cell(r, i, j) && pause_match_at(g, r.left + p2_col_x(r, j), r.top + p2_row_y(r, i))
}

pub open spec fn p2_found(g: Map<(int, int), Color>, r: ScreenRect) -> bool {
    exists|i: int, j: int| p2_hit(g, r, i, j)
}

/// Pass 2: is a confirmed red pause indicator anywhere in its sub-region?
#[verifier::loop_isolation(false)]
pub fn pass2_scan(rect: &ScreenRect, grid: &PixelGrid) -> (res: bool)
    requires
        rect.usable(),
    ensures
        res == p2_found(grid@, *rect),
{
    let ghost g = grid@;
    let ghost r = *rect;
    let w = rect.width_px();
    let h = rect.height_px();
    let start_x = pct_of(w, 80);
    let end_x = pct_of(w, 97);
    let start_y = pct_of(h, 82);
    let end_y = pct_of(h, 97);

    let mut y: i32 = start_y;
    let ghost mut i: int = 0;
    while y < end_y
        invariant
            0 <= i,
            y == p2_row_y(r, i),
            forall|i2: int, j2: int| i2 < i ==> !(#[trigger] p2_hit(g, r, i2, j2)),
        decreases end_y + P2_STEP - y,
    {
        let mut x: i32 = start_x;
        let ghost mut j: int = 0;
        while x < end_x
            invariant
                0 <= j,
                x == p2_col_x(r, j),
                forall|j2: int| j2 < j ==> !(#[trigger] p2_hit(g, r, i, j2)),
            decreases end_x + P2_STEP - x,
        {
            let sx = rect.left + x;
            let sy = rect.top + y;
            let mut matched = false;
            match grid.sample(sx, sy) {
                Some(c) => {
                    if is_pause_red(c) {
                        match grid.sample(sx + P2_NEIGHBOR_OFFSET, sy) {
                            Some(n) => {
                                if is_pause_neighbor(n) {
                                    matched = true;
                                }
                            },
                            None => {},
                        }
                    }
                },
                None => {},
            }
            if matched {
                proof {
                    assert(p2_hit(g, r, i, j));
                }
                return true;
            }
            proof {
                assert(!p2_hit(g, r, i, j));
            }
            x = x + P2_STEP;
            proof {
                j = j + 1;
            }
        }
        proof {
            assert forall|j2: int| !(#[trigger] p2_hit(g, r, i, j2)) by {
                if j2 >= j {
                    assert(P2_STEP * j2 >= P2_STEP * j);
                    assert(p2_col_x(r, j2) >= p2_end_x(r));
                }
            }
        }
        y = y + P2_STEP;
        proof {
            i = i + 1;
        }
    }
    proof {
        assert forall|i2: int, j2: int| !(#[trigger] p2_hit(g, r, i2, j2)) by {
            if i2 >= i {
                assert(P2_STEP * i2 >= P2_STEP * i);
                assert(p2_row_y(r, i2) >= p2_end_y(r));
            }
        }
    }
    false
}

// ----------------------------------------------------------------------------
// Pass 3, first step: a short fixed list of probes anchored to the
// bottom-right corner, looking for a coarser red indicator.
// ----------------------------------------------------------------------------
pub open spec fn p3_x_off(k: int) -> int {
    if k == 0 {
        30
    } else if k == 1 {
        50
    } else if k == 2 {
        80
    } else if k == 3 {
        120
    } else if k == 4 {
        160
    } else if k == 5 {
        200
    } else {
        250
    }
}

pub open spec fn p3_y_off(l: int) -> int {
    if l == 0 {
        30
    } else if l == 1 {
        50
    } else if l == 2 {
        70
    } else if l == 3 {
        100
    } else if l == 4 {
        130
    } else {
        160
    }
}

pub open spec fn corner_red_at(g: Map<(int, int), Color>, r: ScreenRect, k: int, l: int) -> bool {
    &&& 0 <= k < 7
    &&& 0 <= l < 6
    &&& color_at(g, r.right - p3_x_off(k), r.bottom - p3_y_off(l)) matches Some(c)
        && corner_red_sig(c)
}

pub open spec fn corner_red_found(g: Map<(int, int), Color>, r: ScreenRect) -> bool {
    exists|k: int, l: int| corner_red_at(g, r, k, l)
}

pub(crate) fn p3_x_off_at(k: usize) -> (v: i32)
    requires
        k < 7,
    ensures
        v == p3_x_off(k as int),
{
    if k == 0 {
        30
    } else if k == 1 {
        50
    } else if k == 2 {
        80
    } else if k == 3 {
        120
    } else if k == 4 {
        160
    } else if k == 5 {
        200
    } else {
        250
    }
}

pub(crate) fn p3_y_off_at(l: usize) -> (v: i32)
    requires
        l < 6,
    ensures
        v == p3_y_off(l as int),
{
    if l == 0 {
        30
    } else if l == 1 {
        50
    } else if l == 2 {
        70
    } else if l == 3 {
        100
    } else if l == 4 {
        130
    } else {
        160
    }
}

/// Pass 3, first step: does any corner-anchored probe show the coarser red?
#[verifier::loop_isolation(false)]
pub fn pass3_corner_red(rect: &ScreenRect, grid: &PixelGrid) -> (res: bool)
    requires
        rect.usable(),
    ensures
        res == corner_red_found(grid@, *rect),
{
    let ghost g = grid@;
    let ghost r = *rect;
    let mut k: usize = 0;
    while k < 7
        invariant
            k <= 7,
            forall|k2: int, l2: int| k2 < k ==> !(#[trigger] corner_red_at(g, r, k2, l2)),
        decreases 7 - k,
    {
        let xo = p3_x_off_at(k);
        let mut l: usize = 0;
        while l < 6
            invariant
                l <= 6,
                forall|l2: int| l2 < l ==> !(#[trigger] corner_red_at(g, r, k as int, l2)),
            decreases 6 - l,
        {
            let yo = p3_y_off_at(l);
            let sx = rect.right - xo;
            let sy = rect.bottom - yo;
            match grid.sample(sx, sy) {
                Some(c) => {
                    if is_corner_red(c) {
                        proof {
                            assert(corner_red_at(g, r, k as int, l as int));
                        }
                        return true;
                    }
                },
                None => {},
            }
            proof {
                assert(!corner_red_at(g, r, k as int, l as int));
            }
            l = l + 1;
        }
        k = k + 1;
    }
    proof {
        assert forall|k2: int, l2: int| !(#[trigger] corner_red_at(g, r, k2, l2)) by {}
    }
    false
}

// ----------------------------------------------------------------------------
// Pass 3, second step: retry button. The lower-right region is scanned bottom
// to top; a candidate pixel counts only with a cluster of at least three
// matching samples among itself and four further horizontal offsets.
// ----------------------------------------------------------------------------
/// Column stride of the retry scan.
pub const R3_STEP_X: i32 = 25;

/// Row stride of the retry scan.
pub const R3_STEP_Y: i32 = 20;

/// Matching samples required for a retry cluster, the candidate included.
pub const RETRY_CLUSTER_MIN: u32 = 3;

pub open spec fn r3_start_x(r: ScreenRect) -> int {
    pct(r.width(), 55)
}

pub open spec fn r3_end_x(r: ScreenRect) -> int {
    pct(r.width(), 95)
}

pub open spec fn r3_start_y(r: ScreenRect) -> int {
    pct(r.height(), 55)
}

pub open spec fn r3_end_y(r: ScreenRect) -> int {
    pct(r.height(), 95)
}

pub open spec fn r3_row_y(r: ScreenRect, i: int) -> int {
    r3_end_y(r) - R3_STEP_Y * i
}

pub open spec fn r3_col_x(r: ScreenRect, j: int) -> int {
    r3_start_x(r) + R3_STEP_X * j
}

pub open spec fn r3_valid_cell(r: ScreenRect, i: int, j: int) -> bool {
    &&& 0 <= i
    &&& r3_row_y(r, i) > r3_start_y(r)
    &&& 0 <= j
    &&& r3_col_x(r, j) < r3_end_x(r)
}

/// The further cluster sample at horizontal offset `o` matches.
pub open spec fn cluster_sample_at(g: Map<(int, int), Color>, x: int, y: int, o: int) -> bool {
    color_at(g, x + o, y) matches Some(c) && retry_cluster_sig(c)
}

pub open spec fn b2i(b: bool) -> int {
    if b {
        1int
    } else {
        0int
    }
}

/// Matching samples at (x, y): the candidate itself plus the offsets
/// 10, 20, 30 and 40 to its right.
pub open spec fn cluster_count(g: Map<(int, int), Color>, x: int, y: int) -> int {
    1 + b2i(cluster_sample_at(g, x, y, 10)) + b2i(cluster_sample_at(g, x, y, 20)) + b2i(
        cluster_sample_at(g, x, y, 30),
    ) + b2i(cluster_sample_at(g, x, y, 40))
}

pub open spec fn retry_match_at(g: Map<(int, int), Color>, x: int, y: int) -> bool {
    &&& color_at(g, x, y) matches Some(c) && retry_candidate_sig(c)
    &&& cluster_count(g, x, y) >= RETRY_CLUSTER_MIN
}

pub open spec fn r3_hit(g: Map<(int, int), Color>, r: ScreenRect, i: int, j: int) -> bool {
    r3_valid_cell(r, i, j) && retry_match_at(g, r.left + r3_col_x(r, j), r.top + r3_row_y(r, i))
}

pub open spec fn r3_found(g: Map<(int, int), Color>, r: ScreenRect) -> bool {
    exists|i: int, j: int| r3_hit(g, r, i, j)
}

pub open spec fn r3_first_hit(g: Map<(int, int), Color>, r: ScreenRect, i: int, j: int) -> bool {
    r3_hit(g, r, i, j) && forall|i2: int, j2: int|
        scan_earlier(i2, j2, i, j) ==> !(#[trigger] r3_hit(g, r, i2, j2))
}

/// What the retry pass answers: the candidate pixel of the first cluster hit
/// in scan order, in absolute screen coordinates, or nothing anywhere.
pub open spec fn r3_result(g: Map<(int, int), Color>, r: ScreenRect, res: Option<(i32, i32)>) -> bool {
    &&& res matches Some(pt) ==> exists|i: int, j: int|
        #[trigger] r3_first_hit(g, r, i, j) && pt.0 == r.left + r3_col_x(r, j) && pt.1 == r.top
            + r3_row_y(r, i)
    &&& res is None ==> !r3_found(g, r)
}

/// Count the matching cluster samples around a candidate at absolute (sx, sy).
fn cluster_count_at(grid: &PixelGrid, sx: i32, sy: i32) -> (n: u32)
    requires
        -3 * crate::rect::COORD_LIMIT <= sx <= 3 * crate::rect::COORD_LIMIT,
    ensures
        n == cluster_count(grid@, sx as int, sy as int),
        1 <= n <= 5,
{
    let mut n: u32 = 1;
    match grid.sample(sx + 10, sy) {
        Some(c) => {
            if is_retry_cluster(c) {
                n = n + 1;
            }
        },
        None => {},
    }
    match grid.sample(sx + 20, sy) {
        Some(c) => {
            if is_retry_cluster(c) {
                n = n + 1;
            }
        },
        None => {},
    }
    match grid.sample(sx + 30, sy) {
        Some(c) => {
            if is_retry_cluster(c) {
                n = n + 1;
            }
        },
        None => {},
    }
    match grid.sample(sx + 40, sy) {
        Some(c) => {
            if is_retry_cluster(c) {
                n = n + 1;
            }
        },
        None => {},
    }
    n
}

/// Pass 3, second step: find the first retry candidate confirmed by a cluster.
#[verifier::loop_isolation(false)]
pub fn retry_scan(rect: &ScreenRect, grid: &PixelGrid) -> (res: Option<(i32, i32)>)
    requires
        rect.usable(),
    ensures
        r3_result(grid@, *rect, res),
{
    let ghost g = grid@;
    let ghost r = *rect;
    let w = rect.width_px();
    let h = rect.height_px();
    let start_x = pct_of(w, 55);
    let end_x = pct_of(w, 95);
    let start_y = pct_of(h, 55);
    let end_y = pct_of(h, 95);

    let mut y: i32 = end_y;
    let ghost mut i: int = 0;
    while y > start_y
        invariant
            0 <= i,
            y == r3_row_y(r, i),
            forall|i2: int, j2: int| i2 < i ==> !(#[trigger] r3_hit(g, r, i2, j2)),
        decreases y + R3_STEP_Y - start_y,
    {
        let mut x: i32 = start_x;
        let ghost mut j: int = 0;
        while x < end_x
            invariant
                0 <= j,
                x == r3_col_x(r, j),
                forall|j2: int| j2 < j ==> !(#[trigger] r3_hit(g, r, i, j2)),
            decreases end_x + R3_STEP_X - x,
        {
            let sx = rect.left + x;
            let sy = rect.top + y;
            let mut matched = false;
            match grid.sample(sx, sy) {
                Some(c) => {
                    if is_retry_candidate(c) {
                        let n = cluster_count_at(grid, sx, sy);
                        if n >= RETRY_CLUSTER_MIN {
                            matched = true;
                        }
                    }
                },
                None => {},
            }
            if matched {
                proof {
                    assert(r3_hit(g, r, i, j));
                    assert forall|i2: int, j2: int| scan_earlier(i2, j2, i, j) implies !(
                    #[trigger] r3_hit(g, r, i2, j2)) by {
                        if i2 < i {
                        } else {
                            assert(i2 == i && j2 < j);
                        }
                    }
                    assert(r3_first_hit(g, r, i, j));
                }
                return Some((sx, sy));
            }
            proof {
                assert(!r3_hit(g, r, i, j));
            }
            x = x + R3_STEP_X;
            proof {
                j = j + 1;
            }
        }
        proof {
            assert forall|j2: int| !(#[trigger] r3_hit(g, r, i, j2)) by {
                if j2 >= j {
                    assert(R3_STEP_X * j2 >= R3_STEP_X * j);
                    assert(r3_col_x(r, j2) >= r3_end_x(r));
                }
            }
        }
        y = y - R3_STEP_Y;
        proof {
            i = i + 1;
        }
    }
    proof {
        assert forall|i2: int, j2: int| !(#[trigger] r3_hit(g, r, i2, j2)) by {
            if i2 >= i {
                assert(R3_STEP_Y * i2 >= R3_STEP_Y * i);
                assert(r3_row_y(r, i2) <= r3_start_y(r));
            }
        }
    }
    None
}

} // verus!
