use vstd::prelude::*;

use crate::guard::{test_point_at, test_px, test_py};
use crate::rect::{pct_of, ScreenRect};
use crate::scan::{
    p1_col_x, p1_row_y, p1_valid_cell, p2_col_x, p2_row_y, p2_valid_cell, p3_x_off, p3_y_off,
    p3_x_off_at, p3_y_off_at, r3_col_x, r3_row_y, r3_valid_cell, NEIGHBOR_OFFSET, P1_STEP_X,
    P1_STEP_Y, P2_NEIGHBOR_OFFSET, P2_STEP, R3_STEP_X, R3_STEP_Y,
};

verus! {

broadcast use vstd::seq_lib::lemma_seq_contains_after_push;

pub open spec fn guard_pt(r: ScreenRect, k: int) -> (i32, i32) {
    (test_px(r, k) as i32, test_py(r, k) as i32)
}

pub open spec fn p1_cell_pt(r: ScreenRect, i: int, j: int) -> (i32, i32) {
    ((r.left + p1_col_x(r, j)) as i32, (r.top + p1_row_y(r, i)) as i32)
}

pub open spec fn p1_nbr_pt(r: ScreenRect, i: int, j: int) -> (i32, i32) {
    ((r.left + p1_col_x(r, j) + NEIGHBOR_OFFSET) as i32, (r.top + p1_row_y(r, i)) as i32)
}

pub open spec fn p2_cell_pt(r: ScreenRect, i: int, j: int) -> (i32, i32) {
    ((r.left + p2_col_x(r, j)) as i32, (r.top + p2_row_y(r, i)) as i32)
}

pub open spec fn p2_nbr_pt(r: ScreenRect, i: int, j: int) -> (i32, i32) {
    ((r.left + p2_col_x(r, j) + P2_NEIGHBOR_OFFSET) as i32, (r.top + p2_row_y(r, i)) as i32)
}

pub open spec fn corner_pt(r: ScreenRect, k: int, l: int) -> (i32, i32) {
    ((r.right - p3_x_off(k)) as i32, (r.bottom - p3_y_off(l)) as i32)
}

pub open spec fn r3_cell_pt(r: ScreenRect, i: int, j: int) -> (i32, i32) {
    ((r.left + r3_col_x(r, j)) as i32, (r.top + r3_row_y(r, i)) as i32)
}

pub open spec fn r3_off_pt(r: ScreenRect, i: int, j: int, o: int) -> (i32, i32) {
    ((r.left + r3_col_x(r, j) + o) as i32, (r.top + r3_row_y(r, i)) as i32)
}

/// Every screen coordinate any pass of one classification call may sample.
/// A caller that reads a live screen fills a `PixelGrid` at these points
/// (leaving unavailable reads out) and hands it to `detect_ui_state`; the
/// classifier then sees at each coordinate it examines exactly what the
/// live read gave.
#[verifier::loop_isolation(false)]
pub fn required_samples(rect: &ScreenRect) -> (pts: Vec<(i32, i32)>)
    requires
        rect.usable(),
    ensures
        forall|k: int| 0 <= k < 10 ==> pts@.contains(#[trigger] guard_pt(*rect, k)),
        forall|i: int, j: int|
            #[trigger] p1_valid_cell(*rect, i, j) ==> pts@.contains(p1_cell_pt(*rect, i, j))
                && pts@.contains(p1_nbr_pt(*rect, i, j)),
        forall|i: int, j: int|
            #[trigger] p2_valid_cell(*rect, i, j) ==> pts@.contains(p2_cell_pt(*rect, i, j))
                && pts@.contains(p2_nbr_pt(*rect, i, j)),
        forall|k: int, l: int|
            0 <= k < 7 && 0 <= l < 6 ==> pts@.contains(#[trigger] corner_pt(*rect, k, l)),
        forall|i: int, j: int|
            #[trigger] r3_valid_cell(*rect, i, j) ==> pts@.contains(r3_cell_pt(*rect, i, j))
                && pts@.contains(r3_off_pt(*rect, i, j, 10)) && pts@.contains(
                r3_off_pt(*rect, i, j, 20),
            ) && pts@.contains(r3_off_pt(*rect, i, j, 30)) && pts@.contains(
                r3_off_pt(*rect, i, j, 40),
            ),
{
    let ghost r = *rect;
    let w = rect.width_px();
    let h = rect.height_px();
    let mut pts: Vec<(i32, i32)> = Vec::new();

    // Reliability test points.
    let mut k: usize = 0;
    while k < 10
        invariant
            k <= 10,
            forall|k2: int| 0 <= k2 < k ==> pts@.contains(#[trigger] guard_pt(r, k2)),
        decreases 10 - k,
    {
        let pt = test_point_at(rect, k);
        pts.push(pt);
        proof {
            assert(pts@.contains(guard_pt(r, k as int)));
        }
        k = k + 1;
    }

    // Accept-pass cells and their confirming neighbors.
    let start_x = pct_of(w, 50);
    let end_x = pct_of(w, 98);
    let start_y = pct_of(h, 15);
    let end_y = pct_of(h, 98);
    let mut y: i32 = end_y;
    let ghost mut i: int = 0;
    while y > start_y
        invariant
            0 <= i,
            y == p1_row_y(r, i),
            forall|k2: int| 0 <= k2 < 10 ==> pts@.contains(#[trigger] guard_pt(r, k2)),
            forall|i2: int, j2: int|
                i2 < i && #[trigger] p1_valid_cell(r, i2, j2) ==> pts@.contains(
                    p1_cell_pt(r, i2, j2),
                ) && pts@.contains(p1_nbr_pt(r, i2, j2)),
        decreases y + P1_STEP_Y - start_y,
    {
        let mut x: i32 = start_x;
        let ghost mut j: int = 0;
        while x < end_x
            invariant
                0 <= j,
                x == p1_col_x(r, j),
                forall|k2: int| 0 <= k2 < 10 ==> pts@.contains(#[trigger] guard_pt(r, k2)),
                forall|i2: int, j2: int|
                    i2 < i && #[trigger] p1_valid_cell(r, i2, j2) ==> pts@.contains(
                        p1_cell_pt(r, i2, j2),
                    ) && pts@.contains(p1_nbr_pt(r, i2, j2)),
                forall|j2: int|
                    j2 < j && #[trigger] p1_valid_cell(r, i, j2) ==> pts@.contains(
                        p1_cell_pt(r, i, j2),
                    ) && pts@.contains(p1_nbr_pt(r, i, j2)),
            decreases end_x + P1_STEP_X - x,
        {
            let sx = rect.left + x;
            let sy = rect.top + y;
            pts.push((sx, sy));
            pts.push((sx + NEIGHBOR_OFFSET, sy));
            proof {
                assert(pts@.contains(p1_cell_pt(r, i, j)));
                assert(pts@.contains(p1_nbr_pt(r, i, j)));
            }
            x = x + P1_STEP_X;
            proof {
                j = j + 1;
            }
        }
        proof {
            assert forall|j2: int| #[trigger] p1_valid_cell(r, i, j2) implies pts@.contains(
                p1_cell_pt(r, i, j2),
            ) && pts@.contains(p1_nbr_pt(r, i, j2)) by {
                if j2 >= j {
                    assert(P1_STEP_X * j2 >= P1_STEP_X * j);
                }
            }
        }
        y = y - P1_STEP_Y;
        proof {
            i = i + 1;
        }
    }
    proof {
        assert forall|i2: int, j2: int| #[trigger] p1_valid_cell(r, i2, j2) implies pts@.contains(
            p1_cell_pt(r, i2, j2),
        ) && pts@.contains(p1_nbr_pt(r, i2, j2)) by {
            if i2 >= i {
                assert(P1_STEP_Y * i2 >= P1_STEP_Y * i);
            }
        }
    }

    // Pause-pass cells and their confirming neighbors.
    let p2sx = pct_of(w, 80);
    let p2ex = pct_of(w, 97);
    let p2sy = pct_of(h, 82);
    let p2ey = pct_of(h, 97);
    let mut y2: i32 = p2sy;
    let ghost mut i2m: int = 0;
    while y2 < p2ey
        invariant
            0 <= i2m,
            y2 == p2_row_y(r, i2m),
            forall|k2: int| 0 <= k2 < 10 ==> pts@.contains(#[trigger] guard_pt(r, k2)),
            forall|i2: int, j2: int|
                #[trigger] p1_valid_cell(r, i2, j2) ==> pts@.contains(p1_cell_pt(r, i2, j2))
                    && pts@.contains(p1_nbr_pt(r, i2, j2)),
            forall|i2: int, j2: int|
                i2 < i2m && #[trigger] p2_valid_cell(r, i2, j2) ==> pts@.contains(
                    p2_cell_pt(r, i2, j2),
                ) && pts@.contains(p2_nbr_pt(r, i2, j2)),
        decreases p2ey + P2_STEP - y2,
    {
        let mut x2: i32 = p2sx;
        let ghost mut j2m: int = 0;
        while x2 < p2ex
            invariant
                0 <= j2m,
                x2 == p2_col_x(r, j2m),
                forall|k2: int| 0 <= k2 < 10 ==> pts@.contains(#[trigger] guard_pt(r, k2)),
                forall|i2: int, j2: int|
                    #[trigger] p1_valid_cell(r, i2, j2) ==> pts@.contains(p1_cell_pt(r, i2, j2))
                        && pts@.contains(p1_nbr_pt(r, i2, j2)),
                forall|i2: int, j2: int|
                    i2 < i2m && #[trigger] p2_valid_cell(r, i2, j2) ==> pts@.contains(
                        p2_cell_pt(r, i2, j2),
                    ) && pts@.contains(p2_nbr_pt(r, i2, j2)),
                forall|j2: int|
                    j2 < j2m && #[trigger] p2_valid_cell(r, i2m, j2) ==> pts@.contains(
                        p2_cell_pt(r, i2m, j2),
                    ) && pts@.contains(p2_nbr_pt(r, i2m, j2)),
            decreases p2ex + P2_STEP - x2,
        {
            let sx = rect.left + x2;
            let sy = rect.top + y2;
            pts.push((sx, sy));
            pts.push((sx + P2_NEIGHBOR_OFFSET, sy));
            proof {
                assert(pts@.contains(p2_cell_pt(r, i2m, j2m)));
                assert(pts@.contains(p2_nbr_pt(r, i2m, j2m)));
            }
            x2 = x2 + P2_STEP;
            proof {
                j2m = j2m + 1;
            }
        }
        proof {
            assert forall|j2: int| #[trigger] p2_valid_cell(r, i2m, j2) implies pts@.contains(
                p2_cell_pt(r, i2m, j2),
            ) && pts@.contains(p2_nbr_pt(r, i2m, j2)) by {
                if j2 >= j2m {
                    assert(P2_STEP * j2 >= P2_STEP * j2m);
                }
            }
        }
        y2 = y2 + P2_STEP;
        proof {
            i2m = i2m + 1;
        }
    }
    proof {
        assert forall|i2: int, j2: int| #[trigger] p2_valid_cell(r, i2, j2) implies pts@.contains(
            p2_cell_pt(r, i2, j2),
        ) && pts@.contains(p2_nbr_pt(r, i2, j2)) by {
            if i2 >= i2m {
                assert(P2_STEP * i2 >= P2_STEP * i2m);
            }
        }
    }

    // Corner probes.
    let mut ck: usize = 0;
    while ck < 7
        invariant
            ck <= 7,
            forall|k2: int| 0 <= k2 < 10 ==> pts@.contains(#[trigger] guard_pt(r, k2)),
            forall|i2: int, j2: int|
                #[trigger] p1_valid_cell(r, i2, j2) ==> pts@.contains(p1_cell_pt(r, i2, j2))
                    && pts@.contains(p1_nbr_pt(r, i2, j2)),
            forall|i2: int, j2: int|
                #[trigger] p2_valid_cell(r, i2, j2) ==> pts@.contains(p2_cell_pt(r, i2, j2))
                    && pts@.contains(p2_nbr_pt(r, i2, j2)),
            forall|k2: int, l2: int|
                0 <= k2 < ck && 0 <= l2 < 6 ==> pts@.contains(#[trigger] corner_pt(r, k2, l2)),
        decreases 7 - ck,
    {
        let xo = p3_x_off_at(ck);
        let mut cl: usize = 0;
        while cl < 6
            invariant
                cl <= 6,
                forall|k2: int| 0 <= k2 < 10 ==> pts@.contains(#[trigger] guard_pt(r, k2)),
                forall|i2: int, j2: int|
                    #[trigger] p1_valid_cell(r, i2, j2) ==> pts@.contains(p1_cell_pt(r, i2, j2))
                        && pts@.contains(p1_nbr_pt(r, i2, j2)),
                forall|i2: int, j2: int|
                    #[trigger] p2_valid_cell(r, i2, j2) ==> pts@.contains(p2_cell_pt(r, i2, j2))
                        && pts@.contains(p2_nbr_pt(r, i2, j2)),
                forall|k2: int, l2: int|
                    0 <= k2 < ck && 0 <= l2 < 6 ==> pts@.contains(#[trigger] corner_pt(r, k2, l2)),
                forall|l2: int|
                    0 <= l2 < cl ==> pts@.contains(#[trigger] corner_pt(r, ck as int, l2)),
            decreases 6 - cl,
        {
            let yo = p3_y_off_at(cl);
            pts.push((rect.right - xo, rect.bottom - yo));
            proof {
                assert(pts@.contains(corner_pt(r, ck as int, cl as int)));
            }
            cl = cl + 1;
        }
        ck = ck + 1;
    }

    // Retry-pass cells and their cluster offsets.
    let r3sx = pct_of(w, 55);
    let r3ex = pct_of(w, 95);
    let r3sy = pct_of(h, 55);
    let r3ey = pct_of(h, 95);
    let mut y3: i32 = r3ey;
    let ghost mut i3m: int = 0;
    while y3 > r3sy
        invariant
            0 <= i3m,
            y3 == r3_row_y(r, i3m),
            forall|k2: int| 0 <= k2 < 10 ==> pts@.contains(#[trigger] guard_pt(r, k2)),
            forall|i2: int, j2: int|
                #[trigger] p1_valid_cell(r, i2, j2) ==> pts@.contains(p1_cell_pt(r, i2, j2))
                    && pts@.contains(p1_nbr_pt(r, i2, j2)),
            forall|i2: int, j2: int|
                #[trigger] p2_valid_cell(r, i2, j2) ==> pts@.contains(p2_cell_pt(r, i2, j2))
                    && pts@.contains(p2_nbr_pt(r, i2, j2)),
            forall|k2: int, l2: int|
                0 <= k2 < 7 && 0 <= l2 < 6 ==> pts@.contains(#[trigger] corner_pt(r, k2, l2)),
            forall|i2: int, j2: int|
                i2 < i3m && #[trigger] r3_valid_cell(r, i2, j2) ==> pts@.contains(
                    r3_cell_pt(r, i2, j2),
                ) && pts@.contains(r3_off_pt(r, i2, j2, 10)) && pts@.contains(
                    r3_off_pt(r, i2, j2, 20),
                ) && pts@.contains(r3_off_pt(r, i2, j2, 30)) && pts@.contains(
                    r3_off_pt(r, i2, j2, 40),
                ),
        decreases y3 + R3_STEP_Y - r3sy,
    {
        let mut x3: i32 = r3sx;
        let ghost mut j3m: int = 0;
        while x3 < r3ex
            invariant
                0 <= j3m,
                x3 == r3_col_x(r, j3m),
                forall|k2: int| 0 <= k2 < 10 ==> pts@.contains(#[trigger] guard_pt(r, k2)),
                forall|i2: int, j2: int|
                    #[trigger] p1_valid_cell(r, i2, j2) ==> pts@.contains(p1_cell_pt(r, i2, j2))
                        && pts@.contains(p1_nbr_pt(r, i2, j2)),
                forall|i2: int, j2: int|
                    #[trigger] p2_valid_cell(r, i2, j2) ==> pts@.contains(p2_cell_pt(r, i2, j2))
                        && pts@.contains(p2_nbr_pt(r, i2, j2)),
                forall|k2: int, l2: int|
                    0 <= k2 < 7 && 0 <= l2 < 6 ==> pts@.contains(#[trigger] corner_pt(r, k2, l2)),
                forall|i2: int, j2: int|
                    i2 < i3m && #[trigger] r3_valid_cell(r, i2, j2) ==> pts@.contains(
                        r3_cell_pt(r, i2, j2),
                    ) && pts@.contains(r3_off_pt(r, i2, j2, 10)) && pts@.contains(
                        r3_off_pt(r, i2, j2, 20),
                    ) && pts@.contains(r3_off_pt(r, i2, j2, 30)) && pts@.contains(
                        r3_off_pt(r, i2, j2, 40),
                    ),
                forall|j2: int|
                    j2 < j3m && #[trigger] r3_valid_cell(r, i3m, j2) ==> pts@.contains(
                        r3_cell_pt(r, i3m, j2),
                    ) && pts@.contains(r3_off_pt(r, i3m, j2, 10)) && pts@.contains(
                        r3_off_pt(r, i3m, j2, 20),
                    ) && pts@.contains(r3_off_pt(r, i3m, j2, 30)) && pts@.contains(
                        r3_off_pt(r, i3m, j2, 40),
                    ),
            decreases r3ex + R3_STEP_X - x3,
        {
            let sx = rect.left + x3;
            let sy = rect.top + y3;
            pts.push((sx, sy));
            pts.push((sx + 10, sy));
            pts.push((sx + 20, sy));
            pts.push((sx + 30, sy));
            pts.push((sx + 40, sy));
            proof {
                assert(pts@.contains(r3_cell_pt(r, i3m, j3m)));
                assert(pts@.contains(r3_off_pt(r, i3m, j3m, 10)));
                assert(pts@.contains(r3_off_pt(r, i3m, j3m, 20)));
                assert(pts@.contains(r3_off_pt(r, i3m, j3m, 30)));
                assert(pts@.contains(r3_off_pt(r, i3m, j3m, 40)));
            }
            x3 = x3 + R3_STEP_X;
            proof {
                j3m = j3m + 1;
            }
        }
        proof {
            assert forall|j2: int| #[trigger] r3_valid_cell(r, i3m, j2) implies pts@.contains(
                r3_cell_pt(r, i3m, j2),
            ) && pts@.contains(r3_off_pt(r, i3m, j2, 10)) && pts@.contains(
                r3_off_pt(r, i3m, j2, 20),
            ) && pts@.contains(r3_off_pt(r, i3m, j2, 30)) && pts@.contains(
                r3_off_pt(r, i3m, j2, 40),
            ) by {
                if j2 >= j3m {
                    assert(R3_STEP_X * j2 >= R3_STEP_X * j3m);
                }
            }
        }
        y3 = y3 - R3_STEP_Y;
        proof {
            i3m = i3m + 1;
        }
    }
    proof {
        assert forall|i2: int, j2: int| #[trigger] r3_valid_cell(r, i2, j2) implies pts@.contains(
            r3_cell_pt(r, i2, j2),
        ) && pts@.contains(r3_off_pt(r, i2, j2, 10)) && pts@.contains(r3_off_pt(r, i2, j2, 20))
            && pts@.contains(r3_off_pt(r, i2, j2, 30)) && pts@.contains(
            r3_off_pt(r, i2, j2, 40),
        ) by {
            if i2 >= i3m {
                assert(R3_STEP_Y * i2 >= R3_STEP_Y * i3m);
            }
        }
    }
    pts
}

} // verus!
