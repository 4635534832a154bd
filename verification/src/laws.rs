use vstd::prelude::*;

use crate::color::{accept_sig, retry_candidate_sig, Color};
use crate::grid::color_at;
use crate::guard::degenerate;
use crate::rect::{pct, ScreenRect};
use crate::scan::{
    accept_match_at, cluster_count, p1_col_x, p1_first_hit, p1_found, p1_hit, p1_row_y, r3_col_x,
    r3_first_hit, r3_found, r3_hit, r3_row_y, retry_match_at, scan_earlier, NEIGHBOR_OFFSET,
};
use crate::state::{
    classify_rel, degenerate_diag_text, detect_rel, invalid_rect_text, wire_rel, UIStateResult,
    UiState, BOTTOM_BAR_PCT,
};

verus! {

/// States compared by content; the diagnostic by its characters.
pub open spec fn ui_state_eq(s1: UiState, s2: UiState) -> bool {
    match (s1, s2) {
        (
            UiState::AcceptAvailable { x: x1, y: y1, bottom: b1 },
            UiState::AcceptAvailable { x: x2, y: y2, bottom: b2 },
        ) => x1 == x2 && y1 == y2 && b1 == b2,
        (UiState::Paused, UiState::Paused) => true,
        (
            UiState::RetryAvailable { x: x1, y: y1 },
            UiState::RetryAvailable { x: x2, y: y2 },
        ) => x1 == x2 && y1 == y2,
        (
            UiState::ReadyToType { x: x1, y: y1 },
            UiState::ReadyToType { x: x2, y: y2 },
        ) => x1 == x2 && y1 == y2,
        (UiState::Unknown { diag: d1 }, UiState::Unknown { diag: d2 }) => d1@ == d2@,
        _ => false,
    }
}

/// Wire results compared by content; strings by their characters.
pub open spec fn wire_eq(w1: UIStateResult, w2: UIStateResult) -> bool {
    &&& w1.has_accept_button == w2.has_accept_button
    &&& w1.has_enter_button == w2.has_enter_button
    &&& w1.has_retry_button == w2.has_retry_button
    &&& w1.is_paused == w2.is_paused
    &&& w1.chat_button_color@ == w2.chat_button_color@
    &&& w1.accept_button_x == w2.accept_button_x
    &&& w1.accept_button_y == w2.accept_button_y
    &&& w1.enter_button_x == w2.enter_button_x
    &&& w1.enter_button_y == w2.enter_button_y
    &&& w1.retry_button_x == w2.retry_button_x
    &&& w1.retry_button_y == w2.retry_button_y
    &&& w1.is_bottom_button == w2.is_bottom_button
    &&& match (w1.error, w2.error) {
        (Some(e1), Some(e2)) => e1@ == e2@,
        (None, None) => true,
        _ => false,
    }
}

/// At most one cell is the first accept hit of a scan.
pub proof fn lemma_p1_first_hit_unique(
    g: Map<(int, int), Color>,
    r: ScreenRect,
    i1: int,
    j1: int,
    i2: int,
    j2: int,
)
    requires
        p1_first_hit(g, r, i1, j1),
        p1_first_hit(g, r, i2, j2),
    ensures
        i1 == i2 && j1 == j2,
{
    if scan_earlier(i1, j1, i2, j2) {
        assert(p1_hit(g, r, i1, j1));
        assert(false);
    } else if scan_earlier(i2, j2, i1, j1) {
        assert(p1_hit(g, r, i2, j2));
        assert(false);
    }
}

/// At most one cell is the first retry hit of a scan.
pub proof fn lemma_r3_first_hit_unique(
    g: Map<(int, int), Color>,
    r: ScreenRect,
    i1: int,
    j1: int,
    i2: int,
    j2: int,
)
    requires
        r3_first_hit(g, r, i1, j1),
        r3_first_hit(g, r, i2, j2),
    ensures
        i1 == i2 && j1 == j2,
{
    if scan_earlier(i1, j1, i2, j2) {
        assert(r3_hit(g, r, i1, j1));
        assert(false);
    } else if scan_earlier(i2, j2, i1, j1) {
        assert(r3_hit(g, r, i2, j2));
        assert(false);
    }
}

/// An unusable rectangle classifies to `Unknown` with the fixed input-error
/// diagnostic, whatever the pixel field holds: no scan contributes anything.
pub proof fn lemma_unusable_rect_unknown(g: Map<(int, int), Color>, r: ScreenRect, s: UiState)
    requires
        !r.usable(),
        classify_rel(g, r, s),
    ensures
        s matches UiState::Unknown { diag } && diag@ == invalid_rect_text(),
{
}

/// With an unusable rectangle the answer does not depend on the pixel field
/// at all: any two classifications agree, over any two fields.
pub proof fn lemma_unusable_rect_ignores_pixels(
    g1: Map<(int, int), Color>,
    g2: Map<(int, int), Color>,
    r: ScreenRect,
    s1: UiState,
    s2: UiState,
)
    requires
        !r.usable(),
        classify_rel(g1, r, s1),
        classify_rel(g2, r, s2),
    ensures
        ui_state_eq(s1, s2),
{
    lemma_unusable_rect_unknown(g1, r, s1);
    lemma_unusable_rect_unknown(g2, r, s2);
}

/// When all available test samples are identical, the classification is
/// `Unknown` with a non-empty diagnostic describing the window position,
/// and no button state is reported.
pub proof fn lemma_degenerate_unknown(g: Map<(int, int), Color>, r: ScreenRect, s: UiState)
    requires
        r.usable(),
        degenerate(g, r),
        classify_rel(g, r, s),
    ensures
        s matches UiState::Unknown { diag } && diag@ == degenerate_diag_text(r),
        s matches UiState::Unknown { diag } && diag@.len() > 0,
{
    reveal_strlit("Pixel sampling unreliable at window position L=");
}

/// The wire form of the reliability guard's answer: every button flag is
/// false and the error field carries a non-empty diagnostic.
pub proof fn lemma_degenerate_wire(g: Map<(int, int), Color>, r: ScreenRect, w: UIStateResult)
    requires
        r.usable(),
        degenerate(g, r),
        detect_rel(g, r, w),
    ensures
        !w.has_accept_button,
        !w.has_enter_button,
        !w.has_retry_button,
        !w.is_paused,
        !w.is_bottom_button,
        w.error matches Some(e) && e@.len() > 0,
{
    let s = choose|s: UiState| #[trigger] classify_rel(g, r, s) && wire_rel(s, w);
    lemma_degenerate_unknown(g, r, s);
}

/// The only error classes of the core: an unusable input rectangle and a
/// degenerate sampling environment. Exactly then a diagnostic is reported.
pub proof fn lemma_error_classes(g: Map<(int, int), Color>, r: ScreenRect, s: UiState)
    requires
        classify_rel(g, r, s),
    ensures
        s is Unknown <==> (!r.usable() || degenerate(g, r)),
{
}

/// Any confirmed accept hit resolves the call to `AcceptAvailable`: one
/// qualifying pixel with a qualifying neighbor on the scan lattice is
/// enough, and nothing later can override it.
pub proof fn lemma_hit_sets_accept(g: Map<(int, int), Color>, r: ScreenRect, s: UiState)
    requires
        r.usable(),
        !degenerate(g, r),
        p1_found(g, r),
        classify_rel(g, r, s),
    ensures
        s is AcceptAvailable,
{
}

/// Priority law: whenever the accept pass has a hit — even if the retry
/// pass would also find a cluster — the classification is `AcceptAvailable`:
/// the first pass precedes and short-circuits the later ones.
pub proof fn lemma_accept_priority(g: Map<(int, int), Color>, r: ScreenRect, s: UiState)
    requires
        r.usable(),
        !degenerate(g, r),
        p1_found(g, r),
        r3_found(g, r),
        classify_rel(g, r, s),
    ensures
        s is AcceptAvailable,
{
}

/// Neighbor confirmation, negative direction: a pixel whose confirming
/// neighbor does not qualify is no accept match, however good its own color.
pub proof fn lemma_unconfirmed_pixel_no_match(g: Map<(int, int), Color>, x: int, y: int)
    requires
        !(color_at(g, x + NEIGHBOR_OFFSET, y) matches Some(n) && accept_sig(n)),
    ensures
        !accept_match_at(g, x, y),
{
}

/// Neighbor confirmation, positive direction: a qualifying pixel whose
/// neighbor also qualifies is an accept match.
pub proof fn lemma_confirmed_pixel_match(g: Map<(int, int), Color>, x: int, y: int)
    requires
        color_at(g, x, y) matches Some(c) && accept_sig(c),
        color_at(g, x + NEIGHBOR_OFFSET, y) matches Some(n) && accept_sig(n),
    ensures
        accept_match_at(g, x, y),
{
}

/// Without any accept hit the classification is never `AcceptAvailable`;
/// in particular a lone qualifying pixel, unconfirmed everywhere, sets no
/// accept flag.
pub proof fn lemma_no_hit_no_accept(g: Map<(int, int), Color>, r: ScreenRect, s: UiState)
    requires
        !p1_found(g, r),
        classify_rel(g, r, s),
    ensures
        !(s is AcceptAvailable),
{
    if s is AcceptAvailable {
        match s {
            UiState::AcceptAvailable { x, y, bottom } => {
                let (i, j) = choose|i: int, j: int|
                    #[trigger] p1_first_hit(g, r, i, j) && x == r.left + p1_col_x(r, j)
                        + crate::state::ACCEPT_CLICK_INSET && y == r.top + p1_row_y(r, i) && bottom
                        == (p1_row_y(r, i) > pct(r.height(), BOTTOM_BAR_PCT as int));
                assert(p1_hit(g, r, i, j));
            },
            _ => {},
        }
    }
}

/// Cluster threshold, negative direction: a retry candidate backed by fewer
/// than three matching samples in total is no retry match.
pub proof fn lemma_cluster_too_small_no_match(g: Map<(int, int), Color>, x: int, y: int)
    requires
        cluster_count(g, x, y) <= 2,
    ensures
        !retry_match_at(g, x, y),
{
}

/// Cluster threshold, positive direction: a qualifying candidate with at
/// least three matching samples in total is a retry match.
pub proof fn lemma_cluster_sufficient_match(g: Map<(int, int), Color>, x: int, y: int)
    requires
        color_at(g, x, y) matches Some(c) && retry_candidate_sig(c),
        cluster_count(g, x, y) >= 3,
    ensures
        retry_match_at(g, x, y),
{
}

/// Bottom-button tagging: the accept result is tagged as a bottom button
/// exactly when its row lies below the bottom-bar height fraction.
pub proof fn lemma_bottom_tag(g: Map<(int, int), Color>, r: ScreenRect, s: UiState)
    requires
        classify_rel(g, r, s),
        s is AcceptAvailable,
    ensures
        s matches UiState::AcceptAvailable { x, y, bottom } ==> bottom == (y - r.top > pct(
            r.height(),
            BOTTOM_BAR_PCT as int,
        )),
{
    match s {
        UiState::AcceptAvailable { x, y, bottom } => {
            let (i, j) = choose|i: int, j: int|
                #[trigger] p1_first_hit(g, r, i, j) && x == r.left + p1_col_x(r, j)
                    + crate::state::ACCEPT_CLICK_INSET && y == r.top + p1_row_y(r, i) && bottom == (
                p1_row_y(r, i) > pct(r.height(), BOTTOM_BAR_PCT as int));
            assert(y - r.top == p1_row_y(r, i));
        },
        _ => {},
    }
}

/// Exactly one state can satisfy the classification relation for a given
/// rectangle and pixel field: two answers agree in every observable part.
pub proof fn lemma_classify_deterministic(
    g: Map<(int, int), Color>,
    r: ScreenRect,
    s1: UiState,
    s2: UiState,
)
    requires
        classify_rel(g, r, s1),
        classify_rel(g, r, s2),
    ensures
        ui_state_eq(s1, s2),
{
    match (s1, s2) {
        (
            UiState::AcceptAvailable { x: x1, y: y1, bottom: b1 },
            UiState::AcceptAvailable { x: x2, y: y2, bottom: b2 },
        ) => {
            let (i1, j1) = choose|i: int, j: int|
                #[trigger] p1_first_hit(g, r, i, j) && x1 == r.left + p1_col_x(r, j)
                    + crate::state::ACCEPT_CLICK_INSET && y1 == r.top + p1_row_y(r, i) && b1 == (
                p1_row_y(r, i) > pct(r.height(), BOTTOM_BAR_PCT as int));
            let (i2, j2) = choose|i: int, j: int|
                #[trigger] p1_first_hit(g, r, i, j) && x2 == r.left + p1_col_x(r, j)
                    + crate::state::ACCEPT_CLICK_INSET && y2 == r.top + p1_row_y(r, i) && b2 == (
                p1_row_y(r, i) > pct(r.height(), BOTTOM_BAR_PCT as int));
            lemma_p1_first_hit_unique(g, r, i1, j1, i2, j2);
        },
        (
            UiState::RetryAvailable { x: x1, y: y1 },
            UiState::RetryAvailable { x: x2, y: y2 },
        ) => {
            let (i1, j1) = choose|i: int, j: int|
                #[trigger] r3_first_hit(g, r, i, j) && x1 == r.left + r3_col_x(r, j)
                    + crate::state::RETRY_CLICK_INSET && y1 == r.top + r3_row_y(r, i);
            let (i2, j2) = choose|i: int, j: int|
                #[trigger] r3_first_hit(g, r, i, j) && x2 == r.left + r3_col_x(r, j)
                    + crate::state::RETRY_CLICK_INSET && y2 == r.top + r3_row_y(r, i);
            lemma_r3_first_hit_unique(g, r, i1, j1, i2, j2);
        },
        _ => {
            lemma_state_excludes(g, r, s1, s2);
        },
    }
}

/// Helper: two satisfying states always carry the same variant, and the
/// variants without coordinates agree outright.
proof fn lemma_state_excludes(g: Map<(int, int), Color>, r: ScreenRect, s1: UiState, s2: UiState)
    requires
        classify_rel(g, r, s1),
        classify_rel(g, r, s2),
        !(s1 is AcceptAvailable && s2 is AcceptAvailable),
        !(s1 is RetryAvailable && s2 is RetryAvailable),
    ensures
        ui_state_eq(s1, s2),
{
    if s1 is AcceptAvailable {
        lemma_found_of_accept(g, r, s1);
    }
    if s2 is AcceptAvailable {
        lemma_found_of_accept(g, r, s2);
    }
    if s1 is RetryAvailable {
        lemma_found_of_retry(g, r, s1);
    }
    if s2 is RetryAvailable {
        lemma_found_of_retry(g, r, s2);
    }
}

/// An `AcceptAvailable` answer implies the accept pass had a hit.
proof fn lemma_found_of_accept(g: Map<(int, int), Color>, r: ScreenRect, s: UiState)
    requires
        classify_rel(g, r, s),
        s is AcceptAvailable,
    ensures
        p1_found(g, r),
{
    match s {
        UiState::AcceptAvailable { x, y, bottom } => {
            let (i, j) = choose|i: int, j: int|
                #[trigger] p1_first_hit(g, r, i, j) && x == r.left + p1_col_x(r, j)
                    + crate::state::ACCEPT_CLICK_INSET && y == r.top + p1_row_y(r, i) && bottom == (
                p1_row_y(r, i) > pct(r.height(), BOTTOM_BAR_PCT as int));
            assert(p1_hit(g, r, i, j));
        },
        _ => {},
    }
}

/// A `RetryAvailable` answer implies the retry pass had a hit.
proof fn lemma_found_of_retry(g: Map<(int, int), Color>, r: ScreenRect, s: UiState)
    requires
        classify_rel(g, r, s),
        s is RetryAvailable,
    ensures
        r3_found(g, r),
{
    match s {
        UiState::RetryAvailable { x, y } => {
            let (i, j) = choose|i: int, j: int|
                #[trigger] r3_first_hit(g, r, i, j) && x == r.left + r3_col_x(r, j)
                    + crate::state::RETRY_CLICK_INSET && y == r.top + r3_row_y(r, i);
            assert(r3_hit(g, r, i, j));
        },
        _ => {},
    }
}

/// Exactly one primary state per call: at most one of the wire booleans is
/// set; one of them is set exactly when no error is reported; and the
/// coordinate fields of the states not resolved stay zero.
pub proof fn lemma_one_primary_state(g: Map<(int, int), Color>, r: ScreenRect, w: UIStateResult)
    requires
        detect_rel(g, r, w),
    ensures
        crate::scan::b2i(w.has_accept_button) + crate::scan::b2i(w.has_enter_button)
            + crate::scan::b2i(w.has_retry_button) + crate::scan::b2i(w.is_paused) == (
        if w.error is Some {
            0int
        } else {
            1int
        }),
        !w.has_accept_button ==> w.accept_button_x == 0 && w.accept_button_y == 0
            && !w.is_bottom_button,
        !w.has_enter_button ==> w.enter_button_x == 0 && w.enter_button_y == 0,
        !w.has_retry_button ==> w.retry_button_x == 0 && w.retry_button_y == 0,
{
    let s = choose|s: UiState| #[trigger] classify_rel(g, r, s) && wire_rel(s, w);
}

/// Idempotence at the wire level: with the same rectangle and the same
/// pixel field, any two detection results agree in every field.
pub proof fn lemma_detect_deterministic(
    g: Map<(int, int), Color>,
    r: ScreenRect,
    w1: UIStateResult,
    w2: UIStateResult,
)
    requires
        detect_rel(g, r, w1),
        detect_rel(g, r, w2),
    ensures
        wire_eq(w1, w2),
{
    let s1 = choose|s: UiState| #[trigger] classify_rel(g, r, s) && wire_rel(s, w1);
    let s2 = choose|s: UiState| #[trigger] classify_rel(g, r, s) && wire_rel(s, w2);
    lemma_classify_deterministic(g, r, s1, s2);
}

} // verus!
