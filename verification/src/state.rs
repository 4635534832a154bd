use vstd::prelude::*;
use vstd::string::StringExecFns;

use crate::color::Color;
use crate::grid::PixelGrid;
use crate::guard::{degenerate, reliability_degenerate};
use crate::numfmt::{dec_str, i32_dec_string};
use crate::rect::{pct, pct_of, ScreenRect};
use crate::scan::{
    corner_red_found, p1_col_x, p1_first_hit, p1_found, p1_row_y, p2_found, pass1_scan, pass2_scan,
    pass3_corner_red, r3_col_x, r3_first_hit, r3_found, r3_row_y, retry_scan,
};

verus! {

/// Horizontal inset from a detected accept pixel to the click point.
pub const ACCEPT_CLICK_INSET: i32 = 15;

/// Horizontal inset from a detected retry pixel to the click point.
pub const RETRY_CLICK_INSET: i32 = 20;

/// Rows below this height fraction (in hundredths) belong to the bottom bar.
pub const BOTTOM_BAR_PCT: i32 = 65;

/// Offsets from the bottom-right corner to the guessed input affordance.
pub const ENTER_X_INSET: i32 = 60;

pub const ENTER_Y_INSET: i32 = 50;

/// The mutually exclusive primary state one classification call resolves to.
#[derive(Debug, Clone)]
pub enum UiState {
    /// An accept/run button is showing; click coordinates point inside it.
    AcceptAvailable { x: i32, y: i32, bottom: bool },
    /// A pause/stop indicator is showing; informational, nothing to click.
    Paused,
    /// A retry button is showing; click coordinates point inside it.
    RetryAvailable { x: i32, y: i32 },
    /// Nothing else was detected; coordinates guess the input field near the
    /// bottom-right corner.
    ReadyToType { x: i32, y: i32 },
    /// The input was unusable or the sampling environment degenerate.
    Unknown { diag: String },
}

/// Diagnostic for a rectangle with non-positive or out-of-range extent.
pub open spec fn invalid_rect_text() -> Seq<char> {
    "Invalid window size"@
}

/// Diagnostic for a degenerate pixel field, describing the window position.
pub open spec fn degenerate_diag_text(r: ScreenRect) -> Seq<char> {
    "Pixel sampling unreliable at window position L="@ + dec_str(r.left as int) + " T="@ + dec_str(
        r.top as int,
    )
}

fn degenerate_diag(rect: &ScreenRect) -> (s: String)
    ensures
        s@ == degenerate_diag_text(*rect),
{
    let mut out: String = "Pixel sampling unreliable at window position L=".to_owned();
    let left = i32_dec_string(rect.left);
    out.append(left.as_str());
    out.append(" T=");
    let top = i32_dec_string(rect.top);
    out.append(top.as_str());
    proof {
        assert(out@ =~= degenerate_diag_text(*rect));
    }
    out
}

/// Everything one classification call states about its result, given the
/// pixel field `g` and the window rectangle `r`. Exactly one state can
/// satisfy it, and each state pins its coordinates.
pub open spec fn classify_rel(g: Map<(int, int), Color>, r: ScreenRect, s: UiState) -> bool {
    match s {
        UiState::Unknown { diag } => (!r.usable() && diag@ == invalid_rect_text()) || (r.usable()
            && degenerate(g, r) && diag@ == degenerate_diag_text(r)),
        UiState::AcceptAvailable { x, y, bottom } => {
            &&& r.usable()
            &&& !degenerate(g, r)
            &&& exists|i: int, j: int|
                #[trigger] p1_first_hit(g, r, i, j) && x == r.left + p1_col_x(r, j)
                    + ACCEPT_CLICK_INSET && y == r.top + p1_row_y(r, i) && bottom == (p1_row_y(r, i)
                    > pct(r.height(), BOTTOM_BAR_PCT as int))
        },
        UiState::Paused => {
            &&& r.usable()
            &&& !degenerate(g, r)
            &&& !p1_found(g, r)
            &&& p2_found(g, r) || corner_red_found(g, r)
        },
        UiState::RetryAvailable { x, y } => {
            &&& r.usable()
            &&& !degenerate(g, r)
            &&& !p1_found(g, r)
            &&& !p2_found(g, r)
            &&& !corner_red_found(g, r)
            &&& exists|i: int, j: int|
                #[trigger] r3_first_hit(g, r, i, j) && x == r.left + r3_col_x(r, j)
                    + RETRY_CLICK_INSET && y == r.top + r3_row_y(r, i)
        },
        UiState::ReadyToType { x, y } => {
            &&& r.usable()
            &&& !degenerate(g, r)
            &&& !p1_found(g, r)
            &&& !p2_found(g, r)
            &&& !corner_red_found(g, r)
            &&& !r3_found(g, r)
            &&& x == r.right - ENTER_X_INSET
            &&& y == r.bottom - ENTER_Y_INSET
        },
    }
}

/// Resolve the primary UI state of a window: reliability guard first, then
/// the three scan passes in strict priority order, each short-circuiting
/// the ones after it.
pub fn classify(rect: &ScreenRect, grid: &PixelGrid) -> (s: UiState)
    ensures
        classify_rel(grid@, *rect, s),
{
    let ghost g = grid@;
    let ghost r = *rect;
    if !rect.is_usable() {
        return UiState::Unknown { diag: "Invalid window size".to_owned() };
    }
    if reliability_degenerate(rect, grid) {
        return UiState::Unknown { diag: degenerate_diag(rect) };
    }
    match pass1_scan(rect, grid) {
        Some(pt) => {
            let ghost (wi, wj) = choose|i: int, j: int|
                #[trigger] p1_first_hit(g, r, i, j) && pt.0 == r.left + p1_col_x(r, j) && pt.1
                    == r.top + p1_row_y(r, i);
            let h = rect.height_px();
            let threshold = pct_of(h, BOTTOM_BAR_PCT);
            proof {
                assert(pt.1 == r.top + p1_row_y(r, wi));
            }
            let bottom = pt.1 - rect.top > threshold;
            return UiState::AcceptAvailable {
                x: pt.0 + ACCEPT_CLICK_INSET,
                y: pt.1,
                bottom,
            };
        },
        None => {},
    }
    if pass2_scan(rect, grid) {
        return UiState::Paused;
    }
    if pass3_corner_red(rect, grid) {
        return UiState::Paused;
    }
    match retry_scan(rect, grid) {
        Some(pt) => {
            return UiState::RetryAvailable { x: pt.0 + RETRY_CLICK_INSET, y: pt.1 };
        },
        None => {},
    }
    UiState::ReadyToType { x: rect.right - ENTER_X_INSET, y: rect.bottom - ENTER_Y_INSET }
}

/// The wire-shaped result handed to the front end: one boolean per state,
/// coordinates only for the state that carries them.
#[derive(Debug, Clone, PartialEq)]
pub struct UIStateResult {
    pub has_accept_button: bool,
    pub has_enter_button: bool,
    pub has_retry_button: bool,
    pub is_paused: bool,
    pub chat_button_color: String,
    pub accept_button_x: i32,
    pub accept_button_y: i32,
    pub enter_button_x: i32,
    pub enter_button_y: i32,
    pub retry_button_x: i32,
    pub retry_button_y: i32,
    pub is_bottom_button: bool,
    pub error: Option<String>,
}

/// How a primary state is laid out on the wire fields: exactly the booleans
/// of the resolved state are set, unrelated coordinates stay zero, and the
/// color class accompanies the states that carry one.
pub open spec fn wire_rel(s: UiState, w: UIStateResult) -> bool {
    match s {
        UiState::AcceptAvailable { x, y, bottom } => {
            &&& w.has_accept_button == true
            &&& w.has_enter_button == false
            &&& w.has_retry_button == false
            &&& w.is_paused == false
            &&& w.chat_button_color@ == "none"@
            &&& w.accept_button_x == x
            &&& w.accept_button_y == y
            &&& w.enter_button_x == 0 && w.enter_button_y == 0
            &&& w.retry_button_x == 0 && w.retry_button_y == 0
            &&& w.is_bottom_button == bottom
            &&& w.error is None
        },
        UiState::Paused => {
            &&& w.has_accept_button == false
            &&& w.has_enter_button == false
            &&& w.has_retry_button == false
            &&& w.is_paused == true
            &&& w.chat_button_color@ == "red"@
            &&& w.accept_button_x == 0 && w.accept_button_y == 0
            &&& w.enter_button_x == 0 && w.enter_button_y == 0
            &&& w.retry_button_x == 0 && w.retry_button_y == 0
            &&& w.is_bottom_button == false
            &&& w.error is None
        },
        UiState::RetryAvailable { x, y } => {
            &&& w.has_accept_button == false
            &&& w.has_enter_button == false
            &&& w.has_retry_button == true
            &&& w.is_paused == false
            &&& w.chat_button_color@ == "gray"@
            &&& w.accept_button_x == 0 && w.accept_button_y == 0
            &&& w.enter_button_x == 0 && w.enter_button_y == 0
            &&& w.retry_button_x == x
            &&& w.retry_button_y == y
            &&& w.is_bottom_button == false
            &&& w.error is None
        },
        UiState::ReadyToType { x, y } => {
            &&& w.has_accept_button == false
            &&& w.has_enter_button == true
            &&& w.has_retry_button == false
            &&& w.is_paused == false
            &&& w.chat_button_color@ == "gray"@
            &&& w.accept_button_x == 0 && w.accept_button_y == 0
            &&& w.enter_button_x == x
            &&& w.enter_button_y == y
            &&& w.retry_button_x == 0 && w.retry_button_y == 0
            &&& w.is_bottom_button == false
            &&& w.error is None
        },
        UiState::Unknown { diag } => {
            &&& w.has_accept_button == false
            &&& w.has_enter_button == false
            &&& w.has_retry_button == false
            &&& w.is_paused == false
            &&& w.chat_button_color@ == "none"@
            &&& w.accept_button_x == 0 && w.accept_button_y == 0
            &&& w.enter_button_x == 0 && w.enter_button_y == 0
            &&& w.retry_button_x == 0 && w.retry_button_y == 0
            &&& w.is_bottom_button == false
            &&& w.error matches Some(e) && e@ == diag@
        },
    }
}

/// Derive the wire fields from the resolved state.
pub fn to_wire(s: UiState) -> (w: UIStateResult)
    ensures
        wire_rel(s, w),
{
    let mut w = UIStateResult {
        has_accept_button: false,
        has_enter_button: false,
        has_retry_button: false,
        is_paused: false,
        chat_button_color: "none".to_owned(),
        accept_button_x: 0,
        accept_button_y: 0,
        enter_button_x: 0,
        enter_button_y: 0,
        retry_button_x: 0,
        retry_button_y: 0,
        is_bottom_button: false,
        error: None,
    };
    match s {
        UiState::AcceptAvailable { x, y, bottom } => {
            w.has_accept_button = true;
            w.accept_button_x = x;
            w.accept_button_y = y;
            w.is_bottom_button = bottom;
        },
        UiState::Paused => {
            w.is_paused = true;
            w.chat_button_color = "red".to_owned();
        },
        UiState::RetryAvailable { x, y } => {
            w.has_retry_button = true;
            w.retry_button_x = x;
            w.retry_button_y = y;
            w.chat_button_color = "gray".to_owned();
        },
        UiState::ReadyToType { x, y } => {
            w.has_enter_button = true;
            w.enter_button_x = x;
            w.enter_button_y = y;
            w.chat_button_color = "gray".to_owned();
        },
        UiState::Unknown { diag } => {
            w.error = Some(diag);
        },
    }
    w
}

/// Everything `detect_ui_state` states about its wire result.
pub open spec fn detect_rel(g: Map<(int, int), Color>, r: ScreenRect, w: UIStateResult) -> bool {
    exists|s: UiState| #[trigger] classify_rel(g, r, s) && wire_rel(s, w)
}

/// Classify the window once and report the result in wire shape. Pure in the
/// pixel field: the same rectangle and samples give the same answer.
pub fn detect_ui_state(rect: &ScreenRect, grid: &PixelGrid) -> (w: UIStateResult)
    ensures
        detect_rel(grid@, *rect, w),
{
    let s = classify(rect, grid);
    let ghost s0 = s;
    let w = to_wire(s);
    proof {
        assert(classify_rel(grid@, *rect, s0) && wire_rel(s0, w));
    }
    w
}

} // verus!
