use uistate::color::Color;
use uistate::grid::PixelGrid;
use uistate::rect::ScreenRect;
use uistate::state::detect_ui_state;

fn teal() -> Color {
    Color::new(40, 150, 200)
}

fn retry_blue() -> Color {
    Color { r: 50, g: 150, b: 220 }
}

fn rect_1000x800() -> ScreenRect {
    ScreenRect { left: 0, top: 0, right: 1000, bottom: 800 }
}

/// The ten reliability test points of a 1000x800 window at the origin.
fn guard_points_1000x800() -> Vec<(i32, i32)> {
    vec![
        (300, 240),
        (500, 400),
        (700, 240),
        (300, 560),
        (900, 720),
        (500, 640),
        (800, 400),
        (600, 480),
        (400, 720),
        (900, 320),
    ]
}

/// Distinct, non-qualifying colors at the reliability test points, so the
/// guard sees a healthy pixel field.
fn put_distinct_guard_colors(grid: &mut PixelGrid) {
    let pts = guard_points_1000x800();
    let mut i: u8 = 0;
    for (x, y) in pts {
        grid.put(x, y, Color { r: 200 - i, g: i, b: i });
        i += 10;
    }
}

#[test]
fn zero_width_rect_is_an_error() {
    let rect = ScreenRect { left: 0, top: 0, right: 0, bottom: 800 };
    let grid = PixelGrid::new();
    let res = detect_ui_state(&rect, &grid);
    assert_eq!(res.error.as_deref(), Some("Invalid window size"));
    assert!(!res.has_accept_button);
    assert!(!res.has_enter_button);
    assert!(!res.has_retry_button);
    assert!(!res.is_paused);
    assert_eq!(res.chat_button_color, "none");
}

#[test]
fn negative_height_rect_is_an_error() {
    let rect = ScreenRect { left: 10, top: 500, right: 900, bottom: 400 };
    let grid = PixelGrid::new();
    let res = detect_ui_state(&rect, &grid);
    assert_eq!(res.error.as_deref(), Some("Invalid window size"));
    assert!(!res.has_accept_button && !res.has_retry_button);
}

#[test]
fn invalid_rect_ignores_pixel_content() {
    // A field full of accept-colored pixels changes nothing: no scan runs.
    let rect = ScreenRect { left: 0, top: 0, right: 0, bottom: 0 };
    let mut grid = PixelGrid::new();
    for x in 0..40 {
        grid.put(x * 25, 400, teal());
    }
    let empty = PixelGrid::new();
    let res_full = detect_ui_state(&rect, &grid);
    let res_empty = detect_ui_state(&rect, &empty);
    assert_eq!(res_full, res_empty);
    assert_eq!(res_full.error.as_deref(), Some("Invalid window size"));
}

#[test]
fn identical_test_samples_are_degenerate() {
    let rect = rect_1000x800();
    let mut grid = PixelGrid::new();
    for (x, y) in guard_points_1000x800() {
        grid.put(x, y, Color { r: 10, g: 10, b: 10 });
    }
    // Even a perfectly good accept pair is ignored once the guard trips.
    grid.put(890, 400, teal());
    grid.put(915, 400, teal());
    let res = detect_ui_state(&rect, &grid);
    assert_eq!(
        res.error.as_deref(),
        Some("Pixel sampling unreliable at window position L=0 T=0")
    );
    assert!(!res.has_accept_button);
    assert!(!res.has_enter_button);
    assert!(!res.has_retry_button);
    assert!(!res.is_paused);
    assert!(!res.is_bottom_button);
    assert_eq!(res.chat_button_color, "none");
}

#[test]
fn single_valid_test_sample_is_degenerate() {
    // One available sample and nine unavailable ones: all available samples
    // are trivially identical, so the guard fails closed.
    let rect = rect_1000x800();
    let mut grid = PixelGrid::new();
    grid.put(300, 240, Color { r: 10, g: 20, b: 30 });
    let res = detect_ui_state(&rect, &grid);
    assert_eq!(
        res.error.as_deref(),
        Some("Pixel sampling unreliable at window position L=0 T=0")
    );
    assert!(!res.has_enter_button);
}

#[test]
fn rect_at_the_coordinate_limit_is_classified() {
    // A window of ordinary size pushed to the far corner of the allowed
    // coordinate range.
    let rect = ScreenRect {
        left: 8_388_608 - 1000,
        top: 8_388_608 - 800,
        right: 8_388_608,
        bottom: 8_388_608,
    };
    let grid = PixelGrid::new();
    let res = detect_ui_state(&rect, &grid);
    assert!(res.has_enter_button);
    assert_eq!(res.enter_button_x, 8_388_608 - 60);
    assert_eq!(res.enter_button_y, 8_388_608 - 50);
    assert_eq!(res.error, None);
}

#[test]
fn out_of_bounds_rect_is_an_error() {
    let rect = ScreenRect { left: -9_000_000, top: 0, right: 1000, bottom: 800 };
    let grid = PixelGrid::new();
    let res = detect_ui_state(&rect, &grid);
    assert_eq!(res.error.as_deref(), Some("Invalid window size"));
}

#[test]
fn accept_wins_over_retry() {
    let rect = rect_1000x800();
    let mut grid = PixelGrid::new();
    put_distinct_guard_colors(&mut grid);
    // An accept pair on the accept-scan lattice ...
    grid.put(530, 760, teal());
    grid.put(555, 760, teal());
    // ... and a full retry cluster on the retry lattice.
    grid.put(550, 740, retry_blue());
    grid.put(560, 740, retry_blue());
    grid.put(570, 740, retry_blue());
    let res = detect_ui_state(&rect, &grid);
    assert!(res.has_accept_button);
    assert!(!res.has_retry_button);
    assert!(!res.is_paused);
    assert!(!res.has_enter_button);
    assert_eq!(res.retry_button_x, 0);
    assert_eq!(res.retry_button_y, 0);
}

#[test]
fn lone_pixel_without_neighbor_sets_no_accept() {
    let rect = rect_1000x800();
    let mut grid = PixelGrid::new();
    grid.put(530, 760, teal());
    // Neighbor at +25 px carries a non-qualifying color.
    grid.put(555, 760, Color { r: 200, g: 50, b: 50 });
    let res = detect_ui_state(&rect, &grid);
    assert!(!res.has_accept_button);
    assert_eq!(res.accept_button_x, 0);
    assert_eq!(res.accept_button_y, 0);
}

#[test]
fn pixel_with_qualifying_neighbor_sets_accept() {
    let rect = rect_1000x800();
    let mut grid = PixelGrid::new();
    grid.put(530, 760, teal());
    grid.put(555, 760, teal());
    let res = detect_ui_state(&rect, &grid);
    assert!(res.has_accept_button);
    assert_eq!(res.accept_button_x, 545);
    assert_eq!(res.accept_button_y, 760);
}

#[test]
fn retry_cluster_of_two_is_rejected() {
    let rect = rect_1000x800();
    let mut grid = PixelGrid::new();
    // Candidate plus one matching sample: two in total, below the bar.
    grid.put(550, 760, retry_blue());
    grid.put(560, 760, retry_blue());
    let res = detect_ui_state(&rect, &grid);
    assert!(!res.has_retry_button);
    assert!(res.has_enter_button);
}

#[test]
fn retry_cluster_of_three_is_accepted() {
    let rect = rect_1000x800();
    let mut grid = PixelGrid::new();
    grid.put(550, 760, retry_blue());
    grid.put(560, 760, retry_blue());
    grid.put(570, 760, retry_blue());
    let res = detect_ui_state(&rect, &grid);
    assert!(res.has_retry_button);
    assert_eq!(res.retry_button_x, 570);
    assert_eq!(res.retry_button_y, 760);
    assert!(!res.has_enter_button);
    assert_eq!(res.chat_button_color, "gray");
}

#[test]
fn accept_low_in_the_window_is_a_bottom_button() {
    // Row 540 of a 600-high window sits at fraction 0.9, below the 0.65 mark.
    let rect = ScreenRect { left: 0, top: 0, right: 1000, bottom: 600 };
    let mut grid = PixelGrid::new();
    grid.put(530, 540, teal());
    grid.put(555, 540, teal());
    let res = detect_ui_state(&rect, &grid);
    assert!(res.has_accept_button);
    assert!(res.is_bottom_button);
}

#[test]
fn accept_high_in_the_window_is_no_bottom_button() {
    // Row 160 of an 800-high window sits at fraction 0.2.
    let rect = rect_1000x800();
    let mut grid = PixelGrid::new();
    grid.put(530, 160, teal());
    grid.put(555, 160, teal());
    let res = detect_ui_state(&rect, &grid);
    assert!(res.has_accept_button);
    assert!(!res.is_bottom_button);
}

#[test]
fn end_to_end_accept_detection() {
    let rect = rect_1000x800();
    let mut grid = PixelGrid::new();
    put_distinct_guard_colors(&mut grid);
    grid.put(890, 400, teal());
    grid.put(915, 400, teal());
    let res = detect_ui_state(&rect, &grid);
    assert!(res.has_accept_button);
    assert_eq!(res.accept_button_x, 905);
    assert_eq!(res.accept_button_y, 400);
    assert!(!res.is_bottom_button);
    assert!(!res.has_enter_button);
    assert!(!res.has_retry_button);
    assert!(!res.is_paused);
    assert_eq!(res.error, None);
    assert_eq!(res.chat_button_color, "none");
}

#[test]
fn repeated_calls_are_identical() {
    let rect = rect_1000x800();
    let mut grid = PixelGrid::new();
    put_distinct_guard_colors(&mut grid);
    grid.put(890, 400, teal());
    grid.put(915, 400, teal());
    let first = detect_ui_state(&rect, &grid);
    let second = detect_ui_state(&rect, &grid);
    let third = detect_ui_state(&rect, &grid);
    assert_eq!(first, second);
    assert_eq!(second, third);
}

#[test]
fn repeated_calls_are_identical_when_degenerate() {
    let rect = rect_1000x800();
    let mut grid = PixelGrid::new();
    for (x, y) in guard_points_1000x800() {
        grid.put(x, y, Color { r: 7, g: 7, b: 7 });
    }
    let first = detect_ui_state(&rect, &grid);
    let second = detect_ui_state(&rect, &grid);
    assert_eq!(first, second);
}

#[test]
fn red_square_in_pause_region_is_paused() {
    let rect = rect_1000x800();
    let mut grid = PixelGrid::new();
    // On the pause lattice: x = 800 + 12, y = 656 + 12.
    grid.put(812, 668, Color { r: 200, g: 50, b: 50 });
    grid.put(817, 668, Color { r: 190, g: 0, b: 0 });
    let res = detect_ui_state(&rect, &grid);
    assert!(res.is_paused);
    assert_eq!(res.chat_button_color, "red");
    assert!(!res.has_accept_button && !res.has_retry_button && !res.has_enter_button);
    assert_eq!(res.accept_button_x, 0);
    assert_eq!(res.retry_button_x, 0);
}

#[test]
fn unconfirmed_red_in_pause_region_is_not_paused() {
    let rect = rect_1000x800();
    let mut grid = PixelGrid::new();
    // The confirming neighbor at +5 px is missing.
    grid.put(812, 668, Color { r: 200, g: 50, b: 50 });
    let res = detect_ui_state(&rect, &grid);
    assert!(!res.is_paused);
    assert!(res.has_enter_button);
}

#[test]
fn corner_probe_red_is_paused() {
    let rect = rect_1000x800();
    let mut grid = PixelGrid::new();
    // The nearest corner probe: 30 px left of and 30 px above the corner.
    grid.put(970, 770, Color { r: 160, g: 50, b: 50 });
    let res = detect_ui_state(&rect, &grid);
    assert!(res.is_paused);
    assert_eq!(res.chat_button_color, "red");
}

#[test]
fn empty_field_is_ready_to_type() {
    let rect = rect_1000x800();
    let grid = PixelGrid::new();
    let res = detect_ui_state(&rect, &grid);
    assert!(res.has_enter_button);
    assert_eq!(res.enter_button_x, 940);
    assert_eq!(res.enter_button_y, 750);
    assert_eq!(res.chat_button_color, "gray");
    assert!(!res.has_accept_button && !res.has_retry_button && !res.is_paused);
    assert_eq!(res.error, None);
}

#[test]
fn grid_last_write_wins() {
    let mut grid = PixelGrid::new();
    grid.put(5, 6, Color { r: 1, g: 2, b: 3 });
    grid.put(5, 6, Color { r: 9, g: 9, b: 9 });
    assert_eq!(grid.sample(5, 6), Some(Color { r: 9, g: 9, b: 9 }));
    assert_eq!(grid.sample(5, 7), None);
}

#[test]
fn required_samples_cover_the_detection_scenario() {
    let rect = rect_1000x800();
    let pts = uistate::points::required_samples(&rect);
    // The pixels of the end-to-end scenario are all read.
    assert!(pts.contains(&(890, 400)));
    assert!(pts.contains(&(915, 400)));
    // So are the reliability test points.
    for pt in guard_points_1000x800() {
        assert!(pts.contains(&pt));
    }
    // And the corner probes.
    assert!(pts.contains(&(970, 770)));
    assert!(pts.contains(&(750, 640)));
}
