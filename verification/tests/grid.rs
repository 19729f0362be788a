use isocanvas::grid::{
    calculate_grid_step, calculate_visible_grid, grid_line_indices, CellBounds, GridLines,
    CELL_MARGIN, LARGEST_STEP,
};

/// The zoom factor in whole thousandths, rounded down.
fn permille(zoom: f64) -> u32 {
    (zoom * 1000.0).floor() as u32
}

/// The step by comparing the zoom factor itself with the table's thresholds.
fn step_by_thresholds(zoom: f64) -> i32 {
    if zoom >= 0.8 {
        1
    } else if zoom >= 0.5 {
        2
    } else if zoom >= 0.25 {
        4
    } else if zoom >= 0.125 {
        8
    } else {
        16
    }
}

#[test]
fn grid_step_table() {
    assert_eq!(calculate_grid_step(permille(0.9)), 1);
    assert_eq!(calculate_grid_step(permille(0.6)), 2);
    assert_eq!(calculate_grid_step(permille(0.3)), 4);
    assert_eq!(calculate_grid_step(permille(0.15)), 8);
    assert_eq!(calculate_grid_step(permille(0.05)), 16);
}

#[test]
fn grid_step_at_the_thresholds() {
    assert_eq!(calculate_grid_step(800), 1);
    assert_eq!(calculate_grid_step(799), 2);
    assert_eq!(calculate_grid_step(500), 2);
    assert_eq!(calculate_grid_step(499), 4);
    assert_eq!(calculate_grid_step(250), 4);
    assert_eq!(calculate_grid_step(249), 8);
    assert_eq!(calculate_grid_step(125), 8);
    assert_eq!(calculate_grid_step(124), 16);
}

#[test]
fn grid_step_at_the_ends_of_the_zoom_band() {
    assert_eq!(calculate_grid_step(permille(0.1)), 16);
    assert_eq!(calculate_grid_step(permille(1.0)), 1);
    assert_eq!(calculate_grid_step(permille(100.0)), 1);
}

#[test]
fn grid_step_of_a_degenerate_zoom_is_the_largest() {
    assert_eq!(calculate_grid_step(0), 16);
    assert_eq!(calculate_grid_step(permille(0.0)), 16);
    assert_eq!(calculate_grid_step(permille(-3.0)), 16);
    assert_eq!(calculate_grid_step(permille(f64::NAN)), 16);
    assert_eq!(calculate_grid_step(permille(f64::NEG_INFINITY)), 16);
    assert_eq!(calculate_grid_step(permille(f64::INFINITY)), 1);
    assert_eq!(calculate_grid_step(u32::MAX), 1);
}

#[test]
fn grid_step_never_grows_with_the_zoom() {
    let mut before = i32::MAX;
    for zoom in 0..=2000 {
        let step = calculate_grid_step(zoom);
        assert!(step <= before);
        assert!([1, 2, 4, 8, 16].contains(&step));
        before = step;
    }
}

#[test]
fn grid_step_in_thousandths_agrees_with_thresholds_on_the_factor() {
    for threshold in [0.8f64, 0.5, 0.25, 0.125] {
        let bits = threshold.to_bits();
        for near in (bits - 4)..=(bits + 4) {
            let zoom = f64::from_bits(near);
            assert_eq!(calculate_grid_step(permille(zoom)), step_by_thresholds(zoom), "{}", zoom);
        }
    }
    let mut zoom = 0.1f64;
    while zoom <= 100.0 {
        assert_eq!(calculate_grid_step(permille(zoom)), step_by_thresholds(zoom), "{}", zoom);
        zoom *= 1.1;
    }
    let mut zoom = 100.0f64;
    while zoom >= 0.1 {
        assert_eq!(calculate_grid_step(permille(zoom)), step_by_thresholds(zoom), "{}", zoom);
        zoom *= 0.9;
    }
}

#[test]
fn margin_and_largest_step() {
    assert_eq!(CELL_MARGIN, 5);
    assert_eq!(LARGEST_STEP, 16);
}

#[test]
fn every_line_at_step_one() {
    // 0..=3 widened by five cells on each side
    assert_eq!(grid_line_indices(0, 3, 1), (-5..=8).collect::<Vec<i64>>());
}

#[test]
fn bounds_move_outward_to_a_multiple_of_the_step() {
    // -3 - 5 = -8 is a multiple of 4 already; 7 + 5 = 12 too
    assert_eq!(grid_line_indices(-3, 7, 4), vec![-8, -4, 0, 4, 8, 12]);
    // -2 - 5 = -7 goes down to -8; 6 + 5 = 11 goes up to 12
    assert_eq!(grid_line_indices(-2, 6, 4), vec![-8, -4, 0, 4, 8, 12]);
    // 10 - 5 = 5 goes down to 4; 20 + 5 = 25 goes up to 28
    assert_eq!(grid_line_indices(10, 20, 4), vec![4, 8, 12, 16, 20, 24, 28]);
    // -20 - 5 = -25 goes down to -28; -10 + 5 = -5 goes up to -4
    assert_eq!(grid_line_indices(-20, -10, 4), vec![-28, -24, -20, -16, -12, -8, -4]);
}

#[test]
fn steps_of_the_detail_table() {
    assert_eq!(grid_line_indices(0, 0, 2), vec![-6, -4, -2, 0, 2, 4, 6]);
    assert_eq!(grid_line_indices(0, 0, 8), vec![-8, 0, 8]);
    assert_eq!(grid_line_indices(0, 0, 16), vec![-16, 0, 16]);
    assert_eq!(grid_line_indices(0, 40, 16), vec![-16, 0, 16, 32, 48]);
}

#[test]
fn step_below_one_falls_back_to_the_largest() {
    let largest = grid_line_indices(0, 40, 16);
    assert_eq!(grid_line_indices(0, 40, 0), largest);
    assert_eq!(grid_line_indices(0, 40, -3), largest);
    assert_eq!(grid_line_indices(0, 40, i32::MIN), largest);
}

#[test]
fn step_wider_than_the_box_still_covers_it() {
    assert_eq!(grid_line_indices(1, 2, 1000), vec![-1000, 0, 1000]);
    assert_eq!(grid_line_indices(0, 0, i32::MAX), vec![-2147483647, 0, 2147483647]);
}

#[test]
fn empty_range_has_no_lines() {
    assert_eq!(grid_line_indices(1, 0, 1), Vec::<i64>::new());
    assert_eq!(grid_line_indices(100, -100, 4), Vec::<i64>::new());
    assert_eq!(grid_line_indices(i32::MAX, i32::MIN, 0), Vec::<i64>::new());
}

#[test]
fn single_cell_range() {
    assert_eq!(grid_line_indices(7, 7, 1), (2..=12).collect::<Vec<i64>>());
}

#[test]
fn lines_at_the_ends_of_the_range_do_not_overflow() {
    let high = grid_line_indices(i32::MAX - 1, i32::MAX, 16);
    assert_eq!(high.first().copied(), Some(2147483632));
    assert_eq!(high.last().copied(), Some(2147483664));
    assert_eq!(high, vec![2147483632, 2147483648, 2147483664]);
    let low = grid_line_indices(i32::MIN, i32::MIN + 1, 16);
    assert_eq!(low, vec![-2147483664, -2147483648, -2147483632]);
}

#[test]
fn lines_are_multiples_of_the_step_and_evenly_spaced() {
    for step in [1, 2, 4, 8, 16, 3, 7] {
        for min in [-37, -5, 0, 11] {
            for len in [0, 1, 9, 50] {
                let max = min + len;
                let lines = grid_line_indices(min, max, step);
                let stride = step as i64;
                assert!(!lines.is_empty());
                assert!(lines.iter().all(|i| i % stride == 0));
                assert!(lines.windows(2).all(|w| w[1] - w[0] == stride));
                let first = lines[0];
                let last = lines[lines.len() - 1];
                assert!(first <= min as i64 - 5 && min as i64 - 5 < first + stride);
                assert!(last - stride < max as i64 + 5 && max as i64 + 5 <= last);
            }
        }
    }
}

#[test]
fn visible_grid_lists_both_families() {
    let bounds = CellBounds { min_x: 0, max_x: 3, min_y: -2, max_y: 6 };
    let lines = calculate_visible_grid(bounds, 300);
    assert_eq!(
        lines,
        GridLines { vertical: vec![-8, -4, 0, 4, 8], horizontal: vec![-8, -4, 0, 4, 8, 12] }
    );
}

#[test]
fn visible_grid_of_an_empty_box_is_empty() {
    let no_width = CellBounds { min_x: 1, max_x: 0, min_y: 0, max_y: 10 };
    let no_height = CellBounds { min_x: 0, max_x: 10, min_y: 5, max_y: 4 };
    for bounds in [no_width, no_height, CellBounds::empty()] {
        let lines = calculate_visible_grid(bounds, 1000);
        assert!(lines.vertical.is_empty());
        assert!(lines.horizontal.is_empty());
    }
}

#[test]
fn visible_grid_is_the_same_for_the_same_view() {
    let bounds = CellBounds { min_x: -13, max_x: 29, min_y: -7, max_y: 31 };
    assert_eq!(calculate_visible_grid(bounds, 600), calculate_visible_grid(bounds, 600));
}

#[test]
fn visible_grid_takes_its_step_from_the_zoom() {
    let bounds = CellBounds { min_x: -50, max_x: 50, min_y: -30, max_y: 30 };
    for zoom in [1000, 800, 600, 300, 150, 50, 0] {
        let step = calculate_grid_step(zoom);
        let lines = calculate_visible_grid(bounds, zoom);
        assert_eq!(lines.vertical, grid_line_indices(-50, 50, step));
        assert_eq!(lines.horizontal, grid_line_indices(-30, 30, step));
    }
}

#[test]
fn zooming_out_never_draws_more_lines() {
    let bounds = CellBounds { min_x: -50, max_x: 50, min_y: -30, max_y: 30 };
    let mut before = usize::MAX;
    for zoom in [1000, 600, 300, 150, 50] {
        let lines = calculate_visible_grid(bounds, zoom);
        let count = lines.vertical.len() + lines.horizontal.len();
        assert!(count <= before);
        before = count;
    }
}
