use touch_numpad::arith::{div_toward_zero, non_neg_sub};
use touch_numpad::geometry::{is_in_zone, Bounds, Geometry, Offsets};
use touch_numpad::keys::{key_in_cell, Key, COLS, ROWS};
use touch_numpad::percent::Percent;

fn pad() -> Geometry {
    Geometry::new(
        Bounds { min_x: 0, max_x: 1000, min_y: 0, max_y: 800 },
        Offsets::standard(),
    )
}

#[test]
fn percent_div_truncates() {
    assert_eq!(Percent::div(40, 1000).value(), 4);
    assert_eq!(Percent::div(59, 1000).value(), 5);
    assert_eq!(Percent::div(1, 3).value(), 33);
    assert_eq!(Percent::div(2, 3).value(), 66);
    assert_eq!(Percent::div(1000, 1000).value(), 100);
}

#[test]
fn percent_div_rounds_toward_zero_for_negatives() {
    assert_eq!(Percent::div(-59, 1000).value(), -5);
    assert_eq!(Percent::div(59, -1000).value(), -5);
    assert_eq!(Percent::div(-59, -1000).value(), 5);
    assert_eq!(Percent::div(-1, 1000).value(), 0);
}

#[test]
fn percent_div_by_zero_is_zero() {
    assert_eq!(Percent::div(17, 0).value(), 0);
    assert_eq!(Percent::div(0, 0).value(), 0);
    assert_eq!(Percent::div(i32::MIN, 0).value(), 0);
}

#[test]
fn percent_div_holds_at_the_limits_of_the_type() {
    assert_eq!(Percent::div(i32::MAX, 1).value(), 214_748_364_700);
    assert_eq!(Percent::div(i32::MIN, -1).value(), 214_748_364_800);
    assert_eq!(Percent::div(i32::MIN, 1).value(), -214_748_364_800);
}

#[test]
fn percent_ratio_takes_the_widest_span() {
    assert_eq!(Percent::ratio(4_294_967_295, 4_294_967_295).value(), 100);
    assert_eq!(Percent::ratio(-4_294_967_295, 1).value(), -429_496_729_500);
}

#[test]
fn percent_mul_takes_hundredths() {
    assert_eq!(Percent::new(7).mul(1000), 70);
    assert_eq!(Percent::new(10).mul(800), 80);
    assert_eq!(Percent::new(4).mul(800), 32);
    assert_eq!(Percent::new(7).mul(99), 6);
    assert_eq!(Percent::new(7).mul(-99), -6);
    assert_eq!(Percent::new(0).mul(12345), 0);
}

#[test]
fn percent_below_is_strict() {
    assert!(Percent::new(4).below(Percent::new(5)));
    assert!(!Percent::new(5).below(Percent::new(5)));
    assert!(!Percent::new(6).below(Percent::new(5)));
    assert!(Percent::new(-1).below(Percent::new(0)));
}

#[test]
fn div_toward_zero_matches_machine_division() {
    assert_eq!(div_toward_zero(7, 2), 3);
    assert_eq!(div_toward_zero(-7, 2), -3);
    assert_eq!(div_toward_zero(7, -2), -3);
    assert_eq!(div_toward_zero(-7, -2), 3);
    assert_eq!(div_toward_zero(7, 0), 0);
}

#[test]
fn non_neg_sub_refuses_negative() {
    assert_eq!(non_neg_sub(5, 3), Some(2));
    assert_eq!(non_neg_sub(3, 3), Some(0));
    assert_eq!(non_neg_sub(3, 5), None);
    assert_eq!(non_neg_sub(-3, -5), Some(2));
}

#[test]
fn non_neg_sub_refuses_overflow() {
    assert_eq!(non_neg_sub(i64::MAX, -1), None);
    assert_eq!(non_neg_sub(i64::MIN, 1), None);
    assert_eq!(non_neg_sub(i64::MAX, 0), Some(i64::MAX));
}

#[test]
fn offsets_must_leave_room() {
    assert_eq!(
        Offsets::new(7, 7, 10, 4),
        Some(Offsets { left: 7, right: 7, top: 10, bottom: 4 })
    );
    assert_eq!(Offsets::new(7, 7, 10, 4), Some(Offsets::standard()));
    assert_eq!(Offsets::new(50, 50, 0, 0), None);
    assert_eq!(Offsets::new(0, 0, 60, 40), None);
    assert_eq!(Offsets::new(49, 50, 99, 0).is_some(), true);
    assert_eq!(Offsets::new(255, 255, 0, 0), None);
}

#[test]
fn zone_needs_both_thresholds() {
    let p = Percent::new;
    assert!(is_in_zone(p(4), p(8), p(5), p(9)));
    assert!(!is_in_zone(p(5), p(8), p(5), p(9)));
    assert!(!is_in_zone(p(4), p(9), p(5), p(9)));
    assert!(!is_in_zone(p(5), p(9), p(5), p(9)));
}

#[test]
fn percentages_from_the_four_edges() {
    let g = pad();
    assert_eq!(g.left_percent(40).value(), 4);
    assert_eq!(g.right_percent(960).value(), 4);
    assert_eq!(g.top_percent(50).value(), 6);
    assert_eq!(g.bottom_percent(50).value(), 93);
    assert_eq!(g.width(), 1000);
    assert_eq!(g.height(), 800);
}

#[test]
fn toggle_zone_is_the_top_right_corner() {
    let g = pad();
    assert!(g.numlock_hit(960, 50));
    assert!(g.numlock_hit(1000, 0));
    assert!(g.numlock_hit(951, 71));
    assert!(!g.numlock_hit(950, 50));
    assert!(!g.numlock_hit(960, 72));
    assert!(!g.numlock_hit(40, 40));
}

#[test]
fn shortcut_zone_is_the_top_left_corner() {
    let g = pad();
    assert!(g.calculator_hit(40, 40));
    assert!(g.calculator_hit(0, 0));
    assert!(g.calculator_hit(59, 55));
    assert!(!g.calculator_hit(60, 40));
    assert!(!g.calculator_hit(40, 56));
    assert!(!g.calculator_hit(960, 50));
}

#[test]
fn zones_on_a_pad_without_extent() {
    let g = Geometry::new(
        Bounds { min_x: 5, max_x: 5, min_y: 9, max_y: 9 },
        Offsets::standard(),
    );
    assert!(g.numlock_hit(123, 456));
    assert!(g.calculator_hit(123, 456));
}

#[test]
fn grid_edges_of_the_standard_pad() {
    let g = pad();
    assert_eq!(g.left_np(), 70);
    assert_eq!(g.right_np(), 930);
    assert_eq!(g.top_np(), 80);
    assert_eq!(g.bottom_np(), 768);
    assert_eq!(g.width_np(), 860);
    assert_eq!(g.height_np(), 688);
}

#[test]
fn grid_edges_with_a_shifted_origin() {
    let g = Geometry::new(
        Bounds { min_x: -500, max_x: 500, min_y: 100, max_y: 900 },
        Offsets::standard(),
    );
    assert_eq!(g.left_np(), -430);
    assert_eq!(g.right_np(), 430);
    assert_eq!(g.top_np(), 180);
    assert_eq!(g.bottom_np(), 868);
}

#[test]
fn centre_touch_resolves_to_row_two_column_two() {
    let g = pad();
    assert_eq!(g.row_raw(500), Some(2));
    assert_eq!(g.column_raw(500), Some(2));
    assert_eq!(g.key_at(500, 500), key_in_cell(2, 2));
    assert_eq!(g.key_at(500, 500), Some(Key::Kp3));
}

#[test]
fn kp5_sits_in_row_one_column_one() {
    let g = pad();
    assert_eq!(g.row_raw(300), Some(1));
    assert_eq!(g.column_raw(300), Some(1));
    assert_eq!(g.key_at(300, 300), Some(Key::Kp5));
}

#[test]
fn column_formula_is_exact_at_cell_borders() {
    let g = pad();
    // column = (x - 70) * 5 / 861
    assert_eq!(g.column_raw(70), Some(0));
    assert_eq!(g.column_raw(242), Some(0));
    assert_eq!(g.column_raw(243), Some(1));
    assert_eq!(g.column_raw(758), Some(3));
    assert_eq!(g.column_raw(759), Some(4));
    assert_eq!(g.column_raw(930), Some(4));
    assert_eq!(g.column_raw(931), None);
}

#[test]
fn row_formula_is_exact_at_cell_borders() {
    let g = pad();
    // row = (y - 80) * 4 / 689
    assert_eq!(g.row_raw(80), Some(0));
    assert_eq!(g.row_raw(252), Some(0));
    assert_eq!(g.row_raw(253), Some(1));
    assert_eq!(g.row_raw(596), Some(2));
    assert_eq!(g.row_raw(597), Some(3));
    assert_eq!(g.row_raw(768), Some(3));
    assert_eq!(g.row_raw(769), None);
}

#[test]
fn every_position_inside_the_grid_has_a_key() {
    let g = pad();
    let mut x = 71;
    while x < 930 {
        let mut y = 81;
        while y < 768 {
            assert!(g.key_at(x, y).is_some());
            y += 13;
        }
        x += 7;
    }
}

#[test]
fn key_is_stable_under_jitter_within_a_cell() {
    let g = pad();
    let first = g.key_at(420, 430);
    assert_eq!(first, Some(Key::Kp3));
    for dx in -5..=5 {
        for dy in -5..=5 {
            assert_eq!(g.key_at(420 + dx, 430 + dy), first);
        }
    }
}

#[test]
fn no_key_left_of_the_grid_or_above_it() {
    let g = pad();
    assert_eq!(g.key_at(69, 400), None);
    assert_eq!(g.key_at(400, 79), None);
    assert_eq!(g.key_at(0, 0), None);
    assert_eq!(g.key_at(-1, 400), None);
    assert_eq!(g.key_at(i32::MIN, i32::MIN), None);
    assert_eq!(g.column_raw(69), None);
    assert_eq!(g.row_raw(79), None);
}

#[test]
fn no_key_beyond_the_far_edges() {
    let g = pad();
    assert_eq!(g.key_at(931, 400), None);
    assert_eq!(g.key_at(400, 769), None);
    assert_eq!(g.key_at(i32::MAX, i32::MAX), None);
}

#[test]
fn corners_of_the_grid() {
    let g = pad();
    assert_eq!(g.key_at(70, 80), Some(Key::Kp7));
    assert_eq!(g.key_at(930, 80), Some(Key::Backspace));
    assert_eq!(g.key_at(70, 768), Some(Key::Kp0));
    assert_eq!(g.key_at(930, 768), Some(Key::KpEqual));
}

#[test]
fn overloaded_five_sits_in_row_two_column_four() {
    let g = pad();
    assert_eq!(g.row_raw(500), Some(2));
    assert_eq!(g.column_raw(800), Some(4));
    assert_eq!(g.key_at(800, 500), Some(Key::Five));
}

#[test]
fn biased_extent_of_zero_gives_no_cell() {
    // width -1 with no margins: the denominator is 0
    let g = Geometry::new(
        Bounds { min_x: 10, max_x: 9, min_y: 0, max_y: 800 },
        Offsets { left: 0, right: 0, top: 0, bottom: 0 },
    );
    assert_eq!(g.width_np(), -1);
    assert_eq!(g.column_raw(10), None);
    assert_eq!(g.column_raw(500), None);
    assert_eq!(g.key_at(10, 400), None);
}

#[test]
fn reversed_bounds_never_give_a_negative_cell() {
    let g = Geometry::new(
        Bounds { min_x: 1000, max_x: 0, min_y: 0, max_y: 800 },
        Offsets { left: 0, right: 0, top: 0, bottom: 0 },
    );
    assert_eq!(g.width_np(), -1000);
    // (1000 - 1000) * 5 / -999 = 0
    assert_eq!(g.column_raw(1000), Some(0));
    // (2000 - 1000) * 5 / -999 = -5
    assert_eq!(g.column_raw(2000), None);
}

#[test]
fn pad_without_extent_has_one_point() {
    let g = Geometry::new(
        Bounds { min_x: 0, max_x: 0, min_y: 0, max_y: 0 },
        Offsets::standard(),
    );
    assert_eq!(g.key_at(0, 0), Some(Key::Kp7));
    assert_eq!(g.key_at(1, 0), None);
}

#[test]
fn widest_calibration_does_not_overflow() {
    let g = Geometry::new(
        Bounds { min_x: i32::MIN, max_x: i32::MAX, min_y: i32::MIN, max_y: i32::MAX },
        Offsets { left: 0, right: 0, top: 0, bottom: 0 },
    );
    assert_eq!(g.width(), 4_294_967_295);
    assert_eq!(g.key_at(i32::MIN, i32::MIN), Some(Key::Kp7));
    assert_eq!(g.key_at(i32::MAX, i32::MAX), Some(Key::KpEqual));
    assert_eq!(g.key_at(0, 0), Some(Key::Kp3));
    assert_eq!(g.right_percent(i32::MIN).value(), 100);
}

#[test]
fn the_table_of_keys() {
    let table = [
        [Key::Kp7, Key::Kp8, Key::Kp9, Key::KpSlash, Key::Backspace],
        [Key::Kp4, Key::Kp5, Key::Kp6, Key::KpAsterisk, Key::Backspace],
        [Key::Kp1, Key::Kp2, Key::Kp3, Key::KpMinus, Key::Five],
        [Key::Kp0, Key::KpDot, Key::KpEnter, Key::KpPlus, Key::KpEqual],
    ];
    assert_eq!(ROWS, 4);
    assert_eq!(COLS, 5);
    for row in 0..ROWS {
        for col in 0..COLS {
            assert_eq!(key_in_cell(row, col), Some(table[row][col]));
        }
    }
}

#[test]
fn no_key_outside_the_table() {
    assert_eq!(key_in_cell(4, 0), None);
    assert_eq!(key_in_cell(0, 5), None);
    assert_eq!(key_in_cell(usize::MAX, usize::MAX), None);
}

#[test]
fn only_the_five_needs_shift() {
    assert!(Key::Five.needs_shift());
    assert!(!Key::Kp5.needs_shift());
    assert!(!Key::LeftShift.needs_shift());
    assert!(!Key::KpEnter.needs_shift());
}
