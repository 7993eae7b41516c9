use egui_spreadsheet::{
    sync_column_and_width, ColumnWidths, VariableColumnWidths, WidthPreferences,
};

fn variable_of(sizes: &[u32], default_width: u32) -> ColumnWidths {
    let mut axis = VariableColumnWidths::new(default_width);
    axis.set_len(sizes.len());
    for (i, s) in sizes.iter().enumerate() {
        assert!(axis.set_width(i, *s).is_ok());
    }
    ColumnWidths::Variable(axis)
}

fn is_constant(axis: &ColumnWidths, width: u32, n: usize) -> bool {
    matches!(axis, ColumnWidths::Constant { width: w, n: m } if *w == width && *m == n)
}

fn sizes_of(axis: &ColumnWidths) -> Vec<u32> {
    (0..axis.len()).map(|i| axis.get_width(i).unwrap()).collect()
}

#[test]
fn uniform_columns_resolve_by_division() {
    let mut axis = ColumnWidths::Constant { width: 200, n: 3 };
    assert_eq!(axis.range(150, 450), (0, 2));
}

#[test]
fn uniform_range_first_is_the_cell_of_the_lower_bound() {
    let mut axis = ColumnWidths::Constant { width: 200, n: 10 };
    assert_eq!(axis.range(0, 0), (0, 1));
    assert_eq!(axis.range(0, 199), (0, 1));
    assert_eq!(axis.range(0, 200), (0, 2));
    assert_eq!(axis.range(199, 200), (0, 2));
    assert_eq!(axis.range(200, 399), (1, 2));
    assert_eq!(axis.range(450, 1001), (2, 6));
}

#[test]
fn uniform_range_is_clamped_to_the_last_index() {
    let mut axis = ColumnWidths::Constant { width: 200, n: 3 };
    assert_eq!(axis.range(400, 400), (2, 2));
    assert_eq!(axis.range(0, 600), (0, 2));
    assert_eq!(axis.range(5000, 6000), (2, 2));
    assert_eq!(axis.range(0, u128::MAX), (0, 2));
    assert_eq!(axis.range(u128::MAX, u128::MAX), (2, 2));
}

#[test]
fn uniform_range_of_empty_and_single_axis() {
    let mut empty = ColumnWidths::Constant { width: 200, n: 0 };
    assert_eq!(empty.range(0, 1000), (0, 0));
    let mut single = ColumnWidths::Constant { width: 200, n: 1 };
    assert_eq!(single.range(0, 1000), (0, 0));
    assert_eq!(single.range(0, 0), (0, 0));
}

#[test]
fn uniform_range_with_zero_size() {
    let mut axis = ColumnWidths::Constant { width: 0, n: 5 };
    assert_eq!(axis.range(0, 0), (0, 1));
    assert_eq!(axis.range(0, 10), (0, 4));
    assert_eq!(axis.range(3, 10), (4, 4));
    let mut single = ColumnWidths::Constant { width: 0, n: 1 };
    assert_eq!(single.range(0, 0), (0, 0));
    let mut empty = ColumnWidths::Constant { width: 0, n: 0 };
    assert_eq!(empty.range(0, 7), (0, 0));
}

#[test]
fn uniform_zero_size_agrees_with_variable_zero_sizes() {
    let mut uniform = ColumnWidths::Constant { width: 0, n: 4 };
    let mut variable = variable_of(&[0, 0, 0, 0], 0);
    for lower in 0..3u128 {
        for upper in 0..3u128 {
            assert_eq!(uniform.range(lower, upper), variable.range(lower, upper));
        }
    }
}

#[test]
fn uniform_range_with_huge_axis() {
    let mut axis = ColumnWidths::Constant { width: 1, n: usize::MAX };
    assert_eq!(axis.range(u128::MAX - 1, u128::MAX), (usize::MAX - 1, usize::MAX - 1));
    assert_eq!(axis.range(5, 9), (5, 10));
}

#[test]
fn uniform_range_leaves_axis_unchanged() {
    let mut axis = ColumnWidths::Constant { width: 200, n: 3 };
    let _ = axis.range(150, 450);
    assert!(is_constant(&axis, 200, 3));
}

#[test]
fn uniform_width_is_absent_past_the_length() {
    let axis = ColumnWidths::Constant { width: 200, n: 3 };
    assert_eq!(axis.get_width(0), Some(200));
    assert_eq!(axis.get_width(2), Some(200));
    assert_eq!(axis.get_width(3), None);
    assert_eq!(axis.get_width(usize::MAX), None);
    assert_eq!(axis.len(), 3);
}

#[test]
fn uniform_offset_is_size_times_index() {
    let axis = ColumnWidths::Constant { width: 200, n: 3 };
    assert_eq!(axis.get_accum(0), Some(0));
    assert_eq!(axis.get_accum(1), Some(200));
    assert_eq!(axis.get_accum(3), Some(600));
    assert_eq!(axis.get_accum(1000), Some(200_000));
    assert_eq!(axis.total_width(), 600);
}

#[test]
fn uniform_offsets_of_the_largest_axis_fit() {
    let axis = ColumnWidths::Constant { width: u32::MAX, n: usize::MAX };
    let expected = (u32::MAX as u128) * (usize::MAX as u128);
    assert_eq!(axis.total_width(), expected);
    assert_eq!(axis.get_accum(usize::MAX), Some(expected));
}

#[test]
fn uniform_set_len_keeps_the_size() {
    let mut axis = ColumnWidths::Constant { width: 200, n: 3 };
    axis.set_len(7);
    assert!(is_constant(&axis, 200, 7));
    assert_eq!(axis.total_width(), 1400);
    axis.set_len(0);
    assert!(is_constant(&axis, 200, 0));
    assert_eq!(axis.total_width(), 0);
}

#[test]
fn variable_axis_answers_through_the_enum() {
    let mut axis = variable_of(&[10, 20, 10, 10, 50], 10);
    assert_eq!(axis.len(), 5);
    assert_eq!(axis.get_width(1), Some(20));
    assert_eq!(axis.get_width(5), None);
    assert_eq!(axis.get_accum(2), Some(30));
    assert_eq!(axis.get_accum(6), None);
    assert_eq!(axis.total_width(), 100);
    assert_eq!(axis.range(35, 55), (1, 4));
    axis.set_len(6);
    assert_eq!(axis.get_width(5), Some(10));
    assert_eq!(axis.total_width(), 110);
}

#[test]
fn offsets_never_decrease_in_either_mode() {
    let uniform = ColumnWidths::Constant { width: 7, n: 20 };
    let variable = variable_of(&[3, 0, 9, 9, 0, 0, 1], 5);
    for axis in [&uniform, &variable] {
        for i in 0..axis.len() {
            assert!(axis.get_accum(i).unwrap() <= axis.get_accum(i + 1).unwrap());
            assert_eq!(
                axis.get_accum(i).unwrap() + axis.get_width(i).unwrap() as u128,
                axis.get_accum(i + 1).unwrap()
            );
        }
        assert_eq!(axis.get_accum(axis.len()), Some(axis.total_width()));
    }
}

#[test]
fn resizeable_preference_makes_a_variable_axis_uniform() {
    let mut axis = variable_of(&[10, 20, 10, 10, 50], 10);
    let pref = WidthPreferences { resizeable: true, default: 77 };
    sync_column_and_width(&pref, &mut axis);
    assert!(is_constant(&axis, 10, 5));
}

#[test]
fn empty_variable_axis_becomes_uniform_with_the_default() {
    let mut axis = ColumnWidths::Variable(VariableColumnWidths::new(3));
    let pref = WidthPreferences { resizeable: true, default: 77 };
    sync_column_and_width(&pref, &mut axis);
    assert!(is_constant(&axis, 77, 0));
}

#[test]
fn fixed_preference_makes_a_uniform_axis_variable() {
    let mut axis = ColumnWidths::Constant { width: 200, n: 3 };
    let pref = WidthPreferences { resizeable: false, default: 7 };
    sync_column_and_width(&pref, &mut axis);
    assert!(matches!(axis, ColumnWidths::Variable(_)));
    assert_eq!(sizes_of(&axis), vec![200, 200, 200]);
    assert_eq!(axis.get_accum(3), Some(600));
    axis.set_len(5);
    assert_eq!(sizes_of(&axis), vec![200, 200, 200, 7, 7]);
    assert_eq!(axis.total_width(), 614);
}

#[test]
fn mode_switch_is_a_no_op_in_the_target_mode() {
    let mut uniform = ColumnWidths::Constant { width: 200, n: 3 };
    sync_column_and_width(&WidthPreferences { resizeable: true, default: 7 }, &mut uniform);
    assert!(is_constant(&uniform, 200, 3));

    let mut variable = variable_of(&[10, 20, 30], 4);
    sync_column_and_width(&WidthPreferences { resizeable: false, default: 7 }, &mut variable);
    assert!(matches!(variable, ColumnWidths::Variable(_)));
    assert_eq!(sizes_of(&variable), vec![10, 20, 30]);
    variable.set_len(4);
    assert_eq!(sizes_of(&variable), vec![10, 20, 30, 4]);
}

#[test]
fn mode_round_trip_keeps_the_total_extent() {
    for (width, n) in [(200u32, 3usize), (25, 100), (0, 4), (7, 0), (u32::MAX, 2)] {
        let mut axis = ColumnWidths::Constant { width, n };
        let before = axis.total_width();
        sync_column_and_width(&WidthPreferences { resizeable: false, default: 9 }, &mut axis);
        assert!(matches!(axis, ColumnWidths::Variable(_)));
        assert_eq!(axis.total_width(), before);
        sync_column_and_width(&WidthPreferences { resizeable: true, default: 11 }, &mut axis);
        assert_eq!(axis.total_width(), before);
        if n > 0 {
            assert!(is_constant(&axis, width, n));
        } else {
            assert!(is_constant(&axis, 11, 0));
        }
    }
}

#[test]
fn overlapping_cells_other_than_the_last_are_in_range() {
    let mut axes = vec![
        ColumnWidths::Constant { width: 7, n: 6 },
        ColumnWidths::Constant { width: 0, n: 3 },
        variable_of(&[10, 20, 10, 10, 50], 10),
        variable_of(&[0, 5, 0, 0, 5, 1], 1),
    ];
    for axis in axes.iter_mut() {
        let total = axis.total_width();
        for lower in 0..=total {
            for upper in lower..=total {
                let (first, last) = axis.range(lower, upper);
                for k in 0..axis.len() {
                    let start = axis.get_accum(k).unwrap();
                    let end = axis.get_accum(k + 1).unwrap();
                    if k + 1 < axis.len() && start < upper && lower < end {
                        assert!(first <= k && k < last);
                    }
                }
            }
        }
    }
}

#[test]
fn cells_in_range_touch_the_interval_but_for_the_leading_margin() {
    let mut axes = vec![
        ColumnWidths::Constant { width: 7, n: 6 },
        ColumnWidths::Constant { width: 0, n: 3 },
        variable_of(&[10, 20, 10, 10, 50], 10),
        variable_of(&[0, 5, 0, 0, 5, 1], 1),
    ];
    for axis in axes.iter_mut() {
        let uniform = matches!(axis, ColumnWidths::Constant { .. });
        let total = axis.total_width();
        for lower in 0..=total {
            for upper in lower..=total {
                let (first, last) = axis.range(lower, upper);
                for k in first..last {
                    let start = axis.get_accum(k).unwrap();
                    let end = axis.get_accum(k + 1).unwrap();
                    let touches = start <= upper && lower <= end;
                    if uniform || k > first {
                        assert!(touches);
                    }
                }
            }
        }
    }
}

#[test]
fn leading_margin_of_a_variable_axis_is_outside() {
    let mut axis = variable_of(&[10, 20, 10, 10, 50], 10);
    let (first, last) = axis.range(35, 55);
    assert_eq!((first, last), (1, 4));
    assert!(axis.get_accum(first + 1).unwrap() < 35);
}

#[test]
fn last_cell_is_never_in_range() {
    let mut uniform = ColumnWidths::Constant { width: 200, n: 3 };
    let (first, last) = uniform.range(150, 450);
    assert_eq!((first, last), (0, 2));
    assert!(uniform.get_accum(2).unwrap() < 450);
    assert!(!(first..last).contains(&2));
}

#[test]
fn adjacent_intervals_on_a_uniform_axis_share_at_most_one_index() {
    for (width, n) in [(7u32, 6usize), (1, 5), (0, 3), (200, 1), (5, 0)] {
        let mut axis = ColumnWidths::Constant { width, n };
        let total = axis.total_width();
        for boundary in 0..=total {
            let (_, left_last) = axis.range(0, boundary);
            let (right_first, _) = axis.range(boundary, total);
            assert!(left_last <= right_first + 1);
        }
    }
}

#[test]
fn adjacent_intervals_on_a_variable_axis_share_at_most_two_indices() {
    let mut axis = variable_of(&[10, 20, 10, 10, 50], 10);
    for boundary in 0..=100u128 {
        let (_, left_last) = axis.range(0, boundary);
        let (right_first, _) = axis.range(boundary, 100);
        assert!(left_last <= right_first + 2);
    }
    let (_, left_last) = axis.range(0, 35);
    let (right_first, _) = axis.range(35, 100);
    assert_eq!((right_first, left_last), (1, 3));
    let (_, left_last) = axis.range(0, 5);
    let (right_first, _) = axis.range(5, 100);
    assert_eq!((right_first, left_last), (0, 1));
    let (_, left_last) = axis.range(0, 60);
    let (right_first, _) = axis.range(60, 100);
    assert_eq!((right_first, left_last), (3, 4));
}

#[test]
fn clone_of_an_axis_keeps_mode_and_sizes() {
    let uniform = ColumnWidths::Constant { width: 200, n: 3 };
    assert!(is_constant(&uniform.clone(), 200, 3));
    let variable = variable_of(&[10, 20, 30], 4);
    let mut copy = variable.clone();
    assert!(matches!(copy, ColumnWidths::Variable(_)));
    assert_eq!(sizes_of(&copy), vec![10, 20, 30]);
    copy.set_len(4);
    assert_eq!(sizes_of(&copy), vec![10, 20, 30, 4]);
    assert_eq!(variable.len(), 3);
}
