use egui_spreadsheet::{IndexOutOfRange, VariableColumnWidths};

fn rows_of(heights: &[u32], default_width: u32) -> VariableColumnWidths {
    let mut axis = VariableColumnWidths::new(default_width);
    axis.set_len(heights.len());
    for (i, h) in heights.iter().enumerate() {
        assert_eq!(axis.set_width(i, *h), Ok(()));
    }
    axis
}

#[test]
fn new_variable_axis_is_empty() {
    let mut axis = VariableColumnWidths::new(42);
    assert_eq!(axis.len(), 0);
    assert_eq!(axis.total_width(), 0);
    assert_eq!(axis.get_width(0), None);
    assert_eq!(axis.get_accum(0), Some(0));
    assert_eq!(axis.get_accum(1), None);
    assert_eq!(axis.range(0, 100), (0, 0));
}

#[test]
fn growing_fills_with_the_default() {
    let mut axis = VariableColumnWidths::new(42);
    axis.set_len(3);
    assert_eq!(axis.len(), 3);
    assert_eq!(axis.get_width(0), Some(42));
    assert_eq!(axis.get_width(1), Some(42));
    assert_eq!(axis.get_width(2), Some(42));
    assert_eq!(axis.get_width(3), None);
    assert_eq!(axis.total_width(), 126);
}

#[test]
fn offsets_are_sums_of_the_sizes_before() {
    let axis = rows_of(&[10, 20, 10, 10, 50], 10);
    assert_eq!(axis.get_accum(0), Some(0));
    assert_eq!(axis.get_accum(1), Some(10));
    assert_eq!(axis.get_accum(2), Some(30));
    assert_eq!(axis.get_accum(3), Some(40));
    assert_eq!(axis.get_accum(4), Some(50));
    assert_eq!(axis.get_accum(5), Some(100));
    assert_eq!(axis.get_accum(6), None);
    assert_eq!(axis.get_accum(usize::MAX), None);
    assert_eq!(axis.total_width(), 100);
}

#[test]
fn variable_rows_resolve_by_search_with_overinclusion() {
    let mut axis = rows_of(&[10, 20, 10, 10, 50], 10);
    assert_eq!(axis.range(35, 55), (1, 4));
}

#[test]
fn variable_range_at_exact_boundaries() {
    let mut axis = rows_of(&[10, 20, 10, 10, 50], 10);
    assert_eq!(axis.range(30, 50), (0, 4));
    assert_eq!(axis.range(0, 0), (0, 1));
    assert_eq!(axis.range(10, 10), (0, 1));
    assert_eq!(axis.range(11, 11), (0, 2));
    assert_eq!(axis.range(40, 40), (1, 3));
}

#[test]
fn variable_range_is_clamped_at_both_ends() {
    let mut axis = rows_of(&[10, 20, 10, 10, 50], 10);
    assert_eq!(axis.range(0, 100), (0, 4));
    assert_eq!(axis.range(0, 100_000), (0, 4));
    assert_eq!(axis.range(1000, 2000), (4, 4));
    assert_eq!(axis.range(99, 100), (3, 4));
}

#[test]
fn variable_range_of_single_index() {
    let mut axis = rows_of(&[10], 10);
    assert_eq!(axis.range(0, 5), (0, 0));
    assert_eq!(axis.range(20, 30), (0, 0));
}

#[test]
fn variable_range_leaves_axis_unchanged() {
    let mut axis = rows_of(&[10, 20, 10, 10, 50], 10);
    let _ = axis.range(35, 55);
    assert_eq!(axis.len(), 5);
    assert_eq!(axis.get_width(1), Some(20));
    assert_eq!(axis.get_accum(5), Some(100));
}

#[test]
fn variable_range_with_zero_sized_cells() {
    let mut axis = rows_of(&[0, 0, 0, 0], 0);
    assert_eq!(axis.range(0, 0), (0, 1));
    assert_eq!(axis.range(0, 10), (0, 3));
    assert_eq!(axis.range(3, 10), (3, 3));
}

#[test]
fn shrinking_and_growing_keeps_surviving_sizes() {
    let mut axis = VariableColumnWidths::new(25);
    axis.set_len(10);
    assert_eq!(axis.set_width(0, 31), Ok(()));
    assert_eq!(axis.set_width(1, 32), Ok(()));
    assert_eq!(axis.set_width(2, 33), Ok(()));
    assert_eq!(axis.set_width(7, 99), Ok(()));
    axis.set_len(3);
    assert_eq!(axis.len(), 3);
    assert_eq!(axis.total_width(), 96);
    axis.set_len(10);
    assert_eq!(axis.len(), 10);
    assert_eq!(axis.get_width(0), Some(31));
    assert_eq!(axis.get_width(1), Some(32));
    assert_eq!(axis.get_width(2), Some(33));
    for i in 3..10 {
        assert_eq!(axis.get_width(i), Some(25));
    }
    assert_eq!(axis.get_width(10), None);
    assert_eq!(axis.total_width(), 96 + 7 * 25);
}

#[test]
fn set_width_out_of_range_is_refused() {
    let mut axis = rows_of(&[10, 20, 10], 10);
    assert_eq!(axis.set_width(3, 77), Err(IndexOutOfRange { index: 3, len: 3 }));
    assert_eq!(axis.set_width(usize::MAX, 77), Err(IndexOutOfRange { index: usize::MAX, len: 3 }));
    assert_eq!(axis.len(), 3);
    assert_eq!(axis.get_width(0), Some(10));
    assert_eq!(axis.get_width(1), Some(20));
    assert_eq!(axis.get_width(2), Some(10));
    assert_eq!(axis.total_width(), 40);
}

#[test]
fn set_width_on_empty_axis_is_refused() {
    let mut axis = VariableColumnWidths::new(10);
    assert_eq!(axis.set_width(0, 5), Err(IndexOutOfRange { index: 0, len: 0 }));
    assert_eq!(axis.len(), 0);
}

#[test]
fn set_width_refreshes_the_offsets() {
    let mut axis = rows_of(&[10, 20, 10, 10, 50], 10);
    assert_eq!(axis.set_width(1, 5), Ok(()));
    assert_eq!(axis.get_accum(1), Some(10));
    assert_eq!(axis.get_accum(2), Some(15));
    assert_eq!(axis.get_accum(3), Some(25));
    assert_eq!(axis.get_accum(5), Some(85));
    assert_eq!(axis.total_width(), 85);
    assert_eq!(axis.range(16, 16), (1, 3));
}

#[test]
fn offsets_are_fresh_after_every_mutation() {
    let mut axis = VariableColumnWidths::new(3);
    let mut expected: Vec<u32> = Vec::new();
    let steps: [(usize, Option<(usize, u32)>); 8] = [
        (4, None),
        (4, Some((0, 9))),
        (6, None),
        (6, Some((5, 1))),
        (2, None),
        (2, Some((1, 0))),
        (5, Some((4, 1000))),
        (0, None),
    ];
    for (len, change) in steps {
        axis.set_len(len);
        expected.resize(len, 3);
        if let Some((i, w)) = change {
            assert_eq!(axis.set_width(i, w), Ok(()));
            expected[i] = w;
        }
        let mut sum: u128 = 0;
        for i in 0..len {
            assert_eq!(axis.get_accum(i), Some(sum));
            assert_eq!(axis.get_width(i), Some(expected[i]));
            sum += expected[i] as u128;
        }
        assert_eq!(axis.get_accum(len), Some(sum));
        assert_eq!(axis.total_width(), sum);
    }
}

#[test]
fn rebuild_accum_changes_nothing() {
    let mut axis = rows_of(&[10, 20, 10, 10, 50], 10);
    axis.rebuild_accum();
    assert_eq!(axis.len(), 5);
    assert_eq!(axis.get_accum(2), Some(30));
    assert_eq!(axis.get_accum(5), Some(100));
    assert_eq!(axis.total_width(), 100);
    assert_eq!(axis.range(35, 55), (1, 4));
}

#[test]
fn largest_sizes_do_not_overflow() {
    let axis = rows_of(&[u32::MAX, u32::MAX, u32::MAX], 1);
    assert_eq!(axis.get_accum(3), Some(3 * (u32::MAX as u128)));
    assert_eq!(axis.total_width(), 3 * (u32::MAX as u128));
}

#[test]
fn variable_offsets_never_decrease() {
    let axis = rows_of(&[10, 0, 0, 7, 50, 0, 1], 10);
    for i in 0..axis.len() {
        assert!(axis.get_accum(i).unwrap() <= axis.get_accum(i + 1).unwrap());
    }
}

#[test]
fn clone_of_variable_axis_is_independent() {
    let mut axis = rows_of(&[10, 20, 10], 4);
    let mut copy = axis.clone();
    assert_eq!(axis.set_width(0, 100), Ok(()));
    assert_eq!(copy.len(), 3);
    assert_eq!(copy.get_width(0), Some(10));
    assert_eq!(copy.total_width(), 40);
    copy.set_len(4);
    assert_eq!(copy.get_width(3), Some(4));
    assert_eq!(axis.len(), 3);
    assert_eq!(axis.total_width(), 130);
}
