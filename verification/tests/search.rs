use egui_spreadsheet::binary_search_sorted;

#[test]
fn search_in_empty_slice_is_zero() {
    let empty: Vec<u128> = Vec::new();
    assert_eq!(binary_search_sorted(&empty, 0), 0);
    assert_eq!(binary_search_sorted(&empty, 17), 0);
}

#[test]
fn search_between_entries_gives_insertion_point() {
    let totals: Vec<u128> = vec![10, 30, 40, 50, 100];
    assert_eq!(binary_search_sorted(&totals, 35), 2);
    assert_eq!(binary_search_sorted(&totals, 55), 4);
    assert_eq!(binary_search_sorted(&totals, 11), 1);
    assert_eq!(binary_search_sorted(&totals, 99), 4);
}

#[test]
fn search_for_present_value_gives_its_index() {
    let totals: Vec<u128> = vec![10, 30, 40, 50, 100];
    assert_eq!(binary_search_sorted(&totals, 10), 0);
    assert_eq!(binary_search_sorted(&totals, 30), 1);
    assert_eq!(binary_search_sorted(&totals, 40), 2);
    assert_eq!(binary_search_sorted(&totals, 50), 3);
    assert_eq!(binary_search_sorted(&totals, 100), 4);
}

#[test]
fn search_below_all_and_above_all() {
    let totals: Vec<u128> = vec![10, 30, 40, 50, 100];
    assert_eq!(binary_search_sorted(&totals, 0), 0);
    assert_eq!(binary_search_sorted(&totals, 9), 0);
    assert_eq!(binary_search_sorted(&totals, 101), 5);
    assert_eq!(binary_search_sorted(&totals, u128::MAX), 5);
}

#[test]
fn search_among_equal_entries_gives_the_first() {
    let totals: Vec<u128> = vec![10, 10, 10, 25, 25, 40];
    assert_eq!(binary_search_sorted(&totals, 10), 0);
    assert_eq!(binary_search_sorted(&totals, 25), 3);
    assert_eq!(binary_search_sorted(&totals, 26), 5);
    assert_eq!(binary_search_sorted(&totals, 40), 5);
}

#[test]
fn search_result_counts_the_entries_below() {
    let totals: Vec<u128> = vec![0, 0, 3, 7, 7, 7, 12, 90, 90, 1000];
    let mut x: u128 = 0;
    while x <= 1001 {
        let expected = totals.iter().filter(|entry| **entry < x).count();
        assert_eq!(binary_search_sorted(&totals, x), expected);
        x += 1;
    }
}

#[test]
fn search_single_entry() {
    let totals: Vec<u128> = vec![5];
    assert_eq!(binary_search_sorted(&totals, 4), 0);
    assert_eq!(binary_search_sorted(&totals, 5), 0);
    assert_eq!(binary_search_sorted(&totals, 6), 1);
}
