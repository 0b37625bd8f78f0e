use spin_factors::lookup::{first_position, first_positions2};

#[test]
fn first_position_finds_first_match() {
    let ids = vec![7u64, 3, 7, 9];
    assert_eq!(first_position(&ids, 7), Some(0));
    assert_eq!(first_position(&ids, 9), Some(3));
    assert_eq!(first_position(&ids, 4), None);
}

#[test]
fn first_positions2_needs_two_different_factors() {
    let ids = vec![4u64, 5, 4];
    assert_eq!(first_positions2(&ids, 4, 5), Some((0, 1)));
    assert_eq!(first_positions2(&ids, 5, 4), Some((1, 0)));
    assert_eq!(first_positions2(&ids, 4, 4), None);
    assert_eq!(first_positions2(&ids, 4, 6), None);
}
