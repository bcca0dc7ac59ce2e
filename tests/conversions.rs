use grid_pos::pos::{Index, Pos, ToIndex, ToPos};

#[test]
fn index_to_pos_splits_by_width() {
    assert_eq!((4 as Index).to_pos(3), Pos::new(1, 1));
}

#[test]
fn pos_to_index_joins_by_width() {
    assert_eq!(Pos::new(1, 1).to_index(3), 4);
}

#[test]
fn first_row_in_wide_grid() {
    assert_eq!(Pos::new(0, 2).to_index(5), 2);
    assert_eq!((2 as Index).to_pos(5), Pos::new(0, 2));
}

#[test]
fn origin_in_any_width() {
    for width in [1u32, 2, 3, 17, u32::MAX] {
        assert_eq!((0 as Index).to_pos(width), Pos::new(0, 0));
    }
}

#[test]
fn pos_round_trip() {
    for width in [1u32, 2, 5, 10] {
        for row in 0..6u32 {
            for col in 0..width {
                let p = Pos::new(row, col);
                assert_eq!(p.to_index(width).to_pos(width), p);
            }
        }
    }
}

#[test]
fn index_round_trip() {
    for width in [1u32, 3, 7, 1000, u32::MAX] {
        for index in [0u32, 1, 2, 6, 7, 999, 1000, 12345, u32::MAX - 1, u32::MAX] {
            assert_eq!(index.to_pos(width).to_index(width), index);
        }
    }
}

#[test]
fn identity_conversions() {
    let p = Pos::new(9, 4);
    assert_eq!(p.to_pos(0), p);
    assert_eq!(p.to_pos(3), p);
    assert_eq!((42 as Index).to_index(0), 42);
    assert_eq!((42 as Index).to_index(5), 42);
}

#[test]
fn largest_index_in_unit_and_full_width() {
    assert_eq!(u32::MAX.to_pos(1), Pos::new(u32::MAX, 0));
    assert_eq!(u32::MAX.to_pos(u32::MAX), Pos::new(1, 0));
    assert_eq!(Pos::new(0, u32::MAX).to_index(1), u32::MAX);
}

#[test]
fn same_index_differs_across_widths() {
    assert_eq!((7 as Index).to_pos(2), Pos::new(3, 1));
    assert_eq!((7 as Index).to_pos(4), Pos::new(1, 3));
    assert_eq!(Pos::new(2, 1).to_index(4), 9);
    assert_eq!(Pos::new(2, 1).to_index(6), 13);
}

#[test]
fn new_keeps_fields() {
    let p = Pos::new(3, 8);
    assert_eq!(p.row, 3);
    assert_eq!(p.col, 8);
}
