use graphic_playlist::geometry::{row_under, Vector2u, LABEL_INSET, MAX_ENTRIES, ROW_HEIGHT};

#[test]
fn rows_are_twenty_two_high_and_labels_four_in() {
    assert_eq!(ROW_HEIGHT, 22);
    assert_eq!(LABEL_INSET, 4);
    assert_eq!(MAX_ENTRIES, 1 << 56);
}

#[test]
fn vectors_compare_by_their_coordinates() {
    assert_eq!(Vector2u { x: 1, y: 2 }, Vector2u { x: 1, y: 2 });
    assert_ne!(Vector2u { x: 1, y: 2 }, Vector2u { x: 2, y: 1 });
}

#[test]
fn row_under_the_top_edge_is_the_first_shown() {
    assert_eq!(row_under(7, 7, 0), 0);
    assert_eq!(row_under(7, 7, 4), 4);
}

#[test]
fn row_under_changes_every_twenty_two_pixels() {
    assert_eq!(row_under(21, 0, 0), 0);
    assert_eq!(row_under(22, 0, 0), 1);
    assert_eq!(row_under(43, 0, 0), 1);
    assert_eq!(row_under(44, 0, 0), 2);
    assert_eq!(row_under(100 + 65, 100, 3), 5);
    assert_eq!(row_under(100 + 66, 100, 3), 6);
}

#[test]
fn row_under_rounds_down_above_the_top_edge() {
    assert_eq!(row_under(99, 100, 0), -1);
    assert_eq!(row_under(78, 100, 0), -1);
    assert_eq!(row_under(77, 100, 0), -2);
    assert_eq!(row_under(0, 100, 3), -2);
    assert_eq!(row_under(0, 110, 3), -2);
    assert_eq!(row_under(0, 111, 3), -3);
    assert_eq!(row_under(95, 100, 3), 2);
}

#[test]
fn row_under_spans_the_whole_pixel_range() {
    assert_eq!(row_under(u32::MAX, 0, 0), 195225786);
    assert_eq!(row_under(0, u32::MAX, 0), -195225787);
    assert_eq!(row_under(0, u32::MAX - 3, 0), -195225786);
}
