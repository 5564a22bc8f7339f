use hexview::cursor::{Boundary, Cursor, Direction, MoveOutcome, Selection};
use hexview::geometry::GridGeometry;

fn selected(c: &Cursor) -> Selection {
    c.selected.unwrap()
}

#[test]
fn right_from_last_column_wraps_to_next_row() {
    let g = GridGeometry::compute(100, 32);
    let mut c = Cursor::new();
    assert!(c.select(&g, 31));
    assert_eq!(selected(&c), Selection { offset: 31, row: 0, column: 31 });
    assert_eq!(c.move_right(&g), MoveOutcome::Moved);
    assert_eq!(selected(&c), Selection { offset: 32, row: 1, column: 0 });
}

#[test]
fn right_then_left_returns() {
    let g = GridGeometry::compute(100, 32);
    for offset in 0..99u64 {
        let mut c = Cursor::new();
        assert!(c.select(&g, offset));
        let before = c;
        assert_eq!(c.move_right(&g), MoveOutcome::Moved);
        assert_eq!(c.move_left(&g), MoveOutcome::Moved);
        assert_eq!(c, before);
    }
}

#[test]
fn left_from_first_column_goes_to_previous_row() {
    let g = GridGeometry::compute(100, 32);
    let mut c = Cursor::new();
    assert!(c.select(&g, 32));
    assert_eq!(c.move_left(&g), MoveOutcome::Moved);
    assert_eq!(selected(&c), Selection { offset: 31, row: 0, column: 31 });
}

#[test]
fn down_then_up_returns_when_not_clamped() {
    let g = GridGeometry::compute(100, 32);
    let mut c = Cursor::new();
    assert!(c.select(&g, 66));
    let before = c;
    assert_eq!(c.move_down(&g), MoveOutcome::Moved);
    assert_eq!(selected(&c), Selection { offset: 98, row: 3, column: 2 });
    assert_eq!(c.move_up(&g), MoveOutcome::Moved);
    assert_eq!(c, before);
}

#[test]
fn down_into_short_row_is_clamped() {
    let g = GridGeometry::compute(100, 32);
    let mut c = Cursor::new();
    assert!(c.select(&g, 70));
    assert_eq!(c.move_down(&g), MoveOutcome::Moved);
    assert_eq!(selected(&c), Selection { offset: 99, row: 3, column: 3 });
    assert_eq!(c.move_up(&g), MoveOutcome::Moved);
    assert_eq!(selected(&c), Selection { offset: 67, row: 2, column: 3 });
}

#[test]
fn boundaries_are_reported_and_keep_the_cursor() {
    let g = GridGeometry::compute(100, 32);
    let mut c = Cursor::new();
    assert!(c.select(&g, 0));
    assert_eq!(c.move_left(&g), MoveOutcome::Boundary(Boundary::StartOfFile));
    assert_eq!(c.move_up(&g), MoveOutcome::Boundary(Boundary::StartOfFile));
    assert_eq!(selected(&c).offset, 0);
    assert!(c.select(&g, 99));
    assert_eq!(c.move_right(&g), MoveOutcome::Boundary(Boundary::EndOfFile));
    assert_eq!(c.move_down(&g), MoveOutcome::Boundary(Boundary::EndOfFile));
    assert_eq!(selected(&c).offset, 99);
    assert!(c.select(&g, 70));
    assert_eq!(c.apply(&g, Direction::Up), MoveOutcome::Moved);
    assert_eq!(selected(&c).offset, 38);
}

#[test]
fn boundary_messages() {
    assert_eq!(Boundary::StartOfFile.message(), "Start of file");
    assert_eq!(Boundary::EndOfFile.message(), "End of file");
}

#[test]
fn selection_outside_file_is_refused() {
    let g = GridGeometry::compute(100, 32);
    let mut c = Cursor::new();
    assert!(!c.select(&g, 100));
    assert_eq!(c.selected, None);
    assert_eq!(c.move_right(&g), MoveOutcome::NoSelection);
}
