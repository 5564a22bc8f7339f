use hexview::geometry::GridGeometry;

#[test]
fn file_with_trailing_row() {
    let g = GridGeometry::compute(100, 32);
    assert_eq!(g.row_count, 4);
    assert_eq!(g.trailing_bytes_count, 4);
    assert_eq!(g.row_len(3), 4);
    assert_eq!(g.row_len(2), 32);
    assert_eq!(g.row_start(3), 96);
}

#[test]
fn file_of_whole_rows() {
    let g = GridGeometry::compute(64, 32);
    assert_eq!(g.row_count, 2);
    assert_eq!(g.trailing_bytes_count, 0);
    assert_eq!(g.row_len(0), 32);
    assert_eq!(g.row_len(1), 32);
}

#[test]
fn empty_file_has_no_rows() {
    let g = GridGeometry::compute(0, 32);
    assert_eq!(g.row_count, 0);
    assert_eq!(g.trailing_bytes_count, 0);
}

#[test]
fn single_byte_file() {
    let g = GridGeometry::compute(1, 32);
    assert_eq!(g.row_count, 1);
    assert_eq!(g.trailing_bytes_count, 1);
    assert_eq!(g.row_len(0), 1);
}

#[test]
fn rows_cover_file_with_less_than_a_row_spare() {
    for &(len, cc) in &[(100u64, 32usize), (64, 32), (1, 16), (17, 16), (31, 8), (5, 1)] {
        let g = GridGeometry::compute(len, cc);
        let cells = g.row_count * cc as u64;
        assert!(cells >= len);
        assert!(cells - len < cc as u64);
        if g.trailing_bytes_count != 0 {
            assert_eq!(cells - len, ((cc - g.trailing_bytes_count) % cc) as u64);
        } else {
            assert_eq!(cells, len);
        }
    }
}

#[test]
fn offset_round_trip() {
    let g = GridGeometry::compute(100, 32);
    for offset in 0..100u64 {
        let row = g.row_of(offset);
        let col = g.col_of(offset);
        assert_eq!(g.offset_of(row, col), offset);
    }
    assert_eq!(g.row_of(33), 1);
    assert_eq!(g.col_of(33), 1);
    assert_eq!(g.offset_of(3, 3), 99);
}

#[test]
fn largest_file_length() {
    let g = GridGeometry::compute(u64::MAX, 16);
    assert_eq!(g.row_count, u64::MAX / 16 + 1);
    assert_eq!(g.trailing_bytes_count, 15);
    assert_eq!(g.row_len(g.row_count - 1), 15);
}
