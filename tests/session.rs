use hexview::cache::{RowCache, MAX_CACHED_ROWS};
use hexview::cursor::{Direction, MoveOutcome, Selection};
use hexview::session::{RowFetch, Session};
use hexview::source::{
    check_dropped_item, check_read_range, display_char, display_text, drop_plan, DropPlan,
    OpenError, ReadError,
};

/// Serves `row` from `file`, reading on a miss; counts the reads.
fn serve(s: &mut Session, file: &[u8], row: u64, reads: &mut usize) -> Result<Vec<u8>, ReadError> {
    if let RowFetch::Read { offset, len } = s.begin_row(row) {
        *reads += 1;
        let start = offset as usize;
        let bytes = file[start..start + len].to_vec();
        s.finish_row(row, Ok(bytes))?;
    }
    Ok(s.cached_row(row).unwrap().clone())
}

#[test]
fn rows_are_read_once_then_cached() {
    let file: Vec<u8> = (0..100u8).collect();
    let mut s = Session::new(32);
    s.load(100);
    let mut reads = 0;
    assert_eq!(serve(&mut s, &file, 3, &mut reads).unwrap(), vec![96, 97, 98, 99]);
    assert_eq!(serve(&mut s, &file, 0, &mut reads).unwrap(), (0..32u8).collect::<Vec<u8>>());
    assert_eq!(reads, 2);
    serve(&mut s, &file, 3, &mut reads).unwrap();
    assert_eq!(reads, 2);
    assert_eq!(s.cached_row_count(), 2);
}

#[test]
fn full_cache_is_dropped_and_rows_read_again() {
    let total = (MAX_CACHED_ROWS as u64 + 2) * 2;
    let file = vec![7u8; total as usize];
    let mut s = Session::new(2);
    s.load(total);
    let mut reads = 0;
    for row in 0..(MAX_CACHED_ROWS as u64 + 1) {
        serve(&mut s, &file, row, &mut reads).unwrap();
    }
    assert_eq!(reads, MAX_CACHED_ROWS + 1);
    assert_eq!(s.cached_row_count(), MAX_CACHED_ROWS + 1);
    serve(&mut s, &file, 0, &mut reads).unwrap();
    assert_eq!(reads, MAX_CACHED_ROWS + 2);
    assert_eq!(s.cached_row_count(), 1);
}

#[test]
fn read_failure_tears_the_session_down() {
    let mut s = Session::new(32);
    s.load(100);
    assert!(s.select(5));
    assert_eq!(s.begin_row(1), RowFetch::Read { offset: 32, len: 32 });
    assert_eq!(s.finish_row(1, Err(ReadError::Io)), Err(ReadError::Io));
    assert_eq!(s.geometry(), None);
    assert_eq!(s.selection(), None);
    assert_eq!(s.cached_row_count(), 0);
}

#[test]
fn short_read_tears_the_session_down() {
    let mut s = Session::new(32);
    s.load(100);
    assert_eq!(s.begin_row(3), RowFetch::Read { offset: 96, len: 4 });
    assert_eq!(s.finish_row(3, Ok(vec![1, 2, 3])), Err(ReadError::Io));
    assert_eq!(s.geometry(), None);
}

#[test]
fn out_of_range_read_error_is_passed_on() {
    let mut s = Session::new(32);
    s.load(100);
    assert_eq!(s.finish_row(0, Err(ReadError::OutOfRange)), Err(ReadError::OutOfRange));
    assert_eq!(s.geometry(), None);
}

#[test]
fn empty_file_allows_no_selection() {
    let mut s = Session::new(32);
    s.load(0);
    assert_eq!(s.geometry().unwrap().row_count, 0);
    assert!(!s.select(0));
    for d in [Direction::Left, Direction::Right, Direction::Up, Direction::Down] {
        assert_eq!(s.navigate(d), MoveOutcome::NoSelection);
    }
    assert_eq!(s.selection(), None);
}

#[test]
fn navigation_through_the_session() {
    let mut s = Session::new(32);
    assert_eq!(s.navigate(Direction::Right), MoveOutcome::NoSelection);
    assert!(!s.select(0));
    s.load(64);
    assert!(s.select(31));
    assert_eq!(s.navigate(Direction::Right), MoveOutcome::Moved);
    assert_eq!(s.selection(), Some(Selection { offset: 32, row: 1, column: 0 }));
}

#[test]
fn loading_replaces_everything() {
    let file = vec![0u8; 100];
    let mut s = Session::new(32);
    s.load(100);
    let mut reads = 0;
    serve(&mut s, &file, 0, &mut reads).unwrap();
    assert!(s.select(99));
    s.load(10);
    assert_eq!(s.cached_row_count(), 0);
    assert_eq!(s.selection(), None);
    assert_eq!(s.geometry().unwrap().row_count, 1);
    assert_eq!(s.column_count(), 32);
    s.clear();
    assert_eq!(s.geometry(), None);
}

#[test]
fn cache_entries_are_kept() {
    let mut c = RowCache::new();
    c.insert(4, vec![1, 2]);
    c.insert(4, vec![3]);
    assert_eq!(c.get(4), Some(&vec![1, 2]));
    assert_eq!(c.get(5), None);
    assert!(!c.evict_if_full());
    assert_eq!(c.len(), 1);
    c.clear();
    assert_eq!(c.len(), 0);
}

#[test]
fn read_range_checks() {
    assert_eq!(check_read_range(100, 96, 4), Ok(()));
    assert_eq!(check_read_range(100, 96, 5), Err(ReadError::OutOfRange));
    assert_eq!(check_read_range(100, 101, 0), Err(ReadError::OutOfRange));
    assert_eq!(check_read_range(u64::MAX, u64::MAX - 1, 2), Err(ReadError::OutOfRange));
}

#[test]
fn dropped_item_checks() {
    assert_eq!(check_dropped_item(true, true), Err(OpenError::IsDirectory));
    assert_eq!(check_dropped_item(true, false), Err(OpenError::IsDirectory));
    assert_eq!(check_dropped_item(false, false), Err(OpenError::NonUtf8Name));
    assert_eq!(check_dropped_item(false, true), Ok(()));
    assert_eq!(drop_plan(0), DropPlan::Nothing);
    assert_eq!(drop_plan(1), DropPlan::Single);
    assert_eq!(drop_plan(3), DropPlan::FirstOfMany);
}

#[test]
fn printable_characters() {
    assert_eq!(display_char(b'A'), 'A');
    assert_eq!(display_char(b' '), ' ');
    assert_eq!(display_char(b'~'), '~');
    assert_eq!(display_char(0x7f), '.');
    assert_eq!(display_char(0x0a), '.');
    assert_eq!(display_char(0xe9), '.');
    assert_eq!(display_text(&vec![b'h', 0, b'i', 0xff]), vec!['h', '.', 'i', '.']);
}
