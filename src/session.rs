use crate::cache::{spec_after_size_check, RowCache, MAX_CACHED_ROWS};
use crate::cursor::{Cursor, Direction, MoveOutcome, Selection, spec_selection_at};
use crate::geometry::{spec_row_count, GridGeometry};
use crate::source::ReadError;
use vstd::prelude::*;

verus! {

/// What serving a row needs: nothing, or a read of `len` bytes at `offset`.
#[derive(Clone, Copy, Debug, PartialEq, Eq)]
pub enum RowFetch {
    Cached,
    Read { offset: u64, len: usize },
}

/// How a row is served from a cache holding `cached`: from the cache, or by
/// reading the row's bytes from the file.
pub open spec fn spec_fetch(g: GridGeometry, cached: Map<u64, Vec<u8>>, row: u64) -> RowFetch {
    if cached.contains_key(row) {
        RowFetch::Cached
    } else {
        RowFetch::Read {
            offset: g.spec_row_start(row as nat) as u64,
            len: g.spec_row_len(row as nat) as usize,
        }
    }
}

/// The geometry of a file of `total_len` bytes shown `column_count` to a row.
pub open spec fn spec_geometry(total_len: u64, column_count: usize) -> GridGeometry {
    GridGeometry {
        total_len,
        column_count,
        row_count: spec_row_count(total_len as nat, column_count as nat) as u64,
        trailing_bytes_count: (total_len % (column_count as u64)) as usize,
    }
}

/// The state of the viewer for one file: its layout, the rows read so far and
/// the selected byte. They are set and cleared together.
pub struct Session {
    column_count: usize,
    geometry: Option<GridGeometry>,
    cache: RowCache,
    cursor: Cursor,
}

impl Session {
    /// Bytes shown per row.
    pub closed spec fn spec_column_count(&self) -> usize {
        self.column_count
    }

    /// Layout of the loaded file; none while no file is loaded.
    pub closed spec fn spec_geometry(&self) -> Option<GridGeometry> {
        self.geometry
    }

    /// Rows read so far, by index.
    pub closed spec fn spec_cached(&self) -> Map<u64, Vec<u8>> {
        self.cache@
    }

    /// The selected byte, if any.
    pub closed spec fn spec_cursor(&self) -> Cursor {
        self.cursor
    }

    /// The session holds either no file, with nothing cached or selected, or a
    /// file whose layout, cached rows and selection agree with one another.
    pub closed spec fn wf(&self) -> bool {
        &&& self.column_count > 0
        &&& match self.geometry {
            None => self.cursor.selected is None && self.cache@ == Map::<u64, Vec<u8>>::empty(),
            Some(g) => {
                &&& g.wf()
                &&& g.column_count == self.column_count
                &&& self.cursor.wf(g)
                &&& forall|k: u64| #[trigger]
                    self.cache@.contains_key(k) ==> k < g.row_count && self.cache@[k]@.len()
                        == g.spec_row_len(k as nat)
            },
        }
    }

    /// The session without a file.
    pub open spec fn spec_is_empty(&self) -> bool {
        &&& self.spec_geometry() is None
        &&& self.spec_cursor().selected is None
        &&& self.spec_cached() == Map::<u64, Vec<u8>>::empty()
    }

    /// A session with no file, showing `column_count` bytes per row.
    pub fn new(column_count: usize) -> (s: Session)
        requires
            column_count > 0,
        ensures
            s.wf(),
            s.spec_column_count() == column_count,
            s.spec_is_empty(),
    {
        Session { column_count, geometry: None, cache: RowCache::new(), cursor: Cursor::new() }
    }

    /// Bytes shown per row.
    pub fn column_count(&self) -> (n: usize)
        ensures
            n == self.spec_column_count(),
    {
        self.column_count
    }

    /// Layout of the loaded file, if one is loaded.
    pub fn geometry(&self) -> (g: Option<GridGeometry>)
        ensures
            g == self.spec_geometry(),
    {
        self.geometry
    }

    /// The selected byte, if any.
    pub fn selection(&self) -> (s: Option<Selection>)
        ensures
            s == self.spec_cursor().selected,
    {
        self.cursor.selected
    }

    /// Replaces whatever was loaded by a file of `total_len` bytes: a new layout,
    /// an empty cache and no selection.
    pub fn load(&mut self, total_len: u64)
        requires
            old(self).wf(),
        ensures
            final(self).wf(),
            final(self).spec_column_count() == old(self).spec_column_count(),
            final(self).spec_geometry() == Some(
                spec_geometry(total_len, old(self).spec_column_count()),
            ),
            final(self).spec_cursor().selected is None,
            final(self).spec_cached() == Map::<u64, Vec<u8>>::empty(),
    {
        let g = GridGeometry::compute(total_len, self.column_count);
        self.geometry = Some(g);
        self.cache.clear();
        self.cursor = Cursor::new();
    }

    /// Drops the loaded file with its cached rows and its selection.
    pub fn clear(&mut self)
        requires
            old(self).wf(),
        ensures
            final(self).wf(),
            final(self).spec_column_count() == old(self).spec_column_count(),
            final(self).spec_is_empty(),
    {
        self.geometry = None;
        self.cache.clear();
        self.cursor = Cursor::new();
    }

    /// Selects the byte at `offset` when a file is loaded and the offset lies in
    /// it; otherwise nothing changes and `false` comes back.
    pub fn select(&mut self, offset: u64) -> (ok: bool)
        requires
            old(self).wf(),
        ensures
            final(self).wf(),
            ok == (old(self).spec_geometry() is Some && offset
                < old(self).spec_geometry()->Some_0.total_len),
            final(self).spec_column_count() == old(self).spec_column_count(),
            final(self).spec_geometry() == old(self).spec_geometry(),
            final(self).spec_cached() == old(self).spec_cached(),
            ok ==> final(self).spec_cursor().selected == Some(
                spec_selection_at(old(self).spec_geometry()->Some_0, offset),
            ),
            !ok ==> final(self).spec_cursor() == old(self).spec_cursor(),
    {
        match self.geometry {
            Some(g) => self.cursor.select(&g, offset),
            None => false,
        }
    }

    /// Applies one arrow-key movement. Without a file, or without a selection,
    /// nothing happens and `NoSelection` comes back.
    pub fn navigate(&mut self, d: Direction) -> (r: MoveOutcome)
        requires
            old(self).wf(),
        ensures
            final(self).wf(),
            final(self).spec_column_count() == old(self).spec_column_count(),
            final(self).spec_geometry() == old(self).spec_geometry(),
            final(self).spec_cached() == old(self).spec_cached(),
            match old(self).spec_geometry() {
                Some(g) => Cursor::spec_moved(
                    old(self).spec_cursor(),
                    final(self).spec_cursor(),
                    g,
                    d,
                    r,
                ),
                None => final(self).spec_cursor() == old(self).spec_cursor() && r
                    == MoveOutcome::NoSelection,
            },
    {
        match self.geometry {
            Some(g) => self.cursor.apply(&g, d),
            None => MoveOutcome::NoSelection,
        }
    }

    /// Starts serving `row`: first empties the cache if it has grown past
    /// `MAX_CACHED_ROWS`, then says whether the row is cached or which bytes
    /// must be read for it. The check comes first, so a row is never dropped by
    /// its own insertion.
    pub fn begin_row(&mut self, row: u64) -> (r: RowFetch)
        requires
            old(self).wf(),
            old(self).spec_geometry() is Some,
            row < old(self).spec_geometry()->Some_0.row_count,
        ensures
            final(self).wf(),
            final(self).spec_column_count() == old(self).spec_column_count(),
            final(self).spec_geometry() == old(self).spec_geometry(),
            final(self).spec_cursor() == old(self).spec_cursor(),
            final(self).spec_cached() == spec_after_size_check(old(self).spec_cached()),
            r == spec_fetch(old(self).spec_geometry()->Some_0, final(self).spec_cached(), row),
    {
        let g = self.geometry.unwrap();
        self.cache.evict_if_full();
        match self.cache.get(row) {
            Some(_) => RowFetch::Cached,
            None => RowFetch::Read { offset: g.row_start(row), len: g.row_len(row) },
        }
    }

    /// Finishes serving `row` with the outcome of reading it. Bytes of the row's
    /// length are cached; a failed read, or bytes of another length, tear the
    /// whole session down and the error comes back.
    pub fn finish_row(&mut self, row: u64, read: Result<Vec<u8>, ReadError>) -> (r: Result<
        (),
        ReadError,
    >)
        requires
            old(self).wf(),
            old(self).spec_geometry() is Some,
            row < old(self).spec_geometry()->Some_0.row_count,
        ensures
            final(self).wf(),
            final(self).spec_column_count() == old(self).spec_column_count(),
            ({
                let g = old(self).spec_geometry()->Some_0;
                match read {
                    Ok(bytes) => if bytes@.len() == g.spec_row_len(row as nat) {
                        &&& r is Ok
                        &&& final(self).spec_geometry() == old(self).spec_geometry()
                        &&& final(self).spec_cursor() == old(self).spec_cursor()
                        &&& final(self).spec_cached() == if old(self).spec_cached().contains_key(
                            row,
                        ) {
                            old(self).spec_cached()
                        } else {
                            old(self).spec_cached().insert(row, bytes)
                        }
                    } else {
                        r == Err::<(), ReadError>(ReadError::Io) && final(self).spec_is_empty()
                    },
                    Err(e) => r == Err::<(), ReadError>(e) && final(self).spec_is_empty(),
                }
            }),
    {
        let g = self.geometry.unwrap();
        match read {
            Ok(bytes) => {
                if bytes.len() == g.row_len(row) {
                    self.cache.insert(row, bytes);
                    Ok(())
                } else {
                    self.clear();
                    Err(ReadError::Io)
                }
            },
            Err(e) => {
                self.clear();
                Err(e)
            },
        }
    }

    /// The cached bytes of `row`, if they are cached.
    pub fn cached_row(&self, row: u64) -> (r: Option<&Vec<u8>>)
        ensures
            match r {
                Some(v) => self.spec_cached().contains_key(row) && *v == self.spec_cached()[row],
                None => !self.spec_cached().contains_key(row),
            },
    {
        self.cache.get(row)
    }

    /// Number of cached rows.
    pub fn cached_row_count(&self) -> (n: usize)
        ensures
            n == self.spec_cached().len(),
    {
        self.cache.len()
    }
}

/// Once more than `MAX_CACHED_ROWS` distinct rows are cached, serving any row,
/// one of them included, needs a fresh read of it rather than a cache hit.
pub proof fn lemma_full_cache_reads_again(g: GridGeometry, cached: Map<u64, Vec<u8>>, row: u64)
    requires
        g.wf(),
        row < g.row_count,
        cached.len() > MAX_CACHED_ROWS,
    ensures
        spec_fetch(g, spec_after_size_check(cached), row) == (RowFetch::Read {
            offset: g.spec_row_start(row as nat) as u64,
            len: g.spec_row_len(row as nat) as usize,
        }),
{
}

} // verus!
