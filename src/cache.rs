use std::collections::HashMap;
use vstd::prelude::*;

verus! {

broadcast use vstd::std_specs::hash::group_hash_axioms;

/// Number of cached rows above which the whole cache is dropped. A coarse bound
/// on memory: it trades the cost of reading rows again for simplicity.
pub const MAX_CACHED_ROWS: usize = 4048;

/// The cache contents after the size check made before each row is served:
/// empty when there are more than `MAX_CACHED_ROWS` rows, unchanged otherwise.
pub open spec fn spec_after_size_check(m: Map<u64, Vec<u8>>) -> Map<u64, Vec<u8>> {
    if m.len() > MAX_CACHED_ROWS {
        Map::empty()
    } else {
        m
    }
}

/// Bytes of rows already read, by row index. Entries are never changed once
/// stored; the cache is only ever emptied as a whole.
pub struct RowCache {
    rows: HashMap<u64, Vec<u8>>,
}

impl View for RowCache {
    type V = Map<u64, Vec<u8>>;

    closed spec fn view(&self) -> Map<u64, Vec<u8>> {
        self.rows@
    }
}

impl RowCache {
    /// An empty cache.
    pub fn new() -> (c: RowCache)
        ensures
            c@ == Map::<u64, Vec<u8>>::empty(),
    {
        RowCache { rows: HashMap::new() }
    }

    /// Number of cached rows.
    pub fn len(&self) -> (n: usize)
        ensures
            n == self@.len(),
    {
        self.rows.len()
    }

    /// The cached bytes of `row`, if it is cached.
    pub fn get(&self, row: u64) -> (r: Option<&Vec<u8>>)
        ensures
            match r {
                Some(v) => self@.contains_key(row) && *v == self@[row],
                None => !self@.contains_key(row),
            },
    {
        self.rows.get(&row)
    }

    /// Stores `bytes` as the contents of `row`, unless `row` is cached already, in
    /// which case the cache keeps what it had.
    pub fn insert(&mut self, row: u64, bytes: Vec<u8>)
        ensures
            final(self)@ == if old(self)@.contains_key(row) {
                old(self)@
            } else {
                old(self)@.insert(row, bytes)
            },
    {
        if !self.rows.contains_key(&row) {
            self.rows.insert(row, bytes);
        }
    }

    /// Empties the cache.
    pub fn clear(&mut self)
        ensures
            final(self)@ == Map::<u64, Vec<u8>>::empty(),
    {
        self.rows.clear();
    }

    /// Empties the cache when it holds more than `MAX_CACHED_ROWS` rows, and
    /// says whether it did.
    pub fn evict_if_full(&mut self) -> (evicted: bool)
        ensures
            evicted == (old(self)@.len() > MAX_CACHED_ROWS),
            final(self)@ == spec_after_size_check(old(self)@),
    {
        if self.rows.len() > MAX_CACHED_ROWS {
            self.rows.clear();
            true
        } else {
            false
        }
    }
}

} // verus!
