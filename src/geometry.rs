use vstd::arithmetic::div_mod::{lemma_fundamental_div_mod, lemma_fundamental_div_mod_converse};
use vstd::prelude::*;

verus! {

/// Number of rows that `total_len` bytes take, `column_count` bytes to a row.
pub open spec fn spec_row_count(total_len: nat, column_count: nat) -> nat
    recommends
        column_count > 0,
{
    if total_len % column_count == 0 {
        total_len / column_count
    } else {
        total_len / column_count + 1
    }
}

/// Row that holds the byte at `offset`.
pub open spec fn spec_row_of(offset: nat, column_count: nat) -> nat
    recommends
        column_count > 0,
{
    offset / column_count
}

/// Column that holds the byte at `offset`.
pub open spec fn spec_col_of(offset: nat, column_count: nat) -> nat
    recommends
        column_count > 0,
{
    offset % column_count
}

/// Byte offset of the cell at `row`, `col`.
pub open spec fn spec_offset_of(row: nat, col: nat, column_count: nat) -> nat {
    row * column_count + col
}

/// Layout of a file of `total_len` bytes as rows of `column_count` bytes.
/// The last row is shorter when `trailing_bytes_count` is not zero.
#[derive(Clone, Copy, Debug, PartialEq, Eq)]
pub struct GridGeometry {
    pub total_len: u64,
    pub column_count: usize,
    pub row_count: u64,
    pub trailing_bytes_count: usize,
}

impl GridGeometry {
    /// The derived fields agree with `total_len` and `column_count`.
    pub open spec fn wf(&self) -> bool {
        &&& self.column_count > 0
        &&& self.row_count == spec_row_count(self.total_len as nat, self.column_count as nat)
        &&& self.trailing_bytes_count == self.total_len % (self.column_count as u64)
    }

    /// Whether `row` is the short last row.
    pub open spec fn spec_is_trailing_row(&self, row: nat) -> bool {
        self.trailing_bytes_count != 0 && row + 1 == self.row_count
    }

    /// Number of bytes shown in `row`.
    pub open spec fn spec_row_len(&self, row: nat) -> nat {
        if self.spec_is_trailing_row(row) {
            self.trailing_bytes_count as nat
        } else {
            self.column_count as nat
        }
    }

    /// Offset of the first byte of `row`.
    pub open spec fn spec_row_start(&self, row: nat) -> nat {
        row * self.column_count as nat
    }

    /// Lays out `total_len` bytes in rows of `column_count`.
    pub fn compute(total_len: u64, column_count: usize) -> (g: GridGeometry)
        requires
            column_count > 0,
        ensures
            g.wf(),
            g.total_len == total_len,
            g.column_count == column_count,
    {
        let cc = column_count as u64;
        let full_rows: u64 = total_len / cc;
        proof {
            lemma_fundamental_div_mod(total_len as int, cc as int);
            assert(full_rows * cc <= total_len) by (nonlinear_arith)
                requires
                    total_len == cc * full_rows + total_len % cc,
                    total_len % cc >= 0,
            ;
        }
        let mut row_count: u64 = full_rows;
        let trailing_bytes_count: usize;
        if full_rows * cc != total_len {
            trailing_bytes_count = (total_len % cc) as usize;
            assert(full_rows < total_len) by (nonlinear_arith)
                requires
                    full_rows * cc < total_len,
                    cc >= 1,
            ;
            row_count = full_rows + 1;
        } else {
            trailing_bytes_count = 0;
        }
        GridGeometry { total_len, column_count, row_count, trailing_bytes_count }
    }

    /// Row of the byte at `offset`.
    pub fn row_of(&self, offset: u64) -> (r: u64)
        requires
            self.wf(),
        ensures
            r == spec_row_of(offset as nat, self.column_count as nat),
    {
        offset / (self.column_count as u64)
    }

    /// Column of the byte at `offset`.
    pub fn col_of(&self, offset: u64) -> (c: usize)
        requires
            self.wf(),
        ensures
            c == spec_col_of(offset as nat, self.column_count as nat),
            c < self.column_count,
    {
        (offset % (self.column_count as u64)) as usize
    }

    /// Offset of the cell at `row`, `col`, defined while it lies inside the file.
    pub fn offset_of(&self, row: u64, col: usize) -> (o: u64)
        requires
            self.wf(),
            spec_offset_of(row as nat, col as nat, self.column_count as nat) < self.total_len,
        ensures
            o == spec_offset_of(row as nat, col as nat, self.column_count as nat),
    {
        proof {
            assert(row * self.column_count <= row * self.column_count + col) by (nonlinear_arith);
        }
        row * (self.column_count as u64) + (col as u64)
    }

    /// Offset of the first byte of `row`.
    pub fn row_start(&self, row: u64) -> (o: u64)
        requires
            self.wf(),
            row < self.row_count,
        ensures
            o == self.spec_row_start(row as nat),
            o < self.total_len,
            o + self.spec_row_len(row as nat) <= self.total_len,
    {
        proof {
            self.lemma_row_within_file(row as nat);
        }
        row * (self.column_count as u64)
    }

    /// Number of bytes in `row`: a full row, or the trailing bytes on the short last row.
    pub fn row_len(&self, row: u64) -> (n: usize)
        requires
            self.wf(),
            row < self.row_count,
        ensures
            n == self.spec_row_len(row as nat),
            0 < n <= self.column_count,
    {
        proof {
            self.lemma_row_within_file(row as nat);
        }
        if self.trailing_bytes_count != 0 && row == self.row_count - 1 {
            self.trailing_bytes_count
        } else {
            self.column_count
        }
    }

    /// Every row starts inside the file and ends at or before its end.
    pub proof fn lemma_row_within_file(&self, row: nat)
        requires
            self.wf(),
            row < self.row_count,
        ensures
            self.spec_row_start(row) < self.total_len,
            self.spec_row_start(row) + self.spec_row_len(row) <= self.total_len,
            0 < self.spec_row_len(row) <= self.column_count,
            self.trailing_bytes_count < self.column_count,
            self.spec_is_trailing_row(row) ==> self.spec_row_start(row) + self.spec_row_len(row)
                == self.total_len,
    {
        let cc = self.column_count as int;
        let t = self.total_len as int;
        lemma_fundamental_div_mod(t, cc);
        let q = t / cc;
        let m = t % cc;
        let r = row as int;
        if self.spec_is_trailing_row(row) {
            assert(r == q);
            assert(r * cc + m == t) by (nonlinear_arith)
                requires
                    r == q,
                    t == cc * q + m,
            ;
        } else {
            assert(r + 1 <= q);
            assert(r * cc + cc <= t) by (nonlinear_arith)
                requires
                    r + 1 <= q,
                    t == cc * q + m,
                    m >= 0,
                    cc > 0,
            ;
        }
    }
}

/// The rows of a computed geometry cover the file with less than one row to spare:
/// when there are trailing bytes, the spare cells number `column_count` less those
/// bytes; otherwise the rows hold the file exactly.
pub proof fn lemma_rows_cover_file(g: GridGeometry)
    requires
        g.wf(),
    ensures
        g.row_count * g.column_count >= g.total_len,
        g.row_count * g.column_count - g.total_len < g.column_count,
        g.trailing_bytes_count != 0 ==> g.row_count * g.column_count - g.total_len == (
        g.column_count - g.trailing_bytes_count) % (g.column_count as int),
        g.trailing_bytes_count == 0 ==> g.row_count * g.column_count == g.total_len,
{
    let cc = g.column_count as int;
    let t = g.total_len as int;
    lemma_fundamental_div_mod(t, cc);
    let q = t / cc;
    let m = t % cc;
    let rows = g.row_count as int;
    assert(m == g.trailing_bytes_count);
    if m == 0 {
        assert(rows * cc == t) by (nonlinear_arith)
            requires
                rows == q,
                t == cc * q + m,
                m == 0,
        ;
    } else {
        assert(rows * cc == t + (cc - m)) by (nonlinear_arith)
            requires
                rows == q + 1,
                t == cc * q + m,
        ;
        lemma_fundamental_div_mod_converse(cc - m, cc, 0, cc - m);
    }
}

/// Splitting an offset inside the file into row and column and joining them
/// again gives back the offset.
pub proof fn lemma_offset_round_trip(g: GridGeometry, offset: u64)
    requires
        g.wf(),
        offset < g.total_len,
    ensures
        spec_offset_of(
            spec_row_of(offset as nat, g.column_count as nat),
            spec_col_of(offset as nat, g.column_count as nat),
            g.column_count as nat,
        ) == offset,
{
    lemma_fundamental_div_mod(offset as int, g.column_count as int);
    let q = offset as int / g.column_count as int;
    assert(q * g.column_count == g.column_count * q) by (nonlinear_arith);
}

} // verus!
