use crate::geometry::{spec_col_of, spec_row_of, GridGeometry};
use vstd::arithmetic::div_mod::{lemma_fundamental_div_mod, lemma_fundamental_div_mod_converse};
use vstd::prelude::*;

verus! {

/// An arrow-key movement of the cursor.
#[derive(Clone, Copy, Debug, PartialEq, Eq)]
pub enum Direction {
    Left,
    Right,
    Up,
    Down,
}

/// The edge of the file that a refused movement ran into.
#[derive(Clone, Copy, Debug, PartialEq, Eq)]
pub enum Boundary {
    StartOfFile,
    EndOfFile,
}

impl Boundary {
    /// Text of the notice shown when a movement stops at this edge.
    pub fn message(&self) -> (m: &'static str)
        ensures
            m@ == (match self {
                Boundary::StartOfFile => "Start of file"@,
                Boundary::EndOfFile => "End of file"@,
            }),
    {
        match self {
            Boundary::StartOfFile => "Start of file",
            Boundary::EndOfFile => "End of file",
        }
    }
}

/// What a movement command did.
#[derive(Clone, Copy, Debug, PartialEq, Eq)]
pub enum MoveOutcome {
    /// The cursor moved.
    Moved,
    /// The cursor stayed put because it is at an edge; the user is told.
    Boundary(Boundary),
    /// Nothing is selected, so there is nothing to move and nothing to tell.
    NoSelection,
}

/// The selected byte: its offset and the row and column derived from it.
#[derive(Clone, Copy, Debug, PartialEq, Eq)]
pub struct Selection {
    pub offset: u64,
    pub row: u64,
    pub column: usize,
}

/// The selection of the byte at `offset`.
pub open spec fn spec_selection_at(g: GridGeometry, offset: u64) -> Selection {
    Selection {
        offset,
        row: spec_row_of(offset as nat, g.column_count as nat) as u64,
        column: spec_col_of(offset as nat, g.column_count as nat) as usize,
    }
}

/// Where a movement from `offset` leads, or the edge that stops it.
/// Moving down from the row above a short last row lands on the file's last byte
/// when the column does not exist there.
pub open spec fn spec_step(g: GridGeometry, offset: u64, d: Direction) -> Result<u64, Boundary> {
    let cc = g.column_count as nat;
    match d {
        Direction::Right => if offset + 1 == g.total_len {
            Err(Boundary::EndOfFile)
        } else {
            Ok((offset + 1) as u64)
        },
        Direction::Left => if offset == 0 {
            Err(Boundary::StartOfFile)
        } else {
            Ok((offset - 1) as u64)
        },
        Direction::Up => if spec_row_of(offset as nat, cc) == 0 {
            Err(Boundary::StartOfFile)
        } else {
            Ok((offset - cc) as u64)
        },
        Direction::Down => if spec_row_of(offset as nat, cc) + 1 == g.row_count {
            Err(Boundary::EndOfFile)
        } else if offset + cc < g.total_len {
            Ok((offset + cc) as u64)
        } else {
            Ok((g.total_len - 1) as u64)
        },
    }
}

/// Computes `spec_step` for a selected offset.
pub fn step(g: &GridGeometry, offset: u64, d: Direction) -> (r: Result<u64, Boundary>)
    requires
        g.wf(),
        offset < g.total_len,
    ensures
        r == spec_step(*g, offset, d),
        r is Ok ==> r->Ok_0 < g.total_len,
{
    let cc = g.column_count as u64;
    proof {
        lemma_fundamental_div_mod(offset as int, cc as int);
        lemma_row_of_offset_below_row_count(*g, offset);
    }
    match d {
        Direction::Right => {
            if offset + 1 == g.total_len {
                Err(Boundary::EndOfFile)
            } else {
                Ok(offset + 1)
            }
        },
        Direction::Left => {
            if offset == 0 {
                Err(Boundary::StartOfFile)
            } else {
                Ok(offset - 1)
            }
        },
        Direction::Up => {
            let row = offset / cc;
            if row == 0 {
                Err(Boundary::StartOfFile)
            } else {
                assert(cc <= offset) by (nonlinear_arith)
                    requires
                        offset == cc * row + offset % cc,
                        row >= 1,
                        offset % cc >= 0,
                        cc > 0,
                ;
                Ok(offset - cc)
            }
        },
        Direction::Down => {
            let row = offset / cc;
            if row + 1 == g.row_count {
                Err(Boundary::EndOfFile)
            } else if cc < g.total_len - offset {
                Ok(offset + cc)
            } else {
                Ok(g.total_len - 1)
            }
        },
    }
}

/// The row of any byte of the file is one of its rows.
pub proof fn lemma_row_of_offset_below_row_count(g: GridGeometry, offset: u64)
    requires
        g.wf(),
        offset < g.total_len,
    ensures
        spec_row_of(offset as nat, g.column_count as nat) < g.row_count,
{
    let cc = g.column_count as int;
    let t = g.total_len as int;
    let o = offset as int;
    lemma_fundamental_div_mod(t, cc);
    lemma_fundamental_div_mod(o, cc);
    let q = t / cc;
    let r = o / cc;
    if r > q {
        assert(o >= t) by (nonlinear_arith)
            requires
                r >= q + 1,
                o == cc * r + o % cc,
                t == cc * q + t % cc,
                o % cc >= 0,
                t % cc < cc,
        ;
    }
    if r == q && t % cc == 0 {
        assert(o >= t) by (nonlinear_arith)
            requires
                r == q,
                o == cc * r + o % cc,
                t == cc * q + t % cc,
                t % cc == 0,
                o % cc >= 0,
        ;
    }
}

/// The selected byte, if any, for a loaded file.
#[derive(Clone, Copy, Debug, PartialEq, Eq)]
pub struct Cursor {
    pub selected: Option<Selection>,
}

impl Cursor {
    /// A selection, when present, lies inside the file and its row and column
    /// are those of its offset.
    pub open spec fn wf(&self, g: GridGeometry) -> bool {
        match self.selected {
            Some(s) => s.offset < g.total_len && s == spec_selection_at(g, s.offset),
            None => true,
        }
    }

    /// The selected offset.
    pub open spec fn spec_offset(&self) -> Option<u64> {
        match self.selected {
            Some(s) => Some(s.offset),
            None => None,
        }
    }

    /// `new` is the cursor after a movement `d` from `old` that reported `r`.
    pub open spec fn spec_moved(
        old: Cursor,
        new: Cursor,
        g: GridGeometry,
        d: Direction,
        r: MoveOutcome,
    ) -> bool {
        match old.selected {
            None => new == old && r == MoveOutcome::NoSelection,
            Some(s) => match spec_step(g, s.offset, d) {
                Ok(n) => new.selected == Some(spec_selection_at(g, n)) && r == MoveOutcome::Moved,
                Err(b) => new == old && r == MoveOutcome::Boundary(b),
            },
        }
    }

    /// A cursor with nothing selected.
    pub fn new() -> (c: Cursor)
        ensures
            c.selected is None,
    {
        Cursor { selected: None }
    }

    /// Selects the byte at `offset` when it lies inside the file; otherwise the
    /// cursor is left as it was and `false` comes back.
    pub fn select(&mut self, g: &GridGeometry, offset: u64) -> (ok: bool)
        requires
            g.wf(),
            old(self).wf(*g),
        ensures
            ok == (offset < g.total_len),
            final(self).wf(*g),
            ok ==> final(self).selected == Some(spec_selection_at(*g, offset)),
            !ok ==> *final(self) == *old(self),
    {
        if offset < g.total_len {
            self.selected = Some(selection_at(g, offset));
            true
        } else {
            false
        }
    }

    /// Applies the movement `d` to the selection.
    pub fn apply(&mut self, g: &GridGeometry, d: Direction) -> (r: MoveOutcome)
        requires
            g.wf(),
            old(self).wf(*g),
        ensures
            final(self).wf(*g),
            Cursor::spec_moved(*old(self), *final(self), *g, d, r),
    {
        match self.selected {
            None => MoveOutcome::NoSelection,
            Some(s) => match step(g, s.offset, d) {
                Ok(n) => {
                    self.selected = Some(selection_at(g, n));
                    MoveOutcome::Moved
                },
                Err(b) => MoveOutcome::Boundary(b),
            },
        }
    }

    /// Moves one byte right, onto the next row after the last column.
    pub fn move_right(&mut self, g: &GridGeometry) -> (r: MoveOutcome)
        requires
            g.wf(),
            old(self).wf(*g),
        ensures
            final(self).wf(*g),
            Cursor::spec_moved(*old(self), *final(self), *g, Direction::Right, r),
    {
        self.apply(g, Direction::Right)
    }

    /// Moves one byte left, onto the previous row before the first column.
    pub fn move_left(&mut self, g: &GridGeometry) -> (r: MoveOutcome)
        requires
            g.wf(),
            old(self).wf(*g),
        ensures
            final(self).wf(*g),
            Cursor::spec_moved(*old(self), *final(self), *g, Direction::Left, r),
    {
        self.apply(g, Direction::Left)
    }

    /// Moves one row up, keeping the column.
    pub fn move_up(&mut self, g: &GridGeometry) -> (r: MoveOutcome)
        requires
            g.wf(),
            old(self).wf(*g),
        ensures
            final(self).wf(*g),
            Cursor::spec_moved(*old(self), *final(self), *g, Direction::Up, r),
    {
        self.apply(g, Direction::Up)
    }

    /// Moves one row down, stopping at the last byte of a short last row.
    pub fn move_down(&mut self, g: &GridGeometry) -> (r: MoveOutcome)
        requires
            g.wf(),
            old(self).wf(*g),
        ensures
            final(self).wf(*g),
            Cursor::spec_moved(*old(self), *final(self), *g, Direction::Down, r),
    {
        self.apply(g, Direction::Down)
    }
}

/// A movement right that moved, followed by a movement left, brings the cursor
/// back to the byte, row and column it started from.
pub proof fn lemma_right_then_left(
    g: GridGeometry,
    c0: Cursor,
    c1: Cursor,
    c2: Cursor,
    r1: MoveOutcome,
    r2: MoveOutcome,
)
    requires
        g.wf(),
        c0.wf(g),
        c0.selected is Some,
        Cursor::spec_moved(c0, c1, g, Direction::Right, r1),
        r1 == MoveOutcome::Moved,
        Cursor::spec_moved(c1, c2, g, Direction::Left, r2),
    ensures
        r2 == MoveOutcome::Moved,
        c2 == c0,
{
}

/// A movement down that moved, followed by a movement up, returns to the starting
/// row. It returns to the starting byte exactly when the starting column exists in
/// the row below; otherwise the down movement stopped at the last byte of the short
/// last row, and the cursor ends in that byte's column.
pub proof fn lemma_down_then_up(
    g: GridGeometry,
    c0: Cursor,
    c1: Cursor,
    c2: Cursor,
    r1: MoveOutcome,
    r2: MoveOutcome,
)
    requires
        g.wf(),
        c0.wf(g),
        c0.selected is Some,
        Cursor::spec_moved(c0, c1, g, Direction::Down, r1),
        r1 == MoveOutcome::Moved,
        Cursor::spec_moved(c1, c2, g, Direction::Up, r2),
    ensures
        r2 == MoveOutcome::Moved,
        c2.selected is Some,
        c2.selected->Some_0.row == c0.selected->Some_0.row,
        (c2 == c0) <==> c0.selected->Some_0.column < g.spec_row_len(
            (c0.selected->Some_0.row + 1) as nat,
        ),
        c2 != c0 ==> c2.selected->Some_0.column + 1 == g.trailing_bytes_count,
{
    let s = c0.selected->Some_0;
    let cc = g.column_count as int;
    let t = g.total_len as int;
    let o = s.offset as int;
    lemma_fundamental_div_mod(o, cc);
    let r = o / cc;
    let c = o % cc;
    lemma_row_of_offset_below_row_count(g, s.offset);
    assert(r + 1 < g.row_count);
    g.lemma_row_within_file((r + 1) as nat);
    assert(o + cc == (r + 1) * cc + c) by (nonlinear_arith)
        requires
            o == cc * r + c,
    ;
    assert(o - cc == (r - 1) * cc + c) by (nonlinear_arith)
        requires
            o == cc * r + c,
    ;
    if o + cc < t {
        let n = o + cc;
        lemma_fundamental_div_mod_converse(n, cc, r + 1, c);
        assert(c < g.spec_row_len((r + 1) as nat));
    } else {
        let k = t - 1 - (r + 1) * cc;
        assert(0 <= k < c);
        lemma_fundamental_div_mod_converse(t - 1, cc, r + 1, k);
        assert(t - 1 - cc == r * cc + k) by (nonlinear_arith)
            requires
                k == t - 1 - (r + 1) * cc,
        ;
        lemma_fundamental_div_mod_converse(t - 1 - cc, cc, r, k);
        lemma_fundamental_div_mod_converse(t, cc, r + 1, k + 1);
        assert(g.spec_is_trailing_row((r + 1) as nat));
        assert(c2.selected->Some_0.offset != s.offset);
    }
}

/// The selection of the byte at `offset`, with its row and column.
pub fn selection_at(g: &GridGeometry, offset: u64) -> (s: Selection)
    requires
        g.wf(),
    ensures
        s == spec_selection_at(*g, offset),
{
    Selection { offset, row: g.row_of(offset), column: g.col_of(offset) }
}

} // verus!
