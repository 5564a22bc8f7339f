use vstd::prelude::*;

verus! {

/// Why a dropped item could not be opened. The session keeps its state.
#[derive(Clone, Copy, Debug, PartialEq, Eq)]
pub enum OpenError {
    NotFound,
    PermissionDenied,
    IsDirectory,
    NonUtf8Name,
}

/// Why a row could not be read. The session is torn down.
#[derive(Clone, Copy, Debug, PartialEq, Eq)]
pub enum ReadError {
    Io,
    OutOfRange,
}

/// How many of the dropped items are taken.
#[derive(Clone, Copy, Debug, PartialEq, Eq)]
pub enum DropPlan {
    /// Nothing was dropped.
    Nothing,
    /// One item was dropped and is taken.
    Single,
    /// Several items were dropped; the first is taken and the user is warned.
    FirstOfMany,
}

/// Checks that `len` bytes from `offset` lie inside a file of `total_len` bytes,
/// so that a read of them is never cut short.
pub fn check_read_range(total_len: u64, offset: u64, len: usize) -> (r: Result<(), ReadError>)
    ensures
        r is Ok <==> offset + len <= total_len,
        r is Err ==> r == Err::<(), ReadError>(ReadError::OutOfRange),
{
    if offset <= total_len && (len as u64) <= total_len - offset {
        Ok(())
    } else {
        Err(ReadError::OutOfRange)
    }
}

/// Checks that a dropped item can be opened as a file: it is no directory and
/// its name is valid UTF-8. A directory is reported first.
pub fn check_dropped_item(is_dir: bool, name_is_utf8: bool) -> (r: Result<(), OpenError>)
    ensures
        r == (if is_dir {
            Err(OpenError::IsDirectory)
        } else if !name_is_utf8 {
            Err(OpenError::NonUtf8Name)
        } else {
            Ok(())
        }),
{
    if is_dir {
        Err(OpenError::IsDirectory)
    } else if !name_is_utf8 {
        Err(OpenError::NonUtf8Name)
    } else {
        Ok(())
    }
}

/// Which of `count` dropped items are taken: none, the only one, or the first.
pub fn drop_plan(count: usize) -> (p: DropPlan)
    ensures
        p == (if count == 0 {
            DropPlan::Nothing
        } else if count == 1 {
            DropPlan::Single
        } else {
            DropPlan::FirstOfMany
        }),
{
    if count == 0 {
        DropPlan::Nothing
    } else if count == 1 {
        DropPlan::Single
    } else {
        DropPlan::FirstOfMany
    }
}

/// Whether `b` is printable ASCII, from space to tilde.
pub open spec fn spec_is_printable(b: u8) -> bool {
    0x20 <= b <= 0x7e
}

/// The character shown for byte `b` in the text column: the byte itself when it
/// is printable ASCII, a dot otherwise.
pub fn display_char(b: u8) -> (c: char)
    ensures
        c == (if spec_is_printable(b) {
            b as char
        } else {
            '.'
        }),
{
    if 0x20 <= b && b <= 0x7e {
        b as char
    } else {
        '.'
    }
}

/// The text column of a row: one character per byte, as `display_char` gives it.
pub fn display_text(bytes: &Vec<u8>) -> (text: Vec<char>)
    ensures
        text@.len() == bytes@.len(),
        forall|i: int|
            0 <= i < bytes@.len() ==> #[trigger] text@[i] == (if spec_is_printable(bytes@[i]) {
                bytes@[i] as char
            } else {
                '.'
            }),
{
    let mut text: Vec<char> = Vec::new();
    let mut i: usize = 0;
    while i < bytes.len()
        invariant
            i <= bytes@.len(),
            text@.len() == i,
            forall|j: int|
                0 <= j < i ==> #[trigger] text@[j] == (if spec_is_printable(bytes@[j]) {
                    bytes@[j] as char
                } else {
                    '.'
                }),
        decreases bytes@.len() - i,
    {
        text.push(display_char(bytes[i]));
        i = i + 1;
    }
    text
}

} // verus!
