//! Cursors over lists that are replaced wholesale: wrap-around movement and
//! re-validation after a replacement.
use vstd::prelude::*;

verus! {

/// A cursor fits a list of `n` rows: none exactly when the list is empty,
/// and otherwise an index into it.
pub open spec fn cursor_valid(sel: Option<usize>, n: nat) -> bool {
    match sel {
        None => n == 0,
        Some(i) => i < n,
    }
}

/// The row after the cursor, wrapping from the last row to the first.
pub open spec fn spec_next(sel: Option<usize>, n: nat) -> Option<usize> {
    if n == 0 {
        None
    } else {
        match sel {
            None => Some(0),
            Some(i) => if i + 1 < n {
                Some((i + 1) as usize)
            } else {
                Some(0)
            },
        }
    }
}

/// The row before the cursor, wrapping from the first row to the last.
pub open spec fn spec_previous(sel: Option<usize>, n: nat) -> Option<usize> {
    if n == 0 {
        None
    } else {
        match sel {
            None => Some(0),
            Some(i) => if i == 0 || i > n {
                Some((n - 1) as usize)
            } else {
                Some((i - 1) as usize)
            },
        }
    }
}

/// The cursor kept, clamped to the last row, or started at the first row,
/// after the list has been replaced by one of `n` rows.
pub open spec fn spec_revalidate(sel: Option<usize>, n: nat) -> Option<usize> {
    if n == 0 {
        None
    } else {
        match sel {
            None => Some(0),
            Some(i) => if i < n {
                Some(i)
            } else {
                Some((n - 1) as usize)
            },
        }
    }
}

/// A cursor movement.
#[derive(Clone, Copy, Debug, PartialEq, Eq, Structural)]
pub enum Move {
    Next,
    Previous,
    First,
    Last,
}

/// Whether the movement looks for a row going down the list.
pub open spec fn is_forward(m: Move) -> bool {
    m == Move::Next || m == Move::First
}

/// Where a movement takes a cursor over a list of `n` rows.
pub open spec fn spec_move(sel: Option<usize>, n: nat, m: Move) -> Option<usize> {
    match m {
        Move::Next => spec_next(sel, n),
        Move::Previous => spec_previous(sel, n),
        Move::First => if n == 0 {
            None
        } else {
            Some(0)
        },
        Move::Last => if n == 0 {
            None
        } else {
            Some((n - 1) as usize)
        },
    }
}

/// Moves a cursor over a list of `n` rows.
pub fn move_cursor(sel: Option<usize>, n: usize, m: Move) -> (r: Option<usize>)
    ensures
        r == spec_move(sel, n as nat, m),
        cursor_valid(r, n as nat),
{
    match m {
        Move::Next => select_next(sel, n),
        Move::Previous => select_previous(sel, n),
        Move::First => select_first(n),
        Move::Last => select_last(n),
    }
}

/// Moves the cursor one row down, wrapping around.
pub fn select_next(sel: Option<usize>, n: usize) -> (r: Option<usize>)
    ensures
        r == spec_next(sel, n as nat),
        cursor_valid(r, n as nat),
{
    if n == 0 {
        None
    } else {
        match sel {
            None => Some(0),
            Some(i) => if i < n - 1 {
                Some(i + 1)
            } else {
                Some(0)
            },
        }
    }
}

/// Moves the cursor one row up, wrapping around.
pub fn select_previous(sel: Option<usize>, n: usize) -> (r: Option<usize>)
    ensures
        r == spec_previous(sel, n as nat),
        cursor_valid(r, n as nat),
{
    if n == 0 {
        None
    } else {
        match sel {
            None => Some(0),
            Some(i) => if i == 0 || i > n {
                Some(n - 1)
            } else {
                Some(i - 1)
            },
        }
    }
}

/// Moves the cursor to the first row.
pub fn select_first(n: usize) -> (r: Option<usize>)
    ensures
        r == (if n == 0 { None } else { Some(0usize) }),
        cursor_valid(r, n as nat),
{
    if n == 0 {
        None
    } else {
        Some(0)
    }
}

/// Moves the cursor to the last row.
pub fn select_last(n: usize) -> (r: Option<usize>)
    ensures
        r == (if n == 0 { None } else { Some((n - 1) as usize) }),
        cursor_valid(r, n as nat),
{
    if n == 0 {
        None
    } else {
        Some(n - 1)
    }
}

/// Re-validates a cursor after its list was replaced by one of `n` rows.
pub fn revalidate(sel: Option<usize>, n: usize) -> (r: Option<usize>)
    ensures
        r == spec_revalidate(sel, n as nat),
        cursor_valid(r, n as nat),
        cursor_valid(sel, n as nat) ==> r == sel,
{
    if n == 0 {
        None
    } else {
        match sel {
            None => Some(0),
            Some(i) => if i < n {
                Some(i)
            } else {
                Some(n - 1)
            },
        }
    }
}

/// Moving down and then up returns to where the cursor was, for every list
/// length and every cursor that fits the list (an empty list keeps no cursor).
pub proof fn lemma_next_then_previous(sel: Option<usize>, n: nat)
    requires
        cursor_valid(sel, n),
        n <= usize::MAX,
    ensures
        spec_previous(spec_next(sel, n), n) == sel,
{
}

/// Moving up and then down returns to where the cursor was, for every list
/// length and every cursor that fits the list.
pub proof fn lemma_previous_then_next(sel: Option<usize>, n: nat)
    requires
        cursor_valid(sel, n),
        n <= usize::MAX,
    ensures
        spec_next(spec_previous(sel, n), n) == sel,
{
}

/// Every cursor operation leaves a cursor that fits its list, whatever
/// cursor it started from.
pub proof fn lemma_cursor_stays_valid(sel: Option<usize>, n: nat)
    requires
        n <= usize::MAX,
    ensures
        cursor_valid(spec_next(sel, n), n),
        cursor_valid(spec_previous(sel, n), n),
        cursor_valid(spec_revalidate(sel, n), n),
{
}

} // verus!
