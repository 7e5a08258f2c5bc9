//! Which row's diff the status view shows, and whether a diff that a worker
//! sends back still belongs to it.
use vstd::prelude::*;
use crate::app::{App, Mode, StatusMode};
use crate::display::StatusItemType;

verus! {

/// The row a diff is read for: its path and its side.
#[derive(Debug)]
pub struct DiffKey {
    pub path: String,
    pub is_staged: bool,
}

impl DiffKey {
    pub open spec fn view(&self) -> (Seq<char>, bool) {
        (self.path@, self.is_staged)
    }
}

pub open spec fn key_view(k: Option<DiffKey>) -> Option<(Seq<char>, bool)> {
    match k {
        Some(k) => Some(k.view()),
        None => None,
    }
}

/// The row whose diff the status view shows: the item under the cursor
/// while files are being selected, and none otherwise.
pub open spec fn spec_diff_target(a: App) -> Option<(Seq<char>, bool)> {
    match a.status_selected {
        Some(i) => if a.mode == Mode::Status(StatusMode::FileSelection) && i
            < a.status_display_list@.len() {
            match a.status_display_list@[i as int] {
                StatusItemType::Item(it) => Some((it.path@, it.is_staged)),
                StatusItemType::Header(_) => None,
            }
        } else {
            None
        },
        None => None,
    }
}

impl App {
    /// The row whose diff should be on screen.
    pub fn diff_target(&self) -> (r: Option<DiffKey>)
        ensures
            key_view(r) == spec_diff_target(*self),
    {
        if self.mode != Mode::Status(StatusMode::FileSelection) {
            return None;
        }
        match self.status_selected {
            Some(i) => if i < self.status_display_list.len() {
                match &self.status_display_list[i] {
                    StatusItemType::Item(it) => Some(DiffKey { path: it.path.clone(), is_staged: it.is_staged }),
                    StatusItemType::Header(_) => None,
                }
            } else {
                None
            },
            None => None,
        }
    }
}

/// Whether two targets name the same row (or both none). A diff is read
/// again when the target changes, and a diff that arrives for a target
/// that is no longer shown is dropped.
pub fn same_target(a: &Option<DiffKey>, b: &Option<DiffKey>) -> (r: bool)
    ensures
        r == (key_view(*a) == key_view(*b)),
{
    match (a, b) {
        (None, None) => true,
        (Some(x), Some(y)) => x.path == y.path && x.is_staged == y.is_staged,
        _ => false,
    }
}

} // verus!
