//! Diffs of one file: which side a diff is taken against, its hunks, and its
//! rendering as patch text.
use vstd::prelude::*;
use vstd::string::StringExecFns;
use crate::status::StagingStatus;

verus! {

/// One line of a hunk: its origin marker (`+` added, `-` removed, ` `
/// context), its text, and its line numbers on the old and new side.
#[derive(Clone, Debug, PartialEq, Eq)]
pub struct Line {
    pub origin: char,
    pub content: String,
    pub old_lineno: Option<u32>,
    pub new_lineno: Option<u32>,
}

/// A contiguous region of a diff: its header and its lines in order.
#[derive(Clone, Debug, PartialEq, Eq)]
pub struct Hunk {
    pub header: String,
    pub lines: Vec<Line>,
}

/// What a file's diff is taken against.
#[derive(Clone, Copy, Debug, PartialEq, Eq, Structural)]
pub enum DiffFacet {
    /// Staged changes: the last commit against the index.
    Index,
    /// Unstaged changes: the index against the working tree.
    WorkTree,
}

/// The side a file's diff is shown for: a file with any unstaged changes
/// shows them; a fully staged file shows its staged changes.
pub fn facet_for(staging: StagingStatus) -> (r: DiffFacet)
    ensures
        r == (if staging == StagingStatus::Staged { DiffFacet::Index } else { DiffFacet::WorkTree }),
{
    match staging {
        StagingStatus::Staged => DiffFacet::Index,
        StagingStatus::Unstaged | StagingStatus::PartiallyStaged => DiffFacet::WorkTree,
    }
}

/// The side of one row of the two-section change list.
pub fn facet_for_row(is_staged: bool) -> (r: DiffFacet)
    ensures
        r == (if is_staged { DiffFacet::Index } else { DiffFacet::WorkTree }),
{
    if is_staged {
        DiffFacet::Index
    } else {
        DiffFacet::WorkTree
    }
}

/// The marker a line is printed with: its own for added, removed and
/// context lines, a blank for anything else.
pub open spec fn marker_of(origin: char) -> char {
    if origin == '+' || origin == '-' || origin == ' ' {
        origin
    } else {
        ' '
    }
}

/// The lines printed one after another, each behind its marker.
pub open spec fn patch_text(lines: Seq<Line>) -> Seq<char>
    decreases lines.len(),
{
    if lines.len() == 0 {
        seq![]
    } else {
        patch_text(lines.drop_last()) + seq![marker_of(lines.last().origin)] + lines.last().content@
    }
}

/// What is shown for a file whose diff has no lines.
pub open spec fn no_changes_text() -> Seq<char> {
    "No changes to display for this file."@
}

/// Relies on `String::push`: the character is appended at the end.
#[verifier::external_body]
pub(crate) fn push_char(s: &mut String, c: char)
    ensures
        final(s)@ == old(s)@.push(c),
{
    s.push(c)
}

/// Renders the lines of a file's diff as patch text, or a notice when
/// there is nothing to show.
pub fn render_diff_text(lines: &Vec<Line>) -> (r: String)
    ensures
        r@ == (if lines@.len() == 0 { no_changes_text() } else { patch_text(lines@) }),
{
    if lines.len() == 0 {
        return String::from_str("No changes to display for this file.");
    }
    let mut text = String::new();
    let mut i: usize = 0;
    assert(lines@.take(0) =~= Seq::<Line>::empty());
    while i < lines.len()
        invariant
            i <= lines.len(),
            text@ == patch_text(lines@.take(i as int)),
        decreases lines.len() - i,
    {
        let line = &lines[i];
        let marker = if line.origin == '+' || line.origin == '-' || line.origin == ' ' {
            line.origin
        } else {
            ' '
        };
        push_char(&mut text, marker);
        text.append(line.content.as_str());
        assert(lines@.take(i + 1).drop_last() =~= lines@.take(i as int));
        i += 1;
    }
    assert(lines@.take(lines.len() as int) =~= lines@);
    text
}

} // verus!
