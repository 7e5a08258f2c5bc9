//! The change list as it is shown: a section of staged rows and a section of
//! unstaged rows, each under a header row that the cursor never rests on.
use vstd::prelude::*;
use vstd::string::StringExecFns;
use crate::status::{FileStatus, StatusItem, items_view};
use crate::nav::{spec_next, spec_previous};

verus! {

/// A row of the change list.
#[derive(Debug)]
pub enum StatusItemType {
    Header(String),
    Item(StatusItem),
}

/// What a row shows.
pub enum RowView {
    Header(Seq<char>),
    Item((Seq<char>, FileStatus, bool)),
}

impl StatusItemType {
    pub open spec fn view(&self) -> RowView {
        match self {
            StatusItemType::Header(t) => RowView::Header(t@),
            StatusItemType::Item(i) => RowView::Item(i.view()),
        }
    }

    /// Whether the cursor may rest on this row.
    pub fn is_item(&self) -> (r: bool)
        ensures
            r == (self is Item),
    {
        match self {
            StatusItemType::Item(_) => true,
            StatusItemType::Header(_) => false,
        }
    }
}

pub open spec fn rows_view(rows: Seq<StatusItemType>) -> Seq<RowView> {
    rows.map_values(|r: StatusItemType| r.view())
}

/// The items of one staging side, in their order.
pub open spec fn section(items: Seq<(Seq<char>, FileStatus, bool)>, staged: bool) -> Seq<
    (Seq<char>, FileStatus, bool),
>
    decreases items.len(),
{
    if items.len() == 0 {
        seq![]
    } else {
        section(items.drop_last(), staged) + (if items.last().2 == staged {
            seq![items.last()]
        } else {
            seq![]
        })
    }
}

pub open spec fn staged_title() -> Seq<char> {
    "Staged changes:"@
}

pub open spec fn unstaged_title() -> Seq<char> {
    "Unstaged changes:"@
}

/// A section under its header, or nothing when it has no items.
pub open spec fn titled(title: Seq<char>, xs: Seq<(Seq<char>, FileStatus, bool)>) -> Seq<RowView> {
    if xs.len() == 0 {
        seq![]
    } else {
        seq![RowView::Header(title)] + xs.map_values(|x: (Seq<char>, FileStatus, bool)| RowView::Item(x))
    }
}

/// The rows of the change list: staged items first, then unstaged ones.
pub open spec fn display_rows(items: Seq<(Seq<char>, FileStatus, bool)>) -> Seq<RowView> {
    titled(staged_title(), section(items, true)) + titled(unstaged_title(), section(items, false))
}

/// The item rows of one side, in order.
fn section_rows(items: &Vec<StatusItem>, staged: bool) -> (r: Vec<StatusItemType>)
    ensures
        rows_view(r@) == section(items_view(items@), staged).map_values(
            |x: (Seq<char>, FileStatus, bool)| RowView::Item(x),
        ),
{
    let ghost iv = items_view(items@);
    let mut out: Vec<StatusItemType> = Vec::new();
    let mut i: usize = 0;
    assert(iv.take(0) =~= Seq::<(Seq<char>, FileStatus, bool)>::empty());
    assert(rows_view(out@) =~= section(iv.take(0), staged).map_values(
        |x: (Seq<char>, FileStatus, bool)| RowView::Item(x),
    ));
    while i < items.len()
        invariant
            i <= items.len(),
            iv == items_view(items@),
            rows_view(out@) == section(iv.take(i as int), staged).map_values(
                |x: (Seq<char>, FileStatus, bool)| RowView::Item(x),
            ),
        decreases items.len() - i,
    {
        let it = &items[i];
        assert(iv.take(i + 1).drop_last() =~= iv.take(i as int));
        assert(iv.take(i + 1).last() == it.view());
        let ghost before = section(iv.take(i as int), staged);
        let ghost old_rows = rows_view(out@);
        if it.is_staged == staged {
            let d = it.duplicate();
            out.push(StatusItemType::Item(d));
            assert(section(iv.take(i + 1), staged) == before.push(it.view()));
            assert(rows_view(out@) =~= old_rows.push(RowView::Item(it.view())));
            assert(before.push(it.view()).map_values(|x: (Seq<char>, FileStatus, bool)| RowView::Item(x))
                =~= before.map_values(|x: (Seq<char>, FileStatus, bool)| RowView::Item(x)).push(RowView::Item(it.view())));
        } else {
            assert(section(iv.take(i + 1), staged) =~= before);
        }
        assert(rows_view(out@) =~= section(iv.take(i + 1), staged).map_values(
            |x: (Seq<char>, FileStatus, bool)| RowView::Item(x),
        ));
        i += 1;
    }
    assert(iv.take(items.len() as int) =~= iv);
    out
}

/// Builds the change list from the rows of a status report.
pub fn build_display_list(items: &Vec<StatusItem>) -> (r: Vec<StatusItemType>)
    ensures
        rows_view(r@) == display_rows(items_view(items@)),
{
    let ghost iv = items_view(items@);
    let mut out: Vec<StatusItemType> = Vec::new();
    let mut staged = section_rows(items, true);
    if staged.len() > 0 {
        out.push(StatusItemType::Header(String::from_str("Staged changes:")));
        out.append(&mut staged);
    }
    assert(rows_view(out@) =~= titled(staged_title(), section(iv, true)));
    let ghost first = rows_view(out@);
    let mut unstaged = section_rows(items, false);
    let ghost u = rows_view(unstaged@);
    if unstaged.len() > 0 {
        out.push(StatusItemType::Header(String::from_str("Unstaged changes:")));
        let ghost with_header = out@;
        assert(rows_view(with_header) =~= first.push(RowView::Header(unstaged_title())));
        out.append(&mut unstaged);
        assert(rows_view(out@) =~= rows_view(with_header) + u);
    }
    assert(rows_view(out@) =~= first + titled(unstaged_title(), section(iv, false)));
    out
}

proof fn lemma_sections_split(iv: Seq<(Seq<char>, FileStatus, bool)>)
    ensures
        section(iv, true).len() + section(iv, false).len() == iv.len(),
    decreases iv.len(),
{
    if iv.len() > 0 {
        lemma_sections_split(iv.drop_last());
    }
}

/// The change list is empty exactly when the report has no rows, and a
/// non-empty change list has an item row.
pub proof fn lemma_display_rows_shape(rows: Seq<StatusItemType>, iv: Seq<(Seq<char>, FileStatus, bool)>)
    requires
        rows_view(rows) == display_rows(iv),
    ensures
        rows.len() == 0 <==> iv.len() == 0,
        rows.len() > 0 ==> has_item(rows),
{
    lemma_sections_split(iv);
    assert(rows.len() == rows_view(rows).len());
    if rows.len() > 0 {
        let st = section(iv, true);
        let un = section(iv, false);
        if st.len() > 0 {
            assert(display_rows(iv)[1] == RowView::Item(st[0]));
        } else {
            assert(display_rows(iv)[1] == RowView::Item(un[0]));
        }
        assert(rows_view(rows)[1] == rows[1].view());
        assert(rows[1] is Item);
    }
}

/// How many steps forward, wrapping around, lead from `start` to `k`.
pub open spec fn forward_distance(start: int, k: int, n: int) -> int {
    if k >= start {
        k - start
    } else {
        k + n - start
    }
}

/// How many steps backward, wrapping around, lead from `start` to `k`.
pub open spec fn backward_distance(start: int, k: int, n: int) -> int {
    if k <= start {
        start - k
    } else {
        start + n - k
    }
}

/// Whether some row of the list is an item.
pub open spec fn has_item(rows: Seq<StatusItemType>) -> bool {
    exists|k: int| 0 <= k < rows.len() && (#[trigger] rows[k]) is Item
}

/// Where the status cursor lands when it moves from `start` in one
/// direction: on the nearest item row, headers skipped.
pub open spec fn lands(rows: Seq<StatusItemType>, start: int, forward: bool, r: Option<usize>) -> bool {
    match r {
        Some(j) => {
            &&& j < rows.len()
            &&& rows[j as int] is Item
            &&& forall|k: int|
                0 <= k < rows.len() && (if forward {
                    forward_distance(start, k, rows.len() as int) < forward_distance(
                        start,
                        j as int,
                        rows.len() as int,
                    )
                } else {
                    backward_distance(start, k, rows.len() as int) < backward_distance(
                        start,
                        j as int,
                        rows.len() as int,
                    )
                }) ==> !(#[trigger] rows[k] is Item)
        },
        None => !has_item(rows),
    }
}

/// The first item row at or after `start`, wrapping around; `None` when the
/// list holds only headers.
pub fn skip_headers_forward(rows: &Vec<StatusItemType>, start: usize) -> (r: Option<usize>)
    requires
        start < rows.len(),
    ensures
        lands(rows@, start as int, true, r),
{
    let n = rows.len();
    let mut d: usize = 0;
    while d < n
        invariant
            n == rows.len(),
            start < n,
            d <= n,
            forall|k: int|
                0 <= k < n && forward_distance(start as int, k, n as int) < d ==> !(
                #[trigger] rows@[k] is Item),
        decreases n - d,
    {
        let k = if d < n - start {
            start + d
        } else {
            d - (n - start)
        };
        assert(forward_distance(start as int, k as int, n as int) == d);
        if rows[k].is_item() {
            return Some(k);
        }
        d += 1;
    }
    proof {
        assert forall|k: int| 0 <= k < n implies !(#[trigger] rows@[k] is Item) by {
            assert(forward_distance(start as int, k, n as int) < n);
        }
    }
    None
}

/// The first item row at or before `start`, wrapping around; `None` when the
/// list holds only headers.
pub fn skip_headers_backward(rows: &Vec<StatusItemType>, start: usize) -> (r: Option<usize>)
    requires
        start < rows.len(),
    ensures
        lands(rows@, start as int, false, r),
{
    let n = rows.len();
    let mut d: usize = 0;
    while d < n
        invariant
            n == rows.len(),
            start < n,
            d <= n,
            forall|k: int|
                0 <= k < n && backward_distance(start as int, k, n as int) < d ==> !(
                #[trigger] rows@[k] is Item),
        decreases n - d,
    {
        let k = if d <= start {
            start - d
        } else {
            n - (d - start)
        };
        assert(backward_distance(start as int, k as int, n as int) == d);
        if rows[k].is_item() {
            return Some(k);
        }
        d += 1;
    }
    proof {
        assert forall|k: int| 0 <= k < n implies !(#[trigger] rows@[k] is Item) by {
            assert(backward_distance(start as int, k, n as int) < n);
        }
    }
    None
}


/// On a change list with header rows, moving the cursor from an item row
/// down to the next item row and then up to the previous item row brings it
/// back, across the wrap-around too.
pub proof fn lemma_grouped_next_then_previous(rows: Seq<StatusItemType>, i: usize, j: usize, r: Option<usize>)
    requires
        i < rows.len() <= usize::MAX,
        rows[i as int] is Item,
        lands(rows, spec_next(Some(i), rows.len())->0 as int, true, Some(j)),
        lands(rows, spec_previous(Some(j), rows.len())->0 as int, false, r),
    ensures
        r == Some(i),
{
    let n = rows.len() as int;
    let s = spec_next(Some(i), rows.len())->0 as int;
    let t = spec_previous(Some(j), rows.len())->0 as int;
    assert(s == if i + 1 < n { i + 1 } else { 0 });
    assert(t == if j == 0 { n - 1 } else { j - 1 });
    if r is None {
        assert(has_item(rows));
    }
    let k = r->0 as int;
    // Backward from just above j, the first item is i: every row strictly
    // between i and j is a header, by the choice of j.
    assert forall|q: int|
        0 <= q < n && backward_distance(t, q, n) < backward_distance(t, i as int, n) implies
        forward_distance(s, q, n) < forward_distance(s, j as int, n) by {
    }
    assert(backward_distance(t, i as int, n) >= backward_distance(t, k, n));
    if backward_distance(t, k, n) < backward_distance(t, i as int, n) {
        assert(forward_distance(s, k, n) < forward_distance(s, j as int, n));
        assert(!(rows[k] is Item));
    }
}


/// Moving the cursor from an item row up to the previous item row and then
/// down to the next item row brings it back, across the wrap-around too.
pub proof fn lemma_grouped_previous_then_next(rows: Seq<StatusItemType>, i: usize, j: usize, r: Option<usize>)
    requires
        i < rows.len() <= usize::MAX,
        rows[i as int] is Item,
        lands(rows, spec_previous(Some(i), rows.len())->0 as int, false, Some(j)),
        lands(rows, spec_next(Some(j), rows.len())->0 as int, true, r),
    ensures
        r == Some(i),
{
    let n = rows.len() as int;
    let s = spec_previous(Some(i), rows.len())->0 as int;
    let t = spec_next(Some(j), rows.len())->0 as int;
    assert(s == if i == 0 { n - 1 } else { i - 1 });
    assert(t == if j + 1 < n { j + 1 } else { 0 });
    if r is None {
        assert(has_item(rows));
    }
    let k = r->0 as int;
    assert forall|q: int|
        0 <= q < n && forward_distance(t, q, n) < forward_distance(t, i as int, n) implies
        backward_distance(s, q, n) < backward_distance(s, j as int, n) by {
    }
    assert(forward_distance(t, i as int, n) >= forward_distance(t, k, n));
    if forward_distance(t, k, n) < forward_distance(t, i as int, n) {
        assert(backward_distance(s, k, n) < backward_distance(s, j as int, n));
        assert(!(rows[k] is Item));
    }
}

} // verus!
