//! Classification of the per-path change flags reported by the repository
//! backend into file entries with a change kind and a staging state.
use vstd::prelude::*;
use crate::order::{path_lt, path_less, lemma_path_lt_irreflexive, lemma_path_lt_transitive, lemma_path_lt_total};

verus! {

/// Index has a new file.
pub const INDEX_NEW: u32 = 1;
/// Index copy differs from HEAD.
pub const INDEX_MODIFIED: u32 = 2;
/// File is in HEAD but not in the index.
pub const INDEX_DELETED: u32 = 4;
/// Index records a rename.
pub const INDEX_RENAMED: u32 = 8;
/// Index records a change of file type.
pub const INDEX_TYPECHANGE: u32 = 16;
/// Working tree has an untracked file.
pub const WT_NEW: u32 = 128;
/// Working tree copy differs from the index.
pub const WT_MODIFIED: u32 = 256;
/// File is in the index but missing from the working tree.
pub const WT_DELETED: u32 = 512;
/// Working tree changed the file type.
pub const WT_TYPECHANGE: u32 = 1024;
/// Working tree records a rename.
pub const WT_RENAMED: u32 = 2048;
/// Working tree file cannot be read.
pub const WT_UNREADABLE: u32 = 4096;
/// File is ignored.
pub const IGNORED: u32 = 16384;
/// File has merge conflicts.
pub const CONFLICTED: u32 = 32768;

/// The raw change flags of one path, with the bit layout of the backend's
/// status word.
#[derive(Clone, Copy, Debug, PartialEq, Eq, Structural)]
pub struct ChangeFlags {
    pub bits: u32,
}

impl ChangeFlags {
    pub open spec fn has(self, flag: u32) -> bool {
        self.bits & flag != 0
    }

    /// Whether any bit of `flag` is set.
    pub fn contains(&self, flag: u32) -> (r: bool)
        ensures
            r == self.has(flag),
    {
        self.bits & flag != 0
    }

    /// Some index-relative change, of any kind: the file counts as staged.
    pub open spec fn spec_staged(self) -> bool {
        self.has(INDEX_NEW) || self.has(INDEX_MODIFIED) || self.has(INDEX_DELETED)
            || self.has(INDEX_RENAMED) || self.has(INDEX_TYPECHANGE)
    }

    /// Some working-tree-relative change, of any kind, or a conflict: the
    /// file counts as unstaged.
    pub open spec fn spec_unstaged(self) -> bool {
        self.has(WT_NEW) || self.has(WT_MODIFIED) || self.has(WT_DELETED) || self.has(WT_RENAMED)
            || self.has(WT_TYPECHANGE) || self.has(CONFLICTED)
    }

    /// Whether the file has staged changes.
    pub fn is_staged(&self) -> (r: bool)
        ensures
            r == self.spec_staged(),
    {
        self.contains(INDEX_NEW) || self.contains(INDEX_MODIFIED) || self.contains(INDEX_DELETED)
            || self.contains(INDEX_RENAMED) || self.contains(INDEX_TYPECHANGE)
    }

    /// Whether the file has unstaged changes.
    pub fn is_unstaged(&self) -> (r: bool)
        ensures
            r == self.spec_unstaged(),
    {
        self.contains(WT_NEW) || self.contains(WT_MODIFIED) || self.contains(WT_DELETED)
            || self.contains(WT_RENAMED) || self.contains(WT_TYPECHANGE) || self.contains(CONFLICTED)
    }
}

/// The primary kind of change of a file.
#[derive(Clone, Copy, Debug, PartialEq, Eq, Structural)]
pub enum FileStatus {
    Modified,
    New,
    Deleted,
    Renamed,
    Typechange,
    Conflicted,
}

/// Where the changes of a file stand relative to the index and the working tree.
#[derive(Clone, Copy, Debug, PartialEq, Eq, Structural)]
pub enum StagingStatus {
    Unstaged,
    Staged,
    PartiallyStaged,
}

/// The change kind, by priority: conflicts first, then new, deleted, renamed,
/// type change, and modified when nothing else matches.
pub open spec fn spec_file_status(f: ChangeFlags) -> FileStatus {
    if f.has(CONFLICTED) {
        FileStatus::Conflicted
    } else if f.has(WT_NEW) || f.has(INDEX_NEW) {
        FileStatus::New
    } else if f.has(WT_DELETED) || f.has(INDEX_DELETED) {
        FileStatus::Deleted
    } else if f.has(WT_RENAMED) || f.has(INDEX_RENAMED) {
        FileStatus::Renamed
    } else if f.has(WT_TYPECHANGE) || f.has(INDEX_TYPECHANGE) {
        FileStatus::Typechange
    } else {
        FileStatus::Modified
    }
}

/// The staging state, or `None` for a path with neither staged nor unstaged changes.
pub open spec fn spec_staging(f: ChangeFlags) -> Option<StagingStatus> {
    if f.spec_staged() && f.spec_unstaged() {
        Some(StagingStatus::PartiallyStaged)
    } else if f.spec_staged() {
        Some(StagingStatus::Staged)
    } else if f.spec_unstaged() {
        Some(StagingStatus::Unstaged)
    } else {
        None
    }
}

/// Determines the primary status of a file from its flags.
pub fn determine_file_status(f: ChangeFlags) -> (r: FileStatus)
    ensures
        r == spec_file_status(f),
{
    if f.contains(CONFLICTED) {
        FileStatus::Conflicted
    } else if f.contains(WT_NEW) || f.contains(INDEX_NEW) {
        FileStatus::New
    } else if f.contains(WT_DELETED) || f.contains(INDEX_DELETED) {
        FileStatus::Deleted
    } else if f.contains(WT_RENAMED) || f.contains(INDEX_RENAMED) {
        FileStatus::Renamed
    } else if f.contains(WT_TYPECHANGE) || f.contains(INDEX_TYPECHANGE) {
        FileStatus::Typechange
    } else {
        FileStatus::Modified
    }
}

/// Determines the staging state of a file from its flags.
pub fn determine_staging_status(f: ChangeFlags) -> (r: Option<StagingStatus>)
    ensures
        r == spec_staging(f),
{
    let staged = f.is_staged();
    let unstaged = f.is_unstaged();
    if staged && unstaged {
        Some(StagingStatus::PartiallyStaged)
    } else if staged {
        Some(StagingStatus::Staged)
    } else if unstaged {
        Some(StagingStatus::Unstaged)
    } else {
        None
    }
}


/// One path as the backend reports it, with its raw flags.
#[derive(Clone, Debug)]
pub struct StatusEntry {
    pub path: String,
    pub flags: ChangeFlags,
}

/// A single file with changes: its path, change kind and staging state.
#[derive(Clone, Debug)]
pub struct FileState {
    pub path: String,
    pub status: FileStatus,
    pub staging_status: StagingStatus,
}

impl FileState {
    pub open spec fn view(&self) -> (Seq<char>, FileStatus, StagingStatus) {
        (self.path@, self.status, self.staging_status)
    }
}

pub open spec fn entries_view(e: Seq<StatusEntry>) -> Seq<(Seq<char>, ChangeFlags)> {
    e.map_values(|x: StatusEntry| (x.path@, x.flags))
}

pub open spec fn states_view(r: Seq<FileState>) -> Seq<(Seq<char>, FileStatus, StagingStatus)> {
    r.map_values(|x: FileState| x.view())
}

/// What the backend's report says of each path that has changes: a later
/// report of a path replaces an earlier one, a clean report leaves it as it was.
pub open spec fn status_map(e: Seq<(Seq<char>, ChangeFlags)>) -> Map<
    Seq<char>,
    (FileStatus, StagingStatus),
>
    decreases e.len(),
{
    if e.len() == 0 {
        Map::empty()
    } else {
        let prev = status_map(e.drop_last());
        let last = e.last();
        match spec_staging(last.1) {
            Some(st) => prev.insert(last.0, (spec_file_status(last.1), st)),
            None => prev,
        }
    }
}

pub open spec fn sorted_by_path(r: Seq<FileState>) -> bool {
    forall|i: int, j: int| 0 <= i < j < r.len() ==> path_lt(#[trigger] r[i].path@, #[trigger] r[j].path@)
}

/// `r` lists the entries of `m` once each, in path order.
pub open spec fn lists_map(r: Seq<FileState>, m: Map<Seq<char>, (FileStatus, StagingStatus)>) -> bool {
    &&& sorted_by_path(r)
    &&& forall|i: int| 0 <= i < r.len() ==> #[trigger] m.contains_key(r[i].path@)
    &&& forall|i: int| #![trigger r[i]] 0 <= i < r.len() ==> m[r[i].path@] == (r[i].status, r[i].staging_status)
    &&& forall|p: Seq<char>| #[trigger] m.contains_key(p) ==> exists|i: int| 0 <= i < r.len() && r[i].path@ == p
}

proof fn lemma_lt_ne(a: Seq<char>, b: Seq<char>)
    requires
        path_lt(a, b),
    ensures
        a != b,
{
    lemma_path_lt_irreflexive(a);
}

/// Puts `s` at its place in the path-sorted list `out`, replacing an entry
/// of the same path.
fn insert_sorted(out: &mut Vec<FileState>, s: FileState, Ghost(m): Ghost<Map<Seq<char>, (FileStatus, StagingStatus)>>)
    requires
        lists_map(old(out)@, m),
    ensures
        lists_map(final(out)@, m.insert(s.path@, (s.status, s.staging_status))),
{
    let ghost p = s.path@;
    let mut j: usize = 0;
    loop
        invariant
            j <= out.len(),
            p == s.path@,
            out@ == old(out)@,
            forall|k: int| 0 <= k < j ==> path_lt(#[trigger] out@[k].path@, p),
        ensures
            j <= out.len(),
            forall|k: int| 0 <= k < j ==> path_lt(#[trigger] out@[k].path@, p),
            j < out.len() ==> !path_lt(out@[j as int].path@, p),
        decreases out.len() - j,
    {
        if j == out.len() {
            break;
        }
        if !path_less(&out[j].path, &s.path) {
            break;
        }
        j += 1;
    }
    let ghost o = out@;
    if j < out.len() && out[j].path == s.path {
        proof {
            lemma_listing_replace(o, m, j as int, s);
        }
        out.set(j, s);
    } else {
        proof {
            lemma_listing_insert(o, m, j as int, s);
        }
        out.insert(j, s);
    }
}

proof fn lemma_listing_replace(o: Seq<FileState>, m: Map<Seq<char>, (FileStatus, StagingStatus)>, j: int, s: FileState)
    requires
        lists_map(o, m),
        0 <= j < o.len(),
        o[j].path@ == s.path@,
    ensures
        lists_map(o.update(j, s), m.insert(s.path@, (s.status, s.staging_status))),
{
    let p = s.path@;
    let m2 = m.insert(p, (s.status, s.staging_status));
    let n = o.update(j, s);
    assert forall|i: int| 0 <= i < n.len() implies #[trigger] n[i].path@ == o[i].path@ by {
        if i != j {
            assert(n[i] == o[i]);
        }
    }
    assert forall|i: int| #![trigger n[i]] 0 <= i < n.len() implies m2.contains_key(n[i].path@) && m2[n[i].path@] == (n[i].status, n[i].staging_status) by {
        if i != j {
            assert(n[i] == o[i]);
            assert(m.contains_key(o[i].path@));
            if i < j {
                lemma_lt_ne(o[i].path@, o[j].path@);
            } else {
                lemma_lt_ne(o[j].path@, o[i].path@);
            }
        } else {
            assert(n[i] == s);
        }
    }
    assert forall|q: Seq<char>| #[trigger] m2.contains_key(q) implies exists|i: int| 0 <= i < n.len() && n[i].path@ == q by {
        if q == p {
            assert(n[j].path@ == q);
        } else {
            assert(m.contains_key(q));
            let k = choose|k: int| 0 <= k < o.len() && o[k].path@ == q;
            assert(n[k].path@ == q);
        }
    }
}

proof fn lemma_listing_insert(o: Seq<FileState>, m: Map<Seq<char>, (FileStatus, StagingStatus)>, j: int, s: FileState)
    requires
        lists_map(o, m),
        0 <= j <= o.len(),
        forall|k: int| 0 <= k < j ==> path_lt(#[trigger] o[k].path@, s.path@),
        j < o.len() ==> !path_lt(o[j].path@, s.path@) && o[j].path@ != s.path@,
    ensures
        lists_map(o.insert(j, s), m.insert(s.path@, (s.status, s.staging_status))),
{
    let p = s.path@;
    let m2 = m.insert(p, (s.status, s.staging_status));
    let n = o.insert(j, s);
    if j < o.len() {
        lemma_path_lt_total(o[j].path@, p);
    }
    assert forall|k: int| j <= k < o.len() implies path_lt(p, #[trigger] o[k].path@) by {
        if k > j {
            lemma_path_lt_transitive(p, o[j].path@, o[k].path@);
        }
    }
    assert forall|a: int, b: int| 0 <= a < b < n.len() implies path_lt(#[trigger] n[a].path@, #[trigger] n[b].path@) by {
        if b < j {
        } else if b == j {
        } else if a < j {
            lemma_path_lt_transitive(o[a].path@, p, o[b - 1].path@);
        } else if a == j {
        } else {
        }
    }
    assert forall|i: int| #![trigger n[i]] 0 <= i < n.len() implies m2.contains_key(n[i].path@) && m2[n[i].path@] == (n[i].status, n[i].staging_status) by {
        if i < j {
            assert(n[i] == o[i]);
            assert(m.contains_key(o[i].path@));
            lemma_lt_ne(o[i].path@, p);
        } else if i > j {
            assert(n[i] == o[i - 1]);
            assert(m.contains_key(o[i - 1].path@));
            lemma_lt_ne(p, o[i - 1].path@);
        } else {
            assert(n[i] == s);
        }
    }
    assert forall|q: Seq<char>| #[trigger] m2.contains_key(q) implies exists|i: int| 0 <= i < n.len() && n[i].path@ == q by {
        if q == p {
            assert(n[j].path@ == q);
        } else {
            assert(m.contains_key(q));
            let k = choose|k: int| 0 <= k < o.len() && o[k].path@ == q;
            if k < j {
                assert(n[k].path@ == q);
            } else {
                assert(n[k + 1].path@ == q);
            }
        }
    }
}

/// Turns the backend's per-path flags into one entry per changed path,
/// sorted by path. Paths with neither staged nor unstaged changes are left out.
pub fn classify(entries: &Vec<StatusEntry>) -> (r: Vec<FileState>)
    ensures
        lists_map(r@, status_map(entries_view(entries@))),
{
    let ghost ev = entries_view(entries@);
    let mut out: Vec<FileState> = Vec::new();
    let mut i: usize = 0;
    assert(ev.take(0) =~= Seq::<(Seq<char>, ChangeFlags)>::empty());
    while i < entries.len()
        invariant
            i <= entries.len(),
            ev == entries_view(entries@),
            lists_map(out@, status_map(ev.take(i as int))),
        decreases entries.len() - i,
    {
        let e = &entries[i];
        assert(ev.take(i + 1).drop_last() =~= ev.take(i as int));
        assert(ev.take(i + 1).last() == (e.path@, e.flags));
        match determine_staging_status(e.flags) {
            Some(st) => {
                let fs = FileState {
                    path: e.path.clone(),
                    status: determine_file_status(e.flags),
                    staging_status: st,
                };
                insert_sorted(&mut out, fs, Ghost(status_map(ev.take(i as int))));
            },
            None => {},
        }
        i += 1;
    }
    assert(ev.take(entries.len() as int) =~= ev);
    out
}


proof fn lemma_listing_tail(r: Seq<FileState>, m: Map<Seq<char>, (FileStatus, StagingStatus)>)
    requires
        lists_map(r, m),
        r.len() > 0,
    ensures
        lists_map(r.drop_first(), m.remove(r[0].path@)),
{
    let k0 = r[0].path@;
    let t = r.drop_first();
    let m1 = m.remove(k0);
    assert forall|i: int| #![trigger t[i]] 0 <= i < t.len() implies m1.contains_key(t[i].path@) && m1[t[i].path@] == (t[i].status, t[i].staging_status) by {
        assert(t[i] == r[i + 1]);
        assert(m.contains_key(r[i + 1].path@));
        lemma_lt_ne(k0, r[i + 1].path@);
    }
    assert forall|q: Seq<char>| #[trigger] m1.contains_key(q) implies exists|i: int| 0 <= i < t.len() && t[i].path@ == q by {
        assert(m.contains_key(q));
        let k = choose|k: int| 0 <= k < r.len() && r[k].path@ == q;
        assert(t[k - 1].path@ == q);
    }
}

/// A listing in path order of one map of classified paths is unique: the
/// map fixes every entry and its position.
pub proof fn lemma_listing_determined(
    m: Map<Seq<char>, (FileStatus, StagingStatus)>,
    ra: Seq<FileState>,
    rb: Seq<FileState>,
)
    requires
        lists_map(ra, m),
        lists_map(rb, m),
    ensures
        states_view(ra) == states_view(rb),
    decreases ra.len(),
{
    if ra.len() == 0 {
        if rb.len() > 0 {
            assert(m.contains_key(rb[0].path@));
        }
        assert(states_view(ra) =~= states_view(rb));
    } else {
        let k0 = ra[0].path@;
        assert(m.contains_key(k0));
        let jb = choose|i: int| 0 <= i < rb.len() && rb[i].path@ == k0;
        assert(m.contains_key(rb[0].path@));
        let ia = choose|i: int| 0 <= i < ra.len() && ra[i].path@ == rb[0].path@;
        if jb > 0 {
            if ia == 0 {
                lemma_path_lt_irreflexive(k0);
            } else {
                lemma_path_lt_transitive(k0, rb[0].path@, k0);
                lemma_path_lt_irreflexive(k0);
            }
        }
        assert(rb[0].path@ == k0);
        lemma_listing_tail(ra, m);
        lemma_listing_tail(rb, m);
        lemma_listing_determined(m.remove(k0), ra.drop_first(), rb.drop_first());
        assert(states_view(ra.drop_first()) == states_view(rb.drop_first()));
        assert(ra[0].view() == rb[0].view());
        assert forall|i: int| 0 <= i < ra.len() implies states_view(ra)[i] == states_view(rb)[i] by {
            if i > 0 {
                assert(states_view(ra)[i] == states_view(ra.drop_first())[i - 1]);
                assert(states_view(rb)[i] == states_view(rb.drop_first())[i - 1]);
            }
        }
        assert(states_view(ra) =~= states_view(rb));
    }
}


/// One row of the two-section change list: a changed file with its kind,
/// listed once for its staged changes and once for its unstaged ones.
#[derive(Debug)]
pub struct StatusItem {
    pub path: String,
    pub status: FileStatus,
    pub is_staged: bool,
}

impl StatusItem {
    pub open spec fn view(&self) -> (Seq<char>, FileStatus, bool) {
        (self.path@, self.status, self.is_staged)
    }

    /// A copy of this item.
    pub fn duplicate(&self) -> (r: StatusItem)
        ensures
            r.view() == self.view(),
    {
        StatusItem { path: self.path.clone(), status: self.status, is_staged: self.is_staged }
    }
}

pub open spec fn items_view(r: Seq<StatusItem>) -> Seq<(Seq<char>, FileStatus, bool)> {
    r.map_values(|x: StatusItem| x.view())
}

/// The listing of a map of classified paths, in path order.
pub open spec fn listing_of(m: Map<Seq<char>, (FileStatus, StagingStatus)>) -> Seq<
    (Seq<char>, FileStatus, StagingStatus),
> {
    states_view(choose|r: Seq<FileState>| lists_map(r, m))
}

/// The rows one changed file contributes: an unstaged row when it has
/// unstaged changes, then a staged row when it has staged ones.
pub open spec fn rows_of_state(s: (Seq<char>, FileStatus, StagingStatus)) -> Seq<(Seq<char>, FileStatus, bool)> {
    (if s.2 != StagingStatus::Staged {
        seq![(s.0, s.1, false)]
    } else {
        seq![]
    }) + (if s.2 != StagingStatus::Unstaged {
        seq![(s.0, s.1, true)]
    } else {
        seq![]
    })
}

/// The rows of a listing of changed files, file after file.
pub open spec fn rows_of_states(ss: Seq<(Seq<char>, FileStatus, StagingStatus)>) -> Seq<(Seq<char>, FileStatus, bool)>
    decreases ss.len(),
{
    if ss.len() == 0 {
        seq![]
    } else {
        rows_of_states(ss.drop_last()) + rows_of_state(ss.last())
    }
}

/// Rows of the same side are in strictly ascending path order.
pub open spec fn sides_sorted(rows: Seq<(Seq<char>, FileStatus, bool)>) -> bool {
    forall|a: int, b: int|
        0 <= a < b < rows.len() && rows[a].2 == rows[b].2 ==> path_lt(#[trigger] rows[a].0, #[trigger] rows[b].0)
}

/// The report classified, as rows of the two-section change list: each
/// changed path in path order, with an unstaged row, a staged row, or both.
pub fn status_items(entries: &Vec<StatusEntry>) -> (r: Vec<StatusItem>)
    ensures
        items_view(r@) == rows_of_states(listing_of(status_map(entries_view(entries@)))),
        sides_sorted(items_view(r@)),
{
    let ghost m = status_map(entries_view(entries@));
    let states = classify(entries);
    proof {
        let c = choose|r: Seq<FileState>| lists_map(r, m);
        lemma_listing_determined(m, states@, c);
    }
    let ghost sv = states_view(states@);
    let mut out: Vec<StatusItem> = Vec::new();
    let mut i: usize = 0;
    assert(sv.take(0) =~= Seq::<(Seq<char>, FileStatus, StagingStatus)>::empty());
    assert(items_view(out@) =~= rows_of_states(sv.take(0)));
    while i < states.len()
        invariant
            i <= states.len(),
            sv == states_view(states@),
            sorted_by_path(states@),
            items_view(out@) == rows_of_states(sv.take(i as int)),
            sides_sorted(items_view(out@)),
            forall|a: int, j: int|
                0 <= a < out@.len() && i <= j < states@.len() ==> path_lt(
                    #[trigger] out@[a].path@,
                    #[trigger] states@[j].path@,
                ),
        decreases states.len() - i,
    {
        let st = &states[i];
        assert(sv.take(i + 1).drop_last() =~= sv.take(i as int));
        assert(sv.take(i + 1).last() == st.view());
        let ghost before = items_view(out@);
        let ghost n0: int = out@.len() as int;
        let ghost old_out = out@;
        let ghost p = st.path@;
        match st.staging_status {
            StagingStatus::Staged => {},
            _ => {
                out.push(StatusItem { path: st.path.clone(), status: st.status, is_staged: false });
            },
        }
        match st.staging_status {
            StagingStatus::Unstaged => {},
            _ => {
                out.push(StatusItem { path: st.path.clone(), status: st.status, is_staged: true });
            },
        }
        assert(items_view(out@) =~= before + rows_of_state(st.view()));
        proof {
            let iv = items_view(out@);
            assert forall|a: int| 0 <= a < n0 implies #[trigger] out@[a] == old_out[a] by {}
            assert forall|a: int| n0 <= a < out@.len() implies #[trigger] out@[a].path@ == p by {}
            assert(out@.len() <= n0 + 2);
            assert(out@.len() == n0 + 2 ==> !out@[n0].is_staged && out@[n0 + 1].is_staged);
            assert forall|a: int, b: int|
                0 <= a < b < iv.len() && iv[a].2 == iv[b].2 implies path_lt(#[trigger] iv[a].0, #[trigger] iv[b].0) by {
                assert(iv[a] == out@[a].view() && iv[b] == out@[b].view());
                if b >= n0 {
                    if a < n0 {
                        assert(out@[a] == old_out[a]);
                        assert(path_lt(old_out[a].path@, states@[i as int].path@));
                    }
                } else {
                    assert(out@[a] == old_out[a] && out@[b] == old_out[b]);
                    assert(before[a] == old_out[a].view() && before[b] == old_out[b].view());
                }
            }
            assert forall|a: int, j: int|
                0 <= a < out@.len() && i + 1 <= j < states@.len() implies path_lt(
                    #[trigger] out@[a].path@,
                    #[trigger] states@[j].path@,
                ) by {
                if a >= n0 {
                    assert(path_lt(states@[i as int].path@, states@[j].path@));
                } else {
                    assert(out@[a] == old_out[a]);
                    assert(path_lt(old_out[a].path@, states@[j].path@));
                }
            }
        }
        i += 1;
    }
    assert(sv.take(states.len() as int) =~= sv);
    out
}

/// A path that is new in the index and modified in the working tree is
/// partially staged, and counts as new rather than modified, unless it is
/// in conflict.
pub proof fn lemma_new_in_index_modified_in_tree(f: ChangeFlags)
    requires
        f.has(INDEX_NEW),
        f.has(WT_MODIFIED),
        !f.has(CONFLICTED),
    ensures
        spec_staging(f) == Some(StagingStatus::PartiallyStaged),
        spec_file_status(f) == FileStatus::New,
{
}

/// Each path is reported at most once.
pub open spec fn unique_paths(e: Seq<(Seq<char>, ChangeFlags)>) -> bool {
    forall|i: int, j: int| 0 <= i < j < e.len() ==> #[trigger] e[i].0 != #[trigger] e[j].0
}

proof fn lemma_status_map_of_unique(e: Seq<(Seq<char>, ChangeFlags)>)
    requires
        unique_paths(e),
    ensures
        forall|p: Seq<char>|
            #[trigger] status_map(e).contains_key(p) <==> exists|i: int|
                0 <= i < e.len() && e[i].0 == p && spec_staging(e[i].1) is Some,
        forall|i: int|
            0 <= i < e.len() && spec_staging(#[trigger] e[i].1) is Some ==> status_map(e)[e[i].0] == (
                spec_file_status(e[i].1),
                spec_staging(e[i].1)->0,
            ),
    decreases e.len(),
{
    if e.len() > 0 {
        let prev = e.drop_last();
        assert(unique_paths(prev)) by {
            assert forall|i: int, j: int| 0 <= i < j < prev.len() implies #[trigger] prev[i].0
                != #[trigger] prev[j].0 by {
                assert(prev[i] == e[i] && prev[j] == e[j]);
            }
        }
        lemma_status_map_of_unique(prev);
        let n = e.len() - 1;
        let p = e[n].0;
        assert forall|i: int| 0 <= i < prev.len() implies #[trigger] prev[i].0 != p by {
            assert(prev[i] == e[i]);
        }
        assert forall|q: Seq<char>|
            #[trigger] status_map(e).contains_key(q) <==> exists|i: int|
                0 <= i < e.len() && e[i].0 == q && spec_staging(e[i].1) is Some by {
            if exists|i: int| 0 <= i < e.len() && e[i].0 == q && spec_staging(e[i].1) is Some {
                let i = choose|i: int| 0 <= i < e.len() && e[i].0 == q && spec_staging(e[i].1) is Some;
                if i < n {
                    assert(prev[i] == e[i]);
                }
            }
            if status_map(prev).contains_key(q) {
                let i = choose|i: int|
                    0 <= i < prev.len() && prev[i].0 == q && spec_staging(prev[i].1) is Some;
                assert(prev[i] == e[i]);
            }
        }
        assert forall|i: int|
            0 <= i < e.len() && spec_staging(#[trigger] e[i].1) is Some implies status_map(e)[e[i].0] == (
                spec_file_status(e[i].1),
                spec_staging(e[i].1)->0,
            ) by {
            if i < n {
                assert(prev[i] == e[i]);
                assert(spec_staging(prev[i].1) is Some);
            }
        }
    }
}

proof fn lemma_status_map_same_set(a: Seq<(Seq<char>, ChangeFlags)>, b: Seq<(Seq<char>, ChangeFlags)>)
    requires
        unique_paths(a),
        unique_paths(b),
        a.to_set() == b.to_set(),
    ensures
        status_map(a) == status_map(b),
{
    lemma_status_map_of_unique(a);
    lemma_status_map_of_unique(b);
    let ma = status_map(a);
    let mb = status_map(b);
    assert forall|p: Seq<char>| ma.contains_key(p) implies mb.contains_key(p) && ma[p] == mb[p] by {
        let i = choose|i: int| 0 <= i < a.len() && a[i].0 == p && spec_staging(a[i].1) is Some;
        assert(a.to_set().contains(a[i]));
        assert(b.contains(a[i]));
        let j = choose|j: int| 0 <= j < b.len() && b[j] == a[i];
        assert(spec_staging(b[j].1) is Some);
    }
    assert forall|p: Seq<char>| mb.contains_key(p) implies ma.contains_key(p) by {
        let j = choose|j: int| 0 <= j < b.len() && b[j].0 == p && spec_staging(b[j].1) is Some;
        assert(b.to_set().contains(b[j]));
        assert(a.contains(b[j]));
        let i = choose|i: int| 0 <= i < a.len() && a[i] == b[j];
        assert(spec_staging(a[i].1) is Some);
    }
    assert(ma =~= mb);
}

/// Classification depends on the reported set of paths and flags alone:
/// two reports of the same set, each path once, in any order, give the same
/// entries in the same order.
pub proof fn lemma_classify_order_free(
    a: Seq<(Seq<char>, ChangeFlags)>,
    b: Seq<(Seq<char>, ChangeFlags)>,
    ra: Seq<FileState>,
    rb: Seq<FileState>,
)
    requires
        unique_paths(a),
        unique_paths(b),
        a.to_set() == b.to_set(),
        lists_map(ra, status_map(a)),
        lists_map(rb, status_map(b)),
    ensures
        states_view(ra) == states_view(rb),
{
    lemma_status_map_same_set(a, b);
    lemma_listing_determined(status_map(a), ra, rb);
}

} // verus!
