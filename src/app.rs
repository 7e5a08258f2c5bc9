//! The application state and the reducer that applies one action at a time
//! to it, deciding which background operation, if any, the action launches.
use vstd::prelude::*;
use vstd::string::StringExecFns;
use crate::config::{KeyBindings, default_bindings};
use crate::diff::{Hunk, push_char};
use crate::display::{
    StatusItemType, display_rows, rows_view, has_item, skip_headers_forward,
    skip_headers_backward, build_display_list, lands, lemma_display_rows_shape,
};
use crate::error::AppError;
use crate::history::CommitInfo;
use crate::nav::{Move, cursor_valid, is_forward, spec_move, spec_revalidate, move_cursor, revalidate};
use crate::status::{FileStatus, StatusItem, items_view};

verus! {

/// Whether the main loop goes on after an input.
#[derive(Clone, Copy, Debug, PartialEq, Eq, Structural)]
pub enum AppReturn {
    Continue,
    Exit,
}

/// What the status view is selecting.
#[derive(Clone, Copy, Debug, PartialEq, Eq, Structural)]
pub enum StatusMode {
    FileSelection,
    HunkSelection,
}

/// The view shown.
#[derive(Clone, Copy, Debug, PartialEq, Eq, Structural)]
pub enum Mode {
    Status(StatusMode),
    Log,
}

/// A popup over the view; at most one is open.
#[derive(Clone, Debug, PartialEq, Eq)]
pub enum Popup {
    Help,
    Commit,
    AddRemote,
    InitRepo,
    Pushing(String),
}

/// The panel of the status view that receives navigation.
#[derive(Clone, Copy, Debug, PartialEq, Eq, Structural)]
pub enum ActivePanel {
    Files,
    Diff,
}

/// The result of a background operation, sent back to the reducer.
#[derive(Debug)]
pub enum AppEvent {
    StatusUpdated(Result<Vec<StatusItem>, AppError>),
    LogUpdated(Result<Vec<CommitInfo>, AppError>),
    HunksLoaded(Result<Vec<Hunk>, AppError>),
    StageFinished(Result<(), AppError>),
    CommitFinished(Result<(), AppError>),
    RemoteAdded(Result<(), AppError>),
    RepoInitialized(Result<(), AppError>),
    PushFinished(Result<(), AppError>),
}

/// Every event the reducer recognizes: user commands and the results of
/// background operations.
#[derive(Debug)]
pub enum Action {
    Quit,
    ShowHelp,
    ClosePopup,
    EnterLog,
    EnterStatus,
    FocusFiles,
    FocusDiff,
    SelectNext,
    SelectPrevious,
    SelectFirst,
    SelectLast,
    SelectRow(usize),
    OpenHunks,
    Stage,
    Unstage,
    StageAll,
    UnstageAll,
    OpenCommit,
    Commit,
    OpenAddRemote,
    AddRemote,
    OpenInitRepo,
    InitRepo,
    Input(char),
    InputDelete,
    CursorLeft,
    CursorRight,
    Push,
    RefreshStatus,
    RefreshLog,
    Finished(AppEvent),
}

/// A background operation for the coordinator to launch; it sends exactly
/// one event back.
#[derive(Debug)]
pub enum Task {
    /// Read the status.
    RefreshStatus,
    /// Read the history.
    RefreshLog,
    /// Read the hunks of one row's diff.
    LoadHunks(StatusItem),
    Stage(String),
    Unstage(String),
    StageAll,
    UnstageAll,
    Commit(String),
    Push,
    AddRemote(String),
    /// Create a repository in the given directory.
    InitRepo(String),
}

/// The parts of the state, for saying which ones a transition may change.
pub enum Part {
    Rows,
    StatusCursor,
    Log,
    LogCursor,
    Hunks,
    HunkCursor,
    Input,
    Mode,
    Popup,
    Panel,
    Loading,
    Exiting,
    Message,
    Remote,
}

/// The single source of truth of the interface.
pub struct App {
    pub keys: KeyBindings,
    pub mode: Mode,
    pub popup: Option<Popup>,
    pub status_display_list: Vec<StatusItemType>,
    pub status_selected: Option<usize>,
    pub log_entries: Vec<CommitInfo>,
    pub log_selected: Option<usize>,
    pub input: Vec<char>,
    pub cursor_pos: usize,
    pub message: String,
    pub loading: bool,
    pub has_remote: bool,
    pub current_hunks: Vec<Hunk>,
    pub hunk_selected: Option<usize>,
    pub active_panel: ActivePanel,
    pub exiting: bool,
}

/// `b` differs from `a` in the listed parts at most.
pub open spec fn changes_only(a: App, b: App, parts: Set<Part>) -> bool {
    &&& (!parts.contains(Part::Rows) ==> b.status_display_list@ == a.status_display_list@)
    &&& (!parts.contains(Part::StatusCursor) ==> b.status_selected == a.status_selected)
    &&& (!parts.contains(Part::Log) ==> b.log_entries@ == a.log_entries@)
    &&& (!parts.contains(Part::LogCursor) ==> b.log_selected == a.log_selected)
    &&& (!parts.contains(Part::Hunks) ==> b.current_hunks@ == a.current_hunks@)
    &&& (!parts.contains(Part::HunkCursor) ==> b.hunk_selected == a.hunk_selected)
    &&& (!parts.contains(Part::Input) ==> b.input@ == a.input@ && b.cursor_pos == a.cursor_pos)
    &&& (!parts.contains(Part::Mode) ==> b.mode == a.mode)
    &&& (!parts.contains(Part::Popup) ==> b.popup == a.popup)
    &&& (!parts.contains(Part::Panel) ==> b.active_panel == a.active_panel)
    &&& (!parts.contains(Part::Loading) ==> b.loading == a.loading)
    &&& (!parts.contains(Part::Exiting) ==> b.exiting == a.exiting)
    &&& (!parts.contains(Part::Message) ==> b.message@ == a.message@)
    &&& (!parts.contains(Part::Remote) ==> b.has_remote == a.has_remote)
    &&& b.keys == a.keys
}

pub open spec fn clean_text() -> Seq<char> {
    "Working tree clean"@
}

pub open spec fn no_hunks_text() -> Seq<char> {
    "No hunks to select for this file."@
}

pub open spec fn add_remote_prompt() -> Seq<char> {
    "No remote configured. Enter the URL of the remote 'origin'."@
}

pub open spec fn pushing_text() -> Seq<char> {
    "Pushing..."@
}

pub open spec fn push_ok_text() -> Seq<char> {
    "Push successful!"@
}

pub open spec fn push_failed_text(e: AppError) -> Seq<char> {
    "Push failed: "@ + e.spec_text()
}

pub open spec fn committed_text() -> Seq<char> {
    "Commit successful."@
}

pub open spec fn remote_added_text() -> Seq<char> {
    "Remote 'origin' added."@
}

pub open spec fn init_prompt() -> Seq<char> {
    "Enter the path of the directory to initialize."@
}

pub open spec fn initialized_text() -> Seq<char> {
    "Repository initialized."@
}

/// The popup takes typed text.
pub open spec fn takes_text(p: Option<Popup>) -> bool {
    p == Some(Popup::Commit) || p == Some(Popup::AddRemote) || p == Some(Popup::InitRepo)
}

/// The item row under the cursor, when the file list has the focus.
pub open spec fn focused_item(a: App) -> Option<(Seq<char>, FileStatus, bool)> {
    match a.status_selected {
        Some(i) => if a.mode == Mode::Status(StatusMode::FileSelection) && a.active_panel
            == ActivePanel::Files && i < a.status_display_list@.len() {
            match a.status_display_list@[i as int] {
                StatusItemType::Item(it) => Some(it.view()),
                StatusItemType::Header(_) => None,
            }
        } else {
            None
        },
        None => None,
    }
}

impl App {
    /// The state is consistent: every cursor fits its list, the status
    /// cursor rests on an item row, and the text cursor lies in the text.
    pub open spec fn wf(&self) -> bool {
        &&& cursor_valid(self.status_selected, self.status_display_list@.len())
        &&& (self.status_selected matches Some(i) ==> self.status_display_list@[i as int] is Item)
        &&& (self.status_display_list@.len() > 0 ==> has_item(self.status_display_list@))
        &&& cursor_valid(self.log_selected, self.log_entries@.len())
        &&& cursor_valid(self.hunk_selected, self.current_hunks@.len())
        &&& self.cursor_pos <= self.input@.len()
    }

    pub open spec fn spec_exiting(&self) -> bool {
        self.exiting
    }
}


/// The status cursor moves over the rows of the file list, the hunk cursor
/// over the hunks, the log cursor over the history, as the mode decides;
/// the status cursor then skips header rows in the direction of the move.
pub open spec fn navigate_step(a: App, b: App, m: Move) -> bool {
    match a.mode {
        Mode::Status(StatusMode::FileSelection) => if a.active_panel == ActivePanel::Files
            && a.status_display_list@.len() > 0 {
            &&& lands(
                a.status_display_list@,
                spec_move(a.status_selected, a.status_display_list@.len(), m)->0 as int,
                is_forward(m),
                b.status_selected,
            )
            &&& changes_only(a, b, set![Part::StatusCursor])
        } else {
            changes_only(a, b, Set::empty())
        },
        Mode::Status(StatusMode::HunkSelection) => {
            &&& b.hunk_selected == spec_move(a.hunk_selected, a.current_hunks@.len(), m)
            &&& changes_only(a, b, set![Part::HunkCursor])
        },
        Mode::Log => {
            &&& b.log_selected == spec_move(a.log_selected, a.log_entries@.len(), m)
            &&& changes_only(a, b, set![Part::LogCursor])
        },
    }
}

/// A click on row `i` of the file list gives it the focus and puts the
/// cursor on the first item row from there.
pub open spec fn select_row_step(a: App, b: App, i: usize) -> bool {
    &&& b.active_panel == ActivePanel::Files
    &&& if a.mode is Status && i < a.status_display_list@.len() {
        &&& lands(a.status_display_list@, i as int, true, b.status_selected)
        &&& changes_only(a, b, set![Part::Panel, Part::StatusCursor])
    } else {
        changes_only(a, b, set![Part::Panel])
    }
}

/// Quitting leaves hunk selection first; from anywhere else it ends the program.
pub open spec fn quit_step(a: App, b: App) -> bool {
    if a.mode == Mode::Status(StatusMode::HunkSelection) {
        &&& b.mode == Mode::Status(StatusMode::FileSelection)
        &&& b.current_hunks@.len() == 0
        &&& b.hunk_selected is None
        &&& changes_only(a, b, set![Part::Mode, Part::Hunks, Part::HunkCursor])
    } else {
        b.exiting && changes_only(a, b, set![Part::Exiting])
    }
}

/// Typing and cursor keys edit the text of a popup that takes text, and
/// nothing else.
pub open spec fn edit_step(a: App, b: App, ok: bool, input: Seq<char>, cursor: int) -> bool {
    if takes_text(a.popup) && ok {
        &&& b.input@ == input
        &&& b.cursor_pos == cursor
        &&& changes_only(a, b, set![Part::Input])
    } else {
        changes_only(a, b, Set::empty())
    }
}

/// The characters as a string.
fn chars_to_string(v: &Vec<char>) -> (r: String)
    ensures
        r@ == v@,
{
    let mut s = String::new();
    let mut i: usize = 0;
    while i < v.len()
        invariant
            i <= v.len(),
            s@ == v@.take(i as int),
        decreases v.len() - i,
    {
        push_char(&mut s, v[i]);
        assert(v@.take(i + 1) =~= v@.take(i as int).push(v@[i as int]));
        i += 1;
    }
    assert(v@.take(v.len() as int) =~= v@);
    s
}

/// Where the status cursor settles when the list is replaced: kept,
/// clamped or started at the top, then moved down to an item row.
pub open spec fn settles(rows: Seq<StatusItemType>, old_sel: Option<usize>, new_sel: Option<usize>) -> bool {
    match spec_revalidate(old_sel, rows.len()) {
        None => new_sel is None,
        Some(c) => lands(rows, c as int, true, new_sel),
    }
}

/// A failed operation: its error is shown and loading ends.
pub open spec fn failed_step(a: App, b: App, e: AppError) -> bool {
    &&& !b.loading
    &&& b.message@ == e.spec_text()
    &&& changes_only(a, b, set![Part::Loading, Part::Message])
}

/// An operation starts in the background.
pub open spec fn launch_step(a: App, b: App, t: Option<Task>, task: Task) -> bool {
    &&& t == Some(task)
    &&& b.loading
    &&& changes_only(a, b, set![Part::Loading])
}

/// A new status report replaces the change list wholesale. An empty report
/// says the tree is clean and drops the hunks, leaving hunk selection.
pub open spec fn status_updated_step(a: App, b: App, items: Seq<StatusItem>) -> bool {
    &&& rows_view(b.status_display_list@) == display_rows(items_view(items))
    &&& settles(b.status_display_list@, a.status_selected, b.status_selected)
    &&& !b.loading
    &&& b.message@ == (if items.len() == 0 {
        clean_text()
    } else {
        Seq::<char>::empty()
    })
    &&& if items.len() == 0 {
        &&& b.current_hunks@.len() == 0
        &&& b.hunk_selected is None
        &&& b.mode == (if a.mode is Status {
            Mode::Status(StatusMode::FileSelection)
        } else {
            a.mode
        })
        &&& changes_only(
            a,
            b,
            set![Part::Rows, Part::StatusCursor, Part::Loading, Part::Message, Part::Hunks, Part::HunkCursor, Part::Mode],
        )
    } else {
        changes_only(a, b, set![Part::Rows, Part::StatusCursor, Part::Loading, Part::Message])
    }
}

/// Opening a popup that takes text starts it empty.
pub open spec fn open_text_popup(a: App, b: App, p: Popup) -> bool {
    &&& b.popup == Some(p)
    &&& b.input@.len() == 0
    &&& b.cursor_pos == 0
}

/// What a finished background operation does to the state, and what it
/// launches next.
pub open spec fn event_step(a: App, b: App, e: AppEvent, t: Option<Task>) -> bool {
    match e {
        AppEvent::StatusUpdated(Ok(items)) => t is None && status_updated_step(a, b, items@),
        AppEvent::LogUpdated(Ok(entries)) => {
            &&& t is None
            &&& !b.loading
            &&& b.log_entries@ == entries@
            &&& b.log_selected == spec_revalidate(a.log_selected, entries@.len())
            &&& changes_only(a, b, set![Part::Log, Part::LogCursor, Part::Loading])
        },
        AppEvent::LogUpdated(Err(err)) => t is None && failed_step(a, b, err),
        AppEvent::HunksLoaded(Ok(hunks)) => {
            &&& t is None
            &&& !b.loading
            &&& if hunks@.len() == 0 {
                b.message@ == no_hunks_text() && changes_only(a, b, set![Part::Loading, Part::Message])
            } else {
                &&& b.mode == Mode::Status(StatusMode::HunkSelection)
                &&& b.current_hunks@ == hunks@
                &&& b.hunk_selected == Some(0usize)
                &&& changes_only(a, b, set![Part::Loading, Part::Mode, Part::Hunks, Part::HunkCursor])
            }
        },
        AppEvent::StageFinished(Ok(_)) => launch_step(a, b, t, Task::RefreshStatus),
        AppEvent::CommitFinished(Ok(_)) => {
            &&& t == Some(Task::RefreshStatus)
            &&& b.loading
            &&& b.popup == (if a.popup == Some(Popup::Commit) {
                None
            } else {
                a.popup
            })
            &&& b.input@.len() == 0
            &&& b.cursor_pos == 0
            &&& b.message@ == committed_text()
            &&& changes_only(a, b, set![Part::Loading, Part::Popup, Part::Input, Part::Message])
        },
        AppEvent::RemoteAdded(Ok(_)) => {
            &&& t is None
            &&& b.has_remote
            &&& !b.loading
            &&& b.popup == (if a.popup == Some(Popup::AddRemote) {
                None
            } else {
                a.popup
            })
            &&& b.input@.len() == 0
            &&& b.cursor_pos == 0
            &&& b.message@ == remote_added_text()
            &&& changes_only(a, b, set![Part::Remote, Part::Loading, Part::Popup, Part::Input, Part::Message])
        },
        AppEvent::PushFinished(Ok(_)) => {
            &&& t is None
            &&& !b.loading
            &&& b.popup matches Some(Popup::Pushing(text))
            &&& b.popup->0->Pushing_0@ == push_ok_text()
            &&& changes_only(a, b, set![Part::Loading, Part::Popup])
        },
        AppEvent::PushFinished(Err(err)) => {
            &&& t is None
            &&& !b.loading
            &&& if err is NoRemote {
                &&& !b.has_remote
                &&& open_text_popup(a, b, Popup::AddRemote)
                &&& b.message@ == add_remote_prompt()
                &&& changes_only(a, b, set![Part::Loading, Part::Popup, Part::Input, Part::Message, Part::Remote])
            } else {
                &&& b.popup matches Some(Popup::Pushing(text))
                &&& b.popup->0->Pushing_0@ == push_failed_text(err)
                &&& changes_only(a, b, set![Part::Loading, Part::Popup])
            }
        },
        AppEvent::StatusUpdated(Err(err)) => t is None && failed_step(a, b, err),
        AppEvent::HunksLoaded(Err(err)) => t is None && failed_step(a, b, err),
        AppEvent::StageFinished(Err(err)) => t is None && failed_step(a, b, err),
        AppEvent::CommitFinished(Err(err)) => t is None && failed_step(a, b, err),
        AppEvent::RemoteAdded(Err(err)) => t is None && failed_step(a, b, err),
        AppEvent::RepoInitialized(Ok(_)) => {
            &&& t is None
            &&& !b.loading
            &&& b.popup == (if a.popup == Some(Popup::InitRepo) {
                None
            } else {
                a.popup
            })
            &&& b.input@.len() == 0
            &&& b.cursor_pos == 0
            &&& b.message@ == initialized_text()
            &&& changes_only(a, b, set![Part::Loading, Part::Popup, Part::Input, Part::Message])
        },
        AppEvent::RepoInitialized(Err(err)) => t is None && failed_step(a, b, err),
    }
}

/// Closing a popup; closing the push report refreshes the status.
pub open spec fn close_popup_step(a: App, b: App, t: Option<Task>) -> bool {
    &&& b.popup is None
    &&& if a.popup matches Some(Popup::Pushing(_)) {
        &&& t == Some(Task::RefreshStatus)
        &&& b.loading
        &&& changes_only(a, b, set![Part::Popup, Part::Loading])
    } else {
        t is None && changes_only(a, b, set![Part::Popup])
    }
}

/// Staging (or unstaging) asks the backend for the row under the cursor,
/// when it is an unstaged (or staged) row.
pub open spec fn stage_step(a: App, b: App, t: Option<Task>, staged: bool) -> bool {
    match focused_item(a) {
        Some(v) => if v.2 == staged {
            &&& b.loading
            &&& changes_only(a, b, set![Part::Loading])
            &&& if staged {
                t matches Some(Task::Unstage(p)) && p@ == v.0
            } else {
                t matches Some(Task::Stage(p)) && p@ == v.0
            }
        } else {
            t is None && changes_only(a, b, Set::empty())
        },
        None => t is None && changes_only(a, b, Set::empty()),
    }
}

/// The popups whose text is submitted to an operation.
pub open spec fn is_form(kind: Popup) -> bool {
    kind == Popup::Commit || kind == Popup::AddRemote || kind == Popup::InitRepo
}

/// Submitting the text of a popup launches its operation with that text;
/// with no text, or another popup open, it does nothing at all.
pub open spec fn submit_step(a: App, b: App, t: Option<Task>, kind: Popup) -> bool {
    if a.popup == Some(kind) && a.input@.len() > 0 {
        &&& b.loading
        &&& changes_only(a, b, set![Part::Loading])
        &&& match kind {
            Popup::Commit => t matches Some(Task::Commit(m)) && m@ == a.input@,
            Popup::AddRemote => t matches Some(Task::AddRemote(u)) && u@ == a.input@,
            _ => t matches Some(Task::InitRepo(d)) && d@ == a.input@,
        }
    } else {
        t is None && changes_only(a, b, Set::empty())
    }
}

/// Pushing opens the push popup and starts the push; whether a remote is
/// configured is for the backend to say, in the push's result.
pub open spec fn push_step(a: App, b: App, t: Option<Task>) -> bool {
    &&& t == Some(Task::Push)
    &&& b.loading
    &&& b.popup matches Some(Popup::Pushing(text))
    &&& b.popup->0->Pushing_0@ == pushing_text()
    &&& changes_only(a, b, set![Part::Popup, Part::Loading])
}

/// What one action does to the state, and the background operation it
/// launches, if any.
pub open spec fn step(a: App, b: App, action: Action, t: Option<Task>) -> bool {
    match action {
        Action::Quit => t is None && quit_step(a, b),
        Action::ShowHelp => t is None && b.popup == Some(Popup::Help) && changes_only(a, b, set![Part::Popup]),
        Action::ClosePopup => close_popup_step(a, b, t),
        Action::EnterLog => {
            &&& t == Some(Task::RefreshLog)
            &&& b.loading
            &&& b.mode == Mode::Log
            &&& b.current_hunks@.len() == 0
            &&& b.hunk_selected is None
            &&& changes_only(a, b, set![Part::Mode, Part::Hunks, Part::HunkCursor, Part::Loading])
        },
        Action::EnterStatus => t is None && if a.mode == Mode::Log {
            b.mode == Mode::Status(StatusMode::FileSelection) && changes_only(a, b, set![Part::Mode])
        } else {
            changes_only(a, b, Set::empty())
        },
        Action::FocusFiles => t is None && b.active_panel == ActivePanel::Files && changes_only(a, b, set![Part::Panel]),
        Action::FocusDiff => t is None && b.active_panel == ActivePanel::Diff && changes_only(a, b, set![Part::Panel]),
        Action::SelectNext => t is None && navigate_step(a, b, Move::Next),
        Action::SelectPrevious => t is None && navigate_step(a, b, Move::Previous),
        Action::SelectFirst => t is None && navigate_step(a, b, Move::First),
        Action::SelectLast => t is None && navigate_step(a, b, Move::Last),
        Action::SelectRow(i) => t is None && select_row_step(a, b, i),
        Action::OpenHunks => match focused_item(a) {
            Some(v) => {
                &&& t matches Some(Task::LoadHunks(it))
                &&& t->0->LoadHunks_0.view() == v
                &&& b.loading
                &&& changes_only(a, b, set![Part::Loading])
            },
            None => t is None && changes_only(a, b, Set::empty()),
        },
        Action::Stage => stage_step(a, b, t, false),
        Action::Unstage => stage_step(a, b, t, true),
        Action::StageAll => launch_step(a, b, t, Task::StageAll),
        Action::UnstageAll => launch_step(a, b, t, Task::UnstageAll),
        Action::OpenCommit => {
            &&& t is None
            &&& open_text_popup(a, b, Popup::Commit)
            &&& changes_only(a, b, set![Part::Popup, Part::Input])
        },
        Action::Commit => submit_step(a, b, t, Popup::Commit),
        Action::OpenAddRemote => {
            &&& t is None
            &&& open_text_popup(a, b, Popup::AddRemote)
            &&& b.message@ == add_remote_prompt()
            &&& changes_only(a, b, set![Part::Popup, Part::Input, Part::Message])
        },
        Action::AddRemote => submit_step(a, b, t, Popup::AddRemote),
        Action::OpenInitRepo => {
            &&& t is None
            &&& open_text_popup(a, b, Popup::InitRepo)
            &&& b.message@ == init_prompt()
            &&& changes_only(a, b, set![Part::Popup, Part::Input, Part::Message])
        },
        Action::InitRepo => submit_step(a, b, t, Popup::InitRepo),
        Action::Input(c) => t is None && edit_step(
            a,
            b,
            a.input@.len() < usize::MAX,
            a.input@.insert(a.cursor_pos as int, c),
            a.cursor_pos + 1,
        ),
        Action::InputDelete => t is None && edit_step(
            a,
            b,
            a.cursor_pos > 0,
            a.input@.remove(a.cursor_pos - 1),
            a.cursor_pos - 1,
        ),
        Action::CursorLeft => t is None && edit_step(a, b, a.cursor_pos > 0, a.input@, a.cursor_pos - 1),
        Action::CursorRight => t is None && edit_step(
            a,
            b,
            a.cursor_pos < a.input@.len(),
            a.input@,
            a.cursor_pos + 1,
        ),
        Action::Push => push_step(a, b, t),
        Action::RefreshStatus => launch_step(a, b, t, Task::RefreshStatus),
        Action::RefreshLog => launch_step(a, b, t, Task::RefreshLog),
        Action::Finished(e) => event_step(a, b, e, t),
    }
}

impl App {
    /// The state at startup: the status view with empty lists, nothing
    /// loaded yet, the default key bindings.
    pub fn new(has_remote: bool) -> (r: App)
        ensures
            r.wf(),
            r.keys == default_bindings(),
            r.mode == Mode::Status(StatusMode::FileSelection),
            r.popup is None,
            r.status_display_list@.len() == 0,
            r.status_selected is None,
            r.log_entries@.len() == 0,
            r.log_selected is None,
            r.input@.len() == 0,
            r.cursor_pos == 0,
            r.message@.len() == 0,
            !r.loading,
            r.has_remote == has_remote,
            r.current_hunks@.len() == 0,
            r.hunk_selected is None,
            r.active_panel == ActivePanel::Files,
            !r.exiting,
    {
        App {
            keys: KeyBindings::default(),
            mode: Mode::Status(StatusMode::FileSelection),
            popup: None,
            status_display_list: Vec::new(),
            status_selected: None,
            log_entries: Vec::new(),
            log_selected: None,
            input: Vec::new(),
            cursor_pos: 0,
            message: String::new(),
            loading: false,
            has_remote,
            current_hunks: Vec::new(),
            hunk_selected: None,
            active_panel: ActivePanel::Files,
            exiting: false,
        }
    }

    /// Whether the user asked to leave.
    pub fn is_exiting(&self) -> (r: bool)
        ensures
            r == self.exiting,
    {
        self.exiting
    }

    fn navigate(&mut self, m: Move)
        requires
            old(self).wf(),
        ensures
            final(self).wf(),
            navigate_step(*old(self), *final(self), m),
    {
        match self.mode {
            Mode::Status(StatusMode::FileSelection) => {
                if self.active_panel == ActivePanel::Files && self.status_display_list.len() > 0 {
                    let n = self.status_display_list.len();
                    let target = move_cursor(self.status_selected, n, m);
                    let start = match target {
                        Some(t) => t,
                        None => 0,
                    };
                    let landed = if m == Move::Next || m == Move::First {
                        skip_headers_forward(&self.status_display_list, start)
                    } else {
                        skip_headers_backward(&self.status_display_list, start)
                    };
                    self.status_selected = landed;
                }
            },
            Mode::Status(StatusMode::HunkSelection) => {
                self.hunk_selected = move_cursor(self.hunk_selected, self.current_hunks.len(), m);
            },
            Mode::Log => {
                self.log_selected = move_cursor(self.log_selected, self.log_entries.len(), m);
            },
        }
    }

    fn select_row(&mut self, i: usize)
        requires
            old(self).wf(),
        ensures
            final(self).wf(),
            select_row_step(*old(self), *final(self), i),
    {
        self.active_panel = ActivePanel::Files;
        if let Mode::Status(_) = self.mode {
            if i < self.status_display_list.len() {
                self.status_selected = skip_headers_forward(&self.status_display_list, i);
            }
        }
    }

    fn quit(&mut self)
        requires
            old(self).wf(),
        ensures
            final(self).wf(),
            quit_step(*old(self), *final(self)),
    {
        if self.mode == Mode::Status(StatusMode::HunkSelection) {
            self.mode = Mode::Status(StatusMode::FileSelection);
            self.current_hunks = Vec::new();
            self.hunk_selected = None;
        } else {
            self.exiting = true;
        }
    }

    pub(crate) fn popup_takes_text(&self) -> (r: bool)
        ensures
            r == takes_text(self.popup),
    {
        match &self.popup {
            Some(Popup::Commit) => true,
            Some(Popup::AddRemote) => true,
            Some(Popup::InitRepo) => true,
            _ => false,
        }
    }

    fn insert_char(&mut self, c: char)
        requires
            old(self).wf(),
        ensures
            final(self).wf(),
            edit_step(
                *old(self),
                *final(self),
                old(self).input@.len() < usize::MAX,
                old(self).input@.insert(old(self).cursor_pos as int, c),
                old(self).cursor_pos + 1,
            ),
    {
        if self.popup_takes_text() && self.input.len() < usize::MAX {
            self.input.insert(self.cursor_pos, c);
            self.cursor_pos = self.cursor_pos + 1;
        }
    }

    fn delete_char(&mut self)
        requires
            old(self).wf(),
        ensures
            final(self).wf(),
            edit_step(
                *old(self),
                *final(self),
                old(self).cursor_pos > 0,
                old(self).input@.remove(old(self).cursor_pos - 1),
                old(self).cursor_pos - 1,
            ),
    {
        if self.popup_takes_text() && self.cursor_pos > 0 {
            self.cursor_pos = self.cursor_pos - 1;
            self.input.remove(self.cursor_pos);
        }
    }

    fn cursor_left(&mut self)
        requires
            old(self).wf(),
        ensures
            final(self).wf(),
            edit_step(*old(self), *final(self), old(self).cursor_pos > 0, old(self).input@, old(self).cursor_pos - 1),
    {
        if self.popup_takes_text() && self.cursor_pos > 0 {
            self.cursor_pos = self.cursor_pos - 1;
        }
    }

    fn cursor_right(&mut self)
        requires
            old(self).wf(),
        ensures
            final(self).wf(),
            edit_step(
                *old(self),
                *final(self),
                old(self).cursor_pos < old(self).input@.len(),
                old(self).input@,
                old(self).cursor_pos + 1,
            ),
    {
        if self.popup_takes_text() && self.cursor_pos < self.input.len() {
            self.cursor_pos = self.cursor_pos + 1;
        }
    }
}


impl App {
    fn fail(&mut self, e: AppError)
        requires
            old(self).wf(),
        ensures
            final(self).wf(),
            failed_step(*old(self), *final(self), e),
    {
        self.loading = false;
        self.message = e.text();
    }

    fn clear_input(&mut self)
        ensures
            final(self).input@.len() == 0,
            final(self).cursor_pos == 0,
            changes_only(*old(self), *final(self), set![Part::Input]),
    {
        self.input = Vec::new();
        self.cursor_pos = 0;
    }

    fn status_updated(&mut self, items: Vec<StatusItem>)
        requires
            old(self).wf(),
        ensures
            final(self).wf(),
            status_updated_step(*old(self), *final(self), items@),
    {
        let rows = build_display_list(&items);
        proof {
            lemma_display_rows_shape(rows@, items_view(items@));
        }
        let n = rows.len();
        self.status_display_list = rows;
        let c = revalidate(self.status_selected, n);
        self.status_selected = match c {
            None => None,
            Some(c) => skip_headers_forward(&self.status_display_list, c),
        };
        self.loading = false;
        if items.len() == 0 {
            self.message = String::from_str("Working tree clean");
            self.current_hunks = Vec::new();
            self.hunk_selected = None;
            if let Mode::Status(_) = self.mode {
                self.mode = Mode::Status(StatusMode::FileSelection);
            }
        } else {
            self.message = String::new();
        }
    }

    /// Replaces the change list, then the history, with fresh reports of
    /// both: the two successful refreshes applied one after the other.
    pub fn refresh(&mut self, items: Vec<StatusItem>, log_entries: Vec<CommitInfo>)
        requires
            old(self).wf(),
        ensures
            final(self).wf(),
            exists|mid: App|
                status_updated_step(*old(self), mid, items@) && #[trigger] mid.wf() && final(self).log_entries@
                    == log_entries@ && final(self).log_selected == spec_revalidate(
                    mid.log_selected,
                    log_entries@.len(),
                ) && changes_only(mid, *final(self), set![Part::Log, Part::LogCursor]),
    {
        self.status_updated(items);
        let ghost mid = *self;
        let n = log_entries.len();
        self.log_entries = log_entries;
        self.log_selected = revalidate(self.log_selected, n);
        assert(status_updated_step(*old(self), mid, items@) && mid.wf());
    }

    /// Applies the result of a background operation.
    pub fn handle_app_event(&mut self, event: AppEvent) -> (t: Option<Task>)
        requires
            old(self).wf(),
        ensures
            final(self).wf(),
            event_step(*old(self), *final(self), event, t),
    {
        match event {
            AppEvent::StatusUpdated(Ok(items)) => {
                self.status_updated(items);
                None
            },
            AppEvent::LogUpdated(Ok(entries)) => {
                let n = entries.len();
                self.log_entries = entries;
                self.log_selected = revalidate(self.log_selected, n);
                self.loading = false;
                None
            },
            AppEvent::LogUpdated(Err(e)) => {
                self.fail(e);
                None
            },
            AppEvent::HunksLoaded(Ok(hunks)) => {
                self.loading = false;
                if hunks.len() == 0 {
                    self.message = String::from_str("No hunks to select for this file.");
                } else {
                    self.mode = Mode::Status(StatusMode::HunkSelection);
                    self.current_hunks = hunks;
                    self.hunk_selected = Some(0);
                }
                None
            },
            AppEvent::StageFinished(Ok(_)) => {
                self.loading = true;
                Some(Task::RefreshStatus)
            },
            AppEvent::CommitFinished(Ok(_)) => {
                if let Some(Popup::Commit) = self.popup {
                    self.popup = None;
                }
                self.clear_input();
                self.message = String::from_str("Commit successful.");
                self.loading = true;
                Some(Task::RefreshStatus)
            },
            AppEvent::RemoteAdded(Ok(_)) => {
                self.has_remote = true;
                self.loading = false;
                if let Some(Popup::AddRemote) = self.popup {
                    self.popup = None;
                }
                self.clear_input();
                self.message = String::from_str("Remote 'origin' added.");
                None
            },
            AppEvent::PushFinished(Ok(_)) => {
                self.loading = false;
                self.popup = Some(Popup::Pushing(String::from_str("Push successful!")));
                None
            },
            AppEvent::PushFinished(Err(e)) => {
                self.loading = false;
                if e.is_no_remote() {
                    self.has_remote = false;
                    self.popup = Some(Popup::AddRemote);
                    self.clear_input();
                    self.message = String::from_str(
                        "No remote configured. Enter the URL of the remote 'origin'.",
                    );
                } else {
                    let mut text = String::from_str("Push failed: ");
                    let detail = e.text();
                    text.append(detail.as_str());
                    self.popup = Some(Popup::Pushing(text));
                }
                None
            },
            AppEvent::StatusUpdated(Err(e)) => {
                self.fail(e);
                None
            },
            AppEvent::HunksLoaded(Err(e)) => {
                self.fail(e);
                None
            },
            AppEvent::StageFinished(Err(e)) => {
                self.fail(e);
                None
            },
            AppEvent::CommitFinished(Err(e)) => {
                self.fail(e);
                None
            },
            AppEvent::RepoInitialized(Ok(_)) => {
                self.loading = false;
                if let Some(Popup::InitRepo) = self.popup {
                    self.popup = None;
                }
                self.clear_input();
                self.message = String::from_str("Repository initialized.");
                None
            },
            AppEvent::RepoInitialized(Err(e)) => {
                self.fail(e);
                None
            },
            AppEvent::RemoteAdded(Err(e)) => {
                self.fail(e);
                None
            },
        }
    }
}


impl App {
    fn focused_row(&self) -> (r: Option<&StatusItem>)
        requires
            self.wf(),
        ensures
            match focused_item(*self) {
                Some(v) => r matches Some(it) && it.view() == v,
                None => r is None,
            },
    {
        if self.mode == Mode::Status(StatusMode::FileSelection) && self.active_panel == ActivePanel::Files {
            match self.status_selected {
                Some(i) => match &self.status_display_list[i] {
                    StatusItemType::Item(it) => Some(it),
                    StatusItemType::Header(_) => None,
                },
                None => None,
            }
        } else {
            None
        }
    }

    fn stage_focused(&mut self, staged: bool) -> (t: Option<Task>)
        requires
            old(self).wf(),
        ensures
            final(self).wf(),
            stage_step(*old(self), *final(self), t, staged),
    {
        let path = match self.focused_row() {
            Some(it) => if it.is_staged == staged {
                Some(it.path.clone())
            } else {
                None
            },
            None => None,
        };
        match path {
            Some(p) => {
                self.loading = true;
                if staged {
                    Some(Task::Unstage(p))
                } else {
                    Some(Task::Stage(p))
                }
            },
            None => None,
        }
    }

    fn submit(&mut self, kind: Popup) -> (t: Option<Task>)
        requires
            old(self).wf(),
            is_form(kind),
        ensures
            final(self).wf(),
            submit_step(*old(self), *final(self), t, kind),
    {
        let open = match (&self.popup, &kind) {
            (Some(Popup::Commit), Popup::Commit) => true,
            (Some(Popup::AddRemote), Popup::AddRemote) => true,
            (Some(Popup::InitRepo), Popup::InitRepo) => true,
            _ => false,
        };
        if open && self.input.len() > 0 {
            let text = chars_to_string(&self.input);
            self.loading = true;
            match kind {
                Popup::Commit => Some(Task::Commit(text)),
                Popup::AddRemote => Some(Task::AddRemote(text)),
                _ => Some(Task::InitRepo(text)),
            }
        } else {
            None
        }
    }

    fn push(&mut self) -> (t: Option<Task>)
        requires
            old(self).wf(),
        ensures
            final(self).wf(),
            push_step(*old(self), *final(self), t),
    {
        self.popup = Some(Popup::Pushing(String::from_str("Pushing...")));
        self.loading = true;
        Some(Task::Push)
    }

    /// Applies one action to the state and says which background operation
    /// it launches, if any.
    pub fn apply(&mut self, action: Action) -> (t: Option<Task>)
        requires
            old(self).wf(),
        ensures
            final(self).wf(),
            step(*old(self), *final(self), action, t),
    {
        match action {
            Action::Quit => {
                self.quit();
                None
            },
            Action::ShowHelp => {
                self.popup = Some(Popup::Help);
                None
            },
            Action::ClosePopup => {
                let refresh = match &self.popup {
                    Some(Popup::Pushing(_)) => true,
                    _ => false,
                };
                self.popup = None;
                if refresh {
                    self.loading = true;
                    Some(Task::RefreshStatus)
                } else {
                    None
                }
            },
            Action::EnterLog => {
                self.mode = Mode::Log;
                self.current_hunks = Vec::new();
                self.hunk_selected = None;
                self.loading = true;
                Some(Task::RefreshLog)
            },
            Action::EnterStatus => {
                if self.mode == Mode::Log {
                    self.mode = Mode::Status(StatusMode::FileSelection);
                }
                None
            },
            Action::FocusFiles => {
                self.active_panel = ActivePanel::Files;
                None
            },
            Action::FocusDiff => {
                self.active_panel = ActivePanel::Diff;
                None
            },
            Action::SelectNext => {
                self.navigate(Move::Next);
                None
            },
            Action::SelectPrevious => {
                self.navigate(Move::Previous);
                None
            },
            Action::SelectFirst => {
                self.navigate(Move::First);
                None
            },
            Action::SelectLast => {
                self.navigate(Move::Last);
                None
            },
            Action::SelectRow(i) => {
                self.select_row(i);
                None
            },
            Action::OpenHunks => {
                let item = match self.focused_row() {
                    Some(it) => Some(it.duplicate()),
                    None => None,
                };
                match item {
                    Some(it) => {
                        self.loading = true;
                        Some(Task::LoadHunks(it))
                    },
                    None => None,
                }
            },
            Action::Stage => self.stage_focused(false),
            Action::Unstage => self.stage_focused(true),
            Action::StageAll => {
                self.loading = true;
                Some(Task::StageAll)
            },
            Action::UnstageAll => {
                self.loading = true;
                Some(Task::UnstageAll)
            },
            Action::OpenCommit => {
                self.popup = Some(Popup::Commit);
                self.clear_input();
                None
            },
            Action::Commit => self.submit(Popup::Commit),
            Action::OpenAddRemote => {
                self.popup = Some(Popup::AddRemote);
                self.clear_input();
                self.message = String::from_str(
                    "No remote configured. Enter the URL of the remote 'origin'.",
                );
                None
            },
            Action::AddRemote => self.submit(Popup::AddRemote),
            Action::OpenInitRepo => {
                self.popup = Some(Popup::InitRepo);
                self.clear_input();
                self.message = String::from_str("Enter the path of the directory to initialize.");
                None
            },
            Action::InitRepo => self.submit(Popup::InitRepo),
            Action::Input(c) => {
                self.insert_char(c);
                None
            },
            Action::InputDelete => {
                self.delete_char();
                None
            },
            Action::CursorLeft => {
                self.cursor_left();
                None
            },
            Action::CursorRight => {
                self.cursor_right();
                None
            },
            Action::Push => self.push(),
            Action::RefreshStatus => {
                self.loading = true;
                Some(Task::RefreshStatus)
            },
            Action::RefreshLog => {
                self.loading = true;
                Some(Task::RefreshLog)
            },
            Action::Finished(e) => self.handle_app_event(e),
        }
    }

    /// The item row under the status cursor, if the cursor is on one.
    pub fn get_selected_status_item(&self) -> (r: Option<StatusItem>)
        requires
            self.wf(),
        ensures
            match self.status_selected {
                Some(i) => match self.status_display_list@[i as int] {
                    StatusItemType::Item(it) => r matches Some(x) && x.view() == it.view(),
                    StatusItemType::Header(_) => r is None,
                },
                None => r is None,
            },
    {
        match self.status_selected {
            Some(i) => match &self.status_display_list[i] {
                StatusItemType::Item(it) => Some(it.duplicate()),
                StatusItemType::Header(_) => None,
            },
            None => None,
        }
    }
}


/// A status report with no paths, from any state: the tree is reported
/// clean and neither the status cursor nor the hunk cursor remains.
pub proof fn lemma_clean_report(a: App, b: App, items: Vec<StatusItem>, t: Option<Task>)
    requires
        a.wf(),
        b.wf(),
        items@.len() == 0,
        step(a, b, Action::Finished(AppEvent::StatusUpdated(Ok(items))), t),
    ensures
        b.message@ == clean_text(),
        b.status_selected is None,
        b.hunk_selected is None,
        b.status_display_list@.len() == 0,
        t is None,
{
    lemma_display_rows_shape(b.status_display_list@, items_view(items@));
}

/// A push that the backend answers with "no remote configured": the push
/// popup opens, then the failed result replaces it with the add-remote
/// prompt; the lists and their cursors stay as they were.
pub proof fn lemma_push_without_remote(a: App, b: App, c: App, t1: Option<Task>, t2: Option<Task>)
    requires
        step(a, b, Action::Push, t1),
        step(b, c, Action::Finished(AppEvent::PushFinished(Err(AppError::NoRemote))), t2),
    ensures
        t1 == Some(Task::Push),
        b.popup matches Some(Popup::Pushing(text)) && text@ == pushing_text(),
        t2 is None,
        !c.has_remote,
        c.popup == Some(Popup::AddRemote),
        c.status_display_list@ == a.status_display_list@,
        c.status_selected == a.status_selected,
        c.log_entries@ == a.log_entries@,
        c.log_selected == a.log_selected,
        c.current_hunks@ == a.current_hunks@,
        c.hunk_selected == a.hunk_selected,
{
}

/// Two status reports applied one after the other: the later one alone
/// makes the change list; nothing of the earlier one is merged in.
pub proof fn lemma_last_status_wins(
    a: App,
    b: App,
    c: App,
    first: Vec<StatusItem>,
    second: Vec<StatusItem>,
    t1: Option<Task>,
    t2: Option<Task>,
)
    requires
        step(a, b, Action::Finished(AppEvent::StatusUpdated(Ok(first))), t1),
        step(b, c, Action::Finished(AppEvent::StatusUpdated(Ok(second))), t2),
    ensures
        rows_view(c.status_display_list@) == display_rows(items_view(second@)),
{
}

/// Committing with no text launches nothing and leaves the state as it was.
pub proof fn lemma_empty_commit_does_nothing(a: App, b: App, t: Option<Task>)
    requires
        a.input@.len() == 0,
        step(a, b, Action::Commit, t),
    ensures
        t is None,
        changes_only(a, b, Set::empty()),
{
}

} // verus!
