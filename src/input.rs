//! Keyboard and mouse input: the command each input stands for, and its
//! application to the state.
use vstd::prelude::*;
use crate::app::{
    Action, ActivePanel, App, AppReturn, Mode, Popup, StatusMode, Task, changes_only, step,
    takes_text,
};
use crate::config::Key;

verus! {

/// The command a key press stands for in the current state: the open
/// popup takes keys first, then quit and help, then the keys of the view.
pub open spec fn key_action(a: App, key: Key) -> Option<Action> {
    let k = a.keys;
    if a.popup is Some {
        if takes_text(a.popup) {
            if key == k.close_popup {
                Some(Action::ClosePopup)
            } else if key == k.confirm {
                if a.popup == Some(Popup::Commit) {
                    Some(Action::Commit)
                } else if a.popup == Some(Popup::AddRemote) {
                    Some(Action::AddRemote)
                } else {
                    Some(Action::InitRepo)
                }
            } else {
                match key {
                    Key::Char(c) => Some(Action::Input(c)),
                    Key::Backspace => Some(Action::InputDelete),
                    Key::Left => Some(Action::CursorLeft),
                    Key::Right => Some(Action::CursorRight),
                    _ => None,
                }
            }
        } else if key == k.close_popup || key == k.confirm {
            Some(Action::ClosePopup)
        } else {
            None
        }
    } else if key == k.quit {
        Some(Action::Quit)
    } else if key == k.show_help {
        Some(Action::ShowHelp)
    } else {
        match a.mode {
            Mode::Status(sub) => if key == k.panel_left {
                Some(Action::FocusFiles)
            } else if key == k.panel_right {
                Some(Action::FocusDiff)
            } else if key == k.select_next || key == Key::Down {
                Some(Action::SelectNext)
            } else if key == k.select_prev || key == Key::Up {
                Some(Action::SelectPrevious)
            } else if sub == StatusMode::HunkSelection {
                None
            } else if key == k.select_first {
                Some(Action::SelectFirst)
            } else if key == k.select_last {
                Some(Action::SelectLast)
            } else if key == k.stage_item {
                Some(Action::Stage)
            } else if key == k.unstage_item {
                Some(Action::Unstage)
            } else if key == k.stage_all {
                Some(Action::StageAll)
            } else if key == k.unstage_all {
                Some(Action::UnstageAll)
            } else if key == k.confirm {
                Some(Action::OpenHunks)
            } else if key == k.log_mode {
                Some(Action::EnterLog)
            } else if key == k.commit {
                Some(Action::OpenCommit)
            } else if key == k.push {
                Some(Action::Push)
            } else if key == k.refresh {
                Some(Action::RefreshStatus)
            } else if key == k.add_remote {
                Some(Action::OpenAddRemote)
            } else if key == k.init_repo {
                Some(Action::OpenInitRepo)
            } else {
                None
            },
            Mode::Log => if key == k.status_mode {
                Some(Action::EnterStatus)
            } else if key == k.select_next || key == Key::Down {
                Some(Action::SelectNext)
            } else if key == k.select_prev || key == Key::Up {
                Some(Action::SelectPrevious)
            } else if key == k.refresh {
                Some(Action::RefreshLog)
            } else {
                None
            },
        }
    }
}

/// A screen rectangle.
#[derive(Clone, Copy, Debug, PartialEq, Eq, Structural)]
pub struct Rect {
    pub x: u16,
    pub y: u16,
    pub width: u16,
    pub height: u16,
}

/// What the mouse did.
#[derive(Clone, Copy, Debug, PartialEq, Eq, Structural)]
pub enum MouseKind {
    ScrollUp,
    ScrollDown,
    Down,
    Other,
}

/// A mouse event at a cell of the screen.
#[derive(Clone, Copy, Debug, PartialEq, Eq, Structural)]
pub struct MouseInput {
    pub kind: MouseKind,
    pub column: u16,
    pub row: u16,
}

/// The screen width the mouse layout assumes.
pub const TERMINAL_WIDTH: u16 = 200;
/// The width of the file panel: two fifths of the screen.
pub const FILES_PANEL_WIDTH: u16 = 80;

pub open spec fn files_panel() -> Rect {
    Rect { x: 0, y: 1, width: FILES_PANEL_WIDTH, height: 999 }
}

pub open spec fn diff_panel() -> Rect {
    Rect { x: FILES_PANEL_WIDTH, y: 1, width: (TERMINAL_WIDTH - FILES_PANEL_WIDTH) as u16, height: 999 }
}

pub open spec fn spec_is_inside(cx: u16, cy: u16, rect: Rect) -> bool {
    &&& cx >= rect.x
    &&& cx < rect.x + rect.width
    &&& cy >= rect.y
    &&& cy < rect.y + rect.height
}

/// The command a mouse event stands for: in the status view, scrolling moves
/// through the focused file list, a click on the file panel selects the row
/// under it, a click on the diff panel focuses it.
pub open spec fn mouse_action(a: App, ev: MouseInput) -> Option<Action> {
    if !(a.mode is Status) {
        None
    } else {
        match ev.kind {
            MouseKind::ScrollUp => if a.active_panel == ActivePanel::Files {
                Some(Action::SelectPrevious)
            } else {
                None
            },
            MouseKind::ScrollDown => if a.active_panel == ActivePanel::Files {
                Some(Action::SelectNext)
            } else {
                None
            },
            MouseKind::Down => if spec_is_inside(ev.column, ev.row, files_panel()) {
                Some(Action::SelectRow((if ev.row >= 1 { ev.row - 1 } else { 0 }) as usize))
            } else if spec_is_inside(ev.column, ev.row, diff_panel()) {
                Some(Action::FocusDiff)
            } else {
                None
            },
            MouseKind::Other => None,
        }
    }
}

/// Whether a cell lies inside a rectangle.
pub fn is_inside(cx: u16, cy: u16, rect: Rect) -> (r: bool)
    ensures
        r == spec_is_inside(cx, cy, rect),
{
    cx >= rect.x && (cx as u32) < rect.x as u32 + rect.width as u32 && cy >= rect.y && (cy as u32)
        < rect.y as u32 + rect.height as u32
}

impl App {
    /// The command a key press stands for.
    pub fn action_for_key(&self, key: Key) -> (r: Option<Action>)
        ensures
            r == key_action(*self, key),
    {
        let k = self.keys;
        if self.popup.is_some() {
            if self.popup_takes_text() {
                if key == k.close_popup {
                    Some(Action::ClosePopup)
                } else if key == k.confirm {
                    match self.popup {
                        Some(Popup::Commit) => Some(Action::Commit),
                        Some(Popup::AddRemote) => Some(Action::AddRemote),
                        _ => Some(Action::InitRepo),
                    }
                } else {
                    match key {
                        Key::Char(c) => Some(Action::Input(c)),
                        Key::Backspace => Some(Action::InputDelete),
                        Key::Left => Some(Action::CursorLeft),
                        Key::Right => Some(Action::CursorRight),
                        _ => None,
                    }
                }
            } else if key == k.close_popup || key == k.confirm {
                Some(Action::ClosePopup)
            } else {
                None
            }
        } else if key == k.quit {
            Some(Action::Quit)
        } else if key == k.show_help {
            Some(Action::ShowHelp)
        } else {
            match self.mode {
                Mode::Status(sub) => if key == k.panel_left {
                    Some(Action::FocusFiles)
                } else if key == k.panel_right {
                    Some(Action::FocusDiff)
                } else if key == k.select_next || key == Key::Down {
                    Some(Action::SelectNext)
                } else if key == k.select_prev || key == Key::Up {
                    Some(Action::SelectPrevious)
                } else if sub == StatusMode::HunkSelection {
                    None
                } else if key == k.select_first {
                    Some(Action::SelectFirst)
                } else if key == k.select_last {
                    Some(Action::SelectLast)
                } else if key == k.stage_item {
                    Some(Action::Stage)
                } else if key == k.unstage_item {
                    Some(Action::Unstage)
                } else if key == k.stage_all {
                    Some(Action::StageAll)
                } else if key == k.unstage_all {
                    Some(Action::UnstageAll)
                } else if key == k.confirm {
                    Some(Action::OpenHunks)
                } else if key == k.log_mode {
                    Some(Action::EnterLog)
                } else if key == k.commit {
                    Some(Action::OpenCommit)
                } else if key == k.push {
                    Some(Action::Push)
                } else if key == k.refresh {
                    Some(Action::RefreshStatus)
                } else if key == k.add_remote {
                    Some(Action::OpenAddRemote)
                } else if key == k.init_repo {
                    Some(Action::OpenInitRepo)
                } else {
                    None
                },
                Mode::Log => if key == k.status_mode {
                    Some(Action::EnterStatus)
                } else if key == k.select_next || key == Key::Down {
                    Some(Action::SelectNext)
                } else if key == k.select_prev || key == Key::Up {
                    Some(Action::SelectPrevious)
                } else if key == k.refresh {
                    Some(Action::RefreshLog)
                } else {
                    None
                },
            }
        }
    }

    /// Handles a key press: applies the command it stands for and says
    /// whether the program goes on, and what to launch.
    pub fn handle_key_event(&mut self, key: Key) -> (r: (AppReturn, Option<Task>))
        requires
            old(self).wf(),
        ensures
            final(self).wf(),
            match key_action(*old(self), key) {
                Some(a) => step(*old(self), *final(self), a, r.1),
                None => r.1 is None && changes_only(*old(self), *final(self), Set::empty()),
            },
            r.0 == (if key_action(*old(self), key) == Some(Action::Quit) && old(self).mode
                != Mode::Status(StatusMode::HunkSelection) {
                AppReturn::Exit
            } else {
                AppReturn::Continue
            }),
    {
        let leaving = self.mode != Mode::Status(StatusMode::HunkSelection);
        let action = self.action_for_key(key);
        let quits = leaving && match action {
            Some(Action::Quit) => true,
            _ => false,
        };
        let t = match action {
            Some(a) => self.apply(a),
            None => None,
        };
        if quits {
            (AppReturn::Exit, t)
        } else {
            (AppReturn::Continue, t)
        }
    }

    /// The command a mouse event stands for.
    pub fn action_for_mouse(&self, ev: MouseInput) -> (r: Option<Action>)
        ensures
            r == mouse_action(*self, ev),
    {
        if let Mode::Status(_) = self.mode {
            let files = Rect { x: 0, y: 1, width: FILES_PANEL_WIDTH, height: 999 };
            let diff = Rect {
                x: FILES_PANEL_WIDTH,
                y: 1,
                width: TERMINAL_WIDTH - FILES_PANEL_WIDTH,
                height: 999,
            };
            match ev.kind {
                MouseKind::ScrollUp => if self.active_panel == ActivePanel::Files {
                    Some(Action::SelectPrevious)
                } else {
                    None
                },
                MouseKind::ScrollDown => if self.active_panel == ActivePanel::Files {
                    Some(Action::SelectNext)
                } else {
                    None
                },
                MouseKind::Down => if is_inside(ev.column, ev.row, files) {
                    let row = if ev.row >= 1 {
                        ev.row - 1
                    } else {
                        0
                    };
                    Some(Action::SelectRow(row as usize))
                } else if is_inside(ev.column, ev.row, diff) {
                    Some(Action::FocusDiff)
                } else {
                    None
                },
                MouseKind::Other => None,
            }
        } else {
            None
        }
    }

    /// Handles a mouse event by applying the command it stands for.
    pub fn handle_mouse_event(&mut self, ev: MouseInput) -> (t: Option<Task>)
        requires
            old(self).wf(),
        ensures
            final(self).wf(),
            match mouse_action(*old(self), ev) {
                Some(a) => step(*old(self), *final(self), a, t),
                None => t is None && changes_only(*old(self), *final(self), Set::empty()),
            },
    {
        match self.action_for_mouse(ev) {
            Some(a) => self.apply(a),
            None => None,
        }
    }
}


/// Pressing confirm in the commit popup with no text typed (the confirm key
/// not being the key that closes popups) launches nothing and changes
/// nothing: the popup stays open.
pub proof fn lemma_confirm_empty_commit(a: App, b: App, key: Key, t: Option<Task>)
    requires
        a.popup == Some(Popup::Commit),
        a.input@.len() == 0,
        key == a.keys.confirm,
        key != a.keys.close_popup,
        step(a, b, Action::Commit, t),
    ensures
        key_action(a, key) == Some(Action::Commit),
        t is None,
        b.popup == Some(Popup::Commit),
        changes_only(a, b, Set::empty()),
{
}

/// Quitting from hunk selection goes back to file selection and keeps the
/// program running.
pub proof fn lemma_quit_leaves_hunk_selection(a: App, b: App, t: Option<Task>)
    requires
        a.mode == Mode::Status(StatusMode::HunkSelection),
        step(a, b, Action::Quit, t),
    ensures
        b.mode == Mode::Status(StatusMode::FileSelection),
        b.current_hunks@.len() == 0,
        b.hunk_selected is None,
        b.exiting == a.exiting,
        t is None,
{
}

} // verus!
