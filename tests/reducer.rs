use dotatui::app::{
    Action, ActivePanel, App, AppEvent, AppReturn, Mode, Popup, StatusMode, Task,
};
use dotatui::config::Key;
use dotatui::input::{MouseInput, MouseKind};
use dotatui::preview::same_target;
use dotatui::diff::Hunk;
use dotatui::display::StatusItemType;
use dotatui::error::AppError;
use dotatui::history::CommitInfo;
use dotatui::status::{FileStatus, StatusItem};

fn item(path: &str, staged: bool) -> StatusItem {
    StatusItem { path: path.to_string(), status: FileStatus::Modified, is_staged: staged }
}

fn status(app: &mut App, items: Vec<StatusItem>) -> Option<Task> {
    app.apply(Action::Finished(AppEvent::StatusUpdated(Ok(items))))
}

fn row_paths(app: &App) -> Vec<String> {
    app.status_display_list
        .iter()
        .map(|r| match r {
            StatusItemType::Header(t) => format!("# {}", t),
            StatusItemType::Item(i) => i.path.clone(),
        })
        .collect()
}

fn hunk(header: &str) -> Hunk {
    Hunk { header: header.to_string(), lines: Vec::new() }
}

fn commit(id: &str) -> CommitInfo {
    CommitInfo { id: id.to_string(), message: String::new(), author: String::new(), time: String::new() }
}

#[test]
fn empty_repository_is_clean_and_has_no_cursors() {
    let mut app = App::new(true);
    status(&mut app, vec![item("a", false), item("b", true)]);
    app.apply(Action::Finished(AppEvent::HunksLoaded(Ok(vec![hunk("@@ -1 +1 @@")]))));
    assert_eq!(app.mode, Mode::Status(StatusMode::HunkSelection));
    let t = status(&mut app, Vec::new());
    assert!(t.is_none());
    assert_eq!(app.message, "Working tree clean");
    assert_eq!(app.status_selected, None);
    assert_eq!(app.hunk_selected, None);
    assert!(app.status_display_list.is_empty());
    assert!(app.current_hunks.is_empty());
    assert_eq!(app.mode, Mode::Status(StatusMode::FileSelection));
}

#[test]
fn push_without_remote_opens_add_remote_popup() {
    let mut app = App::new(false);
    status(&mut app, vec![item("a", false)]);
    let before = row_paths(&app);
    let t = app.apply(Action::Push);
    assert!(matches!(t, Some(Task::Push)));
    assert_eq!(app.popup, Some(Popup::Pushing("Pushing...".to_string())));
    assert!(app.loading);
    let t = app.apply(Action::Finished(AppEvent::PushFinished(Err(AppError::NoRemote))));
    assert!(t.is_none());
    assert_eq!(app.popup, Some(Popup::AddRemote));
    assert!(!app.has_remote);
    assert!(!app.loading);
    assert_eq!(app.message, "No remote configured. Enter the URL of the remote 'origin'.");
    assert_eq!(row_paths(&app), before);
    assert_eq!(app.status_selected, Some(1));
}

#[test]
fn push_with_remote_starts_push() {
    let mut app = App::new(true);
    let t = app.apply(Action::Push);
    assert!(matches!(t, Some(Task::Push)));
    assert!(app.loading);
    assert_eq!(app.popup, Some(Popup::Pushing("Pushing...".to_string())));
    app.apply(Action::Finished(AppEvent::PushFinished(Ok(()))));
    assert_eq!(app.popup, Some(Popup::Pushing("Push successful!".to_string())));
    assert!(!app.loading);
    let t = app.apply(Action::ClosePopup);
    assert!(matches!(t, Some(Task::RefreshStatus)));
    assert_eq!(app.popup, None);
}

#[test]
fn failed_push_reports_error() {
    let mut app = App::new(true);
    app.apply(Action::Push);
    app.apply(Action::Finished(AppEvent::PushFinished(Err(AppError::PushFailed("rejected".to_string())))));
    assert_eq!(app.popup, Some(Popup::Pushing("Push failed: Push failed: rejected".to_string())));
}

#[test]
fn last_status_update_wins() {
    let mut app = App::new(true);
    let t1 = app.apply(Action::RefreshStatus);
    let t2 = app.apply(Action::RefreshStatus);
    assert!(matches!(t1, Some(Task::RefreshStatus)));
    assert!(matches!(t2, Some(Task::RefreshStatus)));
    assert!(app.loading);
    status(&mut app, vec![item("second", false)]);
    status(&mut app, vec![item("first-a", true), item("first-b", true)]);
    assert_eq!(row_paths(&app), vec!["# Staged changes:", "first-a", "first-b"]);
    assert!(!app.loading);
}

#[test]
fn commit_with_empty_input_does_nothing() {
    let mut app = App::new(true);
    app.apply(Action::OpenCommit);
    assert_eq!(app.popup, Some(Popup::Commit));
    let t = app.apply(Action::Commit);
    assert!(t.is_none());
    assert_eq!(app.popup, Some(Popup::Commit));
    assert!(!app.loading);
}

#[test]
fn commit_sends_typed_message() {
    let mut app = App::new(true);
    app.handle_key_event(Key::Char('c'));
    for c in "fix it".chars() {
        app.handle_key_event(Key::Char(c));
    }
    app.handle_key_event(Key::Backspace);
    let (ret, t) = app.handle_key_event(Key::Enter);
    assert_eq!(ret, AppReturn::Continue);
    match t {
        Some(Task::Commit(m)) => assert_eq!(m, "fix i"),
        other => panic!("unexpected task {:?}", other),
    }
    let t = app.apply(Action::Finished(AppEvent::CommitFinished(Ok(()))));
    assert!(matches!(t, Some(Task::RefreshStatus)));
    assert_eq!(app.popup, None);
    assert!(app.input.is_empty());
    assert_eq!(app.message, "Commit successful.");
}

#[test]
fn input_edits_at_cursor() {
    let mut app = App::new(true);
    app.apply(Action::OpenCommit);
    app.apply(Action::Input('a'));
    app.apply(Action::Input('c'));
    app.apply(Action::CursorLeft);
    app.apply(Action::Input('b'));
    assert_eq!(app.input, vec!['a', 'b', 'c']);
    assert_eq!(app.cursor_pos, 2);
    app.apply(Action::CursorRight);
    app.apply(Action::CursorRight);
    assert_eq!(app.cursor_pos, 3);
    app.apply(Action::InputDelete);
    assert_eq!(app.input, vec!['a', 'b']);
}

#[test]
fn input_outside_text_popup_is_ignored() {
    let mut app = App::new(true);
    app.apply(Action::Input('x'));
    assert!(app.input.is_empty());
    app.apply(Action::ShowHelp);
    app.apply(Action::Input('x'));
    assert!(app.input.is_empty());
}

#[test]
fn display_list_groups_staged_first() {
    let mut app = App::new(true);
    status(&mut app, vec![item("u1", false), item("s1", true), item("u2", false)]);
    assert_eq!(row_paths(&app), vec!["# Staged changes:", "s1", "# Unstaged changes:", "u1", "u2"]);
    assert_eq!(app.status_selected, Some(1));
    assert_eq!(app.message, "");
}

#[test]
fn navigation_skips_headers_and_wraps() {
    let mut app = App::new(true);
    status(&mut app, vec![item("u1", false), item("s1", true), item("u2", false)]);
    app.apply(Action::SelectNext);
    assert_eq!(app.status_selected, Some(3));
    app.apply(Action::SelectNext);
    assert_eq!(app.status_selected, Some(4));
    app.apply(Action::SelectNext);
    assert_eq!(app.status_selected, Some(1));
    app.apply(Action::SelectPrevious);
    assert_eq!(app.status_selected, Some(4));
    app.apply(Action::SelectFirst);
    assert_eq!(app.status_selected, Some(1));
    app.apply(Action::SelectLast);
    assert_eq!(app.status_selected, Some(4));
}

#[test]
fn cursor_clamps_when_list_shrinks() {
    let mut app = App::new(true);
    status(&mut app, vec![item("a", false), item("b", false), item("c", false)]);
    app.apply(Action::SelectLast);
    assert_eq!(app.status_selected, Some(3));
    status(&mut app, vec![item("a", false)]);
    assert_eq!(app.status_selected, Some(1));
}

#[test]
fn stage_and_unstage_follow_the_row() {
    let mut app = App::new(true);
    status(&mut app, vec![item("s", true), item("u", false)]);
    assert!(app.apply(Action::Unstage).is_some());
    let t = app.apply(Action::Stage);
    assert!(t.is_none());
    app.apply(Action::SelectNext);
    match app.apply(Action::Stage) {
        Some(Task::Stage(p)) => assert_eq!(p, "u"),
        other => panic!("unexpected task {:?}", other),
    }
    let t = app.apply(Action::Finished(AppEvent::StageFinished(Ok(()))));
    assert!(matches!(t, Some(Task::RefreshStatus)));
}

#[test]
fn stage_error_is_shown() {
    let mut app = App::new(true);
    app.apply(Action::StageAll);
    assert!(app.loading);
    app.apply(Action::Finished(AppEvent::StageFinished(Err(AppError::Git("locked".to_string())))));
    assert!(!app.loading);
    assert_eq!(app.message, "Git Error: locked");
}

#[test]
fn hunks_open_and_close() {
    let mut app = App::new(true);
    status(&mut app, vec![item("f", false)]);
    match app.apply(Action::OpenHunks) {
        Some(Task::LoadHunks(it)) => assert_eq!(it.path, "f"),
        other => panic!("unexpected task {:?}", other),
    }
    app.apply(Action::Finished(AppEvent::HunksLoaded(Ok(vec![hunk("h1"), hunk("h2")]))));
    assert_eq!(app.mode, Mode::Status(StatusMode::HunkSelection));
    assert_eq!(app.hunk_selected, Some(0));
    app.apply(Action::SelectPrevious);
    assert_eq!(app.hunk_selected, Some(1));
    let (ret, _) = app.handle_key_event(Key::Char('q'));
    assert_eq!(ret, AppReturn::Continue);
    assert_eq!(app.mode, Mode::Status(StatusMode::FileSelection));
    assert_eq!(app.hunk_selected, None);
}

#[test]
fn empty_hunk_list_stays_in_file_selection() {
    let mut app = App::new(true);
    app.apply(Action::Finished(AppEvent::HunksLoaded(Ok(Vec::new()))));
    assert_eq!(app.mode, Mode::Status(StatusMode::FileSelection));
    assert_eq!(app.message, "No hunks to select for this file.");
}

#[test]
fn log_updates_keep_cursor_in_range() {
    let mut app = App::new(true);
    app.apply(Action::Finished(AppEvent::LogUpdated(Ok(vec![commit("a"), commit("b"), commit("c")]))));
    assert_eq!(app.log_selected, Some(0));
    let t = app.apply(Action::EnterLog);
    assert!(matches!(t, Some(Task::RefreshLog)));
    assert!(app.loading);
    app.apply(Action::SelectPrevious);
    assert_eq!(app.log_selected, Some(2));
    app.apply(Action::Finished(AppEvent::LogUpdated(Ok(vec![commit("a")]))));
    assert_eq!(app.log_selected, Some(0));
    assert!(!app.loading);
    app.apply(Action::EnterStatus);
    assert_eq!(app.mode, Mode::Status(StatusMode::FileSelection));
}

#[test]
fn quit_exits() {
    let mut app = App::new(true);
    let (ret, t) = app.handle_key_event(Key::Char('q'));
    assert_eq!(ret, AppReturn::Exit);
    assert!(t.is_none());
    assert!(app.is_exiting());
}

#[test]
fn add_remote_flow() {
    let mut app = App::new(false);
    app.apply(Action::OpenAddRemote);
    for c in "git@host:r".chars() {
        app.apply(Action::Input(c));
    }
    match app.apply(Action::AddRemote) {
        Some(Task::AddRemote(u)) => assert_eq!(u, "git@host:r"),
        other => panic!("unexpected task {:?}", other),
    }
    app.apply(Action::Finished(AppEvent::RemoteAdded(Ok(()))));
    assert!(app.has_remote);
    assert_eq!(app.popup, None);
    assert_eq!(app.message, "Remote 'origin' added.");
}

#[test]
fn mouse_click_selects_row_and_focuses() {
    let mut app = App::new(true);
    status(&mut app, vec![item("s", true), item("u1", false), item("u2", false)]);
    app.handle_mouse_event(MouseInput { kind: MouseKind::Down, column: 100, row: 5 });
    assert_eq!(app.active_panel, ActivePanel::Diff);
    app.handle_mouse_event(MouseInput { kind: MouseKind::Down, column: 10, row: 3 });
    assert_eq!(app.active_panel, ActivePanel::Files);
    assert_eq!(app.status_selected, Some(3));
    app.handle_mouse_event(MouseInput { kind: MouseKind::ScrollDown, column: 10, row: 3 });
    assert_eq!(app.status_selected, Some(4));
}

#[test]
fn selected_item_is_copied() {
    let mut app = App::new(true);
    assert!(app.get_selected_status_item().is_none());
    status(&mut app, vec![item("only", false)]);
    let it = app.get_selected_status_item().unwrap();
    assert_eq!(it.path, "only");
    assert!(!it.is_staged);
}

#[test]
fn init_repo_flow() {
    let mut app = App::new(true);
    let t = app.apply(Action::InitRepo);
    assert!(t.is_none());
    app.handle_key_event(Key::Char('i'));
    assert_eq!(app.popup, Some(Popup::InitRepo));
    assert_eq!(app.message, "Enter the path of the directory to initialize.");
    for c in "/tmp/x".chars() {
        app.handle_key_event(Key::Char(c));
    }
    match app.handle_key_event(Key::Enter).1 {
        Some(Task::InitRepo(d)) => assert_eq!(d, "/tmp/x"),
        other => panic!("unexpected task {:?}", other),
    }
    app.apply(Action::Finished(AppEvent::RepoInitialized(Ok(()))));
    assert_eq!(app.popup, None);
    assert!(app.input.is_empty());
    assert_eq!(app.message, "Repository initialized.");
}

#[test]
fn diff_target_follows_cursor_and_mode() {
    let mut app = App::new(true);
    assert!(app.diff_target().is_none());
    status(&mut app, vec![item("s", true), item("u", false)]);
    let k = app.diff_target().unwrap();
    assert_eq!((k.path.as_str(), k.is_staged), ("s", true));
    app.apply(Action::SelectNext);
    let k2 = app.diff_target();
    assert!(!same_target(&Some(k), &k2));
    assert!(same_target(&k2, &app.diff_target()));
    app.apply(Action::EnterLog);
    assert!(app.diff_target().is_none());
    assert!(same_target(&None, &app.diff_target()));
}
