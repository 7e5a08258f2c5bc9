use dotatui::input::{is_inside, Rect};
use dotatui::config::{Key, KeyBindings};
use dotatui::diff::{facet_for, facet_for_row, render_diff_text, DiffFacet, Line};
use dotatui::display::{build_display_list, skip_headers_backward, skip_headers_forward, StatusItemType};
use dotatui::error::AppError;
use dotatui::history::{commit_info, short_id};
use dotatui::order::path_less;
use dotatui::status::{FileStatus, StagingStatus, StatusItem};

fn line(origin: char, content: &str) -> Line {
    Line { origin, content: content.to_string(), old_lineno: None, new_lineno: None }
}

fn header(t: &str) -> StatusItemType {
    StatusItemType::Header(t.to_string())
}

fn row(p: &str) -> StatusItemType {
    StatusItemType::Item(StatusItem { path: p.to_string(), status: FileStatus::New, is_staged: false })
}

#[test]
fn diff_text_marks_lines() {
    let lines = vec![line(' ', "ctx\n"), line('+', "new\n"), line('-', "old\n"), line('=', "eof\n")];
    assert_eq!(render_diff_text(&lines), " ctx\n+new\n-old\n eof\n");
}

#[test]
fn empty_diff_has_notice() {
    assert_eq!(render_diff_text(&Vec::new()), "No changes to display for this file.");
}

#[test]
fn facets() {
    assert_eq!(facet_for(StagingStatus::Staged), DiffFacet::Index);
    assert_eq!(facet_for(StagingStatus::Unstaged), DiffFacet::WorkTree);
    assert_eq!(facet_for(StagingStatus::PartiallyStaged), DiffFacet::WorkTree);
    assert_eq!(facet_for_row(true), DiffFacet::Index);
    assert_eq!(facet_for_row(false), DiffFacet::WorkTree);
}

#[test]
fn short_ids() {
    assert_eq!(short_id(&"0123456789abcdef".to_string()), "0123456");
    assert_eq!(short_id(&"abc".to_string()), "abc");
}

#[test]
fn commit_info_defaults() {
    let c = commit_info(&"deadbeefcafe".to_string(), None, None, 0);
    assert_eq!(c.id, "deadbee");
    assert_eq!(c.message, "");
    assert_eq!(c.author, "Unknown");
    assert!(!c.time.is_empty());
    let c = commit_info(&"1".to_string(), Some("msg".to_string()), Some("ann".to_string()), 86_400);
    assert_eq!(c.message, "msg");
    assert_eq!(c.author, "ann");
}

#[test]
fn error_texts() {
    assert_eq!(AppError::Io("disk".to_string()).text(), "IO Error: disk");
    assert_eq!(AppError::Git("bad".to_string()).text(), "Git Error: bad");
    assert_eq!(AppError::EventChannelClosed.text(), "Event channel closed unexpectedly");
    assert_eq!(
        AppError::RepoNotFound.text(),
        "No git repository found at or above the current directory"
    );
    assert_eq!(AppError::PushFailed("no".to_string()).text(), "Push failed: no");
    assert_eq!(AppError::NoRemote.text(), "No remote named 'origin' is configured");
    assert!(AppError::NoRemote.is_no_remote());
    assert!(!AppError::RepoNotFound.is_no_remote());
}

#[test]
fn header_skipping() {
    let rows = vec![header("A"), row("a"), header("B"), row("b")];
    assert_eq!(skip_headers_forward(&rows, 0), Some(1));
    assert_eq!(skip_headers_forward(&rows, 2), Some(3));
    assert_eq!(skip_headers_backward(&rows, 2), Some(1));
    assert_eq!(skip_headers_backward(&rows, 0), Some(3));
    assert_eq!(skip_headers_forward(&rows, 3), Some(3));
}

#[test]
fn headers_only_list_has_no_landing() {
    let rows = vec![header("A"), header("B")];
    assert_eq!(skip_headers_forward(&rows, 1), None);
    assert_eq!(skip_headers_backward(&rows, 0), None);
}

#[test]
fn display_list_of_nothing_is_empty() {
    assert!(build_display_list(&Vec::new()).is_empty());
}

#[test]
fn inside_rect() {
    let r = Rect { x: 2, y: 1, width: 3, height: 2 };
    assert!(is_inside(2, 1, r));
    assert!(is_inside(4, 2, r));
    assert!(!is_inside(5, 2, r));
    assert!(!is_inside(3, 3, r));
    assert!(!is_inside(1, 1, r));
    let far = Rect { x: 65_000, y: 0, width: 1_000, height: 1 };
    assert!(is_inside(65_535, 0, far));
}

#[test]
fn path_order() {
    assert!(path_less(&"a".to_string(), &"b".to_string()));
    assert!(path_less(&"a".to_string(), &"ab".to_string()));
    assert!(!path_less(&"ab".to_string(), &"ab".to_string()));
    assert!(!path_less(&"b".to_string(), &"a".to_string()));
}

#[test]
fn default_keys() {
    let k = KeyBindings::default();
    assert_eq!(k.quit, Key::Char('q'));
    assert_eq!(k.confirm, Key::Enter);
    assert_eq!(k.close_popup, Key::Esc);
}
