use dotatui::status::{
    classify, determine_file_status, determine_staging_status, status_items, ChangeFlags, FileState,
    FileStatus, StagingStatus, StatusEntry, CONFLICTED, INDEX_DELETED, INDEX_MODIFIED, INDEX_NEW,
    INDEX_RENAMED, INDEX_TYPECHANGE, WT_DELETED, WT_MODIFIED, WT_NEW, WT_RENAMED, WT_TYPECHANGE,
};

fn entry(path: &str, bits: u32) -> StatusEntry {
    StatusEntry { path: path.to_string(), flags: ChangeFlags { bits } }
}

fn summary(r: &[FileState]) -> Vec<(String, FileStatus, StagingStatus)> {
    r.iter().map(|s| (s.path.clone(), s.status, s.staging_status)).collect()
}

#[test]
fn conflict_takes_precedence() {
    let f = ChangeFlags { bits: CONFLICTED | WT_NEW | INDEX_DELETED };
    assert_eq!(determine_file_status(f), FileStatus::Conflicted);
}

#[test]
fn kinds_in_priority_order() {
    assert_eq!(determine_file_status(ChangeFlags { bits: WT_NEW | WT_DELETED }), FileStatus::New);
    assert_eq!(determine_file_status(ChangeFlags { bits: INDEX_DELETED | INDEX_RENAMED }), FileStatus::Deleted);
    assert_eq!(determine_file_status(ChangeFlags { bits: WT_RENAMED | INDEX_TYPECHANGE }), FileStatus::Renamed);
    assert_eq!(determine_file_status(ChangeFlags { bits: INDEX_TYPECHANGE | WT_MODIFIED }), FileStatus::Typechange);
    assert_eq!(determine_file_status(ChangeFlags { bits: WT_MODIFIED }), FileStatus::Modified);
}

#[test]
fn staging_states() {
    assert_eq!(determine_staging_status(ChangeFlags { bits: INDEX_MODIFIED }), Some(StagingStatus::Staged));
    assert_eq!(determine_staging_status(ChangeFlags { bits: WT_DELETED }), Some(StagingStatus::Unstaged));
    assert_eq!(
        determine_staging_status(ChangeFlags { bits: INDEX_MODIFIED | WT_MODIFIED }),
        Some(StagingStatus::PartiallyStaged)
    );
    assert_eq!(determine_staging_status(ChangeFlags { bits: CONFLICTED }), Some(StagingStatus::Unstaged));
    assert_eq!(determine_staging_status(ChangeFlags { bits: WT_TYPECHANGE }), Some(StagingStatus::Unstaged));
    assert_eq!(determine_staging_status(ChangeFlags { bits: INDEX_TYPECHANGE }), Some(StagingStatus::Staged));
    assert_eq!(determine_staging_status(ChangeFlags { bits: 0 }), None);
}

#[test]
fn index_new_and_worktree_modified_is_partially_staged_new() {
    let r = classify(&vec![entry("a.txt", INDEX_NEW | WT_MODIFIED)]);
    assert_eq!(summary(&r), vec![("a.txt".to_string(), FileStatus::New, StagingStatus::PartiallyStaged)]);
}

#[test]
fn classify_sorts_by_path_and_drops_clean_paths() {
    let r = classify(&vec![
        entry("zeta", WT_MODIFIED),
        entry("alpha/b", INDEX_NEW),
        entry("clean", 0),
        entry("alpha", WT_DELETED),
    ]);
    assert_eq!(
        summary(&r),
        vec![
            ("alpha".to_string(), FileStatus::Deleted, StagingStatus::Unstaged),
            ("alpha/b".to_string(), FileStatus::New, StagingStatus::Staged),
            ("zeta".to_string(), FileStatus::Modified, StagingStatus::Unstaged),
        ]
    );
}

#[test]
fn classify_keeps_one_entry_per_path() {
    let r = classify(&vec![entry("f", WT_MODIFIED), entry("f", INDEX_MODIFIED), entry("f", 0)]);
    assert_eq!(summary(&r), vec![("f".to_string(), FileStatus::Modified, StagingStatus::Staged)]);
}

#[test]
fn classify_is_independent_of_report_order() {
    let a = vec![entry("b", WT_NEW), entry("a", INDEX_MODIFIED), entry("c", WT_MODIFIED | INDEX_NEW)];
    let b = vec![entry("c", WT_MODIFIED | INDEX_NEW), entry("b", WT_NEW), entry("a", INDEX_MODIFIED)];
    assert_eq!(summary(&classify(&a)), summary(&classify(&b)));
    assert_eq!(summary(&classify(&a)), summary(&classify(&a)));
}

#[test]
fn classify_orders_by_code_point() {
    let r = classify(&vec![entry("b", WT_NEW), entry("B", WT_NEW), entry("é", WT_NEW), entry("", WT_NEW)]);
    let paths: Vec<String> = r.iter().map(|s| s.path.clone()).collect();
    assert_eq!(paths, vec!["".to_string(), "B".to_string(), "b".to_string(), "é".to_string()]);
}

#[test]
fn empty_report_classifies_to_nothing() {
    assert!(classify(&Vec::new()).is_empty());
}

#[test]
fn status_items_split_staged_and_unstaged() {
    let items = status_items(&vec![entry("y", WT_NEW), entry("x", INDEX_MODIFIED | WT_MODIFIED), entry("z", 0)]);
    let v: Vec<(String, FileStatus, bool)> = items.iter().map(|i| (i.path.clone(), i.status, i.is_staged)).collect();
    assert_eq!(
        v,
        vec![
            ("x".to_string(), FileStatus::Modified, false),
            ("x".to_string(), FileStatus::Modified, true),
            ("y".to_string(), FileStatus::New, false),
        ]
    );
}

#[test]
fn status_items_are_in_path_order_whatever_the_report_order() {
    let items = status_items(&vec![entry("b", WT_MODIFIED), entry("a", WT_MODIFIED)]);
    let v: Vec<String> = items.iter().map(|i| i.path.clone()).collect();
    assert_eq!(v, vec!["a".to_string(), "b".to_string()]);
}

#[test]
fn type_change_and_rename_alone_are_listed() {
    let r = classify(&vec![entry("t", WT_TYPECHANGE), entry("r", INDEX_RENAMED), entry("w", WT_RENAMED)]);
    assert_eq!(
        summary(&r),
        vec![
            ("r".to_string(), FileStatus::Renamed, StagingStatus::Staged),
            ("t".to_string(), FileStatus::Typechange, StagingStatus::Unstaged),
            ("w".to_string(), FileStatus::Renamed, StagingStatus::Unstaged),
        ]
    );
}

#[test]
fn conflicted_path_gets_an_unstaged_row() {
    let items = status_items(&vec![entry("c", CONFLICTED)]);
    assert_eq!(items.len(), 1);
    assert_eq!(items[0].status, FileStatus::Conflicted);
    assert!(!items[0].is_staged);
}
