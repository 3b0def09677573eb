use code_management_backend::diff::{
    changed_path, diff_base, line_prefix, line_text, process_diff_into_changes, status_label,
    step_label, CommitFileChange, DeltaRecord, DeltaStatus, DiffBase, DiffRead, DiffStep,
    PatchLine,
};
use code_management_backend::error::{AppError, ErrorKind};
use code_management_backend::history::CommitInfo;
use code_management_backend::object_id::parse_commit_id;
use code_management_backend::resolver::GitManager;

fn delta(status: DeltaStatus, old: Option<&str>, new: Option<&str>) -> DeltaRecord {
    DeltaRecord {
        status,
        old_path: old.map(|s| s.to_string()),
        new_path: new.map(|s| s.to_string()),
    }
}

fn line(path: &str, origin: char, content: &[u8]) -> PatchLine {
    PatchLine {
        old_path: Some(path.to_string()),
        new_path: Some(path.to_string()),
        origin,
        content: content.to_vec(),
    }
}

fn info() -> CommitInfo {
    CommitInfo::from_parts(
        "00000000000000000000000000000000000000c3",
        Some("alice"),
        Some("a@x.org"),
        Some("add b"),
        1,
    )
}

#[test]
fn status_labels() {
    assert_eq!(status_label(DeltaStatus::Added), "added");
    assert_eq!(status_label(DeltaStatus::Deleted), "deleted");
    assert_eq!(status_label(DeltaStatus::Modified), "modified");
    assert_eq!(status_label(DeltaStatus::Renamed), "renamed");
    assert_eq!(status_label(DeltaStatus::Copied), "copied");
    assert_eq!(status_label(DeltaStatus::Other), "changed");
}

#[test]
fn changed_path_prefers_the_new_path() {
    let old = Some("old.txt".to_string());
    let new = Some("new.txt".to_string());
    assert_eq!(changed_path(&old, &new), "new.txt");
    assert_eq!(changed_path(&old, &None), "old.txt");
    assert_eq!(changed_path(&None, &new), "new.txt");
    assert_eq!(changed_path(&None, &None), "");
}

#[test]
fn line_prefix_by_origin() {
    assert_eq!(line_prefix('+'), "+");
    assert_eq!(line_prefix('-'), "-");
    assert_eq!(line_prefix(' '), " ");
    assert_eq!(line_prefix('H'), "");
    assert_eq!(line_prefix('F'), " ");
    assert_eq!(line_prefix('='), " ");
}

#[test]
fn line_text_replaces_invalid_utf8() {
    assert_eq!(line_text(b"let x = 1;\n"), "let x = 1;\n");
    assert_eq!(line_text("h\u{e9}\n".as_bytes()), "h\u{e9}\n");
    assert_eq!(line_text(&[0x80, 0x0a]), "[Invalid UTF-8]");
    assert_eq!(line_text(&[]), "");
}

#[test]
fn diff_base_of_root_and_child_commits() {
    assert_eq!(diff_base(0), DiffBase::EmptyTree);
    assert_eq!(diff_base(1), DiffBase::FirstParent);
    assert_eq!(diff_base(2), DiffBase::FirstParent);
}

#[test]
fn added_file_without_patch_lines() {
    let changes = process_diff_into_changes(
        &vec![delta(DeltaStatus::Added, None, Some("b.txt"))],
        &vec![],
    );
    assert_eq!(
        changes,
        vec![CommitFileChange { path: "b.txt".to_string(), status: "added".to_string(), diff: None }]
    );
}

#[test]
fn patch_lines_accumulate_per_file_in_stream_order() {
    let deltas = vec![
        delta(DeltaStatus::Modified, Some("a.txt"), Some("a.txt")),
        delta(DeltaStatus::Added, None, Some("b.txt")),
    ];
    let lines = vec![
        line("a.txt", 'F', b"diff --git a/a.txt b/a.txt\n"),
        line("a.txt", 'H', b"@@ -1 +1 @@\n"),
        line("a.txt", '-', b"old\n"),
        line("a.txt", '+', b"new\n"),
        line("b.txt", 'F', b"diff --git a/b.txt b/b.txt\n"),
        line("b.txt", '+', b"hello\n"),
        line("a.txt", ' ', b"tail\n"),
    ];
    let changes = process_diff_into_changes(&deltas, &lines);
    assert_eq!(changes.len(), 2);
    assert_eq!(changes[0].path, "a.txt");
    assert_eq!(changes[0].status, "modified");
    assert_eq!(
        changes[0].diff.as_deref(),
        Some(" diff --git a/a.txt b/a.txt\n@@ -1 +1 @@\n-old\n+new\n tail\n")
    );
    assert_eq!(changes[1].path, "b.txt");
    assert_eq!(changes[1].status, "added");
    assert_eq!(changes[1].diff.as_deref(), Some(" diff --git a/b.txt b/b.txt\n+hello\n"));
}

#[test]
fn lines_of_an_unknown_path_are_dropped() {
    let deltas = vec![delta(DeltaStatus::Added, None, Some("b.txt"))];
    let lines = vec![line("zzz", '+', b"x\n")];
    let changes = process_diff_into_changes(&deltas, &lines);
    assert_eq!(changes[0].diff, None);
}

#[test]
fn lines_go_to_the_first_change_of_a_path() {
    let deltas = vec![
        delta(DeltaStatus::Deleted, Some("a"), Some("a")),
        delta(DeltaStatus::Added, Some("a"), Some("a")),
    ];
    let changes = process_diff_into_changes(&deltas, &vec![line("a", '+', b"x\n")]);
    assert_eq!(changes[0].status, "deleted");
    assert_eq!(changes[0].diff.as_deref(), Some("+x\n"));
    assert_eq!(changes[1].diff, None);
}

#[test]
fn binary_line_content_does_not_fail_the_diff() {
    let deltas = vec![delta(DeltaStatus::Modified, Some("img"), Some("img"))];
    let lines = vec![line("img", '+', &[0xff, 0xd8, 0xff]), line("img", '-', b"ok\n")];
    let changes = process_diff_into_changes(&deltas, &lines);
    assert_eq!(changes[0].diff.as_deref(), Some("+[Invalid UTF-8]-ok\n"));
}

#[test]
fn a_header_line_starts_an_empty_patch() {
    let deltas = vec![delta(DeltaStatus::Modified, Some("a"), Some("a"))];
    let changes = process_diff_into_changes(&deltas, &vec![line("a", 'H', b"")]);
    assert_eq!(changes[0].diff.as_deref(), Some(""));
}

#[test]
fn root_commit_marks_every_file_added() {
    let deltas = vec![
        delta(DeltaStatus::Added, None, Some("a.txt")),
        delta(DeltaStatus::Added, None, Some("dir/b.txt")),
        delta(DeltaStatus::Added, None, Some("dir/c.txt")),
    ];
    let changes = process_diff_into_changes(&deltas, &vec![]);
    assert_eq!(changes.len(), 3);
    assert!(changes.iter().all(|c| c.status == "added"));
    let paths: Vec<&str> = changes.iter().map(|c| c.path.as_str()).collect();
    assert_eq!(paths, vec!["a.txt", "dir/b.txt", "dir/c.txt"]);
}

#[test]
fn deleted_and_renamed_paths() {
    let deltas = vec![
        delta(DeltaStatus::Deleted, Some("gone.txt"), None),
        delta(DeltaStatus::Renamed, Some("old.txt"), Some("new.txt")),
        delta(DeltaStatus::Other, Some("t"), Some("t")),
    ];
    let changes = process_diff_into_changes(&deltas, &vec![]);
    assert_eq!(changes[0].path, "gone.txt");
    assert_eq!(changes[0].status, "deleted");
    assert_eq!(changes[1].path, "new.txt");
    assert_eq!(changes[1].status, "renamed");
    assert_eq!(changes[2].status, "changed");
}

#[test]
fn commit_detail_of_a_commit_that_adds_a_file() {
    let manager = GitManager::new("base");
    let read = DiffRead::Read {
        info: info(),
        deltas: vec![delta(DeltaStatus::Added, None, Some("b.txt"))],
        lines: vec![line("b.txt", '+', b"b\n")],
    };
    let detail = manager
        .get_commit_detail("00000000000000000000000000000000000000c3", read)
        .unwrap();
    assert_eq!(detail.commit_info, info());
    assert_eq!(detail.file_changes.len(), 1);
    assert_eq!(detail.file_changes[0].path, "b.txt");
    assert_eq!(detail.file_changes[0].status, "added");
}

#[test]
fn commit_detail_of_a_commit_that_modifies_a_file() {
    let manager = GitManager::new("base");
    let read = DiffRead::Read {
        info: info(),
        deltas: vec![delta(DeltaStatus::Modified, Some("a.txt"), Some("a.txt"))],
        lines: vec![
            line("a.txt", 'H', b"@@ -1 +1 @@\n"),
            line("a.txt", '-', b"one\n"),
            line("a.txt", '+', b"two\n"),
        ],
    };
    let detail = manager.get_commit_detail("c2", read).unwrap();
    assert_eq!(detail.file_changes.len(), 1);
    let change = &detail.file_changes[0];
    assert_eq!(change.path, "a.txt");
    assert_eq!(change.status, "modified");
    let patch = change.diff.as_deref().unwrap();
    assert!(!patch.is_empty());
    assert!(patch.lines().any(|l| l.starts_with('+') || l.starts_with('-')));
    assert_eq!(patch, "@@ -1 +1 @@\n-one\n+two\n");
}

#[test]
fn commit_detail_rejects_a_malformed_identifier() {
    let manager = GitManager::new("base");
    for id in ["", "xyz", "12 34", "g", &"a".repeat(41)] {
        let read = DiffRead::Read { info: info(), deltas: vec![], lines: vec![] };
        let err = manager.get_commit_detail(id, read).unwrap_err();
        assert_eq!(err.kind(), ErrorKind::BadRequest, "id {:?}", id);
        match err {
            AppError::BadRequest(text) => assert!(text.starts_with("Invalid commit ID: ")),
            other => panic!("unexpected {:?}", other),
        }
    }
}

#[test]
fn commit_detail_reports_failed_steps() {
    let manager = GitManager::new("base");
    let cases = vec![
        (DiffStep::FindCommit, AppError::NotFound("Commit not found: x".to_string())),
        (
            DiffStep::CommitTree,
            AppError::InternalServerError("Failed to get commit tree: x".to_string()),
        ),
        (
            DiffStep::ParentTree,
            AppError::InternalServerError("Failed to get parent tree: x".to_string()),
        ),
        (
            DiffStep::TreeBuilder,
            AppError::InternalServerError("Failed to create treebuilder: x".to_string()),
        ),
        (
            DiffStep::WriteEmptyTree,
            AppError::InternalServerError("Failed to create empty tree: x".to_string()),
        ),
        (
            DiffStep::FindEmptyTree,
            AppError::InternalServerError("Failed to find empty tree: x".to_string()),
        ),
        (
            DiffStep::ComputeDiff,
            AppError::InternalServerError("Failed to compute diff: x".to_string()),
        ),
        (
            DiffStep::EnumerateDeltas,
            AppError::InternalServerError("Failed to process diff: x".to_string()),
        ),
        (
            DiffStep::PrintPatch,
            AppError::InternalServerError("Failed to print diff: x".to_string()),
        ),
    ];
    for (step, expected) in cases {
        let read = DiffRead::Failed { step, detail: "x".to_string() };
        assert_eq!(manager.get_commit_detail("abc123", read).unwrap_err(), expected);
        assert!(step_label(step).ends_with(": "));
    }
}

#[test]
fn commit_id_is_read_by_the_object_database() {
    assert_eq!(
        parse_commit_id("0123456789abcdef0123456789abcdef01234567").unwrap(),
        "0123456789abcdef0123456789abcdef01234567"
    );
    assert_eq!(
        parse_commit_id("ABCDEF").unwrap(),
        "abcdef0000000000000000000000000000000000"
    );
    assert_eq!(parse_commit_id("7").unwrap(), "7000000000000000000000000000000000000000");
    assert!(parse_commit_id("").is_err());
    assert!(parse_commit_id("not-hex").is_err());
    assert!(parse_commit_id(&"0".repeat(41)).is_err());
    assert!(parse_commit_id(&"f".repeat(40)).is_ok());
    assert!(parse_commit_id("\u{ff11}23").is_err());
}
