use code_management_backend::error::{AppError, ErrorKind};
use code_management_backend::resolver::GitManager;
use code_management_backend::tree::{
    directory_to_find, get_tree_entries, FileRead, GitFileEntry, NodeKind, ReadStep, TreeNode,
    TreeRead,
};

fn blob(name: &str, content: &[u8]) -> TreeNode {
    TreeNode { name: name.to_string(), kind: NodeKind::Blob { content: content.to_vec() } }
}

fn dir(name: &str, children: Vec<TreeNode>) -> TreeNode {
    TreeNode { name: name.to_string(), kind: NodeKind::Tree { children } }
}

fn broken(name: &str, reason: &str) -> TreeNode {
    TreeNode { name: name.to_string(), kind: NodeKind::Unreadable { reason: reason.to_string() } }
}

fn sample() -> Vec<TreeNode> {
    vec![
        blob("README.md", b"# hi\n"),
        dir(
            "src",
            vec![
                blob("lib.rs", b"pub fn f() {}\n"),
                dir("util", vec![blob("mod.rs", b"")]),
            ],
        ),
        TreeNode { name: "vendor".to_string(), kind: NodeKind::Other },
    ]
}

fn file(name: &str, path: &str, size: u64) -> GitFileEntry {
    GitFileEntry {
        name: name.to_string(),
        path: path.to_string(),
        is_dir: false,
        size: Some(size),
        children: vec![],
    }
}

fn folder(name: &str, path: &str, children: Vec<GitFileEntry>) -> GitFileEntry {
    GitFileEntry { name: name.to_string(), path: path.to_string(), is_dir: true, size: None, children }
}

#[test]
fn listing_is_recursive_and_ordered() {
    let listing = get_tree_entries(&sample(), None).unwrap();
    let expected = vec![
        file("README.md", "README.md", 5),
        folder(
            "src",
            "src",
            vec![
                file("lib.rs", "src/lib.rs", 14),
                folder("util", "src/util", vec![file("mod.rs", "src/util/mod.rs", 0)]),
            ],
        ),
        GitFileEntry {
            name: "vendor".to_string(),
            path: "vendor".to_string(),
            is_dir: false,
            size: None,
            children: vec![],
        },
    ];
    assert_eq!(listing, expected);
}

#[test]
fn listing_with_prefix_joins_paths() {
    let listing = get_tree_entries(&vec![blob("a.txt", b"x")], Some("docs/api")).unwrap();
    assert_eq!(listing, vec![file("a.txt", "docs/api/a.txt", 1)]);
    let listing = get_tree_entries(&vec![blob("a.txt", b"x")], Some("")).unwrap();
    assert_eq!(listing, vec![file("a.txt", "a.txt", 1)]);
}

#[test]
fn listing_of_an_empty_tree_is_empty() {
    assert_eq!(get_tree_entries(&vec![], None).unwrap(), vec![]);
}

#[test]
fn directories_carry_no_size_and_files_no_children() {
    let listing = get_tree_entries(&sample(), None).unwrap();
    assert!(listing[1].is_dir);
    assert_eq!(listing[1].size, None);
    assert!(!listing[0].is_dir);
    assert!(listing[0].children.is_empty());
}

#[test]
fn an_unreadable_entry_fails_the_listing() {
    let nodes = vec![
        blob("a", b""),
        dir("d", vec![blob("x", b""), broken("y", "object not found")]),
        broken("z", "later fault"),
    ];
    let err = get_tree_entries(&nodes, None).unwrap_err();
    assert_eq!(
        err,
        AppError::InternalServerError("Failed to get object: object not found".to_string())
    );
}

#[test]
fn the_root_needs_no_lookup() {
    assert_eq!(directory_to_find(None), None);
    assert_eq!(directory_to_find(Some("")), None);
    assert_eq!(directory_to_find(Some("src")), Some("src"));
    assert_eq!(directory_to_find(Some("src/util/")), Some("src/util/"));
    assert_eq!(directory_to_find(Some("/")), Some("/"));
}

#[test]
fn list_repository_files_of_the_root() {
    let manager = GitManager::new("base");
    let read = TreeRead::Entries { entries: sample() };
    let listing = manager.list_repository_files(&read, None, None).unwrap();
    assert_eq!(listing.len(), 3);
    assert_eq!(listing[1].children[0].path, "src/lib.rs");
    let same = manager.list_repository_files(&read, Some(""), Some("main")).unwrap();
    assert_eq!(same, listing);
}

#[test]
fn list_repository_files_of_a_subdirectory() {
    let manager = GitManager::new("base");
    // What looking `src` up in the root tree gave.
    let read = TreeRead::Entries {
        entries: vec![blob("lib.rs", b"pub fn f() {}\n"), dir("util", vec![blob("mod.rs", b"")])],
    };
    let listing = manager.list_repository_files(&read, Some("src"), None).unwrap();
    assert_eq!(
        listing,
        vec![
            file("lib.rs", "src/lib.rs", 14),
            folder("util", "src/util", vec![file("mod.rs", "src/util/mod.rs", 0)]),
        ]
    );
    let read = TreeRead::Entries { entries: vec![blob("mod.rs", b"")] };
    let listing = manager.list_repository_files(&read, Some("src/util"), None).unwrap();
    assert_eq!(listing, vec![file("mod.rs", "src/util/mod.rs", 0)]);
}

#[test]
fn listing_a_missing_directory_is_not_found() {
    let manager = GitManager::new("base");
    let read = TreeRead::Failed { step: ReadStep::FindPath, detail: "no entry".to_string() };
    let err = manager.list_repository_files(&read, Some("docs"), None).unwrap_err();
    assert_eq!(err, AppError::NotFound("Directory not found: docs".to_string()));
}

#[test]
fn listing_a_file_is_a_bad_request() {
    let manager = GitManager::new("base");
    let err = manager
        .list_repository_files(&TreeRead::NotADirectory, Some("README.md"), None)
        .unwrap_err();
    assert_eq!(err, AppError::BadRequest("Path is not a directory".to_string()));
    assert_eq!(err.kind(), ErrorKind::BadRequest);
}

#[test]
fn listing_reports_faults_of_reading_the_reference() {
    let manager = GitManager::new("base");
    let cases = vec![
        (ReadStep::FindBranch, AppError::NotFound("Branch not found: dev".to_string())),
        (
            ReadStep::ResolveHead,
            AppError::InternalServerError("Failed to get HEAD: boom".to_string()),
        ),
        (
            ReadStep::PeelCommit,
            AppError::InternalServerError("Failed to get commit: boom".to_string()),
        ),
        (
            ReadStep::CommitTree,
            AppError::InternalServerError("Failed to get tree: boom".to_string()),
        ),
        (ReadStep::FindPath, AppError::NotFound("Directory not found: src".to_string())),
        (
            ReadStep::ReadObject,
            AppError::InternalServerError("Failed to get object: boom".to_string()),
        ),
    ];
    for (step, expected) in cases {
        let read = TreeRead::Failed { step, detail: "boom".to_string() };
        assert_eq!(
            manager.list_repository_files(&read, Some("src"), Some("dev")).unwrap_err(),
            expected
        );
    }
}

#[test]
fn file_content_is_read_as_text() {
    let manager = GitManager::new("base");
    let read = FileRead::Blob { content: b"# hi\n".to_vec() };
    assert_eq!(manager.get_file_content(&read, "README.md").unwrap(), "# hi\n");
    let read = FileRead::Blob { content: vec![] };
    assert_eq!(manager.get_file_content(&read, "src/util/mod.rs").unwrap(), "");
}

#[test]
fn written_text_reads_back_unchanged() {
    let manager = GitManager::new("base");
    for text in ["", "plain", "line\nline\r\n", "h\u{e9}llo \u{4e16}\u{754c} \u{1f600}", "\0nul"] {
        let read = FileRead::Blob { content: text.as_bytes().to_vec() };
        let back = manager.get_file_content(&read, "d/f.txt").unwrap();
        assert_eq!(back, text);
        assert_eq!(back.as_bytes(), text.as_bytes());
    }
}

#[test]
fn file_content_that_is_not_utf8_is_a_decoding_error() {
    let manager = GitManager::new("base");
    let read = FileRead::Blob { content: vec![0xff, 0xfe, 0x00] };
    let err = manager.get_file_content(&read, "bin").unwrap_err();
    assert_eq!(
        err,
        AppError::InternalServerError("File content is not valid UTF-8".to_string())
    );
    let read = FileRead::Blob { content: vec![0xe4, 0xb8] };
    assert!(manager.get_file_content(&read, "cut").is_err());
}

#[test]
fn file_content_of_a_missing_path_is_not_found() {
    let manager = GitManager::new("base");
    let read = FileRead::Failed { step: ReadStep::FindPath, detail: "no entry".to_string() };
    let err = manager.get_file_content(&read, "src/none.rs").unwrap_err();
    assert_eq!(err, AppError::NotFound("File not found: src/none.rs".to_string()));
}

#[test]
fn file_content_of_a_directory_is_no_blob() {
    let manager = GitManager::new("base");
    let err = manager.get_file_content(&FileRead::NotABlob, "src").unwrap_err();
    assert_eq!(err, AppError::InternalServerError("Object is not a blob".to_string()));
}

#[test]
fn file_content_reports_faults_of_reading_the_reference() {
    let manager = GitManager::new("base");
    let cases = vec![
        (ReadStep::FindBranch, AppError::NotFound("Branch not found: x".to_string())),
        (ReadStep::ResolveHead, AppError::InternalServerError("Failed to get HEAD: x".to_string())),
        (
            ReadStep::PeelCommit,
            AppError::InternalServerError("Failed to get commit: x".to_string()),
        ),
        (ReadStep::CommitTree, AppError::InternalServerError("Failed to get tree: x".to_string())),
        (
            ReadStep::ReadObject,
            AppError::InternalServerError("Failed to get object: x".to_string()),
        ),
    ];
    for (step, expected) in cases {
        let read = FileRead::Failed { step, detail: "x".to_string() };
        assert_eq!(manager.get_file_content(&read, "a").unwrap_err(), expected);
    }
}

#[test]
fn an_unreadable_entry_below_the_directory_fails_the_listing() {
    let manager = GitManager::new("base");
    let read = TreeRead::Entries { entries: vec![blob("a", b""), broken("b", "gone")] };
    assert_eq!(
        manager.list_repository_files(&read, Some("d"), None).unwrap_err(),
        AppError::InternalServerError("Failed to get object: gone".to_string())
    );
}
