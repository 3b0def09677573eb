use code_management_backend::diff::{
    diff_base, DeltaRecord, DeltaStatus, DiffBase, DiffRead, DiffStep, PatchLine,
};
use code_management_backend::history::{paginate, CommitInfo};
use code_management_backend::object_id::parse_commit_id;
use code_management_backend::resolver::GitManager;
use code_management_backend::tree::{
    directory_to_find, FileRead, NodeKind, ReadStep, TreeNode, TreeRead,
};
use std::path::Path;
use git2::{Delta, DiffFormat, Odb, Oid, Repository, Signature, Time};

fn memory_repo() -> Repository {
    let odb = Odb::new().unwrap();
    odb.add_new_mempack_backend(1000).unwrap();
    Repository::from_odb(odb).unwrap()
}

fn tree_of(repo: &Repository, files: &[(&str, &[u8])]) -> Oid {
    let mut builder = repo.treebuilder(None).unwrap();
    for (name, content) in files {
        let blob = repo.blob(content).unwrap();
        builder.insert(*name, blob, 0o100644).unwrap();
    }
    builder.write().unwrap()
}

fn commit(repo: &Repository, tree: Oid, parents: &[Oid], message: &str, time: i64) -> Oid {
    let signature = Signature::new("alice", "alice@example.com", &Time::new(time, 0)).unwrap();
    let tree = repo.find_tree(tree).unwrap();
    let parents: Vec<git2::Commit> = parents.iter().map(|p| repo.find_commit(*p).unwrap()).collect();
    let parents: Vec<&git2::Commit> = parents.iter().collect();
    repo.commit(None, &signature, &signature, message, &tree, &parents).unwrap()
}

fn info_of(commit: &git2::Commit) -> CommitInfo {
    let author = commit.author();
    CommitInfo::from_parts(
        &commit.id().to_string(),
        author.name(),
        author.email(),
        commit.message(),
        commit.time().seconds(),
    )
}

fn status_of(delta: Delta) -> DeltaStatus {
    match delta {
        Delta::Added => DeltaStatus::Added,
        Delta::Deleted => DeltaStatus::Deleted,
        Delta::Modified => DeltaStatus::Modified,
        Delta::Renamed => DeltaStatus::Renamed,
        Delta::Copied => DeltaStatus::Copied,
        _ => DeltaStatus::Other,
    }
}

fn path_of(file: git2::DiffFile) -> Option<String> {
    file.path().map(|p| p.to_string_lossy().into_owned())
}

fn failed(step: DiffStep, e: git2::Error) -> DiffRead {
    DiffRead::Failed { step, detail: e.to_string() }
}

fn read_diff(repo: &Repository, commit_id: &str) -> DiffRead {
    let oid = Oid::from_str(commit_id).unwrap();
    let commit = match repo.find_commit(oid) {
        Ok(commit) => commit,
        Err(e) => return failed(DiffStep::FindCommit, e),
    };
    let commit_tree = match commit.tree() {
        Ok(tree) => tree,
        Err(e) => return failed(DiffStep::CommitTree, e),
    };
    let base_tree = match diff_base(commit.parent_count()) {
        DiffBase::FirstParent => match commit.parent(0).and_then(|p| p.tree()) {
            Ok(tree) => tree,
            Err(e) => return failed(DiffStep::ParentTree, e),
        },
        DiffBase::EmptyTree => {
            let builder = match repo.treebuilder(None) {
                Ok(builder) => builder,
                Err(e) => return failed(DiffStep::TreeBuilder, e),
            };
            let empty = match builder.write() {
                Ok(oid) => oid,
                Err(e) => return failed(DiffStep::WriteEmptyTree, e),
            };
            match repo.find_tree(empty) {
                Ok(tree) => tree,
                Err(e) => return failed(DiffStep::FindEmptyTree, e),
            }
        }
    };
    let diff = match repo.diff_tree_to_tree(Some(&base_tree), Some(&commit_tree), None) {
        Ok(diff) => diff,
        Err(e) => return failed(DiffStep::ComputeDiff, e),
    };
    let mut deltas = Vec::new();
    let enumerated = diff.foreach(
        &mut |delta, _| {
            deltas.push(DeltaRecord {
                status: status_of(delta.status()),
                old_path: path_of(delta.old_file()),
                new_path: path_of(delta.new_file()),
            });
            true
        },
        None,
        None,
        None,
    );
    if let Err(e) = enumerated {
        return failed(DiffStep::EnumerateDeltas, e);
    }
    let mut lines = Vec::new();
    let printed = diff.print(DiffFormat::Patch, |delta, _hunk, line| {
        lines.push(PatchLine {
            old_path: path_of(delta.old_file()),
            new_path: path_of(delta.new_file()),
            origin: line.origin(),
            content: line.content().to_vec(),
        });
        true
    });
    if let Err(e) = printed {
        return failed(DiffStep::PrintPatch, e);
    }
    DiffRead::Read { info: info_of(&commit), deltas, lines }
}

fn snapshot(repo: &Repository, tree: &git2::Tree) -> Vec<TreeNode> {
    let mut nodes = Vec::new();
    for entry in tree.iter() {
        let name = entry.name().unwrap_or_default().to_string();
        let kind = match entry.to_object(repo) {
            Err(e) => NodeKind::Unreadable { reason: e.to_string() },
            Ok(object) => {
                if let Some(subtree) = object.as_tree() {
                    NodeKind::Tree { children: snapshot(repo, subtree) }
                } else if let Some(blob) = object.as_blob() {
                    NodeKind::Blob { content: blob.content().to_vec() }
                } else {
                    NodeKind::Other
                }
            }
        };
        nodes.push(TreeNode { name, kind });
    }
    nodes
}

/// C1 (root: a.txt) -> C2 (modifies a.txt) -> C3 (adds b.txt)
fn three_commits(repo: &Repository) -> (Oid, Oid, Oid) {
    let t1 = tree_of(repo, &[("a.txt", b"one\n")]);
    let c1 = commit(repo, t1, &[], "C1", 1000);
    let t2 = tree_of(repo, &[("a.txt", b"two\n")]);
    let c2 = commit(repo, t2, &[c1], "C2", 2000);
    let t3 = tree_of(repo, &[("a.txt", b"two\n"), ("b.txt", b"bee\n")]);
    let c3 = commit(repo, t3, &[c2], "C3", 3000);
    (c1, c2, c3)
}

#[test]
fn detail_of_the_commit_that_adds_a_file() {
    let repo = memory_repo();
    let (_, _, c3) = three_commits(&repo);
    let manager = GitManager::new("/srv");
    let id = parse_commit_id(&c3.to_string()).unwrap();
    assert_eq!(id, c3.to_string());
    let detail = manager.get_commit_detail(&id, read_diff(&repo, &id)).unwrap();
    assert_eq!(detail.commit_info.id, c3.to_string());
    assert_eq!(detail.commit_info.author, "alice <alice@example.com>");
    assert_eq!(detail.commit_info.message, "C3");
    assert_eq!(detail.commit_info.time, 3000);
    assert_eq!(detail.file_changes.len(), 1);
    assert_eq!(detail.file_changes[0].path, "b.txt");
    assert_eq!(detail.file_changes[0].status, "added");
    assert!(detail.file_changes[0].diff.as_deref().unwrap().contains("+bee\n"));
}

#[test]
fn detail_of_the_commit_that_modifies_a_file() {
    let repo = memory_repo();
    let (_, c2, _) = three_commits(&repo);
    let manager = GitManager::new("/srv");
    let id = c2.to_string();
    let detail = manager.get_commit_detail(&id, read_diff(&repo, &id)).unwrap();
    assert_eq!(detail.file_changes.len(), 1);
    let change = &detail.file_changes[0];
    assert_eq!(change.path, "a.txt");
    assert_eq!(change.status, "modified");
    let patch = change.diff.as_deref().unwrap();
    assert!(!patch.is_empty());
    assert!(patch.contains("-one\n"));
    assert!(patch.contains("+two\n"));
    assert!(patch.lines().any(|l| l.starts_with('+') || l.starts_with('-')));
}

#[test]
fn root_commit_against_the_empty_tree_adds_every_file() {
    let repo = memory_repo();
    let tree = tree_of(&repo, &[("a.txt", b"1\n"), ("b.txt", b"2\n"), ("c.bin", &[0xff, 0x00])]);
    let root = commit(&repo, tree, &[], "root", 10);
    let manager = GitManager::new("/srv");
    let id = root.to_string();
    let detail = manager.get_commit_detail(&id, read_diff(&repo, &id)).unwrap();
    let paths: Vec<&str> = detail.file_changes.iter().map(|c| c.path.as_str()).collect();
    assert_eq!(paths, vec!["a.txt", "b.txt", "c.bin"]);
    assert!(detail.file_changes.iter().all(|c| c.status == "added"));
}

#[test]
fn detail_of_an_unknown_commit_is_not_found() {
    let repo = memory_repo();
    three_commits(&repo);
    let manager = GitManager::new("/srv");
    let id = "1".repeat(40);
    let err = manager.get_commit_detail(&id, read_diff(&repo, &id)).unwrap_err();
    assert_eq!(err.status_code(), 404);
}

#[test]
fn history_of_three_commits_in_pages() {
    let repo = memory_repo();
    let (c1, c2, c3) = three_commits(&repo);
    let mut walk = repo.revwalk().unwrap();
    walk.push(c3).unwrap();
    let mut commits = Vec::new();
    for oid in walk {
        commits.push(info_of(&repo.find_commit(oid.unwrap()).unwrap()));
    }
    let ids: Vec<String> = commits.iter().map(|c| c.id.clone()).collect();
    assert_eq!(ids, vec![c3.to_string(), c2.to_string(), c1.to_string()]);

    let (first, total) = paginate(&commits, 1, 2).unwrap();
    assert_eq!(total, 3);
    assert_eq!(first, commits[0..2].to_vec());
    let (second, _) = paginate(&commits, 2, 2).unwrap();
    assert_eq!(second, commits[2..3].to_vec());
    assert!(paginate(&commits, 3, 2).is_err());
    let (all, total) = paginate(&commits, 1, 10).unwrap();
    assert_eq!((all.len(), total), (3, 3));
}

fn read_directory(repo: &Repository, root: &git2::Tree, directory: Option<&str>) -> TreeRead {
    let path = match directory_to_find(directory) {
        None => return TreeRead::Entries { entries: snapshot(repo, root) },
        Some(path) => path,
    };
    let entry = match root.get_path(Path::new(path)) {
        Ok(entry) => entry,
        Err(e) => return TreeRead::Failed { step: ReadStep::FindPath, detail: e.to_string() },
    };
    let object = match entry.to_object(repo) {
        Ok(object) => object,
        Err(e) => return TreeRead::Failed { step: ReadStep::ReadObject, detail: e.to_string() },
    };
    match object.as_tree() {
        Some(tree) => TreeRead::Entries { entries: snapshot(repo, tree) },
        None => TreeRead::NotADirectory,
    }
}

fn read_file(repo: &Repository, root: &git2::Tree, file_path: &str) -> FileRead {
    let entry = match root.get_path(Path::new(file_path)) {
        Ok(entry) => entry,
        Err(e) => return FileRead::Failed { step: ReadStep::FindPath, detail: e.to_string() },
    };
    let object = match entry.to_object(repo) {
        Ok(object) => object,
        Err(e) => return FileRead::Failed { step: ReadStep::ReadObject, detail: e.to_string() },
    };
    match object.as_blob() {
        Some(blob) => FileRead::Blob { content: blob.content().to_vec() },
        None => FileRead::NotABlob,
    }
}

fn docs_and_readme(repo: &Repository, text: &str) -> Oid {
    let inner = tree_of(repo, &[("note.txt", text.as_bytes())]);
    let mut builder = repo.treebuilder(None).unwrap();
    builder.insert("docs", inner, 0o040000).unwrap();
    let readme = repo.blob(b"# readme\n").unwrap();
    builder.insert("README.md", readme, 0o100644).unwrap();
    let root = builder.write().unwrap();
    commit(repo, root, &[], "init", 1)
}

#[test]
fn files_of_a_commit_are_listed_and_read() {
    let repo = memory_repo();
    let text = "gr\u{fc}\u{df}e \u{1f30d}\n";
    let head = docs_and_readme(&repo, text);
    let tree = repo.find_commit(head).unwrap().tree().unwrap();
    let manager = GitManager::new("/srv");

    let read = read_directory(&repo, &tree, None);
    let listing = manager.list_repository_files(&read, None, None).unwrap();
    let names: Vec<(&str, bool, Option<u64>)> =
        listing.iter().map(|e| (e.path.as_str(), e.is_dir, e.size)).collect();
    assert_eq!(names, vec![("README.md", false, Some(9)), ("docs", true, None)]);
    assert_eq!(listing[1].children.len(), 1);
    assert_eq!(listing[1].children[0].path, "docs/note.txt");
    assert_eq!(listing[1].children[0].size, Some(text.len() as u64));

    let read = read_file(&repo, &tree, "docs/note.txt");
    assert_eq!(manager.get_file_content(&read, "docs/note.txt").unwrap(), text);
    let read = read_file(&repo, &tree, "README.md");
    assert_eq!(manager.get_file_content(&read, "README.md").unwrap(), "# readme\n");
}

#[test]
fn a_directory_of_a_commit_is_found_by_the_object_database() {
    let repo = memory_repo();
    let head = docs_and_readme(&repo, "x");
    let tree = repo.find_commit(head).unwrap().tree().unwrap();
    let manager = GitManager::new("/srv");

    let read = read_directory(&repo, &tree, Some("docs"));
    let listing = manager.list_repository_files(&read, Some("docs"), None).unwrap();
    assert_eq!(listing.len(), 1);
    assert_eq!(listing[0].path, "docs/note.txt");

    let read = read_directory(&repo, &tree, Some("nowhere"));
    let err = manager.list_repository_files(&read, Some("nowhere"), None).unwrap_err();
    assert_eq!(err.status_code(), 404);

    let read = read_directory(&repo, &tree, Some("README.md"));
    let err = manager.list_repository_files(&read, Some("README.md"), None).unwrap_err();
    assert_eq!(err.status_code(), 400);

    let read = read_file(&repo, &tree, "docs");
    let err = manager.get_file_content(&read, "docs").unwrap_err();
    assert_eq!(err.reason(), "Object is not a blob");

    let read = read_file(&repo, &tree, "docs/none.txt");
    let err = manager.get_file_content(&read, "docs/none.txt").unwrap_err();
    assert_eq!(err.reason(), "File not found: docs/none.txt");
}
