use code_management_backend::error::AppError;
use code_management_backend::refs::{
    head_commit_or_none, BranchItem, DirectoryEntry, FaultCode, HeadCommit, HeadRead,
    MutationKind,
};
use code_management_backend::resolver::GitManager;
use code_management_backend::vos::ReposVo;

fn on_branch(name: &str) -> HeadRead {
    HeadRead::Resolved {
        is_branch: true,
        shorthand: Some(name.to_string()),
        commit: HeadCommit::Found { id: "0123456789abcdef0123456789abcdef01234567".to_string() },
    }
}

fn detached(id: &str) -> HeadRead {
    HeadRead::Resolved {
        is_branch: false,
        shorthand: Some("HEAD".to_string()),
        commit: HeadCommit::Found { id: id.to_string() },
    }
}

#[test]
fn head_commit_of_an_empty_repository_is_none() {
    for code in [FaultCode::UnbornBranch, FaultCode::NotFound] {
        let head = HeadRead::Failed { code, detail: "unborn".to_string() };
        assert_eq!(head_commit_or_none(&head, MutationKind::Commit), Ok(None));
        assert_eq!(head_commit_or_none(&head, MutationKind::UpdateFile), Ok(None));
    }
}

#[test]
fn head_commit_of_a_branch() {
    let head = on_branch("main");
    assert_eq!(
        head_commit_or_none(&head, MutationKind::Commit),
        Ok(Some("0123456789abcdef0123456789abcdef01234567".to_string()))
    );
    assert_eq!(
        head_commit_or_none(&detached("abc"), MutationKind::Commit),
        Ok(Some("abc".to_string()))
    );
}

#[test]
fn head_commit_faults() {
    let head = HeadRead::Failed { code: FaultCode::Other, detail: "io".to_string() };
    assert_eq!(
        head_commit_or_none(&head, MutationKind::Commit),
        Err(AppError::InternalServerError("Failed to get HEAD reference: io".to_string()))
    );
    assert_eq!(
        head_commit_or_none(&head, MutationKind::UpdateFile),
        Err(AppError::InternalServerError("Failed to get HEAD: io".to_string()))
    );
    let head = HeadRead::Resolved {
        is_branch: true,
        shorthand: None,
        commit: HeadCommit::Unavailable { detail: "blob".to_string() },
    };
    assert_eq!(
        head_commit_or_none(&head, MutationKind::Commit),
        Err(AppError::InternalServerError("Failed to peel HEAD to commit: blob".to_string()))
    );
    assert_eq!(
        head_commit_or_none(&head, MutationKind::UpdateFile),
        Err(AppError::InternalServerError("Failed to peel HEAD: blob".to_string()))
    );
}

#[test]
fn current_branch_of_an_attached_head() {
    let manager = GitManager::new("/srv");
    assert_eq!(manager.get_current_branch(&on_branch("main")).unwrap(), "main");
    assert_eq!(manager.get_current_branch(&on_branch("feature/x")).unwrap(), "feature/x");
    let unnamed = HeadRead::Resolved {
        is_branch: true,
        shorthand: None,
        commit: HeadCommit::Found { id: "abc".to_string() },
    };
    assert_eq!(manager.get_current_branch(&unnamed).unwrap(), "unknown");
}

#[test]
fn current_branch_of_a_detached_head() {
    let manager = GitManager::new("/srv");
    assert_eq!(
        manager
            .get_current_branch(&detached("0123456789abcdef0123456789abcdef01234567"))
            .unwrap(),
        "detached@0123456"
    );
    let unknown = HeadRead::Resolved {
        is_branch: false,
        shorthand: None,
        commit: HeadCommit::Unavailable { detail: "x".to_string() },
    };
    assert_eq!(manager.get_current_branch(&unknown).unwrap(), "detached@unknown");
    assert_eq!(manager.get_current_branch(&detached("abc")).unwrap(), "detached@abc");
}

#[test]
fn current_branch_of_an_unresolved_head() {
    let manager = GitManager::new("/srv");
    let head = HeadRead::Failed { code: FaultCode::UnbornBranch, detail: "unborn".to_string() };
    assert_eq!(
        manager.get_current_branch(&head),
        Err(AppError::InternalServerError("Failed to get HEAD reference: unborn".to_string()))
    );
}

#[test]
fn repositories_of_an_owner() {
    let manager = GitManager::new("/srv");
    let entries = vec![
        DirectoryEntry { name: "proj".to_string(), head: Some(on_branch("main")) },
        DirectoryEntry { name: "notes.txt".to_string(), head: None },
        DirectoryEntry { name: "lib".to_string(), head: Some(detached("fedcba9876543210")) },
    ];
    let repos = manager.get_repos_data_for_users(Some(Ok(entries))).unwrap();
    assert_eq!(
        repos,
        vec![
            ReposVo { name: "proj".to_string(), branch: "main".to_string() },
            ReposVo { name: "lib".to_string(), branch: "detached@fedcba9".to_string() },
        ]
    );
}

#[test]
fn an_owner_without_directory_has_no_repositories() {
    let manager = GitManager::new("/srv");
    assert_eq!(manager.get_repos_data_for_users(None), Ok(vec![]));
    assert_eq!(manager.get_repos_data_for_users(Some(Ok(vec![]))), Ok(vec![]));
}

#[test]
fn a_directory_that_cannot_be_read_fails_the_listing() {
    let manager = GitManager::new("/srv");
    assert_eq!(
        manager.get_repos_data_for_users(Some(Err("denied".to_string()))),
        Err(AppError::InternalServerError("Failed to read user directory: denied".to_string()))
    );
}

#[test]
fn a_repository_without_head_fails_the_listing() {
    let manager = GitManager::new("/srv");
    let entries = vec![
        DirectoryEntry { name: "ok".to_string(), head: Some(on_branch("main")) },
        DirectoryEntry {
            name: "empty".to_string(),
            head: Some(HeadRead::Failed {
                code: FaultCode::UnbornBranch,
                detail: "no commits".to_string(),
            }),
        },
    ];
    assert_eq!(
        manager.get_repos_data_for_users(Some(Ok(entries))),
        Err(AppError::InternalServerError(
            "Failed to get HEAD reference: no commits".to_string()
        ))
    );
}

#[test]
fn branches_of_a_repository() {
    let manager = GitManager::new("/srv");
    let items = vec![
        BranchItem::Named { name: "main".to_string() },
        BranchItem::Unnamed,
        BranchItem::Named { name: "origin/main".to_string() },
    ];
    assert_eq!(
        manager.get_repo_branchs(Ok(items)),
        Ok(vec!["main".to_string(), "origin/main".to_string()])
    );
    assert_eq!(manager.get_repo_branchs(Ok(vec![])), Ok(vec![]));
}

#[test]
fn branch_listing_faults() {
    let manager = GitManager::new("/srv");
    assert_eq!(
        manager.get_repo_branchs(Err("x".to_string())),
        Err(AppError::InternalServerError("Failed to get branches: x".to_string()))
    );
    let items = vec![
        BranchItem::Named { name: "main".to_string() },
        BranchItem::NameFailed { detail: "n".to_string() },
        BranchItem::Failed { detail: "b".to_string() },
    ];
    assert_eq!(
        manager.get_repo_branchs(Ok(items)),
        Err(AppError::InternalServerError("Failed to get branch name: n".to_string()))
    );
    let items = vec![BranchItem::Failed { detail: "b".to_string() }];
    assert_eq!(
        manager.get_repo_branchs(Ok(items)),
        Err(AppError::InternalServerError("Failed to get branch: b".to_string()))
    );
}
