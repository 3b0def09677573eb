use code_management_backend::error::{AppError, ErrorKind};
use code_management_backend::history::{paginate, walk_label, CommitInfo, HistoryRead, WalkStep};
use code_management_backend::refs::FaultCode;
use code_management_backend::resolver::GitManager;

fn walk(n: usize) -> Vec<CommitInfo> {
    let mut commits = Vec::new();
    for i in 0..n {
        commits.push(CommitInfo::from_parts(
            &format!("{:040x}", i + 1),
            Some("alice"),
            Some("alice@example.com"),
            Some(&format!("commit {}", i)),
            1_700_000_000 - i as i64,
        ));
    }
    commits
}

#[test]
fn commit_info_formats_the_author_line() {
    let info = CommitInfo::from_parts("abc", Some("Alice"), Some("a@x.org"), Some("msg\n"), 42);
    assert_eq!(info.id, "abc");
    assert_eq!(info.author, "Alice <a@x.org>");
    assert_eq!(info.message, "msg\n");
    assert_eq!(info.time, 42);
}

#[test]
fn commit_info_defaults_missing_parts_to_empty() {
    let info = CommitInfo::from_parts("abc", None, None, None, -1);
    assert_eq!(info.author, " <>");
    assert_eq!(info.message, "");
    assert_eq!(info.time, -1);
}

#[test]
fn commit_info_duplicate_is_equal() {
    let info = CommitInfo::from_parts("abc", Some("n"), Some("e"), Some("m"), 7);
    assert_eq!(info.duplicate(), info);
}

#[test]
fn first_page_holds_the_newest_commits() {
    let commits = walk(25);
    let (items, total) = paginate(&commits, 1, 10).unwrap();
    assert_eq!(total, 25);
    assert_eq!(items.len(), 10);
    assert_eq!(items[0], commits[0]);
    assert_eq!(items[9], commits[9]);
}

#[test]
fn last_page_is_short() {
    let commits = walk(25);
    let (items, total) = paginate(&commits, 3, 10).unwrap();
    assert_eq!(total, 25);
    assert_eq!(items, commits[20..25].to_vec());
}

#[test]
fn page_behind_the_end_is_a_bad_request() {
    let commits = walk(20);
    let err = paginate(&commits, 3, 10).unwrap_err();
    assert_eq!(err.kind(), ErrorKind::BadRequest);
    assert_eq!(
        err,
        AppError::BadRequest("Page number exceeds total commit count".to_string())
    );
}

#[test]
fn page_that_begins_exactly_at_the_end_is_out_of_range() {
    // (page - 1) * page_size == total
    let commits = walk(10);
    assert!(paginate(&commits, 2, 10).is_err());
    assert!(paginate(&commits, 11, 1).is_err());
    assert!(paginate(&commits, 10, 1).is_ok());
}

#[test]
fn every_page_of_an_empty_walk_is_empty() {
    let commits = walk(0);
    for page in [1usize, 2, 7, usize::MAX] {
        let (items, total) = paginate(&commits, page, 10).unwrap();
        assert!(items.is_empty());
        assert_eq!(total, 0);
    }
}

#[test]
fn page_zero_is_a_bad_request() {
    let err = paginate(&walk(3), 0, 10).unwrap_err();
    assert_eq!(err, AppError::BadRequest("Page numbers start at 1".to_string()));
    let err = paginate(&walk(0), 0, 10).unwrap_err();
    assert_eq!(err.kind(), ErrorKind::BadRequest);
}

#[test]
fn page_size_zero_gives_an_empty_first_page() {
    let (items, total) = paginate(&walk(3), 1, 0).unwrap();
    assert!(items.is_empty());
    assert_eq!(total, 3);
}

#[test]
fn huge_page_numbers_do_not_overflow() {
    let commits = walk(3);
    assert!(paginate(&commits, usize::MAX, usize::MAX).is_err());
    assert!(paginate(&commits, 2, usize::MAX).is_err());
    let (items, _) = paginate(&commits, 1, usize::MAX).unwrap();
    assert_eq!(items, commits);
}

#[test]
fn pages_cover_the_walk_once_and_in_order() {
    for n in [1usize, 2, 9, 10, 11, 37] {
        for size in [1usize, 2, 3, 10, 50] {
            let commits = walk(n);
            let pages = (n + size - 1) / size;
            let mut seen: Vec<CommitInfo> = Vec::new();
            for page in 1..=pages {
                let (items, total) = paginate(&commits, page, size).unwrap();
                assert_eq!(total, n);
                if page < pages {
                    assert_eq!(items.len(), size);
                }
                seen.extend(items);
            }
            assert_eq!(seen, commits);
            assert!(paginate(&commits, pages + 1, size).is_err());
        }
    }
}

#[test]
fn paging_twice_gives_the_same_page() {
    let commits = walk(12);
    assert_eq!(paginate(&commits, 2, 5).unwrap(), paginate(&commits, 2, 5).unwrap());
}

#[test]
fn manager_pages_like_paginate() {
    let manager = GitManager::new("/srv/repos");
    let commits = walk(12);
    let read = HistoryRead::Walk { commits: commits.clone() };
    let items = manager.get_commit_histories(read.clone(), 5, 3).unwrap();
    assert_eq!(items, commits[10..12].to_vec());
    assert!(manager.get_commit_histories(read.clone(), 5, 4).is_err());
    assert_eq!(manager.get_total_commits_count(&read), Ok(12));
    let empty = HistoryRead::Walk { commits: vec![] };
    assert!(manager.get_commit_histories(empty.clone(), 5, 4).unwrap().is_empty());
    assert_eq!(manager.get_total_commits_count(&empty), Ok(0));
}

#[test]
fn a_failed_walk_is_an_internal_fault() {
    let manager = GitManager::new("/srv/repos");
    let cases = [
        (WalkStep::CreateWalk, "Failed to create revwalk: x"),
        (WalkStep::PushHead, "Failed to push head: x"),
        (WalkStep::NextCommit, "Failed to get commit ID: x"),
        (WalkStep::FindCommit, "Failed to find commit: x"),
    ];
    for (step, text) in cases {
        let read = HistoryRead::Failed { step, code: FaultCode::Other, detail: "x".to_string() };
        let expected = AppError::InternalServerError(text.to_string());
        assert_eq!(manager.get_commit_histories(read.clone(), 10, 1), Err(expected.clone()));
        assert_eq!(manager.get_total_commits_count(&read), Err(expected));
        assert!(text.starts_with(walk_label(step)));
    }
}

#[test]
fn seed_repository_first_page() {
    // A freshly cloned repository with two seed commits.
    let commits = walk(2);
    let (items, total) = paginate(&commits, 1, 10).unwrap();
    assert_eq!(total, 2);
    assert_eq!(items, commits);
}

#[test]
fn history_is_served_newest_first_whatever_the_walk() {
    let manager = GitManager::new("/srv/repos");
    let c = |id: &str, time: i64| CommitInfo::from_parts(id, Some("a"), Some("e"), Some("m"), time);
    let shuffled = vec![c("bb", 20), c("aa", 30), c("cc", 10), c("ab", 20), c("b", 20)];
    let expected = vec![c("aa", 30), c("ab", 20), c("b", 20), c("bb", 20), c("cc", 10)];
    let read = HistoryRead::Walk { commits: shuffled.clone() };
    assert_eq!(manager.get_commit_histories(read, 10, 1), Ok(expected.clone()));
    let mut reversed = shuffled;
    reversed.reverse();
    let read = HistoryRead::Walk { commits: reversed };
    assert_eq!(manager.get_commit_histories(read.clone(), 10, 1), Ok(expected.clone()));
    assert_eq!(manager.get_commit_histories(read.clone(), 2, 2), Ok(expected[2..4].to_vec()));
    assert_eq!(manager.get_commit_histories(read, 2, 3), Ok(expected[4..5].to_vec()));
}

#[test]
fn a_repository_without_commits_has_an_empty_history() {
    let manager = GitManager::new("/srv/repos");
    for code in [FaultCode::UnbornBranch, FaultCode::NotFound] {
        let read = HistoryRead::Failed {
            step: WalkStep::PushHead,
            code,
            detail: "reference 'refs/heads/main' not found".to_string(),
        };
        assert_eq!(manager.get_commit_histories(read.clone(), 10, 1), Ok(vec![]));
        assert_eq!(manager.get_commit_histories(read.clone(), 10, 5), Ok(vec![]));
        assert_eq!(manager.get_total_commits_count(&read), Ok(0));
        assert_eq!(read.into_commits(), Ok(vec![]));
    }
    // Only the start of the walk can find the repository empty.
    let read = HistoryRead::Failed {
        step: WalkStep::FindCommit,
        code: FaultCode::NotFound,
        detail: "x".to_string(),
    };
    assert!(manager.get_commit_histories(read, 10, 1).is_err());
}
