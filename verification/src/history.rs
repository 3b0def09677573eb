//! Commit history paginator: windows a walk of the commit graph into
//! 1-based pages.

use vstd::prelude::*;
use vstd::string::*;
use crate::error::{AppError, ErrorKind};
use crate::order::{order_walk, ordered};
use crate::refs::FaultCode;
use crate::resolver::GitManager;

verus! {

/// A commit as the history shows it.
#[derive(Debug, Clone, PartialEq, Eq)]
pub struct CommitInfo {
    /// The commit's identifier, in hexadecimal.
    pub id: String,
    /// The author, as `name <email>`.
    pub author: String,
    /// The commit message.
    pub message: String,
    /// The commit time, in seconds since the epoch.
    pub time: i64,
}

/// The text of an optional field: empty where it is missing.
pub open spec fn text_or_empty(field: Option<&str>) -> Seq<char> {
    match field {
        Some(s) => s@,
        None => Seq::empty(),
    }
}

/// The author line of a commit: `name <email>`, each part empty where it is
/// missing.
pub open spec fn author_line(name: Option<&str>, email: Option<&str>) -> Seq<char> {
    text_or_empty(name) + seq![' ', '<'] + text_or_empty(email) + seq!['>']
}

impl CommitInfo {
    /// The record of a commit with the given identifier, author, message and time.
    pub fn from_parts(
        id: &str,
        author_name: Option<&str>,
        author_email: Option<&str>,
        message: Option<&str>,
        time: i64,
    ) -> (info: CommitInfo)
        ensures
            info.id@ == id@,
            info.author@ == author_line(author_name, author_email),
            info.message@ == text_or_empty(message),
            info.time == time,
    {
        let mut author = String::from_str(
            match author_name {
                Some(n) => n,
                None => "",
            },
        );
        author.append(" <");
        author.append(
            match author_email {
                Some(e) => e,
                None => "",
            },
        );
        author.append(">");
        proof {
            reveal_strlit("");
            reveal_strlit(" <");
            reveal_strlit(">");
            assert(" <"@ =~= seq![' ', '<']);
            assert(">"@ =~= seq!['>']);
            assert(""@ =~= Seq::<char>::empty());
        }
        CommitInfo {
            id: String::from_str(id),
            author,
            message: String::from_str(
                match message {
                    Some(m) => m,
                    None => "",
                },
            ),
            time,
        }
    }

    /// A copy of this record.
    pub fn duplicate(&self) -> (copy: CommitInfo)
        ensures
            copy == *self,
    {
        CommitInfo {
            id: self.id.clone(),
            author: self.author.clone(),
            message: self.message.clone(),
            time: self.time,
        }
    }
}

/// How many entries of the walk come before page `page`.
pub open spec fn page_offset(page: int, page_size: int) -> int {
    (page - 1) * page_size
}

/// The position in the walk of the entry at `offset` on page `page`.
pub open spec fn walk_position(page: int, page_size: int, offset: int) -> int {
    page_offset(page, page_size) + offset
}

/// Whether page `page` can be served from a walk of `total` entries: every
/// page of an empty walk, and otherwise a page that begins inside the walk.
pub open spec fn page_in_range(total: int, page: int, page_size: int) -> bool {
    total == 0 || page_offset(page, page_size) < total
}

/// The entries of page `page`: what is left of the walk after skipping the
/// pages before it, cut to `page_size` entries.
pub open spec fn page_window<T>(walk: Seq<T>, page: int, page_size: int) -> Seq<T>
    recommends
        page >= 1,
        page_size >= 0,
{
    let total = walk.len() as int;
    let start = if page_offset(page, page_size) < total {
        page_offset(page, page_size)
    } else {
        total
    };
    let end = if start + page_size < total {
        start + page_size
    } else {
        total
    };
    walk.subrange(start, end)
}

/// The number of pages of `page_size` entries that a walk of `total` entries fills.
pub open spec fn page_count(total: int, page_size: int) -> int
    recommends
        page_size >= 1,
{
    (total + page_size - 1) / page_size
}

/// Pages `1` to `pages`, one after the other.
pub open spec fn pages_up_to<T>(walk: Seq<T>, page_size: int, pages: int) -> Seq<T>
    decreases pages,
{
    if pages <= 0 {
        Seq::empty()
    } else {
        pages_up_to(walk, page_size, pages - 1) + page_window(walk, pages, page_size)
    }
}

/// The first `pages` pages are the first `pages * page_size` entries of the walk.
pub proof fn lemma_pages_are_prefix<T>(walk: Seq<T>, page_size: int, pages: int)
    requires
        page_size >= 1,
        pages >= 0,
    ensures
        pages * page_size >= 0,
        pages_up_to(walk, page_size, pages) == walk.subrange(
            0,
            if pages * page_size < walk.len() {
                pages * page_size
            } else {
                walk.len() as int
            },
        ),
    decreases pages,
{
    assert(pages * page_size >= 0) by (nonlinear_arith)
        requires
            pages >= 0,
            page_size >= 1,
    ;
    if pages == 0 {
        assert(pages * page_size == 0) by (nonlinear_arith)
            requires
                pages == 0,
        ;
        assert(walk.subrange(0, 0) =~= Seq::<T>::empty());
    } else {
        lemma_pages_are_prefix(walk, page_size, pages - 1);
        assert((pages - 1) * page_size + page_size == pages * page_size) by (nonlinear_arith);
        let total = walk.len() as int;
        let before = if (pages - 1) * page_size < total {
            (pages - 1) * page_size
        } else {
            total
        };
        let after = if pages * page_size < total {
            pages * page_size
        } else {
            total
        };
        assert(page_window(walk, pages, page_size) == walk.subrange(before, after));
        assert(walk.subrange(0, before) + walk.subrange(before, after) =~= walk.subrange(0, after));
    }
}

/// Paging through a walk of `N` entries with pages of `P` entries, from page
/// `1` to page `ceil(N / P)`, yields the walk itself: `N` entries in all, each
/// entry of the walk once, in the order of the walk. Each of those pages can
/// be served, and each but the last is full.
pub proof fn lemma_pages_cover_walk<T>(walk: Seq<T>, page_size: int)
    requires
        page_size >= 1,
    ensures
        pages_up_to(walk, page_size, page_count(walk.len() as int, page_size)) == walk,
        forall|page: int|
            1 <= page <= page_count(walk.len() as int, page_size) ==> #[trigger] page_in_range(
                walk.len() as int,
                page,
                page_size,
            ),
        forall|page: int|
            1 <= page < page_count(walk.len() as int, page_size) ==> (#[trigger] page_window(
                walk,
                page,
                page_size,
            )).len() == page_size,
        walk.no_duplicates() ==> pages_up_to(
            walk,
            page_size,
            page_count(walk.len() as int, page_size),
        ).no_duplicates(),
{
    let total = walk.len() as int;
    let count = page_count(total, page_size);
    assert(count >= 0 && count * page_size >= total && (count - 1) * page_size < total)
        by (nonlinear_arith)
        requires
            count == (total + page_size - 1) / page_size,
            page_size >= 1,
            total >= 0,
    ;
    lemma_pages_are_prefix(walk, page_size, count);
    assert(walk.subrange(0, total) =~= walk);
    assert forall|page: int| 1 <= page <= count implies #[trigger] page_in_range(
        total,
        page,
        page_size,
    ) by {
        assert((page - 1) * page_size <= (count - 1) * page_size) by (nonlinear_arith)
            requires
                page <= count,
                page_size >= 1,
        ;
    }
    assert forall|page: int| 1 <= page < count implies (#[trigger] page_window(
        walk,
        page,
        page_size,
    )).len() == page_size by {
        assert(page * page_size <= (count - 1) * page_size) by (nonlinear_arith)
            requires
                page <= count - 1,
                page_size >= 1,
        ;
        assert((page - 1) * page_size + page_size == page * page_size) by (nonlinear_arith);
        assert((page - 1) * page_size >= 0) by (nonlinear_arith)
            requires
                page >= 1,
                page_size >= 1,
        ;
    }
}

/// Every page of an empty walk can be served and is empty; a page that begins
/// at or behind the end of a walk that is not empty cannot be served.
pub proof fn lemma_pages_at_the_ends<T>(walk: Seq<T>, page: int, page_size: int)
    requires
        page >= 1,
        page_size >= 0,
    ensures
        walk.len() == 0 ==> page_in_range(0, page, page_size) && page_window(
            walk,
            page,
            page_size,
        ).len() == 0,
        walk.len() > 0 && page_offset(page, page_size) >= walk.len() ==> !page_in_range(
            walk.len() as int,
            page,
            page_size,
        ),
{
}

/// Two pages of one walk hold different positions of it: the entry at
/// position `i` of the walk stands on page `i / page_size + 1`, at offset
/// `i % page_size`, and on no other page at any offset.
pub proof fn lemma_entry_on_one_page<T>(walk: Seq<T>, page_size: int, i: int)
    requires
        page_size >= 1,
        0 <= i < walk.len(),
    ensures
        1 <= i / page_size + 1 <= page_count(walk.len() as int, page_size),
        0 <= i % page_size < page_window(walk, i / page_size + 1, page_size).len(),
        page_window(walk, i / page_size + 1, page_size)[i % page_size] == walk[i],
        forall|page: int, offset: int|
            page >= 1 && 0 <= offset < page_size && #[trigger] walk_position(
                page,
                page_size,
                offset,
            ) == i ==> page == i / page_size + 1 && offset == i % page_size,
{
    let total = walk.len() as int;
    let q = i / page_size;
    let r = i % page_size;
    assert(i == q * page_size + r && 0 <= r < page_size && q >= 0) by (nonlinear_arith)
        requires
            q == i / page_size,
            r == i % page_size,
            page_size >= 1,
            i >= 0,
    ;
    assert(q + 1 <= (total + page_size - 1) / page_size) by (nonlinear_arith)
        requires
            i == q * page_size + r,
            0 <= r,
            i < total,
            page_size >= 1,
    ;
    assert((q + 1 - 1) * page_size == q * page_size);
    assert forall|page: int, offset: int|
        page >= 1 && 0 <= offset < page_size && #[trigger] walk_position(page, page_size, offset)
            == i implies page == q + 1 && offset == r by {
        assert(page - 1 == q && offset == r) by (nonlinear_arith)
            requires
                (page - 1) * page_size + offset == i,
                0 <= offset < page_size,
                i == q * page_size + r,
                0 <= r < page_size,
                page_size >= 1,
        ;
    }
}

/// One page of a walk, with the length of the whole walk.
///
/// Pages are numbered from 1. Page 0 is a bad request. A page that begins at
/// or behind the end of a walk that is not empty is a bad request too; every
/// page of an empty walk is empty.
pub fn paginate(walk: &Vec<CommitInfo>, page: usize, page_size: usize) -> (r: Result<
    (Vec<CommitInfo>, usize),
    AppError,
>)
    ensures
        r is Ok <==> page >= 1 && page_in_range(walk.len() as int, page as int, page_size as int),
        r matches Ok((items, total)) ==> items@ == page_window(
            walk@,
            page as int,
            page_size as int,
        ) && total == walk.len(),
        r matches Err(e) ==> e.is_failure(
            ErrorKind::BadRequest,
            if page == 0 {
                "Page numbers start at 1"@
            } else {
                "Page number exceeds total commit count"@
            },
        ),
{
    let total = walk.len();
    if page == 0 {
        return Err(AppError::BadRequest(String::from_str("Page numbers start at 1")));
    }
    let start: usize = match (page - 1).checked_mul(page_size) {
        Some(offset) => if offset < total {
            offset
        } else {
            total
        },
        None => total,
    };
    if total > 0 && start == total {
        return Err(
            AppError::BadRequest(String::from_str("Page number exceeds total commit count")),
        );
    }
    let end: usize = if page_size < total - start {
        start + page_size
    } else {
        total
    };
    let mut items: Vec<CommitInfo> = Vec::new();
    let mut i: usize = start;
    while i < end
        invariant
            start <= i <= end <= total,
            total == walk.len(),
            items@ == walk@.subrange(start as int, i as int),
        decreases end - i,
    {
        items.push(walk[i].duplicate());
        assert(items@ =~= walk@.subrange(start as int, i + 1));
        i += 1;
    }
    Ok((items, total))
}

/// A step of walking the history of a repository.
#[derive(Clone, Copy, Debug, PartialEq, Eq, Structural)]
pub enum WalkStep {
    CreateWalk,
    PushHead,
    NextCommit,
    FindCommit,
}

/// What walking the commits reachable from `HEAD` gave.
#[derive(Debug, Clone, PartialEq, Eq)]
pub enum HistoryRead {
    /// The step that failed, with the fault's code and text.
    Failed { step: WalkStep, code: FaultCode, detail: String },
    /// The commits in the order of the walk.
    Walk { commits: Vec<CommitInfo> },
}

/// Whether a walk could not start because the repository has no commit yet:
/// `HEAD` is unborn. Such a repository has an empty history, which is no
/// fault.
pub open spec fn is_empty_history(read: HistoryRead) -> bool {
    read matches HistoryRead::Failed { step, code, .. } && step == WalkStep::PushHead && (code
        == FaultCode::UnbornBranch || code == FaultCode::NotFound)
}

/// The failure of a walk, if it is one.
pub open spec fn walk_failure(read: HistoryRead) -> Option<Seq<char>> {
    match read {
        HistoryRead::Failed { step, detail, .. } => if is_empty_history(read) {
            None
        } else {
            Some(walk_label_spec(step) + detail@)
        },
        HistoryRead::Walk { .. } => None,
    }
}

/// The commits that a walk found: none where the repository has none.
pub open spec fn walked(read: HistoryRead) -> Seq<CommitInfo> {
    match read {
        HistoryRead::Failed { .. } => Seq::empty(),
        HistoryRead::Walk { commits } => commits@,
    }
}

/// What stands before the fault's text in the report of a failed step.
pub open spec fn walk_label_spec(step: WalkStep) -> Seq<char> {
    match step {
        WalkStep::CreateWalk => "Failed to create revwalk: "@,
        WalkStep::PushHead => "Failed to push head: "@,
        WalkStep::NextCommit => "Failed to get commit ID: "@,
        WalkStep::FindCommit => "Failed to find commit: "@,
    }
}

/// What stands before the fault's text in the report of a failed step.
pub fn walk_label(step: WalkStep) -> (label: &'static str)
    ensures
        label@ == walk_label_spec(step),
{
    match step {
        WalkStep::CreateWalk => "Failed to create revwalk: ",
        WalkStep::PushHead => "Failed to push head: ",
        WalkStep::NextCommit => "Failed to get commit ID: ",
        WalkStep::FindCommit => "Failed to find commit: ",
    }
}

impl HistoryRead {
    /// The commits that the walk found, or the failure of the walk. A
    /// repository without commits has an empty history.
    pub fn into_commits(self) -> (r: Result<Vec<CommitInfo>, AppError>)
        ensures
            match walk_failure(self) {
                Some(failure) => r matches Err(e) && e.is_failure(
                    ErrorKind::InternalServerError,
                    failure,
                ),
                None => r matches Ok(commits) && commits@ == walked(self),
            },
    {
        match self {
            HistoryRead::Walk { commits } => Ok(commits),
            HistoryRead::Failed { step, code, detail } => {
                let unborn = match code {
                    FaultCode::UnbornBranch => true,
                    FaultCode::NotFound => true,
                    FaultCode::Other => false,
                };
                let at_start = match step {
                    WalkStep::PushHead => true,
                    _ => false,
                };
                if unborn && at_start {
                    Ok(Vec::new())
                } else {
                    Err(
                        AppError::with_detail(
                            ErrorKind::InternalServerError,
                            walk_label(step),
                            detail.as_str(),
                        ),
                    )
                }
            },
        }
    }
}

impl GitManager {
    /// One page of a repository's history, from what walking it gave. The
    /// commits are put in order first, by commit date, the newest first, and
    /// by identifier within one date; the page holds `limit` commits of that
    /// order, behind the `page - 1` pages before them. A walk that failed is
    /// an internal fault; a repository without commits has only empty pages.
    pub fn get_commit_histories(&self, read: HistoryRead, limit: usize, page: usize) -> (r: Result<
        Vec<CommitInfo>,
        AppError,
    >)
        ensures
            match walk_failure(read) {
                Some(failure) => r matches Err(e) && e.is_failure(
                    ErrorKind::InternalServerError,
                    failure,
                ),
                None => {
                    &&& r is Ok <==> page >= 1 && page_in_range(
                        walked(read).len() as int,
                        page as int,
                        limit as int,
                    )
                    &&& r matches Ok(items) ==> items@ == page_window(
                        ordered(walked(read)),
                        page as int,
                        limit as int,
                    )
                    &&& r matches Err(e) ==> e.is_failure(
                        ErrorKind::BadRequest,
                        if page == 0 {
                            "Page numbers start at 1"@
                        } else {
                            "Page number exceeds total commit count"@
                        },
                    )
                },
            },
    {
        let commits = match read.into_commits() {
            Ok(commits) => commits,
            Err(e) => {
                return Err(e);
            },
        };
        proof {
            crate::order::lemma_ordered(commits@);
        }
        let in_order = order_walk(commits);
        match paginate(&in_order, page, limit) {
            Ok((items, _)) => Ok(items),
            Err(e) => Err(e),
        }
    }

    /// The number of commits of a repository's history, from what walking it
    /// gave.
    pub fn get_total_commits_count(&self, read: &HistoryRead) -> (r: Result<usize, AppError>)
        ensures
            match walk_failure(*read) {
                Some(failure) => r matches Err(e) && e.is_failure(
                    ErrorKind::InternalServerError,
                    failure,
                ),
                None => r == Ok::<usize, AppError>(walked(*read).len() as usize),
            },
    {
        match read {
            HistoryRead::Walk { commits } => Ok(commits.len()),
            HistoryRead::Failed { step, code, detail } => {
                let unborn = match code {
                    FaultCode::UnbornBranch => true,
                    FaultCode::NotFound => true,
                    FaultCode::Other => false,
                };
                let at_start = match step {
                    WalkStep::PushHead => true,
                    _ => false,
                };
                if unborn && at_start {
                    Ok(0)
                } else {
                    Err(
                        AppError::with_detail(
                            ErrorKind::InternalServerError,
                            walk_label(*step),
                            detail.as_str(),
                        ),
                    )
                }
            },
        }
    }
}

} // verus!
