//! Object and reference accessor: what `HEAD` and the branches of a
//! repository resolve to, decided from what reading them gave.

use vstd::prelude::*;
use vstd::string::*;
use crate::error::{AppError, ErrorKind};
use crate::resolver::GitManager;
use crate::text::{joined, take, take_spec};
use crate::vos::ReposVo;

verus! {

/// The code of a fault of the object database, as far as the engine tells
/// codes apart.
#[derive(Clone, Copy, Debug, PartialEq, Eq, Structural)]
pub enum FaultCode {
    /// `HEAD` points to a branch that has no commit yet.
    UnbornBranch,
    /// The reference does not exist.
    NotFound,
    /// Any other code.
    Other,
}

/// Where a resolved `HEAD` leads.
#[derive(Debug, Clone, PartialEq, Eq)]
pub enum HeadCommit {
    /// The commit it leads to, by its identifier.
    Found { id: String },
    /// It leads to no commit: the fault's text.
    Unavailable { detail: String },
}

/// What resolving `HEAD` gave.
#[derive(Debug, Clone, PartialEq, Eq)]
pub enum HeadRead {
    /// `HEAD` could not be resolved: the fault's code and text.
    Failed { code: FaultCode, detail: String },
    /// `HEAD` resolved to a reference.
    Resolved {
        /// Whether the reference is a local branch.
        is_branch: bool,
        /// The short name of the reference, where it has one.
        shorthand: Option<String>,
        /// The commit it leads to.
        commit: HeadCommit,
    },
}

/// The operation on whose behalf `HEAD` is read; it decides the wording of a
/// failure.
#[derive(Clone, Copy, Debug, PartialEq, Eq, Structural)]
pub enum MutationKind {
    /// Staging paths of the working tree and committing them.
    Commit,
    /// Writing one file and committing it.
    UpdateFile,
}

/// What stands before the fault's text where `HEAD` leads to no commit.
pub open spec fn peel_label_spec(kind: MutationKind) -> Seq<char> {
    match kind {
        MutationKind::Commit => "Failed to peel HEAD to commit: "@,
        MutationKind::UpdateFile => "Failed to peel HEAD: "@,
    }
}

/// What stands before the fault's text where `HEAD` cannot be resolved.
pub open spec fn head_label_spec(kind: MutationKind) -> Seq<char> {
    match kind {
        MutationKind::Commit => "Failed to get HEAD reference: "@,
        MutationKind::UpdateFile => "Failed to get HEAD: "@,
    }
}

/// Whether `HEAD` is unborn: it could not be resolved because its branch has
/// no commit yet or does not exist.
pub open spec fn is_unborn(head: HeadRead) -> bool {
    head matches HeadRead::Failed { code, .. } && (code == FaultCode::UnbornBranch || code
        == FaultCode::NotFound)
}

/// The failure of reading the commit of `HEAD`, if it is one: an unborn
/// `HEAD` is none.
pub open spec fn head_failure(head: HeadRead, kind: MutationKind) -> Option<Seq<char>> {
    match head {
        HeadRead::Failed { code, detail } => if code == FaultCode::UnbornBranch || code
            == FaultCode::NotFound {
            None
        } else {
            Some(head_label_spec(kind) + detail@)
        },
        HeadRead::Resolved { commit, .. } => match commit {
            HeadCommit::Found { .. } => None,
            HeadCommit::Unavailable { detail } => Some(peel_label_spec(kind) + detail@),
        },
    }
}

/// The commit of `HEAD`, or none where `HEAD` is unborn: an empty repository
/// is no fault. Any other fault of resolving `HEAD`, or of following it to a
/// commit, is an internal fault.
pub fn head_commit_or_none(head: &HeadRead, kind: MutationKind) -> (r: Result<
    Option<String>,
    AppError,
>)
    ensures
        r is Ok <==> head_failure(*head, kind) is None,
        r matches Ok(parent) ==> (parent is None <==> is_unborn(*head)),
        r matches Ok(Some(id)) ==> (head matches HeadRead::Resolved {
            commit: HeadCommit::Found { id: found },
            ..
        } && id == found),
        r matches Err(e) ==> e.is_failure(
            ErrorKind::InternalServerError,
            head_failure(*head, kind)->0,
        ),
{
    match head {
        HeadRead::Failed { code, detail } => match code {
            FaultCode::UnbornBranch => Ok(None),
            FaultCode::NotFound => Ok(None),
            FaultCode::Other => {
                let label = match kind {
                    MutationKind::Commit => "Failed to get HEAD reference: ",
                    MutationKind::UpdateFile => "Failed to get HEAD: ",
                };
                Err(AppError::with_detail(ErrorKind::InternalServerError, label, detail.as_str()))
            },
        },
        HeadRead::Resolved { commit, .. } => match commit {
            HeadCommit::Found { id } => Ok(Some(id.clone())),
            HeadCommit::Unavailable { detail } => {
                let label = match kind {
                    MutationKind::Commit => "Failed to peel HEAD to commit: ",
                    MutationKind::UpdateFile => "Failed to peel HEAD: ",
                };
                Err(AppError::with_detail(ErrorKind::InternalServerError, label, detail.as_str()))
            },
        },
    }
}

/// The name under which the current branch is shown: the short name of the
/// branch, `unknown` where it has none; for a detached `HEAD`, `detached@`
/// and the first seven characters of its commit, or of `unknown`.
pub open spec fn current_branch_spec(head: HeadRead) -> Seq<char> {
    match head {
        HeadRead::Failed { .. } => Seq::empty(),
        HeadRead::Resolved { is_branch, shorthand, commit } => if is_branch {
            match shorthand {
                Some(name) => name@,
                None => "unknown"@,
            }
        } else {
            "detached@"@ + take_spec(
                match commit {
                    HeadCommit::Found { id } => id@,
                    HeadCommit::Unavailable { .. } => "unknown"@,
                },
                7,
            )
        },
    }
}

/// One entry of an owner's directory.
#[derive(Debug, Clone, PartialEq, Eq)]
pub struct DirectoryEntry {
    /// The entry's name; empty where it is not valid text.
    pub name: String,
    /// What `HEAD` resolved to, where the entry is a directory that opens
    /// as a repository; `None` for anything else.
    pub head: Option<HeadRead>,
}

/// What listing a repository's branches gave for one branch.
#[derive(Debug, Clone, PartialEq, Eq)]
pub enum BranchItem {
    /// The branch could not be read.
    Failed { detail: String },
    /// The branch's name could not be read.
    NameFailed { detail: String },
    /// The branch's name is not valid text.
    Unnamed,
    /// The branch's name.
    Named { name: String },
}

/// The first failure among `items[from..]`, if there is one.
pub open spec fn branch_failure_from(items: Seq<BranchItem>, from: int) -> Option<Seq<char>>
    decreases items.len() - from,
{
    if 0 <= from < items.len() {
        match items[from] {
            BranchItem::Failed { detail } => Some("Failed to get branch: "@ + detail@),
            BranchItem::NameFailed { detail } => Some("Failed to get branch name: "@ + detail@),
            _ => branch_failure_from(items, from + 1),
        }
    } else {
        None
    }
}

/// The names among the first `upto` items, in order.
pub open spec fn branch_names_upto(items: Seq<BranchItem>, upto: int) -> Seq<String>
    decreases upto,
{
    if upto <= 0 || upto > items.len() {
        Seq::empty()
    } else {
        match items[upto - 1] {
            BranchItem::Named { name } => branch_names_upto(items, upto - 1).push(name),
            _ => branch_names_upto(items, upto - 1),
        }
    }
}

/// The first failure among the entries `entries[from..]` that are
/// repositories: the fault of resolving the `HEAD` of one of them.
pub open spec fn listing_failure_from(entries: Seq<DirectoryEntry>, from: int) -> Option<
    Seq<char>,
>
    decreases entries.len() - from,
{
    if 0 <= from < entries.len() {
        match entries[from].head {
            Some(HeadRead::Failed { detail, .. }) => Some(
                "Failed to get HEAD reference: "@ + detail@,
            ),
            _ => listing_failure_from(entries, from + 1),
        }
    } else {
        None
    }
}

/// Whether `repos` are the repositories among the first `upto` entries, in
/// order, each with its name and the name of its current branch.
pub open spec fn shows_repositories(
    entries: Seq<DirectoryEntry>,
    upto: int,
    repos: Seq<ReposVo>,
) -> bool
    decreases upto,
{
    if upto <= 0 || upto > entries.len() {
        repos.len() == 0
    } else {
        match entries[upto - 1].head {
            Some(head) => {
                &&& repos.len() > 0
                &&& repos.last().name@ == entries[upto - 1].name@
                &&& repos.last().branch@ == current_branch_spec(head)
                &&& shows_repositories(entries, upto - 1, repos.drop_last())
            },
            None => shows_repositories(entries, upto - 1, repos),
        }
    }
}

impl GitManager {
    /// The name under which the current branch of a repository is shown,
    /// from what resolving its `HEAD` gave.
    pub fn get_current_branch(&self, head: &HeadRead) -> (r: Result<String, AppError>)
        ensures
            r is Ok <==> head is Resolved,
            r matches Ok(name) ==> name@ == current_branch_spec(*head),
            r matches Err(e) ==> e.is_failure(
                ErrorKind::InternalServerError,
                "Failed to get HEAD reference: "@ + head->Failed_detail@,
            ),
    {
        match head {
            HeadRead::Failed { detail, .. } => Err(
                AppError::with_detail(
                    ErrorKind::InternalServerError,
                    "Failed to get HEAD reference: ",
                    detail.as_str(),
                ),
            ),
            HeadRead::Resolved { is_branch, shorthand, commit } => {
                if *is_branch {
                    match shorthand {
                        Some(name) => Ok(name.clone()),
                        None => Ok(String::from_str("unknown")),
                    }
                } else {
                    let short = match commit {
                        HeadCommit::Found { id } => take(id.as_str(), 7),
                        HeadCommit::Unavailable { .. } => take("unknown", 7),
                    };
                    Ok(joined("detached@", short.as_str()))
                }
            },
        }
    }

    /// The repositories of an owner with their current branches, from what
    /// listing the owner's directory gave: `None` where the directory does
    /// not exist, which is an empty list; else the listing or the fault that
    /// kept it from being read. Entries that are no repositories are left
    /// out; a repository whose `HEAD` cannot be resolved fails the listing.
    pub fn get_repos_data_for_users(
        &self,
        listing: Option<Result<Vec<DirectoryEntry>, String>>,
    ) -> (r: Result<Vec<ReposVo>, AppError>)
        ensures
            match listing {
                None => r matches Ok(repos) && repos.len() == 0,
                Some(Err(detail)) => r matches Err(e) && e.is_failure(
                    ErrorKind::InternalServerError,
                    "Failed to read user directory: "@ + detail@,
                ),
                Some(Ok(entries)) => match listing_failure_from(entries@, 0) {
                    Some(failure) => r matches Err(e) && e.is_failure(
                        ErrorKind::InternalServerError,
                        failure,
                    ),
                    None => r matches Ok(repos) && shows_repositories(
                        entries@,
                        entries.len() as int,
                        repos@,
                    ),
                },
            },
    {
        let entries = match listing {
            None => {
                return Ok(Vec::new());
            },
            Some(Err(detail)) => {
                return Err(
                    AppError::with_detail(
                        ErrorKind::InternalServerError,
                        "Failed to read user directory: ",
                        detail.as_str(),
                    ),
                );
            },
            Some(Ok(entries)) => entries,
        };
        let mut repos: Vec<ReposVo> = Vec::new();
        let mut i: usize = 0;
        while i < entries.len()
            invariant
                i <= entries.len(),
                listing == Some(Ok::<Vec<DirectoryEntry>, String>(entries)),
                listing_failure_from(entries@, 0) == listing_failure_from(entries@, i as int),
                shows_repositories(entries@, i as int, repos@),
            decreases entries.len() - i,
        {
            let entry = &entries[i];
            match &entry.head {
                Some(head) => {
                    let branch = match self.get_current_branch(head) {
                        Ok(branch) => branch,
                        Err(e) => {
                            return Err(e);
                        },
                    };
                    let ghost before = repos@;
                    repos.push(ReposVo { name: entry.name.clone(), branch });
                    assert(repos@.drop_last() =~= before);
                },
                None => {},
            }
            i += 1;
        }
        Ok(repos)
    }

    /// The names of a repository's branches, from what listing them gave:
    /// the fault that kept the listing from starting, or one item for each
    /// branch. A branch whose name is not valid text is left out; one that
    /// cannot be read fails the listing.
    pub fn get_repo_branchs(&self, listing: Result<Vec<BranchItem>, String>) -> (r: Result<
        Vec<String>,
        AppError,
    >)
        ensures
            match listing {
                Err(detail) => r matches Err(e) && e.is_failure(
                    ErrorKind::InternalServerError,
                    "Failed to get branches: "@ + detail@,
                ),
                Ok(items) => match branch_failure_from(items@, 0) {
                    Some(failure) => r matches Err(e) && e.is_failure(
                        ErrorKind::InternalServerError,
                        failure,
                    ),
                    None => r matches Ok(names) && names@ == branch_names_upto(
                        items@,
                        items.len() as int,
                    ),
                },
            },
    {
        let items = match listing {
            Err(detail) => {
                return Err(
                    AppError::with_detail(
                        ErrorKind::InternalServerError,
                        "Failed to get branches: ",
                        detail.as_str(),
                    ),
                );
            },
            Ok(items) => items,
        };
        let mut names: Vec<String> = Vec::new();
        let mut i: usize = 0;
        while i < items.len()
            invariant
                i <= items.len(),
                listing == Ok::<Vec<BranchItem>, String>(items),
                branch_failure_from(items@, 0) == branch_failure_from(items@, i as int),
                names@ == branch_names_upto(items@, i as int),
            decreases items.len() - i,
        {
            match &items[i] {
                BranchItem::Failed { detail } => {
                    return Err(
                        AppError::with_detail(
                            ErrorKind::InternalServerError,
                            "Failed to get branch: ",
                            detail.as_str(),
                        ),
                    );
                },
                BranchItem::NameFailed { detail } => {
                    return Err(
                        AppError::with_detail(
                            ErrorKind::InternalServerError,
                            "Failed to get branch name: ",
                            detail.as_str(),
                        ),
                    );
                },
                BranchItem::Unnamed => {},
                BranchItem::Named { name } => {
                    names.push(name.clone());
                },
            }
            i += 1;
        }
        Ok(names)
    }
}

} // verus!
