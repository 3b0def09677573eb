//! Repository path resolver: maps an owner and a repository name to the
//! directory that holds the repository, inside the owner's own namespace.

use vstd::prelude::*;
use vstd::string::*;
use crate::error::{AppError, ErrorKind};
use crate::text::{contains_char, joined3, str_eq};

verus! {

/// Whether `name` can stand as one directory name below the base path: not
/// empty, free of path separators, and neither `.` nor `..`.
pub open spec fn is_safe_segment(name: Seq<char>) -> bool {
    &&& name.len() > 0
    &&& !name.contains('/')
    &&& !name.contains('\\')
    &&& name != seq!['.']
    &&& name != seq!['.', '.']
}

/// The directory of an owner below `base`.
pub open spec fn user_path_spec(base: Seq<char>, user_id: Seq<char>) -> Seq<char> {
    base + seq!['/'] + user_id
}

/// The directory of a repository below `base`: `{base}/{user_id}/{repo_name}`.
pub open spec fn repo_path_spec(base: Seq<char>, user_id: Seq<char>, repo_name: Seq<char>) -> Seq<
    char,
> {
    base + seq!['/'] + user_id + seq!['/'] + repo_name
}

/// Why a repository of this owner and name cannot be resolved, if it cannot:
/// the owner's id or the repository's name is no safe directory name.
pub open spec fn name_failure(owner_id: Seq<char>, repo_name: Seq<char>) -> Option<
    (ErrorKind, Seq<char>),
> {
    if !is_safe_segment(owner_id) {
        Some((ErrorKind::BadRequest, "Invalid owner id: "@ + owner_id))
    } else if !is_safe_segment(repo_name) {
        Some((ErrorKind::BadRequest, "Invalid repository name: "@ + repo_name))
    } else {
        None
    }
}

/// Decides `is_safe_segment`.
pub fn check_segment(name: &str) -> (ok: bool)
    ensures
        ok == is_safe_segment(name@),
{
    proof {
        reveal_strlit(".");
        reveal_strlit("..");
        assert("."@ =~= seq!['.']);
        assert(".."@ =~= seq!['.', '.']);
    }
    name.unicode_len() > 0 && !contains_char(name, '/') && !contains_char(name, '\\') && !str_eq(
        name,
        ".",
    ) && !str_eq(name, "..")
}

/// Two repositories of safe names share a directory only if they have the
/// same owner and the same name: no owner reaches into another's namespace.
pub proof fn lemma_repo_paths_differ(
    base: Seq<char>,
    user_a: Seq<char>,
    repo_a: Seq<char>,
    user_b: Seq<char>,
    repo_b: Seq<char>,
)
    requires
        is_safe_segment(user_a),
        is_safe_segment(repo_a),
        is_safe_segment(user_b),
        is_safe_segment(repo_b),
        repo_path_spec(base, user_a, repo_a) == repo_path_spec(base, user_b, repo_b),
    ensures
        user_a == user_b,
        repo_a == repo_b,
{
    let pa = repo_path_spec(base, user_a, repo_a);
    let pb = repo_path_spec(base, user_b, repo_b);
    let off: int = base.len() as int + 1;
    let la: int = user_a.len() as int;
    let lb: int = user_b.len() as int;
    // The first separator behind the base ends the owner's name.
    assert(pa[off + la] == '/');
    assert(pb[off + lb] == '/');
    if user_a.len() < user_b.len() {
        assert(pb[off + la] == user_b[la]);
        assert(user_b.contains(user_b[la]));
    }
    if user_b.len() < user_a.len() {
        assert(pa[off + lb] == user_a[lb]);
        assert(user_a.contains(user_a[lb]));
    }
    assert(user_a.len() == user_b.len());
    assert forall|k: int| 0 <= k < user_a.len() implies user_a[k] == user_b[k] by {
        assert(pa[off + k] == user_a[k]);
        assert(pb[off + k] == user_b[k]);
    }
    assert(user_a =~= user_b);
    let off2: int = off + la + 1;
    assert(pa.len() == off2 + repo_a.len());
    assert(pb.len() == off2 + repo_b.len());
    assert forall|k: int| 0 <= k < repo_a.len() implies repo_a[k] == repo_b[k] by {
        assert(pa[off2 + k] == repo_a[k]);
        assert(pb[off2 + k] == repo_b[k]);
    }
    assert(repo_a =~= repo_b);
}

/// The identity under which commits are made where no user acts.
#[derive(Debug, Clone, PartialEq, Eq)]
pub struct GitConfig {
    pub name: String,
    pub email: String,
}

/// The engine's handle on the directory below which every owner's
/// repositories live.
#[derive(Clone, Debug)]
pub struct GitManager {
    base_path: String,
}

impl GitManager {
    /// The base path, as characters.
    pub closed spec fn base(&self) -> Seq<char> {
        self.base_path@
    }

    /// A manager of the repositories below `base_path`.
    pub fn new(base_path: &str) -> (manager: GitManager)
        ensures
            manager.base() == base_path@,
    {
        GitManager { base_path: String::from_str(base_path) }
    }

    /// The base path.
    pub fn base_path(&self) -> (path: &str)
        ensures
            path@ == self.base(),
    {
        self.base_path.as_str()
    }

    /// The directory of an owner: `{base}/{user_id}`.
    pub fn get_user_path(&self, user_id: &str) -> (path: String)
        ensures
            path@ == user_path_spec(self.base(), user_id@),
    {
        proof {
            reveal_strlit("/");
            assert("/"@ =~= seq!['/']);
        }
        joined3(self.base_path.as_str(), "/", user_id)
    }

    /// The directory of an owner, for an id that stays below the base path;
    /// any other id is rejected as a bad request.
    pub fn user_directory(&self, owner_id: &str) -> (r: Result<String, AppError>)
        ensures
            r is Ok <==> is_safe_segment(owner_id@),
            r matches Ok(path) ==> path@ == user_path_spec(self.base(), owner_id@),
            r matches Err(e) ==> e.is_failure(
                ErrorKind::BadRequest,
                "Invalid owner id: "@ + owner_id@,
            ),
    {
        if !check_segment(owner_id) {
            return Err(AppError::with_detail(ErrorKind::BadRequest, "Invalid owner id: ", owner_id));
        }
        Ok(self.get_user_path(owner_id))
    }

    /// The directory of a repository: `{base}/{user_id}/{repo_name}`.
    pub fn get_user_repo_path(&self, user_id: &str, repo_name: &str) -> (path: String)
        ensures
            path@ == repo_path_spec(self.base(), user_id@, repo_name@),
    {
        let user_path = self.get_user_path(user_id);
        proof {
            reveal_strlit("/");
            assert("/"@ =~= seq!['/']);
        }
        joined3(user_path.as_str(), "/", repo_name)
    }

    /// The directory of a repository, for names that stay inside the owner's
    /// namespace; any other name is rejected as a bad request.
    pub fn resolve(&self, owner_id: &str, repo_name: &str) -> (r: Result<String, AppError>)
        ensures
            r is Ok <==> name_failure(owner_id@, repo_name@) is None,
            r matches Ok(path) ==> path@ == repo_path_spec(self.base(), owner_id@, repo_name@),
            r matches Err(e) ==> (name_failure(owner_id@, repo_name@) matches Some(failure)
                && e.is_failure(failure.0, failure.1)),
    {
        if !check_segment(owner_id) {
            return Err(AppError::with_detail(ErrorKind::BadRequest, "Invalid owner id: ", owner_id));
        }
        if !check_segment(repo_name) {
            return Err(
                AppError::with_detail(
                    ErrorKind::BadRequest,
                    "Invalid repository name: ",
                    repo_name,
                ),
            );
        }
        Ok(self.get_user_repo_path(owner_id, repo_name))
    }

    /// The owner's directory once the caller has made sure it exists.
    /// `create_failure` is `None` where creating the directory if it was
    /// missing went well, and the fault's text where it did not.
    pub fn ensure_user_directory(&self, user_id: &str, create_failure: Option<&str>) -> (r: Result<
        String,
        AppError,
    >)
        ensures
            r is Ok <==> is_safe_segment(user_id@) && create_failure is None,
            r matches Ok(path) ==> path@ == user_path_spec(self.base(), user_id@),
            r matches Err(e) ==> (if !is_safe_segment(user_id@) {
                e.is_failure(ErrorKind::BadRequest, "Invalid owner id: "@ + user_id@)
            } else {
                e.is_failure(
                    ErrorKind::InternalServerError,
                    "Failed to create user directory: "@ + create_failure->0@,
                )
            }),
    {
        if !check_segment(user_id) {
            return Err(AppError::with_detail(ErrorKind::BadRequest, "Invalid owner id: ", user_id));
        }
        match create_failure {
            Some(detail) => Err(
                AppError::with_detail(
                    ErrorKind::InternalServerError,
                    "Failed to create user directory: ",
                    detail,
                ),
            ),
            None => Ok(self.get_user_path(user_id)),
        }
    }
}

} // verus!
