//! The requests that clients send, and what each must hold to be served.

use vstd::prelude::*;
use vstd::string::*;
use crate::error::{AppError, ErrorKind};
use crate::text::{ends_with, trim, trimmed_of};

verus! {

#[derive(Debug, Clone, PartialEq, Eq)]
pub struct RegisterRequest {
    pub username: String,
    pub email: String,
    pub password: String,
}

#[derive(Debug, Clone, PartialEq, Eq)]
pub struct LoginRequest {
    pub identity: Option<String>,
    pub password: Option<String>,
}

#[derive(Debug, Clone, PartialEq, Eq)]
pub struct RepoRequest {
    pub repo_name: Option<String>,
    /// How many commits a page holds.
    pub limit: Option<usize>,
    /// The page, counted from 1.
    pub page: Option<usize>,
}

#[derive(Debug, Clone, PartialEq, Eq)]
pub struct CloneRepoRequest {
    pub repo_url: Option<String>,
    pub repo_name: Option<String>,
}

#[derive(Debug, Clone, PartialEq, Eq)]
pub struct CommitRepoRequest {}

#[derive(Debug, Clone, PartialEq, Eq)]
pub struct GetReopDiffRequest {
    pub repo_name: Option<String>,
    pub commit_id: Option<String>,
}

#[derive(Debug, Clone, PartialEq, Eq)]
pub struct GetRepoFilesRequest {
    pub repo_name: Option<String>,
    /// The directory to list; the root where there is none.
    pub path: Option<String>,
    /// The branch to read; `HEAD` where there is none.
    pub branch: Option<String>,
}

#[derive(Debug, Clone, PartialEq, Eq)]
pub struct GetFileContentRequest {
    pub repo_name: Option<String>,
    pub file_path: Option<String>,
    /// The branch to read; `HEAD` where there is none.
    pub branch: Option<String>,
}

#[derive(Debug, Clone, PartialEq, Eq)]
pub struct UserUpdateRequest {
    pub email: Option<String>,
    pub avatar: Option<String>,
    pub department_id: Option<i32>,
}

#[derive(Debug, Clone, PartialEq, Eq)]
pub struct UserUpatePasswordRequest {
    pub new_password: Option<String>,
}

#[derive(Debug, Clone, PartialEq, Eq)]
pub struct RepoDelResquest {
    pub repo_name: Option<String>,
}

#[derive(Debug, Clone, PartialEq, Eq)]
pub struct RepoRenameRequest {
    pub repo_name: Option<String>,
    pub new_repo_name: Option<String>,
}

#[derive(Debug, Clone, PartialEq, Eq)]
pub struct GetRepoBranchesRequest {
    pub repo_name: Option<String>,
    pub branch_name: Option<String>,
}

#[derive(Debug, Clone, PartialEq, Eq)]
pub struct PullRepoRequest {
    pub repo_name: Option<String>,
    /// The branch to pull; the one `HEAD` is attached to where there is none.
    pub branch_name: Option<String>,
}

#[derive(Debug, Clone, PartialEq, Eq)]
pub struct AddMessageRequest {
    pub content: Option<String>,
    pub message_type: Option<String>,
    pub user_id_vec: Option<Vec<String>>,
}

/// The page size of a history request that names none.
pub const DEFAULT_PAGE_SIZE: usize = 10;

/// The page of a history request that names none.
pub const DEFAULT_PAGE: usize = 1;

/// A field that a request must hold: its text, or the failure of the given
/// kind and reason where it is missing.
pub fn required(field: &Option<String>, kind: ErrorKind, reason: &str) -> (r: Result<
    String,
    AppError,
>)
    ensures
        r is Ok <==> field is Some,
        r matches Ok(text) ==> text == field->0,
        r matches Err(e) ==> e.is_failure(kind, reason@),
{
    match field {
        Some(text) => Ok(text.clone()),
        None => Err(AppError::new(kind, String::from_str(reason))),
    }
}

impl RepoRequest {
    /// The repository, page size and page of a history request: ten commits
    /// a page and the first page where the request names none. A request
    /// without a repository is not found.
    pub fn history_query(&self) -> (r: Result<(String, usize, usize), AppError>)
        ensures
            r is Ok <==> self.repo_name is Some,
            r matches Ok(query) ==> {
                &&& query.0 == self.repo_name->0
                &&& query.1 == (match self.limit {
                    Some(limit) => limit,
                    None => DEFAULT_PAGE_SIZE,
                })
                &&& query.2 == (match self.page {
                    Some(page) => page,
                    None => DEFAULT_PAGE,
                })
            },
            r matches Err(e) ==> e.is_failure(ErrorKind::NotFound, "repo_name is required"@),
    {
        let repo_name = match required(
            &self.repo_name,
            ErrorKind::NotFound,
            "repo_name is required",
        ) {
            Ok(name) => name,
            Err(e) => {
                return Err(e);
            },
        };
        let limit = match self.limit {
            Some(limit) => limit,
            None => DEFAULT_PAGE_SIZE,
        };
        let page = match self.page {
            Some(page) => page,
            None => DEFAULT_PAGE,
        };
        Ok((repo_name, limit, page))
    }
}

/// Whether a repository name is there once the white space around it is
/// taken away; `trimmed` is the name without that white space.
pub fn name_is_present(trimmed: &str) -> (r: bool)
    ensures
        r == (trimmed@.len() > 0),
{
    trimmed.unicode_len() > 0
}

impl CloneRepoRequest {
    /// The URL and the repository name of a clone request. The URL must end
    /// in `.git`, and the name must not be blank.
    pub fn validated(&self) -> (r: Result<(String, String), AppError>)
        ensures
            match self.repo_url {
                Some(url) if ".git"@.is_suffix_of(url@) => match self.repo_name {
                    Some(name) if trimmed_of(name@).len() > 0 => r matches Ok(pair) && pair.0
                        == url && pair.1 == name,
                    _ => r matches Err(e) && e.is_failure(
                        ErrorKind::BadRequest,
                        "Repository name is required"@,
                    ),
                },
                _ => r matches Err(e) && e.is_failure(
                    ErrorKind::BadRequest,
                    "Invalid Git repository URL"@,
                ),
            },
    {
        let url = match &self.repo_url {
            Some(url) => {
                if ends_with(url.as_str(), ".git") {
                    url.clone()
                } else {
                    return Err(
                        AppError::BadRequest(String::from_str("Invalid Git repository URL")),
                    );
                }
            },
            None => {
                return Err(AppError::BadRequest(String::from_str("Invalid Git repository URL")));
            },
        };
        let name = match &self.repo_name {
            Some(name) => {
                let trimmed = trim(name.as_str());
                if name_is_present(trimmed.as_str()) {
                    name.clone()
                } else {
                    return Err(
                        AppError::BadRequest(String::from_str("Repository name is required")),
                    );
                }
            },
            None => {
                return Err(AppError::BadRequest(String::from_str("Repository name is required")));
            },
        };
        Ok((url, name))
    }
}

impl GetReopDiffRequest {
    /// The repository and the commit of a diff request; both must be there.
    pub fn validated(&self) -> (r: Result<(String, String), AppError>)
        ensures
            r is Ok <==> self.commit_id is Some && self.repo_name is Some,
            r matches Ok(pair) ==> pair.0 == self.repo_name->0 && pair.1 == self.commit_id->0,
            r matches Err(e) ==> e.is_failure(
                ErrorKind::BadRequest,
                if self.commit_id is None {
                    "Commit ID is required"@
                } else {
                    "Repo Name is required"@
                },
            ),
    {
        let commit_id = match required(
            &self.commit_id,
            ErrorKind::BadRequest,
            "Commit ID is required",
        ) {
            Ok(id) => id,
            Err(e) => {
                return Err(e);
            },
        };
        let repo_name = match required(
            &self.repo_name,
            ErrorKind::BadRequest,
            "Repo Name is required",
        ) {
            Ok(name) => name,
            Err(e) => {
                return Err(e);
            },
        };
        Ok((repo_name, commit_id))
    }
}

impl GetRepoFilesRequest {
    /// The repository of a listing request; it must be there.
    pub fn validated(&self) -> (r: Result<String, AppError>)
        ensures
            r is Ok <==> self.repo_name is Some,
            r matches Ok(name) ==> name == self.repo_name->0,
            r matches Err(e) ==> e.is_failure(
                ErrorKind::BadRequest,
                "Repository name is required"@,
            ),
    {
        required(&self.repo_name, ErrorKind::BadRequest, "Repository name is required")
    }
}

impl GetFileContentRequest {
    /// The repository and the file of a content request; both must be there.
    pub fn validated(&self) -> (r: Result<(String, String), AppError>)
        ensures
            r is Ok <==> self.repo_name is Some && self.file_path is Some,
            r matches Ok(pair) ==> pair.0 == self.repo_name->0 && pair.1 == self.file_path->0,
            r matches Err(e) ==> e.is_failure(
                ErrorKind::BadRequest,
                if self.repo_name is None {
                    "Repository name is required"@
                } else {
                    "File path is required"@
                },
            ),
    {
        let repo_name = match required(
            &self.repo_name,
            ErrorKind::BadRequest,
            "Repository name is required",
        ) {
            Ok(name) => name,
            Err(e) => {
                return Err(e);
            },
        };
        let file_path = match required(
            &self.file_path,
            ErrorKind::BadRequest,
            "File path is required",
        ) {
            Ok(path) => path,
            Err(e) => {
                return Err(e);
            },
        };
        Ok((repo_name, file_path))
    }
}

impl UserUpatePasswordRequest {
    /// The new password; it must be there.
    pub fn validated(&self) -> (r: Result<String, AppError>)
        ensures
            r is Ok <==> self.new_password is Some,
            r matches Ok(password) ==> password == self.new_password->0,
            r matches Err(e) ==> e.is_failure(ErrorKind::BadRequest, "new_password is required"@),
    {
        required(&self.new_password, ErrorKind::BadRequest, "new_password is required")
    }
}

impl RepoDelResquest {
    /// The repository to delete; it must be there.
    pub fn validated(&self) -> (r: Result<String, AppError>)
        ensures
            r is Ok <==> self.repo_name is Some,
            r matches Ok(name) ==> name == self.repo_name->0,
            r matches Err(e) ==> e.is_failure(ErrorKind::BadRequest, "repo_name is required"@),
    {
        required(&self.repo_name, ErrorKind::BadRequest, "repo_name is required")
    }
}

impl RepoRenameRequest {
    /// The repository to rename and its new name; both must be there.
    pub fn validated(&self) -> (r: Result<(String, String), AppError>)
        ensures
            r is Ok <==> self.repo_name is Some && self.new_repo_name is Some,
            r matches Ok(pair) ==> pair.0 == self.repo_name->0 && pair.1
                == self.new_repo_name->0,
            r matches Err(e) ==> e.is_failure(
                ErrorKind::BadRequest,
                if self.repo_name is None {
                    "repo_name is required"@
                } else {
                    "new_repo_name is required"@
                },
            ),
    {
        let repo_name = match required(
            &self.repo_name,
            ErrorKind::BadRequest,
            "repo_name is required",
        ) {
            Ok(name) => name,
            Err(e) => {
                return Err(e);
            },
        };
        let new_name = match required(
            &self.new_repo_name,
            ErrorKind::BadRequest,
            "new_repo_name is required",
        ) {
            Ok(name) => name,
            Err(e) => {
                return Err(e);
            },
        };
        Ok((repo_name, new_name))
    }
}

impl GetRepoBranchesRequest {
    /// The repository whose branches are asked for; it must be there.
    pub fn validated(&self) -> (r: Result<String, AppError>)
        ensures
            r is Ok <==> self.repo_name is Some,
            r matches Ok(name) ==> name == self.repo_name->0,
            r matches Err(e) ==> e.is_failure(ErrorKind::BadRequest, "repo_name is required"@),
    {
        required(&self.repo_name, ErrorKind::BadRequest, "repo_name is required")
    }
}

impl PullRepoRequest {
    /// The repository to pull; it must be there.
    pub fn validated(&self) -> (r: Result<String, AppError>)
        ensures
            r is Ok <==> self.repo_name is Some,
            r matches Ok(name) ==> name == self.repo_name->0,
            r matches Err(e) ==> e.is_failure(ErrorKind::BadRequest, "repo_name is required"@),
    {
        required(&self.repo_name, ErrorKind::BadRequest, "repo_name is required")
    }
}

impl AddMessageRequest {
    /// The text of the message to add; the users and the text must be there.
    pub fn validated(&self) -> (r: Result<String, AppError>)
        ensures
            r is Ok <==> self.user_id_vec is Some && self.content is Some,
            r matches Ok(content) ==> content == self.content->0,
            r matches Err(e) ==> e.is_failure(
                ErrorKind::BadRequest,
                if self.user_id_vec is None {
                    "user_id_vec is required"@
                } else {
                    "content is required"@
                },
            ),
    {
        if self.user_id_vec.is_none() {
            return Err(AppError::BadRequest(String::from_str("user_id_vec is required")));
        }
        required(&self.content, ErrorKind::BadRequest, "content is required")
    }
}

} // verus!
