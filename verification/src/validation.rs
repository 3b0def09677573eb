//! The rules that the fields of a request must keep, and the faults of a
//! request that breaks them.

use vstd::prelude::*;
use vstd::string::*;
use crate::dtos::{
    GetFileContentRequest, GetReopDiffRequest, GetRepoBranchesRequest, GetRepoFilesRequest,
    LoginRequest, PullRepoRequest, RegisterRequest, RepoDelResquest, RepoRenameRequest,
    RepoRequest, UserUpdateRequest,
};
use crate::error::AppError;

verus! {

/// A rule that a field of a request breaks.
#[derive(Debug, Clone, PartialEq, Eq)]
pub struct FieldFault {
    /// The name of the field.
    pub field: String,
    /// What the rule asks for.
    pub message: String,
}

/// Whether a text is an e-mail address, as `validator` judges it.
pub uninterp spec fn is_email_address(text: Seq<char>) -> bool;

/// Calls `validator::ValidateEmail::validate_email` on the text. The
/// contract gives the judgement its name, since it rests on patterns for the
/// two parts of an address and on the rules of international domain names;
/// of the judgement itself it claims only that a text that is empty or holds
/// no `@` is no address.
#[verifier::external_body]
fn email_is_valid(email: &str) -> (r: bool)
    ensures
        r == is_email_address(email@),
        r ==> email@.len() > 0 && email@.contains('@'),
{
    validator::ValidateEmail::validate_email(&email)
}

/// Calls `validator::ValidateLength::validate_length` on the text with a
/// least length and nothing else: the text must hold at least `min`
/// characters.
#[verifier::external_body]
fn has_min_length(text: &str, min: u64) -> (r: bool)
    ensures
        r == (text@.len() >= min),
{
    validator::ValidateLength::validate_length(&text, Some(min), None, None)
}

/// A fault as characters: the field and the message.
pub open spec fn fault_view(fault: FieldFault) -> (Seq<char>, Seq<char>) {
    (fault.field@, fault.message@)
}

/// Faults as characters, in order.
pub open spec fn faults_view(faults: Seq<FieldFault>) -> Seq<(Seq<char>, Seq<char>)> {
    Seq::new(faults.len(), |i: int| fault_view(faults[i]))
}

/// The fault of a field if its rule is broken, and nothing if it is kept.
pub open spec fn fault_if(broken: bool, field: Seq<char>, message: Seq<char>) -> Seq<
    (Seq<char>, Seq<char>),
> {
    if broken {
        seq![(field, message)]
    } else {
        Seq::empty()
    }
}

/// Whether `r` reports exactly the faults `expected`: success where there is
/// none, else all of them in order.
pub open spec fn reports(r: Result<(), Vec<FieldFault>>, expected: Seq<(Seq<char>, Seq<char>)>) -> bool {
    match r {
        Ok(_) => expected.len() == 0,
        Err(faults) => expected.len() > 0 && faults_view(faults@) == expected,
    }
}

/// The text of faults: `field: message` for each, with `; ` between them.
pub open spec fn faults_text(faults: Seq<(Seq<char>, Seq<char>)>) -> Seq<char>
    decreases faults.len(),
{
    if faults.len() == 0 {
        Seq::empty()
    } else {
        let last = faults.last();
        let here = last.0 + ": "@ + last.1;
        if faults.len() == 1 {
            here
        } else {
            faults_text(faults.drop_last()) + "; "@ + here
        }
    }
}

/// Notes the fault of a field if its rule is broken.
fn note(faults: &mut Vec<FieldFault>, broken: bool, field: &str, message: &str)
    ensures
        faults_view(final(faults)@) == faults_view(old(faults)@) + fault_if(
            broken,
            field@,
            message@,
        ),
{
    let ghost before = faults_view(faults@);
    if broken {
        faults.push(
            FieldFault { field: String::from_str(field), message: String::from_str(message) },
        );
        assert(faults_view(faults@) =~= before + seq![(field@, message@)]);
    } else {
        assert(faults_view(faults@) =~= before + Seq::empty());
    }
}

/// Success where no fault was noted, else the faults.
fn outcome(faults: Vec<FieldFault>) -> (r: Result<(), Vec<FieldFault>>)
    ensures
        reports(r, faults_view(faults@)),
{
    if faults.len() == 0 {
        Ok(())
    } else {
        Err(faults)
    }
}

/// The failure that reports the faults of a request.
pub fn validation_error(faults: &Vec<FieldFault>) -> (e: AppError)
    ensures
        e matches AppError::Validation(text) && text@ == faults_text(faults_view(faults@)),
{
    let mut text = String::new();
    let mut i: usize = 0;
    while i < faults.len()
        invariant
            i <= faults.len(),
            text@ == faults_text(faults_view(faults@).subrange(0, i as int)),
        decreases faults.len() - i,
    {
        let ghost all = faults_view(faults@);
        let ghost seen = all.subrange(0, i as int);
        let ghost next = all.subrange(0, i + 1);
        proof {
            assert(next.drop_last() =~= seen);
            assert(next.last() == fault_view(faults@[i as int]));
        }
        if i > 0 {
            text.append("; ");
        }
        text.append(faults[i].field.as_str());
        text.append(": ");
        text.append(faults[i].message.as_str());
        proof {
            let here = next.last().0 + ": "@ + next.last().1;
            if i == 0 {
                assert(seen.len() == 0);
                assert(text@ =~= here);
            } else {
                assert(text@ =~= faults_text(seen) + "; "@ + here);
            }
        }
        i += 1;
    }
    proof {
        assert(faults_view(faults@).subrange(0, faults.len() as int) =~= faults_view(faults@));
    }
    AppError::Validation(text)
}

impl RegisterRequest {
    /// The rules of a registration: a user name of at least three
    /// characters, an e-mail address, and a password of at least six
    /// characters.
    pub fn validate(&self) -> (r: Result<(), Vec<FieldFault>>)
        ensures
            reports(
                r,
                fault_if(
                    self.username@.len() < 3,
                    "username"@,
                    "Username must be at least 3 characters"@,
                ) + fault_if(!is_email_address(self.email@), "email"@, "Invalid email format"@)
                    + fault_if(
                    self.password@.len() < 6,
                    "password"@,
                    "Password must be at least 8 characters"@,
                ),
            ),
    {
        let mut faults: Vec<FieldFault> = Vec::new();
        assert(faults_view(faults@) =~= Seq::empty());
        note(
            &mut faults,
            !has_min_length(self.username.as_str(), 3),
            "username",
            "Username must be at least 3 characters",
        );
        note(&mut faults, !email_is_valid(self.email.as_str()), "email", "Invalid email format");
        note(
            &mut faults,
            !has_min_length(self.password.as_str(), 6),
            "password",
            "Password must be at least 8 characters",
        );
        outcome(faults)
    }
}

impl UserUpdateRequest {
    /// The rule of a profile update: an e-mail address, where one is given.
    pub fn validate(&self) -> (r: Result<(), Vec<FieldFault>>)
        ensures
            reports(
                r,
                fault_if(
                    self.email matches Some(email) && !is_email_address(email@),
                    "email"@,
                    "Invalid email format"@,
                ),
            ),
    {
        let mut faults: Vec<FieldFault> = Vec::new();
        assert(faults_view(faults@) =~= Seq::empty());
        let broken = match &self.email {
            Some(email) => !email_is_valid(email.as_str()),
            None => false,
        };
        note(&mut faults, broken, "email", "Invalid email format");
        outcome(faults)
    }
}

impl LoginRequest {
    /// The rules of a login: the identity and the password must be there.
    pub fn validate(&self) -> (r: Result<(), Vec<FieldFault>>)
        ensures
            reports(
                r,
                fault_if(self.identity is None, "identity"@, "Identity field is required"@)
                    + fault_if(self.password is None, "password"@, "Password is required"@),
            ),
    {
        let mut faults: Vec<FieldFault> = Vec::new();
        assert(faults_view(faults@) =~= Seq::empty());
        note(&mut faults, self.identity.is_none(), "identity", "Identity field is required");
        note(&mut faults, self.password.is_none(), "password", "Password is required");
        outcome(faults)
    }
}

impl RepoRequest {
    /// The rule of a history request: the repository must be there.
    pub fn validate(&self) -> (r: Result<(), Vec<FieldFault>>)
        ensures
            reports(
                r,
                fault_if(self.repo_name is None, "repo_name"@, "Repository name is required"@),
            ),
    {
        let mut faults: Vec<FieldFault> = Vec::new();
        assert(faults_view(faults@) =~= Seq::empty());
        note(&mut faults, self.repo_name.is_none(), "repo_name", "Repository name is required");
        outcome(faults)
    }
}

impl GetReopDiffRequest {
    /// The rules of a diff request: the repository and the commit must be there.
    pub fn validate(&self) -> (r: Result<(), Vec<FieldFault>>)
        ensures
            reports(
                r,
                fault_if(self.repo_name is None, "repo_name"@, "Repository name is required"@)
                    + fault_if(self.commit_id is None, "commit_id"@, "Commit ID is required"@),
            ),
    {
        let mut faults: Vec<FieldFault> = Vec::new();
        assert(faults_view(faults@) =~= Seq::empty());
        note(&mut faults, self.repo_name.is_none(), "repo_name", "Repository name is required");
        note(&mut faults, self.commit_id.is_none(), "commit_id", "Commit ID is required");
        outcome(faults)
    }
}

impl GetRepoFilesRequest {
    /// The rule of a listing request: the repository must be there.
    pub fn validate(&self) -> (r: Result<(), Vec<FieldFault>>)
        ensures
            reports(
                r,
                fault_if(self.repo_name is None, "repo_name"@, "Repository name is required"@),
            ),
    {
        let mut faults: Vec<FieldFault> = Vec::new();
        assert(faults_view(faults@) =~= Seq::empty());
        note(&mut faults, self.repo_name.is_none(), "repo_name", "Repository name is required");
        outcome(faults)
    }
}

impl GetFileContentRequest {
    /// The rules of a content request: the repository and the file must be there.
    pub fn validate(&self) -> (r: Result<(), Vec<FieldFault>>)
        ensures
            reports(
                r,
                fault_if(self.repo_name is None, "repo_name"@, "Repository name is required"@)
                    + fault_if(self.file_path is None, "file_path"@, "File path is required"@),
            ),
    {
        let mut faults: Vec<FieldFault> = Vec::new();
        assert(faults_view(faults@) =~= Seq::empty());
        note(&mut faults, self.repo_name.is_none(), "repo_name", "Repository name is required");
        note(&mut faults, self.file_path.is_none(), "file_path", "File path is required");
        outcome(faults)
    }
}

impl RepoDelResquest {
    /// The rule of a deletion: the repository must be there.
    pub fn validate(&self) -> (r: Result<(), Vec<FieldFault>>)
        ensures
            reports(r, fault_if(self.repo_name is None, "repo_name"@, "repo_name is required"@)),
    {
        let mut faults: Vec<FieldFault> = Vec::new();
        assert(faults_view(faults@) =~= Seq::empty());
        note(&mut faults, self.repo_name.is_none(), "repo_name", "repo_name is required");
        outcome(faults)
    }
}

impl RepoRenameRequest {
    /// The rules of a renaming: the repository and its new name must be there.
    pub fn validate(&self) -> (r: Result<(), Vec<FieldFault>>)
        ensures
            reports(
                r,
                fault_if(self.repo_name is None, "repo_name"@, "repo_name is required"@)
                    + fault_if(
                    self.new_repo_name is None,
                    "new_repo_name"@,
                    "new_repo_name is required"@,
                ),
            ),
    {
        let mut faults: Vec<FieldFault> = Vec::new();
        assert(faults_view(faults@) =~= Seq::empty());
        note(&mut faults, self.repo_name.is_none(), "repo_name", "repo_name is required");
        note(
            &mut faults,
            self.new_repo_name.is_none(),
            "new_repo_name",
            "new_repo_name is required",
        );
        outcome(faults)
    }
}

impl GetRepoBranchesRequest {
    /// The rules of a request for branches: the repository and the branch
    /// must be there.
    pub fn validate(&self) -> (r: Result<(), Vec<FieldFault>>)
        ensures
            reports(
                r,
                fault_if(self.repo_name is None, "repo_name"@, "repo_name is required"@)
                    + fault_if(
                    self.branch_name is None,
                    "branch_name"@,
                    "branch_name is required"@,
                ),
            ),
    {
        let mut faults: Vec<FieldFault> = Vec::new();
        assert(faults_view(faults@) =~= Seq::empty());
        note(&mut faults, self.repo_name.is_none(), "repo_name", "repo_name is required");
        note(&mut faults, self.branch_name.is_none(), "branch_name", "branch_name is required");
        outcome(faults)
    }
}

impl PullRepoRequest {
    /// The rules of a pull: the repository and the branch must be there.
    pub fn validate(&self) -> (r: Result<(), Vec<FieldFault>>)
        ensures
            reports(
                r,
                fault_if(self.repo_name is None, "repo_name"@, "repo_name is required"@)
                    + fault_if(
                    self.branch_name is None,
                    "branch_name"@,
                    "branch_name is required"@,
                ),
            ),
    {
        let mut faults: Vec<FieldFault> = Vec::new();
        assert(faults_view(faults@) =~= Seq::empty());
        note(&mut faults, self.repo_name.is_none(), "repo_name", "repo_name is required");
        note(&mut faults, self.branch_name.is_none(), "branch_name", "branch_name is required");
        outcome(faults)
    }
}

} // verus!
