use code_management_backend::dtos::{
    GetFileContentRequest, GetReopDiffRequest, GetRepoBranchesRequest, GetRepoFilesRequest,
    LoginRequest, PullRepoRequest, RegisterRequest, RepoDelResquest, RepoRenameRequest,
    RepoRequest, UserUpdateRequest,
};
use code_management_backend::error::{AppError, ErrorKind};
use code_management_backend::validation::{validation_error, FieldFault};

fn fault(field: &str, message: &str) -> FieldFault {
    FieldFault { field: field.to_string(), message: message.to_string() }
}

fn registration(username: &str, email: &str, password: &str) -> RegisterRequest {
    RegisterRequest {
        username: username.to_string(),
        email: email.to_string(),
        password: password.to_string(),
    }
}

#[test]
fn a_good_registration_has_no_fault() {
    assert_eq!(registration("alice", "alice@example.com", "secret").validate(), Ok(()));
    assert_eq!(registration("bob", "b@x.org", "123456").validate(), Ok(()));
    // Lengths count characters, not bytes.
    assert_eq!(registration("\u{e9}\u{e9}\u{e9}", "b@x.org", "\u{4e16}\u{754c}\u{4e16}\u{754c}\u{4e16}\u{754c}").validate(), Ok(()));
}

#[test]
fn a_registration_reports_each_broken_rule() {
    assert_eq!(
        registration("al", "alice@example.com", "secret").validate(),
        Err(vec![fault("username", "Username must be at least 3 characters")])
    );
    assert_eq!(
        registration("alice", "not an address", "secret").validate(),
        Err(vec![fault("email", "Invalid email format")])
    );
    assert_eq!(
        registration("alice", "alice@example.com", "12345").validate(),
        Err(vec![fault("password", "Password must be at least 8 characters")])
    );
    assert_eq!(
        registration("", "", "").validate(),
        Err(vec![
            fault("username", "Username must be at least 3 characters"),
            fault("email", "Invalid email format"),
            fault("password", "Password must be at least 8 characters"),
        ])
    );
}

#[test]
fn email_addresses() {
    for good in ["email@here.com", "weirder-email@here.and.there.com", "email@[127.0.0.1]"] {
        assert_eq!(registration("alice", good, "secret").validate(), Ok(()), "{}", good);
    }
    for bad in ["", "plain", "a@", "@b.c", "a b@c.d", "\"test@test\"@example.com", "a@b@"] {
        assert!(registration("alice", bad, "secret").validate().is_err(), "{}", bad);
    }
}

#[test]
fn a_profile_update_checks_the_address_it_is_given() {
    let update = |email: Option<&str>| UserUpdateRequest {
        email: email.map(|s| s.to_string()),
        avatar: None,
        department_id: Some(3),
    };
    assert_eq!(update(None).validate(), Ok(()));
    assert_eq!(update(Some("a@x.org")).validate(), Ok(()));
    assert_eq!(
        update(Some("nope")).validate(),
        Err(vec![fault("email", "Invalid email format")])
    );
}

#[test]
fn required_fields() {
    let some = |s: &str| Some(s.to_string());
    assert_eq!(LoginRequest { identity: some("a"), password: some("b") }.validate(), Ok(()));
    assert_eq!(
        LoginRequest { identity: None, password: None }.validate(),
        Err(vec![
            fault("identity", "Identity field is required"),
            fault("password", "Password is required"),
        ])
    );
    assert_eq!(
        RepoRequest { repo_name: None, limit: None, page: None }.validate(),
        Err(vec![fault("repo_name", "Repository name is required")])
    );
    assert_eq!(
        RepoRequest { repo_name: some("p"), limit: None, page: None }.validate(),
        Ok(())
    );
    assert_eq!(
        GetReopDiffRequest { repo_name: some("p"), commit_id: None }.validate(),
        Err(vec![fault("commit_id", "Commit ID is required")])
    );
    assert_eq!(
        GetRepoFilesRequest { repo_name: None, path: None, branch: None }.validate(),
        Err(vec![fault("repo_name", "Repository name is required")])
    );
    assert_eq!(
        GetFileContentRequest { repo_name: None, file_path: None, branch: None }.validate(),
        Err(vec![
            fault("repo_name", "Repository name is required"),
            fault("file_path", "File path is required"),
        ])
    );
    assert_eq!(
        RepoDelResquest { repo_name: None }.validate(),
        Err(vec![fault("repo_name", "repo_name is required")])
    );
    assert_eq!(
        RepoRenameRequest { repo_name: some("a"), new_repo_name: None }.validate(),
        Err(vec![fault("new_repo_name", "new_repo_name is required")])
    );
    assert_eq!(
        GetRepoBranchesRequest { repo_name: some("a"), branch_name: None }.validate(),
        Err(vec![fault("branch_name", "branch_name is required")])
    );
    assert_eq!(
        PullRepoRequest { repo_name: None, branch_name: some("main") }.validate(),
        Err(vec![fault("repo_name", "repo_name is required")])
    );
    assert_eq!(
        PullRepoRequest { repo_name: some("a"), branch_name: some("main") }.validate(),
        Ok(())
    );
}

#[test]
fn faults_become_a_validation_failure() {
    let faults = registration("", "", "").validate().unwrap_err();
    let error = validation_error(&faults);
    assert_eq!(error.kind(), ErrorKind::Validation);
    assert_eq!(
        error,
        AppError::Validation(
            "username: Username must be at least 3 characters; email: Invalid email format; \
             password: Password must be at least 8 characters"
                .to_string()
        )
    );
    assert_eq!(error.status_code(), 400);
    assert_eq!(
        validation_error(&vec![fault("f", "m")]),
        AppError::Validation("f: m".to_string())
    );
    assert_eq!(validation_error(&vec![]), AppError::Validation(String::new()));
}
