//! The settings that the service is started with.

use vstd::prelude::*;
use vstd::string::*;
use crate::error::{AppError, ErrorKind};
use crate::text::from_utf8;

verus! {

/// The settings of the service.
#[derive(Debug, Clone, PartialEq, Eq)]
pub struct Settings {
    pub jwt: JwtConfig,
    pub git_path: GitPathConfig,
}

/// The settings of session tokens.
#[derive(Debug, Clone, PartialEq, Eq)]
pub struct JwtConfig {
    /// The secret that tokens are signed with.
    pub jwt_secret: Vec<u8>,
}

/// The settings of the repository store.
#[derive(Debug, Clone, PartialEq, Eq)]
pub struct GitPathConfig {
    /// The base path below which every owner's repositories live.
    pub repositories_path: Vec<u8>,
}

impl Settings {
    /// The base path of the repository store as text; a path that is not
    /// UTF-8 is an internal fault.
    pub fn base_path(&self) -> (r: Result<String, AppError>)
        ensures
            r is Ok <==> vstd::utf8::valid_utf8(self.git_path.repositories_path@),
            r matches Ok(path) ==> path@ == vstd::utf8::decode_utf8(
                self.git_path.repositories_path@,
            ),
            r matches Err(e) ==> e.is_failure(
                ErrorKind::InternalServerError,
                "Invalid UTF-8 in path"@,
            ),
    {
        match from_utf8(self.git_path.repositories_path.as_slice()) {
            Some(path) => Ok(path),
            None => Err(AppError::InternalServerError(String::from_str("Invalid UTF-8 in path"))),
        }
    }
}

} // verus!
