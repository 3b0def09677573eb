//! The envelope of every answer to a client.

use vstd::prelude::*;
use vstd::string::*;

verus! {

/// An answer: a code, `0` for success, a message, and data where there is any.
#[derive(Debug, Clone, PartialEq, Eq)]
pub struct ApiResponse<T> {
    pub code: u16,
    pub message: String,
    pub data: Option<T>,
}

impl<T> ApiResponse<T> {
    /// A successful answer without data.
    pub fn success(message: &str) -> (response: ApiResponse<T>)
        ensures
            response.code == 0,
            response.message@ == message@,
            response.data is None,
    {
        ApiResponse { code: 0, message: String::from_str(message), data: None }
    }

    /// A successful answer that carries `data`.
    pub fn success_data(data: T) -> (response: ApiResponse<T>)
        ensures
            response.code == 0,
            response.message@ == "success"@,
            response.data == Some(data),
    {
        ApiResponse { code: 0, message: String::from_str("success"), data: Some(data) }
    }

    /// The HTTP status of this answer: `200` for the code `0`, else `400`.
    pub fn http_status(&self) -> (status: u16)
        ensures
            status == (if self.code == 0 {
                200u16
            } else {
                400u16
            }),
    {
        if self.code == 0 {
            200
        } else {
            400
        }
    }
}

} // verus!
