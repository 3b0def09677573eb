//! Object identifiers: the hexadecimal names of commits, trees and blobs.

use vstd::prelude::*;
use vstd::string::*;
use crate::error::{AppError, ErrorKind};

verus! {

/// The longest hexadecimal form of an identifier.
pub const OBJECT_ID_HEX_LEN: usize = 40;

/// Whether `c` is a hexadecimal digit, in either case.
pub open spec fn is_hex_digit(c: char) -> bool {
    ('0' <= c && c <= '9') || ('a' <= c && c <= 'f') || ('A' <= c && c <= 'F')
}

/// The lower-case form of a hexadecimal digit.
pub open spec fn lower_hex_digit(c: char) -> char {
    if 'A' <= c && c <= 'F' {
        ((c as u8) + 32) as char
    } else {
        c
    }
}

/// Whether `text` can be read as an identifier, whole or abbreviated: one to
/// forty hexadecimal digits.
pub open spec fn is_object_id_text(text: Seq<char>) -> bool {
    &&& 1 <= text.len() <= OBJECT_ID_HEX_LEN
    &&& forall|i: int| 0 <= i < text.len() ==> is_hex_digit(#[trigger] text[i])
}

/// The full form of an identifier: forty lower-case digits, those of `text`
/// first, then zeros.
pub open spec fn full_object_id(text: Seq<char>) -> Seq<char> {
    Seq::new(
        OBJECT_ID_HEX_LEN as nat,
        |i: int|
            if i < text.len() {
                lower_hex_digit(text[i])
            } else {
                '0'
            },
    )
}

/// Calls `git2::Oid::from_str` and renders the identifier it returns, or the
/// error. The identifier is read exactly from one to forty hexadecimal
/// digits; its rendering is forty lower-case digits, the given ones first and
/// zeros behind them. Nothing is claimed of the error's text. The first call
/// into `git2` sets up the object database's library for the process.
#[verifier::external_body]
fn parse_hex(text: &str) -> (r: Result<String, String>)
    ensures
        r is Ok <==> is_object_id_text(text@),
        r matches Ok(id) ==> id@ == full_object_id(text@),
{
    match git2::Oid::from_str(text) {
        Ok(oid) => Ok(oid.to_string()),
        Err(e) => Err(e.to_string()),
    }
}

/// Reads a commit identifier. What is not one to forty hexadecimal digits is
/// a bad request.
pub fn parse_commit_id(commit_id: &str) -> (r: Result<String, AppError>)
    ensures
        r is Ok <==> is_object_id_text(commit_id@),
        r matches Ok(id) ==> id@ == full_object_id(commit_id@),
        r matches Err(e) ==> e.kind_spec() == ErrorKind::BadRequest && "Invalid commit ID: "@.is_prefix_of(
            e.text(),
        ),
{
    match parse_hex(commit_id) {
        Ok(id) => Ok(id),
        Err(detail) => {
            let e = AppError::with_detail(
                ErrorKind::BadRequest,
                "Invalid commit ID: ",
                detail.as_str(),
            );
            assert(e.text().subrange(0, "Invalid commit ID: "@.len() as int)
                =~= "Invalid commit ID: "@);
            Err(e)
        },
    }
}

} // verus!
