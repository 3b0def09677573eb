//! The content type under which a file's text is served.

use vstd::prelude::*;
use vstd::string::*;
use crate::text::{after_last, lowercase_of, str_eq, suffix_after_last, to_lowercase};

verus! {

/// The content type of plain text.
pub open spec fn plain_text_spec() -> Seq<char> {
    "text/plain; charset=utf-8"@
}

/// The content type for a file extension in lower case: a type of its own
/// for `html`, `css`, `js`, `json` and `md`, plain text for every other.
pub open spec fn content_type_spec(extension: Seq<char>) -> Seq<char> {
    if extension == "html"@ {
        "text/html; charset=utf-8"@
    } else if extension == "css"@ {
        "text/css; charset=utf-8"@
    } else if extension == "js"@ {
        "application/javascript; charset=utf-8"@
    } else if extension == "json"@ {
        "application/json; charset=utf-8"@
    } else if extension == "md"@ {
        "text/markdown; charset=utf-8"@
    } else {
        plain_text_spec()
    }
}

/// The content type for a file extension that is already in lower case.
pub fn content_type_for(extension: &str) -> (content_type: &'static str)
    ensures
        content_type@ == content_type_spec(extension@),
{
    if str_eq(extension, "html") {
        "text/html; charset=utf-8"
    } else if str_eq(extension, "css") {
        "text/css; charset=utf-8"
    } else if str_eq(extension, "js") {
        "application/javascript; charset=utf-8"
    } else if str_eq(extension, "json") {
        "application/json; charset=utf-8"
    } else if str_eq(extension, "md") {
        "text/markdown; charset=utf-8"
    } else {
        "text/plain; charset=utf-8"
    }
}

/// The content type of the file at `file_path`, by its extension: what
/// follows the last `.` of the path, or the whole path where it has none,
/// in lower case.
pub fn infer_content_type(file_path: &str) -> (content_type: &'static str)
    ensures
        content_type@ == content_type_spec(lowercase_of(after_last(file_path@, '.'))),
{
    let extension = suffix_after_last(file_path, '.');
    let lowered = to_lowercase(extension.as_str());
    content_type_for(lowered.as_str())
}

} // verus!
