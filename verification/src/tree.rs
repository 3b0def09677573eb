//! Tree walker: lists a snapshot of a tree object as nested entries, finds a
//! path in it, and reads a file's text.

use vstd::prelude::*;
use vstd::string::*;
use crate::error::{AppError, ErrorKind};
use crate::resolver::GitManager;
use crate::text::{from_utf8, joined3};

verus! {

/// What an entry of a tree object points to.
#[derive(Debug, PartialEq, Eq)]
pub enum NodeKind {
    /// A file, with its bytes.
    Blob { content: Vec<u8> },
    /// A directory, with its entries in the order of the tree object.
    Tree { children: Vec<TreeNode> },
    /// An object that is neither a file nor a directory.
    Other,
    /// An entry whose object could not be read, with the fault's text.
    Unreadable { reason: String },
}

/// One entry of a tree object, read in full.
#[derive(Debug, PartialEq, Eq)]
pub struct TreeNode {
    pub name: String,
    pub kind: NodeKind,
}

/// One entry of a listing, with everything below it.
#[derive(Debug, PartialEq, Eq)]
pub struct GitFileEntry {
    pub name: String,
    /// The path from the root of the listing's repository, separated by `/`.
    pub path: String,
    pub is_dir: bool,
    /// The size in bytes; files only.
    pub size: Option<u64>,
    /// The entries of a directory; empty for anything else.
    pub children: Vec<GitFileEntry>,
}

/// The path of the entry `name` below `prefix`: the name alone where the
/// prefix is empty.
pub open spec fn entry_path(prefix: Seq<char>, name: Seq<char>) -> Seq<char> {
    if prefix.len() == 0 {
        name
    } else {
        prefix + seq!['/'] + name
    }
}

/// The text of an optional prefix: empty where there is none.
pub open spec fn prefix_text(prefix: Option<&str>) -> Seq<char> {
    match prefix {
        Some(p) => p@,
        None => Seq::empty(),
    }
}

/// The fault of the first unreadable entry among `nodes[from..]` and all
/// below them, directories before what follows them; `None` where every entry
/// can be read.
pub open spec fn first_fault_from(nodes: Seq<TreeNode>, from: int) -> Option<Seq<char>>
    decreases nodes, nodes.len() - from,
{
    if 0 <= from < nodes.len() {
        let here = match nodes[from].kind {
            NodeKind::Unreadable { reason } => Some(reason@),
            NodeKind::Tree { children } => first_fault_from(children@, 0),
            _ => None,
        };
        match here {
            Some(reason) => Some(reason),
            None => first_fault_from(nodes, from + 1),
        }
    } else {
        None
    }
}

/// The fault of the first unreadable entry of a tree, if it has one.
pub open spec fn first_fault(nodes: Seq<TreeNode>) -> Option<Seq<char>> {
    first_fault_from(nodes, 0)
}

/// Whether `out` is the listing of `nodes` below `prefix`: one entry for each
/// node, in order, with the node's name, its path, its size if it is a file,
/// and for a directory the listing of its own entries below its path.
pub open spec fn lists(nodes: Seq<TreeNode>, prefix: Seq<char>, out: Seq<GitFileEntry>) -> bool
    decreases nodes,
{
    &&& out.len() == nodes.len()
    &&& forall|i: int|
        0 <= i < nodes.len() ==> {
            &&& (#[trigger] out[i]).name@ == nodes[i].name@
            &&& out[i].path@ == entry_path(prefix, nodes[i].name@)
            &&& match nodes[i].kind {
                NodeKind::Blob { content } => {
                    &&& !out[i].is_dir
                    &&& out[i].size == Some(content.len() as u64)
                    &&& out[i].children.len() == 0
                },
                NodeKind::Tree { children } => {
                    &&& out[i].is_dir
                    &&& out[i].size is None
                    &&& lists(children@, out[i].path@, out[i].children@)
                },
                NodeKind::Other => {
                    &&& !out[i].is_dir
                    &&& out[i].size is None
                    &&& out[i].children.len() == 0
                },
                NodeKind::Unreadable { .. } => false,
            }
        }
}

/// Lists `nodes` below `prefix`, every directory with all that it holds. An
/// entry that cannot be read fails the whole listing.
pub fn get_tree_entries(nodes: &Vec<TreeNode>, prefix: Option<&str>) -> (r: Result<
    Vec<GitFileEntry>,
    AppError,
>)
    ensures
        r is Ok <==> first_fault(nodes@) is None,
        r matches Ok(out) ==> lists(nodes@, prefix_text(prefix), out@),
        r matches Err(e) ==> e.is_failure(
            ErrorKind::InternalServerError,
            "Failed to get object: "@ + first_fault(nodes@)->0,
        ),
    decreases nodes,
{
    let base: &str = match prefix {
        Some(p) => p,
        None => "",
    };
    proof {
        reveal_strlit("");
        reveal_strlit("/");
        assert("/"@ =~= seq!['/']);
        assert(base@ =~= prefix_text(prefix));
    }
    let mut files: Vec<GitFileEntry> = Vec::new();
    let mut i: usize = 0;
    while i < nodes.len()
        invariant
            i <= nodes.len(),
            "/"@ == seq!['/'],
            base@ == prefix_text(prefix),
            first_fault_from(nodes@, 0) == first_fault_from(nodes@, i as int),
            lists(nodes@.subrange(0, i as int), base@, files@),
        decreases nodes.len() - i,
    {
        let node = &nodes[i];
        let path = if base.unicode_len() == 0 {
            node.name.clone()
        } else {
            joined3(base, "/", node.name.as_str())
        };
        assert(path@ == entry_path(base@, node.name@));
        let entry = match &node.kind {
            NodeKind::Blob { content } => GitFileEntry {
                name: node.name.clone(),
                path,
                is_dir: false,
                size: Some(content.len() as u64),
                children: Vec::new(),
            },
            NodeKind::Tree { children } => {
                let below = match get_tree_entries(children, Some(path.as_str())) {
                    Ok(below) => below,
                    Err(e) => {
                        return Err(e);
                    },
                };
                GitFileEntry {
                    name: node.name.clone(),
                    path,
                    is_dir: true,
                    size: None,
                    children: below,
                }
            },
            NodeKind::Other => GitFileEntry {
                name: node.name.clone(),
                path,
                is_dir: false,
                size: None,
                children: Vec::new(),
            },
            NodeKind::Unreadable { reason } => {
                return Err(
                    AppError::with_detail(
                        ErrorKind::InternalServerError,
                        "Failed to get object: ",
                        reason.as_str(),
                    ),
                );
            },
        };
        let ghost before = files@;
        files.push(entry);
        proof {
            let pre = nodes@.subrange(0, i as int);
            let post = nodes@.subrange(0, i + 1);
            assert forall|k: int| 0 <= k < post.len() implies {
                &&& (#[trigger] files@[k]).name@ == post[k].name@
                &&& files@[k].path@ == entry_path(base@, post[k].name@)
                &&& match post[k].kind {
                    NodeKind::Blob { content } => {
                        &&& !files@[k].is_dir
                        &&& files@[k].size == Some(content.len() as u64)
                        &&& files@[k].children.len() == 0
                    },
                    NodeKind::Tree { children } => {
                        &&& files@[k].is_dir
                        &&& files@[k].size is None
                        &&& lists(children@, files@[k].path@, files@[k].children@)
                    },
                    NodeKind::Other => {
                        &&& !files@[k].is_dir
                        &&& files@[k].size is None
                        &&& files@[k].children.len() == 0
                    },
                    NodeKind::Unreadable { .. } => false,
                }
            } by {
                if k < i {
                    assert(files@[k] == before[k]);
                    assert(post[k] == pre[k]);
                }
            }
        }
        i += 1;
    }
    assert(nodes@.subrange(0, i as int) =~= nodes@);
    Ok(files)
}

/// A step of reading the tree of a reference, or something below it.
#[derive(Clone, Copy, Debug, PartialEq, Eq, Structural)]
pub enum ReadStep {
    /// Finding the named branch.
    FindBranch,
    /// Resolving `HEAD`.
    ResolveHead,
    /// Following the reference to its commit.
    PeelCommit,
    /// Reading the tree of the commit.
    CommitTree,
    /// Finding the entry that a path names in the tree.
    FindPath,
    /// Reading the object of that entry.
    ReadObject,
}

/// What reading the tree to list gave: the root tree of the commit, or the
/// directory that a path names in it.
#[derive(Debug, PartialEq, Eq)]
pub enum TreeRead {
    /// The step that failed, with the fault's text.
    Failed { step: ReadStep, detail: String },
    /// The path names something that is no directory.
    NotADirectory,
    /// The entries of the tree.
    Entries { entries: Vec<TreeNode> },
}

/// What reading a file of a commit gave.
#[derive(Debug, Clone, PartialEq, Eq)]
pub enum FileRead {
    /// The step that failed, with the fault's text.
    Failed { step: ReadStep, detail: String },
    /// The path names something that is no file.
    NotABlob,
    /// The bytes of the file.
    Blob { content: Vec<u8> },
}

/// The failure that reports the fault of an unreadable entry, if there is one.
pub open spec fn fault_failure(fault: Option<Seq<char>>) -> Option<(ErrorKind, Seq<char>)> {
    match fault {
        Some(reason) => Some((ErrorKind::InternalServerError, "Failed to get object: "@ + reason)),
        None => None,
    }
}

/// The failure that reports a failed step of reading. A branch or a path
/// that was not found is not found, with `branch_text` or `path_text` behind
/// the label; any other step that failed is an internal fault, with the
/// fault's text behind the label. `path_label` is the label of a path that
/// was not found.
pub open spec fn step_failure(
    step: ReadStep,
    detail: Seq<char>,
    branch_text: Seq<char>,
    path_label: Seq<char>,
    path_text: Seq<char>,
) -> (ErrorKind, Seq<char>) {
    match step {
        ReadStep::FindBranch => (ErrorKind::NotFound, "Branch not found: "@ + branch_text),
        ReadStep::ResolveHead => (ErrorKind::InternalServerError, "Failed to get HEAD: "@ + detail),
        ReadStep::PeelCommit => (
            ErrorKind::InternalServerError,
            "Failed to get commit: "@ + detail,
        ),
        ReadStep::CommitTree => (ErrorKind::InternalServerError, "Failed to get tree: "@ + detail),
        ReadStep::FindPath => (ErrorKind::NotFound, path_label + path_text),
        ReadStep::ReadObject => (
            ErrorKind::InternalServerError,
            "Failed to get object: "@ + detail,
        ),
    }
}

/// Why a listing cannot be given, if it cannot: a step of reading failed,
/// the path names no directory, or an entry of the tree cannot be read.
pub open spec fn listing_failure(read: TreeRead, directory: Seq<char>, branch: Seq<char>) -> Option<
    (ErrorKind, Seq<char>),
> {
    match read {
        TreeRead::Failed { step, detail } => Some(
            step_failure(step, detail@, branch, "Directory not found: "@, directory),
        ),
        TreeRead::NotADirectory => Some((ErrorKind::BadRequest, "Path is not a directory"@)),
        TreeRead::Entries { entries } => fault_failure(first_fault(entries@)),
    }
}

/// Why the text of a file cannot be given, if it cannot: a step of reading
/// failed, the path names no file, or the file's bytes are not UTF-8.
pub open spec fn content_failure(read: FileRead, path: Seq<char>) -> Option<
    (ErrorKind, Seq<char>),
> {
    match read {
        FileRead::Failed { step, detail } => Some(
            step_failure(step, detail@, detail@, "File not found: "@, path),
        ),
        FileRead::NotABlob => Some((ErrorKind::InternalServerError, "Object is not a blob"@)),
        FileRead::Blob { content } => if vstd::utf8::valid_utf8(content@) {
            None
        } else {
            Some((ErrorKind::InternalServerError, "File content is not valid UTF-8"@))
        },
    }
}

/// A file whose bytes are the UTF-8 encoding of a text is read back as that
/// same text: what was written through the working tree and committed comes
/// back unchanged.
pub proof fn lemma_written_text_reads_back(read: FileRead, path: Seq<char>, text: Seq<char>)
    requires
        read matches FileRead::Blob { content } && content@ == vstd::utf8::encode_utf8(text),
    ensures
        content_failure(read, path) is None,
        vstd::utf8::decode_utf8(read->content@) == text,
{
    vstd::utf8::encode_utf8_valid_utf8(text);
    vstd::utf8::encode_utf8_decode_utf8(text);
}

/// The failure that reports a failed step of reading.
fn step_error(
    step: ReadStep,
    detail: &str,
    branch_text: &str,
    path_label: &str,
    path_text: &str,
) -> (e: AppError)
    ensures
        e.is_failure(
            step_failure(step, detail@, branch_text@, path_label@, path_text@).0,
            step_failure(step, detail@, branch_text@, path_label@, path_text@).1,
        ),
{
    match step {
        ReadStep::FindBranch => AppError::with_detail(
            ErrorKind::NotFound,
            "Branch not found: ",
            branch_text,
        ),
        ReadStep::ResolveHead => AppError::with_detail(
            ErrorKind::InternalServerError,
            "Failed to get HEAD: ",
            detail,
        ),
        ReadStep::PeelCommit => AppError::with_detail(
            ErrorKind::InternalServerError,
            "Failed to get commit: ",
            detail,
        ),
        ReadStep::CommitTree => AppError::with_detail(
            ErrorKind::InternalServerError,
            "Failed to get tree: ",
            detail,
        ),
        ReadStep::FindPath => AppError::with_detail(ErrorKind::NotFound, path_label, path_text),
        ReadStep::ReadObject => AppError::with_detail(
            ErrorKind::InternalServerError,
            "Failed to get object: ",
            detail,
        ),
    }
}

/// The directory that a listing has to look up in the root tree: the one
/// that the request names, and none where it names none or the empty path,
/// which both stand for the root itself.
pub fn directory_to_find<'a>(directory_path: Option<&'a str>) -> (r: Option<&'a str>)
    ensures
        r is Some <==> prefix_text(directory_path).len() > 0,
        r matches Some(path) ==> path@ == prefix_text(directory_path),
{
    match directory_path {
        Some(path) => if path.unicode_len() == 0 {
            None
        } else {
            Some(path)
        },
        None => None,
    }
}

impl GitManager {
    /// Reports whether the repository could be opened. `failure` is the
    /// fault's text where it could not.
    pub fn open_repo(&self, failure: Option<&str>) -> (r: Result<(), AppError>)
        ensures
            r is Ok <==> failure is None,
            r matches Err(e) ==> e.is_failure(
                ErrorKind::NotFound,
                "Failed to open repository: "@ + failure->0@,
            ),
    {
        match failure {
            None => Ok(()),
            Some(detail) => Err(
                AppError::with_detail(ErrorKind::NotFound, "Failed to open repository: ", detail),
            ),
        }
    }

    /// Lists the files of a branch, or of `HEAD`, from what reading its tree
    /// gave: the root tree, or the directory that `directory_path` names,
    /// every directory with all that it holds. The paths of the listing begin
    /// with `directory_path`. A branch or a directory that was not found is
    /// not found; a path that names no directory is a bad request.
    pub fn list_repository_files(
        &self,
        read: &TreeRead,
        directory_path: Option<&str>,
        branch: Option<&str>,
    ) -> (r: Result<Vec<GitFileEntry>, AppError>)
        ensures
            match listing_failure(*read, prefix_text(directory_path), prefix_text(branch)) {
                Some(failure) => r matches Err(e) && e.is_failure(failure.0, failure.1),
                None => r matches Ok(out) && lists(
                    read->entries@,
                    prefix_text(directory_path),
                    out@,
                ),
            },
    {
        let directory: &str = match directory_path {
            Some(d) => d,
            None => "",
        };
        let name: &str = match branch {
            Some(b) => b,
            None => "",
        };
        proof {
            reveal_strlit("");
            assert(directory@ =~= prefix_text(directory_path));
            assert(name@ =~= prefix_text(branch));
        }
        match read {
            TreeRead::Failed { step, detail } => Err(
                step_error(*step, detail.as_str(), name, "Directory not found: ", directory),
            ),
            TreeRead::NotADirectory => Err(
                AppError::BadRequest(String::from_str("Path is not a directory")),
            ),
            TreeRead::Entries { entries } => get_tree_entries(entries, directory_path),
        }
    }

    /// The text of the file at `file_path` on a branch, or on `HEAD`, from
    /// what reading the file gave. A branch or a file that was not found is
    /// not found; a path that names no file, and bytes that are not UTF-8,
    /// are internal faults.
    pub fn get_file_content(&self, read: &FileRead, file_path: &str) -> (r: Result<
        String,
        AppError,
    >)
        ensures
            match content_failure(*read, file_path@) {
                Some(failure) => r matches Err(e) && e.is_failure(failure.0, failure.1),
                None => r matches Ok(text) && text@ == vstd::utf8::decode_utf8(read->content@),
            },
    {
        match read {
            FileRead::Failed { step, detail } => Err(
                step_error(
                    *step,
                    detail.as_str(),
                    detail.as_str(),
                    "File not found: ",
                    file_path,
                ),
            ),
            FileRead::NotABlob => Err(
                AppError::InternalServerError(String::from_str("Object is not a blob")),
            ),
            FileRead::Blob { content } => match from_utf8(content.as_slice()) {
                Some(text) => Ok(text),
                None => Err(
                    AppError::InternalServerError(
                        String::from_str("File content is not valid UTF-8"),
                    ),
                ),
            },
        }
    }
}

} // verus!
