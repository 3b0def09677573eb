//! Diff engine: turns the deltas and the patch lines of a tree-to-tree diff
//! into per-file change records, and assembles the detail of a commit.

use vstd::prelude::*;
use vstd::string::*;
use crate::error::{AppError, ErrorKind};
use crate::history::CommitInfo;
use crate::object_id::{is_object_id_text, parse_commit_id};
use crate::resolver::GitManager;
use crate::text::{first_index_of, from_utf8, lemma_first_index_of, str_eq};

verus! {

/// How a path differs between the two trees of a diff.
#[derive(Clone, Copy, Debug, PartialEq, Eq, Structural)]
pub enum DeltaStatus {
    Added,
    Deleted,
    Modified,
    Renamed,
    Copied,
    /// Any status that is not told apart from the others.
    Other,
}

/// One changed path of a diff, as the enumeration of its deltas gives it.
#[derive(Debug, Clone, PartialEq, Eq)]
pub struct DeltaRecord {
    pub status: DeltaStatus,
    pub old_path: Option<String>,
    pub new_path: Option<String>,
}

/// One line of the patch stream of a diff, with the paths of its delta.
#[derive(Debug, Clone, PartialEq, Eq)]
pub struct PatchLine {
    pub old_path: Option<String>,
    pub new_path: Option<String>,
    /// The origin marker of the line: `+`, `-`, a space, `H` for a hunk
    /// header, and others.
    pub origin: char,
    /// The bytes of the line.
    pub content: Vec<u8>,
}

/// A changed file of a commit.
#[derive(Debug, Clone, PartialEq, Eq)]
pub struct CommitFileChange {
    pub path: String,
    /// `added`, `deleted`, `modified`, `renamed`, `copied` or `changed`.
    pub status: String,
    /// The patch of the file; `None` where the patch stream had no line for it.
    pub diff: Option<String>,
}

/// A commit with the files it changed against its first parent, or against
/// the empty tree where it has no parent.
#[derive(Debug, Clone, PartialEq, Eq)]
pub struct CommitDetail {
    pub commit_info: CommitInfo,
    pub file_changes: Vec<CommitFileChange>,
}

/// The tree that a commit's tree is compared with.
#[derive(Clone, Copy, Debug, PartialEq, Eq, Structural)]
pub enum DiffBase {
    /// The tree of the first parent.
    FirstParent,
    /// An empty tree: every file of the commit then counts as added.
    EmptyTree,
}

/// A step of reading a commit's diff from the object database.
#[derive(Clone, Copy, Debug, PartialEq, Eq, Structural)]
pub enum DiffStep {
    FindCommit,
    CommitTree,
    ParentTree,
    TreeBuilder,
    WriteEmptyTree,
    FindEmptyTree,
    ComputeDiff,
    EnumerateDeltas,
    PrintPatch,
}

/// What reading a commit and its diff gave.
#[derive(Debug, Clone, PartialEq, Eq)]
pub enum DiffRead {
    /// The step that failed, with the fault's text.
    Failed { step: DiffStep, detail: String },
    /// The commit, the deltas of its diff in the order of the enumeration,
    /// and the lines of its patch stream in order.
    Read { info: CommitInfo, deltas: Vec<DeltaRecord>, lines: Vec<PatchLine> },
}

/// The status tag of a delta.
pub open spec fn status_label_spec(status: DeltaStatus) -> Seq<char> {
    match status {
        DeltaStatus::Added => "added"@,
        DeltaStatus::Deleted => "deleted"@,
        DeltaStatus::Modified => "modified"@,
        DeltaStatus::Renamed => "renamed"@,
        DeltaStatus::Copied => "copied"@,
        DeltaStatus::Other => "changed"@,
    }
}

/// The path under which a delta is recorded: the new path where there is
/// one, else the old path, else the empty path.
pub open spec fn changed_path_spec(old_path: Option<String>, new_path: Option<String>) -> Seq<
    char,
> {
    match new_path {
        Some(p) => p@,
        None => match old_path {
            Some(p) => p@,
            None => Seq::empty(),
        },
    }
}

/// What is put before a patch line of the given origin.
pub open spec fn line_prefix_spec(origin: char) -> Seq<char> {
    if origin == '+' {
        seq!['+']
    } else if origin == '-' {
        seq!['-']
    } else if origin == 'H' {
        Seq::empty()
    } else {
        seq![' ']
    }
}

/// The text of a patch line: its bytes as UTF-8, or a fixed marker where they
/// are not.
pub open spec fn line_text_spec(content: Seq<u8>) -> Seq<char> {
    if vstd::utf8::valid_utf8(content) {
        vstd::utf8::decode_utf8(content)
    } else {
        "[Invalid UTF-8]"@
    }
}

/// A patch line as it stands in the patch of its file.
pub open spec fn rendered_line(line: PatchLine) -> Seq<char> {
    line_prefix_spec(line.origin) + line_text_spec(line.content@)
}

/// The text of an optional patch: empty where there is none.
pub open spec fn patch_or_empty(patch: Option<Seq<char>>) -> Seq<char> {
    match patch {
        Some(t) => t,
        None => Seq::empty(),
    }
}

/// The patch of the change at position `at` among `paths` once `lines` have
/// been replayed: the rendered lines, in order, whose path first occurs at
/// `at`; `None` where there is no such line.
pub open spec fn patch_text(paths: Seq<Seq<char>>, lines: Seq<PatchLine>, at: int) -> Option<
    Seq<char>,
>
    decreases lines.len(),
{
    if lines.len() == 0 {
        None
    } else {
        let before = patch_text(paths, lines.drop_last(), at);
        let line = lines.last();
        if first_index_of(paths, changed_path_spec(line.old_path, line.new_path)) == at {
            Some(patch_or_empty(before) + rendered_line(line))
        } else {
            before
        }
    }
}

/// The paths of the changes, in order.
pub open spec fn change_paths(changes: Seq<CommitFileChange>) -> Seq<Seq<char>> {
    Seq::new(changes.len(), |i: int| changes[i].path@)
}

/// The paths under which the deltas are recorded, in order.
pub open spec fn delta_paths(deltas: Seq<DeltaRecord>) -> Seq<Seq<char>> {
    Seq::new(deltas.len(), |i: int| changed_path_spec(deltas[i].old_path, deltas[i].new_path))
}

/// The patch of a change, as characters.
pub open spec fn patch_of(change: CommitFileChange) -> Option<Seq<char>> {
    match change.diff {
        Some(t) => Some(t@),
        None => None,
    }
}

/// Whether `changes` are the records of `deltas` with the patches that
/// `lines` give: one change for each delta, in the order of the deltas, with
/// the delta's path and status tag and the patch replayed from the lines.
pub open spec fn renders(
    deltas: Seq<DeltaRecord>,
    lines: Seq<PatchLine>,
    changes: Seq<CommitFileChange>,
) -> bool {
    &&& changes.len() == deltas.len()
    &&& forall|i: int|
        0 <= i < deltas.len() ==> {
            &&& (#[trigger] changes[i]).path@ == changed_path_spec(
                deltas[i].old_path,
                deltas[i].new_path,
            )
            &&& changes[i].status@ == status_label_spec(deltas[i].status)
            &&& patch_of(changes[i]) == patch_text(delta_paths(deltas), lines, i)
        }
}

/// Where every delta of a diff is an addition, as in the diff of a root
/// commit against the empty tree, every change is tagged `added`.
pub proof fn lemma_additions_are_tagged_added(
    deltas: Seq<DeltaRecord>,
    lines: Seq<PatchLine>,
    changes: Seq<CommitFileChange>,
)
    requires
        renders(deltas, lines, changes),
        forall|i: int| 0 <= i < deltas.len() ==> (#[trigger] deltas[i]).status == DeltaStatus::Added,
    ensures
        changes.len() == deltas.len(),
        forall|i: int| 0 <= i < changes.len() ==> (#[trigger] changes[i]).status@ == "added"@,
{
    assert forall|i: int| 0 <= i < changes.len() implies (#[trigger] changes[i]).status@
        == "added"@ by {
        assert(deltas[i].status == DeltaStatus::Added);
    }
}

/// The changes of a diff are as many as its deltas and stand under the
/// paths of the deltas, in their order; where no two deltas share a path, no
/// two changes do.
pub proof fn lemma_changes_follow_deltas(
    deltas: Seq<DeltaRecord>,
    lines: Seq<PatchLine>,
    changes: Seq<CommitFileChange>,
)
    requires
        renders(deltas, lines, changes),
    ensures
        changes.len() == deltas.len(),
        change_paths(changes) == delta_paths(deltas),
        delta_paths(deltas).no_duplicates() ==> change_paths(changes).no_duplicates(),
{
    assert forall|i: int| 0 <= i < changes.len() implies change_paths(changes)[i] == delta_paths(
        deltas,
    )[i] by {
        assert(changes[i].path@ == changed_path_spec(deltas[i].old_path, deltas[i].new_path));
    }
    assert(change_paths(changes) =~= delta_paths(deltas));
}

/// The patch of a change begins with the first line of the stream, where
/// that line belongs to the change: a change with a line in the stream has a
/// patch, and the patch begins with the line's prefix and text.
pub proof fn lemma_patch_begins_with_first_line(
    paths: Seq<Seq<char>>,
    lines: Seq<PatchLine>,
    at: int,
)
    requires
        lines.len() > 0,
        first_index_of(paths, changed_path_spec(lines[0].old_path, lines[0].new_path)) == at,
    ensures
        patch_text(paths, lines, at) matches Some(patch) && rendered_line(lines[0]).is_prefix_of(
            patch,
        ),
    decreases lines.len(),
{
    let first = rendered_line(lines[0]);
    if lines.len() == 1 {
        assert(lines.drop_last().len() == 0);
        assert(patch_text(paths, lines.drop_last(), at) is None);
        let patch = patch_text(paths, lines, at)->0;
        assert(patch =~= first);
        assert(patch.subrange(0, first.len() as int) =~= first);
    } else {
        let init = lines.drop_last();
        assert(init[0] == lines[0]);
        lemma_patch_begins_with_first_line(paths, init, at);
        let before = patch_text(paths, init, at)->0;
        assert(before.subrange(0, first.len() as int) == first);
        let patch = patch_text(paths, lines, at)->0;
        assert(patch.subrange(0, first.len() as int) =~= before.subrange(0, first.len() as int));
    }
}

/// A change whose first line in the stream is an added or a removed line has
/// a patch that is not empty and begins with `+` or `-`.
pub proof fn lemma_patch_shows_the_change(paths: Seq<Seq<char>>, lines: Seq<PatchLine>, at: int)
    requires
        lines.len() > 0,
        first_index_of(paths, changed_path_spec(lines[0].old_path, lines[0].new_path)) == at,
        lines[0].origin == '+' || lines[0].origin == '-',
    ensures
        patch_text(paths, lines, at) matches Some(patch) && patch.len() > 0 && patch[0]
            == lines[0].origin,
{
    lemma_patch_begins_with_first_line(paths, lines, at);
    let first = rendered_line(lines[0]);
    let patch = patch_text(paths, lines, at)->0;
    assert(first[0] == lines[0].origin);
    assert(patch.subrange(0, first.len() as int)[0] == patch[0]);
}

/// A patch holds its lines in the order of the stream: replaying one more
/// line for the change at `at` puts that line, rendered, at the end of its
/// patch, and leaves the patch of every other change as it was.
pub proof fn lemma_patch_grows_by_lines(
    paths: Seq<Seq<char>>,
    lines: Seq<PatchLine>,
    line: PatchLine,
    at: int,
)
    ensures
        first_index_of(paths, changed_path_spec(line.old_path, line.new_path)) == at
            ==> patch_text(paths, lines.push(line), at) == Some(
            patch_or_empty(patch_text(paths, lines, at)) + rendered_line(line),
        ),
        first_index_of(paths, changed_path_spec(line.old_path, line.new_path)) != at
            ==> patch_text(paths, lines.push(line), at) == patch_text(paths, lines, at),
{
    assert(lines.push(line).drop_last() =~= lines);
}

/// The status tag of a delta.
pub fn status_label(status: DeltaStatus) -> (label: &'static str)
    ensures
        label@ == status_label_spec(status),
{
    match status {
        DeltaStatus::Added => "added",
        DeltaStatus::Deleted => "deleted",
        DeltaStatus::Modified => "modified",
        DeltaStatus::Renamed => "renamed",
        DeltaStatus::Copied => "copied",
        DeltaStatus::Other => "changed",
    }
}

/// The path under which a delta is recorded.
pub fn changed_path(old_path: &Option<String>, new_path: &Option<String>) -> (path: String)
    ensures
        path@ == changed_path_spec(*old_path, *new_path),
{
    match new_path {
        Some(p) => p.clone(),
        None => match old_path {
            Some(p) => p.clone(),
            None => String::new(),
        },
    }
}

/// What is put before a patch line of the given origin.
pub fn line_prefix(origin: char) -> (prefix: &'static str)
    ensures
        prefix@ == line_prefix_spec(origin),
{
    proof {
        reveal_strlit("+");
        reveal_strlit("-");
        reveal_strlit("");
        reveal_strlit(" ");
        assert("+"@ =~= seq!['+']);
        assert("-"@ =~= seq!['-']);
        assert(""@ =~= Seq::<char>::empty());
        assert(" "@ =~= seq![' ']);
    }
    if origin == '+' {
        "+"
    } else if origin == '-' {
        "-"
    } else if origin == 'H' {
        ""
    } else {
        " "
    }
}

/// The text of a patch line.
pub fn line_text(content: &[u8]) -> (text: String)
    ensures
        text@ == line_text_spec(content@),
{
    match from_utf8(content) {
        Some(text) => text,
        None => String::from_str("[Invalid UTF-8]"),
    }
}

/// The tree that a commit with `parent_count` parents is compared with.
pub fn diff_base(parent_count: usize) -> (base: DiffBase)
    ensures
        base == (if parent_count > 0 {
            DiffBase::FirstParent
        } else {
            DiffBase::EmptyTree
        }),
{
    if parent_count > 0 {
        DiffBase::FirstParent
    } else {
        DiffBase::EmptyTree
    }
}

/// The position of the first change recorded under `path`.
fn find_change(changes: &Vec<CommitFileChange>, path: &str) -> (r: Option<usize>)
    ensures
        r is Some <==> first_index_of(change_paths(changes@), path@) < changes.len(),
        r matches Some(at) ==> at == first_index_of(change_paths(changes@), path@),
        r is None ==> first_index_of(change_paths(changes@), path@) == changes.len(),
{
    let mut i: usize = 0;
    while i < changes.len()
        invariant
            i <= changes.len(),
            forall|k: int| 0 <= k < i ==> change_paths(changes@)[k] != path@,
        decreases changes.len() - i,
    {
        if str_eq(changes[i].path.as_str(), path) {
            proof {
                lemma_first_index_of(change_paths(changes@), path@, i as int);
            }
            return Some(i);
        }
        i += 1;
    }
    proof {
        lemma_first_index_of(change_paths(changes@), path@, i as int);
    }
    None
}

/// Turns a diff into change records, in two passes: the first records each
/// delta with its path and status tag, the second replays the patch stream
/// and puts each line, behind the prefix of its origin, at the end of the
/// patch of the first change that has the line's path. The order of the
/// changes is the order of the deltas.
pub fn process_diff_into_changes(deltas: &Vec<DeltaRecord>, lines: &Vec<PatchLine>) -> (changes:
    Vec<CommitFileChange>)
    ensures
        renders(deltas@, lines@, changes@),
{
    let mut changes: Vec<CommitFileChange> = Vec::new();
    let mut i: usize = 0;
    while i < deltas.len()
        invariant
            i <= deltas.len(),
            changes.len() == i,
            forall|k: int|
                0 <= k < i ==> {
                    &&& (#[trigger] changes[k]).path@ == changed_path_spec(
                        deltas[k].old_path,
                        deltas[k].new_path,
                    )
                    &&& changes[k].status@ == status_label_spec(deltas[k].status)
                    &&& changes[k].diff is None
                },
        decreases deltas.len() - i,
    {
        let delta = &deltas[i];
        changes.push(
            CommitFileChange {
                path: changed_path(&delta.old_path, &delta.new_path),
                status: String::from_str(status_label(delta.status)),
                diff: None,
            },
        );
        i += 1;
    }
    let ghost paths = delta_paths(deltas@);
    assert(change_paths(changes@) =~= paths);
    let mut j: usize = 0;
    while j < lines.len()
        invariant
            j <= lines.len(),
            changes.len() == deltas.len(),
            paths == delta_paths(deltas@),
            change_paths(changes@) == paths,
            forall|k: int|
                0 <= k < deltas.len() ==> {
                    &&& (#[trigger] changes[k]).path@ == changed_path_spec(
                        deltas[k].old_path,
                        deltas[k].new_path,
                    )
                    &&& changes[k].status@ == status_label_spec(deltas[k].status)
                    &&& patch_of(changes[k]) == patch_text(paths, lines@.subrange(0, j as int), k)
                },
        decreases lines.len() - j,
    {
        let line = &lines[j];
        let path = changed_path(&line.old_path, &line.new_path);
        let found = find_change(&changes, path.as_str());
        let ghost before = changes@;
        let ghost seen = lines@.subrange(0, j as int);
        proof {
            assert(lines@.subrange(0, j + 1) =~= seen.push(*line));
        }
        match found {
            Some(at) => {
                let prefix = line_prefix(line.origin);
                let text = line_text(line.content.as_slice());
                let slot = &mut changes[at];
                if slot.diff.is_none() {
                    slot.diff = Some(String::new());
                }
                match &mut slot.diff {
                    Some(patch) => {
                        patch.append(prefix);
                        patch.append(text.as_str());
                    },
                    None => {},
                }
                proof {
                    assert(change_paths(changes@) =~= paths);
                    assert forall|k: int| 0 <= k < deltas.len() implies {
                        &&& (#[trigger] changes[k]).path@ == changed_path_spec(
                            deltas[k].old_path,
                            deltas[k].new_path,
                        )
                        &&& changes[k].status@ == status_label_spec(deltas[k].status)
                        &&& patch_of(changes[k]) == patch_text(
                            paths,
                            lines@.subrange(0, j + 1),
                            k,
                        )
                    } by {
                        lemma_patch_grows_by_lines(paths, seen, *line, k);
                        if k != at {
                            assert(changes[k] == before[k]);
                        } else {
                            assert(patch_of(changes[k]) == Some(
                                patch_or_empty(patch_of(before[k])) + rendered_line(*line),
                            )) by {
                                assert(patch_or_empty(patch_of(before[k])) + line_prefix_spec(
                                    line.origin,
                                ) + line_text_spec(line.content@) =~= patch_or_empty(
                                    patch_of(before[k]),
                                ) + rendered_line(*line));
                            }
                        }
                    }
                }
            },
            None => {
                proof {
                    assert forall|k: int| 0 <= k < deltas.len() implies patch_of(
                        #[trigger] changes[k],
                    ) == patch_text(paths, lines@.subrange(0, j + 1), k) by {
                        lemma_patch_grows_by_lines(paths, seen, *line, k);
                    }
                }
            },
        }
        j += 1;
    }
    assert(lines@.subrange(0, j as int) =~= lines@);
    changes
}

/// The kind of failure that a failed step of reading a diff is reported as.
pub open spec fn step_kind(step: DiffStep) -> ErrorKind {
    match step {
        DiffStep::FindCommit => ErrorKind::NotFound,
        _ => ErrorKind::InternalServerError,
    }
}

/// What stands before the fault's text in the report of a failed step.
pub open spec fn step_label_spec(step: DiffStep) -> Seq<char> {
    match step {
        DiffStep::FindCommit => "Commit not found: "@,
        DiffStep::CommitTree => "Failed to get commit tree: "@,
        DiffStep::ParentTree => "Failed to get parent tree: "@,
        DiffStep::TreeBuilder => "Failed to create treebuilder: "@,
        DiffStep::WriteEmptyTree => "Failed to create empty tree: "@,
        DiffStep::FindEmptyTree => "Failed to find empty tree: "@,
        DiffStep::ComputeDiff => "Failed to compute diff: "@,
        DiffStep::EnumerateDeltas => "Failed to process diff: "@,
        DiffStep::PrintPatch => "Failed to print diff: "@,
    }
}

/// What stands before the fault's text in the report of a failed step.
pub fn step_label(step: DiffStep) -> (label: &'static str)
    ensures
        label@ == step_label_spec(step),
{
    match step {
        DiffStep::FindCommit => "Commit not found: ",
        DiffStep::CommitTree => "Failed to get commit tree: ",
        DiffStep::ParentTree => "Failed to get parent tree: ",
        DiffStep::TreeBuilder => "Failed to create treebuilder: ",
        DiffStep::WriteEmptyTree => "Failed to create empty tree: ",
        DiffStep::FindEmptyTree => "Failed to find empty tree: ",
        DiffStep::ComputeDiff => "Failed to compute diff: ",
        DiffStep::EnumerateDeltas => "Failed to process diff: ",
        DiffStep::PrintPatch => "Failed to print diff: ",
    }
}

impl GitManager {
    /// The detail of a commit, from what reading it and its diff gave.
    ///
    /// An identifier that is not one to forty hexadecimal digits is a bad
    /// request, whatever was read. A commit that was not found is reported
    /// as not found, any other failed step as an internal fault. Otherwise
    /// the detail holds the commit and one change for each delta.
    pub fn get_commit_detail(&self, commit_id: &str, read: DiffRead) -> (r: Result<
        CommitDetail,
        AppError,
    >)
        ensures
            !is_object_id_text(commit_id@) ==> (r matches Err(e) && e.kind_spec()
                == ErrorKind::BadRequest && "Invalid commit ID: "@.is_prefix_of(e.text())),
            is_object_id_text(commit_id@) ==> match read {
                DiffRead::Failed { step, detail } => r matches Err(e) && e.is_failure(
                    step_kind(step),
                    step_label_spec(step) + detail@,
                ),
                DiffRead::Read { info, deltas, lines } => r matches Ok(detail)
                    && detail.commit_info == info && renders(
                    deltas@,
                    lines@,
                    detail.file_changes@,
                ),
            },
    {
        match parse_commit_id(commit_id) {
            Err(e) => {
                return Err(e);
            },
            Ok(_) => {},
        }
        match read {
            DiffRead::Failed { step, detail } => {
                let kind = match step {
                    DiffStep::FindCommit => ErrorKind::NotFound,
                    _ => ErrorKind::InternalServerError,
                };
                Err(AppError::with_detail(kind, step_label(step), detail.as_str()))
            },
            DiffRead::Read { info, deltas, lines } => {
                let file_changes = process_diff_into_changes(&deltas, &lines);
                Ok(CommitDetail { commit_info: info, file_changes })
            },
        }
    }
}

} // verus!
