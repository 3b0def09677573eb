//! Mutation operations that produce a commit: staging paths of the working
//! tree, or writing one file, then committing on top of `HEAD`.
//!
//! The object database and the disk are worked by the caller. The operation
//! itself is a state machine: it names the step it waits for, takes what the
//! step gave, and moves on or ends.

use vstd::prelude::*;
use vstd::string::*;
use crate::error::{AppError, ErrorKind};
use crate::refs::{
    head_commit_or_none, head_failure, head_label_spec, is_unborn, HeadCommit, HeadRead,
    MutationKind,
};
use crate::resolver::{name_failure, repo_path_spec, GitManager};
use crate::text::joined3;

verus! {

/// The step that an operation waits for.
#[derive(Clone, Copy, Debug, PartialEq, Eq, Structural)]
pub enum Phase {
    /// Opening the repository.
    Open,
    /// Creating the directories above the file to write.
    CreateDirectory,
    /// Writing the file into the working tree.
    WriteFile,
    /// Loading the index.
    LoadIndex,
    /// Staging: everything where no path was given, else the path at `next`.
    Stage { next: usize },
    /// Writing the index out as a tree.
    WriteTree,
    /// Persisting the index to disk.
    PersistIndex,
    /// Making the signature of the author and committer.
    Signature,
    /// Finding the tree that was written.
    FindTree,
    /// Resolving `HEAD` for the parent of the new commit.
    ResolveHead,
    /// Creating the commit and advancing `HEAD` to it.
    Commit,
    /// Nothing: the operation has ended.
    Finished,
}

/// What the caller has to do for the step that an operation waits for.
#[derive(Debug, Clone, PartialEq, Eq)]
pub enum Action {
    OpenRepository { path: String },
    CreateDirectory { file_path: String },
    WriteFile { file_path: String, content: String },
    LoadIndex,
    StageAll,
    StagePath { path: String },
    WriteTree,
    PersistIndex,
    MakeSignature { name: String, email: String },
    FindTree { tree_id: String },
    ResolveHead,
    CreateCommit { message: String, tree_id: String, parent: Option<String> },
}

/// What a step gave.
#[derive(Debug, Clone, PartialEq, Eq)]
pub enum Event {
    /// The step went well and has nothing to report.
    Done,
    /// The index was written as the tree with this identifier.
    TreeWritten { tree_id: String },
    /// What resolving `HEAD` gave.
    Head { head: HeadRead },
    /// The commit was created under this identifier.
    Committed { commit_id: String },
    /// The step failed: the fault's text.
    Failed { detail: String },
}

/// A commit-producing operation under way.
#[derive(Debug, PartialEq, Eq)]
pub struct Mutation {
    pub kind: MutationKind,
    /// The directory of the repository.
    pub repo_path: String,
    /// The acting user, who becomes author and committer.
    pub user_id: String,
    pub user_email: String,
    /// The commit message.
    pub message: String,
    /// The paths to stage, relative to the repository; none means everything.
    pub paths: Vec<String>,
    /// The file to write, below the repository's directory; only where a
    /// file is updated.
    pub file_path: String,
    /// The text to write into that file.
    pub content: String,
    pub phase: Phase,
    /// The tree that the index was written as, once it was.
    pub tree_id: String,
    /// The commit of `HEAD`, once it was resolved; none where it is unborn.
    pub parent: Option<String>,
    /// How the operation ended, once it has: the new commit's identifier, or
    /// the failure.
    pub outcome: Option<Result<String, AppError>>,
}

/// The place of a phase in the order of the steps.
pub open spec fn phase_order(phase: Phase) -> int {
    match phase {
        Phase::Open => 0,
        Phase::CreateDirectory => 1,
        Phase::WriteFile => 2,
        Phase::LoadIndex => 3,
        Phase::Stage { .. } => 4,
        Phase::WriteTree => 5,
        Phase::PersistIndex => 6,
        Phase::Signature => 7,
        Phase::FindTree => 8,
        Phase::ResolveHead => 9,
        Phase::Commit => 10,
        Phase::Finished => 11,
    }
}

impl Mutation {
    /// Whether two operations were asked for the same thing.
    pub open spec fn same_request(self, other: Mutation) -> bool {
        &&& self.kind == other.kind
        &&& self.repo_path == other.repo_path
        &&& self.user_id == other.user_id
        &&& self.user_email == other.user_email
        &&& self.message == other.message
        &&& self.paths == other.paths
        &&& self.file_path == other.file_path
        &&& self.content == other.content
    }

    /// Whether `action` is what the operation waits for.
    pub open spec fn awaits(self, action: Action) -> bool {
        match self.phase {
            Phase::Open => action matches Action::OpenRepository { path } && path@
                == self.repo_path@,
            Phase::CreateDirectory => action matches Action::CreateDirectory { file_path }
                && file_path@ == self.file_path@,
            Phase::WriteFile => action matches Action::WriteFile { file_path, content }
                && file_path@ == self.file_path@ && content@ == self.content@,
            Phase::LoadIndex => action is LoadIndex,
            Phase::Stage { next } => if next < self.paths.len() {
                action matches Action::StagePath { path } && path@ == self.paths[next as int]@
            } else {
                action is StageAll
            },
            Phase::WriteTree => action is WriteTree,
            Phase::PersistIndex => action is PersistIndex,
            Phase::Signature => action matches Action::MakeSignature { name, email } && name@
                == self.user_id@ && email@ == self.user_email@,
            Phase::FindTree => action matches Action::FindTree { tree_id } && tree_id@
                == self.tree_id@,
            Phase::ResolveHead => action is ResolveHead,
            Phase::Commit => action matches Action::CreateCommit { message, tree_id, parent }
                && message@ == self.message@ && tree_id@ == self.tree_id@ && match (
                parent,
                self.parent,
            ) {
                (Some(a), Some(b)) => a@ == b@,
                (None, None) => true,
                _ => false,
            },
            Phase::Finished => false,
        }
    }

    /// The phase that follows when the step awaited gave `event`. A failed
    /// step ends the operation, and so does an event that the step awaited
    /// cannot give.
    pub open spec fn next_phase(self, event: Event) -> Phase {
        match self.phase {
            Phase::Open => if event is Done {
                if self.kind == MutationKind::UpdateFile {
                    Phase::CreateDirectory
                } else {
                    Phase::LoadIndex
                }
            } else {
                Phase::Finished
            },
            Phase::CreateDirectory => if event is Done {
                Phase::WriteFile
            } else {
                Phase::Finished
            },
            Phase::WriteFile => if event is Done {
                Phase::LoadIndex
            } else {
                Phase::Finished
            },
            Phase::LoadIndex => if event is Done {
                Phase::Stage { next: 0 }
            } else {
                Phase::Finished
            },
            Phase::Stage { next } => if event is Done {
                if next + 1 < self.paths.len() {
                    Phase::Stage { next: (next + 1) as usize }
                } else {
                    Phase::WriteTree
                }
            } else {
                Phase::Finished
            },
            Phase::WriteTree => if event is TreeWritten {
                Phase::PersistIndex
            } else {
                Phase::Finished
            },
            Phase::PersistIndex => if event is Done {
                Phase::Signature
            } else {
                Phase::Finished
            },
            Phase::Signature => if event is Done {
                Phase::FindTree
            } else {
                Phase::Finished
            },
            Phase::FindTree => if event is Done {
                Phase::ResolveHead
            } else {
                Phase::Finished
            },
            Phase::ResolveHead => if event matches Event::Head { head } && head_failure(
                head,
                self.kind,
            ) is None {
                Phase::Commit
            } else {
                Phase::Finished
            },
            Phase::Commit => Phase::Finished,
            Phase::Finished => Phase::Finished,
        }
    }

    /// What stands before the fault's text where the step awaited fails.
    pub open spec fn failure_label(self) -> Seq<char> {
        match self.phase {
            Phase::Open => "Failed to open repository: "@,
            Phase::CreateDirectory => "Failed to create directory: "@,
            Phase::WriteFile => "Failed to write file: "@,
            Phase::LoadIndex => "Failed to get index: "@,
            Phase::Stage { next } => if self.kind == MutationKind::UpdateFile {
                "Failed to add file to index: "@
            } else if next < self.paths.len() {
                "Failed to add "@ + self.paths[next as int]@ + ": "@
            } else {
                "Failed to add files: "@
            },
            Phase::WriteTree => "Failed to write index: "@,
            Phase::PersistIndex => "Failed to write index file: "@,
            Phase::Signature => "Failed to create signature: "@,
            Phase::FindTree => "Failed to find tree: "@,
            Phase::ResolveHead => head_label_spec(self.kind),
            Phase::Commit => "Failed to commit: "@,
            Phase::Finished => Seq::empty(),
        }
    }

    /// The kind of the failure that ends the operation on `event`: a
    /// repository that cannot be opened is not found, anything else is an
    /// internal fault.
    pub open spec fn failure_kind(self, event: Event) -> ErrorKind {
        if self.phase is Open && event is Failed {
            ErrorKind::NotFound
        } else {
            ErrorKind::InternalServerError
        }
    }

    /// The reason of the failure that ends the operation on `event`.
    pub open spec fn failure_text(self, event: Event) -> Seq<char> {
        match event {
            Event::Failed { detail } => self.failure_label() + detail@,
            Event::Head { head } => if self.phase is ResolveHead {
                head_failure(head, self.kind)->0
            } else {
                "Unexpected outcome of a step"@
            },
            _ => "Unexpected outcome of a step"@,
        }
    }

    /// Whether `post` is the operation after the step that `self` awaited
    /// gave `event`.
    pub open spec fn steps_to(self, event: Event, post: Mutation) -> bool {
        &&& post.same_request(self)
        &&& post.phase == self.next_phase(event)
        &&& post.tree_id == (if self.phase is WriteTree && event is TreeWritten {
            event->tree_id
        } else {
            self.tree_id
        })
        &&& if self.phase is ResolveHead && post.phase is Commit {
            match event->head {
                HeadRead::Resolved { commit: HeadCommit::Found { id }, .. } => post.parent == Some(
                    id,
                ),
                _ => post.parent is None,
            }
        } else {
            post.parent == self.parent
        }
        &&& if self.phase is Finished || !(post.phase is Finished) {
            post.outcome == self.outcome
        } else if self.phase is Commit && event is Committed {
            post.outcome == Some(Ok::<String, AppError>(event->commit_id))
        } else {
            post.outcome matches Some(Err(e)) && e.is_failure(
                self.failure_kind(event),
                self.failure_text(event),
            )
        }
    }

    /// What the caller has to do next; `None` once the operation has ended.
    pub fn pending(&self) -> (r: Option<Action>)
        ensures
            r is None <==> self.phase is Finished,
            r matches Some(action) ==> self.awaits(action),
    {
        match self.phase {
            Phase::Open => Some(Action::OpenRepository { path: self.repo_path.clone() }),
            Phase::CreateDirectory => Some(
                Action::CreateDirectory { file_path: self.file_path.clone() },
            ),
            Phase::WriteFile => Some(
                Action::WriteFile {
                    file_path: self.file_path.clone(),
                    content: self.content.clone(),
                },
            ),
            Phase::LoadIndex => Some(Action::LoadIndex),
            Phase::Stage { next } => if next < self.paths.len() {
                Some(Action::StagePath { path: self.paths[next].clone() })
            } else {
                Some(Action::StageAll)
            },
            Phase::WriteTree => Some(Action::WriteTree),
            Phase::PersistIndex => Some(Action::PersistIndex),
            Phase::Signature => Some(
                Action::MakeSignature {
                    name: self.user_id.clone(),
                    email: self.user_email.clone(),
                },
            ),
            Phase::FindTree => Some(Action::FindTree { tree_id: self.tree_id.clone() }),
            Phase::ResolveHead => Some(Action::ResolveHead),
            Phase::Commit => Some(
                Action::CreateCommit {
                    message: self.message.clone(),
                    tree_id: self.tree_id.clone(),
                    parent: match &self.parent {
                        Some(id) => Some(id.clone()),
                        None => None,
                    },
                },
            ),
            Phase::Finished => None,
        }
    }

    /// What stands before the fault's text where the step awaited fails.
    fn label(&self) -> (label: String)
        ensures
            label@ == self.failure_label(),
    {
        match self.phase {
            Phase::Open => String::from_str("Failed to open repository: "),
            Phase::CreateDirectory => String::from_str("Failed to create directory: "),
            Phase::WriteFile => String::from_str("Failed to write file: "),
            Phase::LoadIndex => String::from_str("Failed to get index: "),
            Phase::Stage { next } => match self.kind {
                MutationKind::UpdateFile => String::from_str("Failed to add file to index: "),
                MutationKind::Commit => if next < self.paths.len() {
                    joined3("Failed to add ", self.paths[next].as_str(), ": ")
                } else {
                    String::from_str("Failed to add files: ")
                },
            },
            Phase::WriteTree => String::from_str("Failed to write index: "),
            Phase::PersistIndex => String::from_str("Failed to write index file: "),
            Phase::Signature => String::from_str("Failed to create signature: "),
            Phase::FindTree => String::from_str("Failed to find tree: "),
            Phase::ResolveHead => match self.kind {
                MutationKind::Commit => String::from_str("Failed to get HEAD reference: "),
                MutationKind::UpdateFile => String::from_str("Failed to get HEAD: "),
            },
            Phase::Commit => String::from_str("Failed to commit: "),
            Phase::Finished => String::new(),
        }
    }

    /// Ends the operation with a failure.
    fn fail(&mut self, e: AppError)
        ensures
            final(self).same_request(*old(self)),
            final(self).phase is Finished,
            final(self).tree_id == old(self).tree_id,
            final(self).parent == old(self).parent,
            final(self).outcome == Some(Err::<String, AppError>(e)),
    {
        self.phase = Phase::Finished;
        self.outcome = Some(Err(e));
    }

    /// Ends the operation because the step awaited cannot have given what
    /// was reported.
    fn unexpected(&mut self)
        ensures
            final(self).same_request(*old(self)),
            final(self).phase is Finished,
            final(self).tree_id == old(self).tree_id,
            final(self).parent == old(self).parent,
            final(self).outcome matches Some(Err(e)) && e.is_failure(
                ErrorKind::InternalServerError,
                "Unexpected outcome of a step"@,
            ),
    {
        self.fail(AppError::InternalServerError(String::from_str("Unexpected outcome of a step")));
    }

    /// Takes what the step awaited gave and moves on: to the next step, or to
    /// the end. Once the operation has ended nothing changes it.
    pub fn advance(&mut self, event: Event)
        ensures
            old(self).steps_to(event, *final(self)),
    {
        if let Phase::Finished = self.phase {
            return ;
        }
        if let Event::Failed { detail } = &event {
            let label = self.label();
            let kind = match self.phase {
                Phase::Open => ErrorKind::NotFound,
                _ => ErrorKind::InternalServerError,
            };
            let e = AppError::with_detail(kind, label.as_str(), detail.as_str());
            self.fail(e);
            return ;
        }
        match self.phase {
            Phase::Open => match event {
                Event::Done => {
                    self.phase = match self.kind {
                        MutationKind::UpdateFile => Phase::CreateDirectory,
                        MutationKind::Commit => Phase::LoadIndex,
                    };
                },
                _ => {
                    self.unexpected();
                },
            },
            Phase::CreateDirectory => match event {
                Event::Done => {
                    self.phase = Phase::WriteFile;
                },
                _ => {
                    self.unexpected();
                },
            },
            Phase::WriteFile => match event {
                Event::Done => {
                    self.phase = Phase::LoadIndex;
                },
                _ => {
                    self.unexpected();
                },
            },
            Phase::LoadIndex => match event {
                Event::Done => {
                    self.phase = Phase::Stage { next: 0 };
                },
                _ => {
                    self.unexpected();
                },
            },
            Phase::Stage { next } => match event {
                Event::Done => {
                    if self.paths.len() > 0 && next < self.paths.len() - 1 {
                        self.phase = Phase::Stage { next: next + 1 };
                    } else {
                        self.phase = Phase::WriteTree;
                    }
                },
                _ => {
                    self.unexpected();
                },
            },
            Phase::WriteTree => match event {
                Event::TreeWritten { tree_id } => {
                    self.tree_id = tree_id;
                    self.phase = Phase::PersistIndex;
                },
                _ => {
                    self.unexpected();
                },
            },
            Phase::PersistIndex => match event {
                Event::Done => {
                    self.phase = Phase::Signature;
                },
                _ => {
                    self.unexpected();
                },
            },
            Phase::Signature => match event {
                Event::Done => {
                    self.phase = Phase::FindTree;
                },
                _ => {
                    self.unexpected();
                },
            },
            Phase::FindTree => match event {
                Event::Done => {
                    self.phase = Phase::ResolveHead;
                },
                _ => {
                    self.unexpected();
                },
            },
            Phase::ResolveHead => match event {
                Event::Head { head } => match head_commit_or_none(&head, self.kind) {
                    Ok(parent) => {
                        self.parent = parent;
                        self.phase = Phase::Commit;
                    },
                    Err(e) => {
                        self.fail(e);
                    },
                },
                _ => {
                    self.unexpected();
                },
            },
            Phase::Commit => match event {
                Event::Committed { commit_id } => {
                    self.phase = Phase::Finished;
                    self.outcome = Some(Ok(commit_id));
                },
                _ => {
                    self.unexpected();
                },
            },
            Phase::Finished => {},
        }
    }

    /// How the operation ended: the identifier of the new commit, or the
    /// failure. An operation that has not ended has no commit to show.
    pub fn into_result(self) -> (r: Result<String, AppError>)
        ensures
            match self.outcome {
                Some(outcome) => r == outcome,
                None => r matches Err(e) && e.is_failure(
                    ErrorKind::InternalServerError,
                    "Operation has not finished"@,
                ),
            },
    {
        match self.outcome {
            Some(outcome) => outcome,
            None => Err(
                AppError::InternalServerError(String::from_str("Operation has not finished")),
            ),
        }
    }
}

/// How often an operation stages: once for everything, or once for each path.
pub open spec fn stage_count(m: Mutation) -> nat {
    if m.paths.len() == 0 {
        1
    } else {
        m.paths.len() as nat
    }
}

/// The phases that an operation passes through when every step goes well, in
/// order: the repository is opened, a file to update is written into the
/// working tree, the index is loaded, the paths are staged one after the
/// other, the index is written as a tree and persisted, the signature is
/// made, the tree is found, `HEAD` is resolved, and the commit is created.
pub open spec fn script(m: Mutation) -> Seq<Phase> {
    let opening = if m.kind == MutationKind::UpdateFile {
        seq![Phase::Open, Phase::CreateDirectory, Phase::WriteFile, Phase::LoadIndex]
    } else {
        seq![Phase::Open, Phase::LoadIndex]
    };
    let staging = Seq::new(stage_count(m), |i: int| Phase::Stage { next: i as usize });
    opening + staging + seq![
        Phase::WriteTree,
        Phase::PersistIndex,
        Phase::Signature,
        Phase::FindTree,
        Phase::ResolveHead,
        Phase::Commit,
        Phase::Finished,
    ]
}

/// Whether `event` says that the step awaited in `phase` went well.
pub open spec fn went_well(phase: Phase, event: Event, kind: MutationKind) -> bool {
    match phase {
        Phase::WriteTree => event is TreeWritten,
        Phase::ResolveHead => event matches Event::Head { head } && head_failure(head, kind)
            is None,
        Phase::Commit => event is Committed,
        Phase::Finished => false,
        _ => event is Done,
    }
}

/// An operation whose steps all go well passes through the phases of its
/// script, one after the other, and no others: from the phase at one place of
/// the script a step that went well leads to the phase at the next place.
pub proof fn lemma_success_follows_script(pre: Mutation, event: Event, post: Mutation, at: int)
    requires
        0 <= at < script(pre).len() - 1,
        pre.phase == script(pre)[at],
        went_well(pre.phase, event, pre.kind),
        pre.steps_to(event, post),
    ensures
        post.phase == script(pre)[at + 1],
        script(post) == script(pre),
        post.phase is Finished ==> post.outcome == Some(
            Ok::<String, AppError>(event->commit_id),
        ),
{
    let opening = if pre.kind == MutationKind::UpdateFile {
        seq![Phase::Open, Phase::CreateDirectory, Phase::WriteFile, Phase::LoadIndex]
    } else {
        seq![Phase::Open, Phase::LoadIndex]
    };
    let staging = Seq::new(stage_count(pre), |i: int| Phase::Stage { next: i as usize });
    let closing = seq![
        Phase::WriteTree,
        Phase::PersistIndex,
        Phase::Signature,
        Phase::FindTree,
        Phase::ResolveHead,
        Phase::Commit,
        Phase::Finished,
    ];
    let all = opening + staging + closing;
    assert(script(pre) == all);
    let o = opening.len() as int;
    let n = staging.len() as int;
    assert(post.same_request(pre));
    assert(script(post) == script(pre));
    if at < o - 1 {
        assert(all[at] == opening[at]);
        assert(all[at + 1] == opening[at + 1]);
    } else if at == o - 1 {
        assert(all[at] == opening[at]);
        assert(all[at + 1] == staging[0]);
    } else if at < o + n - 1 {
        assert(all[at] == staging[at - o]);
        assert(all[at + 1] == staging[at - o + 1]);
    } else if at == o + n - 1 {
        assert(all[at] == staging[at - o]);
        assert(all[at + 1] == closing[0]);
    } else {
        assert(all[at] == closing[at - o - n]);
        assert(all[at + 1] == closing[at - o - n + 1]);
    }
}

/// A failed step ends the operation at once, with a failure that names the
/// step and carries the fault's text; no further step is asked for.
pub proof fn lemma_failure_aborts(pre: Mutation, detail: String, post: Mutation)
    requires
        !(pre.phase is Finished),
        pre.steps_to(Event::Failed { detail }, post),
    ensures
        post.phase is Finished,
        post.outcome matches Some(Err(e)) && e.text() == pre.failure_label() + detail@
            && e.kind_spec() == (if pre.phase is Open {
            ErrorKind::NotFound
        } else {
            ErrorKind::InternalServerError
        }),
        forall|action: Action| !post.awaits(action),
{
}

/// Once an operation has ended, no event changes how it ended.
pub proof fn lemma_finished_stays(pre: Mutation, event: Event, post: Mutation)
    requires
        pre.phase is Finished,
        pre.steps_to(event, post),
    ensures
        post.phase is Finished,
        post.outcome == pre.outcome,
        post.tree_id == pre.tree_id,
        post.parent == pre.parent,
{
}

/// Every step moves an operation forward in the order of the steps: the
/// file is written before the index is loaded, paths are staged one after
/// the other before the tree is written, the tree is written before the
/// index is persisted, and both before the commit is created.
pub proof fn lemma_steps_move_forward(pre: Mutation, event: Event, post: Mutation)
    requires
        !(pre.phase is Finished),
        pre.steps_to(event, post),
    ensures
        phase_order(post.phase) > phase_order(pre.phase) || (pre.phase matches Phase::Stage {
            next: a,
        } && post.phase matches Phase::Stage { next: b } && b == a + 1 && b < pre.paths.len()),
{
}

/// The new commit has the commit of `HEAD` as its only parent, and no parent
/// where `HEAD` is unborn.
pub proof fn lemma_parent_is_head(pre: Mutation, head: HeadRead, post: Mutation, action: Action)
    requires
        pre.phase is ResolveHead,
        pre.steps_to(Event::Head { head }, post),
        post.awaits(action),
    ensures
        action matches Action::CreateCommit { parent, .. } && (parent is None <==> is_unborn(head))
            && (parent matches Some(id) ==> head matches HeadRead::Resolved {
            commit: HeadCommit::Found { id: found },
            ..
        } && id@ == found@),
{
}

impl GitManager {
    /// Starts committing staged paths of a repository's working tree: the
    /// given paths, or everything where none is given. Names that leave the
    /// owner's namespace are a bad request.
    pub fn commit_for_user(
        &self,
        user_id: &str,
        repo_name: &str,
        message: &str,
        paths: &[&str],
        user_email: &str,
    ) -> (r: Result<Mutation, AppError>)
        ensures
            r is Ok <==> name_failure(user_id@, repo_name@) is None,
            r matches Ok(m) ==> {
                &&& m.kind == MutationKind::Commit
                &&& m.phase == Phase::Open
                &&& m.repo_path@ == repo_path_spec(self.base(), user_id@, repo_name@)
                &&& m.user_id@ == user_id@
                &&& m.user_email@ == user_email@
                &&& m.message@ == message@
                &&& m.paths.len() == paths.len()
                &&& forall|i: int| 0 <= i < paths.len() ==> (#[trigger] m.paths[i])@ == paths[i]@
                &&& m.outcome is None
                &&& m.parent is None
                &&& m.tree_id@.len() == 0
            },
            r matches Err(e) ==> (name_failure(user_id@, repo_name@) matches Some(failure)
                && e.is_failure(failure.0, failure.1)),
    {
        let repo_path = match self.resolve(user_id, repo_name) {
            Ok(path) => path,
            Err(e) => {
                return Err(e);
            },
        };
        let mut staged: Vec<String> = Vec::new();
        let mut i: usize = 0;
        while i < paths.len()
            invariant
                i <= paths.len(),
                staged.len() == i,
                forall|k: int| 0 <= k < i ==> (#[trigger] staged[k])@ == paths[k]@,
            decreases paths.len() - i,
        {
            staged.push(String::from_str(paths[i]));
            i += 1;
        }
        Ok(
            Mutation {
                kind: MutationKind::Commit,
                repo_path,
                user_id: String::from_str(user_id),
                user_email: String::from_str(user_email),
                message: String::from_str(message),
                paths: staged,
                file_path: String::new(),
                content: String::new(),
                phase: Phase::Open,
                tree_id: String::new(),
                parent: None,
                outcome: None,
            },
        )
    }

    /// Starts writing `content` to the file at `file_path` of a repository's
    /// working tree and committing that one path. Names that leave the
    /// owner's namespace are a bad request.
    pub fn update_file(
        &self,
        user_id: &str,
        repo_name: &str,
        file_path: &str,
        content: &str,
        commit_message: &str,
        user_email: &str,
    ) -> (r: Result<Mutation, AppError>)
        ensures
            r is Ok <==> name_failure(user_id@, repo_name@) is None,
            r matches Ok(m) ==> {
                &&& m.kind == MutationKind::UpdateFile
                &&& m.phase == Phase::Open
                &&& m.repo_path@ == repo_path_spec(self.base(), user_id@, repo_name@)
                &&& m.user_id@ == user_id@
                &&& m.user_email@ == user_email@
                &&& m.message@ == commit_message@
                &&& m.paths.len() == 1
                &&& m.paths[0]@ == file_path@
                &&& m.file_path@ == m.repo_path@ + seq!['/'] + file_path@
                &&& m.content@ == content@
                &&& m.outcome is None
                &&& m.parent is None
                &&& m.tree_id@.len() == 0
            },
            r matches Err(e) ==> (name_failure(user_id@, repo_name@) matches Some(failure)
                && e.is_failure(failure.0, failure.1)),
    {
        let repo_path = match self.resolve(user_id, repo_name) {
            Ok(path) => path,
            Err(e) => {
                return Err(e);
            },
        };
        proof {
            reveal_strlit("/");
            assert("/"@ =~= seq!['/']);
        }
        let full = joined3(repo_path.as_str(), "/", file_path);
        let mut staged: Vec<String> = Vec::new();
        staged.push(String::from_str(file_path));
        Ok(
            Mutation {
                kind: MutationKind::UpdateFile,
                repo_path,
                user_id: String::from_str(user_id),
                user_email: String::from_str(user_email),
                message: String::from_str(commit_message),
                paths: staged,
                file_path: full,
                content: String::from_str(content),
                phase: Phase::Open,
                tree_id: String::new(),
                parent: None,
                outcome: None,
            },
        )
    }
}

} // verus!
