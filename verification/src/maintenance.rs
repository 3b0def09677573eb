//! Operations on a repository as a whole: pulling a branch from `origin`,
//! renaming and deleting the repository.

use vstd::prelude::*;
use vstd::string::*;
use crate::error::{AppError, ErrorKind};
use crate::refs::HeadRead;
use crate::resolver::{is_safe_segment, name_failure, repo_path_spec, GitManager};
use crate::text::{joined, joined3, str_eq};

verus! {

/// The name of the remote that a pull fetches from.
pub open spec fn remote_name_spec() -> Seq<char> {
    "origin"@
}

/// The remote-tracking reference of a branch: `refs/remotes/origin/{branch}`.
pub open spec fn remote_ref_spec(branch: Seq<char>) -> Seq<char> {
    "refs/remotes/origin/"@ + branch
}

/// The reference of a local branch: `refs/heads/{branch}`.
pub open spec fn local_ref_spec(branch: Seq<char>) -> Seq<char> {
    "refs/heads/"@ + branch
}

/// The reference-log message of a pull.
pub open spec fn pull_log_spec(branch: Seq<char>, target: Seq<char>) -> Seq<char> {
    "Fast-forward pull of '"@ + branch + "' to "@ + target
}

/// The step that a pull waits for.
#[derive(Clone, Copy, Debug, PartialEq, Eq, Structural)]
pub enum PullPhase {
    /// Opening the repository.
    Open,
    /// Resolving `HEAD`, where no branch was named.
    ResolveHead,
    /// Finding the remote `origin`.
    FindRemote,
    /// Fetching the branch from the remote.
    Fetch,
    /// Finding the remote-tracking reference and its target.
    FindReference,
    /// Moving the local branch to the target, by force.
    UpdateReference,
    /// Checking out `HEAD`, by force.
    Checkout,
    /// Nothing: the pull has ended.
    Finished,
}

/// What the caller has to do for the step that a pull waits for.
#[derive(Debug, Clone, PartialEq, Eq)]
pub enum PullAction {
    OpenRepository { path: String },
    ResolveHead,
    FindRemote { name: String },
    Fetch { branch: String },
    FindReference { name: String },
    /// Creates or moves the reference `name` to `target`, overwriting what is
    /// there.
    UpdateReference { name: String, target: String, log_message: String },
    /// Makes the working tree match `HEAD`, overwriting what differs.
    CheckoutHead,
}

/// What a step of a pull gave.
#[derive(Debug, Clone, PartialEq, Eq)]
pub enum PullEvent {
    /// The step went well and has nothing to report.
    Done,
    /// What resolving `HEAD` gave.
    Head { head: HeadRead },
    /// The reference was found: the commit it points to, if it points to one.
    Target { id: Option<String> },
    /// The step failed: the fault's text.
    Failed { detail: String },
}

/// A pull under way.
#[derive(Debug, PartialEq, Eq)]
pub struct Pull {
    /// The directory of the repository.
    pub repo_path: String,
    /// The branch to pull, once it is known: the one that was named, or the
    /// one that `HEAD` is attached to.
    pub branch: Option<String>,
    pub phase: PullPhase,
    /// The commit that the remote-tracking reference points to, once found.
    pub target: String,
    /// How the pull ended, once it has.
    pub outcome: Option<Result<(), AppError>>,
}

/// The place of a phase in the order of the steps.
pub open spec fn pull_phase_order(phase: PullPhase) -> int {
    match phase {
        PullPhase::Open => 0,
        PullPhase::ResolveHead => 1,
        PullPhase::FindRemote => 2,
        PullPhase::Fetch => 3,
        PullPhase::FindReference => 4,
        PullPhase::UpdateReference => 5,
        PullPhase::Checkout => 6,
        PullPhase::Finished => 7,
    }
}

/// The text of an optional owned string: empty where there is none.
pub open spec fn owned_text(s: Option<String>) -> Seq<char> {
    match s {
        Some(t) => t@,
        None => Seq::empty(),
    }
}

impl Pull {
    /// The branch to pull, as characters; empty as long as it is not known.
    pub open spec fn branch_text(self) -> Seq<char> {
        owned_text(self.branch)
    }

    /// Whether `action` is what the pull waits for.
    pub open spec fn awaits(self, action: PullAction) -> bool {
        match self.phase {
            PullPhase::Open => action matches PullAction::OpenRepository { path } && path@
                == self.repo_path@,
            PullPhase::ResolveHead => action is ResolveHead,
            PullPhase::FindRemote => action matches PullAction::FindRemote { name } && name@
                == remote_name_spec(),
            PullPhase::Fetch => action matches PullAction::Fetch { branch } && branch@
                == self.branch_text(),
            PullPhase::FindReference => action matches PullAction::FindReference { name }
                && name@ == remote_ref_spec(self.branch_text()),
            PullPhase::UpdateReference => action matches PullAction::UpdateReference {
                name,
                target,
                log_message,
            } && name@ == local_ref_spec(self.branch_text()) && target@ == self.target@
                && log_message@ == pull_log_spec(self.branch_text(), self.target@),
            PullPhase::Checkout => action is CheckoutHead,
            PullPhase::Finished => false,
        }
    }

    /// The branch that an attached `HEAD` names, if `head` is one.
    pub open spec fn attached_branch(head: HeadRead) -> Option<String> {
        match head {
            HeadRead::Resolved { is_branch, shorthand, .. } => if is_branch {
                shorthand
            } else {
                None
            },
            HeadRead::Failed { .. } => None,
        }
    }

    /// The phase that follows when the step awaited gave `event`.
    pub open spec fn next_phase(self, event: PullEvent) -> PullPhase {
        match self.phase {
            PullPhase::Open => if event is Done {
                if self.branch is Some {
                    PullPhase::FindRemote
                } else {
                    PullPhase::ResolveHead
                }
            } else {
                PullPhase::Finished
            },
            PullPhase::ResolveHead => if event matches PullEvent::Head { head }
                && Self::attached_branch(head) is Some {
                PullPhase::FindRemote
            } else {
                PullPhase::Finished
            },
            PullPhase::FindRemote => if event is Done {
                PullPhase::Fetch
            } else {
                PullPhase::Finished
            },
            PullPhase::Fetch => if event is Done {
                PullPhase::FindReference
            } else {
                PullPhase::Finished
            },
            PullPhase::FindReference => if event matches PullEvent::Target { id: Some(_) } {
                PullPhase::UpdateReference
            } else {
                PullPhase::Finished
            },
            PullPhase::UpdateReference => if event is Done {
                PullPhase::Checkout
            } else {
                PullPhase::Finished
            },
            PullPhase::Checkout => PullPhase::Finished,
            PullPhase::Finished => PullPhase::Finished,
        }
    }

    /// What stands before the fault's text where the step awaited fails.
    pub open spec fn failure_label(self) -> Seq<char> {
        match self.phase {
            PullPhase::Open => "Failed to open repository: "@,
            PullPhase::ResolveHead => "Failed to get HEAD: "@,
            PullPhase::FindRemote => "Failed to find remote: "@,
            PullPhase::Fetch => "Failed to fetch: "@,
            PullPhase::FindReference => "Failed to find remote reference: "@,
            PullPhase::UpdateReference => "Failed to update reference: "@,
            PullPhase::Checkout => "Failed to checkout HEAD: "@,
            PullPhase::Finished => Seq::empty(),
        }
    }

    /// The kind of the failure that ends the pull on `event`.
    pub open spec fn failure_kind(self, event: PullEvent) -> ErrorKind {
        if self.phase is Open && event is Failed {
            ErrorKind::NotFound
        } else if self.phase is ResolveHead && (event matches PullEvent::Head {
            head: HeadRead::Resolved { is_branch, .. },
        } && !is_branch) {
            ErrorKind::BadRequest
        } else {
            ErrorKind::InternalServerError
        }
    }

    /// The reason of the failure that ends the pull on `event`.
    pub open spec fn failure_text(self, event: PullEvent) -> Seq<char> {
        match event {
            PullEvent::Failed { detail } => self.failure_label() + detail@,
            PullEvent::Head { head } => if self.phase is ResolveHead {
                match head {
                    HeadRead::Failed { detail, .. } => "Failed to get HEAD: "@ + detail@,
                    HeadRead::Resolved { .. } => "HEAD is not a branch"@,
                }
            } else {
                "Unexpected outcome of a step"@
            },
            PullEvent::Target { .. } => if self.phase is FindReference {
                "Failed to get target OID"@
            } else {
                "Unexpected outcome of a step"@
            },
            PullEvent::Done => "Unexpected outcome of a step"@,
        }
    }

    /// Whether `post` is the pull after the step that `self` awaited gave
    /// `event`.
    pub open spec fn steps_to(self, event: PullEvent, post: Pull) -> bool {
        &&& post.repo_path == self.repo_path
        &&& post.phase == self.next_phase(event)
        &&& post.branch == (if self.phase is ResolveHead && post.phase is FindRemote {
            Self::attached_branch(event->head)
        } else {
            self.branch
        })
        &&& post.target == (if self.phase is FindReference && post.phase is UpdateReference {
            event->id->0
        } else {
            self.target
        })
        &&& if self.phase is Finished || !(post.phase is Finished) {
            post.outcome == self.outcome
        } else if self.phase is Checkout && event is Done {
            post.outcome == Some(Ok::<(), AppError>(()))
        } else {
            post.outcome matches Some(Err(e)) && e.is_failure(
                self.failure_kind(event),
                self.failure_text(event),
            )
        }
    }

    /// What the caller has to do next; `None` once the pull has ended.
    pub fn pending(&self) -> (r: Option<PullAction>)
        ensures
            r is None <==> self.phase is Finished,
            r matches Some(action) ==> self.awaits(action),
    {
        let branch: &str = match &self.branch {
            Some(b) => b.as_str(),
            None => "",
        };
        proof {
            reveal_strlit("");
            assert(branch@ =~= self.branch_text());
        }
        match self.phase {
            PullPhase::Open => Some(PullAction::OpenRepository { path: self.repo_path.clone() }),
            PullPhase::ResolveHead => Some(PullAction::ResolveHead),
            PullPhase::FindRemote => Some(
                PullAction::FindRemote { name: String::from_str("origin") },
            ),
            PullPhase::Fetch => Some(PullAction::Fetch { branch: String::from_str(branch) }),
            PullPhase::FindReference => Some(
                PullAction::FindReference { name: joined("refs/remotes/origin/", branch) },
            ),
            PullPhase::UpdateReference => {
                let mut log_message = joined3("Fast-forward pull of '", branch, "' to ");
                log_message.append(self.target.as_str());
                Some(
                    PullAction::UpdateReference {
                        name: joined("refs/heads/", branch),
                        target: self.target.clone(),
                        log_message,
                    },
                )
            },
            PullPhase::Checkout => Some(PullAction::CheckoutHead),
            PullPhase::Finished => None,
        }
    }

    /// What stands before the fault's text where the step awaited fails.
    fn label(&self) -> (label: &'static str)
        ensures
            label@ == self.failure_label(),
    {
        proof {
            reveal_strlit("");
            assert(""@ =~= Seq::<char>::empty());
        }
        match self.phase {
            PullPhase::Open => "Failed to open repository: ",
            PullPhase::ResolveHead => "Failed to get HEAD: ",
            PullPhase::FindRemote => "Failed to find remote: ",
            PullPhase::Fetch => "Failed to fetch: ",
            PullPhase::FindReference => "Failed to find remote reference: ",
            PullPhase::UpdateReference => "Failed to update reference: ",
            PullPhase::Checkout => "Failed to checkout HEAD: ",
            PullPhase::Finished => "",
        }
    }

    /// Ends the pull with a failure.
    fn fail(&mut self, e: AppError)
        ensures
            final(self).repo_path == old(self).repo_path,
            final(self).branch == old(self).branch,
            final(self).target == old(self).target,
            final(self).phase is Finished,
            final(self).outcome == Some(Err::<(), AppError>(e)),
    {
        self.phase = PullPhase::Finished;
        self.outcome = Some(Err(e));
    }

    /// Ends the pull because the step awaited cannot have given what was
    /// reported.
    fn unexpected(&mut self)
        ensures
            final(self).repo_path == old(self).repo_path,
            final(self).branch == old(self).branch,
            final(self).target == old(self).target,
            final(self).phase is Finished,
            final(self).outcome matches Some(Err(e)) && e.is_failure(
                ErrorKind::InternalServerError,
                "Unexpected outcome of a step"@,
            ),
    {
        self.fail(AppError::InternalServerError(String::from_str("Unexpected outcome of a step")));
    }

    /// Takes what the step awaited gave and moves on: to the next step, or to
    /// the end. Once the pull has ended nothing changes it.
    pub fn advance(&mut self, event: PullEvent)
        ensures
            old(self).steps_to(event, *final(self)),
    {
        if let PullPhase::Finished = self.phase {
            return ;
        }
        if let PullEvent::Failed { detail } = &event {
            let kind = match self.phase {
                PullPhase::Open => ErrorKind::NotFound,
                _ => ErrorKind::InternalServerError,
            };
            let e = AppError::with_detail(kind, self.label(), detail.as_str());
            self.fail(e);
            return ;
        }
        match self.phase {
            PullPhase::Open => match event {
                PullEvent::Done => {
                    self.phase = if self.branch.is_some() {
                        PullPhase::FindRemote
                    } else {
                        PullPhase::ResolveHead
                    };
                },
                _ => {
                    self.unexpected();
                },
            },
            PullPhase::ResolveHead => match event {
                PullEvent::Head { head } => match head {
                    HeadRead::Failed { detail, .. } => {
                        self.fail(
                            AppError::with_detail(
                                ErrorKind::InternalServerError,
                                "Failed to get HEAD: ",
                                detail.as_str(),
                            ),
                        );
                    },
                    HeadRead::Resolved { is_branch, shorthand, .. } => {
                        if !is_branch {
                            self.fail(
                                AppError::BadRequest(String::from_str("HEAD is not a branch")),
                            );
                        } else {
                            match shorthand {
                                Some(name) => {
                                    self.branch = Some(name);
                                    self.phase = PullPhase::FindRemote;
                                },
                                None => {
                                    self.fail(
                                        AppError::InternalServerError(
                                            String::from_str("HEAD is not a branch"),
                                        ),
                                    );
                                },
                            }
                        }
                    },
                },
                _ => {
                    self.unexpected();
                },
            },
            PullPhase::FindRemote => match event {
                PullEvent::Done => {
                    self.phase = PullPhase::Fetch;
                },
                _ => {
                    self.unexpected();
                },
            },
            PullPhase::Fetch => match event {
                PullEvent::Done => {
                    self.phase = PullPhase::FindReference;
                },
                _ => {
                    self.unexpected();
                },
            },
            PullPhase::FindReference => match event {
                PullEvent::Target { id } => match id {
                    Some(id) => {
                        self.target = id;
                        self.phase = PullPhase::UpdateReference;
                    },
                    None => {
                        self.fail(
                            AppError::InternalServerError(
                                String::from_str("Failed to get target OID"),
                            ),
                        );
                    },
                },
                _ => {
                    self.unexpected();
                },
            },
            PullPhase::UpdateReference => match event {
                PullEvent::Done => {
                    self.phase = PullPhase::Checkout;
                },
                _ => {
                    self.unexpected();
                },
            },
            PullPhase::Checkout => match event {
                PullEvent::Done => {
                    self.phase = PullPhase::Finished;
                    self.outcome = Some(Ok(()));
                },
                _ => {
                    self.unexpected();
                },
            },
            PullPhase::Finished => {},
        }
    }

    /// How the pull ended. A pull that has not ended has not succeeded.
    pub fn into_result(self) -> (r: Result<(), AppError>)
        ensures
            match self.outcome {
                Some(outcome) => r == outcome,
                None => r matches Err(e) && e.is_failure(
                    ErrorKind::InternalServerError,
                    "Operation has not finished"@,
                ),
            },
    {
        match self.outcome {
            Some(outcome) => outcome,
            None => Err(
                AppError::InternalServerError(String::from_str("Operation has not finished")),
            ),
        }
    }
}

/// The phases that a pull passes through when every step goes well, in
/// order: the repository is opened, `HEAD` is resolved where no branch was
/// named, the remote is found, the branch is fetched, the remote-tracking
/// reference is found, the local branch is moved to its target, and `HEAD` is
/// checked out.
pub open spec fn pull_script(named: bool) -> Seq<PullPhase> {
    let opening = if named {
        seq![PullPhase::Open]
    } else {
        seq![PullPhase::Open, PullPhase::ResolveHead]
    };
    opening + seq![
        PullPhase::FindRemote,
        PullPhase::Fetch,
        PullPhase::FindReference,
        PullPhase::UpdateReference,
        PullPhase::Checkout,
        PullPhase::Finished,
    ]
}

/// Whether `event` says that the step awaited in `phase` went well.
pub open spec fn pull_went_well(phase: PullPhase, event: PullEvent) -> bool {
    match phase {
        PullPhase::ResolveHead => event matches PullEvent::Head { head } && Pull::attached_branch(
            head,
        ) is Some,
        PullPhase::FindReference => event matches PullEvent::Target { id: Some(_) },
        PullPhase::Finished => false,
        _ => event is Done,
    }
}

/// A pull whose steps all go well passes through the phases of its script,
/// one after the other, and ends well. `named` says whether the pull was
/// asked for a branch by name.
pub proof fn lemma_pull_follows_script(
    pre: Pull,
    event: PullEvent,
    post: Pull,
    named: bool,
    at: int,
)
    requires
        0 <= at < pull_script(named).len() - 1,
        pre.phase == pull_script(named)[at],
        pre.phase is Open ==> named == (pre.branch is Some),
        pull_went_well(pre.phase, event),
        pre.steps_to(event, post),
    ensures
        post.phase == pull_script(named)[at + 1],
        post.phase is Finished ==> post.outcome == Some(Ok::<(), AppError>(())),
{
    let opening = if named {
        seq![PullPhase::Open]
    } else {
        seq![PullPhase::Open, PullPhase::ResolveHead]
    };
    let closing = seq![
        PullPhase::FindRemote,
        PullPhase::Fetch,
        PullPhase::FindReference,
        PullPhase::UpdateReference,
        PullPhase::Checkout,
        PullPhase::Finished,
    ];
    let all = opening + closing;
    let o = opening.len() as int;
    if at < o - 1 {
        assert(all[at] == opening[at]);
        assert(all[at + 1] == opening[at + 1]);
    } else if at == o - 1 {
        assert(all[at] == opening[at]);
        assert(all[at + 1] == closing[0]);
    } else {
        assert(all[at] == closing[at - o]);
        assert(all[at + 1] == closing[at - o + 1]);
    }
}

/// A failed step ends the pull at once, with a failure that names the step
/// and carries the fault's text; no further step is asked for.
pub proof fn lemma_pull_failure_aborts(pre: Pull, detail: String, post: Pull)
    requires
        !(pre.phase is Finished),
        pre.steps_to(PullEvent::Failed { detail }, post),
    ensures
        post.phase is Finished,
        post.outcome matches Some(Err(e)) && e.text() == pre.failure_label() + detail@,
        forall|action: PullAction| !post.awaits(action),
{
}

/// Every step moves a pull forward in the order of its steps: the branch is
/// fetched before the local branch is moved, and the local branch is moved
/// before the working tree is checked out.
pub proof fn lemma_pull_moves_forward(pre: Pull, event: PullEvent, post: Pull)
    requires
        !(pre.phase is Finished),
        pre.steps_to(event, post),
    ensures
        pull_phase_order(post.phase) > pull_phase_order(pre.phase),
{
}

/// The local branch is moved to exactly the commit that the remote-tracking
/// reference of the same branch points to.
pub proof fn lemma_pull_moves_branch_to_target(
    pre: Pull,
    id: String,
    post: Pull,
    action: PullAction,
)
    requires
        pre.phase is FindReference,
        pre.steps_to(PullEvent::Target { id: Some(id) }, post),
        post.awaits(action),
    ensures
        action matches PullAction::UpdateReference { name, target, .. } && target@ == id@ && name@
            == local_ref_spec(pre.branch_text()),
{
}

/// What renaming a repository asks of the caller.
#[derive(Debug, Clone, PartialEq, Eq)]
pub enum RenamePlan {
    /// Nothing: the repository already has the name.
    Nothing,
    /// Moving the directory `from` to `to`, in one step.
    Move { from: String, to: String },
}

/// Why a repository cannot be renamed, if it cannot.
pub open spec fn rename_failure(
    user_id: Seq<char>,
    repo_name: Seq<char>,
    new_name: Seq<char>,
    source_exists: bool,
    target_exists: bool,
) -> Option<(ErrorKind, Seq<char>)> {
    if !is_safe_segment(user_id) {
        Some((ErrorKind::BadRequest, "Invalid owner id: "@ + user_id))
    } else if !is_safe_segment(repo_name) {
        Some((ErrorKind::BadRequest, "Invalid repository name: "@ + repo_name))
    } else if !is_safe_segment(new_name) {
        Some((ErrorKind::BadRequest, "Invalid repository name: "@ + new_name))
    } else if !source_exists {
        Some((ErrorKind::NotFound, "Repository not found: "@ + repo_name))
    } else if repo_name == new_name {
        None
    } else if target_exists {
        Some(
            (
                ErrorKind::AlreadyExists,
                "A repository with the name '"@ + new_name + "' already exists"@,
            ),
        )
    } else {
        None
    }
}

impl GitManager {
    /// Starts pulling a branch of a repository from `origin`: the named
    /// branch, or the one that `HEAD` is attached to. Names that leave the
    /// owner's namespace are a bad request.
    pub fn pull_repo(&self, user_id: &str, repo_name: &str, branch: Option<&str>) -> (r: Result<
        Pull,
        AppError,
    >)
        ensures
            r is Ok <==> name_failure(user_id@, repo_name@) is None,
            r matches Ok(pull) ==> {
                &&& pull.phase == PullPhase::Open
                &&& pull.repo_path@ == repo_path_spec(self.base(), user_id@, repo_name@)
                &&& (pull.branch is Some <==> branch is Some)
                &&& (branch matches Some(b) ==> pull.branch_text() == b@)
                &&& pull.outcome is None
                &&& pull.target@.len() == 0
            },
            r matches Err(e) ==> (name_failure(user_id@, repo_name@) matches Some(failure)
                && e.is_failure(failure.0, failure.1)),
    {
        let repo_path = match self.resolve(user_id, repo_name) {
            Ok(path) => path,
            Err(e) => {
                return Err(e);
            },
        };
        Ok(
            Pull {
                repo_path,
                branch: match branch {
                    Some(b) => Some(String::from_str(b)),
                    None => None,
                },
                phase: PullPhase::Open,
                target: String::new(),
                outcome: None,
            },
        )
    }

    /// Decides how to rename a repository, from whether its directory and
    /// the one of the new name exist. A repository that is not there is not
    /// found; renaming to the same name asks for nothing; a new name that is
    /// taken already exists; otherwise the directory is to be moved.
    pub fn update_repo_data(
        &self,
        user_id: &str,
        repo_name: &str,
        new_name: &str,
        source_exists: bool,
        target_exists: bool,
    ) -> (r: Result<RenamePlan, AppError>)
        ensures
            match rename_failure(user_id@, repo_name@, new_name@, source_exists, target_exists) {
                Some(failure) => r matches Err(e) && e.is_failure(failure.0, failure.1),
                None => r matches Ok(plan) && if repo_name@ == new_name@ {
                    plan is Nothing
                } else {
                    plan matches RenamePlan::Move { from, to } && from@ == repo_path_spec(
                        self.base(),
                        user_id@,
                        repo_name@,
                    ) && to@ == repo_path_spec(self.base(), user_id@, new_name@)
                },
            },
    {
        let from = match self.resolve(user_id, repo_name) {
            Ok(path) => path,
            Err(e) => {
                return Err(e);
            },
        };
        let to = match self.resolve(user_id, new_name) {
            Ok(path) => path,
            Err(e) => {
                return Err(e);
            },
        };
        if !source_exists {
            return Err(
                AppError::with_detail(ErrorKind::NotFound, "Repository not found: ", repo_name),
            );
        }
        if str_eq(repo_name, new_name) {
            return Ok(RenamePlan::Nothing);
        }
        if target_exists {
            return Err(
                AppError::new(
                    ErrorKind::AlreadyExists,
                    joined3("A repository with the name '", new_name, "' already exists"),
                ),
            );
        }
        Ok(RenamePlan::Move { from, to })
    }

    /// Reports how moving the directory of a renamed repository went.
    /// `failure` is the fault's text where it did not go well.
    pub fn rename_outcome(&self, failure: Option<&str>) -> (r: Result<(), AppError>)
        ensures
            r is Ok <==> failure is None,
            r matches Err(e) ==> e.is_failure(
                ErrorKind::InternalServerError,
                "Failed to rename repository: "@ + failure->0@,
            ),
    {
        match failure {
            None => Ok(()),
            Some(detail) => Err(
                AppError::with_detail(
                    ErrorKind::InternalServerError,
                    "Failed to rename repository: ",
                    detail,
                ),
            ),
        }
    }

    /// Reports how deleting a repository went, from whether its directory is
    /// still there after the removal: it went well exactly if the directory
    /// is gone, whether it was removed or was never there.
    pub fn del_repo(&self, repo_name: &str, exists_after: bool) -> (r: Result<(), AppError>)
        ensures
            r is Ok <==> !exists_after,
            r matches Err(e) ==> e.is_failure(
                ErrorKind::InternalServerError,
                "Failed to delete repository: "@ + repo_name@,
            ),
    {
        if exists_after {
            Err(
                AppError::with_detail(
                    ErrorKind::InternalServerError,
                    "Failed to delete repository: ",
                    repo_name,
                ),
            )
        } else {
            Ok(())
        }
    }
}

/// Renaming a repository that exists to the name it has succeeds and asks
/// for nothing to be done, whatever else is on disk.
pub proof fn lemma_rename_to_same_name_is_noop(
    user_id: Seq<char>,
    repo_name: Seq<char>,
    target_exists: bool,
)
    requires
        is_safe_segment(user_id),
        is_safe_segment(repo_name),
    ensures
        rename_failure(user_id, repo_name, repo_name, true, target_exists) is None,
{
}

} // verus!
