//! Clone orchestrator: accepts a clone, keeps the state of each clone job,
//! and decides what has to happen when the clone itself has ended.
//!
//! The clone runs in the background, outside the request that asked for it.
//! The request only learns that the job was accepted; the outcome is
//! published through the notification hub.

use vstd::prelude::*;
use vstd::string::*;
use crate::error::{AppError, ErrorKind};
use crate::resolver::{is_safe_segment, name_failure, repo_path_spec, GitManager};
use crate::text::{joined3, first_index_of, lemma_first_index_of, lemma_first_index_of_bounds, str_eq};

verus! {

/// For how many seconds a clone may run before it counts as failed.
pub const CLONE_TIMEOUT_SECONDS: u64 = 600;

/// The state of a clone job.
#[derive(Clone, Copy, Debug, PartialEq, Eq, Structural)]
pub enum CloneStatus {
    NotStarted,
    Cloning,
    Completed,
    Failed,
}

/// The name of a state, as clients see it.
pub open spec fn status_text_spec(status: CloneStatus) -> Seq<char> {
    match status {
        CloneStatus::NotStarted => "NOT_STARTED"@,
        CloneStatus::Cloning => "CLONING"@,
        CloneStatus::Completed => "COMPLETED"@,
        CloneStatus::Failed => "FAILED"@,
    }
}

impl CloneStatus {
    /// The name of this state, as clients see it.
    pub fn as_str(&self) -> (text: &'static str)
        ensures
            text@ == status_text_spec(*self),
    {
        match self {
            CloneStatus::NotStarted => "NOT_STARTED",
            CloneStatus::Cloning => "CLONING",
            CloneStatus::Completed => "COMPLETED",
            CloneStatus::Failed => "FAILED",
        }
    }

    /// Whether a job in this state has ended.
    pub fn is_terminal(&self) -> (r: bool)
        ensures
            r == (*self == CloneStatus::Completed || *self == CloneStatus::Failed),
    {
        match self {
            CloneStatus::Completed => true,
            CloneStatus::Failed => true,
            _ => false,
        }
    }
}

/// A clone job: cloning `repo_url` into the directory `target_path` for the
/// repository `repo_name` of `owner_id`.
#[derive(Debug, Clone, PartialEq, Eq)]
pub struct CloneJob {
    pub owner_id: String,
    pub repo_name: String,
    pub repo_url: String,
    pub target_path: String,
    pub status: CloneStatus,
}

/// What has to happen once a clone has ended.
#[derive(Debug, Clone, PartialEq, Eq)]
pub struct CloneReport {
    /// The state in which the job ended: completed or failed.
    pub status: CloneStatus,
    /// Whether the target directory has to be removed: a failed clone must
    /// leave nothing behind.
    pub remove_directory: bool,
    /// The owner to notify.
    pub owner_id: String,
    /// The repository that the notification names.
    pub repo_name: String,
}

/// What looking at the disk gave for a clone.
#[derive(Debug, Clone, PartialEq, Eq)]
pub struct CloneProbe {
    /// Whether the target directory exists.
    pub repo_exists: bool,
    /// Whether it opens as a repository.
    pub repo_opens: bool,
    /// Whether a status file lies beside it.
    pub status_file_exists: bool,
    /// The text of the status file, where it could be read.
    pub status_file_text: Option<String>,
}

/// The state of a clone as the disk shows it. The directory decides: one
/// that opens as a repository is a completed clone, one that does not is a
/// failed clone. Where there is no directory, no clone was started, unless a
/// status file beside it says that one is under way. What else a status file
/// says counts for nothing.
pub open spec fn probed_status(probe: CloneProbe) -> CloneStatus {
    if probe.repo_exists {
        if probe.repo_opens {
            CloneStatus::Completed
        } else {
            CloneStatus::Failed
        }
    } else if probe.status_file_exists && (probe.status_file_text matches Some(text) && text@
        == "CLONING"@) {
        CloneStatus::Cloning
    } else {
        CloneStatus::NotStarted
    }
}

/// A job as the orchestrator knows it.
pub struct JobView {
    /// The owner that the clone is for.
    pub owner: Seq<char>,
    /// The name of the repository.
    pub repo: Seq<char>,
    /// Where the repository is cloned from.
    pub url: Seq<char>,
    pub status: CloneStatus,
}

/// The jobs that the orchestrator knows, by target directory.
#[derive(Debug, PartialEq, Eq)]
pub struct CloneOrchestrator {
    jobs: Vec<CloneJob>,
}

/// The target directories of the jobs, in order.
spec fn targets(jobs: Seq<CloneJob>) -> Seq<Seq<char>> {
    Seq::new(jobs.len(), |i: int| jobs[i].target_path@)
}

/// What is known of a job.
spec fn view_of(job: CloneJob) -> JobView {
    JobView { owner: job.owner_id@, repo: job.repo_name@, url: job.repo_url@, status: job.status }
}

/// The first job for `target`, if there is one.
spec fn job_for(jobs: Seq<CloneJob>, target: Seq<char>) -> Option<JobView> {
    let at = first_index_of(targets(jobs), target);
    if 0 <= at < jobs.len() {
        Some(view_of(jobs[at]))
    } else {
        None
    }
}

/// Replacing one job changes what is known of its target and of no other
/// target.
proof fn lemma_job_replace(
    before: Seq<CloneJob>,
    after: Seq<CloneJob>,
    at: int,
    target: Seq<char>,
)
    requires
        0 <= at < before.len(),
        at == first_index_of(targets(before), before[at].target_path@),
        after.len() == before.len(),
        forall|k: int| 0 <= k < before.len() && k != at ==> after[k] == before[k],
        after[at].target_path@ == before[at].target_path@,
    ensures
        job_for(after, before[at].target_path@) == Some(view_of(after[at])),
        target != before[at].target_path@ ==> job_for(after, target) == job_for(before, target),
{
    assert(targets(after) =~= targets(before));
    lemma_first_index_of_bounds(targets(before), target);
    if target != before[at].target_path@ {
        let found = first_index_of(targets(before), target);
        if found < before.len() {
            assert(targets(before)[found] == target);
            assert(found != at);
        }
    }
}

/// A new job behind the others makes itself known for its target and
/// changes what is known of no other target.
proof fn lemma_job_push(before: Seq<CloneJob>, added: CloneJob, target: Seq<char>)
    requires
        first_index_of(targets(before), added.target_path@) == before.len(),
    ensures
        job_for(before.push(added), added.target_path@) == Some(view_of(added)),
        target != added.target_path@ ==> job_for(before.push(added), target) == job_for(
            before,
            target,
        ),
{
    let after = before.push(added);
    let names = targets(before);
    let names_after = targets(after);
    assert(names_after =~= names.push(added.target_path@));
    lemma_first_index_of_bounds(names, added.target_path@);
    lemma_first_index_of(names_after, added.target_path@, names.len() as int);
    if target != added.target_path@ {
        lemma_first_index_of_bounds(names, target);
        let found = first_index_of(names, target);
        if found < names.len() {
            lemma_first_index_of(names_after, target, found);
            assert(after[found] == before[found]);
        } else {
            lemma_first_index_of(names_after, target, names_after.len() as int);
        }
    }
}

impl CloneOrchestrator {
    /// What the orchestrator knows of the clone into the directory
    /// `target_path`: whom it is for, what it clones, and how far it is;
    /// nothing where no such clone was ever accepted.
    pub closed spec fn job(&self, target_path: Seq<char>) -> Option<JobView> {
        job_for(self.jobs@, target_path)
    }

    /// The state of the clone into the directory `target_path`; not started
    /// where the orchestrator knows no such clone.
    pub open spec fn status_of(&self, target_path: Seq<char>) -> CloneStatus {
        match self.job(target_path) {
            Some(job) => job.status,
            None => CloneStatus::NotStarted,
        }
    }

    /// An orchestrator without jobs.
    pub fn new() -> (jobs: CloneOrchestrator)
        ensures
            forall|target: Seq<char>| jobs.job(target) is None,
            forall|target: Seq<char>| jobs.status_of(target) == CloneStatus::NotStarted,
    {
        let jobs = CloneOrchestrator { jobs: Vec::new() };
        assert forall|target: Seq<char>| jobs.job(target) is None by {
            lemma_first_index_of_bounds(targets(jobs.jobs@), target);
        }
        jobs
    }

    /// The position of the job for `target_path`.
    fn find(&self, target_path: &str) -> (r: Option<usize>)
        ensures
            0 <= first_index_of(targets(self.jobs@), target_path@) <= self.jobs.len(),
            r is Some <==> first_index_of(targets(self.jobs@), target_path@) < self.jobs.len(),
            r matches Some(at) ==> at == first_index_of(targets(self.jobs@), target_path@)
                && self.jobs[at as int].target_path@ == target_path@,
    {
        let mut i: usize = 0;
        while i < self.jobs.len()
            invariant
                i <= self.jobs.len(),
                forall|k: int| 0 <= k < i ==> targets(self.jobs@)[k] != target_path@,
            decreases self.jobs.len() - i,
        {
            if str_eq(self.jobs[i].target_path.as_str(), target_path) {
                proof {
                    lemma_first_index_of(targets(self.jobs@), target_path@, i as int);
                }
                return Some(i);
            }
            i += 1;
        }
        proof {
            lemma_first_index_of(targets(self.jobs@), target_path@, i as int);
        }
        None
    }

    /// The state of the clone into the directory `target_path`.
    pub fn status(&self, target_path: &str) -> (status: CloneStatus)
        ensures
            status == self.status_of(target_path@),
    {
        match self.find(target_path) {
            Some(at) => self.jobs[at].status,
            None => CloneStatus::NotStarted,
        }
    }

    /// Records that the clone described by `job` is under way.
    fn start(&mut self, job: CloneJob)
        requires
            job.status == CloneStatus::Cloning,
        ensures
            final(self).job(job.target_path@) == Some(
                JobView {
                    owner: job.owner_id@,
                    repo: job.repo_name@,
                    url: job.repo_url@,
                    status: CloneStatus::Cloning,
                },
            ),
            forall|target: Seq<char>|
                target != job.target_path@ ==> final(self).job(target) == old(self).job(target),
    {
        let ghost before = self.jobs@;
        match self.find(job.target_path.as_str()) {
            Some(at) => {
                let ghost key = job.target_path@;
                let slot = &mut self.jobs[at];
                *slot = job;
                proof {
                    assert forall|target: Seq<char>| target != key implies (job_for(
                        self.jobs@,
                        target,
                    ) == #[trigger] job_for(before, target)) by {
                        lemma_job_replace(before, self.jobs@, at as int, target);
                    }
                    lemma_job_replace(before, self.jobs@, at as int, key);
                }
            },
            None => {
                proof {
                    assert forall|target: Seq<char>| target != job.target_path@ implies (job_for(
                        before.push(job),
                        target,
                    ) == #[trigger] job_for(before, target)) by {
                        lemma_job_push(before, job, target);
                    }
                    lemma_job_push(before, job, job.target_path@);
                }
                self.jobs.push(job);
            },
        }
    }

    /// Ends the clone into `target_path`, which went well or did not, and
    /// says what has to happen now: a clone that went well is completed; one
    /// that did not is failed, and what it left of the target directory has
    /// to be removed. The report names the owner and the repository that the
    /// clone was accepted for. Only a clone under way can end, so a clone
    /// ends once: for any other target nothing changes and there is nothing
    /// to report.
    pub fn complete(&mut self, target_path: &str, succeeded: bool, directory_exists: bool) -> (r:
        Option<CloneReport>)
        ensures
            r is Some <==> old(self).status_of(target_path@) == CloneStatus::Cloning,
            r matches Some(report) ==> {
                &&& report.status == (if succeeded {
                    CloneStatus::Completed
                } else {
                    CloneStatus::Failed
                })
                &&& report.remove_directory == (!succeeded && directory_exists)
                &&& old(self).job(target_path@) matches Some(job) && report.owner_id@ == job.owner
                    && report.repo_name@ == job.repo && final(self).job(target_path@) == Some(
                    JobView { status: report.status, ..job },
                )
            },
            r is None ==> final(self).job(target_path@) == old(self).job(target_path@),
            forall|target: Seq<char>|
                target != target_path@ ==> final(self).job(target) == old(self).job(target),
    {
        let ghost before = self.jobs@;
        let at = match self.find(target_path) {
            Some(at) => at,
            None => {
                return None;
            },
        };
        match self.jobs[at].status {
            CloneStatus::Cloning => {},
            _ => {
                return None;
            },
        }
        let status = if succeeded {
            CloneStatus::Completed
        } else {
            CloneStatus::Failed
        };
        let report = CloneReport {
            status,
            remove_directory: !succeeded && directory_exists,
            owner_id: self.jobs[at].owner_id.clone(),
            repo_name: self.jobs[at].repo_name.clone(),
        };
        let slot = &mut self.jobs[at];
        slot.status = status;
        proof {
            assert forall|target: Seq<char>| target != target_path@ implies (job_for(
                self.jobs@,
                target,
            ) == #[trigger] job_for(before, target)) by {
                lemma_job_replace(before, self.jobs@, at as int, target);
            }
            lemma_job_replace(before, self.jobs@, at as int, target_path@);
        }
        Some(report)
    }
}

/// The state of a clone as the disk shows it.
pub fn probe_status(probe: &CloneProbe) -> (status: CloneStatus)
    ensures
        status == probed_status(*probe),
{
    if probe.repo_exists {
        if probe.repo_opens {
            CloneStatus::Completed
        } else {
            CloneStatus::Failed
        }
    } else {
        let under_way = probe.status_file_exists && match &probe.status_file_text {
            Some(text) => str_eq(text.as_str(), "CLONING"),
            None => false,
        };
        if under_way {
            CloneStatus::Cloning
        } else {
            CloneStatus::NotStarted
        }
    }
}

/// Why a clone is not accepted, if it is not: a name leaves the owner's
/// namespace, or the repository already exists: its directory is there, or
/// a clone into it is under way.
pub open spec fn clone_failure(
    user_id: Seq<char>,
    repo_name: Seq<char>,
    target_exists: bool,
    status: CloneStatus,
) -> Option<(ErrorKind, Seq<char>)> {
    if !is_safe_segment(user_id) {
        Some((ErrorKind::BadRequest, "Invalid owner id: "@ + user_id))
    } else if !is_safe_segment(repo_name) {
        Some((ErrorKind::BadRequest, "Invalid repository name: "@ + repo_name))
    } else if target_exists || status == CloneStatus::Cloning {
        Some(
            (
                ErrorKind::AlreadyExists,
                "Repository "@ + repo_name + " already exists for user "@ + user_id,
            ),
        )
    } else {
        None
    }
}

/// While a clone into a repository is under way, a second clone into the
/// same repository is refused at once, whether or not the first has created
/// the directory yet.
pub proof fn lemma_second_clone_is_refused(
    user_id: Seq<char>,
    repo_name: Seq<char>,
    target_exists: bool,
)
    requires
        is_safe_segment(user_id),
        is_safe_segment(repo_name),
    ensures
        clone_failure(user_id, repo_name, target_exists, CloneStatus::Cloning) matches Some(
            failure,
        ) && failure.0 == ErrorKind::AlreadyExists,
{
}

impl GitManager {
    /// Accepts a clone of `repo_url` into the repository `repo_name` of
    /// `user_id`, from whether the target directory exists. An accepted clone
    /// is recorded as under way and acknowledged; the clone itself is left to
    /// the caller, who reports its end to the orchestrator.
    pub fn clone_repository_for_user(
        &self,
        user_id: &str,
        repo_url: &str,
        repo_name: &str,
        target_exists: bool,
        jobs: &mut CloneOrchestrator,
    ) -> (r: Result<String, AppError>)
        ensures
            match clone_failure(
                user_id@,
                repo_name@,
                target_exists,
                old(jobs).status_of(repo_path_spec(self.base(), user_id@, repo_name@)),
            ) {
                Some(failure) => {
                    &&& r matches Err(e) && e.is_failure(failure.0, failure.1)
                    &&& forall|target: Seq<char>| final(jobs).job(target) == old(jobs).job(target)
                },
                None => {
                    &&& r matches Ok(ack) && ack@ == "Repository clone started: "@ + user_id@
                        + seq!['/'] + repo_name@
                    &&& final(jobs).job(repo_path_spec(self.base(), user_id@, repo_name@))
                        == Some(
                        JobView {
                            owner: user_id@,
                            repo: repo_name@,
                            url: repo_url@,
                            status: CloneStatus::Cloning,
                        },
                    )
                    &&& forall|target: Seq<char>|
                        target != repo_path_spec(self.base(), user_id@, repo_name@)
                            ==> final(jobs).job(target) == old(jobs).job(target)
                },
            },
    {
        let target_path = match self.resolve(user_id, repo_name) {
            Ok(path) => path,
            Err(e) => {
                return Err(e);
            },
        };
        let under_way = match jobs.status(target_path.as_str()) {
            CloneStatus::Cloning => true,
            _ => false,
        };
        if target_exists || under_way {
            let mut reason = joined3("Repository ", repo_name, " already exists for user ");
            reason.append(user_id);
            return Err(AppError::AlreadyExists(reason));
        }
        jobs.start(
            CloneJob {
                owner_id: String::from_str(user_id),
                repo_name: String::from_str(repo_name),
                repo_url: String::from_str(repo_url),
                target_path,
                status: CloneStatus::Cloning,
            },
        );
        proof {
            reveal_strlit("/");
            assert("/"@ =~= seq!['/']);
        }
        let mut ack = joined3("Repository clone started: ", user_id, "/");
        ack.append(repo_name);
        Ok(ack)
    }

    /// Where the status file of a clone lies: beside the repository's
    /// directory, under its name with `.cloning` behind it.
    pub fn clone_status_path(&self, user_id: &str, repo_name: &str) -> (r: Result<
        String,
        AppError,
    >)
        ensures
            r is Ok <==> name_failure(user_id@, repo_name@) is None,
            r matches Ok(path) ==> path@ == repo_path_spec(self.base(), user_id@, repo_name@)
                + ".cloning"@,
            r matches Err(e) ==> (name_failure(user_id@, repo_name@) matches Some(failure)
                && e.is_failure(failure.0, failure.1)),
    {
        match self.resolve(user_id, repo_name) {
            Ok(mut path) => {
                path.append(".cloning");
                Ok(path)
            },
            Err(e) => Err(e),
        }
    }

    /// The state of a clone as the disk shows it, by its name: one of
    /// `NOT_STARTED`, `CLONING`, `COMPLETED` and `FAILED`.
    pub fn check_clone_status(&self, probe: &CloneProbe) -> (r: Result<String, AppError>)
        ensures
            r matches Ok(status) && status@ == status_text_spec(probed_status(*probe)),
    {
        Ok(String::from_str(probe_status(probe).as_str()))
    }
}

} // verus!
