//! The upgrade lifecycle tracker: the job that stands for an upgrade in the
//! cluster, what its state is, and when its resources may be deleted.

use vstd::prelude::*;

verus! {

/// The component name of the upgrade job.
pub const UPGRADE_JOB_COMPONENT: &'static str = "upgrade";

/// What stands between a release name and a component name.
pub const NAME_SEPARATOR: &'static str = "-";

/// How far a job that exists has come.
#[derive(Clone, Copy, Debug, PartialEq, Eq, Structural)]
pub enum CompletionState {
    Pending,
    Running,
    Succeeded,
    Failed,
}

/// The job that stands for an upgrade, as the cluster holds it.
#[derive(Clone, Debug, PartialEq, Eq)]
pub struct UpgradeJobRecord {
    pub name: String,
    pub namespace: String,
    pub completion_state: CompletionState,
}

/// The state of the upgrade job of a release: that of the job, or `Absent`
/// where the cluster holds no such job.
#[derive(Clone, Copy, Debug, PartialEq, Eq, Structural)]
pub enum JobState {
    Pending,
    Running,
    Succeeded,
    Failed,
    Absent,
}

impl JobState {
    /// A terminal state: the job has ended, well or badly, and will not go on.
    pub open spec fn is_terminal(self) -> bool {
        self == JobState::Succeeded || self == JobState::Failed
    }

    /// The state that a record of the cluster stands for; no record is `Absent`.
    pub open spec fn of(record: Option<UpgradeJobRecord>) -> JobState {
        match record {
            Some(job) => match job.completion_state {
                CompletionState::Pending => JobState::Pending,
                CompletionState::Running => JobState::Running,
                CompletionState::Succeeded => JobState::Succeeded,
                CompletionState::Failed => JobState::Failed,
            },
            None => JobState::Absent,
        }
    }
}

/// The name of a resource of a release: the release name, a hyphen, the
/// name of the component.
pub open spec fn name_of(release_name: Seq<char>, component_name: Seq<char>) -> Seq<char> {
    release_name + NAME_SEPARATOR@ + component_name
}

/// The name of the upgrade job of a release.
pub open spec fn job_name_of(release_name: Seq<char>) -> Seq<char> {
    name_of(release_name, UPGRADE_JOB_COMPONENT@)
}

/// Whether the resources of an upgrade job in `state` may be deleted: where
/// the job has ended, and in every state where `force` is given.
pub open spec fn may_delete(state: JobState, force: bool) -> bool {
    state.is_terminal() || force
}

/// The name of a resource of a release: the release name, a hyphen, the
/// name of the component.
pub fn upgrade_name_concat(release_name: &str, component_name: &str) -> (name: String)
    ensures
        name@ == name_of(release_name@, component_name@),
{
    release_name.to_owned().concat(NAME_SEPARATOR).concat(component_name)
}

/// The name of the upgrade job of a release. It depends on the release name alone.
pub fn upgrade_job_name(release_name: &str) -> (name: String)
    ensures
        name@ == job_name_of(release_name@),
{
    upgrade_name_concat(release_name, UPGRADE_JOB_COMPONENT)
}

/// The state to report for what the cluster answered to the question for the
/// upgrade job. That there is no job is a state of its own, not an error.
pub fn upgrade_status(record: &Option<UpgradeJobRecord>) -> (state: JobState)
    ensures
        state == JobState::of(*record),
        record is None <==> state == JobState::Absent,
{
    match record {
        Some(job) => match job.completion_state {
            CompletionState::Pending => JobState::Pending,
            CompletionState::Running => JobState::Running,
            CompletionState::Succeeded => JobState::Succeeded,
            CompletionState::Failed => JobState::Failed,
        },
        None => JobState::Absent,
    }
}

/// Whether the upgrade job has ended, well or badly.
pub fn upgrade_job_completed(state: JobState) -> (completed: bool)
    ensures
        completed == state.is_terminal(),
{
    match state {
        JobState::Succeeded | JobState::Failed => true,
        JobState::Pending | JobState::Running | JobState::Absent => false,
    }
}

/// What to do with a request to delete the resources of an upgrade.
#[derive(Clone, Copy, Debug, PartialEq, Eq, Structural)]
pub enum DeleteDecision {
    /// Delete the job and what depends on it. Where there is no job, that
    /// deletes nothing and is a success all the same.
    Delete,
    /// Delete nothing, and tell the user to ask again with force.
    Refuse,
}

/// Decides a request to delete the resources of an upgrade whose job is in
/// `state`. The resources of a job that has not ended are kept unless `force`
/// is given: without them a later question for the state of the upgrade
/// would find none, while the release may still be changing.
pub fn delete_upgrade(state: JobState, force: bool) -> (decision: DeleteDecision)
    ensures
        decision == if may_delete(state, force) {
            DeleteDecision::Delete
        } else {
            DeleteDecision::Refuse
        },
{
    if upgrade_job_completed(state) || force {
        DeleteDecision::Delete
    } else {
        DeleteDecision::Refuse
    }
}

} // verus!
