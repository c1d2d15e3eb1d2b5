//! The command line of the upgrade: its arguments, and the order in which a
//! command asks for things to be done.
//!
//! A command is run as a conversation. It is given `Event::Begin` and answers
//! with a `Request`; the caller does what is requested, reports how it went
//! with the next `Event`, and so on until the request is one that ends the
//! command.

use crate::lifecycle::{
    delete_upgrade, job_name_of, may_delete, upgrade_job_name, DeleteDecision, JobState,
};
use vstd::prelude::*;

verus! {

/// What the user is told when the resources of an unfinished upgrade are kept.
pub const INCOMPLETE_JOB_DIAGNOSTIC: &'static str =
    "Can't delete an incomplete upgrade job. Please try with `--force` flag to forcefully remove upgrade resources";

/// Arguments common to all upgrade commands.
#[derive(Clone, Debug, PartialEq, Eq)]
pub struct UpgradeCommonArgs {
    pub namespace: String,
    pub kubeconfig: Option<String>,
    /// Helm release name for the openebs helm chart.
    pub release_name: Option<String>,
    /// Specify the container registry for the upgrade-job image.
    pub registry: Option<String>,
    /// Allow upgrade from stable versions to unstable versions.
    pub allow_unstable: bool,
    /// If set then upgrade will skip the io-engine pods restart.
    pub skip_data_plane_restart: bool,
    /// If set then it will continue with upgrade without validating single replica volume.
    pub skip_single_replica_volume_validation: bool,
    /// If set then upgrade will skip the replica rebuild in progress validation.
    pub skip_replica_rebuild: bool,
    /// If set then upgrade will skip the cordoned node validation.
    pub skip_cordoned_node_validation: bool,
    /// Upgrade to an unsupported version.
    pub skip_upgrade_path_validation_for_unsupported_version: bool,
    /// The set values on the command line.
    pub set: Vec<String>,
    /// The set values from respective files specified via the command line.
    pub set_file: Vec<String>,
    /// This is the helm storage driver, e.g. secret, configmap, memory, etc.
    pub helm_storage_driver: String,
}

/// `UpgradeCommonArgs` as specifications see them.
pub struct CommonArgsView {
    pub namespace: Seq<char>,
    pub kubeconfig: Option<Seq<char>>,
    pub release_name: Option<Seq<char>>,
    pub registry: Option<Seq<char>>,
    pub allow_unstable: bool,
    pub skip_data_plane_restart: bool,
    pub skip_single_replica_volume_validation: bool,
    pub skip_replica_rebuild: bool,
    pub skip_cordoned_node_validation: bool,
    pub skip_upgrade_path_validation_for_unsupported_version: bool,
    pub set: Seq<Seq<char>>,
    pub set_file: Seq<Seq<char>>,
    pub helm_storage_driver: Seq<char>,
}

impl View for UpgradeCommonArgs {
    type V = CommonArgsView;

    open spec fn view(&self) -> CommonArgsView {
        CommonArgsView {
            namespace: self.namespace@,
            kubeconfig: self.kubeconfig.deep_view(),
            release_name: self.release_name.deep_view(),
            registry: self.registry.deep_view(),
            allow_unstable: self.allow_unstable,
            skip_data_plane_restart: self.skip_data_plane_restart,
            skip_single_replica_volume_validation: self.skip_single_replica_volume_validation,
            skip_replica_rebuild: self.skip_replica_rebuild,
            skip_cordoned_node_validation: self.skip_cordoned_node_validation,
            skip_upgrade_path_validation_for_unsupported_version: self.skip_upgrade_path_validation_for_unsupported_version,
            set: self.set.deep_view(),
            set_file: self.set_file.deep_view(),
            helm_storage_driver: self.helm_storage_driver@,
        }
    }
}

/// Upgrade OpenEBS.
#[derive(Clone, Debug, PartialEq, Eq)]
pub struct Upgrade {
    pub cli_args: UpgradeCommonArgs,
    pub subcommand: Option<UpgradeSubcommand>,
}

#[derive(Clone, Copy, Debug, PartialEq, Eq, Structural)]
pub enum UpgradeSubcommand {
    /// Fetch the status of an ongoing upgrade.
    Status,
    /// Delete upgrade resources.
    Delete {
        /// Forcibly delete upgrade resources.
        force: bool,
    },
}

/// How far a command has come: what it is waiting to hear of.
#[derive(Clone, Debug, PartialEq, Eq)]
pub enum Progress {
    /// Nothing was asked for yet.
    Start,
    /// The release name is being looked up in the package manager's storage.
    AwaitingReleaseName,
    /// The preflight checks of this release are running.
    AwaitingPreflight { release_name: String },
    /// The upgrade is being applied.
    AwaitingUpgrade,
    /// The cluster is being asked for the upgrade job of this release.
    AwaitingJob { release_name: String },
    /// The resources of the upgrade are being deleted.
    AwaitingDeletion,
    /// The command has ended.
    Exited,
}

/// `Progress` as specifications see it.
pub enum ProgressView {
    Start,
    AwaitingReleaseName,
    AwaitingPreflight { release_name: Seq<char> },
    AwaitingUpgrade,
    AwaitingJob { release_name: Seq<char> },
    AwaitingDeletion,
    Exited,
}

impl View for Progress {
    type V = ProgressView;

    open spec fn view(&self) -> ProgressView {
        match self {
            Progress::Start => ProgressView::Start,
            Progress::AwaitingReleaseName => ProgressView::AwaitingReleaseName,
            Progress::AwaitingPreflight { release_name } => ProgressView::AwaitingPreflight {
                release_name: release_name@,
            },
            Progress::AwaitingUpgrade => ProgressView::AwaitingUpgrade,
            Progress::AwaitingJob { release_name } => ProgressView::AwaitingJob {
                release_name: release_name@,
            },
            Progress::AwaitingDeletion => ProgressView::AwaitingDeletion,
            Progress::Exited => ProgressView::Exited,
        }
    }
}

/// What the caller reports to a command.
#[derive(Clone, Debug, PartialEq, Eq)]
pub enum Event {
    /// The command is to start.
    Begin,
    /// The release name was found in the package manager's storage.
    ReleaseName(String),
    /// The cluster answered the question for the upgrade job.
    Job(JobState),
    /// What was requested has been done.
    Succeeded,
    /// What was requested failed.
    Failed,
}

/// An `Event` as specifications see it.
pub enum EventView {
    Begin,
    ReleaseName(Seq<char>),
    Job(JobState),
    Succeeded,
    Failed,
}

impl View for Event {
    type V = EventView;

    open spec fn view(&self) -> EventView {
        match self {
            Event::Begin => EventView::Begin,
            Event::ReleaseName(name) => EventView::ReleaseName(name@),
            Event::Job(state) => EventView::Job(*state),
            Event::Succeeded => EventView::Succeeded,
            Event::Failed => EventView::Failed,
        }
    }
}

/// What a command asks its caller to do.
#[derive(Clone, Debug, PartialEq, Eq)]
pub enum Request {
    /// Look the release name up in the package manager's storage.
    DiscoverReleaseName { namespace: String, helm_storage_driver: String },
    /// Run the preflight checks for this release.
    PreflightCheck { release_name: String },
    /// Apply the upgrade to this release.
    ApplyUpgrade { release_name: String },
    /// Ask the cluster for the job of this name.
    GetJob { namespace: String, name: String },
    /// Delete the upgrade job of this release and what depends on it.
    DeleteUpgradeResources { release_name: String, namespace: String },
    /// Print the state of the upgrade job and end the command as a success.
    ReportStatus(JobState),
    /// Print the diagnostic, delete nothing, and end the command as a success.
    Refuse { diagnostic: String },
    /// End the command as a success.
    Succeed,
    /// End the command as a failure.
    Fail,
}

/// A `Request` as specifications see it.
pub enum RequestView {
    DiscoverReleaseName { namespace: Seq<char>, helm_storage_driver: Seq<char> },
    PreflightCheck { release_name: Seq<char> },
    ApplyUpgrade { release_name: Seq<char> },
    GetJob { namespace: Seq<char>, name: Seq<char> },
    DeleteUpgradeResources { release_name: Seq<char>, namespace: Seq<char> },
    ReportStatus(JobState),
    Refuse { diagnostic: Seq<char> },
    Succeed,
    Fail,
}

impl View for Request {
    type V = RequestView;

    open spec fn view(&self) -> RequestView {
        match self {
            Request::DiscoverReleaseName {
                namespace,
                helm_storage_driver,
            } => RequestView::DiscoverReleaseName {
                namespace: namespace@,
                helm_storage_driver: helm_storage_driver@,
            },
            Request::PreflightCheck { release_name } => RequestView::PreflightCheck {
                release_name: release_name@,
            },
            Request::ApplyUpgrade { release_name } => RequestView::ApplyUpgrade {
                release_name: release_name@,
            },
            Request::GetJob { namespace, name } => RequestView::GetJob {
                namespace: namespace@,
                name: name@,
            },
            Request::DeleteUpgradeResources {
                release_name,
                namespace,
            } => RequestView::DeleteUpgradeResources {
                release_name: release_name@,
                namespace: namespace@,
            },
            Request::ReportStatus(state) => RequestView::ReportStatus(*state),
            Request::Refuse { diagnostic } => RequestView::Refuse { diagnostic: diagnostic@ },
            Request::Succeed => RequestView::Succeed,
            Request::Fail => RequestView::Fail,
        }
    }
}

impl RequestView {
    /// Whether the request ends the command.
    pub open spec fn is_final(self) -> bool {
        self is ReportStatus || self is Refuse || self is Succeed || self is Fail
    }

    /// Whether the request ends the command with exit code zero.
    pub open spec fn is_success(self) -> bool {
        self is ReportStatus || self is Refuse || self is Succeed
    }
}

/// The first request of a command: with the release name that was given, or,
/// where none was, the request to look it up.
pub open spec fn first_step(
    subcommand: Option<UpgradeSubcommand>,
    args: CommonArgsView,
) -> (ProgressView, RequestView) {
    match args.release_name {
        Some(release_name) => named_step(subcommand, args, release_name),
        None => (
            ProgressView::AwaitingReleaseName,
            RequestView::DiscoverReleaseName {
                namespace: args.namespace,
                helm_storage_driver: args.helm_storage_driver,
            },
        ),
    }
}

/// The request that follows once the release name is known: the preflight
/// checks for an upgrade, the question for the upgrade job for the others.
pub open spec fn named_step(
    subcommand: Option<UpgradeSubcommand>,
    args: CommonArgsView,
    release_name: Seq<char>,
) -> (ProgressView, RequestView) {
    match subcommand {
        None => (
            ProgressView::AwaitingPreflight { release_name },
            RequestView::PreflightCheck { release_name },
        ),
        Some(_) => (
            ProgressView::AwaitingJob { release_name },
            RequestView::GetJob { namespace: args.namespace, name: job_name_of(release_name) },
        ),
    }
}

/// The step that ends a command as a failure.
pub open spec fn failed_step() -> (ProgressView, RequestView) {
    (ProgressView::Exited, RequestView::Fail)
}

/// The step of the default command, the upgrade itself: the release name,
/// then the preflight checks, then the upgrade. A failure of any of them, and
/// any report that the command is not waiting for, ends it as a failure.
pub open spec fn upgrade_step(
    args: CommonArgsView,
    progress: ProgressView,
    event: EventView,
) -> (ProgressView, RequestView) {
    match (progress, event) {
        (ProgressView::Start, EventView::Begin) => first_step(None, args),
        (ProgressView::AwaitingReleaseName, EventView::ReleaseName(release_name)) => named_step(
            None,
            args,
            release_name,
        ),
        (ProgressView::AwaitingPreflight { release_name }, EventView::Succeeded) => (
            ProgressView::AwaitingUpgrade,
            RequestView::ApplyUpgrade { release_name },
        ),
        (ProgressView::AwaitingUpgrade, EventView::Succeeded) => (
            ProgressView::Exited,
            RequestView::Succeed,
        ),
        _ => failed_step(),
    }
}

/// The step of a subcommand: the release name, then the question for the
/// upgrade job. `Status` reports the state it is told, whichever it is.
/// `Delete` asks for the deletion where the state and the force flag allow
/// it, and refuses otherwise, which is no failure. A failure of what was
/// requested, and any report that the command is not waiting for, ends it as
/// a failure.
pub open spec fn subcommand_step(
    subcommand: UpgradeSubcommand,
    args: CommonArgsView,
    progress: ProgressView,
    event: EventView,
) -> (ProgressView, RequestView) {
    match (progress, event) {
        (ProgressView::Start, EventView::Begin) => first_step(Some(subcommand), args),
        (ProgressView::AwaitingReleaseName, EventView::ReleaseName(release_name)) => named_step(
            Some(subcommand),
            args,
            release_name,
        ),
        (ProgressView::AwaitingJob { release_name }, EventView::Job(state)) => match subcommand {
            UpgradeSubcommand::Status => (ProgressView::Exited, RequestView::ReportStatus(state)),
            UpgradeSubcommand::Delete { force } => if may_delete(state, force) {
                (
                    ProgressView::AwaitingDeletion,
                    RequestView::DeleteUpgradeResources { release_name, namespace: args.namespace },
                )
            } else {
                (
                    ProgressView::Exited,
                    RequestView::Refuse { diagnostic: INCOMPLETE_JOB_DIAGNOSTIC@ },
                )
            },
        },
        (ProgressView::AwaitingDeletion, EventView::Succeeded) => (
            ProgressView::Exited,
            RequestView::Succeed,
        ),
        _ => failed_step(),
    }
}

/// The step of a command: that of its subcommand, or, where it has none, that
/// of the upgrade.
pub open spec fn command_step(
    subcommand: Option<UpgradeSubcommand>,
    args: CommonArgsView,
    progress: ProgressView,
    event: EventView,
) -> (ProgressView, RequestView) {
    match subcommand {
        Some(subcommand) => subcommand_step(subcommand, args, progress, event),
        None => upgrade_step(args, progress, event),
    }
}

fn first_request(subcommand: Option<UpgradeSubcommand>, cli_args: &UpgradeCommonArgs) -> (step: (
    Progress,
    Request,
))
    ensures
        (step.0@, step.1@) == first_step(subcommand, cli_args@),
{
    match &cli_args.release_name {
        Some(release_name) => named_request(subcommand, cli_args, release_name.clone()),
        None => (
            Progress::AwaitingReleaseName,
            Request::DiscoverReleaseName {
                namespace: cli_args.namespace.clone(),
                helm_storage_driver: cli_args.helm_storage_driver.clone(),
            },
        ),
    }
}

fn named_request(
    subcommand: Option<UpgradeSubcommand>,
    cli_args: &UpgradeCommonArgs,
    release_name: String,
) -> (step: (Progress, Request))
    ensures
        (step.0@, step.1@) == named_step(subcommand, cli_args@, release_name@),
{
    match subcommand {
        None => (
            Progress::AwaitingPreflight { release_name: release_name.clone() },
            Request::PreflightCheck { release_name },
        ),
        Some(_) => {
            let name = upgrade_job_name(release_name.as_str());
            (
                Progress::AwaitingJob { release_name },
                Request::GetJob { namespace: cli_args.namespace.clone(), name },
            )
        },
    }
}

impl Upgrade {
    /// One step of the command: from how far it has come and what was
    /// reported, to where it stands then and what it asks for next.
    pub fn execute(&self, progress: Progress, event: Event) -> (step: (Progress, Request))
        ensures
            (step.0@, step.1@) == command_step(self.subcommand, self.cli_args@, progress@, event@),
    {
        match &self.subcommand {
            Some(subcommand) => subcommand.execute(&self.cli_args, progress, event),
            None => match (progress, event) {
                (Progress::Start, Event::Begin) => first_request(None, &self.cli_args),
                (Progress::AwaitingReleaseName, Event::ReleaseName(release_name)) => named_request(
                    None,
                    &self.cli_args,
                    release_name,
                ),
                (Progress::AwaitingPreflight { release_name }, Event::Succeeded) => (
                    Progress::AwaitingUpgrade,
                    Request::ApplyUpgrade { release_name },
                ),
                (Progress::AwaitingUpgrade, Event::Succeeded) => (
                    Progress::Exited,
                    Request::Succeed,
                ),
                _ => (Progress::Exited, Request::Fail),
            },
        }
    }
}

impl UpgradeSubcommand {
    /// One step of the subcommand: from how far it has come and what was
    /// reported, to where it stands then and what it asks for next.
    pub fn execute(&self, cli_args: &UpgradeCommonArgs, progress: Progress, event: Event) -> (step: (
        Progress,
        Request,
    ))
        ensures
            (step.0@, step.1@) == subcommand_step(*self, cli_args@, progress@, event@),
    {
        match (progress, event) {
            (Progress::Start, Event::Begin) => first_request(Some(*self), cli_args),
            (Progress::AwaitingReleaseName, Event::ReleaseName(release_name)) => named_request(
                Some(*self),
                cli_args,
                release_name,
            ),
            (Progress::AwaitingJob { release_name }, Event::Job(state)) => match self {
                // Perform a get status.
                UpgradeSubcommand::Status => (Progress::Exited, Request::ReportStatus(state)),
                UpgradeSubcommand::Delete { force } => match delete_upgrade(state, *force) {
                    DeleteDecision::Delete => (
                        Progress::AwaitingDeletion,
                        Request::DeleteUpgradeResources {
                            release_name,
                            namespace: cli_args.namespace.clone(),
                        },
                    ),
                    DeleteDecision::Refuse => (
                        Progress::Exited,
                        Request::Refuse { diagnostic: INCOMPLETE_JOB_DIAGNOSTIC.to_owned() },
                    ),
                },
            },
            (Progress::AwaitingDeletion, Event::Succeeded) => (Progress::Exited, Request::Succeed),
            _ => (Progress::Exited, Request::Fail),
        }
    }
}

/// Where a command stands after it was told `events`, one after the other,
/// from its start, and the requests it made on the way.
pub open spec fn command_run(
    subcommand: Option<UpgradeSubcommand>,
    args: CommonArgsView,
    events: Seq<EventView>,
) -> (ProgressView, Seq<RequestView>)
    decreases events.len(),
{
    if events.len() == 0 {
        (ProgressView::Start, Seq::empty())
    } else {
        let (progress, requests) = command_run(subcommand, args, events.drop_last());
        let (next, request) = command_step(subcommand, args, progress, events.last());
        (next, requests.push(request))
    }
}

/// How many of `requests` ask for the resources of an upgrade to be deleted.
pub open spec fn deletions_in(requests: Seq<RequestView>) -> nat
    decreases requests.len(),
{
    if requests.len() == 0 {
        0
    } else if requests.last() is DeleteUpgradeResources {
        deletions_in(requests.drop_last()) + 1
    } else {
        deletions_in(requests.drop_last())
    }
}

/// The guard on deletion. Told the state of the upgrade job, `Delete` without
/// force refuses where the job has not ended: it asks for no deletion, and
/// ends as a success with the diagnostic. Where the job has ended, and with
/// force in every state, that of no job at all among them, it asks for the
/// deletion, and ends as a success once that is done.
pub proof fn lemma_deletion_is_guarded(
    args: CommonArgsView,
    release_name: Seq<char>,
    state: JobState,
    force: bool,
)
    ensures
        ({
            let step = subcommand_step(
                UpgradeSubcommand::Delete { force },
                args,
                ProgressView::AwaitingJob { release_name },
                EventView::Job(state),
            );
            &&& !force && !state.is_terminal() ==> step == (
                ProgressView::Exited,
                RequestView::Refuse { diagnostic: INCOMPLETE_JOB_DIAGNOSTIC@ },
            ) && step.1.is_success()
            &&& force || state.is_terminal() ==> step == (
                ProgressView::AwaitingDeletion,
                RequestView::DeleteUpgradeResources { release_name, namespace: args.namespace },
            ) && subcommand_step(
                UpgradeSubcommand::Delete { force },
                args,
                step.0,
                EventView::Succeeded,
            ) == (ProgressView::Exited, RequestView::Succeed)
        }),
{
}

/// Whatever a command is told, it asks at most once for the resources of an
/// upgrade to be deleted: only `Delete` asks for it, only in answer to the
/// state of the upgrade job, and nothing that follows asks for it again.
pub proof fn lemma_deletion_is_requested_at_most_once(
    subcommand: Option<UpgradeSubcommand>,
    args: CommonArgsView,
    events: Seq<EventView>,
)
    ensures
        deletions_in(command_run(subcommand, args, events).1) <= 1,
        deletions_in(command_run(subcommand, args, events).1) == 1 ==> (subcommand matches Some(
            UpgradeSubcommand::Delete { .. },
        )) && (command_run(subcommand, args, events).0 is AwaitingDeletion || command_run(
            subcommand,
            args,
            events,
        ).0 is Exited),
    decreases events.len(),
{
    if events.len() > 0 {
        lemma_deletion_is_requested_at_most_once(subcommand, args, events.drop_last());
        let (progress, requests) = command_run(subcommand, args, events.drop_last());
        let (next, request) = command_step(subcommand, args, progress, events.last());
        assert(requests.push(request).drop_last() =~= requests);
    }
}

/// `Status` reports whatever state it is told, as a success: that there is no
/// upgrade job is reported as `Absent` and is no failure.
pub proof fn lemma_status_is_always_reported(
    args: CommonArgsView,
    release_name: Seq<char>,
    state: JobState,
)
    ensures
        subcommand_step(
            UpgradeSubcommand::Status,
            args,
            ProgressView::AwaitingJob { release_name },
            EventView::Job(state),
        ) == (ProgressView::Exited, RequestView::ReportStatus(state)),
        RequestView::ReportStatus(state).is_success(),
        JobState::of(None) == JobState::Absent,
{
}

} // verus!
