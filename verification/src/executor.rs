//! The upgrade executor: a state machine that hands out the entries of a plan
//! one at a time and stops at the first that fails.
//!
//! The machine does no work of its own. The caller carries out the action it
//! is given, reports how that ended, and is given the next one.

use crate::plan::{copy_args, UmbrellaUpgrader, UpgradePlan, UpgradePlanView};
use crate::policy::{ClusterSnapshot, PreAction, PreActionView};
use vstd::prelude::*;

verus! {

/// Why an upgrade stopped.
#[derive(Clone, Copy, Debug, PartialEq, Eq, Structural)]
pub enum UpgradeError {
    /// The validating invocation was refused: nothing has been changed.
    Validation,
    /// The change to the cluster at `index` failed: no real invocation was made.
    Precondition { index: usize },
    /// The real invocation at `index` failed: the release is as the
    /// invocation before it left it, and the later ones were not made.
    Invocation { index: usize },
    /// The upgrade was made, but the values of the release could not be read back.
    Deserialization,
}

/// How the action that the caller carried out ended.
#[derive(Clone, Copy, Debug, PartialEq, Eq, Structural)]
pub enum Outcome {
    Succeeded,
    Failed,
}

/// Where a run stands.
#[derive(Clone, Copy, Debug, PartialEq, Eq, Structural)]
pub enum Phase {
    /// The validating invocation is due.
    Validating,
    /// The change to the cluster at this index is due.
    PreAction(usize),
    /// The real invocation at this index is due.
    Invoking(usize),
    /// Every invocation succeeded; the values of the release are to be read back.
    Resolving,
    /// Everything succeeded.
    Completed,
    /// The run stopped, for this reason.
    Failed(UpgradeError),
}

/// What the caller is to do next.
#[derive(Clone, Debug, PartialEq, Eq)]
pub enum Action {
    /// Invoke the package manager with these arguments, to validate only.
    DryRun(Vec<String>),
    /// Make this change to the cluster.
    PreAction(PreAction),
    /// Invoke the package manager's upgrade with these arguments.
    Upgrade(Vec<String>),
    /// Fetch the values of the upgraded release and read them.
    ResolveValues,
    /// Nothing is left to do: the upgrade is complete.
    Finish,
    /// Nothing more may be done: the upgrade stopped, for this reason.
    Abort(UpgradeError),
}

/// An `Action` as specifications see it.
pub enum ActionView {
    DryRun(Seq<Seq<char>>),
    PreAction(PreActionView),
    Upgrade(Seq<Seq<char>>),
    ResolveValues,
    Finish,
    Abort(UpgradeError),
}

impl View for Action {
    type V = ActionView;

    open spec fn view(&self) -> ActionView {
        match self {
            Action::DryRun(args) => ActionView::DryRun(args.deep_view()),
            Action::PreAction(action) => ActionView::PreAction(action@),
            Action::Upgrade(args) => ActionView::Upgrade(args.deep_view()),
            Action::ResolveValues => ActionView::ResolveValues,
            Action::Finish => ActionView::Finish,
            Action::Abort(error) => ActionView::Abort(*error),
        }
    }
}

/// The phase in which the changes to the cluster from `index` on are due:
/// that of the change at `index`, or, where the plan has none there, that of
/// the first real invocation.
pub open spec fn from_pre_action(plan: UpgradePlanView, index: int) -> Phase {
    if 0 <= index < plan.pre_actions.len() {
        Phase::PreAction(index as usize)
    } else {
        from_invocation(plan, 0)
    }
}

/// The phase in which the real invocations from `index` on are due: that of
/// the invocation at `index`, or, where the plan has none there, the reading
/// back of the values.
pub open spec fn from_invocation(plan: UpgradePlanView, index: int) -> Phase {
    if 0 <= index < plan.invocations.len() {
        Phase::Invoking(index as usize)
    } else {
        Phase::Resolving
    }
}

/// A run as specifications see it: the plan, and where the run stands in it.
pub struct RunView {
    pub plan: UpgradePlanView,
    pub phase: Phase,
}

impl RunView {
    /// The run of `plan` before anything was done.
    pub open spec fn start(plan: UpgradePlanView) -> RunView {
        RunView { plan, phase: Phase::Validating }
    }

    /// The plan is well-formed, and every index that the phase holds is one of it.
    pub open spec fn well_formed(self) -> bool {
        &&& self.plan.well_formed()
        &&& match self.phase {
            Phase::PreAction(index) => index < self.plan.pre_actions.len(),
            Phase::Invoking(index) => index < self.plan.invocations.len(),
            Phase::Failed(UpgradeError::Precondition { index }) => index
                < self.plan.pre_actions.len(),
            Phase::Failed(UpgradeError::Invocation { index }) => index
                < self.plan.invocations.len(),
            _ => true,
        }
    }

    /// What the caller is to do in this state.
    pub open spec fn action(self) -> ActionView {
        match self.phase {
            Phase::Validating => ActionView::DryRun(self.plan.dry_run),
            Phase::PreAction(index) => ActionView::PreAction(self.plan.pre_actions[index as int]),
            Phase::Invoking(index) => ActionView::Upgrade(self.plan.invocations[index as int]),
            Phase::Resolving => ActionView::ResolveValues,
            Phase::Completed => ActionView::Finish,
            Phase::Failed(error) => ActionView::Abort(error),
        }
    }

    /// The state after the action of this state ended with `outcome`.
    ///
    /// A success moves on to the next entry of the plan; a failure stops the
    /// run for good, with the reason that belongs to the entry that failed.
    /// A run that is complete or has stopped stays as it is.
    pub open spec fn advance(self, outcome: Outcome) -> RunView {
        let phase = match (self.phase, outcome) {
            (Phase::Validating, Outcome::Succeeded) => from_pre_action(self.plan, 0),
            (Phase::Validating, Outcome::Failed) => Phase::Failed(UpgradeError::Validation),
            (Phase::PreAction(index), Outcome::Succeeded) => from_pre_action(
                self.plan,
                index + 1,
            ),
            (Phase::PreAction(index), Outcome::Failed) => Phase::Failed(
                UpgradeError::Precondition { index },
            ),
            (Phase::Invoking(index), Outcome::Succeeded) => from_invocation(
                self.plan,
                index + 1,
            ),
            (Phase::Invoking(index), Outcome::Failed) => Phase::Failed(
                UpgradeError::Invocation { index },
            ),
            (Phase::Resolving, Outcome::Succeeded) => Phase::Completed,
            (Phase::Resolving, Outcome::Failed) => Phase::Failed(UpgradeError::Deserialization),
            (Phase::Completed, _) => Phase::Completed,
            (Phase::Failed(error), _) => Phase::Failed(error),
        };
        RunView { plan: self.plan, phase }
    }

    /// The state after the actions from this state on ended with `outcomes`,
    /// one after the other.
    pub open spec fn after(self, outcomes: Seq<Outcome>) -> RunView
        decreases outcomes.len(),
    {
        if outcomes.len() == 0 {
            self
        } else {
            self.after(outcomes.drop_last()).advance(outcomes.last())
        }
    }

    /// Whether an action of the plan is due: the run neither completed nor stopped.
    pub open spec fn pending(self) -> bool {
        !(self.phase is Completed) && !(self.phase is Failed)
    }

    /// How many actions come before the one that is due, or that failed.
    pub open spec fn position(self) -> int {
        let changes = self.plan.pre_actions.len() as int;
        let invocations = self.plan.invocations.len() as int;
        match self.phase {
            Phase::Validating => 0,
            Phase::PreAction(index) => 1 + index,
            Phase::Invoking(index) => 1 + changes + index,
            Phase::Resolving => 1 + changes + invocations,
            Phase::Completed => 2 + changes + invocations,
            Phase::Failed(UpgradeError::Validation) => 0,
            Phase::Failed(UpgradeError::Precondition { index }) => 1 + index,
            Phase::Failed(UpgradeError::Invocation { index }) => 1 + changes + index,
            Phase::Failed(UpgradeError::Deserialization) => 1 + changes + invocations,
        }
    }
}

/// One upgrade in progress: a plan, and how far it has been carried out.
#[derive(Debug)]
pub struct UpgradeRun {
    plan: UpgradePlan,
    phase: Phase,
}

impl View for UpgradeRun {
    type V = RunView;

    closed spec fn view(&self) -> RunView {
        RunView { plan: self.plan@, phase: self.phase }
    }
}

impl UpgradeRun {
    #[verifier::type_invariant]
    spec fn indices_in_plan(self) -> bool {
        self@.well_formed()
    }

    /// A run of `plan` of which nothing has been done yet: the validating
    /// invocation is due.
    pub fn new(plan: UpgradePlan) -> (run: UpgradeRun)
        ensures
            run@ == RunView::start(plan@),
    {
        proof {
            plan.lemma_well_formed();
        }
        UpgradeRun { plan, phase: Phase::Validating }
    }

    /// The plan that is being carried out.
    pub fn plan(&self) -> (plan: &UpgradePlan)
        ensures
            plan@ == self@.plan,
    {
        &self.plan
    }

    /// Where the run stands.
    pub fn phase(&self) -> (phase: Phase)
        ensures
            phase == self@.phase,
            self@.well_formed(),
    {
        proof {
            use_type_invariant(self);
        }
        self.phase
    }

    /// What the caller is to do now.
    pub fn action(&self) -> (action: Action)
        ensures
            action@ == self@.action(),
    {
        proof {
            use_type_invariant(self);
        }
        match self.phase {
            Phase::Validating => Action::DryRun(copy_args(&self.plan.dry_run)),
            Phase::PreAction(index) => Action::PreAction(self.plan.pre_actions[index].duplicate()),
            Phase::Invoking(index) => Action::Upgrade(copy_args(&self.plan.invocations[index])),
            Phase::Resolving => Action::ResolveValues,
            Phase::Completed => Action::Finish,
            Phase::Failed(error) => Action::Abort(error),
        }
    }

    /// Records how the action that was due ended, and says what to do next.
    pub fn advance(&mut self, outcome: Outcome) -> (next: Action)
        ensures
            final(self)@ == old(self)@.advance(outcome),
            next@ == final(self)@.action(),
    {
        proof {
            use_type_invariant(&*self);
        }
        assert(self@.plan.pre_actions.len() == self.plan.pre_actions.len());
        assert(self@.plan.invocations.len() == self.plan.invocations.len());
        let phase = match (self.phase, outcome) {
            (Phase::Validating, Outcome::Succeeded) => self.pre_action_phase(0),
            (Phase::Validating, Outcome::Failed) => Phase::Failed(UpgradeError::Validation),
            (Phase::PreAction(index), Outcome::Succeeded) => self.pre_action_phase(index + 1),
            (Phase::PreAction(index), Outcome::Failed) => Phase::Failed(
                UpgradeError::Precondition { index },
            ),
            (Phase::Invoking(index), Outcome::Succeeded) => self.invocation_phase(index + 1),
            (Phase::Invoking(index), Outcome::Failed) => Phase::Failed(
                UpgradeError::Invocation { index },
            ),
            (Phase::Resolving, Outcome::Succeeded) => Phase::Completed,
            (Phase::Resolving, Outcome::Failed) => Phase::Failed(UpgradeError::Deserialization),
            (Phase::Completed, _) => Phase::Completed,
            (Phase::Failed(error), _) => Phase::Failed(error),
        };
        self.phase = phase;
        self.action()
    }

    fn pre_action_phase(&self, index: usize) -> (phase: Phase)
        ensures
            phase == from_pre_action(self@.plan, index as int),
    {
        if index < self.plan.pre_actions.len() {
            Phase::PreAction(index)
        } else {
            self.invocation_phase(0)
        }
    }

    fn invocation_phase(&self, index: usize) -> (phase: Phase)
        ensures
            phase == from_invocation(self@.plan, index as int),
    {
        if index < self.plan.invocations.len() {
            Phase::Invoking(index)
        } else {
            Phase::Resolving
        }
    }
}

impl UmbrellaUpgrader {
    /// Plans the upgrade against what was seen of the live cluster and opens
    /// its run. The first action of the run is the validating invocation;
    /// what changes the cluster or the release is handed out only after that
    /// one was reported as a success.
    pub fn dry_run(&self, snapshot: &ClusterSnapshot) -> (run: UpgradeRun)
        ensures
            run@ == RunView::start(self@.plan_for(*snapshot)),
            run@.action() == ActionView::DryRun(
                crate::plan::dry_run_of(self@.helm_upgrade_extra_args),
            ),
    {
        UpgradeRun::new(self.plan(snapshot))
    }
}

/// A run that has completed or stopped stays as it is, whatever is reported
/// to it: once an entry has failed, the only action ever handed out again is
/// the `Abort` with the reason of that failure.
pub proof fn lemma_stopped_run_stays_stopped(run: RunView, outcomes: Seq<Outcome>)
    requires
        !run.pending(),
    ensures
        run.after(outcomes) == run,
    decreases outcomes.len(),
{
    if outcomes.len() > 0 {
        lemma_stopped_run_stays_stopped(run, outcomes.drop_last());
    }
}

/// What the state of a run says of its past.
///
/// After any reports at all, the indices of the state are those of the plan.
/// Where an action is still due, every report so far was a success, and
/// there were exactly as many as there are entries before that action. Where
/// the run has stopped, the entry at which it stopped was reported as failed,
/// and every entry before it as a success. Where it has completed, every
/// entry of the plan was reported as a success.
pub proof fn lemma_run_history(plan: UpgradePlanView, outcomes: Seq<Outcome>)
    requires
        plan.well_formed(),
    ensures
        ({
            let run = RunView::start(plan).after(outcomes);
            &&& run.plan == plan
            &&& run.well_formed()
            &&& 0 <= run.position()
            &&& run.pending() ==> outcomes.len() == run.position()
            &&& run.phase is Failed ==> run.position() < outcomes.len()
                && outcomes[run.position()] is Failed
            &&& run.phase is Completed ==> run.position() <= outcomes.len()
            &&& forall|j: int|
                0 <= j < run.position() && j < outcomes.len() ==> outcomes[j] is Succeeded
        }),
    decreases outcomes.len(),
{
    if outcomes.len() > 0 {
        let earlier = outcomes.drop_last();
        lemma_run_history(plan, earlier);
        let before = RunView::start(plan).after(earlier);
        let run = before.advance(outcomes.last());
        assert forall|j: int| 0 <= j < run.position() && j < outcomes.len() implies outcomes[j]
            is Succeeded by {
            if j < earlier.len() {
                assert(outcomes[j] == earlier[j]);
            }
        }
        if run.phase is Failed && before.phase is Failed {
            assert(outcomes[run.position()] == earlier[run.position()]);
        }
    }
}

/// Once the real invocation at `failed` has been reported as failed, no later
/// invocation is ever due: at every moment of the run, the invocation that is
/// due, if one is, stands at `failed` or before it.
pub proof fn lemma_no_invocation_after_a_failed_one(
    plan: UpgradePlanView,
    outcomes: Seq<Outcome>,
    failed: int,
    moment: int,
)
    requires
        plan.well_formed(),
        0 <= failed < plan.invocations.len(),
        1 + plan.pre_actions.len() + failed < outcomes.len(),
        outcomes[1 + plan.pre_actions.len() + failed] is Failed,
        0 <= moment <= outcomes.len(),
    ensures
        RunView::start(plan).after(outcomes.take(moment)).phase matches Phase::Invoking(index)
            ==> index <= failed,
        !(RunView::start(plan).after(outcomes.take(moment)).phase is Resolving),
        !(RunView::start(plan).after(outcomes.take(moment)).phase is Completed),
{
    let seen = outcomes.take(moment);
    let at = 1 + plan.pre_actions.len() + failed;
    lemma_run_history(plan, seen);
    let run = RunView::start(plan).after(seen);
    if at < run.position() && at < seen.len() {
        assert(seen[at] == outcomes[at]);
    }
}

/// Where every entry before the real invocation at `failed` was reported as
/// a success and that invocation as failed, the run has stopped with the
/// error of that invocation, and it stays so whatever is reported later.
pub proof fn lemma_failed_invocation_stops_the_run(
    plan: UpgradePlanView,
    outcomes: Seq<Outcome>,
    failed: int,
)
    requires
        plan.well_formed(),
        0 <= failed < plan.invocations.len(),
        1 + plan.pre_actions.len() + failed < outcomes.len(),
        outcomes[1 + plan.pre_actions.len() + failed] is Failed,
        forall|j: int| 0 <= j < 1 + plan.pre_actions.len() + failed ==> outcomes[j] is Succeeded,
    ensures
        RunView::start(plan).after(outcomes).phase == Phase::Failed(
            UpgradeError::Invocation { index: failed as usize },
        ),
        RunView::start(plan).after(outcomes).action() == ActionView::Abort(
            UpgradeError::Invocation { index: failed as usize },
        ),
{
    let at = 1 + plan.pre_actions.len() + failed;
    lemma_run_history(plan, outcomes);
    let run = RunView::start(plan).after(outcomes);
    // The run cannot stand past the failed entry, and it cannot stand before it:
    // an entry before it would have to be the one that failed or the one due.
    assert(run.position() <= at);
    if run.position() < at {
        assert(outcomes[run.position()] is Succeeded);
    }
}

} // verus!
