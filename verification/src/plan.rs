//! The step planner: from an upgrade request and a snapshot of the cluster to
//! the ordered list of what the upgrade has to do.

use crate::policy::{
    applicable_rules, rules_for, ClusterSnapshot, MigrationRule, PreAction, PreActionView,
    ETCD_JOB_DISABLED, ETCD_JOB_ENABLED, SET_FLAG,
};
use crate::version::{precedes, release_4_0_0, Version};
use vstd::prelude::*;

verus! {

/// The flag that makes an invocation of the package manager validate only.
pub const DRY_RUN_FLAG: &'static str = "--dry-run";

/// An upgrade of one release of the umbrella chart, as it was requested.
#[derive(Debug)]
pub struct UmbrellaUpgrader {
    /// Where the chart of the target version lies.
    pub chart_dir: String,
    pub release_name: String,
    pub namespace: String,
    /// Arguments handed to every invocation of the package manager, as given.
    pub helm_upgrade_extra_args: Vec<String>,
    pub source_version: Version,
    pub target_version: Version,
}

/// An `UmbrellaUpgrader` as specifications see it.
pub struct UpgraderView {
    pub chart_dir: Seq<char>,
    pub release_name: Seq<char>,
    pub namespace: Seq<char>,
    pub helm_upgrade_extra_args: Seq<Seq<char>>,
    pub source_version: Version,
    pub target_version: Version,
}

impl View for UmbrellaUpgrader {
    type V = UpgraderView;

    open spec fn view(&self) -> UpgraderView {
        UpgraderView {
            chart_dir: self.chart_dir@,
            release_name: self.release_name@,
            namespace: self.namespace@,
            helm_upgrade_extra_args: self.helm_upgrade_extra_args.deep_view(),
            source_version: self.source_version,
            target_version: self.target_version,
        }
    }
}

/// What an upgrade has to do, in order: the validating invocation, then the
/// changes to the cluster, then the real invocations.
#[derive(Clone, Debug, PartialEq, Eq)]
pub struct UpgradePlan {
    /// The arguments of the validating invocation, which changes nothing.
    pub dry_run: Vec<String>,
    /// The changes to make before the first real invocation.
    pub pre_actions: Vec<PreAction>,
    /// The arguments of each real invocation.
    pub invocations: Vec<Vec<String>>,
}

/// An `UpgradePlan` as specifications see it.
pub struct UpgradePlanView {
    pub dry_run: Seq<Seq<char>>,
    pub pre_actions: Seq<PreActionView>,
    pub invocations: Seq<Seq<Seq<char>>>,
}

impl View for UpgradePlan {
    type V = UpgradePlanView;

    open spec fn view(&self) -> UpgradePlanView {
        UpgradePlanView {
            dry_run: self.dry_run.deep_view(),
            pre_actions: self.pre_actions.deep_view(),
            invocations: self.invocations.deep_view(),
        }
    }
}

/// One entry of a plan.
#[derive(Clone, Debug, PartialEq, Eq)]
pub enum Step {
    /// Invoke the package manager with these arguments, to validate only.
    DryRun(Vec<String>),
    /// Make this change to the cluster.
    PreAction(PreAction),
    /// Invoke the package manager's upgrade with these arguments.
    Upgrade(Vec<String>),
}

/// A `Step` as specifications see it.
pub enum StepView {
    DryRun(Seq<Seq<char>>),
    PreAction(PreActionView),
    Upgrade(Seq<Seq<char>>),
}

impl View for Step {
    type V = StepView;

    open spec fn view(&self) -> StepView {
        match self {
            Step::DryRun(args) => StepView::DryRun(args.deep_view()),
            Step::PreAction(action) => StepView::PreAction(action@),
            Step::Upgrade(args) => StepView::Upgrade(args.deep_view()),
        }
    }
}

impl DeepView for Step {
    type V = StepView;

    open spec fn deep_view(&self) -> StepView {
        self@
    }
}

/// The arguments of the validating invocation: the given ones, then the flag.
pub open spec fn dry_run_of(extra: Seq<Seq<char>>) -> Seq<Seq<char>> {
    extra.push(DRY_RUN_FLAG@)
}

/// Each override set with the given arguments in front of it.
pub open spec fn combined(extra: Seq<Seq<char>>, sets: Seq<Seq<Seq<char>>>) -> Seq<
    Seq<Seq<char>>,
> {
    Seq::new(sets.len(), |i: int| extra + sets[i])
}

/// The changes that `rules` ask for before the upgrade, in the order of the rules.
pub open spec fn pre_actions_of(
    rules: Seq<MigrationRule>,
    release_name: Seq<char>,
    namespace: Seq<char>,
) -> Seq<PreActionView>
    decreases rules.len(),
{
    if rules.len() == 0 {
        Seq::empty()
    } else {
        let earlier = pre_actions_of(rules.drop_last(), release_name, namespace);
        match rules.last().pre_action_for(release_name, namespace) {
            Some(action) => earlier.push(action),
            None => earlier,
        }
    }
}

/// The invocations that `rules` contribute, in the order of the rules. A rule
/// whose condition on the live cluster does not hold contributes none.
pub open spec fn contributed_invocations(
    rules: Seq<MigrationRule>,
    extra: Seq<Seq<char>>,
    snapshot: ClusterSnapshot,
) -> Seq<Seq<Seq<char>>>
    decreases rules.len(),
{
    if rules.len() == 0 {
        Seq::empty()
    } else {
        let earlier = contributed_invocations(rules.drop_last(), extra, snapshot);
        if rules.last().live_condition(snapshot) {
            earlier + combined(extra, rules.last().override_sets())
        } else {
            earlier
        }
    }
}

/// The plan that `rules` make of a request. Where no rule contributes an
/// invocation, the one invocation carries the given arguments unchanged.
pub open spec fn planned(
    rules: Seq<MigrationRule>,
    release_name: Seq<char>,
    namespace: Seq<char>,
    extra: Seq<Seq<char>>,
    snapshot: ClusterSnapshot,
) -> UpgradePlanView {
    let contributed = contributed_invocations(rules, extra, snapshot);
    UpgradePlanView {
        dry_run: dry_run_of(extra),
        pre_actions: pre_actions_of(rules, release_name, namespace),
        invocations: if contributed.len() == 0 {
            seq![extra]
        } else {
            contributed
        },
    }
}

impl UpgradePlanView {
    /// Whether the plan is one that an `UpgradePlan` can hold: its entries can
    /// be counted in a `usize`.
    pub open spec fn well_formed(self) -> bool {
        self.pre_actions.len() <= usize::MAX && self.invocations.len() <= usize::MAX
    }

    /// The entries of the plan in the order in which they are carried out.
    pub open spec fn steps(self) -> Seq<StepView> {
        seq![StepView::DryRun(self.dry_run)] + Seq::new(
            self.pre_actions.len(),
            |i: int| StepView::PreAction(self.pre_actions[i]),
        ) + Seq::new(self.invocations.len(), |i: int| StepView::Upgrade(self.invocations[i]))
    }
}

impl UpgraderView {
    /// The plan of this upgrade, said directly: the legacy stateful set is
    /// deleted where the source version lies in the range of that rule; the
    /// upgrade is made twice, with the Etcd pre-upgrade job off and then on,
    /// where the source version is of the third major line or older and no
    /// Etcd pod was found; otherwise it is made once with the given arguments.
    pub open spec fn plan_for(self, snapshot: ClusterSnapshot) -> UpgradePlanView {
        let extra = self.helm_upgrade_extra_args;
        UpgradePlanView {
            dry_run: extra.push(DRY_RUN_FLAG@),
            pre_actions: if MigrationRule::LegacyLogStore.applies_to(self.source_version) {
                seq![
                    PreActionView::DeleteLegacyStatefulSet {
                        release_name: self.release_name,
                        namespace: self.namespace,
                    },
                ]
            } else {
                Seq::empty()
            },
            invocations: if MigrationRule::EtcdPreUpgradeJob.applies_to(self.source_version)
                && snapshot.etcd_pods == 0 {
                seq![
                    extra + seq![SET_FLAG@, ETCD_JOB_DISABLED@],
                    extra + seq![SET_FLAG@, ETCD_JOB_ENABLED@],
                ]
            } else {
                seq![extra]
            },
        }
    }
}

/// A copy of `args`.
pub fn copy_args(args: &Vec<String>) -> (copy: Vec<String>)
    ensures
        copy.deep_view() == args.deep_view(),
{
    let mut copy: Vec<String> = Vec::new();
    let mut i: usize = 0;
    while i < args.len()
        invariant
            i <= args.len(),
            copy.len() == i,
            forall|j: int| 0 <= j < i ==> copy@[j]@ == args@[j]@,
        decreases args.len() - i,
    {
        copy.push(args[i].clone());
        i += 1;
    }
    copy
}

/// The arguments `extra`, followed by the arguments `more`.
pub fn join_args(extra: &Vec<String>, more: &Vec<String>) -> (joined: Vec<String>)
    ensures
        joined.deep_view() == extra.deep_view() + more.deep_view(),
{
    let mut joined = copy_args(extra);
    let mut i: usize = 0;
    while i < more.len()
        invariant
            i <= more.len(),
            joined.deep_view() == extra.deep_view() + more.deep_view().take(i as int),
        decreases more.len() - i,
    {
        let ghost before = joined.deep_view();
        joined.push(more[i].clone());
        assert(joined.deep_view() =~= before.push(more@[i as int]@));
        i += 1;
    }
    joined
}

/// The arguments of the validating invocation: `extra`, then the dry-run flag.
pub fn dry_run_args(extra: &Vec<String>) -> (args: Vec<String>)
    ensures
        args.deep_view() == dry_run_of(extra.deep_view()),
{
    let mut args = copy_args(extra);
    args.push(DRY_RUN_FLAG.to_owned());
    args
}

/// The plan that `rules`, taken in their order, make of a request.
///
/// Each rule adds its change to the cluster, if it has one. Each rule whose
/// condition on the live cluster holds adds one invocation for each of its
/// override sets, with `extra` in front. Where that leaves no invocation, the
/// upgrade is made once with `extra` alone.
pub fn plan_from_rules(
    rules: &Vec<MigrationRule>,
    release_name: &str,
    namespace: &str,
    extra: &Vec<String>,
    snapshot: &ClusterSnapshot,
) -> (plan: UpgradePlan)
    ensures
        plan@ == planned(rules@, release_name@, namespace@, extra.deep_view(), *snapshot),
{
    let mut pre_actions: Vec<PreAction> = Vec::new();
    let mut invocations: Vec<Vec<String>> = Vec::new();
    let mut i: usize = 0;
    while i < rules.len()
        invariant
            i <= rules.len(),
            pre_actions.deep_view() == pre_actions_of(
                rules@.take(i as int),
                release_name@,
                namespace@,
            ),
            invocations.deep_view() == contributed_invocations(
                rules@.take(i as int),
                extra.deep_view(),
                *snapshot,
            ),
        decreases rules.len() - i,
    {
        let rule = rules[i];
        assert(rules@.take(i + 1).drop_last() =~= rules@.take(i as int));
        match rule.pre_action(release_name, namespace) {
            Some(action) => {
                pre_actions.push(action);
            },
            None => {},
        }
        if rule.live_condition_holds(snapshot) {
            let sets = rule.upgrade_overrides();
            let ghost before = invocations.deep_view();
            let mut k: usize = 0;
            while k < sets.len()
                invariant
                    k <= sets.len(),
                    invocations.deep_view() == before + combined(
                        extra.deep_view(),
                        sets.deep_view(),
                    ).take(k as int),
                decreases sets.len() - k,
            {
                let ghost so_far = invocations.deep_view();
                let args = join_args(extra, &sets[k]);
                invocations.push(args);
                assert(invocations.deep_view() =~= so_far.push(
                    extra.deep_view() + sets.deep_view()[k as int],
                ));
                k += 1;
            }
        }
        i += 1;
    }
    assert(rules@.take(rules.len() as int) =~= rules@);
    if invocations.len() == 0 {
        invocations.push(copy_args(extra));
        assert(invocations.deep_view() =~= seq![extra.deep_view()]);
    }
    UpgradePlan { dry_run: dry_run_args(extra), pre_actions, invocations }
}

/// The rules of the policy table, folded over a request, give the plan that
/// `plan_for` states directly.
pub proof fn lemma_rules_give_the_plan(upgrader: UpgraderView, snapshot: ClusterSnapshot)
    ensures
        planned(
            rules_for(upgrader.source_version),
            upgrader.release_name,
            upgrader.namespace,
            upgrader.helm_upgrade_extra_args,
            snapshot,
        ) == upgrader.plan_for(snapshot),
{
    reveal_with_fuel(pre_actions_of, 3);
    reveal_with_fuel(contributed_invocations, 3);
    let folded = planned(
        rules_for(upgrader.source_version),
        upgrader.release_name,
        upgrader.namespace,
        upgrader.helm_upgrade_extra_args,
        snapshot,
    );
    assert(folded.invocations =~= upgrader.plan_for(snapshot).invocations);
}

impl UmbrellaUpgrader {
    /// The version that the release is at.
    pub fn source_version(&self) -> (v: Version)
        ensures
            v == self.source_version,
    {
        self.source_version.clone()
    }

    /// The version that the release is upgraded to.
    pub fn target_version(&self) -> (v: Version)
        ensures
            v == self.target_version,
    {
        self.target_version.clone()
    }

    /// Plans the upgrade against what was seen of the live cluster.
    pub fn plan(&self, snapshot: &ClusterSnapshot) -> (plan: UpgradePlan)
        ensures
            plan@ == self@.plan_for(*snapshot),
    {
        let rules = applicable_rules(&self.source_version);
        proof {
            lemma_rules_give_the_plan(self@, *snapshot);
        }
        plan_from_rules(
            &rules,
            self.release_name.as_str(),
            self.namespace.as_str(),
            &self.helm_upgrade_extra_args,
            snapshot,
        )
    }
}

impl UpgradePlan {
    /// Every plan that is held in memory is well-formed.
    pub proof fn lemma_well_formed(self)
        ensures
            self@.well_formed(),
    {
        assert(self@.pre_actions.len() == self.pre_actions.len());
        assert(self@.invocations.len() == self.invocations.len());
    }

    /// The entries of the plan in the order in which they are carried out.
    pub fn steps(&self) -> (steps: Vec<Step>)
        ensures
            steps.deep_view() == self@.steps(),
    {
        let mut steps: Vec<Step> = Vec::new();
        steps.push(Step::DryRun(copy_args(&self.dry_run)));
        let ghost first = seq![StepView::DryRun(self@.dry_run)];
        let ghost actions = Seq::new(
            self@.pre_actions.len(),
            |i: int| StepView::PreAction(self@.pre_actions[i]),
        );
        let mut i: usize = 0;
        while i < self.pre_actions.len()
            invariant
                i <= self.pre_actions.len(),
                steps.deep_view() == first + actions.take(i as int),
                actions == Seq::new(
                    self@.pre_actions.len(),
                    |i: int| StepView::PreAction(self@.pre_actions[i]),
                ),
            decreases self.pre_actions.len() - i,
        {
            let ghost before = steps.deep_view();
            steps.push(Step::PreAction(self.pre_actions[i].duplicate()));
            assert(steps.deep_view() =~= before.push(actions[i as int]));
            i += 1;
        }
        let ghost upgrades = Seq::new(
            self@.invocations.len(),
            |i: int| StepView::Upgrade(self@.invocations[i]),
        );
        let mut k: usize = 0;
        while k < self.invocations.len()
            invariant
                k <= self.invocations.len(),
                steps.deep_view() == first + actions + upgrades.take(k as int),
                upgrades == Seq::new(
                    self@.invocations.len(),
                    |i: int| StepView::Upgrade(self@.invocations[i]),
                ),
            decreases self.invocations.len() - k,
        {
            let ghost before = steps.deep_view();
            steps.push(Step::Upgrade(copy_args(&self.invocations[k])));
            assert(steps.deep_view() =~= before.push(upgrades[k as int]));
            k += 1;
        }
        steps
    }
}

/// A plan is short: one validating invocation, at most one change to the
/// cluster, and one or two real invocations.
pub proof fn lemma_plan_is_short(upgrader: UpgraderView, snapshot: ClusterSnapshot)
    ensures
        upgrader.plan_for(snapshot).pre_actions.len() <= 1,
        1 <= upgrader.plan_for(snapshot).invocations.len() <= 2,
        upgrader.plan_for(snapshot).well_formed(),
{
}

/// An upgrade from below release 4.0.0 to that release or a later one is made
/// as exactly two invocations, the Etcd pre-upgrade job first disabled and
/// then enabled, where no Etcd pod was found; and as the one invocation with
/// the given arguments, unchanged, where one was found.
pub proof fn lemma_crossing_into_major_four(upgrader: UpgraderView, snapshot: ClusterSnapshot)
    requires
        precedes(upgrader.source_version, release_4_0_0()),
        !precedes(upgrader.target_version, release_4_0_0()),
    ensures
        snapshot.etcd_pods == 0 ==> upgrader.plan_for(snapshot).invocations == seq![
            upgrader.helm_upgrade_extra_args + seq![SET_FLAG@, ETCD_JOB_DISABLED@],
            upgrader.helm_upgrade_extra_args + seq![SET_FLAG@, ETCD_JOB_ENABLED@],
        ],
        snapshot.etcd_pods != 0 ==> upgrader.plan_for(snapshot).invocations == seq![
            upgrader.helm_upgrade_extra_args,
        ],
{
}

/// In the order in which a plan is carried out, the validating invocation
/// comes first and every change to the cluster comes before every real
/// invocation.
pub proof fn lemma_pre_actions_come_first(plan: UpgradePlanView)
    ensures
        plan.steps().len() == 1 + plan.pre_actions.len() + plan.invocations.len(),
        plan.steps()[0] == StepView::DryRun(plan.dry_run),
        forall|i: int|
            0 <= i < plan.pre_actions.len() ==> #[trigger] plan.steps()[1 + i]
                == StepView::PreAction(plan.pre_actions[i]),
        forall|k: int|
            0 <= k < plan.invocations.len() ==> #[trigger] plan.steps()[1 + plan.pre_actions.len()
                + k] == StepView::Upgrade(plan.invocations[k]),
        forall|i: int, k: int|
            0 <= i < plan.steps().len() && 0 <= k < plan.steps().len()
                && #[trigger] plan.steps()[i] is PreAction && #[trigger] plan.steps()[k] is Upgrade
                ==> i < k,
{
}

/// An upgrade from a version in the range of the legacy log store has a
/// change to make to the cluster, and in the order in which its plan is
/// carried out every such change comes before every real invocation.
pub proof fn lemma_legacy_range_has_pre_actions(upgrader: UpgraderView, snapshot: ClusterSnapshot)
    requires
        MigrationRule::LegacyLogStore.applies_to(upgrader.source_version),
    ensures
        upgrader.plan_for(snapshot).pre_actions.len() > 0,
        forall|i: int, k: int|
            #![trigger upgrader.plan_for(snapshot).steps()[i], upgrader.plan_for(snapshot).steps()[k]]
            0 <= i < upgrader.plan_for(snapshot).steps().len() && 0 <= k < upgrader.plan_for(
                snapshot,
            ).steps().len() && upgrader.plan_for(snapshot).steps()[i] is PreAction
                && upgrader.plan_for(snapshot).steps()[k] is Upgrade ==> i < k,
{
    lemma_pre_actions_come_first(upgrader.plan_for(snapshot));
}

/// Planning is repeatable: two requests for the same release, from the same
/// source version and with the same arguments, planned against the same
/// snapshot of the cluster, get the same plan, entry for entry. Neither the
/// target version nor the place of the chart has a part in it.
pub proof fn lemma_planning_is_repeatable(
    first: UpgraderView,
    second: UpgraderView,
    snapshot: ClusterSnapshot,
)
    requires
        first.source_version == second.source_version,
        first.release_name == second.release_name,
        first.namespace == second.namespace,
        first.helm_upgrade_extra_args == second.helm_upgrade_extra_args,
    ensures
        first.plan_for(snapshot) == second.plan_for(snapshot),
        first.plan_for(snapshot).steps() == second.plan_for(snapshot).steps(),
{
}

} // verus!
