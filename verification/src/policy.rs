//! The version policy table: which migration rules an upgrade has to follow,
//! decided by the version it starts from.

use crate::version::{
    four_dot_o, four_dot_three, precedes, release_3_4_1, release_4_0_0, release_4_3_0,
    three_dot_four_dot_one, Threshold, Version,
};
use vstd::prelude::*;

verus! {

/// A half-open interval of versions: from `from` (or from the very first
/// version, where `from` is `None`) up to, and without, `until`.
#[derive(Clone, Copy, Debug, PartialEq, Eq, Structural)]
pub struct VersionRange {
    pub from: Option<Threshold>,
    pub until: Threshold,
}

impl VersionRange {
    /// Whether `v` lies in the interval.
    pub open spec fn holds(self, v: Version) -> bool {
        &&& self.from matches Some(from) ==> !precedes(v, from)
        &&& precedes(v, self.until)
    }

    /// Whether `v` lies in the interval.
    pub fn contains(&self, v: &Version) -> (r: bool)
        ensures
            r == self.holds(*v),
    {
        let reached = match &self.from {
            Some(from) => !v.is_below(from),
            None => true,
        };
        reached && v.is_below(&self.until)
    }
}

/// The flag that introduces a value override on the package manager's command line.
pub const SET_FLAG: &'static str = "--set";

/// The override that switches the Etcd pre-upgrade job off.
pub const ETCD_JOB_DISABLED: &'static str = "mayastor.etcd.preUpgradeJob.enabled=false";

/// The override that switches the Etcd pre-upgrade job back on.
pub const ETCD_JOB_ENABLED: &'static str = "mayastor.etcd.preUpgradeJob.enabled=true";

/// The label selector of a release's Etcd pods, up to the release name.
pub const ETCD_SELECTOR_PREFIX: &'static str = "app.kubernetes.io/name=etcd,app.kubernetes.io/instance=";

/// A change to the cluster that has to be made before the release is upgraded.
#[derive(Clone, Debug, PartialEq, Eq)]
pub enum PreAction {
    /// Delete the stateful set of the legacy log store of the release.
    DeleteLegacyStatefulSet { release_name: String, namespace: String },
}

/// A `PreAction` as specifications see it.
pub enum PreActionView {
    DeleteLegacyStatefulSet { release_name: Seq<char>, namespace: Seq<char> },
}

impl View for PreAction {
    type V = PreActionView;

    open spec fn view(&self) -> PreActionView {
        match self {
            PreAction::DeleteLegacyStatefulSet { release_name, namespace } => {
                PreActionView::DeleteLegacyStatefulSet {
                    release_name: release_name@,
                    namespace: namespace@,
                }
            },
        }
    }
}

impl PreAction {
    /// A copy of this action.
    pub fn duplicate(&self) -> (copy: PreAction)
        ensures
            copy@ == self@,
    {
        match self {
            PreAction::DeleteLegacyStatefulSet { release_name, namespace } => {
                PreAction::DeleteLegacyStatefulSet {
                    release_name: release_name.clone(),
                    namespace: namespace.clone(),
                }
            },
        }
    }
}

impl DeepView for PreAction {
    type V = PreActionView;

    open spec fn deep_view(&self) -> PreActionView {
        self@
    }
}

/// What was seen of the live cluster when the upgrade was planned.
#[derive(Clone, Copy, Debug, PartialEq, Eq, Structural)]
pub struct ClusterSnapshot {
    /// How many pods carried the labels of the release's Etcd.
    pub etcd_pods: usize,
}

/// A known break between releases, and what an upgrade across it has to do.
///
/// The variants stand in priority order: where several rules apply, what they
/// contribute is taken in this order.
#[derive(Clone, Copy, Debug, PartialEq, Eq, Structural)]
pub enum MigrationRule {
    /// The log store moved from the storage engine's own stack to the umbrella
    /// chart: the stateful set of the old stack has to go before the upgrade.
    LegacyLogStore,
    /// Charts of the third major line ship the storage engine switched off, so
    /// its Etcd has no pods and the Etcd pre-upgrade job cannot run: the
    /// upgrade is made with the job disabled, and made again with it enabled.
    EtcdPreUpgradeJob,
}

impl MigrationRule {
    /// The versions from which an upgrade is subject to this rule.
    pub open spec fn range_of(self) -> VersionRange {
        match self {
            MigrationRule::LegacyLogStore => VersionRange {
                from: Some(release_3_4_1()),
                until: release_4_3_0(),
            },
            MigrationRule::EtcdPreUpgradeJob => VersionRange { from: None, until: release_4_0_0() },
        }
    }

    /// Whether an upgrade from `source` is subject to this rule.
    pub open spec fn applies_to(self, source: Version) -> bool {
        self.range_of().holds(source)
    }

    /// The versions from which an upgrade is subject to this rule.
    pub fn range(&self) -> (r: VersionRange)
        ensures
            r == self.range_of(),
    {
        match self {
            MigrationRule::LegacyLogStore => VersionRange {
                from: Some(three_dot_four_dot_one()),
                until: four_dot_three(),
            },
            MigrationRule::EtcdPreUpgradeJob => VersionRange { from: None, until: four_dot_o() },
        }
    }

    /// Whether an upgrade from `source` is subject to this rule.
    pub fn applies(&self, source: &Version) -> (r: bool)
        ensures
            r == self.applies_to(*source),
    {
        self.range().contains(source)
    }

    /// What the rule asks to be done before the upgrade, if anything.
    pub open spec fn pre_action_for(
        self,
        release_name: Seq<char>,
        namespace: Seq<char>,
    ) -> Option<PreActionView> {
        match self {
            MigrationRule::LegacyLogStore => Some(
                PreActionView::DeleteLegacyStatefulSet { release_name, namespace },
            ),
            MigrationRule::EtcdPreUpgradeJob => None,
        }
    }

    /// What the rule asks to be done before the upgrade, if anything.
    pub fn pre_action(&self, release_name: &str, namespace: &str) -> (action: Option<PreAction>)
        ensures
            action.deep_view() == self.pre_action_for(release_name@, namespace@),
    {
        match self {
            MigrationRule::LegacyLogStore => Some(
                PreAction::DeleteLegacyStatefulSet {
                    release_name: release_name.to_owned(),
                    namespace: namespace.to_owned(),
                },
            ),
            MigrationRule::EtcdPreUpgradeJob => None,
        }
    }

    /// The label selector of the pods whose absence the rule depends on.
    /// `None` where the rule depends on the version alone.
    pub open spec fn selector_for(self, release_name: Seq<char>) -> Option<Seq<char>> {
        match self {
            MigrationRule::LegacyLogStore => None,
            MigrationRule::EtcdPreUpgradeJob => Some(ETCD_SELECTOR_PREFIX@ + release_name),
        }
    }

    /// The label selector of the pods whose absence the rule depends on.
    /// `None` where the rule depends on the version alone.
    pub fn pod_selector(&self, release_name: &str) -> (selector: Option<String>)
        ensures
            selector.deep_view() == self.selector_for(release_name@),
    {
        match self {
            MigrationRule::LegacyLogStore => None,
            MigrationRule::EtcdPreUpgradeJob => Some(
                ETCD_SELECTOR_PREFIX.to_owned().concat(release_name),
            ),
        }
    }

    /// Whether the live cluster is in the state in which the rule's overrides
    /// are to be used: for the Etcd rule, that no Etcd pod was found.
    pub open spec fn live_condition(self, snapshot: ClusterSnapshot) -> bool {
        match self {
            MigrationRule::LegacyLogStore => true,
            MigrationRule::EtcdPreUpgradeJob => snapshot.etcd_pods == 0,
        }
    }

    /// Whether the live cluster is in the state in which the rule's overrides
    /// are to be used.
    pub fn live_condition_holds(&self, snapshot: &ClusterSnapshot) -> (r: bool)
        ensures
            r == self.live_condition(*snapshot),
    {
        match self {
            MigrationRule::LegacyLogStore => true,
            MigrationRule::EtcdPreUpgradeJob => snapshot.etcd_pods == 0,
        }
    }

    /// The override sets of the rule: one upgrade invocation is made for each,
    /// in this order.
    pub open spec fn override_sets(self) -> Seq<Seq<Seq<char>>> {
        match self {
            MigrationRule::LegacyLogStore => Seq::empty(),
            MigrationRule::EtcdPreUpgradeJob => seq![
                seq![SET_FLAG@, ETCD_JOB_DISABLED@],
                seq![SET_FLAG@, ETCD_JOB_ENABLED@],
            ],
        }
    }

    /// The override sets of the rule: one upgrade invocation is made for each,
    /// in this order. The later set may undo the earlier one.
    pub fn upgrade_overrides(&self) -> (sets: Vec<Vec<String>>)
        ensures
            sets.deep_view() == self.override_sets(),
    {
        let mut sets: Vec<Vec<String>> = Vec::new();
        match self {
            MigrationRule::LegacyLogStore => {},
            MigrationRule::EtcdPreUpgradeJob => {
                let mut disable: Vec<String> = Vec::new();
                disable.push(SET_FLAG.to_owned());
                disable.push(ETCD_JOB_DISABLED.to_owned());
                let mut enable: Vec<String> = Vec::new();
                enable.push(SET_FLAG.to_owned());
                enable.push(ETCD_JOB_ENABLED.to_owned());
                assert(disable.deep_view() =~= seq![SET_FLAG@, ETCD_JOB_DISABLED@]);
                assert(enable.deep_view() =~= seq![SET_FLAG@, ETCD_JOB_ENABLED@]);
                sets.push(disable);
                sets.push(enable);
            },
        }
        sets
    }
}

/// The rules that an upgrade from `source` is subject to, in priority order.
pub open spec fn rules_for(source: Version) -> Seq<MigrationRule> {
    let first = if MigrationRule::LegacyLogStore.applies_to(source) {
        seq![MigrationRule::LegacyLogStore]
    } else {
        Seq::<MigrationRule>::empty()
    };
    let second = if MigrationRule::EtcdPreUpgradeJob.applies_to(source) {
        seq![MigrationRule::EtcdPreUpgradeJob]
    } else {
        Seq::<MigrationRule>::empty()
    };
    first + second
}

/// The rules that an upgrade from `source` is subject to, in priority order.
/// No rule at all is an ordinary answer.
pub fn applicable_rules(source: &Version) -> (rules: Vec<MigrationRule>)
    ensures
        rules@ == rules_for(*source),
{
    let mut rules: Vec<MigrationRule> = Vec::new();
    if MigrationRule::LegacyLogStore.applies(source) {
        rules.push(MigrationRule::LegacyLogStore);
    }
    if MigrationRule::EtcdPreUpgradeJob.applies(source) {
        rules.push(MigrationRule::EtcdPreUpgradeJob);
    }
    rules
}

} // verus!
