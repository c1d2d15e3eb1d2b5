use openebs_upgrade::plan::{
    copy_args, dry_run_args, join_args, plan_from_rules, Step, UmbrellaUpgrader, UpgradePlan,
};
use openebs_upgrade::policy::{ClusterSnapshot, MigrationRule, PreAction};
use openebs_upgrade::version::Version;

fn strings(list: &[&str]) -> Vec<String> {
    list.iter().map(|s| s.to_string()).collect()
}

fn upgrader(source: &str, target: &str, extra: &[&str]) -> UmbrellaUpgrader {
    UmbrellaUpgrader {
        chart_dir: "/charts/openebs".to_string(),
        release_name: "openebs".to_string(),
        namespace: "storage".to_string(),
        helm_upgrade_extra_args: strings(extra),
        source_version: Version::parse(source).unwrap(),
        target_version: Version::parse(target).unwrap(),
    }
}

fn delete_legacy() -> PreAction {
    PreAction::DeleteLegacyStatefulSet {
        release_name: "openebs".to_string(),
        namespace: "storage".to_string(),
    }
}

const NO_PODS: ClusterSnapshot = ClusterSnapshot { etcd_pods: 0 };
const SOME_PODS: ClusterSnapshot = ClusterSnapshot { etcd_pods: 3 };

#[test]
fn from_3_5_0_to_4_3_0_without_etcd_pods() {
    let plan = upgrader("3.5.0", "4.3.0", &[]).plan(&NO_PODS);
    assert_eq!(
        plan.steps(),
        vec![
            Step::DryRun(strings(&["--dry-run"])),
            Step::PreAction(delete_legacy()),
            Step::Upgrade(strings(&["--set", "mayastor.etcd.preUpgradeJob.enabled=false"])),
            Step::Upgrade(strings(&["--set", "mayastor.etcd.preUpgradeJob.enabled=true"])),
        ]
    );
}

#[test]
fn from_3_5_0_to_4_3_0_with_etcd_pods() {
    let plan = upgrader("3.5.0", "4.3.0", &[]).plan(&SOME_PODS);
    assert_eq!(
        plan.steps(),
        vec![
            Step::DryRun(strings(&["--dry-run"])),
            Step::PreAction(delete_legacy()),
            Step::Upgrade(strings(&[])),
        ]
    );
}

#[test]
fn the_given_arguments_lead_every_invocation() {
    let extra = ["--set", "a=b", "--atomic"];
    let plan = upgrader("3.2.0", "4.0.0", &extra).plan(&NO_PODS);
    assert_eq!(
        plan,
        UpgradePlan {
            dry_run: strings(&["--set", "a=b", "--atomic", "--dry-run"]),
            pre_actions: vec![],
            invocations: vec![
                strings(&[
                    "--set",
                    "a=b",
                    "--atomic",
                    "--set",
                    "mayastor.etcd.preUpgradeJob.enabled=false"
                ]),
                strings(&[
                    "--set",
                    "a=b",
                    "--atomic",
                    "--set",
                    "mayastor.etcd.preUpgradeJob.enabled=true"
                ]),
            ],
        }
    );
}

#[test]
fn crossing_into_the_fourth_line_with_etcd_pods_is_one_plain_invocation() {
    let extra = ["--set", "a=b"];
    let plan = upgrader("3.2.0", "4.0.0", &extra).plan(&ClusterSnapshot { etcd_pods: 1 });
    assert_eq!(plan.pre_actions, vec![]);
    assert_eq!(plan.invocations, vec![strings(&extra)]);
}

#[test]
fn within_the_fourth_line_the_etcd_pods_do_not_matter() {
    for snapshot in [NO_PODS, SOME_PODS] {
        let plan = upgrader("4.1.0", "4.3.0", &["--wait"]).plan(&snapshot);
        assert_eq!(plan.dry_run, strings(&["--wait", "--dry-run"]));
        assert_eq!(plan.pre_actions, vec![delete_legacy()]);
        assert_eq!(plan.invocations, vec![strings(&["--wait"])]);
    }
}

#[test]
fn from_4_3_0_on_nothing_is_special() {
    for snapshot in [NO_PODS, SOME_PODS] {
        let plan = upgrader("4.3.0", "4.4.0", &["--wait"]).plan(&snapshot);
        assert_eq!(
            plan.steps(),
            vec![Step::DryRun(strings(&["--wait", "--dry-run"])), Step::Upgrade(strings(&["--wait"]))]
        );
    }
}

#[test]
fn a_pre_release_of_4_0_0_is_still_of_the_third_line() {
    let plan = upgrader("4.0.0-rc.1", "4.3.0", &[]).plan(&NO_PODS);
    assert_eq!(plan.pre_actions, vec![delete_legacy()]);
    assert_eq!(plan.invocations.len(), 2);
}

#[test]
fn the_legacy_range_always_has_a_pre_action_before_the_invocations() {
    for source in ["3.4.1", "3.5.0", "3.99.0", "4.0.0", "4.2.7", "4.3.0-alpha"] {
        for snapshot in [NO_PODS, SOME_PODS] {
            let plan = upgrader(source, "4.3.0", &["-x"]).plan(&snapshot);
            assert!(!plan.pre_actions.is_empty());
            let steps = plan.steps();
            let last_pre = steps.iter().rposition(|s| matches!(s, Step::PreAction(_))).unwrap();
            let first_upgrade = steps.iter().position(|s| matches!(s, Step::Upgrade(_))).unwrap();
            assert!(last_pre < first_upgrade);
            assert!(matches!(steps[0], Step::DryRun(_)));
        }
    }
}

#[test]
fn planning_twice_gives_the_same_plan() {
    let request = upgrader("3.5.0", "4.3.0", &["--set", "k=v"]);
    let first = request.plan(&NO_PODS);
    let second = request.plan(&NO_PODS);
    assert_eq!(first, second);
    assert_eq!(first.steps(), second.steps());
    let other_target = upgrader("3.5.0", "4.9.0", &["--set", "k=v"]);
    assert_eq!(other_target.plan(&NO_PODS), first);
}

#[test]
fn the_versions_are_handed_out_unchanged() {
    let request = upgrader("3.5.0-rc.1", "4.3.0+b", &[]);
    let source = request.source_version();
    assert_eq!((source.major, source.minor, source.patch), (3, 5, 0));
    assert_eq!(source.pre.as_str(), "rc.1");
    let target = request.target_version();
    assert_eq!((target.major, target.minor, target.patch), (4, 3, 0));
    assert_eq!(target.build.as_str(), "b");
}

#[test]
fn rules_are_taken_in_the_order_given() {
    let rules = vec![MigrationRule::EtcdPreUpgradeJob, MigrationRule::LegacyLogStore];
    let plan = plan_from_rules(&rules, "r", "n", &strings(&["-a"]), &NO_PODS);
    assert_eq!(
        plan.pre_actions,
        vec![PreAction::DeleteLegacyStatefulSet {
            release_name: "r".to_string(),
            namespace: "n".to_string()
        }]
    );
    assert_eq!(plan.invocations.len(), 2);
    let none = plan_from_rules(&vec![], "r", "n", &strings(&["-a"]), &NO_PODS);
    assert_eq!(
        none,
        UpgradePlan {
            dry_run: strings(&["-a", "--dry-run"]),
            pre_actions: vec![],
            invocations: vec![strings(&["-a"])],
        }
    );
}

#[test]
fn a_rule_given_twice_contributes_twice() {
    let rules = vec![MigrationRule::EtcdPreUpgradeJob, MigrationRule::EtcdPreUpgradeJob];
    let plan = plan_from_rules(&rules, "r", "n", &strings(&[]), &NO_PODS);
    let off = strings(&["--set", "mayastor.etcd.preUpgradeJob.enabled=false"]);
    let on = strings(&["--set", "mayastor.etcd.preUpgradeJob.enabled=true"]);
    assert_eq!(plan.invocations, vec![off.clone(), on.clone(), off, on]);
}

#[test]
fn arguments_are_copied_and_joined_in_order() {
    let a = strings(&["1", "2"]);
    let b = strings(&["3"]);
    assert_eq!(copy_args(&a), a);
    assert_eq!(join_args(&a, &b), strings(&["1", "2", "3"]));
    assert_eq!(join_args(&b, &a), strings(&["3", "1", "2"]));
    assert_eq!(join_args(&a, &vec![]), a);
    assert_eq!(dry_run_args(&a), strings(&["1", "2", "--dry-run"]));
    assert_eq!(dry_run_args(&vec![]), strings(&["--dry-run"]));
}
