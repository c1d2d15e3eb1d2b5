use openebs_upgrade::executor::{Action, Outcome, Phase, UpgradeError, UpgradeRun};
use openebs_upgrade::plan::{UmbrellaUpgrader, UpgradePlan};
use openebs_upgrade::policy::{ClusterSnapshot, PreAction};
use openebs_upgrade::version::Version;

fn strings(list: &[&str]) -> Vec<String> {
    list.iter().map(|s| s.to_string()).collect()
}

fn delete_of(release_name: &str) -> PreAction {
    PreAction::DeleteLegacyStatefulSet {
        release_name: release_name.to_string(),
        namespace: "ns".to_string(),
    }
}

fn plan_with(pre_actions: usize, invocations: usize) -> UpgradePlan {
    UpgradePlan {
        dry_run: strings(&["--dry-run"]),
        pre_actions: (0..pre_actions).map(|i| delete_of(&format!("r{}", i))).collect(),
        invocations: (0..invocations).map(|i| strings(&["--set", &format!("step={}", i)])).collect(),
    }
}

/// A package manager and cluster that only write down what they were asked
/// to do, and fail the call whose number they were told to fail.
struct Recorder {
    calls: Vec<Action>,
    fail_at: Option<usize>,
}

impl Recorder {
    fn failing_at(fail_at: Option<usize>) -> Recorder {
        Recorder { calls: Vec::new(), fail_at }
    }

    fn perform(&mut self, action: &Action) -> Outcome {
        let number = self.calls.len();
        self.calls.push(action.clone());
        if self.fail_at == Some(number) {
            Outcome::Failed
        } else {
            Outcome::Succeeded
        }
    }

    fn upgrades(&self) -> Vec<Vec<String>> {
        self.calls
            .iter()
            .filter_map(|a| match a {
                Action::Upgrade(args) => Some(args.clone()),
                _ => None,
            })
            .collect()
    }
}

fn drive(run: &mut UpgradeRun, recorder: &mut Recorder) -> Result<(), UpgradeError> {
    let mut action = run.action();
    for _ in 0..1000 {
        match action {
            Action::Finish => return Ok(()),
            Action::Abort(error) => return Err(error),
            _ => {
                let outcome = recorder.perform(&action);
                action = run.advance(outcome);
            }
        }
    }
    panic!("the run did not end");
}

#[test]
fn a_run_hands_out_every_entry_in_order() {
    let mut run = UpgradeRun::new(plan_with(2, 3));
    let mut recorder = Recorder::failing_at(None);
    assert_eq!(drive(&mut run, &mut recorder), Ok(()));
    assert_eq!(
        recorder.calls,
        vec![
            Action::DryRun(strings(&["--dry-run"])),
            Action::PreAction(delete_of("r0")),
            Action::PreAction(delete_of("r1")),
            Action::Upgrade(strings(&["--set", "step=0"])),
            Action::Upgrade(strings(&["--set", "step=1"])),
            Action::Upgrade(strings(&["--set", "step=2"])),
            Action::ResolveValues,
        ]
    );
    assert_eq!(run.phase(), Phase::Completed);
    assert_eq!(run.action(), Action::Finish);
}

#[test]
fn a_failed_invocation_stops_the_later_ones() {
    for n in 1..5usize {
        for k in 0..n {
            let mut run = UpgradeRun::new(plan_with(1, n));
            // Call 0 is the dry run, call 1 the pre-action, call 2 + k invocation k.
            let mut recorder = Recorder::failing_at(Some(2 + k));
            assert_eq!(drive(&mut run, &mut recorder), Err(UpgradeError::Invocation { index: k }));
            let expected: Vec<Vec<String>> =
                (0..=k).map(|i| strings(&["--set", &format!("step={}", i)])).collect();
            assert_eq!(recorder.upgrades(), expected);
            assert!(!recorder.calls.contains(&Action::ResolveValues));
            assert_eq!(recorder.calls.len(), 3 + k);
        }
    }
}

#[test]
fn a_refused_dry_run_changes_nothing() {
    let mut run = UpgradeRun::new(plan_with(2, 2));
    let mut recorder = Recorder::failing_at(Some(0));
    assert_eq!(drive(&mut run, &mut recorder), Err(UpgradeError::Validation));
    assert_eq!(recorder.calls, vec![Action::DryRun(strings(&["--dry-run"]))]);
    assert_eq!(run.phase(), Phase::Failed(UpgradeError::Validation));
}

#[test]
fn a_failed_pre_action_stops_before_any_invocation() {
    let mut run = UpgradeRun::new(plan_with(2, 2));
    let mut recorder = Recorder::failing_at(Some(2));
    assert_eq!(drive(&mut run, &mut recorder), Err(UpgradeError::Precondition { index: 1 }));
    assert_eq!(recorder.upgrades(), Vec::<Vec<String>>::new());
    assert_eq!(recorder.calls.len(), 3);
}

#[test]
fn values_that_cannot_be_read_back_are_reported() {
    let mut run = UpgradeRun::new(plan_with(0, 1));
    let mut recorder = Recorder::failing_at(Some(2));
    assert_eq!(drive(&mut run, &mut recorder), Err(UpgradeError::Deserialization));
    assert_eq!(recorder.upgrades(), vec![strings(&["--set", "step=0"])]);
    assert_eq!(recorder.calls.last(), Some(&Action::ResolveValues));
}

#[test]
fn a_stopped_run_stays_stopped() {
    let mut run = UpgradeRun::new(plan_with(0, 3));
    assert_eq!(run.advance(Outcome::Succeeded), Action::Upgrade(strings(&["--set", "step=0"])));
    let error = UpgradeError::Invocation { index: 0 };
    assert_eq!(run.advance(Outcome::Failed), Action::Abort(error));
    for outcome in [Outcome::Succeeded, Outcome::Failed, Outcome::Succeeded] {
        assert_eq!(run.advance(outcome), Action::Abort(error));
        assert_eq!(run.phase(), Phase::Failed(error));
    }
}

#[test]
fn a_completed_run_stays_completed() {
    let mut run = UpgradeRun::new(plan_with(0, 0));
    assert_eq!(run.action(), Action::DryRun(strings(&["--dry-run"])));
    assert_eq!(run.advance(Outcome::Succeeded), Action::ResolveValues);
    assert_eq!(run.advance(Outcome::Succeeded), Action::Finish);
    assert_eq!(run.advance(Outcome::Failed), Action::Finish);
    assert_eq!(run.phase(), Phase::Completed);
}

#[test]
fn the_phase_follows_the_plan() {
    let mut run = UpgradeRun::new(plan_with(1, 2));
    assert_eq!(run.phase(), Phase::Validating);
    run.advance(Outcome::Succeeded);
    assert_eq!(run.phase(), Phase::PreAction(0));
    run.advance(Outcome::Succeeded);
    assert_eq!(run.phase(), Phase::Invoking(0));
    run.advance(Outcome::Succeeded);
    assert_eq!(run.phase(), Phase::Invoking(1));
    run.advance(Outcome::Succeeded);
    assert_eq!(run.phase(), Phase::Resolving);
    assert_eq!(run.plan(), &plan_with(1, 2));
}

#[test]
fn dry_run_opens_the_run_of_the_plan() {
    let upgrader = UmbrellaUpgrader {
        chart_dir: "/charts".to_string(),
        release_name: "openebs".to_string(),
        namespace: "ns".to_string(),
        helm_upgrade_extra_args: strings(&["--wait"]),
        source_version: Version::parse("3.5.0").unwrap(),
        target_version: Version::parse("4.3.0").unwrap(),
    };
    let snapshot = ClusterSnapshot { etcd_pods: 0 };
    let mut run = upgrader.dry_run(&snapshot);
    assert_eq!(run.plan(), &upgrader.plan(&snapshot));
    assert_eq!(run.phase(), Phase::Validating);
    let mut recorder = Recorder::failing_at(Some(3));
    assert_eq!(drive(&mut run, &mut recorder), Err(UpgradeError::Invocation { index: 1 }));
    assert_eq!(
        recorder.calls,
        vec![
            Action::DryRun(strings(&["--wait", "--dry-run"])),
            Action::PreAction(delete_of("openebs")),
            Action::Upgrade(strings(&[
                "--wait",
                "--set",
                "mayastor.etcd.preUpgradeJob.enabled=false"
            ])),
            Action::Upgrade(strings(&[
                "--wait",
                "--set",
                "mayastor.etcd.preUpgradeJob.enabled=true"
            ])),
        ]
    );
}
