use komodo_logic::gitops_stack::{
    stack_reconcile_step, DeployIfChangedAction, StackReconcileAction, StackReconcileEvent,
    StackReconcileState, StackState,
};
use komodo_logic::report::ErrorChain;

type State = StackReconcileState<u32>;
type Event = StackReconcileEvent<u32>;

fn names(v: &[&str]) -> Vec<String> {
    v.iter().map(|s| s.to_string()).collect()
}

#[test]
fn only_running_stacks_with_readable_files_are_reconciled() {
    let (s, a) = stack_reconcile_step(State::Start, Event::Observed { state: Some(StackState::Stopped), remote_errored: false });
    assert!(matches!(a, StackReconcileAction::Finish));
    assert!(matches!(s, StackReconcileState::Done { result: Ok(None) }));
    let (_, a) = stack_reconcile_step(State::Start, Event::Observed { state: Some(StackState::Running), remote_errored: true });
    assert!(matches!(a, StackReconcileAction::Finish));
    let (s, a) = stack_reconcile_step(State::Start, Event::Observed { state: Some(StackState::Running), remote_errored: false });
    assert!(matches!(a, StackReconcileAction::PersistLatest));
    assert!(matches!(s, StackReconcileState::Persisting));
}

#[test]
fn service_changes_deploy_then_restart_then_record() {
    let (s, a) = stack_reconcile_step(
        State::Persisting,
        Event::Persisted {
            action: Some(DeployIfChangedAction::Services { deploy: names(&["web"]), restart: names(&["worker"]) }),
        },
    );
    match &a {
        StackReconcileAction::Deploy { services, full } => {
            assert_eq!(services, &names(&["web"]));
            assert!(!full);
        }
        _ => panic!("expected a deploy"),
    }
    let (s, a) = stack_reconcile_step(s, Event::Deployed { update: 1, success: true });
    match &a {
        StackReconcileAction::Restart { services } => assert_eq!(services, &names(&["worker"])),
        _ => panic!("expected a restart"),
    }
    let (s, a) = stack_reconcile_step(s, Event::Restarted { update: 2, success: true });
    assert!(matches!(a, StackReconcileAction::RecordDeployedContents));
    let (s, a) = stack_reconcile_step(s, Event::ContentsRecorded { update: 3 });
    assert!(matches!(a, StackReconcileAction::Finish));
    assert!(matches!(s, StackReconcileState::Done { result: Ok(Some(3)) }));
}

#[test]
fn failed_service_deploy_is_not_followed_by_restart() {
    let s = State::DeployingServices { restart: names(&["worker"]) };
    let (s, a) = stack_reconcile_step(s, Event::Deployed { update: 9, success: false });
    assert!(matches!(a, StackReconcileAction::Finish));
    assert!(matches!(s, StackReconcileState::Done { result: Ok(Some(9)) }));
}

#[test]
fn nothing_changed_and_failures_finish() {
    let (s, a) = stack_reconcile_step(
        State::Persisting,
        Event::Persisted { action: Some(DeployIfChangedAction::Services { deploy: vec![], restart: vec![] }) },
    );
    assert!(matches!(a, StackReconcileAction::Finish));
    assert!(matches!(s, StackReconcileState::Done { result: Ok(None) }));
    let (s, _) = stack_reconcile_step(State::Persisting, Event::Persisted { action: None });
    assert!(matches!(s, StackReconcileState::FullDeploying));
    let (s, a) = stack_reconcile_step(s, Event::Failed { error: ErrorChain::single("db down".into()) });
    assert!(matches!(a, StackReconcileAction::Finish));
    match s {
        StackReconcileState::Done { result: Err(e) } => assert_eq!(e.message(), "db down"),
        _ => panic!("expected a failure"),
    }
    let (_, a) = stack_reconcile_step(State::Restarting, Event::Restarted { update: 1, success: false });
    assert!(matches!(a, StackReconcileAction::Finish));
}
