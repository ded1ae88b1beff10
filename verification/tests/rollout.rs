use komodo_logic::rollout::{
    exactly_one_new_container, pre_stop_hook_command, readiness_check, readiness_window_secs,
    remove_container_command, rollout_step, service_container_ids, ContainerLabels, Health,
    Readiness, RolloutAction, RolloutArgs, RolloutEvent, RolloutState,
};
use komodo_logic::report::ErrorChain;

fn ids(v: &[&str]) -> Vec<String> {
    v.iter().map(|s| s.to_string()).collect()
}

#[test]
fn detects_exactly_one_new_container() {
    let before = ids(&["old-a", "old-b"]);
    let after = ids(&["old-a", "old-b", "new-c"]);
    assert_eq!(
        exactly_one_new_container(&before, &after).expect("one new container should be accepted"),
        "new-c"
    );
}

#[test]
fn rejects_ambiguous_new_container_set() {
    let before = ids(&["old-a"]);
    let after = ids(&["old-a", "new-b", "new-c"]);
    let error = exactly_one_new_container(&before, &after)
        .err()
        .expect("multiple new containers must be rejected");
    assert!(error.message().contains("found 2"));
}

#[test]
fn no_new_container_is_rejected() {
    let before = ids(&["a", "b"]);
    let error = exactly_one_new_container(&before, &ids(&["b", "a"])).err().unwrap();
    assert_eq!(error.message(), "expected exactly one new container, found 0");
}

#[test]
fn service_container_ids_are_filtered_and_sorted() {
    let c = |id: Option<&str>, p: Option<&str>, s: Option<&str>| ContainerLabels {
        id: id.map(String::from),
        project: p.map(String::from),
        service: s.map(String::from),
    };
    let containers = vec![
        c(Some("zz"), Some("proj"), Some("web")),
        c(Some("aa"), Some("proj"), Some("web")),
        c(Some("bb"), Some("proj"), Some("db")),
        c(Some("cc"), Some("other"), Some("web")),
        c(None, Some("proj"), Some("web")),
        c(Some("mm"), Some("proj"), Some("web")),
    ];
    assert_eq!(service_container_ids(&containers, "proj", "web"), ids(&["aa", "mm", "zz"]));
}

#[test]
fn readiness_decisions() {
    assert_eq!(readiness_window_secs(true), 60);
    assert_eq!(readiness_window_secs(false), 10);
    match readiness_check(false, false, "", None, false, false) {
        Readiness::Failed(e) => assert_eq!(e.message(), "container inspect response has no state"),
        _ => panic!("expected failure"),
    }
    match readiness_check(true, false, "exited", None, false, false) {
        Readiness::Failed(e) => assert_eq!(e.message(), "container entered state 'exited'"),
        _ => panic!("expected failure"),
    }
    assert!(matches!(readiness_check(true, true, "running", Some(Health::Healthy), false, false), Readiness::Ready));
    match readiness_check(true, true, "running", Some(Health::Unhealthy), false, false) {
        Readiness::Failed(e) => assert_eq!(e.message(), "container became unhealthy"),
        _ => panic!("expected failure"),
    }
    assert!(matches!(readiness_check(true, true, "running", None, true, true), Readiness::Ready));
    assert!(matches!(readiness_check(true, true, "running", None, false, false), Readiness::Wait));
    assert!(matches!(readiness_check(true, true, "running", Some(Health::Starting), true, false), Readiness::Wait));
    match readiness_check(true, true, "running", Some(Health::Starting), true, true) {
        Readiness::Failed(e) => assert_eq!(e.message(), "container readiness timed out"),
        _ => panic!("expected failure"),
    }
}

#[test]
fn hook_and_remove_commands_quote_their_arguments() {
    assert_eq!(remove_container_command("abc"), "docker stop abc && docker rm abc");
    assert_eq!(
        pre_stop_hook_command("abc", "echo 'bye'"),
        "docker exec abc sh -c 'echo '\\''bye'\\'''"
    );
}

fn args(hook: Option<&str>) -> RolloutArgs {
    RolloutArgs {
        service_name: "web".into(),
        start_command: "start-cmd".into(),
        scale_command: "scale-cmd".into(),
        desired_replicas: 2,
        pre_stop_hook: hook.map(String::from),
    }
}

fn run_of(action: &RolloutAction) -> (String, String) {
    match action {
        RolloutAction::Run { stage, command } => (stage.clone(), command.clone()),
        _ => panic!("expected a command"),
    }
}

#[test]
fn rollout_replaces_each_old_container_after_its_replacement_is_ready() {
    let a = args(None);
    let (s, act) = rollout_step(&a, RolloutState::Listing, RolloutEvent::Listed { ids: ids(&["o1", "o2"]) });
    assert!(matches!(act, RolloutAction::ListContainers));
    let (s, act) = rollout_step(&a, s, RolloutEvent::Listed { ids: ids(&["o1", "o2"]) });
    assert_eq!(run_of(&act), ("Rolling Scale Up".to_string(), "scale-cmd".to_string()));
    let (s, act) = rollout_step(&a, s, RolloutEvent::Ran { success: true });
    assert!(matches!(act, RolloutAction::ListContainers));
    let (s, act) = rollout_step(&a, s, RolloutEvent::Listed { ids: ids(&["n1", "o1", "o2"]) });
    match &act {
        RolloutAction::WaitUntilReady { container_id } => assert_eq!(container_id, "n1"),
        _ => panic!("expected a readiness wait"),
    }
    let (s, act) = rollout_step(&a, s, RolloutEvent::Ready);
    assert_eq!(run_of(&act), ("Rolling Remove Old Container".to_string(), "docker stop o1 && docker rm o1".to_string()));
    let (s, act) = rollout_step(&a, s, RolloutEvent::Ran { success: true });
    assert!(matches!(act, RolloutAction::ListContainers));
    let (s, _) = rollout_step(&a, s, RolloutEvent::Listed { ids: ids(&["n1", "o2"]) });
    let (s, _) = rollout_step(&a, s, RolloutEvent::Ran { success: true });
    let (s, _) = rollout_step(&a, s, RolloutEvent::Listed { ids: ids(&["n1", "n2", "o2"]) });
    let (s, act) = rollout_step(&a, s, RolloutEvent::Ready);
    assert_eq!(run_of(&act).1, "docker stop o2 && docker rm o2");
    let (s, act) = rollout_step(&a, s, RolloutEvent::Ran { success: true });
    assert!(matches!(act, RolloutAction::ListContainers));
    let (s, act) = rollout_step(&a, s, RolloutEvent::Listed { ids: ids(&["n1", "n2"]) });
    assert!(matches!(act, RolloutAction::Finish));
    assert!(matches!(s, RolloutState::Done { result: Ok(()) }));
}

#[test]
fn rollout_cleans_up_an_unready_replacement() {
    let a = args(None);
    let state = RolloutState::AwaitingReady { remaining: ids(&["o1", "o2"]), new_id: "n1".into() };
    let (s, act) = rollout_step(&a, state, RolloutEvent::NotReady { error: ErrorChain::single("container became unhealthy".into()) });
    assert_eq!(run_of(&act), ("Rolling Cleanup New Container".to_string(), "docker stop n1 && docker rm n1".to_string()));
    let (s, act) = rollout_step(&a, s, RolloutEvent::Ran { success: true });
    assert!(matches!(act, RolloutAction::Finish));
    match s {
        RolloutState::Done { result: Err(e) } => assert_eq!(
            e.message(),
            "replacement container n1 for service 'web' did not become ready: container became unhealthy"
        ),
        _ => panic!("expected a failed rollout"),
    }
}

#[test]
fn rollout_runs_the_pre_stop_hook_before_removing() {
    let a = args(Some("drain"));
    let state = RolloutState::AwaitingReady { remaining: ids(&["o1"]), new_id: "n1".into() };
    let (s, act) = rollout_step(&a, state, RolloutEvent::Ready);
    assert_eq!(run_of(&act), ("Rolling Pre Stop Hook".to_string(), "docker exec o1 sh -c drain".to_string()));
    let (s, act) = rollout_step(&a, s, RolloutEvent::Ran { success: false });
    assert_eq!(run_of(&act).0, "Rolling Cleanup New Container");
    let (s, _) = rollout_step(&a, s, RolloutEvent::Ran { success: true });
    match s {
        RolloutState::Done { result: Err(e) } => assert_eq!(e.message(), "pre-stop hook failed for container o1"),
        _ => panic!("expected a failed rollout"),
    }
}

#[test]
fn rollout_stops_when_scale_up_fails_or_counts_differ() {
    let a = args(None);
    let (s, _) = rollout_step(&a, RolloutState::Listing, RolloutEvent::Listed { ids: ids(&["o1", "o2", "o3"]) });
    match s {
        RolloutState::Done { result: Err(e) } => {
            assert_eq!(e.message(), "service 'web' has 3 containers but declares 2 replicas")
        }
        _ => panic!("expected a failed rollout"),
    }
    let state = RolloutState::ScalingUp { remaining: ids(&["o1"]), before: ids(&["o1"]) };
    let (s, act) = rollout_step(&a, state, RolloutEvent::Ran { success: false });
    assert!(matches!(act, RolloutAction::Finish));
    match s {
        RolloutState::Done { result: Err(e) } => {
            assert_eq!(e.message(), "failed to create replacement for service 'web'")
        }
        _ => panic!("expected a failed rollout"),
    }
}

#[test]
fn rollout_starts_a_service_without_containers() {
    let a = args(None);
    let (s, act) = rollout_step(&a, RolloutState::Listing, RolloutEvent::Listed { ids: vec![] });
    assert_eq!(run_of(&act), ("Rolling Start Service".to_string(), "start-cmd".to_string()));
    let (s, _) = rollout_step(&a, s, RolloutEvent::Ran { success: false });
    match s {
        RolloutState::Done { result: Err(e) } => assert_eq!(e.message(), "failed to start service 'web'"),
        _ => panic!("expected a failed rollout"),
    }
}
