use komodo_logic::compose::{
    check_compose_on_server, compose_command, maybe_timeout, restart_needs_linked_repo, service_args,
    services_requested_log, ComposeCommand,
};

fn svc(v: &[&str]) -> Vec<String> {
    v.iter().map(|s| s.to_string()).collect()
}

#[test]
fn service_args_and_timeouts() {
    assert_eq!(service_args(&svc(&[])), "");
    assert_eq!(service_args(&svc(&["web", "db"])), " web db");
    assert_eq!(maybe_timeout(None), "");
    assert_eq!(maybe_timeout(Some(30)), " --timeout 30");
}

#[test]
fn compose_commands() {
    assert_eq!(compose_command(ComposeCommand::Start, &svc(&[])), "start");
    assert_eq!(compose_command(ComposeCommand::Pause, &svc(&["web"])), "pause web");
    assert_eq!(compose_command(ComposeCommand::Unpause, &svc(&["a", "b"])), "unpause a b");
    assert_eq!(compose_command(ComposeCommand::Stop(Some(10)), &svc(&["web"])), "stop --timeout 10 web");
    assert_eq!(
        compose_command(ComposeCommand::Down(Some(5), true), &svc(&["web"])),
        "down --timeout 5 --remove-orphans web"
    );
    assert_eq!(compose_command(ComposeCommand::Down(None, false), &svc(&[])), "down");
}

#[test]
fn services_log_and_swarm_refusal() {
    assert!(services_requested_log(&svc(&[]), 0).is_none());
    let log = services_requested_log(&svc(&["web", "db"]), 3).unwrap();
    assert_eq!(log.stage, "Service/s");
    assert_eq!(log.stdout, "Execution requested for Stack service/s web, db");
    assert!(log.success);
    assert!(check_compose_on_server(true).is_ok());
    assert_eq!(
        check_compose_on_server(false).unwrap_err().message(),
        "Compose executions (Start, Stop, Restart) should not be called for Stack in Swarm Mode"
    );
    assert!(restart_needs_linked_repo(false, "repo"));
    assert!(!restart_needs_linked_repo(true, "repo"));
    assert!(!restart_needs_linked_repo(false, ""));
}
