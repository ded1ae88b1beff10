use std::cell::Cell;

use komodo_logic::alerter::{
    authorized_send_alert_alerters_with, send_alert_candidates, send_candidate, test_alerter_log,
    AlertDataVariant, AlerterEntry,
};
use komodo_logic::execute::User;
use komodo_logic::report::ErrorChain;

fn alerter(id: &str, name: &str, enabled: bool, types: Vec<AlertDataVariant>) -> AlerterEntry {
    AlerterEntry { id: id.into(), name: name.into(), enabled, alert_types: types }
}

fn copy(a: &AlerterEntry) -> AlerterEntry {
    alerter(&a.id, &a.name, a.enabled, a.alert_types.clone())
}

fn user(admin: bool) -> User {
    User { id: "u".into(), admin }
}

#[test]
fn send_alert_authorization_requires_executable_alerter() {
    let a = alerter("alerter-1", "alerter-1", true, vec![]);
    let err = authorized_send_alert_alerters_with(
        &vec!["alerter-1".to_string()],
        &user(false),
        vec![a],
        |_alerter| Err(ErrorChain::single("permission denied".into())),
    )
    .err()
    .unwrap();
    assert_eq!(err.status, 400);
    assert!(err.error.message().contains("Could not find any valid alerters"));
}

#[test]
fn send_alert_authorization_keeps_authorized_alerter() {
    let a = alerter("alerter-1", "alerter-1", true, vec![]);
    let alerters = authorized_send_alert_alerters_with(
        &vec!["alerter-1".to_string()],
        &user(false),
        vec![copy(&a)],
        |alerter| Ok(alerter),
    )
    .ok()
    .unwrap();
    assert_eq!(alerters.len(), 1);
    assert_eq!(alerters[0].id, "alerter-1");
}

#[test]
fn admins_skip_the_execute_check() {
    let calls = Cell::new(0);
    let chosen = authorized_send_alert_alerters_with(
        &vec![],
        &user(true),
        vec![alerter("a", "A", true, vec![]), alerter("b", "B", false, vec![])],
        |alerter| {
            calls.set(calls.get() + 1);
            Ok(alerter)
        },
    )
    .ok()
    .unwrap();
    assert_eq!(calls.get(), 0);
    assert_eq!(chosen.len(), 1);
    assert_eq!(chosen[0].id, "a");
}

#[test]
fn candidates_follow_name_id_and_alert_type() {
    let all = vec![
        alerter("1", "one", true, vec![]),
        alerter("2", "two", true, vec![AlertDataVariant::ServerCpu]),
        alerter("3", "three", true, vec![AlertDataVariant::ServerCpu, AlertDataVariant::Custom]),
        alerter("4", "four", false, vec![]),
        alerter("5", "five", true, vec![]),
    ];
    let requested = vec!["one".to_string(), "3".to_string(), "2".to_string(), "4".to_string()];
    assert!(send_candidate(&all[0], &requested));
    assert!(!send_candidate(&all[1], &requested));
    let chosen = send_alert_candidates(&requested, all);
    let ids: Vec<&str> = chosen.iter().map(|a| a.id.as_str()).collect();
    assert_eq!(ids, vec!["1", "3"]);
}

#[test]
fn testing_an_alerter_reports_the_outcome() {
    let sent = Cell::new(false);
    let log = test_alerter_log(false, || {
        sent.set(true);
        Ok(())
    }, 5);
    assert!(!sent.get());
    assert!(!log.success);
    assert_eq!(log.stage, "Test Alerter");
    assert_eq!(log.stderr, "Alerter is disabled. Enable the Alerter to send alerts.");

    let log = test_alerter_log(true, || Ok(()), 5);
    assert!(log.success);
    assert_eq!(log.stdout, "Alert sent successfully. It should be visible at your alerting destination.");

    let log = test_alerter_log(true, || Err(ErrorChain::single("timeout".into()).context("send failed".into())), 5);
    assert!(!log.success);
    assert_eq!(log.stderr, "send failed: timeout");
}
