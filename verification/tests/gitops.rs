use std::cell::Cell;

use komodo_logic::gitops::{
    stack_snapshot_use, sync_snapshot_use, SnapshotUse,
    fetch_failure_reason, fetch_source_groups, is_opted_in_stack, is_safe_opted_in_sync, plan_cycle,
    resolve_stack_source, resolve_sync_source, snapshot_for, stacks_to_reconcile, GitSourceConsumer,
    GitSourceKey, GitSourceSnapshot, Repo, RepoConfig, ResourceSync, Stack, StackConfig, SyncConfig,
};
use komodo_logic::gitops_sync::{
    sync_run_start, sync_run_step, SyncRunAction, SyncRunEvent, SyncRunState,
    pending_stack_delete_declarations, PendingChange, PendingDiff,
    check_no_file_errors, compute_deletes, gitops_delete_allowed, gitops_deletes, gitops_execution_mode,
    retain_not_pending_delete, stack_target, sync_steps, DeclaredStack, SyncExecutionMode, SyncStep,
};

fn stack() -> Stack {
    Stack {
        id: String::new(),
        name: String::new(),
        config: StackConfig {
            files_on_host: false,
            linked_repo: String::new(),
            git_provider: String::new(),
            git_account: String::new(),
            repo: String::new(),
            branch: String::new(),
            commit: String::new(),
            auto_deploy_git_updates: false,
            project_name: String::new(),
            server_id: String::new(),
        },
    }
}

fn sync() -> ResourceSync {
    ResourceSync {
        id: String::new(),
        name: String::new(),
        config: SyncConfig {
            files_on_host: false,
            linked_repo: String::new(),
            git_provider: String::new(),
            git_account: String::new(),
            repo: String::new(),
            branch: String::new(),
            commit: String::new(),
            auto_apply_updates: false,
        },
    }
}

fn repo() -> Repo {
    Repo {
        name: String::new(),
        config: RepoConfig {
            git_provider: String::new(),
            git_account: String::new(),
            repo: String::new(),
            branch: String::new(),
            commit: String::new(),
        },
    }
}

fn key(repo: &str) -> GitSourceKey {
    GitSourceKey {
        provider: "github.com".into(),
        account: "automation".into(),
        repo: repo.into(),
        branch: "main".into(),
    }
}

#[test]
fn gitops_execution_never_applies_delete_deltas() {
    assert!(!gitops_delete_allowed());
}

#[test]
fn gitops_mode_is_safe_and_deletes_are_dropped() {
    assert_eq!(gitops_execution_mode(), SyncExecutionMode::GitOpsSafe);
    assert!(gitops_deletes(vec![1, 2, 3]).is_empty());
    assert!(compute_deletes(true, false));
    assert!(compute_deletes(false, true));
    assert!(!compute_deletes(false, false));
}

#[test]
fn direct_stack_and_sync_share_a_source_key() {
    let mut stack = stack();
    stack.config.repo = "acme/gitops".into();
    stack.config.git_account = "automation".into();

    let mut sync = sync();
    sync.config.repo = "acme/gitops".into();
    sync.config.git_account = "automation".into();

    let repos: Vec<Repo> = Vec::new();
    let stack_source = resolve_stack_source(&stack, &repos).expect("stack should be eligible");
    let sync_source = resolve_sync_source(&sync, &repos).expect("sync should be eligible");

    assert!(stack_source.key.same_as(&sync_source.key));
}

#[test]
fn fixed_commit_and_non_git_sources_are_ineligible() {
    let repos: Vec<Repo> = Vec::new();
    let mut stack = stack();
    stack.config.repo = "acme/gitops".into();
    stack.config.commit = "deadbeef".into();
    assert!(resolve_stack_source(&stack, &repos).is_none());

    let mut sync = sync();
    sync.config.files_on_host = true;
    assert!(resolve_sync_source(&sync, &repos).is_none());
}

#[test]
fn linked_repo_defines_the_effective_source() {
    let mut repo = repo();
    repo.name = "shared-source".into();
    repo.config.repo = "acme/gitops".into();
    repo.config.git_account = "automation".into();
    repo.config.branch = "production".into();
    let repos = vec![repo];

    let mut stack = stack();
    stack.config.linked_repo = "shared-source".into();

    let source = resolve_stack_source(&stack, &repos).expect("linked repo should resolve");
    assert_eq!(source.key.repo, "acme/gitops");
    assert_eq!(source.key.branch, "production");
}

#[test]
fn fetches_each_source_group_once() {
    let key = key("acme/gitops");
    let calls = Cell::new(0);
    let snapshots = fetch_source_groups(
        vec![(
            key.duplicate(),
            vec![
                GitSourceConsumer::Stack("stack-id".into()),
                GitSourceConsumer::ResourceSync("sync-id".into()),
            ],
        )],
        |_| {
            calls.set(calls.get() + 1);
            Ok(GitSourceSnapshot {
                checkout_root: Some("/tmp/gitops".into()),
                hash: None,
                message: None,
                error: None,
            })
        },
    );

    assert_eq!(calls.get(), 1);
    assert!(snapshot_for(&snapshots, &key).unwrap().checkout_root.is_some());
}

#[test]
fn failed_fetch_becomes_failed_snapshot() {
    let snapshots = fetch_source_groups(vec![(key("a/b"), vec![])], |_| {
        Err(komodo_logic::report::ErrorChain::single("boom".into()))
    });
    let s = snapshot_for(&snapshots, &key("a/b")).unwrap();
    assert!(s.checkout_root.is_none());
    assert_eq!(s.error.as_deref(), Some("failed to fetch Git source"));
    assert_eq!(fetch_failure_reason(s), "failed to fetch Git source");
    let unknown = GitSourceSnapshot { checkout_root: None, hash: None, message: None, error: None };
    assert_eq!(fetch_failure_reason(&unknown), "unknown source failure");
    assert!(snapshot_for(&snapshots, &key("c/d")).is_none());
}

#[test]
fn opt_in_rules() {
    let mut s = stack();
    s.config.auto_deploy_git_updates = true;
    s.config.repo = "acme/gitops".into();
    assert!(is_opted_in_stack(&s));
    s.config.commit = "abc".into();
    assert!(!is_opted_in_stack(&s));
    let mut y = sync();
    y.config.auto_apply_updates = true;
    y.config.linked_repo = "shared".into();
    assert!(is_safe_opted_in_sync(&y));
    y.config.files_on_host = true;
    assert!(!is_safe_opted_in_sync(&y));
}

#[test]
fn cycle_plan_groups_consumers_by_source() {
    let mut s1 = stack();
    s1.id = "s1".into();
    s1.config.auto_deploy_git_updates = true;
    s1.config.repo = "acme/gitops".into();
    let mut s2 = stack();
    s2.id = "s2".into();
    s2.config.repo = "acme/gitops".into();
    let mut y = sync();
    y.id = "y1".into();
    y.config.auto_apply_updates = true;
    y.config.repo = "acme/gitops".into();
    let plan = plan_cycle(&[], &[y], &[s1, s2]);
    assert_eq!(plan.groups.len(), 1);
    assert_eq!(plan.groups[0].1.len(), 2);
    assert!(matches!(&plan.groups[0].1[0], GitSourceConsumer::ResourceSync(id) if id == "y1"));
    assert!(matches!(&plan.groups[0].1[1], GitSourceConsumer::Stack(id) if id == "s1"));
    assert_eq!(plan.sync_sources.len(), 1);
    assert_eq!(plan.sync_sources[0].0, 0);
    assert_eq!(plan.preexisting_stack_ids, vec!["s1".to_string()]);
}

#[test]
fn only_preexisting_opted_in_stacks_are_reconciled() {
    let mut a = stack();
    a.id = "a".into();
    a.config.auto_deploy_git_updates = true;
    a.config.repo = "r".into();
    let mut b = stack();
    b.id = "b".into();
    b.config.auto_deploy_git_updates = true;
    b.config.repo = "r".into();
    let mut c = stack();
    c.id = "c".into();
    c.config.repo = "r".into();
    let picked = stacks_to_reconcile(&["a".to_string(), "c".to_string()], &[a, b, c]);
    assert_eq!(picked, vec![0]);
}

#[test]
fn stacks_with_pending_deletes_are_not_recreated() {
    let d = |name: &str, project: &str, server: &str| DeclaredStack {
        name: name.into(),
        project_name: project.into(),
        server_id: server.into(),
    };
    let target = stack_target(&d("web", "", "srv"));
    assert_eq!(target, ("srv".to_string(), "web".to_string()));
    let kept = retain_not_pending_delete(
        vec![d("web", "", "srv"), d("db", "data", "srv"), d("api", "", "other")],
        &[("srv".to_string(), "web".to_string()), ("srv".to_string(), "db".to_string())],
    );
    let names: Vec<&str> = kept.iter().map(|s| s.name.as_str()).collect();
    assert_eq!(names, vec!["db", "api"]);
}

#[test]
fn sync_with_file_errors_is_refused() {
    assert!(check_no_file_errors(0).is_ok());
    let e = check_no_file_errors(2).unwrap_err();
    assert_eq!(e.message(), "found file errors; cannot execute GitOps sync");
}

#[test]
fn sync_steps_run_in_dependency_order() {
    assert!(sync_steps(false).is_empty());
    let steps = sync_steps(true);
    assert_eq!(steps.len(), 14);
    assert_eq!(steps[0], SyncStep::Variables);
    assert_eq!(steps[2], SyncStep::Servers);
    assert_eq!(steps[9], SyncStep::Stacks);
    assert_eq!(steps[13], SyncStep::DeployCache);
}

#[test]
fn maybe_extend_appends_only_present_logs() {
    let mut logs = vec![1];
    komodo_logic::gitops_sync::maybe_extend(&mut logs, Some(2));
    komodo_logic::gitops_sync::maybe_extend(&mut logs, None);
    assert_eq!(logs, vec![1, 2]);
}

#[test]
fn syncs_report_failed_fetches_and_stacks_skip_them() {
    let ok = GitSourceSnapshot { checkout_root: Some("/tmp/x".into()), hash: None, message: None, error: None };
    let failed = GitSourceSnapshot::failed();
    assert!(matches!(sync_snapshot_use(None), SnapshotUse::Skip));
    assert!(matches!(sync_snapshot_use(Some(&ok)), SnapshotUse::Apply(root) if root == "/tmp/x"));
    assert!(matches!(sync_snapshot_use(Some(&failed)), SnapshotUse::ReportFailure(m) if m == "failed to fetch Git source"));
    assert!(matches!(stack_snapshot_use(Some(&failed)), SnapshotUse::Skip));
    assert!(matches!(stack_snapshot_use(Some(&ok)), SnapshotUse::Apply(root) if root == "/tmp/x"));
}

#[test]
fn only_pending_stack_deletes_are_collected() {
    let diffs = vec![
        PendingDiff { targets_stack: true, change: PendingChange::Delete("name = \"a\"".into()) },
        PendingDiff { targets_stack: false, change: PendingChange::Delete("name = \"b\"".into()) },
        PendingDiff { targets_stack: true, change: PendingChange::Update },
        PendingDiff { targets_stack: true, change: PendingChange::Create },
        PendingDiff { targets_stack: true, change: PendingChange::Delete("name = \"c\"".into()) },
    ];
    assert_eq!(
        pending_stack_delete_declarations(&diffs),
        vec!["name = \"a\"".to_string(), "name = \"c\"".to_string()]
    );
}

fn step(state: SyncRunState, event: SyncRunEvent) -> (SyncRunState, SyncRunAction) {
    sync_run_step(true, false, state, event)
}

#[test]
fn sync_with_file_errors_executes_nothing() {
    let (s, a) = sync_run_start();
    assert_eq!(a, SyncRunAction::StartUpdate);
    let (s, a) = step(s, SyncRunEvent::Started { file_error_count: 2 });
    assert_eq!(a, SyncRunAction::Finish);
    match &s {
        SyncRunState::Done { result: Err(e) } => {
            assert_eq!(e.message(), "found file errors; cannot execute GitOps sync")
        }
        _ => panic!("expected a failed run"),
    }
    let (_, a) = step(s, SyncRunEvent::Planned { has_changes: true });
    assert_eq!(a, SyncRunAction::Idle);
}

#[test]
fn sync_applies_every_kind_in_order_then_records() {
    let (s, _) = sync_run_start();
    let (s, a) = step(s, SyncRunEvent::Started { file_error_count: 0 });
    assert_eq!(
        a,
        SyncRunAction::ComputeChanges { compute_deletes: true, mode: SyncExecutionMode::GitOpsSafe }
    );
    let (mut s, mut a) = step(s, SyncRunEvent::Planned { has_changes: true });
    let mut ran = Vec::new();
    while let SyncRunAction::Run(k) = a {
        ran.push(k);
        let next = step(s, SyncRunEvent::StepDone);
        s = next.0;
        a = next.1;
    }
    assert_eq!(ran, sync_steps(true));
    assert_eq!(a, SyncRunAction::RecordMetadata);
    let (s, a) = step(s, SyncRunEvent::MetadataRecorded);
    assert_eq!(a, SyncRunAction::Finalize);
    let (s, a) = step(s, SyncRunEvent::Finalized);
    assert_eq!(a, SyncRunAction::Finish);
    assert!(matches!(s, SyncRunState::Done { result: Ok(()) }));
}

#[test]
fn sync_without_changes_reports_and_records() {
    let (s, _) = step(SyncRunState::Starting, SyncRunEvent::Started { file_error_count: 0 });
    let (s, a) = step(s, SyncRunEvent::Planned { has_changes: false });
    assert_eq!(a, SyncRunAction::ReportNoChanges);
    let (s, a) = step(s, SyncRunEvent::StepDone);
    assert_eq!(a, SyncRunAction::RecordMetadata);
    let (s, a) = step(s, SyncRunEvent::Failed { error: komodo_logic::report::ErrorChain::single("db".into()) });
    assert_eq!(a, SyncRunAction::Finish);
    assert!(matches!(s, SyncRunState::Done { result: Err(_) }));
}
