use std::cell::Cell;

use komodo_logic::execute::{
    check_system_execute_permission_with, classify, ensure_admin_execution, execution_update,
    init_execution_update_after_permission_check_with, init_plan, permission_check, records_update,
    ApiError, ExecuteClass, ExecuteKind, ExecuteRequest, ExecutionUpdate, InitPlan, Operation,
    PermissionCheck, ResourceType, StackServiceOp, UpdateStatus, UpdateTarget, User,
};
use komodo_logic::report::ErrorChain;

fn user(admin: bool) -> User {
    User { id: "user-1".into(), admin }
}

fn request(kind: ExecuteKind, target: &str, services: &[&str]) -> ExecuteRequest {
    ExecuteRequest {
        kind,
        target: target.into(),
        services: services.iter().map(|s| s.to_string()).collect(),
    }
}

#[test]
fn failed_preflight_does_not_initialize_update() {
    let init_calls = Cell::new(0);
    let req = request(ExecuteKind::StartContainer, "server-a", &[]);
    let err = init_execution_update_after_permission_check_with(
        &req,
        &user(false),
        |_, _| Err(ErrorChain::single("permission denied".into())),
        |_, _| {
            init_calls.set(init_calls.get() + 1);
            Ok(ExecutionUpdate::empty())
        },
    )
    .err()
    .unwrap();
    assert!(err.message().contains("permission denied"));
    assert_eq!(init_calls.get(), 0);
}

#[test]
fn successful_preflight_initializes_update_once() {
    let init_calls = Cell::new(0);
    let req = request(ExecuteKind::StartContainer, "server-a", &[]);
    let _ = init_execution_update_after_permission_check_with(
        &req,
        &user(false),
        |_, _| Ok(()),
        |_, _| {
            init_calls.set(init_calls.get() + 1);
            Ok(ExecutionUpdate::empty())
        },
    )
    .ok()
    .unwrap();
    assert_eq!(init_calls.get(), 1);
}

#[test]
fn batch_execute_requests_skip_permission_preflight() {
    assert_eq!(permission_check(ExecuteKind::BatchDeploy), PermissionCheck::Skip);
    assert!(check_system_execute_permission_with(ExecuteKind::BatchDeploy, &user(false), || Ok(())).is_ok());
    assert_eq!(init_plan(&request(ExecuteKind::BatchDeploy, "*", &[])), InitPlan::Skip);
    assert!(!records_update(ExecuteKind::BatchDeploy));
}

#[test]
fn admin_only_system_execute_requests_require_preflight() {
    for kind in [
        ExecuteKind::ClearRepoCache,
        ExecuteKind::BackupCoreDatabase,
        ExecuteKind::GlobalAutoUpdate,
        ExecuteKind::RotateAllServerKeys,
        ExecuteKind::RotateCoreKeys,
    ] {
        assert_eq!(permission_check(kind), PermissionCheck::AdminOnly);
        let err = check_system_execute_permission_with(kind, &user(false), || Ok(())).err().unwrap();
        assert_eq!(err.status, 403);
        assert!(err.error.message().contains("admin only"));
    }
}

#[test]
fn admin_only_system_execute_preflight_returns_forbidden() {
    let err = check_system_execute_permission_with(ExecuteKind::BackupCoreDatabase, &user(false), || Ok(()))
        .err()
        .unwrap();
    assert_eq!(err.status, 403);
    assert!(err.error.message().contains("admin only"));
}

#[test]
fn admin_only_system_execute_requests_allow_admin() {
    assert!(check_system_execute_permission_with(ExecuteKind::BackupCoreDatabase, &user(true), || Ok(())).is_ok());
    assert!(ensure_admin_execution(&user(true)).is_ok());
}

#[test]
fn failed_admin_preflight_does_not_initialize_update() {
    let init_calls = Cell::new(0);
    let req = request(ExecuteKind::BackupCoreDatabase, "", &[]);
    let err = init_execution_update_after_permission_check_with(
        &req,
        &user(false),
        |request, user| {
            check_system_execute_permission_with(request.kind, user, || Ok(())).map_err(|e| e.error)
        },
        |_, _| {
            init_calls.set(init_calls.get() + 1);
            Ok(ExecutionUpdate::empty())
        },
    )
    .err()
    .unwrap();
    assert!(err.message().contains("admin only"));
    assert_eq!(init_calls.get(), 0);
}

#[test]
fn send_alert_preflight_without_authorized_alerter_returns_bad_request() {
    let err = check_system_execute_permission_with(ExecuteKind::SendAlert, &user(false), || {
        Err(ApiError { status: 400, error: ErrorChain::single("no authorized alerters".into()) })
    })
    .err()
    .unwrap();
    assert_eq!(err.status, 400);
    assert!(err.error.message().contains("no authorized alerters"));
}

#[test]
fn failed_send_alert_preflight_does_not_initialize_update() {
    let init_calls = Cell::new(0);
    let req = request(ExecuteKind::SendAlert, "", &[]);
    let err = init_execution_update_after_permission_check_with(
        &req,
        &user(false),
        |request, user| {
            check_system_execute_permission_with(request.kind, user, || {
                Err(ApiError { status: 400, error: ErrorChain::single("no authorized alerters".into()) })
            })
            .map_err(|e| e.error)
        },
        |_, _| {
            init_calls.set(init_calls.get() + 1);
            Ok(ExecutionUpdate::empty())
        },
    )
    .err()
    .unwrap();
    assert!(err.message().contains("no authorized alerters"));
    assert_eq!(init_calls.get(), 0);
}

#[test]
fn authorized_send_alert_preflight_initializes_update_once() {
    let init_calls = Cell::new(0);
    let req = request(ExecuteKind::SendAlert, "", &[]);
    let _ = init_execution_update_after_permission_check_with(
        &req,
        &user(false),
        |request, user| {
            check_system_execute_permission_with(request.kind, user, || Ok(())).map_err(|e| e.error)
        },
        |_, _| {
            init_calls.set(init_calls.get() + 1);
            Ok(ExecutionUpdate::empty())
        },
    )
    .ok()
    .unwrap();
    assert_eq!(init_calls.get(), 1);
}

#[test]
fn resource_requests_check_and_target_their_resource() {
    assert_eq!(classify(ExecuteKind::StartContainer), ExecuteClass::Resource(ResourceType::Server));
    assert_eq!(permission_check(ExecuteKind::StartContainer), PermissionCheck::Execute(ResourceType::Server));
    assert_eq!(permission_check(ExecuteKind::TestAlerter), PermissionCheck::Execute(ResourceType::Alerter));
    let req = request(ExecuteKind::StartContainer, "server-a", &[]);
    assert_eq!(
        init_plan(&req),
        InitPlan::Lookup(ResourceType::Server, Operation::Execute(ExecuteKind::StartContainer))
    );
    let update = execution_update(&req, "id-1".into(), "user-1".into(), 42);
    assert_eq!(update.operation, Operation::Execute(ExecuteKind::StartContainer));
    assert!(matches!(&update.target, UpdateTarget::Resource(ResourceType::Server, id) if id == "id-1"));
    assert_eq!(update.status, UpdateStatus::InProgress);
    assert!(update.success);
    assert_eq!(update.start_ts, 42);
    assert_eq!(update.operator, "user-1");
    assert!(records_update(ExecuteKind::StartContainer));
}

#[test]
fn stack_requests_record_service_operations() {
    let whole = request(ExecuteKind::DeployStack, "stack-a", &[]);
    assert_eq!(
        init_plan(&whole),
        InitPlan::Lookup(ResourceType::Stack, Operation::Execute(ExecuteKind::DeployStack))
    );
    let some = request(ExecuteKind::DeployStack, "stack-a", &["web"]);
    assert_eq!(
        init_plan(&some),
        InitPlan::Lookup(ResourceType::Stack, Operation::StackService(StackServiceOp::DeployStackService))
    );
    let changed = request(ExecuteKind::DeployStackIfChanged, "stack-a", &["web"]);
    assert_eq!(
        init_plan(&changed),
        InitPlan::Lookup(ResourceType::Stack, Operation::Execute(ExecuteKind::DeployStack))
    );
    assert!(!records_update(ExecuteKind::DeployStackIfChanged));
    assert_eq!(permission_check(ExecuteKind::DeployStackIfChanged), PermissionCheck::Execute(ResourceType::Stack));
}

#[test]
fn system_requests_target_the_system() {
    let req = request(ExecuteKind::SendAlert, "", &[]);
    assert_eq!(init_plan(&req), InitPlan::System(Operation::Execute(ExecuteKind::SendAlert)));
    let update = execution_update(&req, String::new(), "user-1".into(), 7);
    assert!(matches!(update.target, UpdateTarget::System));
    assert_eq!(update.status, UpdateStatus::InProgress);
    let batch = execution_update(&request(ExecuteKind::BatchRunBuild, "*", &[]), String::new(), "user-1".into(), 7);
    assert_eq!(batch.operation, Operation::NoOp);
    assert!(!batch.success);
    assert_eq!(batch.status, UpdateStatus::Queued);
}
