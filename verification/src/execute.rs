//! Execute requests: what each one targets, how its update record starts, and
//! the permission checks that must pass before that record exists.
use vstd::prelude::*;

use crate::report::ErrorChain;
use crate::text::{chars_of, string_of};

verus! {

/// The kinds of execute request, one per request type.
#[derive(Debug, Clone, Copy, PartialEq, Eq, Structural)]
pub enum ExecuteKind {
    RemoveSwarmNodes,
    UpdateSwarmNode,
    RemoveSwarmStacks,
    RemoveSwarmServices,
    CreateSwarmConfig,
    RotateSwarmConfig,
    RemoveSwarmConfigs,
    CreateSwarmSecret,
    RotateSwarmSecret,
    RemoveSwarmSecrets,
    StartContainer,
    RestartContainer,
    PauseContainer,
    UnpauseContainer,
    StopContainer,
    DestroyContainer,
    StartAllContainers,
    RestartAllContainers,
    PauseAllContainers,
    UnpauseAllContainers,
    StopAllContainers,
    PruneContainers,
    DeleteNetwork,
    PruneNetworks,
    DeleteImage,
    PruneImages,
    DeleteVolume,
    PruneVolumes,
    PruneDockerBuilders,
    PruneBuildx,
    PruneSystem,
    Deploy,
    PullDeployment,
    StartDeployment,
    RestartDeployment,
    PauseDeployment,
    UnpauseDeployment,
    StopDeployment,
    DestroyDeployment,
    RunBuild,
    CancelBuild,
    CloneRepo,
    PullRepo,
    BuildRepo,
    CancelRepoBuild,
    RunProcedure,
    RunAction,
    RunSync,
    RunStackService,
    TestAlerter,
    BatchDeploy,
    BatchDestroyDeployment,
    BatchRunBuild,
    BatchCloneRepo,
    BatchPullRepo,
    BatchBuildRepo,
    BatchRunProcedure,
    BatchRunAction,
    BatchDeployStack,
    BatchDeployStackIfChanged,
    BatchPullStack,
    BatchDestroyStack,
    DeployStack,
    PullStack,
    StartStack,
    RestartStack,
    PauseStack,
    UnpauseStack,
    StopStack,
    DestroyStack,
    DeployStackIfChanged,
    SendAlert,
    ClearRepoCache,
    BackupCoreDatabase,
    GlobalAutoUpdate,
    RotateAllServerKeys,
    RotateCoreKeys,
}

/// The kinds of resource an execution can target.
#[derive(Debug, Clone, Copy, PartialEq, Eq, Structural)]
pub enum ResourceType {
    Swarm,
    Server,
    Deployment,
    Build,
    Repo,
    Procedure,
    Action,
    ResourceSync,
    Stack,
    Alerter,
}

/// The operations recorded for a Stack execution limited to some services.
#[derive(Debug, Clone, Copy, PartialEq, Eq, Structural)]
pub enum StackServiceOp {
    DeployStackService,
    PullStackService,
    StartStackService,
    RestartStackService,
    PauseStackService,
    UnpauseStackService,
    StopStackService,
    DestroyStackService,
}

/// The operation an update records.
#[derive(Debug, Clone, Copy, PartialEq, Eq, Structural)]
pub enum Operation {
    /// No operation: the empty update.
    NoOp,
    /// The operation named after the request kind.
    Execute(ExecuteKind),
    /// A Stack operation limited to some of its services.
    StackService(StackServiceOp),
}

/// How a request kind is handled before it runs.
#[derive(Debug, Clone, Copy, PartialEq, Eq, Structural)]
pub enum ExecuteClass {
    /// Acts on one resource of the given type, named in the request.
    Resource(ResourceType),
    /// Fans out into single requests, each checked and recorded on its own.
    Batch,
    /// Acts on a Stack, possibly only on some of its services.
    StackService(StackServiceOp),
    /// Deploys a Stack only when it changed; its update is held back.
    DeployStackIfChanged,
    /// Acts on the system as a whole.
    System,
}

pub open spec fn class_of(k: ExecuteKind) -> ExecuteClass {
    match k {
        ExecuteKind::RemoveSwarmNodes |
        ExecuteKind::UpdateSwarmNode |
        ExecuteKind::RemoveSwarmStacks |
        ExecuteKind::RemoveSwarmServices |
        ExecuteKind::CreateSwarmConfig |
        ExecuteKind::RotateSwarmConfig |
        ExecuteKind::RemoveSwarmConfigs |
        ExecuteKind::CreateSwarmSecret |
        ExecuteKind::RotateSwarmSecret |
        ExecuteKind::RemoveSwarmSecrets => ExecuteClass::Resource(ResourceType::Swarm),
        ExecuteKind::StartContainer |
        ExecuteKind::RestartContainer |
        ExecuteKind::PauseContainer |
        ExecuteKind::UnpauseContainer |
        ExecuteKind::StopContainer |
        ExecuteKind::DestroyContainer |
        ExecuteKind::StartAllContainers |
        ExecuteKind::RestartAllContainers |
        ExecuteKind::PauseAllContainers |
        ExecuteKind::UnpauseAllContainers |
        ExecuteKind::StopAllContainers |
        ExecuteKind::PruneContainers |
        ExecuteKind::DeleteNetwork |
        ExecuteKind::PruneNetworks |
        ExecuteKind::DeleteImage |
        ExecuteKind::PruneImages |
        ExecuteKind::DeleteVolume |
        ExecuteKind::PruneVolumes |
        ExecuteKind::PruneDockerBuilders |
        ExecuteKind::PruneBuildx |
        ExecuteKind::PruneSystem => ExecuteClass::Resource(ResourceType::Server),
        ExecuteKind::Deploy |
        ExecuteKind::PullDeployment |
        ExecuteKind::StartDeployment |
        ExecuteKind::RestartDeployment |
        ExecuteKind::PauseDeployment |
        ExecuteKind::UnpauseDeployment |
        ExecuteKind::StopDeployment |
        ExecuteKind::DestroyDeployment => ExecuteClass::Resource(ResourceType::Deployment),
        ExecuteKind::RunBuild |
        ExecuteKind::CancelBuild => ExecuteClass::Resource(ResourceType::Build),
        ExecuteKind::CloneRepo |
        ExecuteKind::PullRepo |
        ExecuteKind::BuildRepo |
        ExecuteKind::CancelRepoBuild => ExecuteClass::Resource(ResourceType::Repo),
        ExecuteKind::RunProcedure => ExecuteClass::Resource(ResourceType::Procedure),
        ExecuteKind::RunAction => ExecuteClass::Resource(ResourceType::Action),
        ExecuteKind::RunSync => ExecuteClass::Resource(ResourceType::ResourceSync),
        ExecuteKind::RunStackService => ExecuteClass::Resource(ResourceType::Stack),
        ExecuteKind::TestAlerter => ExecuteClass::Resource(ResourceType::Alerter),
        ExecuteKind::BatchDeploy |
        ExecuteKind::BatchDestroyDeployment |
        ExecuteKind::BatchRunBuild |
        ExecuteKind::BatchCloneRepo |
        ExecuteKind::BatchPullRepo |
        ExecuteKind::BatchBuildRepo |
        ExecuteKind::BatchRunProcedure |
        ExecuteKind::BatchRunAction |
        ExecuteKind::BatchDeployStack |
        ExecuteKind::BatchDeployStackIfChanged |
        ExecuteKind::BatchPullStack |
        ExecuteKind::BatchDestroyStack => ExecuteClass::Batch,
        ExecuteKind::DeployStack => ExecuteClass::StackService(StackServiceOp::DeployStackService),
        ExecuteKind::PullStack => ExecuteClass::StackService(StackServiceOp::PullStackService),
        ExecuteKind::StartStack => ExecuteClass::StackService(StackServiceOp::StartStackService),
        ExecuteKind::RestartStack => ExecuteClass::StackService(StackServiceOp::RestartStackService),
        ExecuteKind::PauseStack => ExecuteClass::StackService(StackServiceOp::PauseStackService),
        ExecuteKind::UnpauseStack => ExecuteClass::StackService(StackServiceOp::UnpauseStackService),
        ExecuteKind::StopStack => ExecuteClass::StackService(StackServiceOp::StopStackService),
        ExecuteKind::DestroyStack => ExecuteClass::StackService(StackServiceOp::DestroyStackService),
        ExecuteKind::DeployStackIfChanged => ExecuteClass::DeployStackIfChanged,
        ExecuteKind::SendAlert |
        ExecuteKind::ClearRepoCache |
        ExecuteKind::BackupCoreDatabase |
        ExecuteKind::GlobalAutoUpdate |
        ExecuteKind::RotateAllServerKeys |
        ExecuteKind::RotateCoreKeys => ExecuteClass::System,
    }
}

pub fn classify(k: ExecuteKind) -> (c: ExecuteClass)
    ensures
        c == class_of(k),
{
    match k {
        ExecuteKind::RemoveSwarmNodes |
        ExecuteKind::UpdateSwarmNode |
        ExecuteKind::RemoveSwarmStacks |
        ExecuteKind::RemoveSwarmServices |
        ExecuteKind::CreateSwarmConfig |
        ExecuteKind::RotateSwarmConfig |
        ExecuteKind::RemoveSwarmConfigs |
        ExecuteKind::CreateSwarmSecret |
        ExecuteKind::RotateSwarmSecret |
        ExecuteKind::RemoveSwarmSecrets => ExecuteClass::Resource(ResourceType::Swarm),
        ExecuteKind::StartContainer |
        ExecuteKind::RestartContainer |
        ExecuteKind::PauseContainer |
        ExecuteKind::UnpauseContainer |
        ExecuteKind::StopContainer |
        ExecuteKind::DestroyContainer |
        ExecuteKind::StartAllContainers |
        ExecuteKind::RestartAllContainers |
        ExecuteKind::PauseAllContainers |
        ExecuteKind::UnpauseAllContainers |
        ExecuteKind::StopAllContainers |
        ExecuteKind::PruneContainers |
        ExecuteKind::DeleteNetwork |
        ExecuteKind::PruneNetworks |
        ExecuteKind::DeleteImage |
        ExecuteKind::PruneImages |
        ExecuteKind::DeleteVolume |
        ExecuteKind::PruneVolumes |
        ExecuteKind::PruneDockerBuilders |
        ExecuteKind::PruneBuildx |
        ExecuteKind::PruneSystem => ExecuteClass::Resource(ResourceType::Server),
        ExecuteKind::Deploy |
        ExecuteKind::PullDeployment |
        ExecuteKind::StartDeployment |
        ExecuteKind::RestartDeployment |
        ExecuteKind::PauseDeployment |
        ExecuteKind::UnpauseDeployment |
        ExecuteKind::StopDeployment |
        ExecuteKind::DestroyDeployment => ExecuteClass::Resource(ResourceType::Deployment),
        ExecuteKind::RunBuild |
        ExecuteKind::CancelBuild => ExecuteClass::Resource(ResourceType::Build),
        ExecuteKind::CloneRepo |
        ExecuteKind::PullRepo |
        ExecuteKind::BuildRepo |
        ExecuteKind::CancelRepoBuild => ExecuteClass::Resource(ResourceType::Repo),
        ExecuteKind::RunProcedure => ExecuteClass::Resource(ResourceType::Procedure),
        ExecuteKind::RunAction => ExecuteClass::Resource(ResourceType::Action),
        ExecuteKind::RunSync => ExecuteClass::Resource(ResourceType::ResourceSync),
        ExecuteKind::RunStackService => ExecuteClass::Resource(ResourceType::Stack),
        ExecuteKind::TestAlerter => ExecuteClass::Resource(ResourceType::Alerter),
        ExecuteKind::BatchDeploy |
        ExecuteKind::BatchDestroyDeployment |
        ExecuteKind::BatchRunBuild |
        ExecuteKind::BatchCloneRepo |
        ExecuteKind::BatchPullRepo |
        ExecuteKind::BatchBuildRepo |
        ExecuteKind::BatchRunProcedure |
        ExecuteKind::BatchRunAction |
        ExecuteKind::BatchDeployStack |
        ExecuteKind::BatchDeployStackIfChanged |
        ExecuteKind::BatchPullStack |
        ExecuteKind::BatchDestroyStack => ExecuteClass::Batch,
        ExecuteKind::DeployStack => ExecuteClass::StackService(StackServiceOp::DeployStackService),
        ExecuteKind::PullStack => ExecuteClass::StackService(StackServiceOp::PullStackService),
        ExecuteKind::StartStack => ExecuteClass::StackService(StackServiceOp::StartStackService),
        ExecuteKind::RestartStack => ExecuteClass::StackService(StackServiceOp::RestartStackService),
        ExecuteKind::PauseStack => ExecuteClass::StackService(StackServiceOp::PauseStackService),
        ExecuteKind::UnpauseStack => ExecuteClass::StackService(StackServiceOp::UnpauseStackService),
        ExecuteKind::StopStack => ExecuteClass::StackService(StackServiceOp::StopStackService),
        ExecuteKind::DestroyStack => ExecuteClass::StackService(StackServiceOp::DestroyStackService),
        ExecuteKind::DeployStackIfChanged => ExecuteClass::DeployStackIfChanged,
        ExecuteKind::SendAlert |
        ExecuteKind::ClearRepoCache |
        ExecuteKind::BackupCoreDatabase |
        ExecuteKind::GlobalAutoUpdate |
        ExecuteKind::RotateAllServerKeys |
        ExecuteKind::RotateCoreKeys => ExecuteClass::System,
    }
}

/// An execute request as far as the checks read it: its kind, the name or id
/// of the resource it targets (the Stack for Stack requests), and the services
/// it is limited to.
pub struct ExecuteRequest {
    pub kind: ExecuteKind,
    pub target: String,
    pub services: Vec<String>,
}

/// The operation an update records for a request: service-limited Stack
/// requests record the service operation, DeployStackIfChanged records a
/// Stack deploy, and batches record none.
pub open spec fn operation_for(k: ExecuteKind, has_services: bool) -> Operation {
    match class_of(k) {
        ExecuteClass::Batch => Operation::NoOp,
        ExecuteClass::StackService(op) => if has_services {
            Operation::StackService(op)
        } else {
            Operation::Execute(k)
        },
        ExecuteClass::DeployStackIfChanged => Operation::Execute(ExecuteKind::DeployStack),
        _ => Operation::Execute(k),
    }
}

/// What must be looked up before the update of a request can start.
#[derive(Debug, Clone, Copy, PartialEq, Eq, Structural)]
pub enum InitPlan {
    /// Batches start no update of their own.
    Skip,
    /// The target resource of this type must be resolved to its id first.
    Lookup(ResourceType, Operation),
    /// The update targets the system.
    System(Operation),
}

pub open spec fn init_plan_of(k: ExecuteKind, has_services: bool) -> InitPlan {
    match class_of(k) {
        ExecuteClass::Batch => InitPlan::Skip,
        ExecuteClass::Resource(t) => InitPlan::Lookup(t, operation_for(k, has_services)),
        ExecuteClass::StackService(_) => InitPlan::Lookup(ResourceType::Stack, operation_for(k, has_services)),
        ExecuteClass::DeployStackIfChanged => InitPlan::Lookup(ResourceType::Stack, operation_for(k, has_services)),
        ExecuteClass::System => InitPlan::System(operation_for(k, has_services)),
    }
}

pub fn init_plan(request: &ExecuteRequest) -> (p: InitPlan)
    ensures
        p == init_plan_of(request.kind, request.services@.len() > 0),
{
    let has_services = request.services.len() > 0;
    let k = request.kind;
    match classify(k) {
        ExecuteClass::Batch => InitPlan::Skip,
        ExecuteClass::Resource(t) => InitPlan::Lookup(t, Operation::Execute(k)),
        ExecuteClass::StackService(op) => {
            let operation = if has_services {
                Operation::StackService(op)
            } else {
                Operation::Execute(k)
            };
            InitPlan::Lookup(ResourceType::Stack, operation)
        },
        ExecuteClass::DeployStackIfChanged => InitPlan::Lookup(
            ResourceType::Stack,
            Operation::Execute(ExecuteKind::DeployStack),
        ),
        ExecuteClass::System => InitPlan::System(Operation::Execute(k)),
    }
}

/// Whether the started update is stored right away: not for batches (which
/// start none) and not for DeployStackIfChanged, which is held back until it
/// is known whether anything is deployed.
pub open spec fn records_update_of(k: ExecuteKind) -> bool {
    class_of(k) != ExecuteClass::Batch && k != ExecuteKind::DeployStackIfChanged
}

pub fn records_update(k: ExecuteKind) -> (r: bool)
    ensures
        r == records_update_of(k),
{
    match classify(k) {
        ExecuteClass::Batch => false,
        ExecuteClass::DeployStackIfChanged => false,
        _ => true,
    }
}

/// The progress of an update.
#[derive(Debug, Clone, Copy, PartialEq, Eq, Structural)]
pub enum UpdateStatus {
    Queued,
    InProgress,
    Complete,
}

/// What an update is about.
#[derive(Debug)]
pub enum UpdateTarget {
    System,
    Resource(ResourceType, String),
}

pub open spec fn target_view(t: UpdateTarget) -> Option<(ResourceType, Seq<char>)> {
    match t {
        UpdateTarget::System => None,
        UpdateTarget::Resource(ty, id) => Some((ty, id@)),
    }
}

/// The record of one execution as users see it.
#[derive(Debug)]
pub struct ExecutionUpdate {
    pub id: String,
    pub operation: Operation,
    pub target: UpdateTarget,
    pub operator: String,
    pub start_ts: i64,
    pub success: bool,
    pub status: UpdateStatus,
}

impl ExecutionUpdate {
    /// The empty update: no operation, on the system, not yet successful.
    pub fn empty() -> (r: ExecutionUpdate)
        ensures
            r.id@.len() == 0,
            r.operation == Operation::NoOp,
            target_view(r.target) is None,
            r.operator@.len() == 0,
            r.start_ts == 0,
            !r.success,
            r.status == UpdateStatus::Queued,
    {
        ExecutionUpdate {
            id: String::new(),
            operation: Operation::NoOp,
            target: UpdateTarget::System,
            operator: String::new(),
            start_ts: 0,
            success: false,
            status: UpdateStatus::Queued,
        }
    }

    /// Marks the update as running.
    pub fn in_progress(&mut self)
        ensures
            final(self).status == UpdateStatus::InProgress,
            final(self).id == old(self).id,
            final(self).operation == old(self).operation,
            final(self).target == old(self).target,
            final(self).operator == old(self).operator,
            final(self).start_ts == old(self).start_ts,
            final(self).success == old(self).success,
    {
        self.status = UpdateStatus::InProgress;
    }
}

/// A new update for `operation` on `target` by `operator`, successful until a
/// stage fails.
pub fn make_update(target: UpdateTarget, operation: Operation, operator: String, start_ts: i64) -> (r: ExecutionUpdate)
    ensures
        r.id@.len() == 0,
        r.operation == operation,
        r.target == target,
        r.operator@ == operator@,
        r.start_ts == start_ts,
        r.success,
        r.status == UpdateStatus::Queued,
{
    ExecutionUpdate {
        id: String::new(),
        operation,
        target,
        operator,
        start_ts,
        success: true,
        status: UpdateStatus::Queued,
    }
}

/// The update an execution starts with, once its target resource (where it
/// has one) is resolved to `resolved_id`: the empty update for batches,
/// otherwise a running update of the request's operation.
pub fn execution_update(request: &ExecuteRequest, resolved_id: String, operator: String, start_ts: i64) -> (r: ExecutionUpdate)
    ensures
        match init_plan_of(request.kind, request.services@.len() > 0) {
            InitPlan::Skip => r.operation == Operation::NoOp && target_view(r.target) is None
                && !r.success && r.status == UpdateStatus::Queued && r.operator@.len() == 0 && r.start_ts == 0,
            InitPlan::Lookup(t, op) => r.operation == op && target_view(r.target) == Some((t, resolved_id@))
                && r.success && r.status == UpdateStatus::InProgress && r.operator@ == operator@
                && r.start_ts == start_ts,
            InitPlan::System(op) => r.operation == op && target_view(r.target) is None
                && r.success && r.status == UpdateStatus::InProgress && r.operator@ == operator@
                && r.start_ts == start_ts,
        },
        r.id@.len() == 0,
{
    match init_plan(request) {
        InitPlan::Skip => ExecutionUpdate::empty(),
        InitPlan::Lookup(t, op) => {
            let mut update = make_update(UpdateTarget::Resource(t, resolved_id), op, operator, start_ts);
            update.in_progress();
            update
        },
        InitPlan::System(op) => {
            let mut update = make_update(UpdateTarget::System, op, operator, start_ts);
            update.in_progress();
            update
        },
    }
}

/// The check a request must pass before its update is started.
#[derive(Debug, Clone, Copy, PartialEq, Eq, Structural)]
pub enum PermissionCheck {
    /// Batches are checked per item when they fan out.
    Skip,
    /// Execute permission on the target resource of this type.
    Execute(ResourceType),
    /// At least one alerter the user may execute must be selected.
    AuthorizeSendAlert,
    /// Only admins may run it.
    AdminOnly,
}

pub open spec fn permission_check_of(k: ExecuteKind) -> PermissionCheck {
    match class_of(k) {
        ExecuteClass::Resource(t) => PermissionCheck::Execute(t),
        ExecuteClass::Batch => PermissionCheck::Skip,
        ExecuteClass::StackService(_) => PermissionCheck::Execute(ResourceType::Stack),
        ExecuteClass::DeployStackIfChanged => PermissionCheck::Execute(ResourceType::Stack),
        ExecuteClass::System => if k == ExecuteKind::SendAlert {
            PermissionCheck::AuthorizeSendAlert
        } else {
            PermissionCheck::AdminOnly
        },
    }
}

pub fn permission_check(k: ExecuteKind) -> (c: PermissionCheck)
    ensures
        c == permission_check_of(k),
{
    match classify(k) {
        ExecuteClass::Resource(t) => PermissionCheck::Execute(t),
        ExecuteClass::Batch => PermissionCheck::Skip,
        ExecuteClass::StackService(_) => PermissionCheck::Execute(ResourceType::Stack),
        ExecuteClass::DeployStackIfChanged => PermissionCheck::Execute(ResourceType::Stack),
        ExecuteClass::System => match k {
            ExecuteKind::SendAlert => PermissionCheck::AuthorizeSendAlert,
            _ => PermissionCheck::AdminOnly,
        },
    }
}

/// An error answered to an API caller: an HTTP status code and the error.
#[derive(Debug)]
pub struct ApiError {
    pub status: u16,
    pub error: ErrorChain,
}

pub open spec fn forbidden_status() -> u16 {
    403
}

pub open spec fn bad_request_status() -> u16 {
    400
}

/// The user a request runs as.
#[derive(Debug)]
pub struct User {
    pub id: String,
    pub admin: bool,
}

pub open spec fn admin_only_message() -> Seq<char> {
    "This execution is admin only"@
}

/// Admins pass; anyone else is forbidden.
pub fn ensure_admin_execution(user: &User) -> (r: Result<(), ApiError>)
    ensures
        user.admin <==> r is Ok,
        r matches Err(e) ==> e.status == forbidden_status() && e.error.view_chain() == seq![admin_only_message()],
{
    if user.admin {
        Ok(())
    } else {
        Err(ApiError {
            status: 403,
            error: ErrorChain::single(string_of(&chars_of("This execution is admin only"))),
        })
    }
}

/// The system-level preflight: SendAlert passes exactly when the alerter
/// authorization does (and fails with its error), the other system requests
/// are admin only, and other requests pass. The authorization is asked for
/// only for SendAlert.
pub fn check_system_execute_permission_with<F>(k: ExecuteKind, user: &User, authorize_send_alert: F) -> (r: Result<(), ApiError>)
    where
        F: FnOnce() -> Result<(), ApiError>,
    requires
        k == ExecuteKind::SendAlert ==> authorize_send_alert.requires(()),
    ensures
        k == ExecuteKind::SendAlert ==> authorize_send_alert.ensures((), r),
        permission_check_of(k) == PermissionCheck::AdminOnly ==> (user.admin <==> r is Ok) && (r matches Err(e)
            ==> e.status == forbidden_status() && e.error.view_chain() == seq![admin_only_message()]),
        class_of(k) != ExecuteClass::System ==> r is Ok,
{
    match classify(k) {
        ExecuteClass::System => match k {
            ExecuteKind::SendAlert => authorize_send_alert(),
            _ => ensure_admin_execution(user),
        },
        _ => Ok(()),
    }
}

/// Runs the permission check and, only when it passes, starts the update;
/// a failed check is returned as it is and no update is started.
pub fn init_execution_update_after_permission_check_with<C, I, T>(
    request: &ExecuteRequest,
    user: &User,
    check_permissions: C,
    init_update: I,
) -> (r: Result<T, ErrorChain>)
    where
        C: FnOnce(&ExecuteRequest, &User) -> Result<(), ErrorChain>,
        I: FnOnce(&ExecuteRequest, &User) -> Result<T, ErrorChain>,
    requires
        check_permissions.requires((request, user)),
        init_update.requires((request, user)),
    ensures
        exists|c: Result<(), ErrorChain>| #[trigger] check_permissions.ensures((request, user), c) && match c {
            Err(e) => r == Err::<T, ErrorChain>(e),
            Ok(_) => init_update.ensures((request, user), r),
        },
{
    let checked = check_permissions(request, user);
    let ghost c = checked;
    let r = match checked {
        Err(e) => Err(e),
        Ok(()) => init_update(request, user),
    };
    assert(check_permissions.ensures((request, user), c));
    r
}

// ----- laws of request handling -----

/// Batch requests are neither checked nor recorded up front: they fan out
/// into single requests that are.
pub proof fn law_batches_are_neither_checked_nor_recorded(k: ExecuteKind, has_services: bool)
    requires
        class_of(k) == ExecuteClass::Batch,
    ensures
        permission_check_of(k) == PermissionCheck::Skip,
        init_plan_of(k, has_services) == InitPlan::Skip,
        !records_update_of(k),
{
}

/// The resource whose Execute permission is checked is exactly the kind of
/// resource the request's update targets.
pub proof fn law_checked_resource_is_the_target(k: ExecuteKind, has_services: bool, t: ResourceType)
    ensures
        permission_check_of(k) == PermissionCheck::Execute(t) <==> (init_plan_of(k, has_services) matches InitPlan::Lookup(u, _) && u == t),
{
}

/// System requests are checked as system requests (alerter authorization or
/// admin only) and their update targets the system.
pub proof fn law_system_requests(k: ExecuteKind, has_services: bool)
    requires
        class_of(k) == ExecuteClass::System,
    ensures
        init_plan_of(k, has_services) == InitPlan::System(Operation::Execute(k)),
        permission_check_of(k) == PermissionCheck::AuthorizeSendAlert || permission_check_of(k) == PermissionCheck::AdminOnly,
        records_update_of(k),
{
}

/// A Stack request limited to some services is recorded as the matching
/// service operation; for the whole Stack, under its own name.
pub proof fn law_service_operations(k: ExecuteKind, op: StackServiceOp)
    requires
        class_of(k) == ExecuteClass::StackService(op),
    ensures
        operation_for(k, true) == Operation::StackService(op),
        operation_for(k, false) == Operation::Execute(k),
{
}

/// The resource each request acts on, request by request: Swarm operations on
/// a Swarm; container, network, image, volume and prune operations on a
/// Server; deployment operations on a Deployment; builds on a Build; clone,
/// pull, build and cancel of a repo build on a Repo; procedures, actions and
/// syncs on their own resource; every Stack operation on the Stack; alerter
/// tests on the Alerter. Batches are checked per item, SendAlert by its
/// alerters, and the other system requests are admin only. The update of a
/// request that acts on a resource looks up a resource of that same type.
#[verifier::rlimit(50)]
pub proof fn law_request_targets(k: ExecuteKind, has_services: bool)
    ensures
        permission_check_of(k) == PermissionCheck::Execute(ResourceType::Swarm) <==> (k == ExecuteKind::RemoveSwarmNodes || k == ExecuteKind::UpdateSwarmNode || k == ExecuteKind::RemoveSwarmStacks || k == ExecuteKind::RemoveSwarmServices || k == ExecuteKind::CreateSwarmConfig || k == ExecuteKind::RotateSwarmConfig || k == ExecuteKind::RemoveSwarmConfigs || k == ExecuteKind::CreateSwarmSecret || k == ExecuteKind::RotateSwarmSecret || k == ExecuteKind::RemoveSwarmSecrets),
        permission_check_of(k) == PermissionCheck::Execute(ResourceType::Server) <==> (k == ExecuteKind::StartContainer || k == ExecuteKind::RestartContainer || k == ExecuteKind::PauseContainer || k == ExecuteKind::UnpauseContainer || k == ExecuteKind::StopContainer || k == ExecuteKind::DestroyContainer || k == ExecuteKind::StartAllContainers || k == ExecuteKind::RestartAllContainers || k == ExecuteKind::PauseAllContainers || k == ExecuteKind::UnpauseAllContainers || k == ExecuteKind::StopAllContainers || k == ExecuteKind::PruneContainers || k == ExecuteKind::DeleteNetwork || k == ExecuteKind::PruneNetworks || k == ExecuteKind::DeleteImage || k == ExecuteKind::PruneImages || k == ExecuteKind::DeleteVolume || k == ExecuteKind::PruneVolumes || k == ExecuteKind::PruneDockerBuilders || k == ExecuteKind::PruneBuildx || k == ExecuteKind::PruneSystem),
        permission_check_of(k) == PermissionCheck::Execute(ResourceType::Deployment) <==> (k == ExecuteKind::Deploy || k == ExecuteKind::PullDeployment || k == ExecuteKind::StartDeployment || k == ExecuteKind::RestartDeployment || k == ExecuteKind::PauseDeployment || k == ExecuteKind::UnpauseDeployment || k == ExecuteKind::StopDeployment || k == ExecuteKind::DestroyDeployment),
        permission_check_of(k) == PermissionCheck::Execute(ResourceType::Build) <==> (k == ExecuteKind::RunBuild || k == ExecuteKind::CancelBuild),
        permission_check_of(k) == PermissionCheck::Execute(ResourceType::Repo) <==> (k == ExecuteKind::CloneRepo || k == ExecuteKind::PullRepo || k == ExecuteKind::BuildRepo || k == ExecuteKind::CancelRepoBuild),
        permission_check_of(k) == PermissionCheck::Execute(ResourceType::Procedure) <==> (k == ExecuteKind::RunProcedure),
        permission_check_of(k) == PermissionCheck::Execute(ResourceType::Action) <==> (k == ExecuteKind::RunAction),
        permission_check_of(k) == PermissionCheck::Execute(ResourceType::ResourceSync) <==> (k == ExecuteKind::RunSync),
        permission_check_of(k) == PermissionCheck::Execute(ResourceType::Stack) <==> (k == ExecuteKind::RunStackService || k == ExecuteKind::DeployStack || k == ExecuteKind::PullStack || k == ExecuteKind::StartStack || k == ExecuteKind::RestartStack || k == ExecuteKind::PauseStack || k == ExecuteKind::UnpauseStack || k == ExecuteKind::StopStack || k == ExecuteKind::DestroyStack || k == ExecuteKind::DeployStackIfChanged),
        permission_check_of(k) == PermissionCheck::Execute(ResourceType::Alerter) <==> (k == ExecuteKind::TestAlerter),
        permission_check_of(k) == PermissionCheck::Skip <==> (k == ExecuteKind::BatchDeploy || k == ExecuteKind::BatchDestroyDeployment || k == ExecuteKind::BatchRunBuild || k == ExecuteKind::BatchCloneRepo || k == ExecuteKind::BatchPullRepo || k == ExecuteKind::BatchBuildRepo || k == ExecuteKind::BatchRunProcedure || k == ExecuteKind::BatchRunAction || k == ExecuteKind::BatchDeployStack || k == ExecuteKind::BatchDeployStackIfChanged || k == ExecuteKind::BatchPullStack || k == ExecuteKind::BatchDestroyStack),
        permission_check_of(k) == PermissionCheck::AuthorizeSendAlert <==> k == ExecuteKind::SendAlert,
        permission_check_of(k) == PermissionCheck::AdminOnly <==> (k == ExecuteKind::ClearRepoCache || k == ExecuteKind::BackupCoreDatabase || k == ExecuteKind::GlobalAutoUpdate || k == ExecuteKind::RotateAllServerKeys || k == ExecuteKind::RotateCoreKeys),
        forall|t: ResourceType| #[trigger] permission_check_of(k) == PermissionCheck::Execute(t)
            ==> (init_plan_of(k, has_services) matches InitPlan::Lookup(u, _) && u == t),
{
}

} // verus!
