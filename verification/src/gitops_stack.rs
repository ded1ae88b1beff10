//! Reconciling a running Stack with a freshly fetched snapshot of its Git
//! source: record the latest contents, then deploy or restart what changed.
use vstd::prelude::*;

use crate::report::ErrorChain;
use crate::sort::views;

verus! {

/// The state of a Stack as last observed.
#[derive(Debug, Clone, Copy, PartialEq, Eq, Structural)]
pub enum StackState {
    Deploying,
    Running,
    Paused,
    Stopped,
    Created,
    Restarting,
    Dead,
    Removing,
    Unhealthy,
    Down,
    Unknown,
}

/// What changed between the deployed files and the latest ones.
pub enum DeployIfChangedAction {
    FullDeploy,
    FullRestart,
    Services { deploy: Vec<String>, restart: Vec<String> },
}

pub enum DeployIfChangedView {
    FullDeploy,
    FullRestart,
    Services { deploy: Seq<Seq<char>>, restart: Seq<Seq<char>> },
}

impl DeployIfChangedAction {
    pub open spec fn view(&self) -> DeployIfChangedView {
        match self {
            DeployIfChangedAction::FullDeploy => DeployIfChangedView::FullDeploy,
            DeployIfChangedAction::FullRestart => DeployIfChangedView::FullRestart,
            DeployIfChangedAction::Services { deploy, restart } => DeployIfChangedView::Services {
                deploy: views(deploy@),
                restart: views(restart@),
            },
        }
    }
}

/// Where a reconciliation stands. `U` is the record of an execution.
pub enum StackReconcileState<U> {
    Start,
    Persisting,
    FullDeploying,
    DeployingServices { restart: Vec<String> },
    Restarting,
    RecordingContents { update: U },
    Done { result: Result<Option<U>, ErrorChain> },
}

/// What the outside world reports back.
pub enum StackReconcileEvent<U> {
    /// The cached state of the Stack (none when it has no cached status) and
    /// whether any latest file failed to read.
    Observed { state: Option<StackState>, remote_errored: bool },
    /// The latest contents were stored; `action` compares them with the
    /// deployed ones (none when nothing was ever deployed).
    Persisted { action: Option<DeployIfChangedAction> },
    Deployed { update: U, success: bool },
    Restarted { update: U, success: bool },
    ContentsRecorded { update: U },
    Failed { error: ErrorChain },
}

/// What to do next.
pub enum StackReconcileAction {
    PersistLatest,
    /// Deploy the services (all of them when the list is empty); `full`
    /// marks a deploy of the whole Stack.
    Deploy { services: Vec<String>, full: bool },
    /// Restart the services (all of them when the list is empty).
    Restart { services: Vec<String> },
    /// Mark the latest contents as deployed in the update.
    RecordDeployedContents,
    Finish,
    Idle,
}

pub enum StackStateView<U> {
    Start,
    Persisting,
    FullDeploying,
    DeployingServices { restart: Seq<Seq<char>> },
    Restarting,
    RecordingContents { update: U },
    Done { result: Result<Option<U>, Seq<Seq<char>>> },
}

pub enum StackEventView<U> {
    Observed { state: Option<StackState>, remote_errored: bool },
    Persisted { action: Option<DeployIfChangedView> },
    Deployed { update: U, success: bool },
    Restarted { update: U, success: bool },
    ContentsRecorded { update: U },
    Failed { error: Seq<Seq<char>> },
}

pub enum StackActionView {
    PersistLatest,
    Deploy { services: Seq<Seq<char>>, full: bool },
    Restart { services: Seq<Seq<char>> },
    RecordDeployedContents,
    Finish,
    Idle,
}

impl<U> StackReconcileState<U> {
    pub open spec fn view(&self) -> StackStateView<U> {
        match self {
            StackReconcileState::Start => StackStateView::Start,
            StackReconcileState::Persisting => StackStateView::Persisting,
            StackReconcileState::FullDeploying => StackStateView::FullDeploying,
            StackReconcileState::DeployingServices { restart } => StackStateView::DeployingServices {
                restart: views(restart@),
            },
            StackReconcileState::Restarting => StackStateView::Restarting,
            StackReconcileState::RecordingContents { update } => StackStateView::RecordingContents {
                update: *update,
            },
            StackReconcileState::Done { result } => StackStateView::Done {
                result: match result {
                    Ok(u) => Ok(*u),
                    Err(e) => Err(e.view_chain()),
                },
            },
        }
    }
}

impl<U> StackReconcileEvent<U> {
    pub open spec fn view(&self) -> StackEventView<U> {
        match self {
            StackReconcileEvent::Observed { state, remote_errored } => StackEventView::Observed {
                state: *state,
                remote_errored: *remote_errored,
            },
            StackReconcileEvent::Persisted { action } => StackEventView::Persisted {
                action: match action {
                    Some(a) => Some(a.view()),
                    None => None,
                },
            },
            StackReconcileEvent::Deployed { update, success } => StackEventView::Deployed {
                update: *update,
                success: *success,
            },
            StackReconcileEvent::Restarted { update, success } => StackEventView::Restarted {
                update: *update,
                success: *success,
            },
            StackReconcileEvent::ContentsRecorded { update } => StackEventView::ContentsRecorded {
                update: *update,
            },
            StackReconcileEvent::Failed { error } => StackEventView::Failed { error: error.view_chain() },
        }
    }
}

impl StackReconcileAction {
    pub open spec fn view(&self) -> StackActionView {
        match self {
            StackReconcileAction::PersistLatest => StackActionView::PersistLatest,
            StackReconcileAction::Deploy { services, full } => StackActionView::Deploy {
                services: views(services@),
                full: *full,
            },
            StackReconcileAction::Restart { services } => StackActionView::Restart { services: views(services@) },
            StackReconcileAction::RecordDeployedContents => StackActionView::RecordDeployedContents,
            StackReconcileAction::Finish => StackActionView::Finish,
            StackReconcileAction::Idle => StackActionView::Idle,
        }
    }
}

pub open spec fn finished<U>(result: Result<Option<U>, Seq<Seq<char>>>) -> (StackStateView<U>, StackActionView) {
    (StackStateView::Done { result }, StackActionView::Finish)
}

/// What to do once the latest contents are stored.
pub open spec fn after_persist<U>(action: Option<DeployIfChangedView>) -> (StackStateView<U>, StackActionView) {
    match action {
        None => (StackStateView::FullDeploying, StackActionView::Deploy { services: Seq::empty(), full: true }),
        Some(DeployIfChangedView::FullDeploy) => (
            StackStateView::FullDeploying,
            StackActionView::Deploy { services: Seq::empty(), full: true },
        ),
        Some(DeployIfChangedView::FullRestart) => (
            StackStateView::Restarting,
            StackActionView::Restart { services: Seq::empty() },
        ),
        Some(DeployIfChangedView::Services { deploy, restart }) => {
            if deploy.len() == 0 && restart.len() == 0 {
                finished(Ok(None))
            } else if deploy.len() > 0 {
                (
                    StackStateView::DeployingServices { restart },
                    StackActionView::Deploy { services: deploy, full: false },
                )
            } else {
                (StackStateView::Restarting, StackActionView::Restart { services: restart })
            }
        },
    }
}

/// One step of reconciling a Stack. Only a Stack observed running with every
/// latest file read is touched; a failed deploy of services is not followed
/// by a restart; the latest contents are marked deployed only after a
/// successful restart. Any reported failure ends the reconciliation with it.
/// An event the state does not expect changes nothing.
pub open spec fn stack_next<U>(s: StackStateView<U>, e: StackEventView<U>) -> (StackStateView<U>, StackActionView) {
    match (s, e) {
        (StackStateView::Start, StackEventView::Observed { state, remote_errored }) => {
            if state == Some(StackState::Running) && !remote_errored {
                (StackStateView::Persisting, StackActionView::PersistLatest)
            } else {
                finished(Ok(None))
            }
        },
        (StackStateView::Persisting, StackEventView::Persisted { action }) => after_persist(action),
        (StackStateView::FullDeploying, StackEventView::Deployed { update, success }) => finished(Ok(Some(update))),
        (StackStateView::DeployingServices { restart }, StackEventView::Deployed { update, success }) => {
            if !success || restart.len() == 0 {
                finished(Ok(Some(update)))
            } else {
                (StackStateView::Restarting, StackActionView::Restart { services: restart })
            }
        },
        (StackStateView::Restarting, StackEventView::Restarted { update, success }) => {
            if success {
                (StackStateView::RecordingContents { update }, StackActionView::RecordDeployedContents)
            } else {
                finished(Ok(Some(update)))
            }
        },
        (StackStateView::RecordingContents { update }, StackEventView::ContentsRecorded { update: recorded }) => finished(
            Ok(Some(recorded)),
        ),
        (StackStateView::Done { result }, _) => (s, StackActionView::Idle),
        (_, StackEventView::Failed { error }) => finished(Err(error)),
        _ => (s, StackActionView::Idle),
    }
}

fn empty_services() -> (r: Vec<String>)
    ensures
        views(r@) == Seq::<Seq<char>>::empty(),
{
    let r: Vec<String> = Vec::new();
    assert(views(r@) =~= Seq::<Seq<char>>::empty());
    r
}

/// Advances a Stack reconciliation by one event.
pub fn stack_reconcile_step<U>(state: StackReconcileState<U>, event: StackReconcileEvent<U>) -> (r: (
    StackReconcileState<U>,
    StackReconcileAction,
))
    ensures
        (r.0.view(), r.1.view()) == stack_next(state.view(), event.view()),
{
    match state {
        StackReconcileState::Done { result } => (StackReconcileState::Done { result }, StackReconcileAction::Idle),
        StackReconcileState::Start => match event {
            StackReconcileEvent::Observed { state, remote_errored } => {
                if state == Some(StackState::Running) && !remote_errored {
                    (StackReconcileState::Persisting, StackReconcileAction::PersistLatest)
                } else {
                    (StackReconcileState::Done { result: Ok(None) }, StackReconcileAction::Finish)
                }
            },
            StackReconcileEvent::Failed { error } => (
                StackReconcileState::Done { result: Err(error) },
                StackReconcileAction::Finish,
            ),
            _ => (StackReconcileState::Start, StackReconcileAction::Idle),
        },
        StackReconcileState::Persisting => match event {
            StackReconcileEvent::Persisted { action } => match action {
                None => (
                    StackReconcileState::FullDeploying,
                    StackReconcileAction::Deploy { services: empty_services(), full: true },
                ),
                Some(DeployIfChangedAction::FullDeploy) => (
                    StackReconcileState::FullDeploying,
                    StackReconcileAction::Deploy { services: empty_services(), full: true },
                ),
                Some(DeployIfChangedAction::FullRestart) => (
                    StackReconcileState::Restarting,
                    StackReconcileAction::Restart { services: empty_services() },
                ),
                Some(DeployIfChangedAction::Services { deploy, restart }) => {
                    if deploy.len() == 0 && restart.len() == 0 {
                        (StackReconcileState::Done { result: Ok(None) }, StackReconcileAction::Finish)
                    } else if deploy.len() > 0 {
                        (
                            StackReconcileState::DeployingServices { restart },
                            StackReconcileAction::Deploy { services: deploy, full: false },
                        )
                    } else {
                        (StackReconcileState::Restarting, StackReconcileAction::Restart { services: restart })
                    }
                },
            },
            StackReconcileEvent::Failed { error } => (
                StackReconcileState::Done { result: Err(error) },
                StackReconcileAction::Finish,
            ),
            _ => (StackReconcileState::Persisting, StackReconcileAction::Idle),
        },
        StackReconcileState::FullDeploying => match event {
            StackReconcileEvent::Deployed { update, success } => (
                StackReconcileState::Done { result: Ok(Some(update)) },
                StackReconcileAction::Finish,
            ),
            StackReconcileEvent::Failed { error } => (
                StackReconcileState::Done { result: Err(error) },
                StackReconcileAction::Finish,
            ),
            _ => (StackReconcileState::FullDeploying, StackReconcileAction::Idle),
        },
        StackReconcileState::DeployingServices { restart } => match event {
            StackReconcileEvent::Deployed { update, success } => {
                if !success || restart.len() == 0 {
                    (StackReconcileState::Done { result: Ok(Some(update)) }, StackReconcileAction::Finish)
                } else {
                    (StackReconcileState::Restarting, StackReconcileAction::Restart { services: restart })
                }
            },
            StackReconcileEvent::Failed { error } => (
                StackReconcileState::Done { result: Err(error) },
                StackReconcileAction::Finish,
            ),
            _ => (StackReconcileState::DeployingServices { restart }, StackReconcileAction::Idle),
        },
        StackReconcileState::Restarting => match event {
            StackReconcileEvent::Restarted { update, success } => {
                if success {
                    (StackReconcileState::RecordingContents { update }, StackReconcileAction::RecordDeployedContents)
                } else {
                    (StackReconcileState::Done { result: Ok(Some(update)) }, StackReconcileAction::Finish)
                }
            },
            StackReconcileEvent::Failed { error } => (
                StackReconcileState::Done { result: Err(error) },
                StackReconcileAction::Finish,
            ),
            _ => (StackReconcileState::Restarting, StackReconcileAction::Idle),
        },
        StackReconcileState::RecordingContents { update } => match event {
            StackReconcileEvent::ContentsRecorded { update: recorded } => (
                StackReconcileState::Done { result: Ok(Some(recorded)) },
                StackReconcileAction::Finish,
            ),
            StackReconcileEvent::Failed { error } => (
                StackReconcileState::Done { result: Err(error) },
                StackReconcileAction::Finish,
            ),
            _ => (StackReconcileState::RecordingContents { update }, StackReconcileAction::Idle),
        },
    }
}

// ----- laws of a reconciliation -----

/// Only a Stack observed running, with every latest file read, is touched;
/// any other Stack ends the reconciliation at once with nothing done.
pub proof fn law_only_running_stacks_are_touched<U>(state: Option<StackState>, remote_errored: bool)
    ensures
        stack_next::<U>(StackStateView::Start, StackEventView::Observed { state, remote_errored }).1
            == StackActionView::PersistLatest <==> (state == Some(StackState::Running) && !remote_errored),
        !(state == Some(StackState::Running) && !remote_errored) ==> stack_next::<U>(
            StackStateView::Start,
            StackEventView::Observed { state, remote_errored },
        ) == finished::<U>(Ok(None)),
{
}

/// A failed deploy of some services is never followed by a restart: the
/// reconciliation ends with the deploy's update.
pub proof fn law_failed_service_deploy_is_not_restarted<U>(restart: Seq<Seq<char>>, update: U)
    ensures
        stack_next(StackStateView::DeployingServices { restart }, StackEventView::Deployed { update, success: false })
            == finished(Ok(Some(update))),
{
}

/// The latest contents are marked deployed only right after a successful
/// restart.
pub proof fn law_contents_recorded_only_after_successful_restart<U>(s: StackStateView<U>, e: StackEventView<U>)
    requires
        stack_next(s, e).1 == StackActionView::RecordDeployedContents,
    ensures
        s == StackStateView::<U>::Restarting,
        e matches StackEventView::Restarted { success, .. } && success,
{
}

/// A reported failure ends an unfinished reconciliation with that failure.
pub proof fn law_failures_end_reconciliation<U>(s: StackStateView<U>, error: Seq<Seq<char>>)
    requires
        !(s is Done),
    ensures
        stack_next(s, StackEventView::Failed { error }) == finished::<U>(Err(error)),
{
}

/// What the comparison of the latest files with the deployed ones leads to:
/// nothing deployed yet or a change that needs it deploys the whole Stack; a
/// change that only needs a restart restarts the whole Stack; changed
/// services are deployed (then the services to restart are restarted);
/// services that only need a restart are restarted; no change does nothing.
pub proof fn law_changes_decide_the_work<U>(deploy: Seq<Seq<char>>, restart: Seq<Seq<char>>)
    ensures
        stack_next::<U>(StackStateView::Persisting, StackEventView::Persisted { action: None }) == (
            StackStateView::<U>::FullDeploying,
            StackActionView::Deploy { services: Seq::empty(), full: true },
        ),
        stack_next::<U>(
            StackStateView::Persisting,
            StackEventView::Persisted { action: Some(DeployIfChangedView::FullDeploy) },
        ) == (StackStateView::<U>::FullDeploying, StackActionView::Deploy { services: Seq::empty(), full: true }),
        stack_next::<U>(
            StackStateView::Persisting,
            StackEventView::Persisted { action: Some(DeployIfChangedView::FullRestart) },
        ) == (StackStateView::<U>::Restarting, StackActionView::Restart { services: Seq::empty() }),
        deploy.len() > 0 ==> stack_next::<U>(
            StackStateView::Persisting,
            StackEventView::Persisted { action: Some(DeployIfChangedView::Services { deploy, restart }) },
        ) == (StackStateView::<U>::DeployingServices { restart }, StackActionView::Deploy { services: deploy, full: false }),
        deploy.len() == 0 && restart.len() > 0 ==> stack_next::<U>(
            StackStateView::Persisting,
            StackEventView::Persisted { action: Some(DeployIfChangedView::Services { deploy, restart }) },
        ) == (StackStateView::<U>::Restarting, StackActionView::Restart { services: restart }),
        deploy.len() == 0 && restart.len() == 0 ==> stack_next::<U>(
            StackStateView::Persisting,
            StackEventView::Persisted { action: Some(DeployIfChangedView::Services { deploy, restart }) },
        ) == (StackStateView::<U>::Done { result: Ok(None) }, StackActionView::Finish),
{
}

} // verus!
