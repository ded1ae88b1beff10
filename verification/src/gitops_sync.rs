//! Applying a Resource Sync from a fetched snapshot under GitOps: creates and
//! updates only, never deletes.
use vstd::prelude::*;

use crate::report::ErrorChain;
use crate::text::{chars_of, string_of};

verus! {

/// GitOps never deletes resources; deletes stay pending for a person to apply.
pub fn gitops_delete_allowed() -> (r: bool)
    ensures
        !r,
{
    false
}

/// How computed changes are applied.
#[derive(Debug, Clone, Copy, PartialEq, Eq, Structural)]
pub enum SyncExecutionMode {
    /// Everything the diff computed, deletes included.
    Manual,
    /// Creates and updates only.
    GitOpsSafe,
}

pub fn gitops_execution_mode() -> (r: SyncExecutionMode)
    ensures
        r == SyncExecutionMode::GitOpsSafe,
{
    if gitops_delete_allowed() {
        SyncExecutionMode::Manual
    } else {
        SyncExecutionMode::GitOpsSafe
    }
}

/// Deletes are computed (so they show as pending) when the sync manages its
/// resources or asks for deletes.
pub fn compute_deletes(managed: bool, delete: bool) -> (r: bool)
    ensures
        r == (managed || delete),
{
    managed || delete
}

/// The deletes GitOps applies: none.
pub fn gitops_deletes<T>(to_delete: Vec<T>) -> (r: Vec<T>)
    ensures
        r@.len() == 0,
{
    let mut to_delete = to_delete;
    if !gitops_delete_allowed() {
        to_delete.clear();
    }
    to_delete
}

/// A sync with unreadable files is not applied.
pub fn check_no_file_errors(file_error_count: usize) -> (r: Result<(), ErrorChain>)
    ensures
        file_error_count == 0 ==> r is Ok,
        file_error_count > 0 ==> (r matches Err(e) && e.view_chain() == seq![
            "found file errors; cannot execute GitOps sync"@,
        ]),
{
    if file_error_count > 0 {
        Err(ErrorChain::single(string_of(&chars_of("found file errors; cannot execute GitOps sync"))))
    } else {
        Ok(())
    }
}

/// A Stack as declared in a sync's files: what identifies where it runs.
pub struct DeclaredStack {
    pub name: String,
    pub project_name: String,
    pub server_id: String,
}

/// Where a Stack runs: its server and its compose project, which defaults to
/// the Stack's name.
pub open spec fn target_of(s: DeclaredStack) -> (Seq<char>, Seq<char>) {
    (s.server_id@, if s.project_name@.len() == 0 { s.name@ } else { s.project_name@ })
}

pub fn stack_target(stack: &DeclaredStack) -> (r: (String, String))
    ensures
        (r.0@, r.1@) == target_of(*stack),
{
    let project = if stack.project_name.as_str().is_empty() {
        stack.name.clone()
    } else {
        stack.project_name.clone()
    };
    (stack.server_id.clone(), project)
}

pub open spec fn targets_view(v: Seq<(String, String)>) -> Seq<(Seq<char>, Seq<char>)> {
    v.map_values(|t: (String, String)| (t.0@, t.1@))
}

/// The declared Stacks whose target has no delete pending, in order.
pub open spec fn not_pending(stacks: Seq<DeclaredStack>, pending: Seq<(Seq<char>, Seq<char>)>) -> Seq<DeclaredStack>
    decreases stacks.len(),
{
    if stacks.len() == 0 {
        stacks
    } else {
        let rest = not_pending(stacks.drop_last(), pending);
        if pending.contains(target_of(stacks.last())) {
            rest
        } else {
            rest.push(stacks.last())
        }
    }
}

/// Drops the declared Stacks whose target another sync is about to delete,
/// so that a Stack is not recreated where it is being removed.
pub fn retain_not_pending_delete(stacks: Vec<DeclaredStack>, pending: &[(String, String)]) -> (r: Vec<DeclaredStack>)
    ensures
        r@ == not_pending(stacks@, targets_view(pending@)),
{
    let ghost pv = targets_view(pending@);
    let ghost all = stacks@;
    let mut kept: Vec<DeclaredStack> = Vec::new();
    let mut rest = stacks;
    assert(all.take(0) =~= Seq::<DeclaredStack>::empty());
    let n = rest.len();
    let mut i: usize = 0;
    while i < n
        invariant
            n == all.len(),
            i <= n,
            rest@ == all.skip(i as int),
            kept@ == not_pending(all.take(i as int), pv),
            pv == targets_view(pending@),
        decreases n - i,
    {
        let s = rest.remove(0);
        assert(s == all[i as int]);
        assert(rest@ =~= all.skip(i + 1));
        let t = stack_target(&s);
        let mut found = false;
        for q in 0..pending.len()
            invariant
                found == exists|p: int| 0 <= p < q && pv[p] == (t.0@, t.1@),
                pv == targets_view(pending@),
        {
            if pending[q].0 == t.0 && pending[q].1 == t.1 {
                found = true;
            }
            assert(pv[q as int] == (pending@[q as int].0@, pending@[q as int].1@));
        }
        proof {
            assert(all.take(i + 1).drop_last() =~= all.take(i as int));
            assert(all.take(i + 1).last() == s);
            if found {
                let p = choose|p: int| 0 <= p < pending.len() && pv[p] == (t.0@, t.1@);
                assert(pv.contains(target_of(s)));
            } else {
                assert(!pv.contains(target_of(s)));
            }
        }
        if !found {
            kept.push(s);
        }
        i = i + 1;
    }
    assert(all.take(n as int) =~= all);
    kept
}

/// Appends a log when there is one.
pub fn maybe_extend<L>(logs: &mut Vec<L>, log: Option<L>)
    ensures
        log matches Some(l) ==> final(logs)@ == old(logs)@.push(l),
        log is None ==> final(logs)@ == old(logs)@,
{
    if let Some(log) = log {
        logs.push(log);
    }
}

/// The kinds of resource a sync updates, in the order it applies them.
#[derive(Debug, Clone, Copy, PartialEq, Eq, Structural)]
pub enum SyncStep {
    Variables,
    UserGroups,
    Servers,
    Alerters,
    Actions,
    Swarms,
    Builders,
    Repos,
    Builds,
    Stacks,
    ResourceSyncs,
    Deployments,
    Procedures,
    DeployCache,
}

pub open spec fn sync_order() -> Seq<SyncStep> {
    seq![
        SyncStep::Variables,
        SyncStep::UserGroups,
        SyncStep::Servers,
        SyncStep::Alerters,
        SyncStep::Actions,
        SyncStep::Swarms,
        SyncStep::Builders,
        SyncStep::Repos,
        SyncStep::Builds,
        SyncStep::Stacks,
        SyncStep::ResourceSyncs,
        SyncStep::Deployments,
        SyncStep::Procedures,
        SyncStep::DeployCache,
    ]
}

/// The update steps of a sync: none when nothing changed, otherwise every
/// kind in the fixed order (dependencies such as servers come before what
/// runs on them, and deploys come last).
pub fn sync_steps(has_changes: bool) -> (r: Vec<SyncStep>)
    ensures
        !has_changes ==> r@.len() == 0,
        has_changes ==> r@ == sync_order(),
{
    let mut r: Vec<SyncStep> = Vec::new();
    if has_changes {
        r.push(SyncStep::Variables);
        r.push(SyncStep::UserGroups);
        r.push(SyncStep::Servers);
        r.push(SyncStep::Alerters);
        r.push(SyncStep::Actions);
        r.push(SyncStep::Swarms);
        r.push(SyncStep::Builders);
        r.push(SyncStep::Repos);
        r.push(SyncStep::Builds);
        r.push(SyncStep::Stacks);
        r.push(SyncStep::ResourceSyncs);
        r.push(SyncStep::Deployments);
        r.push(SyncStep::Procedures);
        r.push(SyncStep::DeployCache);
        assert(r@ =~= sync_order());
    }
    r
}

/// What a pending change of some sync would do to its resource.
pub enum PendingChange {
    Create,
    Update,
    /// Delete the resource whose current declaration (TOML) is given.
    Delete(String),
}

/// A pending change of some sync, as stored with that sync.
pub struct PendingDiff {
    /// Whether the change targets a Stack.
    pub targets_stack: bool,
    pub change: PendingChange,
}

/// The declarations of the Stacks that some sync is about to delete, in order.
pub open spec fn pending_stack_deletes(diffs: Seq<PendingDiff>) -> Seq<Seq<char>>
    decreases diffs.len(),
{
    if diffs.len() == 0 {
        Seq::empty()
    } else {
        let rest = pending_stack_deletes(diffs.drop_last());
        let d = diffs.last();
        if d.targets_stack && d.change is Delete {
            rest.push(d.change->0@)
        } else {
            rest
        }
    }
}

pub fn pending_stack_delete_declarations(diffs: &Vec<PendingDiff>) -> (r: Vec<String>)
    ensures
        crate::sort::views(r@) == pending_stack_deletes(diffs@),
{
    let mut r: Vec<String> = Vec::new();
    for i in 0..diffs.len()
        invariant
            crate::sort::views(r@) == pending_stack_deletes(diffs@.take(i as int)),
    {
        proof {
            assert(diffs@.take(i + 1).drop_last() =~= diffs@.take(i as int));
            assert(diffs@.take(i + 1).last() == diffs@[i as int]);
        }
        let d = &diffs[i];
        if d.targets_stack {
            match &d.change {
                PendingChange::Delete(current) => {
                    let ghost before = crate::sort::views(r@);
                    r.push(current.clone());
                    assert(crate::sort::views(r@) =~= before.push(current@));
                },
                _ => {},
            }
        }
    }
    assert(diffs@.take(diffs.len() as int) =~= diffs@);
    r
}

// ----- the sequence of applying a sync -----

pub open spec fn file_errors_message() -> Seq<char> {
    "found file errors; cannot execute GitOps sync"@
}

/// Where applying a Resource Sync stands.
pub enum SyncRunState {
    /// Waiting for the execution update to start and the snapshot's logs to be recorded.
    Starting,
    /// Waiting for the changes to be computed.
    Planning,
    /// Nothing changed; the "No Changes" log is being written.
    ReportingNoChanges,
    /// Running the update steps; the first of `remaining` is running now.
    Executing { remaining: Vec<SyncStep> },
    /// Storing the sync's last-sync time, hash and message.
    RecordingMetadata,
    /// Closing the execution update.
    Finalizing,
    Done { result: Result<(), ErrorChain> },
}

/// What the outside world reports back.
pub enum SyncRunEvent {
    /// The execution update was started and the snapshot's logs recorded;
    /// `file_error_count` files of the snapshot could not be read.
    Started { file_error_count: usize },
    /// The changes were computed; whether there is anything to apply.
    Planned { has_changes: bool },
    /// The running step (or the "No Changes" log) finished; its log, if any,
    /// was appended.
    StepDone,
    MetadataRecorded,
    Finalized,
    Failed { error: ErrorChain },
}

/// What to do next.
#[derive(Debug, Clone, Copy, PartialEq, Eq, Structural)]
pub enum SyncRunAction {
    /// Start the execution update and record the snapshot's logs.
    StartUpdate,
    /// Compute the changes from the snapshot: Stacks with a pending delete are
    /// dropped, deletes are computed (so they show as pending) when
    /// `compute_deletes`, resource changes are applied in `mode`, and variable
    /// and user-group deletes are cleared.
    ComputeChanges { compute_deletes: bool, mode: SyncExecutionMode },
    /// Log that there is nothing to do.
    ReportNoChanges,
    /// Apply the computed changes of one kind of resource.
    Run(SyncStep),
    RecordMetadata,
    Finalize,
    Finish,
    /// Nothing to do: the event did not fit the state.
    Idle,
}

pub enum SyncRunStateView {
    Starting,
    Planning,
    ReportingNoChanges,
    Executing { remaining: Seq<SyncStep> },
    RecordingMetadata,
    Finalizing,
    Done { result: Result<(), Seq<Seq<char>>> },
}

pub enum SyncRunEventView {
    Started { file_error_count: nat },
    Planned { has_changes: bool },
    StepDone,
    MetadataRecorded,
    Finalized,
    Failed { error: Seq<Seq<char>> },
}

impl SyncRunState {
    pub open spec fn view(&self) -> SyncRunStateView {
        match self {
            SyncRunState::Starting => SyncRunStateView::Starting,
            SyncRunState::Planning => SyncRunStateView::Planning,
            SyncRunState::ReportingNoChanges => SyncRunStateView::ReportingNoChanges,
            SyncRunState::Executing { remaining } => SyncRunStateView::Executing { remaining: remaining@ },
            SyncRunState::RecordingMetadata => SyncRunStateView::RecordingMetadata,
            SyncRunState::Finalizing => SyncRunStateView::Finalizing,
            SyncRunState::Done { result } => SyncRunStateView::Done {
                result: match result {
                    Ok(()) => Ok(()),
                    Err(e) => Err(e.view_chain()),
                },
            },
        }
    }
}

impl SyncRunEvent {
    pub open spec fn view(&self) -> SyncRunEventView {
        match self {
            SyncRunEvent::Started { file_error_count } => SyncRunEventView::Started {
                file_error_count: *file_error_count as nat,
            },
            SyncRunEvent::Planned { has_changes } => SyncRunEventView::Planned { has_changes: *has_changes },
            SyncRunEvent::StepDone => SyncRunEventView::StepDone,
            SyncRunEvent::MetadataRecorded => SyncRunEventView::MetadataRecorded,
            SyncRunEvent::Finalized => SyncRunEventView::Finalized,
            SyncRunEvent::Failed { error } => SyncRunEventView::Failed { error: error.view_chain() },
        }
    }
}

/// One step of applying a sync that `managed` its resources or asked for
/// `delete`s. A snapshot with unreadable files ends the run with that error
/// before anything is computed, applied or recorded; otherwise the changes are
/// computed in the GitOps mode, applied kind by kind in the fixed order (or
/// reported as none), and only then is the sync's metadata recorded and the
/// update closed. Any reported failure ends the run with it; a finished run
/// does nothing more, and an event that does not fit changes nothing.
pub open spec fn sync_next(managed: bool, delete: bool, s: SyncRunStateView, e: SyncRunEventView) -> (SyncRunStateView, SyncRunAction) {
    match (s, e) {
        (SyncRunStateView::Done { result }, _) => (s, SyncRunAction::Idle),
        (SyncRunStateView::Starting, SyncRunEventView::Started { file_error_count }) => {
            if file_error_count > 0 {
                (SyncRunStateView::Done { result: Err(seq![file_errors_message()]) }, SyncRunAction::Finish)
            } else {
                (
                    SyncRunStateView::Planning,
                    SyncRunAction::ComputeChanges {
                        compute_deletes: managed || delete,
                        mode: SyncExecutionMode::GitOpsSafe,
                    },
                )
            }
        },
        (SyncRunStateView::Planning, SyncRunEventView::Planned { has_changes }) => {
            if has_changes {
                (SyncRunStateView::Executing { remaining: sync_order() }, SyncRunAction::Run(sync_order()[0]))
            } else {
                (SyncRunStateView::ReportingNoChanges, SyncRunAction::ReportNoChanges)
            }
        },
        (SyncRunStateView::ReportingNoChanges, SyncRunEventView::StepDone) =>
            (SyncRunStateView::RecordingMetadata, SyncRunAction::RecordMetadata),
        (SyncRunStateView::Executing { remaining }, SyncRunEventView::StepDone) => {
            if remaining.len() > 1 {
                (SyncRunStateView::Executing { remaining: remaining.drop_first() }, SyncRunAction::Run(remaining[1]))
            } else {
                (SyncRunStateView::RecordingMetadata, SyncRunAction::RecordMetadata)
            }
        },
        (SyncRunStateView::RecordingMetadata, SyncRunEventView::MetadataRecorded) =>
            (SyncRunStateView::Finalizing, SyncRunAction::Finalize),
        (SyncRunStateView::Finalizing, SyncRunEventView::Finalized) =>
            (SyncRunStateView::Done { result: Ok(()) }, SyncRunAction::Finish),
        (_, SyncRunEventView::Failed { error }) => (SyncRunStateView::Done { result: Err(error) }, SyncRunAction::Finish),
        _ => (s, SyncRunAction::Idle),
    }
}

/// A run that is applying steps has one running.
pub open spec fn sync_run_wf(s: SyncRunStateView) -> bool {
    match s {
        SyncRunStateView::Executing { remaining } => remaining.len() > 0,
        _ => true,
    }
}

/// How a run starts: by starting the execution update.
pub fn sync_run_start() -> (r: (SyncRunState, SyncRunAction))
    ensures
        r.0.view() == SyncRunStateView::Starting,
        r.1 == SyncRunAction::StartUpdate,
{
    (SyncRunState::Starting, SyncRunAction::StartUpdate)
}

/// Advances the application of a sync by one event.
pub fn sync_run_step(managed: bool, delete: bool, state: SyncRunState, event: SyncRunEvent) -> (r: (SyncRunState, SyncRunAction))
    requires
        sync_run_wf(state.view()),
    ensures
        (r.0.view(), r.1) == sync_next(managed, delete, state.view(), event.view()),
        sync_run_wf(r.0.view()),
{
    match state {
        SyncRunState::Done { result } => (SyncRunState::Done { result }, SyncRunAction::Idle),
        SyncRunState::Starting => match event {
            SyncRunEvent::Started { file_error_count } => match check_no_file_errors(file_error_count) {
                Err(e) => (SyncRunState::Done { result: Err(e) }, SyncRunAction::Finish),
                Ok(()) => (
                    SyncRunState::Planning,
                    SyncRunAction::ComputeChanges {
                        compute_deletes: compute_deletes(managed, delete),
                        mode: gitops_execution_mode(),
                    },
                ),
            },
            SyncRunEvent::Failed { error } => (SyncRunState::Done { result: Err(error) }, SyncRunAction::Finish),
            _ => (SyncRunState::Starting, SyncRunAction::Idle),
        },
        SyncRunState::Planning => match event {
            SyncRunEvent::Planned { has_changes } => {
                if has_changes {
                    let steps = sync_steps(true);
                    let first = steps[0];
                    (SyncRunState::Executing { remaining: steps }, SyncRunAction::Run(first))
                } else {
                    (SyncRunState::ReportingNoChanges, SyncRunAction::ReportNoChanges)
                }
            },
            SyncRunEvent::Failed { error } => (SyncRunState::Done { result: Err(error) }, SyncRunAction::Finish),
            _ => (SyncRunState::Planning, SyncRunAction::Idle),
        },
        SyncRunState::ReportingNoChanges => match event {
            SyncRunEvent::StepDone => (SyncRunState::RecordingMetadata, SyncRunAction::RecordMetadata),
            SyncRunEvent::Failed { error } => (SyncRunState::Done { result: Err(error) }, SyncRunAction::Finish),
            _ => (SyncRunState::ReportingNoChanges, SyncRunAction::Idle),
        },
        SyncRunState::Executing { remaining } => match event {
            SyncRunEvent::StepDone => {
                if remaining.len() > 1 {
                    let mut rest = remaining;
                    let ghost before = rest@;
                    rest.remove(0);
                    assert(rest@ =~= before.drop_first());
                    let next = rest[0];
                    (SyncRunState::Executing { remaining: rest }, SyncRunAction::Run(next))
                } else {
                    (SyncRunState::RecordingMetadata, SyncRunAction::RecordMetadata)
                }
            },
            SyncRunEvent::Failed { error } => (SyncRunState::Done { result: Err(error) }, SyncRunAction::Finish),
            _ => (SyncRunState::Executing { remaining }, SyncRunAction::Idle),
        },
        SyncRunState::RecordingMetadata => match event {
            SyncRunEvent::MetadataRecorded => (SyncRunState::Finalizing, SyncRunAction::Finalize),
            SyncRunEvent::Failed { error } => (SyncRunState::Done { result: Err(error) }, SyncRunAction::Finish),
            _ => (SyncRunState::RecordingMetadata, SyncRunAction::Idle),
        },
        SyncRunState::Finalizing => match event {
            SyncRunEvent::Finalized => (SyncRunState::Done { result: Ok(()) }, SyncRunAction::Finish),
            SyncRunEvent::Failed { error } => (SyncRunState::Done { result: Err(error) }, SyncRunAction::Finish),
            _ => (SyncRunState::Finalizing, SyncRunAction::Idle),
        },
    }
}

// ----- laws of applying a sync -----

/// The actions a run takes from state `s` on the events in order.
pub open spec fn sync_run_actions(managed: bool, delete: bool, s: SyncRunStateView, events: Seq<SyncRunEventView>) -> Seq<SyncRunAction>
    decreases events.len(),
{
    if events.len() == 0 {
        Seq::empty()
    } else {
        let (next, action) = sync_next(managed, delete, s, events[0]);
        seq![action] + sync_run_actions(managed, delete, next, events.drop_first())
    }
}

proof fn lemma_finished_run_is_idle(managed: bool, delete: bool, result: Result<(), Seq<Seq<char>>>, events: Seq<SyncRunEventView>)
    ensures
        forall|i: int| 0 <= i < events.len() ==> #[trigger] sync_run_actions(
            managed,
            delete,
            SyncRunStateView::Done { result },
            events,
        )[i] == SyncRunAction::Idle,
        sync_run_actions(managed, delete, SyncRunStateView::Done { result }, events).len() == events.len(),
    decreases events.len(),
{
    if events.len() > 0 {
        lemma_finished_run_is_idle(managed, delete, result, events.drop_first());
        let rest = sync_run_actions(managed, delete, SyncRunStateView::Done { result }, events.drop_first());
        assert(sync_run_actions(managed, delete, SyncRunStateView::Done { result }, events) == seq![SyncRunAction::Idle] + rest);
    }
}

/// A snapshot with unreadable files ends the run with the file-errors error:
/// whatever is reported afterwards, no change is computed or applied and the
/// sync's metadata is not recorded.
pub proof fn law_file_errors_stop_the_sync(managed: bool, delete: bool, file_error_count: nat, later: Seq<SyncRunEventView>)
    requires
        file_error_count > 0,
    ensures
        ({
            let actions = sync_run_actions(
                managed,
                delete,
                SyncRunStateView::Starting,
                seq![SyncRunEventView::Started { file_error_count }] + later,
            );
            &&& sync_next(managed, delete, SyncRunStateView::Starting, SyncRunEventView::Started { file_error_count })
                == (SyncRunStateView::Done { result: Err(seq![file_errors_message()]) }, SyncRunAction::Finish)
            &&& actions.len() == later.len() + 1
            &&& actions[0] == SyncRunAction::Finish
            &&& forall|i: int| 1 <= i < actions.len() ==> actions[i] == SyncRunAction::Idle
        }),
{
    let events = seq![SyncRunEventView::Started { file_error_count }] + later;
    assert(events.drop_first() =~= later);
    let done = SyncRunStateView::Done { result: Err(seq![file_errors_message()]) };
    lemma_finished_run_is_idle(managed, delete, Err(seq![file_errors_message()]), later);
    let actions = sync_run_actions(managed, delete, SyncRunStateView::Starting, events);
    assert(actions == seq![SyncRunAction::Finish] + sync_run_actions(managed, delete, done, later));
    assert forall|i: int| 1 <= i < actions.len() implies actions[i] == SyncRunAction::Idle by {
        assert(actions[i] == sync_run_actions(managed, delete, done, later)[i - 1]);
    }
}

/// Changes are computed only right after a clean start, and always in the
/// GitOps mode, which applies creates and updates and never deletes.
pub proof fn law_changes_computed_in_gitops_mode(managed: bool, delete: bool, s: SyncRunStateView, e: SyncRunEventView)
    requires
        sync_next(managed, delete, s, e).1 is ComputeChanges,
    ensures
        s == SyncRunStateView::Starting,
        e matches SyncRunEventView::Started { file_error_count } && file_error_count == 0,
        sync_next(managed, delete, s, e).1 == (SyncRunAction::ComputeChanges {
            compute_deletes: managed || delete,
            mode: SyncExecutionMode::GitOpsSafe,
        }),
{
}

/// The sync's metadata is recorded only once every step has run (or nothing
/// was to be done).
pub proof fn law_metadata_recorded_after_all_steps(managed: bool, delete: bool, s: SyncRunStateView, e: SyncRunEventView)
    requires
        sync_next(managed, delete, s, e).1 == SyncRunAction::RecordMetadata,
    ensures
        e == SyncRunEventView::StepDone,
        s == SyncRunStateView::ReportingNoChanges || (s matches SyncRunStateView::Executing { remaining }
            && remaining.len() <= 1),
{
}

} // verus!
