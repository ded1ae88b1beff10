//! Rolling replacement of a compose service's containers, one at a time:
//! scale up by one, wait for the new container, run the pre-stop hook on the
//! old one, remove it, and check the final count.
use vstd::prelude::*;

use crate::report::{strings_of, ErrorChain};
use crate::sort::{sort_strings, sorted, views};
use crate::text::{chars_of, decimal, push_decimal, push_str, string_of};

verus! {

// ----- shell quoting -----

/// Characters that never need quoting for a POSIX shell.
pub open spec fn shell_safe(c: char) -> bool {
    ('a' <= c && c <= 'z') || ('A' <= c && c <= 'Z') || ('0' <= c && c <= '9') || c == '-' || c
        == '_' || c == '=' || c == '/' || c == ',' || c == '.' || c == '+'
}

/// The quoted body: a single quote or '!' is written as '\'' or '\!' between
/// closing and reopening quotes; other characters stay.
pub open spec fn quoted_body(s: Seq<char>) -> Seq<char>
    decreases s.len(),
{
    if s.len() == 0 {
        Seq::empty()
    } else {
        (if s[0] == '\'' || s[0] == '!' {
            seq!['\'', '\\', s[0], '\'']
        } else {
            seq![s[0]]
        }) + quoted_body(s.drop_first())
    }
}

/// `shell_escape::unix::escape`: a non-empty string of safe characters is kept
/// as is; anything else is single-quoted.
pub open spec fn shell_escaped(s: Seq<char>) -> Seq<char> {
    if s.len() > 0 && (forall|i: int| 0 <= i < s.len() ==> shell_safe(#[trigger] s[i])) {
        s
    } else {
        seq!['\''] + quoted_body(s) + seq!['\'']
    }
}

/// Quotes a word for a POSIX shell (`shell_escape::unix::escape`).
#[verifier::external_body]
fn shell_escape(s: &str) -> (r: String)
    ensures
        r@ == shell_escaped(s@),
{
    shell_escape::unix::escape(std::borrow::Cow::Borrowed(s)).into_owned()
}

/// The command that runs the pre-stop hook inside the old container.
pub open spec fn hook_command(container_id: Seq<char>, hook: Seq<char>) -> Seq<char> {
    "docker exec "@ + shell_escaped(container_id) + " sh -c "@ + shell_escaped(hook)
}

/// The command that stops and removes a container.
pub open spec fn remove_command(container_id: Seq<char>) -> Seq<char> {
    "docker stop "@ + shell_escaped(container_id) + " && docker rm "@ + shell_escaped(container_id)
}

pub fn pre_stop_hook_command(container_id: &str, hook: &str) -> (r: String)
    ensures
        r@ == hook_command(container_id@, hook@),
{
    let mut out: Vec<char> = Vec::new();
    push_str(&mut out, "docker exec ");
    let id = shell_escape(container_id);
    push_str(&mut out, id.as_str());
    push_str(&mut out, " sh -c ");
    let h = shell_escape(hook);
    push_str(&mut out, h.as_str());
    string_of(&out)
}

pub fn remove_container_command(container_id: &str) -> (r: String)
    ensures
        r@ == remove_command(container_id@),
{
    let mut out: Vec<char> = Vec::new();
    let id = shell_escape(container_id);
    push_str(&mut out, "docker stop ");
    push_str(&mut out, id.as_str());
    push_str(&mut out, " && docker rm ");
    push_str(&mut out, id.as_str());
    string_of(&out)
}

// ----- which containers are new -----

/// The elements of `after` that do not occur in `before`, in order.
pub open spec fn new_ids(before: Seq<Seq<char>>, after: Seq<Seq<char>>) -> Seq<Seq<char>>
    decreases after.len(),
{
    if after.len() == 0 {
        after
    } else {
        let rest = new_ids(before, after.drop_last());
        if before.contains(after.last()) {
            rest
        } else {
            rest.push(after.last())
        }
    }
}

pub open spec fn one_new_message(found: nat) -> Seq<char> {
    "expected exactly one new container, found "@ + decimal(found)
}

fn contains_string(items: &[String], x: &String) -> (r: bool)
    ensures
        r == views(items@).contains(x@),
{
    for j in 0..items.len()
        invariant
            forall|k: int| 0 <= k < j ==> items@[k]@ != x@,
    {
        if items[j] == *x {
            assert(views(items@)[j as int] == x@);
            return true;
        }
    }
    false
}

/// The one container id in `after` that is not in `before`; it is an error when
/// there is none or more than one.
pub fn exactly_one_new_container(before: &[String], after: &[String]) -> (r: Result<String, ErrorChain>)
    ensures
        new_ids(views(before@), views(after@)).len() == 1 ==> (r matches Ok(id) && id@ == new_ids(
            views(before@),
            views(after@),
        )[0]),
        new_ids(views(before@), views(after@)).len() != 1 ==> (r matches Err(e) && e.view_chain()
            == seq![one_new_message(new_ids(views(before@), views(after@)).len())]),
{
    let ghost bv = views(before@);
    let ghost av = views(after@);
    let mut fresh: Vec<String> = Vec::new();
    for i in 0..after.len()
        invariant
            bv == views(before@),
            av == views(after@),
            views(fresh@) == new_ids(bv, av.take(i as int)),
    {
        proof {
            assert(av.take(i + 1).drop_last() =~= av.take(i as int));
            assert(av.take(i + 1).last() == after@[i as int]@);
        }
        if !contains_string(before, &after[i]) {
            let id = after[i].clone();
            let ghost prev = views(fresh@);
            fresh.push(id);
            assert(views(fresh@) =~= prev.push(after@[i as int]@));
        }
    }
    assert(av.take(after.len() as int) =~= av);
    if fresh.len() == 1 {
        let id = fresh[0].clone();
        Ok(id)
    } else {
        let mut msg: Vec<char> = Vec::new();
        push_str(&mut msg, "expected exactly one new container, found ");
        push_decimal(&mut msg, fresh.len() as u64);
        Err(ErrorChain::single(string_of(&msg)))
    }
}

// ----- the containers of a service -----

/// A container as listed by the engine: its id and its compose labels.
pub struct ContainerLabels {
    pub id: Option<String>,
    pub project: Option<String>,
    pub service: Option<String>,
}

/// The container belongs to the given compose project and service.
pub open spec fn in_service(c: ContainerLabels, project: Seq<char>, service: Seq<char>) -> bool {
    &&& c.project matches Some(p) && p@ == project
    &&& c.service matches Some(s) && s@ == service
}

/// The ids of the service's containers, in list order.
pub open spec fn service_ids(cs: Seq<ContainerLabels>, project: Seq<char>, service: Seq<char>) -> Seq<Seq<char>>
    decreases cs.len(),
{
    if cs.len() == 0 {
        Seq::empty()
    } else {
        let rest = service_ids(cs.drop_last(), project, service);
        let c = cs.last();
        if in_service(c, project, service) && c.id is Some {
            rest.push(c.id->0@)
        } else {
            rest
        }
    }
}

fn string_is(s: &Option<String>, x: &str) -> (r: bool)
    ensures
        r == (s matches Some(v) && v@ == x@),
{
    match s {
        Some(v) => {
            let a = chars_of(v.as_str());
            let b = chars_of(x);
            crate::text::chars_eq(&a, &b)
        },
        None => false,
    }
}

/// The ids of the containers of a compose service, sorted.
pub fn service_container_ids(containers: &[ContainerLabels], project_name: &str, service_name: &str) -> (r: Vec<String>)
    ensures
        sorted(views(r@)),
        views(r@).to_multiset() == service_ids(containers@, project_name@, service_name@).to_multiset(),
{
    let mut ids: Vec<String> = Vec::new();
    for i in 0..containers.len()
        invariant
            views(ids@) == service_ids(containers@.take(i as int), project_name@, service_name@),
    {
        proof {
            assert(containers@.take(i + 1).drop_last() =~= containers@.take(i as int));
            assert(containers@.take(i + 1).last() == containers@[i as int]);
        }
        let c = &containers[i];
        if string_is(&c.project, project_name) && string_is(&c.service, service_name) {
            if let Some(id) = &c.id {
                let ghost prev = views(ids@);
                ids.push(id.clone());
                assert(views(ids@) =~= prev.push(id@));
            }
        }
    }
    assert(containers@.take(containers.len() as int) =~= containers@);
    sort_strings(ids)
}

// ----- readiness of a new container -----

/// The health reported by a container that has a health check.
pub enum Health {
    Healthy,
    Unhealthy,
    Starting,
}

/// What one inspection of the new container decides.
pub enum Readiness {
    Ready,
    Failed(ErrorChain),
    Wait,
}

/// Seconds to wait for readiness: a health check gets a minute, otherwise the
/// container must keep running for ten seconds.
pub fn readiness_window_secs(has_healthcheck: bool) -> (r: u64)
    ensures
        r == (if has_healthcheck { 60u64 } else { 10u64 }),
{
    if has_healthcheck {
        60
    } else {
        10
    }
}

/// Decides from one inspection: no state or not running fails; a healthy
/// container is ready and an unhealthy one fails; without a health check it is
/// ready once the window has passed; a health check still starting fails once
/// the window has passed; otherwise wait. The two deadline flags are the clock
/// read at the two points where the deadline is checked.
pub fn readiness_check(
    has_state: bool,
    running: bool,
    status_label: &str,
    health: Option<Health>,
    past_deadline_first: bool,
    past_deadline_second: bool,
) -> (r: Readiness)
    ensures
        !has_state ==> (r matches Readiness::Failed(e) && e.view_chain() == seq![
            "container inspect response has no state"@,
        ]),
        has_state && !running ==> (r matches Readiness::Failed(e) && e.view_chain() == seq![
            "container entered state '"@ + status_label@ + "'"@,
        ]),
        has_state && running && health == Some(Health::Healthy) ==> r is Ready,
        has_state && running && health == Some(Health::Unhealthy) ==> (r matches Readiness::Failed(e)
            && e.view_chain() == seq!["container became unhealthy"@]),
        has_state && running && health is None && past_deadline_first ==> r is Ready,
        has_state && running && (health == Some(Health::Starting) || (health is None
            && !past_deadline_first)) ==> (if past_deadline_second {
            r matches Readiness::Failed(e) && e.view_chain() == seq!["container readiness timed out"@]
        } else {
            r is Wait
        }),
{
    if !has_state {
        return Readiness::Failed(ErrorChain::single(string_of(&chars_of("container inspect response has no state"))));
    }
    if !running {
        let mut msg: Vec<char> = Vec::new();
        push_str(&mut msg, "container entered state '");
        push_str(&mut msg, status_label);
        push_str(&mut msg, "'");
        return Readiness::Failed(ErrorChain::single(string_of(&msg)));
    }
    match health {
        Some(Health::Healthy) => {
            return Readiness::Ready;
        },
        Some(Health::Unhealthy) => {
            return Readiness::Failed(ErrorChain::single(string_of(&chars_of("container became unhealthy"))));
        },
        Some(Health::Starting) => {},
        None => {
            if past_deadline_first {
                return Readiness::Ready;
            }
        },
    }
    if past_deadline_second {
        return Readiness::Failed(ErrorChain::single(string_of(&chars_of("container readiness timed out"))));
    }
    Readiness::Wait
}

// ----- the rollout state machine -----

/// What a rollout is asked to do.
pub struct RolloutArgs {
    pub service_name: String,
    pub start_command: String,
    pub scale_command: String,
    pub desired_replicas: usize,
    pub pre_stop_hook: Option<String>,
}

/// Where a rollout stands. `remaining` holds the old containers still to be
/// replaced; the first of them is the one being replaced now.
pub enum RolloutState {
    /// Waiting for the service's original containers.
    Listing,
    /// The service had no containers and is being started.
    Starting,
    /// Waiting for the containers before scaling up for `remaining[0]`.
    Replacing { remaining: Vec<String> },
    ScalingUp { remaining: Vec<String>, before: Vec<String> },
    ListingAfter { remaining: Vec<String>, before: Vec<String> },
    AwaitingReady { remaining: Vec<String>, new_id: String },
    RunningHook { remaining: Vec<String>, new_id: String },
    Removing { remaining: Vec<String> },
    /// The new container is being removed after a failure; then `error` is reported.
    CleaningUp { error: ErrorChain },
    /// Waiting for the final containers to check their number.
    Checking,
    Done { result: Result<(), ErrorChain> },
}

/// What the engine reports back.
pub enum RolloutEvent {
    /// The sorted ids of the service's containers.
    Listed { ids: Vec<String> },
    ListFailed { error: ErrorChain },
    /// A command ran; its log has been recorded.
    Ran { success: bool },
    Ready,
    NotReady { error: ErrorChain },
}

/// What to do next.
pub enum RolloutAction {
    ListContainers,
    Run { stage: String, command: String },
    WaitUntilReady { container_id: String },
    Finish,
    /// Nothing to do: the event did not fit the state.
    Idle,
}

pub enum RolloutStateView {
    Listing,
    Starting,
    Replacing { remaining: Seq<Seq<char>> },
    ScalingUp { remaining: Seq<Seq<char>>, before: Seq<Seq<char>> },
    ListingAfter { remaining: Seq<Seq<char>>, before: Seq<Seq<char>> },
    AwaitingReady { remaining: Seq<Seq<char>>, new_id: Seq<char> },
    RunningHook { remaining: Seq<Seq<char>>, new_id: Seq<char> },
    Removing { remaining: Seq<Seq<char>> },
    CleaningUp { error: Seq<Seq<char>> },
    Checking,
    Done { result: Result<(), Seq<Seq<char>>> },
}

pub enum RolloutEventView {
    Listed { ids: Seq<Seq<char>> },
    ListFailed { error: Seq<Seq<char>> },
    Ran { success: bool },
    Ready,
    NotReady { error: Seq<Seq<char>> },
}

pub enum RolloutActionView {
    ListContainers,
    Run { stage: Seq<char>, command: Seq<char> },
    WaitUntilReady { container_id: Seq<char> },
    Finish,
    Idle,
}

pub struct RolloutArgsView {
    pub service_name: Seq<char>,
    pub start_command: Seq<char>,
    pub scale_command: Seq<char>,
    pub desired_replicas: nat,
    pub pre_stop_hook: Option<Seq<char>>,
}

impl RolloutArgs {
    pub open spec fn view(&self) -> RolloutArgsView {
        RolloutArgsView {
            service_name: self.service_name@,
            start_command: self.start_command@,
            scale_command: self.scale_command@,
            desired_replicas: self.desired_replicas as nat,
            pre_stop_hook: match self.pre_stop_hook {
                Some(h) => Some(h@),
                None => None,
            },
        }
    }
}

impl RolloutState {
    pub open spec fn view(&self) -> RolloutStateView {
        match self {
            RolloutState::Listing => RolloutStateView::Listing,
            RolloutState::Starting => RolloutStateView::Starting,
            RolloutState::Replacing { remaining } => RolloutStateView::Replacing { remaining: views(remaining@) },
            RolloutState::ScalingUp { remaining, before } => RolloutStateView::ScalingUp {
                remaining: views(remaining@),
                before: views(before@),
            },
            RolloutState::ListingAfter { remaining, before } => RolloutStateView::ListingAfter {
                remaining: views(remaining@),
                before: views(before@),
            },
            RolloutState::AwaitingReady { remaining, new_id } => RolloutStateView::AwaitingReady {
                remaining: views(remaining@),
                new_id: new_id@,
            },
            RolloutState::RunningHook { remaining, new_id } => RolloutStateView::RunningHook {
                remaining: views(remaining@),
                new_id: new_id@,
            },
            RolloutState::Removing { remaining } => RolloutStateView::Removing { remaining: views(remaining@) },
            RolloutState::CleaningUp { error } => RolloutStateView::CleaningUp { error: error.view_chain() },
            RolloutState::Checking => RolloutStateView::Checking,
            RolloutState::Done { result } => RolloutStateView::Done {
                result: match result {
                    Ok(()) => Ok(()),
                    Err(e) => Err(e.view_chain()),
                },
            },
        }
    }
}

impl RolloutEvent {
    pub open spec fn view(&self) -> RolloutEventView {
        match self {
            RolloutEvent::Listed { ids } => RolloutEventView::Listed { ids: views(ids@) },
            RolloutEvent::ListFailed { error } => RolloutEventView::ListFailed { error: error.view_chain() },
            RolloutEvent::Ran { success } => RolloutEventView::Ran { success: *success },
            RolloutEvent::Ready => RolloutEventView::Ready,
            RolloutEvent::NotReady { error } => RolloutEventView::NotReady { error: error.view_chain() },
        }
    }
}

impl RolloutAction {
    pub open spec fn view(&self) -> RolloutActionView {
        match self {
            RolloutAction::ListContainers => RolloutActionView::ListContainers,
            RolloutAction::Run { stage, command } => RolloutActionView::Run { stage: stage@, command: command@ },
            RolloutAction::WaitUntilReady { container_id } => RolloutActionView::WaitUntilReady {
                container_id: container_id@,
            },
            RolloutAction::Finish => RolloutActionView::Finish,
            RolloutAction::Idle => RolloutActionView::Idle,
        }
    }
}

pub open spec fn quoted_name(name: Seq<char>) -> Seq<char> {
    "'"@ + name + "'"@
}

pub open spec fn start_failed_message(name: Seq<char>) -> Seq<char> {
    "failed to start service "@ + quoted_name(name)
}

pub open spec fn count_mismatch_message(name: Seq<char>, found: nat, desired: nat) -> Seq<char> {
    "service "@ + quoted_name(name) + " has "@ + decimal(found) + " containers but declares "@
        + decimal(desired) + " replicas"@
}

pub open spec fn scale_failed_message(name: Seq<char>) -> Seq<char> {
    "failed to create replacement for service "@ + quoted_name(name)
}

pub open spec fn not_ready_message(new_id: Seq<char>, name: Seq<char>) -> Seq<char> {
    "replacement container "@ + new_id + " for service "@ + quoted_name(name) + " did not become ready"@
}

pub open spec fn hook_failed_message(old_id: Seq<char>) -> Seq<char> {
    "pre-stop hook failed for container "@ + old_id
}

pub open spec fn remove_failed_message(old_id: Seq<char>) -> Seq<char> {
    "failed to remove old container "@ + old_id
}

pub open spec fn final_mismatch_message(name: Seq<char>, found: nat, desired: nat) -> Seq<char> {
    "service "@ + quoted_name(name) + " finished with "@ + decimal(found) + " containers instead of "@
        + decimal(desired)
}

pub open spec fn run(stage: Seq<char>, command: Seq<char>) -> RolloutActionView {
    RolloutActionView::Run { stage, command }
}

pub open spec fn fail(message: Seq<char>) -> (RolloutStateView, RolloutActionView) {
    (RolloutStateView::Done { result: Err(seq![message]) }, RolloutActionView::Finish)
}

/// After the old container `remaining[0]` is gone: the next one, or the final count.
pub open spec fn after_removal(remaining: Seq<Seq<char>>) -> (RolloutStateView, RolloutActionView) {
    if remaining.len() <= 1 {
        (RolloutStateView::Checking, RolloutActionView::ListContainers)
    } else {
        (RolloutStateView::Replacing { remaining: remaining.drop_first() }, RolloutActionView::ListContainers)
    }
}

/// One step of a rollout: the next state and action given the current state
/// and what the engine reported. An event the state does not expect changes
/// nothing and asks for nothing.
pub open spec fn rollout_next(a: RolloutArgsView, s: RolloutStateView, e: RolloutEventView) -> (RolloutStateView, RolloutActionView) {
    match (s, e) {
        (RolloutStateView::Listing, RolloutEventView::Listed { ids }) => {
            if ids.len() == 0 {
                (RolloutStateView::Starting, run("Rolling Start Service"@, a.start_command))
            } else if ids.len() != a.desired_replicas {
                fail(count_mismatch_message(a.service_name, ids.len(), a.desired_replicas))
            } else {
                (RolloutStateView::Replacing { remaining: ids }, RolloutActionView::ListContainers)
            }
        },
        (RolloutStateView::Starting, RolloutEventView::Ran { success }) => {
            if success {
                (RolloutStateView::Done { result: Ok(()) }, RolloutActionView::Finish)
            } else {
                fail(start_failed_message(a.service_name))
            }
        },
        (RolloutStateView::Replacing { remaining }, RolloutEventView::Listed { ids }) => (
            RolloutStateView::ScalingUp { remaining, before: ids },
            run("Rolling Scale Up"@, a.scale_command),
        ),
        (RolloutStateView::ScalingUp { remaining, before }, RolloutEventView::Ran { success }) => {
            if success {
                (RolloutStateView::ListingAfter { remaining, before }, RolloutActionView::ListContainers)
            } else {
                fail(scale_failed_message(a.service_name))
            }
        },
        (RolloutStateView::ListingAfter { remaining, before }, RolloutEventView::Listed { ids }) => {
            let fresh = new_ids(before, ids);
            if fresh.len() == 1 {
                (
                    RolloutStateView::AwaitingReady { remaining, new_id: fresh[0] },
                    RolloutActionView::WaitUntilReady { container_id: fresh[0] },
                )
            } else {
                fail(one_new_message(fresh.len()))
            }
        },
        (RolloutStateView::AwaitingReady { remaining, new_id }, RolloutEventView::Ready) => {
            match a.pre_stop_hook {
                Some(hook) => (
                    RolloutStateView::RunningHook { remaining, new_id },
                    run("Rolling Pre Stop Hook"@, hook_command(remaining[0], hook)),
                ),
                None => (
                    RolloutStateView::Removing { remaining },
                    run("Rolling Remove Old Container"@, remove_command(remaining[0])),
                ),
            }
        },
        (RolloutStateView::AwaitingReady { remaining, new_id }, RolloutEventView::NotReady { error }) => (
            RolloutStateView::CleaningUp {
                error: seq![not_ready_message(new_id, a.service_name)] + error,
            },
            run("Rolling Cleanup New Container"@, remove_command(new_id)),
        ),
        (RolloutStateView::RunningHook { remaining, new_id }, RolloutEventView::Ran { success }) => {
            if success {
                (
                    RolloutStateView::Removing { remaining },
                    run("Rolling Remove Old Container"@, remove_command(remaining[0])),
                )
            } else {
                (
                    RolloutStateView::CleaningUp { error: seq![hook_failed_message(remaining[0])] },
                    run("Rolling Cleanup New Container"@, remove_command(new_id)),
                )
            }
        },
        (RolloutStateView::Removing { remaining }, RolloutEventView::Ran { success }) => {
            if success {
                after_removal(remaining)
            } else {
                fail(remove_failed_message(remaining[0]))
            }
        },
        (RolloutStateView::CleaningUp { error }, RolloutEventView::Ran { success }) => (
            RolloutStateView::Done { result: Err(error) },
            RolloutActionView::Finish,
        ),
        (RolloutStateView::Checking, RolloutEventView::Listed { ids }) => {
            if ids.len() != a.desired_replicas {
                fail(final_mismatch_message(a.service_name, ids.len(), a.desired_replicas))
            } else {
                (RolloutStateView::Done { result: Ok(()) }, RolloutActionView::Finish)
            }
        },
        (RolloutStateView::Listing, RolloutEventView::ListFailed { error }) => (
            RolloutStateView::Done { result: Err(error) },
            RolloutActionView::Finish,
        ),
        (RolloutStateView::Replacing { remaining }, RolloutEventView::ListFailed { error }) => (
            RolloutStateView::Done { result: Err(error) },
            RolloutActionView::Finish,
        ),
        (RolloutStateView::ListingAfter { remaining, before }, RolloutEventView::ListFailed { error }) => (
            RolloutStateView::Done { result: Err(error) },
            RolloutActionView::Finish,
        ),
        (RolloutStateView::Checking, RolloutEventView::ListFailed { error }) => (
            RolloutStateView::Done { result: Err(error) },
            RolloutActionView::Finish,
        ),
        _ => (s, RolloutActionView::Idle),
    }
}

/// The states that replace an old container have one to replace.
pub open spec fn rollout_wf(s: RolloutStateView) -> bool {
    match s {
        RolloutStateView::Replacing { remaining } => remaining.len() > 0,
        RolloutStateView::ScalingUp { remaining, before } => remaining.len() > 0,
        RolloutStateView::ListingAfter { remaining, before } => remaining.len() > 0,
        RolloutStateView::AwaitingReady { remaining, new_id } => remaining.len() > 0,
        RolloutStateView::RunningHook { remaining, new_id } => remaining.len() > 0,
        RolloutStateView::Removing { remaining } => remaining.len() > 0,
        _ => true,
    }
}

fn push_quoted(m: &mut Vec<char>, name: &String)
    ensures
        final(m)@ == old(m)@ + quoted_name(name@),
{
    push_str(m, "'");
    push_str(m, name.as_str());
    push_str(m, "'");
    assert(final(m)@ =~= old(m)@ + quoted_name(name@));
}

fn message_with_name(prefix: &str, name: &String) -> (r: String)
    ensures
        r@ == prefix@ + quoted_name(name@),
{
    let mut m: Vec<char> = Vec::new();
    push_str(&mut m, prefix);
    push_quoted(&mut m, name);
    string_of(&m)
}

fn count_prefix(m: &mut Vec<char>, name: &String, middle: &str, found: usize, between: &str, desired: usize)
    ensures
        final(m)@ == old(m)@ + "service "@ + quoted_name(name@) + middle@ + decimal(found as nat) + between@
            + decimal(desired as nat),
{
    push_str(m, "service ");
    push_quoted(m, name);
    push_str(m, middle);
    push_decimal(m, found as u64);
    push_str(m, between);
    push_decimal(m, desired as u64);
    assert(final(m)@ =~= old(m)@ + "service "@ + quoted_name(name@) + middle@ + decimal(found as nat) + between@
        + decimal(desired as nat));
}

fn text(s: &str) -> (r: String)
    ensures
        r@ == s@,
{
    string_of(&chars_of(s))
}

fn finish_with(message: String) -> (r: (RolloutState, RolloutAction))
    ensures
        r.0.view() == (RolloutStateView::Done { result: Err(seq![message@]) }),
        r.1.view() == RolloutActionView::Finish,
{
    (RolloutState::Done { result: Err(ErrorChain::single(message)) }, RolloutAction::Finish)
}

fn old_id_of(remaining: &Vec<String>) -> (r: String)
    requires
        remaining.len() > 0,
    ensures
        r@ == views(remaining@)[0],
{
    remaining[0].clone()
}

/// Advances a rollout by one event.
pub fn rollout_step(args: &RolloutArgs, state: RolloutState, event: RolloutEvent) -> (r: (RolloutState, RolloutAction))
    requires
        rollout_wf(state.view()),
    ensures
        (r.0.view(), r.1.view()) == rollout_next(args.view(), state.view(), event.view()),
        rollout_wf(r.0.view()),
{
    let ghost sv = state.view();
    let ghost ev = event.view();
    match state {
        RolloutState::Listing => match event {
            RolloutEvent::Listed { ids } => {
                if ids.len() == 0 {
                    (
                        RolloutState::Starting,
                        RolloutAction::Run {
                            stage: text("Rolling Start Service"),
                            command: args.start_command.clone(),
                        },
                    )
                } else if ids.len() != args.desired_replicas {
                    let mut m: Vec<char> = Vec::new();
                    count_prefix(&mut m, &args.service_name, " has ", ids.len(), " containers but declares ", args.desired_replicas);
                    push_str(&mut m, " replicas");
                    finish_with(string_of(&m))
                } else {
                    (RolloutState::Replacing { remaining: ids }, RolloutAction::ListContainers)
                }
            },
            RolloutEvent::ListFailed { error } => (RolloutState::Done { result: Err(error) }, RolloutAction::Finish),
            _ => (RolloutState::Listing, RolloutAction::Idle),
        },
        RolloutState::Starting => match event {
            RolloutEvent::Ran { success } => {
                if success {
                    (RolloutState::Done { result: Ok(()) }, RolloutAction::Finish)
                } else {
                    finish_with(message_with_name("failed to start service ", &args.service_name))
                }
            },
            _ => (RolloutState::Starting, RolloutAction::Idle),
        },
        RolloutState::Replacing { remaining } => match event {
            RolloutEvent::Listed { ids } => (
                RolloutState::ScalingUp { remaining, before: ids },
                RolloutAction::Run { stage: text("Rolling Scale Up"), command: args.scale_command.clone() },
            ),
            RolloutEvent::ListFailed { error } => (RolloutState::Done { result: Err(error) }, RolloutAction::Finish),
            _ => (RolloutState::Replacing { remaining }, RolloutAction::Idle),
        },
        RolloutState::ScalingUp { remaining, before } => match event {
            RolloutEvent::Ran { success } => {
                if success {
                    (RolloutState::ListingAfter { remaining, before }, RolloutAction::ListContainers)
                } else {
                    finish_with(
                        message_with_name("failed to create replacement for service ", &args.service_name),
                    )
                }
            },
            _ => (RolloutState::ScalingUp { remaining, before }, RolloutAction::Idle),
        },
        RolloutState::ListingAfter { remaining, before } => match event {
            RolloutEvent::Listed { ids } => {
                match exactly_one_new_container(&before, &ids) {
                    Ok(new_id) => {
                        let waiting = new_id.clone();
                        (
                            RolloutState::AwaitingReady { remaining, new_id },
                            RolloutAction::WaitUntilReady { container_id: waiting },
                        )
                    },
                    Err(error) => (RolloutState::Done { result: Err(error) }, RolloutAction::Finish),
                }
            },
            RolloutEvent::ListFailed { error } => (RolloutState::Done { result: Err(error) }, RolloutAction::Finish),
            _ => (RolloutState::ListingAfter { remaining, before }, RolloutAction::Idle),
        },
        RolloutState::AwaitingReady { remaining, new_id } => match event {
            RolloutEvent::Ready => {
                let old_id = old_id_of(&remaining);
                match &args.pre_stop_hook {
                    Some(hook) => {
                        let command = pre_stop_hook_command(old_id.as_str(), hook.as_str());
                        (
                            RolloutState::RunningHook { remaining, new_id },
                            RolloutAction::Run { stage: text("Rolling Pre Stop Hook"), command },
                        )
                    },
                    None => {
                        let command = remove_container_command(old_id.as_str());
                        (
                            RolloutState::Removing { remaining },
                            RolloutAction::Run { stage: text("Rolling Remove Old Container"), command },
                        )
                    },
                }
            },
            RolloutEvent::NotReady { error } => {
                let mut m: Vec<char> = Vec::new();
                push_str(&mut m, "replacement container ");
                push_str(&mut m, new_id.as_str());
                push_str(&mut m, " for service ");
                push_quoted(&mut m, &args.service_name);
                push_str(&mut m, " did not become ready");
                let wrapped = error.context(string_of(&m));
                let command = remove_container_command(new_id.as_str());
                (
                    RolloutState::CleaningUp { error: wrapped },
                    RolloutAction::Run { stage: text("Rolling Cleanup New Container"), command },
                )
            },
            _ => (RolloutState::AwaitingReady { remaining, new_id }, RolloutAction::Idle),
        },
        RolloutState::RunningHook { remaining, new_id } => match event {
            RolloutEvent::Ran { success } => {
                let old_id = old_id_of(&remaining);
                if success {
                    let command = remove_container_command(old_id.as_str());
                    (
                        RolloutState::Removing { remaining },
                        RolloutAction::Run { stage: text("Rolling Remove Old Container"), command },
                    )
                } else {
                    let mut m: Vec<char> = Vec::new();
                    push_str(&mut m, "pre-stop hook failed for container ");
                    push_str(&mut m, old_id.as_str());
                    let command = remove_container_command(new_id.as_str());
                    (
                        RolloutState::CleaningUp { error: ErrorChain::single(string_of(&m)) },
                        RolloutAction::Run { stage: text("Rolling Cleanup New Container"), command },
                    )
                }
            },
            _ => (RolloutState::RunningHook { remaining, new_id }, RolloutAction::Idle),
        },
        RolloutState::Removing { remaining } => match event {
            RolloutEvent::Ran { success } => {
                if success {
                    if remaining.len() <= 1 {
                        (RolloutState::Checking, RolloutAction::ListContainers)
                    } else {
                        let ghost rv = views(remaining@);
                        let mut rest = remaining;
                        rest.remove(0);
                        assert(views(rest@) =~= rv.drop_first());
                        (RolloutState::Replacing { remaining: rest }, RolloutAction::ListContainers)
                    }
                } else {
                    let old_id = old_id_of(&remaining);
                    let mut m: Vec<char> = Vec::new();
                    push_str(&mut m, "failed to remove old container ");
                    push_str(&mut m, old_id.as_str());
                    finish_with(string_of(&m))
                }
            },
            _ => (RolloutState::Removing { remaining }, RolloutAction::Idle),
        },
        RolloutState::CleaningUp { error } => match event {
            RolloutEvent::Ran { success } => (RolloutState::Done { result: Err(error) }, RolloutAction::Finish),
            _ => (RolloutState::CleaningUp { error }, RolloutAction::Idle),
        },
        RolloutState::Checking => match event {
            RolloutEvent::Listed { ids } => {
                if ids.len() != args.desired_replicas {
                    let mut m: Vec<char> = Vec::new();
                    count_prefix(&mut m, &args.service_name, " finished with ", ids.len(), " containers instead of ", args.desired_replicas);
                    finish_with(string_of(&m))
                } else {
                    (RolloutState::Done { result: Ok(()) }, RolloutAction::Finish)
                }
            },
            RolloutEvent::ListFailed { error } => (RolloutState::Done { result: Err(error) }, RolloutAction::Finish),
            _ => (RolloutState::Checking, RolloutAction::Idle),
        },
        RolloutState::Done { result } => (RolloutState::Done { result }, RolloutAction::Idle),
    }
}

// ----- laws of a rollout -----

/// An old container is removed only once its replacement is ready, and, when
/// a pre-stop hook is set, only after the hook succeeded.
pub proof fn law_old_container_removed_only_after_replacement_ready(a: RolloutArgsView, s: RolloutStateView, e: RolloutEventView)
    requires
        rollout_wf(s),
        rollout_next(a, s, e).1 matches RolloutActionView::Run { stage, .. } && stage == "Rolling Remove Old Container"@,
    ensures
        (s is AwaitingReady && e is Ready && a.pre_stop_hook is None)
            || (s is RunningHook && e == (RolloutEventView::Ran { success: true })),
{
    reveal_strlit("Rolling Remove Old Container");
    reveal_strlit("Rolling Start Service");
    reveal_strlit("Rolling Scale Up");
    reveal_strlit("Rolling Pre Stop Hook");
    reveal_strlit("Rolling Cleanup New Container");
    let remove = "Rolling Remove Old Container"@;
    assert(remove.len() == 28);
    assert("Rolling Start Service"@.len() == 21);
    assert("Rolling Scale Up"@.len() == 16);
    assert("Rolling Pre Stop Hook"@.len() == 21);
    assert("Rolling Cleanup New Container"@.len() == 29);
}

/// A replacement that does not become ready is removed again, and the
/// rollout then ends with an error that names it, whatever the removal gave.
pub proof fn law_unready_replacement_is_cleaned_up(
    a: RolloutArgsView,
    remaining: Seq<Seq<char>>,
    new_id: Seq<char>,
    error: Seq<Seq<char>>,
    cleanup_success: bool,
)
    ensures
        ({
            let (s1, act) = rollout_next(
                a,
                RolloutStateView::AwaitingReady { remaining, new_id },
                RolloutEventView::NotReady { error },
            );
            &&& act == run("Rolling Cleanup New Container"@, remove_command(new_id))
            &&& rollout_next(a, s1, RolloutEventView::Ran { success: cleanup_success }) == (
                RolloutStateView::Done { result: Err(seq![not_ready_message(new_id, a.service_name)] + error) },
                RolloutActionView::Finish,
            )
        }),
{
}

/// When no replacement can be created, the rollout ends with an error and
/// removes nothing.
pub proof fn law_failed_scale_up_stops(a: RolloutArgsView, remaining: Seq<Seq<char>>, before: Seq<Seq<char>>)
    ensures
        rollout_next(a, RolloutStateView::ScalingUp { remaining, before }, RolloutEventView::Ran { success: false })
            == fail(scale_failed_message(a.service_name)),
{
}

/// A rollout succeeds at its final check exactly when the service has the
/// declared number of containers.
pub proof fn law_final_count_decides(a: RolloutArgsView, ids: Seq<Seq<char>>)
    ensures
        (rollout_next(a, RolloutStateView::Checking, RolloutEventView::Listed { ids }).0
            == RolloutStateView::Done { result: Ok(()) }) <==> ids.len() == a.desired_replicas,
{
}

/// The first listing decides how a rollout begins: no containers start the
/// service with the start command; as many containers as declared replicas
/// start replacing them, all of them; any other number ends the rollout with
/// an error before any container is scaled, started or removed.
pub proof fn law_first_listing_decides(a: RolloutArgsView, ids: Seq<Seq<char>>)
    ensures
        ids.len() == 0 ==> rollout_next(a, RolloutStateView::Listing, RolloutEventView::Listed { ids }) == (
            RolloutStateView::Starting,
            RolloutActionView::Run { stage: "Rolling Start Service"@, command: a.start_command },
        ),
        ids.len() > 0 && ids.len() == a.desired_replicas ==> rollout_next(
            a,
            RolloutStateView::Listing,
            RolloutEventView::Listed { ids },
        ) == (RolloutStateView::Replacing { remaining: ids }, RolloutActionView::ListContainers),
        ids.len() > 0 && ids.len() != a.desired_replicas ==> {
            let (s, act) = rollout_next(a, RolloutStateView::Listing, RolloutEventView::Listed { ids });
            &&& s matches RolloutStateView::Done { result } && result is Err
            &&& act == RolloutActionView::Finish
        },
{
}

} // verus!
