//! Choosing the alerters a custom alert goes to, and testing one alerter.
use vstd::prelude::*;

use crate::command::Log;
use crate::execute::{ApiError, User, bad_request_status};
use crate::report::ErrorChain;
use crate::sort::views;
use crate::text::{chars_of, string_of};

verus! {

/// The kinds of alert an alerter can be limited to.
#[derive(Debug, Clone, Copy, PartialEq, Eq, Structural)]
pub enum AlertDataVariant {
    Test,
    ServerUnreachable,
    ServerCpu,
    ServerMem,
    ServerDisk,
    ServerVersionMismatch,
    ContainerStateChange,
    DeploymentImageUpdateAvailable,
    DeploymentAutoUpdated,
    StackStateChange,
    StackImageUpdateAvailable,
    StackAutoUpdated,
    AwsBuilderTerminationFailed,
    ResourceSyncPendingUpdates,
    BuildFailed,
    RepoBuildFailed,
    ProcedureFailed,
    ActionFailed,
    ScheduleRun,
    Custom,
}

/// An alerter as far as alert routing reads it.
pub struct AlerterEntry {
    pub id: String,
    pub name: String,
    pub enabled: bool,
    /// The kinds of alert it takes; empty means all kinds.
    pub alert_types: Vec<AlertDataVariant>,
}

/// An alerter takes a custom alert when it is enabled, was asked for by name
/// or id (or no alerter was named), and takes custom alerts.
pub open spec fn is_send_candidate(a: AlerterEntry, requested: Seq<Seq<char>>) -> bool {
    &&& a.enabled
    &&& (requested.len() == 0 || requested.contains(a.name@) || requested.contains(a.id@))
    &&& (a.alert_types@.len() == 0 || a.alert_types@.contains(AlertDataVariant::Custom))
}

/// The alerters that take the alert, in their order.
pub open spec fn send_candidates(alerters: Seq<AlerterEntry>, requested: Seq<Seq<char>>) -> Seq<AlerterEntry>
    decreases alerters.len(),
{
    if alerters.len() == 0 {
        alerters
    } else {
        let rest = send_candidates(alerters.drop_last(), requested);
        if is_send_candidate(alerters.last(), requested) {
            rest.push(alerters.last())
        } else {
            rest
        }
    }
}

/// The successful results, in order.
pub open spec fn oks<T, E>(outs: Seq<Result<T, E>>) -> Seq<T>
    decreases outs.len(),
{
    if outs.len() == 0 {
        Seq::empty()
    } else {
        let rest = oks(outs.drop_last());
        match outs.last() {
            Ok(v) => rest.push(v),
            Err(_) => rest,
        }
    }
}

pub open spec fn no_valid_alerters_message() -> Seq<char> {
    "Could not find any valid alerters to send to, this required Execute permissions on the Alerter"@
}

pub open spec fn is_no_valid_alerters(e: ApiError) -> bool {
    e.status == bad_request_status() && e.error.view_chain() == seq![no_valid_alerters_message()]
}

fn contains_string(items: &Vec<String>, s: &String) -> (r: bool)
    ensures
        r == views(items@).contains(s@),
{
    let ghost iv = views(items@);
    let mut found = false;
    for q in 0..items.len()
        invariant
            iv == views(items@),
            found == exists|p: int| 0 <= p < q && iv[p] == s@,
    {
        assert(iv[q as int] == items@[q as int]@);
        if items[q] == *s {
            found = true;
        }
    }
    proof {
        if found {
            let p = choose|p: int| 0 <= p < items.len() && iv[p] == s@;
            assert(iv.contains(s@));
        }
    }
    found
}

fn takes_custom(types: &Vec<AlertDataVariant>) -> (r: bool)
    ensures
        r == (types@.len() == 0 || types@.contains(AlertDataVariant::Custom)),
{
    if types.len() == 0 {
        return true;
    }
    let mut found = false;
    for q in 0..types.len()
        invariant
            found == exists|p: int| 0 <= p < q && types@[p] == AlertDataVariant::Custom,
    {
        if types[q] == AlertDataVariant::Custom {
            found = true;
        }
    }
    found
}

/// Whether the alerter takes a custom alert sent to `requested`.
pub fn send_candidate(alerter: &AlerterEntry, requested: &Vec<String>) -> (r: bool)
    ensures
        r == is_send_candidate(*alerter, views(requested@)),
{
    alerter.enabled
        && (requested.len() == 0 || contains_string(requested, &alerter.name) || contains_string(requested, &alerter.id))
        && takes_custom(&alerter.alert_types)
}

/// The alerters a custom alert sent to `requested` goes to, before permissions.
pub fn send_alert_candidates(requested: &Vec<String>, alerters: Vec<AlerterEntry>) -> (r: Vec<AlerterEntry>)
    ensures
        r@ == send_candidates(alerters@, views(requested@)),
{
    let ghost all = alerters@;
    let ghost req = views(requested@);
    let mut kept: Vec<AlerterEntry> = Vec::new();
    let mut rest = alerters;
    assert(all.take(0) =~= Seq::<AlerterEntry>::empty());
    let n = rest.len();
    let mut i: usize = 0;
    while i < n
        invariant
            n == all.len(),
            i <= n,
            rest@ == all.skip(i as int),
            kept@ == send_candidates(all.take(i as int), req),
            req == views(requested@),
        decreases n - i,
    {
        let a = rest.remove(0);
        assert(a == all[i as int]);
        assert(rest@ =~= all.skip(i + 1));
        assert(all.take(i + 1).drop_last() =~= all.take(i as int));
        assert(all.take(i + 1).last() == a);
        if send_candidate(&a, requested) {
            kept.push(a);
        }
        i = i + 1;
    }
    assert(all.take(n as int) =~= all);
    kept
}

/// The alerters a custom alert goes to. Admins may use every candidate;
/// anyone else only those for which `check_execute` grants Execute
/// permission. When none is left the request is refused as a bad request.
pub fn authorized_send_alert_alerters_with<F>(
    requested: &Vec<String>,
    user: &User,
    alerters: Vec<AlerterEntry>,
    check_execute: F,
) -> (r: Result<Vec<AlerterEntry>, ApiError>)
    where
        F: Fn(AlerterEntry) -> Result<AlerterEntry, ErrorChain>,
    requires
        forall|a: AlerterEntry| #[trigger] check_execute.requires((a,)),
    ensures
        ({
            let cands = send_candidates(alerters@, views(requested@));
            &&& user.admin ==> match r {
                Ok(v) => v@ == cands && cands.len() > 0,
                Err(e) => cands.len() == 0 && is_no_valid_alerters(e),
            }
            &&& !user.admin ==> exists|outs: Seq<Result<AlerterEntry, ErrorChain>>| {
                &&& outs.len() == cands.len()
                &&& (forall|i: int| 0 <= i < cands.len() ==> #[trigger] check_execute.ensures((cands[i],), outs[i]))
                &&& match r {
                    Ok(v) => v@ == #[trigger] oks(outs) && v@.len() > 0,
                    Err(e) => oks(outs).len() == 0 && is_no_valid_alerters(e),
                }
            }
        }),
{
    let candidates = send_alert_candidates(requested, alerters);
    let ghost cands = candidates@;
    let allowed = if user.admin {
        candidates
    } else {
        let mut kept: Vec<AlerterEntry> = Vec::new();
        let ghost mut outs: Seq<Result<AlerterEntry, ErrorChain>> = Seq::empty();
        let mut rest = candidates;
        let n = rest.len();
        let mut i: usize = 0;
        while i < n
            invariant
                n == cands.len(),
                i <= n,
                rest@ == cands.skip(i as int),
                outs.len() == i,
                forall|j: int| 0 <= j < i ==> #[trigger] check_execute.ensures((cands[j],), outs[j]),
                kept@ == oks(outs),
                forall|a: AlerterEntry| #[trigger] check_execute.requires((a,)),
            decreases n - i,
        {
            let a = rest.remove(0);
            assert(a == cands[i as int]);
            assert(rest@ =~= cands.skip(i + 1));
            let out = check_execute(a);
            let ghost prev = outs;
            proof {
                outs = outs.push(out);
                assert(outs.drop_last() =~= prev);
            }
            match out {
                Ok(v) => kept.push(v),
                Err(_) => {},
            }
            assert forall|j: int| 0 <= j < i + 1 implies #[trigger] check_execute.ensures((cands[j],), outs[j]) by {
                if j < i {
                    assert(outs[j] == prev[j]);
                }
            }
            i = i + 1;
        }
        assert(oks(outs) == kept@);
        kept
    };
    if allowed.len() == 0 {
        return Err(ApiError {
            status: 400,
            error: ErrorChain::single(string_of(&chars_of(
                "Could not find any valid alerters to send to, this required Execute permissions on the Alerter",
            ))),
        });
    }
    Ok(allowed)
}

pub open spec fn disabled_alerter_message() -> Seq<char> {
    "Alerter is disabled. Enable the Alerter to send alerts."@
}

pub open spec fn test_alert_sent_message() -> Seq<char> {
    "Alert sent successfully. It should be visible at your alerting destination."@
}

/// The log of testing an alerter at time `ts`: a disabled alerter is not sent
/// to and reports so; otherwise the test alert is sent with `send` and the log
/// reports whether that worked.
pub fn test_alerter_log<F>(enabled: bool, send: F, ts: i64) -> (r: Log)
    where
        F: FnOnce() -> Result<(), ErrorChain>,
    requires
        enabled ==> send.requires(()),
    ensures
        r.stage@ == "Test Alerter"@,
        r.command@.len() == 0,
        r.start_ts == ts,
        r.end_ts == ts,
        !enabled ==> !r.success && r.stderr@ == disabled_alerter_message() && r.stdout@.len() == 0,
        enabled ==> exists|out: Result<(), ErrorChain>| #[trigger] send.ensures((), out) && match out {
            Ok(_) => r.success && r.stdout@ == test_alert_sent_message() && r.stderr@.len() == 0,
            Err(e) => !r.success && r.stderr@ == crate::report::joined(e.view_chain()) && r.stdout@.len() == 0,
        },
{
    let stage = string_of(&chars_of("Test Alerter"));
    if !enabled {
        return Log::error(stage, string_of(&chars_of("Alerter is disabled. Enable the Alerter to send alerts.")), ts);
    }
    let out = send();
    let ghost o = out;
    let r = match out {
        Ok(()) => Log::simple(
            stage,
            string_of(&chars_of("Alert sent successfully. It should be visible at your alerting destination.")),
            ts,
        ),
        Err(e) => Log::error(stage, e.message(), ts),
    };
    assert(send.ensures((), o));
    r
}

/// Every alerter chosen for a custom alert takes it, and comes from the given
/// alerters, in their order.
pub proof fn law_candidates_take_the_alert(alerters: Seq<AlerterEntry>, requested: Seq<Seq<char>>)
    ensures
        forall|i: int| 0 <= i < send_candidates(alerters, requested).len()
            ==> is_send_candidate(#[trigger] send_candidates(alerters, requested)[i], requested),
        send_candidates(alerters, requested).len() <= alerters.len(),
        forall|i: int| 0 <= i < send_candidates(alerters, requested).len()
            ==> alerters.contains(#[trigger] send_candidates(alerters, requested)[i]),
    decreases alerters.len(),
{
    if alerters.len() > 0 {
        let rest = alerters.drop_last();
        law_candidates_take_the_alert(rest, requested);
        let c = send_candidates(alerters, requested);
        let r = send_candidates(rest, requested);
        assert forall|i: int| 0 <= i < c.len() implies alerters.contains(#[trigger] c[i]) by {
            if i < r.len() {
                assert(c[i] == r[i]);
                let j = choose|j: int| 0 <= j < rest.len() && rest[j] == r[i];
                assert(alerters[j] == rest[j]);
            } else {
                assert(c[i] == alerters.last());
                assert(alerters[alerters.len() - 1] == alerters.last());
            }
        }
    }
}

} // verus!
