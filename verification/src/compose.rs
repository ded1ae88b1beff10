//! Compose commands for Stack executions on a server.
use vstd::prelude::*;

use crate::command::Log;
use crate::report::ErrorChain;
use crate::sort::views;
use crate::text::{chars_of, decimal_int, join_sep, join_strings, push_chars, push_decimal_i64, push_str, string_of};

verus! {

/// The services appended to a compose command: nothing for the whole Stack,
/// otherwise a space and the services separated by spaces.
pub open spec fn service_args_of(services: Seq<Seq<char>>) -> Seq<char> {
    if services.len() == 0 {
        Seq::empty()
    } else {
        seq![' '] + join_sep(services, seq![' '])
    }
}

pub fn service_args(services: &Vec<String>) -> (r: String)
    ensures
        r@ == service_args_of(views(services@)),
{
    if services.len() == 0 {
        return String::new();
    }
    let joined = join_strings(services, " ");
    proof {
        reveal_strlit(" ");
        assert(" "@ =~= seq![' ']);
    }
    let mut out: Vec<char> = Vec::new();
    out.push(' ');
    push_chars(&mut out, &chars_of(joined.as_str()));
    assert(views(services@) =~= services@.map_values(|s: String| s@));
    assert(out@ =~= seq![' '] + joined@);
    let r = string_of(&out);
    assert(r@ =~= service_args_of(views(services@)));
    r
}

/// The timeout flag of a compose command, when a timeout is given.
pub open spec fn timeout_flag(timeout: Option<i32>) -> Seq<char> {
    match timeout {
        Some(t) => " --timeout "@ + decimal_int(t as int),
        None => Seq::empty(),
    }
}

pub fn maybe_timeout(timeout: Option<i32>) -> (r: String)
    ensures
        r@ == timeout_flag(timeout),
{
    match timeout {
        Some(t) => {
            let mut out: Vec<char> = Vec::new();
            push_str(&mut out, " --timeout ");
            push_decimal_i64(&mut out, t as i64);
            string_of(&out)
        },
        None => String::new(),
    }
}

/// The compose commands run for Stack executions other than deploy, pull and
/// restart.
#[derive(Debug, Clone, Copy, PartialEq, Eq, Structural)]
pub enum ComposeCommand {
    Start,
    Pause,
    Unpause,
    /// Stop, with an optional timeout in seconds.
    Stop(Option<i32>),
    /// Down (destroy), with an optional timeout and whether orphans go too.
    Down(Option<i32>, bool),
}

/// The compose subcommand line for a command on the given services.
pub open spec fn compose_command_of(command: ComposeCommand, services: Seq<Seq<char>>) -> Seq<char> {
    match command {
        ComposeCommand::Start => "start"@ + service_args_of(services),
        ComposeCommand::Pause => "pause"@ + service_args_of(services),
        ComposeCommand::Unpause => "unpause"@ + service_args_of(services),
        ComposeCommand::Stop(t) => "stop"@ + timeout_flag(t) + service_args_of(services),
        ComposeCommand::Down(t, orphans) => "down"@ + timeout_flag(t)
            + (if orphans { " --remove-orphans"@ } else { Seq::empty() }) + service_args_of(services),
    }
}

pub fn compose_command(command: ComposeCommand, services: &Vec<String>) -> (r: String)
    ensures
        r@ == compose_command_of(command, views(services@)),
{
    let args = service_args(services);
    let mut out: Vec<char> = Vec::new();
    match command {
        ComposeCommand::Start => push_str(&mut out, "start"),
        ComposeCommand::Pause => push_str(&mut out, "pause"),
        ComposeCommand::Unpause => push_str(&mut out, "unpause"),
        ComposeCommand::Stop(t) => {
            push_str(&mut out, "stop");
            push_str(&mut out, maybe_timeout(t).as_str());
        },
        ComposeCommand::Down(t, orphans) => {
            push_str(&mut out, "down");
            push_str(&mut out, maybe_timeout(t).as_str());
            if orphans {
                push_str(&mut out, " --remove-orphans");
            }
        },
    }
    push_str(&mut out, args.as_str());
    let r = string_of(&out);
    assert(r@ =~= compose_command_of(command, views(services@)));
    r
}

pub open spec fn services_requested_message(services: Seq<Seq<char>>) -> Seq<char> {
    "Execution requested for Stack service/s "@ + join_sep(services, ", "@)
}

/// The log noting which services an execution was limited to; none for the
/// whole Stack.
pub fn services_requested_log(services: &Vec<String>, ts: i64) -> (r: Option<Log>)
    ensures
        services@.len() == 0 ==> r is None,
        services@.len() > 0 ==> (r matches Some(l) && l.stage@ == "Service/s"@ && l.success
            && l.stdout@ == services_requested_message(views(services@)) && l.stderr@.len() == 0
            && l.command@.len() == 0 && l.start_ts == ts && l.end_ts == ts),
{
    if services.len() == 0 {
        return None;
    }
    let mut msg: Vec<char> = Vec::new();
    push_str(&mut msg, "Execution requested for Stack service/s ");
    push_str(&mut msg, join_strings(services, ", ").as_str());
    assert(views(services@) =~= services@.map_values(|s: String| s@));
    Some(Log::simple(string_of(&chars_of("Service/s")), string_of(&msg), ts))
}

pub open spec fn swarm_compose_message() -> Seq<char> {
    "Compose executions (Start, Stop, Restart) should not be called for Stack in Swarm Mode"@
}

/// Compose executions run only for Stacks on a server.
pub fn check_compose_on_server(on_server: bool) -> (r: Result<(), ErrorChain>)
    ensures
        on_server <==> r is Ok,
        r matches Err(e) ==> e.view_chain() == seq![swarm_compose_message()],
{
    if on_server {
        Ok(())
    } else {
        Err(ErrorChain::single(string_of(&chars_of(
            "Compose executions (Start, Stop, Restart) should not be called for Stack in Swarm Mode",
        ))))
    }
}

/// A restart reads the Stack's linked Repo only when the files are not on
/// the host and a Repo is linked.
pub fn restart_needs_linked_repo(files_on_host: bool, linked_repo: &str) -> (r: bool)
    ensures
        r == (!files_on_host && linked_repo@.len() > 0),
{
    !files_on_host && linked_repo.unicode_len() > 0
}

} // verus!
