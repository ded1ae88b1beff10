//! Reading Stacks: hiding secrets in what is shown, listing, summarizing, and
//! finding a service's container or swarm service.
use vstd::prelude::*;

use crate::command::{pairs_view, replace_in, svi_replace_in_string};
use crate::execute::{ApiError, bad_request_status};
use crate::gitops_stack::StackState;
use crate::report::ErrorChain;
use crate::sort::{distinct, sort_unique_strings, sorted, views};
use crate::text::{chars_of, push_chars, push_str, string_of};

verus! {

/// Replaces every occurrence of each secret by its display name in angle
/// brackets, pair by pair.
pub fn redact_stack_display_secrets(text: &str, replacers: &[(String, String)]) -> (r: String)
    ensures
        r@ == replace_in(text@, pairs_view(replacers@)),
{
    svi_replace_in_string(text, replacers)
}

/// A file of a Stack: its path and contents.
pub struct FileContents {
    pub path: String,
    pub contents: String,
}

/// The file views of a Stack that may show secrets.
pub struct StackFiles {
    /// The compose config as last deployed.
    pub deployed_config: Option<String>,
    /// The files as last deployed.
    pub deployed_contents: Option<Vec<FileContents>>,
    /// The files as last read from the repository or host.
    pub remote_contents: Option<Vec<FileContents>>,
}

pub open spec fn opt_text_view(o: Option<String>) -> Option<Seq<char>> {
    match o {
        Some(s) => Some(s@),
        None => None,
    }
}

pub open spec fn files_view(fs: Seq<FileContents>) -> Seq<(Seq<char>, Seq<char>)> {
    fs.map_values(|f: FileContents| (f.path@, f.contents@))
}

pub open spec fn opt_files_view(o: Option<Vec<FileContents>>) -> Option<Seq<(Seq<char>, Seq<char>)>> {
    match o {
        Some(fs) => Some(files_view(fs@)),
        None => None,
    }
}

pub open spec fn redacted_text(o: Option<Seq<char>>, reps: Seq<(Seq<char>, Seq<char>)>) -> Option<Seq<char>> {
    match o {
        Some(s) => Some(replace_in(s, reps)),
        None => None,
    }
}

pub open spec fn redacted_files(
    o: Option<Seq<(Seq<char>, Seq<char>)>>,
    reps: Seq<(Seq<char>, Seq<char>)>,
) -> Option<Seq<(Seq<char>, Seq<char>)>> {
    match o {
        Some(fs) => Some(fs.map_values(|f: (Seq<char>, Seq<char>)| (f.0, replace_in(f.1, reps)))),
        None => None,
    }
}

pub open spec fn paths_of(fs: Seq<FileContents>) -> Seq<Seq<char>> {
    fs.map_values(|f: FileContents| f.path@)
}

/// The paths of the files, where there are files.
pub open spec fn opt_paths(o: Option<Vec<FileContents>>) -> Option<Seq<Seq<char>>> {
    match o {
        Some(fs) => Some(paths_of(fs@)),
        None => None,
    }
}

fn redact_file_list(files: &Vec<FileContents>, replacers: &[(String, String)]) -> (r: Vec<FileContents>)
    ensures
        paths_of(r@) == paths_of(files@),
        Some(files_view(r@)) == redacted_files(
            Some(files_view(files@)),
            pairs_view(replacers@),
        ),
{
    let ghost reps = pairs_view(replacers@);
    let mut out: Vec<FileContents> = Vec::new();
    for i in 0..files.len()
        invariant
            reps == pairs_view(replacers@),
            paths_of(out@) == paths_of(files@.take(i as int)),
            files_view(out@) == files_view(files@).take(i as int).map_values(
                |f: (Seq<char>, Seq<char>)| (f.0, replace_in(f.1, reps)),
            ),
    {
        let f = &files[i];
        let contents = redact_stack_display_secrets(f.contents.as_str(), replacers);
        let path = f.path.clone();
        let ghost before = out@;
        out.push(FileContents { path, contents });
        assert(paths_of(out@) =~= paths_of(before).push(files@[i as int].path@));
        assert(files@.take(i + 1) =~= files@.take(i as int).push(files@[i as int]));
        assert(paths_of(out@) =~= paths_of(files@.take(i + 1)));
        proof {
            assert(files_view(out@) =~= files_view(before).push((files@[i as int].path@, replace_in(files@[i as int].contents@, reps))));
            assert(files_view(files@).take(i + 1) =~= files_view(files@).take(i as int).push(files_view(files@)[i as int]));
            assert(files_view(out@) =~= files_view(files@).take(i + 1).map_values(
                |f: (Seq<char>, Seq<char>)| (f.0, replace_in(f.1, reps)),
            ));
        }
    }
    assert(files_view(files@).take(files.len() as int) =~= files_view(files@));
    assert(files@.take(files.len() as int) =~= files@);
    out
}

/// Hides secrets in what a Stack read shows: the deployed config and deployed
/// files always, the latest remote files only when `redact_remote_contents`
/// (callers who may write the Stack see them raw, so that an editor does not
/// write placeholders back). Which files there are, and their paths, stay.
pub fn redact_stack_read_response(stack: &mut StackFiles, display_secret_replacers: &[(String, String)], redact_remote_contents: bool)
    ensures
        (final(stack).deployed_config is None) == (old(stack).deployed_config is None),
        opt_paths(final(stack).deployed_contents) == opt_paths(old(stack).deployed_contents),
        opt_paths(final(stack).remote_contents) == opt_paths(old(stack).remote_contents),
        !redact_remote_contents ==> final(stack).remote_contents == old(stack).remote_contents,
        opt_text_view(final(stack).deployed_config)
            == redacted_text(opt_text_view(old(stack).deployed_config), pairs_view(display_secret_replacers@)),
        opt_files_view(final(stack).deployed_contents)
            == redacted_files(opt_files_view(old(stack).deployed_contents), pairs_view(display_secret_replacers@)),
        redact_remote_contents ==> opt_files_view(final(stack).remote_contents)
            == redacted_files(opt_files_view(old(stack).remote_contents), pairs_view(display_secret_replacers@)),
{
    let config = match &stack.deployed_config {
        Some(c) => Some(redact_stack_display_secrets(c.as_str(), display_secret_replacers)),
        None => None,
    };
    let deployed = match &stack.deployed_contents {
        Some(fs) => Some(redact_file_list(fs, display_secret_replacers)),
        None => None,
    };
    stack.deployed_config = config;
    stack.deployed_contents = deployed;
    if redact_remote_contents {
        let remote = match &stack.remote_contents {
            Some(fs) => Some(redact_file_list(fs, display_secret_replacers)),
            None => None,
        };
        stack.remote_contents = remote;
    }
}

/// Hides secrets in each environment entry, in place.
pub fn redact_env_vars(env: &mut Vec<String>, display_secret_replacers: &[(String, String)])
    ensures
        final(env)@.len() == old(env)@.len(),
        forall|i: int|
            0 <= i < old(env)@.len() ==> #[trigger] final(env)@[i]@
                == replace_in(old(env)@[i]@, pairs_view(display_secret_replacers@)),
{
    let ghost start = env@;
    let n = env.len();
    let mut i: usize = 0;
    while i < n
        invariant
            n == start.len(),
            i <= n,
            env@.len() == start.len(),
            forall|j: int|
                0 <= j < i ==> #[trigger] env@[j]@ == replace_in(start[j]@, pairs_view(display_secret_replacers@)),
            forall|j: int| i <= j < start.len() ==> #[trigger] env@[j] == start[j],
        decreases n - i,
    {
        let redacted = redact_stack_display_secrets(env[i].as_str(), display_secret_replacers);
        env.set(i, redacted);
        i = i + 1;
    }
}

/// The part of a container inspection that may show secrets: the environment
/// of its config, when it has a config.
pub struct ContainerConfig {
    pub env: Vec<String>,
}

pub fn redact_stack_container_inspect_response(config: &mut Option<ContainerConfig>, display_secret_replacers: &[(String, String)])
    ensures
        (*old(config)) is None ==> (*final(config)) is None,
        (*old(config)) matches Some(c) ==> ((*final(config)) matches Some(d) && d.env@.len() == c.env@.len()
            && (forall|i: int|
                0 <= i < c.env@.len() ==> #[trigger] d.env@[i]@
                    == replace_in(c.env@[i]@, pairs_view(display_secret_replacers@)))),
{
    match config {
        Some(c) => redact_env_vars(&mut c.env, display_secret_replacers),
        None => {},
    }
}

/// The path to a swarm service's environment: spec, task template, container
/// spec, env, each of which may be missing.
pub struct TaskSpecContainerSpec {
    pub env: Option<Vec<String>>,
}

pub struct TaskSpec {
    pub container_spec: Option<TaskSpecContainerSpec>,
}

pub struct ServiceSpec {
    pub task_template: Option<TaskSpec>,
}

pub open spec fn service_env(spec: Option<ServiceSpec>) -> Option<Seq<String>> {
    match spec {
        Some(s) => match s.task_template {
            Some(t) => match t.container_spec {
                Some(c) => match c.env {
                    Some(e) => Some(e@),
                    None => None,
                },
                None => None,
            },
            None => None,
        },
        None => None,
    }
}

pub fn redact_stack_swarm_service_inspect_response(spec: &mut Option<ServiceSpec>, display_secret_replacers: &[(String, String)])
    ensures
        service_env(*old(spec)) is None ==> service_env(*final(spec)) is None,
        service_env(*old(spec)) matches Some(e) ==> (service_env(*final(spec)) matches Some(f) && f.len() == e.len()
            && (forall|i: int|
                0 <= i < e.len() ==> #[trigger] f[i]@ == replace_in(e[i]@, pairs_view(display_secret_replacers@)))),
{
    match spec {
        Some(s) => match &mut s.task_template {
            Some(t) => match &mut t.container_spec {
                Some(c) => match &mut c.env {
                    Some(e) => redact_env_vars(e, display_secret_replacers),
                    None => {},
                },
                None => {},
            },
            None => {},
        },
        None => {},
    }
}

/// What the summary of Stacks needs of one Stack: its cached state and
/// whether it is a template.
#[derive(Debug, Clone, Copy, PartialEq, Eq, Structural)]
pub struct StackStatusEntry {
    pub state: StackState,
    pub template: bool,
}

/// Counts of Stacks by state.
#[derive(Debug, Clone, Copy, PartialEq, Eq, Structural)]
pub struct StacksSummary {
    pub total: u32,
    pub running: u32,
    pub stopped: u32,
    pub down: u32,
    pub unknown: u32,
    pub unhealthy: u32,
}

/// The counts, as mathematical integers.
pub struct SummaryCounts {
    pub total: nat,
    pub running: nat,
    pub stopped: nat,
    pub down: nat,
    pub unknown: nat,
    pub unhealthy: nat,
}

/// Every Stack counts toward the total; paused ones count as stopped, templates
/// in an unknown state count nowhere else, and every state other than running,
/// stopped, paused, down and unknown counts as unhealthy.
pub open spec fn summary_of(entries: Seq<StackStatusEntry>) -> SummaryCounts
    decreases entries.len(),
{
    if entries.len() == 0 {
        SummaryCounts { total: 0, running: 0, stopped: 0, down: 0, unknown: 0, unhealthy: 0 }
    } else {
        let c = summary_of(entries.drop_last());
        let e = entries.last();
        let c = SummaryCounts { total: c.total + 1, ..c };
        match e.state {
            StackState::Running => SummaryCounts { running: c.running + 1, ..c },
            StackState::Stopped | StackState::Paused => SummaryCounts { stopped: c.stopped + 1, ..c },
            StackState::Down => SummaryCounts { down: c.down + 1, ..c },
            StackState::Unknown => if e.template {
                c
            } else {
                SummaryCounts { unknown: c.unknown + 1, ..c }
            },
            _ => SummaryCounts { unhealthy: c.unhealthy + 1, ..c },
        }
    }
}

proof fn lemma_summary_bounds(entries: Seq<StackStatusEntry>)
    ensures
        summary_of(entries).total == entries.len(),
        summary_of(entries).running <= entries.len(),
        summary_of(entries).stopped <= entries.len(),
        summary_of(entries).down <= entries.len(),
        summary_of(entries).unknown <= entries.len(),
        summary_of(entries).unhealthy <= entries.len(),
    decreases entries.len(),
{
    if entries.len() > 0 {
        lemma_summary_bounds(entries.drop_last());
    }
}

pub open spec fn summary_view(s: StacksSummary) -> SummaryCounts {
    SummaryCounts {
        total: s.total as nat,
        running: s.running as nat,
        stopped: s.stopped as nat,
        down: s.down as nat,
        unknown: s.unknown as nat,
        unhealthy: s.unhealthy as nat,
    }
}

/// Summarizes the Stacks a user can read by their cached state.
pub fn stacks_summary(entries: &Vec<StackStatusEntry>) -> (r: StacksSummary)
    requires
        entries@.len() <= u32::MAX,
    ensures
        summary_view(r) == summary_of(entries@),
{
    let mut r = StacksSummary { total: 0, running: 0, stopped: 0, down: 0, unknown: 0, unhealthy: 0 };
    for i in 0..entries.len()
        invariant
            entries@.len() <= u32::MAX,
            summary_view(r) == summary_of(entries@.take(i as int)),
    {
        proof {
            assert(entries@.take(i + 1).drop_last() =~= entries@.take(i as int));
            lemma_summary_bounds(entries@.take(i as int));
        }
        let e = entries[i];
        r.total = r.total + 1;
        match e.state {
            StackState::Running => r.running = r.running + 1,
            StackState::Stopped | StackState::Paused => r.stopped = r.stopped + 1,
            StackState::Down => r.down = r.down + 1,
            StackState::Unknown => {
                if !e.template {
                    r.unknown = r.unknown + 1;
                }
            },
            _ => r.unhealthy = r.unhealthy + 1,
        }
    }
    assert(entries@.take(entries@.len() as int) =~= entries@);
    r
}

/// A service of a listed Stack and whether a newer image is available for it.
pub struct StackServiceUpdate {
    pub service: String,
    pub update_available: bool,
}

/// A Stack as listed.
pub struct StackListItem {
    pub id: String,
    pub name: String,
    pub services: Vec<StackServiceUpdate>,
}

pub open spec fn has_update_available(s: StackListItem) -> bool {
    exists|i: int| 0 <= i < s.services@.len() && (#[trigger] s.services@[i]).update_available
}

/// The Stacks that have a service with an update available, in order.
pub open spec fn with_update_available(stacks: Seq<StackListItem>) -> Seq<StackListItem>
    decreases stacks.len(),
{
    if stacks.len() == 0 {
        stacks
    } else {
        let rest = with_update_available(stacks.drop_last());
        if has_update_available(stacks.last()) {
            rest.push(stacks.last())
        } else {
            rest
        }
    }
}

fn any_update_available(stack: &StackListItem) -> (r: bool)
    ensures
        r == has_update_available(*stack),
{
    let mut found = false;
    for i in 0..stack.services.len()
        invariant
            found == exists|j: int| 0 <= j < i && (#[trigger] stack.services@[j]).update_available,
    {
        if stack.services[i].update_available {
            found = true;
        }
    }
    found
}

/// The listed Stacks, limited to those with an update available when asked.
pub fn filter_update_available(only_update_available: bool, stacks: Vec<StackListItem>) -> (r: Vec<StackListItem>)
    ensures
        only_update_available ==> r@ == with_update_available(stacks@),
        !only_update_available ==> r@ == stacks@,
{
    if !only_update_available {
        return stacks;
    }
    let ghost all = stacks@;
    let mut kept: Vec<StackListItem> = Vec::new();
    let mut rest = stacks;
    assert(all.take(0) =~= Seq::<StackListItem>::empty());
    let n = rest.len();
    let mut i: usize = 0;
    while i < n
        invariant
            n == all.len(),
            i <= n,
            rest@ == all.skip(i as int),
            kept@ == with_update_available(all.take(i as int)),
        decreases n - i,
    {
        let s = rest.remove(0);
        assert(s == all[i as int]);
        assert(rest@ =~= all.skip(i + 1));
        assert(all.take(i + 1).drop_last() =~= all.take(i as int));
        assert(all.take(i + 1).last() == s);
        if any_update_available(&s) {
            kept.push(s);
        }
        i = i + 1;
    }
    assert(all.take(n as int) =~= all);
    kept
}

/// All the strings of all the lists.
pub open spec fn flattened(lists: Seq<Vec<String>>) -> Seq<Seq<char>>
    decreases lists.len(),
{
    if lists.len() == 0 {
        Seq::empty()
    } else {
        flattened(lists.drop_last()) + views(lists.last()@)
    }
}

/// The distinct extra arguments used by any of the Stacks, sorted.
pub fn common_extra_args(arg_lists: &Vec<Vec<String>>) -> (r: Vec<String>)
    ensures
        sorted(views(r@)),
        distinct(views(r@)),
        views(r@).to_set() == flattened(arg_lists@).to_set(),
{
    let mut all: Vec<String> = Vec::new();
    for i in 0..arg_lists.len()
        invariant
            views(all@) == flattened(arg_lists@.take(i as int)),
    {
        assert(arg_lists@.take(i + 1).drop_last() =~= arg_lists@.take(i as int));
        let list = &arg_lists[i];
        for j in 0..list.len()
            invariant
                list == arg_lists@[i as int],
                views(all@) == flattened(arg_lists@.take(i as int)) + views(list@).take(j as int),
        {
            let ghost before = all@;
            all.push(list[j].clone());
            assert(views(all@) =~= views(before).push(list@[j as int]@));
            assert(views(list@).take(j + 1) =~= views(list@).take(j as int).push(list@[j as int]@));
            assert(views(all@) =~= flattened(arg_lists@.take(i as int)) + views(list@).take(j + 1));
        }
        assert(views(list@).take(list.len() as int) =~= views(list@));
    }
    assert(arg_lists@.take(arg_lists.len() as int) =~= arg_lists@);
    sort_unique_strings(all)
}

/// A service of a Stack as last observed: its name and, when running, its
/// container's name or its swarm service's name.
pub struct StackServiceStatus {
    pub service: String,
    pub container_name: Option<String>,
    pub swarm_service_name: Option<String>,
}

/// The first service of the given name, if any.
pub open spec fn first_service(services: Seq<StackServiceStatus>, name: Seq<char>) -> Option<int> {
    if exists|i: int| 0 <= i < services.len() && (#[trigger] services[i]).service@ == name {
        Some(choose|i: int| 0 <= i < services.len() && (#[trigger] services[i]).service@ == name
            && forall|j: int| 0 <= j < i ==> (#[trigger] services[j]).service@ != name)
    } else {
        None
    }
}

pub open spec fn no_service_message(name: Seq<char>) -> Seq<char> {
    "No service found matching '"@ + name + "'. Was the stack last deployed manually?"@
}

fn no_service_error(name: &String) -> (e: ApiError)
    ensures
        e.status == 500,
        e.error.view_chain() == seq![no_service_message(name@)],
{
    let mut msg: Vec<char> = Vec::new();
    push_str(&mut msg, "No service found matching '");
    push_chars(&mut msg, &chars_of(name.as_str()));
    push_str(&mut msg, "'. Was the stack last deployed manually?");
    ApiError { status: 500, error: ErrorChain::single(string_of(&msg)) }
}

/// Finds the first service with the given name; `pick` chooses the name to
/// use from it (its container or its swarm service).
fn find_service(services: &Vec<StackServiceStatus>, service: &String) -> (r: Option<usize>)
    ensures
        match r {
            Some(i) => first_service(services@, service@) == Some(i as int) && i < services@.len(),
            None => first_service(services@, service@) is None,
        },
{
    let mut i: usize = 0;
    while i < services.len()
        invariant
            i <= services@.len(),
            forall|j: int| 0 <= j < i ==> (#[trigger] services@[j]).service@ != service@,
        decreases services@.len() - i,
    {
        if services[i].service == *service {
            proof {
                let k = choose|k: int| 0 <= k < services@.len() && (#[trigger] services@[k]).service@ == service@
                    && forall|j: int| 0 <= j < k ==> (#[trigger] services@[j]).service@ != service@;
                if k < i {
                } else if k > i {
                    assert(services@[i as int].service@ == service@);
                }
            }
            return Some(i);
        }
        i = i + 1;
    }
    None
}

/// The container to inspect for a Stack service: that of the first service of
/// that name, which must be running in a container.
pub fn service_container_name(services: &Vec<StackServiceStatus>, service: &String) -> (r: Result<String, ApiError>)
    ensures
        match first_service(services@, service@) {
            Some(i) => match services@[i].container_name {
                Some(n) => r matches Ok(m) && m@ == n@,
                None => r matches Err(e) && e.status == 500 && e.error.view_chain() == seq![no_service_message(service@)],
            },
            None => r matches Err(e) && e.status == 500 && e.error.view_chain() == seq![no_service_message(service@)],
        },
{
    match find_service(services, service) {
        Some(i) => match &services[i].container_name {
            Some(n) => Ok(n.clone()),
            None => Err(no_service_error(service)),
        },
        None => Err(no_service_error(service)),
    }
}

/// The swarm service to inspect for a Stack service: that of the first service
/// of that name, which must be running as a named swarm service.
pub fn service_swarm_service_name(services: &Vec<StackServiceStatus>, service: &String) -> (r: Result<String, ApiError>)
    ensures
        match first_service(services@, service@) {
            Some(i) => match services@[i].swarm_service_name {
                Some(n) => r matches Ok(m) && m@ == n@,
                None => r matches Err(e) && e.status == 500 && e.error.view_chain() == seq![no_service_message(service@)],
            },
            None => r matches Err(e) && e.status == 500 && e.error.view_chain() == seq![no_service_message(service@)],
        },
{
    match find_service(services, service) {
        Some(i) => match &services[i].swarm_service_name {
            Some(n) => Ok(n.clone()),
            None => Err(no_service_error(service)),
        },
        None => Err(no_service_error(service)),
    }
}

pub open spec fn single_service_message() -> Seq<char> {
    "Must pass single service for Swarm mode Stack logs"@
}

/// The swarm service whose log is read for a Swarm mode Stack: the last
/// service asked for, under the Stack's project as `project_service`.
pub fn swarm_log_service(project: &String, services: &Vec<String>) -> (r: Result<String, ErrorChain>)
    ensures
        services@.len() == 0 ==> (r matches Err(e) && e.view_chain() == seq![single_service_message()]),
        services@.len() > 0 ==> (r matches Ok(s) && s@ == project@ + seq!['_'] + services@.last()@),
{
    if services.len() == 0 {
        return Err(ErrorChain::single(string_of(&chars_of("Must pass single service for Swarm mode Stack logs"))));
    }
    let mut out = chars_of(project.as_str());
    out.push('_');
    push_chars(&mut out, &chars_of(services[services.len() - 1].as_str()));
    Ok(string_of(&out))
}

/// The swarm service whose log is searched for a Swarm mode Stack: the last
/// service asked for, by its name as given.
pub fn swarm_search_service(services: &Vec<String>) -> (r: Result<String, ErrorChain>)
    ensures
        services@.len() == 0 ==> (r matches Err(e) && e.view_chain() == seq![single_service_message()]),
        services@.len() > 0 ==> (r matches Ok(s) && s@ == services@.last()@),
{
    if services.len() == 0 {
        return Err(ErrorChain::single(string_of(&chars_of("Must pass single service for Swarm mode Stack logs"))));
    }
    Ok(services[services.len() - 1].clone())
}

/// Where a Stack runs.
#[derive(Debug, Clone, Copy, PartialEq, Eq, Structural)]
pub enum StackHost {
    Server,
    Swarm,
}

/// Inspecting one container belongs to Stacks on a server; inspecting a swarm
/// service or the swarm stack belongs to Stacks in Swarm mode. The other case
/// is a bad request.
#[derive(Debug, Clone, Copy, PartialEq, Eq, Structural)]
pub enum StackInspection {
    Container,
    SwarmService,
    SwarmInfo,
}

pub open spec fn inspection_message(kind: StackInspection) -> Seq<char> {
    match kind {
        StackInspection::Container => "InspectStackContainer should not be called for Stack in Swarm Mode"@,
        StackInspection::SwarmService => "InspectStackSwarmService should only be called for Stack in Swarm Mode"@,
        StackInspection::SwarmInfo => "InspectStackSwarmInfo should only be called for Stack in Swarm Mode"@,
    }
}

pub open spec fn inspection_allowed(kind: StackInspection, host: StackHost) -> bool {
    match kind {
        StackInspection::Container => host == StackHost::Server,
        _ => host == StackHost::Swarm,
    }
}

pub fn check_inspection_host(kind: StackInspection, host: StackHost) -> (r: Result<(), ApiError>)
    ensures
        inspection_allowed(kind, host) <==> r is Ok,
        r matches Err(e) ==> e.status == bad_request_status() && e.error.view_chain() == seq![inspection_message(kind)],
{
    let allowed = match kind {
        StackInspection::Container => host == StackHost::Server,
        _ => host == StackHost::Swarm,
    };
    if allowed {
        return Ok(());
    }
    let msg = match kind {
        StackInspection::Container => "InspectStackContainer should not be called for Stack in Swarm Mode",
        StackInspection::SwarmService => "InspectStackSwarmService should only be called for Stack in Swarm Mode",
        StackInspection::SwarmInfo => "InspectStackSwarmInfo should only be called for Stack in Swarm Mode",
    };
    Err(ApiError { status: 400, error: ErrorChain::single(string_of(&chars_of(msg))) })
}

/// The Stacks in an unknown state that are templates.
pub open spec fn unknown_templates(entries: Seq<StackStatusEntry>) -> nat
    decreases entries.len(),
{
    if entries.len() == 0 {
        0
    } else {
        unknown_templates(entries.drop_last()) + (if entries.last().state == StackState::Unknown
            && entries.last().template { 1nat } else { 0nat })
    }
}

/// Every Stack is counted exactly once: in one state bucket, or, for
/// templates in an unknown state, in none.
pub proof fn law_summary_partitions_stacks(entries: Seq<StackStatusEntry>)
    ensures
        ({
            let c = summary_of(entries);
            c.total == c.running + c.stopped + c.down + c.unknown + c.unhealthy + unknown_templates(entries)
        }),
    decreases entries.len(),
{
    if entries.len() > 0 {
        law_summary_partitions_stacks(entries.drop_last());
    }
}

/// A user's permission on a resource, from none to write.
#[derive(Debug, Clone, Copy, PartialEq, Eq, Structural)]
pub enum PermissionLevel {
    NoAccess,
    Read,
    Execute,
    Write,
}

pub open spec fn level_rank(l: PermissionLevel) -> int {
    match l {
        PermissionLevel::NoAccess => 0,
        PermissionLevel::Read => 1,
        PermissionLevel::Execute => 2,
        PermissionLevel::Write => 3,
    }
}

/// Remote files are shown redacted to whoever cannot write the Stack.
pub fn redacts_remote_contents(level: PermissionLevel) -> (r: bool)
    ensures
        r == (level_rank(level) < level_rank(PermissionLevel::Write)),
{
    match level {
        PermissionLevel::Write => false,
        _ => true,
    }
}

} // verus!
