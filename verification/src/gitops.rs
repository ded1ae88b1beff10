//! Pull-based GitOps: which Stacks and Resource Syncs follow a moving Git
//! branch, the shared source each one reads, and how sources are grouped so
//! that each is fetched once per cycle.
use vstd::prelude::*;

use crate::text::{chars_of, string_of};

verus! {

/// Identity of a moving Git branch fetched once per controller cycle.
#[derive(Debug, Clone)]
pub struct GitSourceKey {
    pub provider: String,
    pub account: String,
    pub repo: String,
    pub branch: String,
}

pub struct KeyView {
    pub provider: Seq<char>,
    pub account: Seq<char>,
    pub repo: Seq<char>,
    pub branch: Seq<char>,
}

impl GitSourceKey {
    pub open spec fn view(&self) -> KeyView {
        KeyView { provider: self.provider@, account: self.account@, repo: self.repo@, branch: self.branch@ }
    }

    /// Whether two keys name the same branch of the same repository.
    pub fn same_as(&self, other: &GitSourceKey) -> (r: bool)
        ensures
            r == (self.view() == other.view()),
    {
        self.provider == other.provider && self.account == other.account && self.repo == other.repo
            && self.branch == other.branch
    }

    pub fn duplicate(&self) -> (r: GitSourceKey)
        ensures
            r.view() == self.view(),
    {
        GitSourceKey {
            provider: self.provider.clone(),
            account: self.account.clone(),
            repo: self.repo.clone(),
            branch: self.branch.clone(),
        }
    }
}

/// A resource source after resolving an optional linked Repo.
pub struct EffectiveGitSource {
    pub key: GitSourceKey,
}

/// A controller consumer of a shared source snapshot.
pub enum GitSourceConsumer {
    Stack(String),
    ResourceSync(String),
}

pub enum ConsumerView {
    Stack(Seq<char>),
    ResourceSync(Seq<char>),
}

impl GitSourceConsumer {
    pub open spec fn view(&self) -> ConsumerView {
        match self {
            GitSourceConsumer::Stack(id) => ConsumerView::Stack(id@),
            GitSourceConsumer::ResourceSync(id) => ConsumerView::ResourceSync(id@),
        }
    }
}

/// Result of a single source fetch. It never contains credentials.
pub struct GitSourceSnapshot {
    pub checkout_root: Option<String>,
    pub hash: Option<String>,
    pub message: Option<String>,
    pub error: Option<String>,
}

pub open spec fn failed_fetch_message() -> Seq<char> {
    "failed to fetch Git source"@
}

/// The snapshot of a source that could not be fetched: only the error is set.
pub open spec fn is_failed_snapshot(s: GitSourceSnapshot) -> bool {
    &&& s.checkout_root is None
    &&& s.hash is None
    &&& s.message is None
    &&& s.error matches Some(e) && e@ == failed_fetch_message()
}

impl GitSourceSnapshot {
    pub fn failed() -> (r: GitSourceSnapshot)
        ensures
            is_failed_snapshot(r),
    {
        GitSourceSnapshot {
            checkout_root: None,
            hash: None,
            message: None,
            error: Some(string_of(&chars_of("failed to fetch Git source"))),
        }
    }
}

/// The snapshot of a fetch: a checkout with its commit when the pull succeeded
/// and every step of it succeeded, a failure otherwise.
pub fn snapshot_from_pull(
    checkout_root: String,
    pulled: bool,
    all_steps_succeeded: bool,
    hash: Option<String>,
    message: Option<String>,
) -> (r: GitSourceSnapshot)
    ensures
        pulled && all_steps_succeeded ==> r == (GitSourceSnapshot {
            checkout_root: Some(checkout_root),
            hash,
            message,
            error: None,
        }),
        !(pulled && all_steps_succeeded) ==> is_failed_snapshot(r),
{
    if pulled && all_steps_succeeded {
        GitSourceSnapshot { checkout_root: Some(checkout_root), hash, message, error: None }
    } else {
        GitSourceSnapshot::failed()
    }
}

// ----- the resources that follow Git -----

/// The Git settings of a resource or of a Repo.
pub struct SourceFields {
    pub provider: String,
    pub account: String,
    pub repo: String,
    pub branch: String,
    pub commit: String,
}

/// The part of a Stack's configuration that decides its source.
pub struct StackConfig {
    pub files_on_host: bool,
    pub linked_repo: String,
    pub git_provider: String,
    pub git_account: String,
    pub repo: String,
    pub branch: String,
    pub commit: String,
    pub auto_deploy_git_updates: bool,
    pub project_name: String,
    pub server_id: String,
}

pub struct Stack {
    pub id: String,
    pub name: String,
    pub config: StackConfig,
}

/// The part of a Resource Sync's configuration that decides its source.
pub struct SyncConfig {
    pub files_on_host: bool,
    pub linked_repo: String,
    pub git_provider: String,
    pub git_account: String,
    pub repo: String,
    pub branch: String,
    pub commit: String,
    pub auto_apply_updates: bool,
}

pub struct ResourceSync {
    pub id: String,
    pub name: String,
    pub config: SyncConfig,
}

pub struct RepoConfig {
    pub git_provider: String,
    pub git_account: String,
    pub repo: String,
    pub branch: String,
    pub commit: String,
}

pub struct Repo {
    pub name: String,
    pub config: RepoConfig,
}

/// A source follows a branch only when it names a repository and no fixed commit.
pub open spec fn effective_key(
    provider: Seq<char>,
    account: Seq<char>,
    repo: Seq<char>,
    branch: Seq<char>,
    commit: Seq<char>,
) -> Option<KeyView> {
    if repo.len() == 0 || commit.len() > 0 {
        None
    } else {
        Some(KeyView { provider, account, repo, branch })
    }
}

impl SourceFields {
    pub open spec fn effective(&self) -> Option<KeyView> {
        effective_key(self.provider@, self.account@, self.repo@, self.branch@, self.commit@)
    }

    pub fn from_stack(stack: &Stack) -> (r: SourceFields)
        ensures
            r.provider@ == stack.config.git_provider@,
            r.account@ == stack.config.git_account@,
            r.repo@ == stack.config.repo@,
            r.branch@ == stack.config.branch@,
            r.commit@ == stack.config.commit@,
    {
        SourceFields {
            provider: stack.config.git_provider.clone(),
            account: stack.config.git_account.clone(),
            repo: stack.config.repo.clone(),
            branch: stack.config.branch.clone(),
            commit: stack.config.commit.clone(),
        }
    }

    pub fn from_sync(sync: &ResourceSync) -> (r: SourceFields)
        ensures
            r.provider@ == sync.config.git_provider@,
            r.account@ == sync.config.git_account@,
            r.repo@ == sync.config.repo@,
            r.branch@ == sync.config.branch@,
            r.commit@ == sync.config.commit@,
    {
        SourceFields {
            provider: sync.config.git_provider.clone(),
            account: sync.config.git_account.clone(),
            repo: sync.config.repo.clone(),
            branch: sync.config.branch.clone(),
            commit: sync.config.commit.clone(),
        }
    }

    pub fn from_repo(repo: &Repo) -> (r: SourceFields)
        ensures
            r.provider@ == repo.config.git_provider@,
            r.account@ == repo.config.git_account@,
            r.repo@ == repo.config.repo@,
            r.branch@ == repo.config.branch@,
            r.commit@ == repo.config.commit@,
    {
        SourceFields {
            provider: repo.config.git_provider.clone(),
            account: repo.config.git_account.clone(),
            repo: repo.config.repo.clone(),
            branch: repo.config.branch.clone(),
            commit: repo.config.commit.clone(),
        }
    }

    pub fn into_effective(self) -> (r: Option<EffectiveGitSource>)
        ensures
            match self.effective() {
                Some(k) => r matches Some(s) && s.key.view() == k,
                None => r is None,
            },
    {
        if self.repo.as_str().is_empty() || !self.commit.as_str().is_empty() {
            return None;
        }
        Some(EffectiveGitSource {
            key: GitSourceKey {
                provider: self.provider,
                account: self.account,
                repo: self.repo,
                branch: self.branch,
            },
        })
    }
}

/// The Repo registered under `name`; when several share it the last one
/// listed wins, as when a name-keyed map is built from the list.
pub open spec fn repo_named(repos: Seq<Repo>, name: Seq<char>) -> Option<Repo>
    decreases repos.len(),
{
    if repos.len() == 0 {
        None
    } else if repos.last().name@ == name {
        Some(repos.last())
    } else {
        repo_named(repos.drop_last(), name)
    }
}

pub fn find_repo<'a>(repos: &'a [Repo], name: &String) -> (r: Option<&'a Repo>)
    ensures
        match repo_named(repos@, name@) {
            Some(found) => r == Some(&found),
            None => r is None,
        },
{
    let mut i: usize = repos.len();
    assert(repos@.take(i as int) =~= repos@);
    while i > 0
        invariant
            i <= repos.len(),
            repo_named(repos@, name@) == repo_named(repos@.take(i as int), name@),
        decreases i,
    {
        proof {
            assert(repos@.take(i as int).drop_last() =~= repos@.take(i - 1));
            assert(repos@.take(i as int).last() == repos@[i - 1]);
        }
        if repos[i - 1].name == *name {
            return Some(&repos[i - 1]);
        }
        i = i - 1;
    }
    None
}

pub open spec fn repo_key(repo: Repo) -> Option<KeyView> {
    effective_key(
        repo.config.git_provider@,
        repo.config.git_account@,
        repo.config.repo@,
        repo.config.branch@,
        repo.config.commit@,
    )
}

/// The branch a Stack follows: none for files on the host or a fixed commit;
/// the linked Repo's source when one is linked (none if it is unknown);
/// otherwise its own settings.
pub open spec fn stack_source(stack: Stack, repos: Seq<Repo>) -> Option<KeyView> {
    if stack.config.files_on_host || stack.config.commit@.len() > 0 {
        None
    } else if stack.config.linked_repo@.len() == 0 {
        effective_key(
            stack.config.git_provider@,
            stack.config.git_account@,
            stack.config.repo@,
            stack.config.branch@,
            stack.config.commit@,
        )
    } else {
        match repo_named(repos, stack.config.linked_repo@) {
            Some(repo) => repo_key(repo),
            None => None,
        }
    }
}

/// The branch a Resource Sync follows, by the same rules as a Stack.
pub open spec fn sync_source(sync: ResourceSync, repos: Seq<Repo>) -> Option<KeyView> {
    if sync.config.files_on_host || sync.config.commit@.len() > 0 {
        None
    } else if sync.config.linked_repo@.len() == 0 {
        effective_key(
            sync.config.git_provider@,
            sync.config.git_account@,
            sync.config.repo@,
            sync.config.branch@,
            sync.config.commit@,
        )
    } else {
        match repo_named(repos, sync.config.linked_repo@) {
            Some(repo) => repo_key(repo),
            None => None,
        }
    }
}

pub fn resolve_stack_source(stack: &Stack, repos: &[Repo]) -> (r: Option<EffectiveGitSource>)
    ensures
        match stack_source(*stack, repos@) {
            Some(k) => r matches Some(s) && s.key.view() == k,
            None => r is None,
        },
{
    if stack.config.files_on_host || !stack.config.commit.as_str().is_empty() {
        return None;
    }
    let source = if stack.config.linked_repo.as_str().is_empty() {
        SourceFields::from_stack(stack)
    } else {
        match find_repo(repos, &stack.config.linked_repo) {
            Some(repo) => SourceFields::from_repo(repo),
            None => {
                return None;
            },
        }
    };
    source.into_effective()
}

pub fn resolve_sync_source(sync: &ResourceSync, repos: &[Repo]) -> (r: Option<EffectiveGitSource>)
    ensures
        match sync_source(*sync, repos@) {
            Some(k) => r matches Some(s) && s.key.view() == k,
            None => r is None,
        },
{
    if sync.config.files_on_host || !sync.config.commit.as_str().is_empty() {
        return None;
    }
    let source = if sync.config.linked_repo.as_str().is_empty() {
        SourceFields::from_sync(sync)
    } else {
        match find_repo(repos, &sync.config.linked_repo) {
            Some(repo) => SourceFields::from_repo(repo),
            None => {
                return None;
            },
        }
    };
    source.into_effective()
}

/// A Resource Sync the controller applies: it opted in, reads Git (its own
/// repository or a linked Repo), and follows a branch rather than a commit.
pub open spec fn safe_opted_in_sync(sync: ResourceSync) -> bool {
    &&& sync.config.auto_apply_updates
    &&& !sync.config.files_on_host
    &&& (sync.config.repo@.len() > 0 || sync.config.linked_repo@.len() > 0)
    &&& sync.config.commit@.len() == 0
}

/// A Stack the controller redeploys, by the same rules.
pub open spec fn opted_in_stack(stack: Stack) -> bool {
    &&& stack.config.auto_deploy_git_updates
    &&& !stack.config.files_on_host
    &&& (stack.config.repo@.len() > 0 || stack.config.linked_repo@.len() > 0)
    &&& stack.config.commit@.len() == 0
}

pub fn is_safe_opted_in_sync(sync: &ResourceSync) -> (r: bool)
    ensures
        r == safe_opted_in_sync(*sync),
{
    sync.config.auto_apply_updates && !sync.config.files_on_host && (!sync.config.repo.as_str().is_empty()
        || !sync.config.linked_repo.as_str().is_empty()) && sync.config.commit.as_str().is_empty()
}

pub fn is_opted_in_stack(stack: &Stack) -> (r: bool)
    ensures
        r == opted_in_stack(*stack),
{
    stack.config.auto_deploy_git_updates && !stack.config.files_on_host && (!stack.config.repo.as_str().is_empty()
        || !stack.config.linked_repo.as_str().is_empty()) && stack.config.commit.as_str().is_empty()
}

// ----- grouping consumers by source -----

pub type GroupsView = Seq<(KeyView, Seq<ConsumerView>)>;

/// The index of the group for `k` (the last such group), or -1.
pub open spec fn key_index(groups: GroupsView, k: KeyView) -> int
    decreases groups.len(),
{
    if groups.len() == 0 {
        -1
    } else if groups.last().0 == k {
        groups.len() - 1
    } else {
        key_index(groups.drop_last(), k)
    }
}

/// Adds a consumer to the group of its source, opening a group for a new source.
pub open spec fn add_consumer(groups: GroupsView, k: KeyView, c: ConsumerView) -> GroupsView {
    let i = key_index(groups, k);
    if i >= 0 {
        groups.update(i, (k, groups[i].1.push(c)))
    } else {
        groups.push((k, seq![c]))
    }
}

/// The groups formed by adding each (source, consumer) pair in turn.
pub open spec fn grouped(pairs: Seq<(KeyView, ConsumerView)>) -> GroupsView
    decreases pairs.len(),
{
    if pairs.len() == 0 {
        Seq::empty()
    } else {
        add_consumer(grouped(pairs.drop_last()), pairs.last().0, pairs.last().1)
    }
}

pub proof fn lemma_key_index_bounds(groups: GroupsView, k: KeyView)
    ensures
        -1 <= key_index(groups, k) < groups.len(),
        key_index(groups, k) >= 0 ==> groups[key_index(groups, k)].0 == k,
        key_index(groups, k) == -1 ==> forall|j: int| 0 <= j < groups.len() ==> (#[trigger] groups[j]).0 != k,
    decreases groups.len(),
{
    if groups.len() > 0 {
        lemma_key_index_bounds(groups.drop_last(), k);
        if groups.last().0 != k && key_index(groups.drop_last(), k) == -1 {
            assert forall|j: int| 0 <= j < groups.len() implies (#[trigger] groups[j]).0 != k by {
                if j < groups.len() - 1 {
                    assert(groups.drop_last()[j] == groups[j]);
                }
            }
        }
    }
}

pub open spec fn consumers_view(v: Seq<GitSourceConsumer>) -> Seq<ConsumerView> {
    v.map_values(|c: GitSourceConsumer| c.view())
}

pub open spec fn groups_view(v: Seq<(GitSourceKey, Vec<GitSourceConsumer>)>) -> GroupsView {
    v.map_values(|g: (GitSourceKey, Vec<GitSourceConsumer>)| (g.0.view(), consumers_view(g.1@)))
}

/// Adds a consumer to the group of its source.
pub fn add_to_groups(groups: &mut Vec<(GitSourceKey, Vec<GitSourceConsumer>)>, key: GitSourceKey, consumer: GitSourceConsumer)
    ensures
        groups_view(final(groups)@) == add_consumer(groups_view(old(groups)@), key.view(), consumer.view()),
{
    let ghost gv = groups_view(groups@);
    let mut i: usize = groups.len();
    assert(gv.take(i as int) =~= gv);
    while i > 0
        invariant
            i <= groups.len(),
            gv == groups_view(groups@),
            key_index(gv, key.view()) == key_index(gv.take(i as int), key.view()),
        ensures
            i <= groups.len(),
            gv == groups_view(groups@),
            key_index(gv, key.view()) == key_index(gv.take(i as int), key.view()),
            i > 0 ==> gv[i - 1].0 == key.view(),
        decreases i,
    {
        proof {
            assert(gv.take(i as int).drop_last() =~= gv.take(i - 1));
            assert(gv.take(i as int).last() == gv[i - 1]);
        }
        if groups[i - 1].0.same_as(&key) {
            assert(gv[i - 1].0 == groups@[i - 1].0.view());
            break;
        }
        i = i - 1;
    }
    proof {
        lemma_key_index_bounds(gv, key.view());
        if i == 0 {
            assert(gv.take(0) =~= Seq::<(KeyView, Seq<ConsumerView>)>::empty());
        }
    }
    if i == 0 {
        let mut list: Vec<GitSourceConsumer> = Vec::new();
        let ghost cv = consumer.view();
        list.push(consumer);
        assert(consumers_view(list@) =~= seq![cv]);
        let ghost kv = key.view();
        groups.push((key, list));
        assert(groups_view(groups@) =~= gv.push((kv, seq![cv])));
    } else {
        let idx = i - 1;
        proof {
            assert(gv.take(i as int).last().0 == key.view());
            assert(key_index(gv.take(i as int), key.view()) == idx);
        }
        let ghost cv = consumer.view();
        let ghost old_groups = groups@;
        let mut entry = groups.remove(idx);
        assert(groups@ == old_groups.remove(idx as int));
        let ghost old_list = consumers_view(entry.1@);
        entry.1.push(consumer);
        assert(consumers_view(entry.1@) =~= old_list.push(cv));
        let ghost new_entry = entry;
        groups.insert(idx, entry);
        assert(groups@ =~= old_groups.update(idx as int, new_entry));
        assert(groups_view(groups@) =~= gv.update(idx as int, (key.view(), gv[idx as int].1.push(cv))));
    }
}

/// The (source, consumer) pairs of a cycle: first each opted-in Resource Sync
/// with a source, then each opted-in Stack with a source, in list order.
pub open spec fn sync_pairs(syncs: Seq<ResourceSync>, repos: Seq<Repo>) -> Seq<(KeyView, ConsumerView)>
    decreases syncs.len(),
{
    if syncs.len() == 0 {
        Seq::empty()
    } else {
        let rest = sync_pairs(syncs.drop_last(), repos);
        let s = syncs.last();
        if safe_opted_in_sync(s) && sync_source(s, repos) is Some {
            rest.push((sync_source(s, repos)->0, ConsumerView::ResourceSync(s.id@)))
        } else {
            rest
        }
    }
}

pub open spec fn stack_pairs(stacks: Seq<Stack>, repos: Seq<Repo>) -> Seq<(KeyView, ConsumerView)>
    decreases stacks.len(),
{
    if stacks.len() == 0 {
        Seq::empty()
    } else {
        let rest = stack_pairs(stacks.drop_last(), repos);
        let s = stacks.last();
        if opted_in_stack(s) && stack_source(s, repos) is Some {
            rest.push((stack_source(s, repos)->0, ConsumerView::Stack(s.id@)))
        } else {
            rest
        }
    }
}

/// The opted-in Resource Syncs with a source: their index and their source.
pub open spec fn sync_plan(syncs: Seq<ResourceSync>, repos: Seq<Repo>) -> Seq<(int, KeyView)>
    decreases syncs.len(),
{
    if syncs.len() == 0 {
        Seq::empty()
    } else {
        let rest = sync_plan(syncs.drop_last(), repos);
        let s = syncs.last();
        if safe_opted_in_sync(s) && sync_source(s, repos) is Some {
            rest.push((syncs.len() - 1, sync_source(s, repos)->0))
        } else {
            rest
        }
    }
}

/// The ids of the opted-in Stacks, in list order.
pub open spec fn opted_in_ids(stacks: Seq<Stack>) -> Seq<Seq<char>>
    decreases stacks.len(),
{
    if stacks.len() == 0 {
        Seq::empty()
    } else {
        let rest = opted_in_ids(stacks.drop_last());
        if opted_in_stack(stacks.last()) {
            rest.push(stacks.last().id@)
        } else {
            rest
        }
    }
}

/// What one controller cycle works on.
pub struct CyclePlan {
    /// Each source once, with every consumer that reads it.
    pub groups: Vec<(GitSourceKey, Vec<GitSourceConsumer>)>,
    /// The Resource Syncs to apply (index into the list) and their sources.
    pub sync_sources: Vec<(usize, GitSourceKey)>,
    /// The opted-in Stacks known before the cycle started.
    pub preexisting_stack_ids: Vec<String>,
}

pub open spec fn ids_view(v: Seq<String>) -> Seq<Seq<char>> {
    v.map_values(|s: String| s@)
}

pub open spec fn plan_view(v: Seq<(usize, GitSourceKey)>) -> Seq<(int, KeyView)> {
    v.map_values(|p: (usize, GitSourceKey)| (p.0 as int, p.1.view()))
}

/// Plans a cycle from the Repos, Resource Syncs and Stacks in the database.
pub fn plan_cycle(repos: &[Repo], syncs: &[ResourceSync], stacks: &[Stack]) -> (r: CyclePlan)
    ensures
        groups_view(r.groups@) == grouped(sync_pairs(syncs@, repos@) + stack_pairs(stacks@, repos@)),
        plan_view(r.sync_sources@) == sync_plan(syncs@, repos@),
        ids_view(r.preexisting_stack_ids@) == opted_in_ids(stacks@),
{
    let mut groups: Vec<(GitSourceKey, Vec<GitSourceConsumer>)> = Vec::new();
    let mut sync_sources: Vec<(usize, GitSourceKey)> = Vec::new();
    let ghost sp = sync_pairs(syncs@, repos@);
    let ghost tp = stack_pairs(stacks@, repos@);
    assert(groups_view(groups@) =~= grouped(Seq::<(KeyView, ConsumerView)>::empty()));
    for i in 0..syncs.len()
        invariant
            sp == sync_pairs(syncs@, repos@),
            groups_view(groups@) == grouped(sync_pairs(syncs@.take(i as int), repos@)),
            plan_view(sync_sources@) == sync_plan(syncs@.take(i as int), repos@),
    {
        proof {
            assert(syncs@.take(i + 1).drop_last() =~= syncs@.take(i as int));
            assert(syncs@.take(i + 1).last() == syncs@[i as int]);
        }
        let sync = &syncs[i];
        if is_safe_opted_in_sync(sync) {
            if let Some(source) = resolve_sync_source(sync, repos) {
                let ghost before = sync_pairs(syncs@.take(i as int), repos@);
                let ghost after = sync_pairs(syncs@.take(i + 1), repos@);
                assert(after == before.push((source.key.view(), ConsumerView::ResourceSync(sync.id@))));
                assert(after.drop_last() =~= before);
                let copy = source.key.duplicate();
                let ghost plan_before = plan_view(sync_sources@);
                sync_sources.push((i, copy));
                assert(plan_view(sync_sources@) =~= plan_before.push((i as int, source.key.view())));
                add_to_groups(&mut groups, source.key, GitSourceConsumer::ResourceSync(sync.id.clone()));
            }
        }
    }
    assert(syncs@.take(syncs.len() as int) =~= syncs@);
    let mut preexisting_stack_ids: Vec<String> = Vec::new();
    for i in 0..stacks.len()
        invariant
            ids_view(preexisting_stack_ids@) == opted_in_ids(stacks@.take(i as int)),
    {
        proof {
            assert(stacks@.take(i + 1).drop_last() =~= stacks@.take(i as int));
            assert(stacks@.take(i + 1).last() == stacks@[i as int]);
        }
        if is_opted_in_stack(&stacks[i]) {
            let ghost prev = ids_view(preexisting_stack_ids@);
            preexisting_stack_ids.push(stacks[i].id.clone());
            assert(ids_view(preexisting_stack_ids@) =~= prev.push(stacks@[i as int].id@));
        }
    }
    assert(stacks@.take(stacks.len() as int) =~= stacks@);
    assert(sp.take(sp.len() as int) =~= sp);
    assert(sp + tp.take(0) =~= sp);
    for i in 0..stacks.len()
        invariant
            sp == sync_pairs(syncs@, repos@),
            groups_view(groups@) == grouped(sp + stack_pairs(stacks@.take(i as int), repos@)),
    {
        proof {
            assert(stacks@.take(i + 1).drop_last() =~= stacks@.take(i as int));
            assert(stacks@.take(i + 1).last() == stacks@[i as int]);
        }
        let stack = &stacks[i];
        if is_opted_in_stack(stack) {
            if let Some(source) = resolve_stack_source(stack, repos) {
                let ghost before = sp + stack_pairs(stacks@.take(i as int), repos@);
                let ghost after = sp + stack_pairs(stacks@.take(i + 1), repos@);
                assert(after =~= before.push((source.key.view(), ConsumerView::Stack(stack.id@))));
                assert(after.drop_last() =~= before);
                add_to_groups(&mut groups, source.key, GitSourceConsumer::Stack(stack.id.clone()));
            }
        }
    }
    CyclePlan { groups, sync_sources, preexisting_stack_ids }
}

// ----- fetching each source once -----

/// `snapshot` is what a call of `fetch` for `key` can give: its snapshot, or a
/// failed snapshot when it returns an error.
pub open spec fn fetched_with<F: Fn(&GitSourceKey) -> Result<GitSourceSnapshot, crate::report::ErrorChain>>(
    fetch: F,
    key: &GitSourceKey,
    snapshot: GitSourceSnapshot,
) -> bool {
    exists|out: Result<GitSourceSnapshot, crate::report::ErrorChain>|
        call_ensures(fetch, (key,), out) && match out {
            Ok(s) => snapshot == s,
            Err(_) => is_failed_snapshot(snapshot),
        }
}

/// Fetches every group's source once with `fetch`; a failed fetch becomes a
/// failed snapshot. The snapshots come in the order of the groups.
pub fn fetch_source_groups<F: Fn(&GitSourceKey) -> Result<GitSourceSnapshot, crate::report::ErrorChain>>(
    groups: Vec<(GitSourceKey, Vec<GitSourceConsumer>)>,
    fetch: F,
) -> (r: Vec<(GitSourceKey, GitSourceSnapshot)>)
    requires
        forall|k: &GitSourceKey| call_requires(fetch, (k,)),
    ensures
        r@.len() == groups@.len(),
        forall|i: int| 0 <= i < r@.len() ==> (#[trigger] r@[i]).0.view() == groups@[i].0.view(),
        forall|i: int| 0 <= i < r@.len() ==> fetched_with(fetch, &groups@[i].0, (#[trigger] r@[i]).1),
{
    let mut r: Vec<(GitSourceKey, GitSourceSnapshot)> = Vec::new();
    for i in 0..groups.len()
        invariant
            forall|k: &GitSourceKey| call_requires(fetch, (k,)),
            r@.len() == i,
            forall|j: int| 0 <= j < i ==> (#[trigger] r@[j]).0.view() == groups@[j].0.view(),
            forall|j: int| 0 <= j < i ==> fetched_with(fetch, &groups@[j].0, (#[trigger] r@[j]).1),
    {
        let key = &groups[i].0;
        let out = fetch(key);
        let ghost out_g = out;
        let snapshot = match out {
            Ok(s) => s,
            Err(_) => GitSourceSnapshot::failed(),
        };
        let ghost snap_g = snapshot;
        assert(fetched_with(fetch, &groups@[i as int].0, snap_g)) by {
            assert(call_ensures(fetch, (&groups@[i as int].0,), out_g));
        }
        let ghost old_r = r@;
        r.push((key.duplicate(), snapshot));
        assert forall|j: int| 0 <= j < i + 1 implies fetched_with(fetch, &groups@[j].0, (#[trigger] r@[j]).1) by {
            if j < i {
                assert(r@[j] == old_r[j]);
            }
        }
    }
    r
}

/// The snapshot fetched for `key`, if any.
pub fn snapshot_for<'a>(snapshots: &'a [(GitSourceKey, GitSourceSnapshot)], key: &GitSourceKey) -> (r: Option<&'a GitSourceSnapshot>)
    ensures
        match r {
            Some(s) => exists|i: int|
                0 <= i < snapshots@.len() && (#[trigger] snapshots@[i]).0.view() == key.view()
                    && snapshots@[i].1 == *s,
            None => forall|i: int| 0 <= i < snapshots@.len() ==> (#[trigger] snapshots@[i]).0.view() != key.view(),
        },
{
    for i in 0..snapshots.len()
        invariant
            forall|j: int| 0 <= j < i ==> (#[trigger] snapshots@[j]).0.view() != key.view(),
    {
        if snapshots[i].0.same_as(key) {
            return Some(&snapshots[i].1);
        }
    }
    None
}

/// Which of the Stacks listed now are reconciled this cycle: those that were
/// opted in when the cycle started and still are.
pub fn stacks_to_reconcile(preexisting_stack_ids: &[String], stacks: &[Stack]) -> (r: Vec<usize>)
    ensures
        forall|k: int| 0 <= k < r@.len() ==> (#[trigger] r@[k]) < stacks@.len(),
        forall|j: int|
            0 <= j < stacks@.len() ==> (r@.contains(j as usize) <==> (ids_view(preexisting_stack_ids@).contains(
                stacks@[j].id@,
            ) && opted_in_stack(stacks@[j]))),
{
    let mut r: Vec<usize> = Vec::new();
    for j in 0..stacks.len()
        invariant
            forall|k: int| 0 <= k < r@.len() ==> (#[trigger] r@[k]) < j,
            forall|m: int|
                0 <= m < j ==> (r@.contains(m as usize) <==> (ids_view(preexisting_stack_ids@).contains(
                    stacks@[m].id@,
                ) && opted_in_stack(stacks@[m]))),
    {
        let mut known = false;
        for q in 0..preexisting_stack_ids.len()
            invariant
                j < stacks.len(),
                known == exists|p: int| 0 <= p < q && preexisting_stack_ids@[p]@ == stacks@[j as int].id@,
        {
            if preexisting_stack_ids[q] == stacks[j].id {
                known = true;
            }
        }
        proof {
            if known {
                let p = choose|p: int| 0 <= p < preexisting_stack_ids.len() && preexisting_stack_ids@[p]@ == stacks@[j as int].id@;
                assert(ids_view(preexisting_stack_ids@)[p] == stacks@[j as int].id@);
            } else {
                assert forall|p: int| 0 <= p < ids_view(preexisting_stack_ids@).len() implies ids_view(preexisting_stack_ids@)[p] != stacks@[j as int].id@ by {
                    assert(ids_view(preexisting_stack_ids@)[p] == preexisting_stack_ids@[p]@);
                }
            }
        }
        let ghost old_r = r@;
        let pick = known && is_opted_in_stack(&stacks[j]);
        if pick {
            r.push(j);
        }
        proof {
            assert forall|m: int| 0 <= m < j + 1 implies (r@.contains(m as usize) <==> (ids_view(preexisting_stack_ids@).contains(
                stacks@[m].id@,
            ) && opted_in_stack(stacks@[m]))) by {
                if r@.contains(m as usize) {
                    let k = choose|k: int| 0 <= k < r@.len() && r@[k] == m as usize;
                    if k < old_r.len() {
                        assert(old_r[k] == m as usize);
                        assert(old_r.contains(m as usize));
                    }
                }
                if m < j && old_r.contains(m as usize) {
                    let k = choose|k: int| 0 <= k < old_r.len() && old_r[k] == m as usize;
                    assert(r@[k] == m as usize);
                }
                if m == j && pick {
                    assert(r@[r@.len() - 1] == m as usize);
                }
                if m == j && !pick && r@.contains(m as usize) {
                    let k = choose|k: int| 0 <= k < r@.len() && r@[k] == m as usize;
                    assert(old_r[k] < j);
                }
            }
        }
    }
    r
}

pub open spec fn unknown_failure_message() -> Seq<char> {
    "unknown source failure"@
}

/// Why a snapshot has no checkout to apply: its error, or an unknown failure.
pub fn fetch_failure_reason(snapshot: &GitSourceSnapshot) -> (r: String)
    ensures
        match snapshot.error {
            Some(e) => r@ == e@,
            None => r@ == unknown_failure_message(),
        },
{
    match &snapshot.error {
        Some(e) => e.clone(),
        None => string_of(&chars_of("unknown source failure")),
    }
}

/// What a consumer does with its source's snapshot this cycle.
pub enum SnapshotUse {
    /// No snapshot was fetched for the source: nothing to do.
    Skip,
    /// The fetch failed: report why and do nothing else.
    ReportFailure(String),
    /// Read the checkout at this root.
    Apply(String),
}

/// A Resource Sync applies a fetched checkout; a failed fetch is reported.
pub fn sync_snapshot_use(snapshot: Option<&GitSourceSnapshot>) -> (r: SnapshotUse)
    ensures
        match snapshot {
            None => r is Skip,
            Some(s) => match s.checkout_root {
                Some(root) => r matches SnapshotUse::Apply(x) && x@ == root@,
                None => r matches SnapshotUse::ReportFailure(m) && match s.error {
                    Some(e) => m@ == e@,
                    None => m@ == unknown_failure_message(),
                },
            },
        },
{
    match snapshot {
        None => SnapshotUse::Skip,
        Some(s) => match &s.checkout_root {
            Some(root) => SnapshotUse::Apply(root.clone()),
            None => SnapshotUse::ReportFailure(fetch_failure_reason(s)),
        },
    }
}

/// A Stack applies a fetched checkout and silently skips a failed fetch.
pub fn stack_snapshot_use(snapshot: Option<&GitSourceSnapshot>) -> (r: SnapshotUse)
    ensures
        match snapshot {
            Some(s) => match s.checkout_root {
                Some(root) => r matches SnapshotUse::Apply(x) && x@ == root@,
                None => r is Skip,
            },
            None => r is Skip,
        },
{
    match snapshot {
        Some(s) => match &s.checkout_root {
            Some(root) => SnapshotUse::Apply(root.clone()),
            None => SnapshotUse::Skip,
        },
        None => SnapshotUse::Skip,
    }
}

/// Every Resource Sync a cycle applies is one in the list that opted in
/// safely, paired with its own source; every such sync with a source is
/// applied, once, in list order.
pub proof fn law_planned_syncs_opted_in(syncs: Seq<ResourceSync>, repos: Seq<Repo>)
    ensures
        forall|j: int| 0 <= j < sync_plan(syncs, repos).len() ==> {
            let (i, k) = #[trigger] sync_plan(syncs, repos)[j];
            &&& 0 <= i < syncs.len()
            &&& safe_opted_in_sync(syncs[i])
            &&& sync_source(syncs[i], repos) == Some(k)
        },
        forall|j1: int, j2: int| 0 <= j1 < j2 < sync_plan(syncs, repos).len()
            ==> (#[trigger] sync_plan(syncs, repos)[j1]).0 < (#[trigger] sync_plan(syncs, repos)[j2]).0,
        forall|i: int| 0 <= i < syncs.len() && safe_opted_in_sync(#[trigger] syncs[i]) && sync_source(syncs[i], repos) is Some
            ==> exists|j: int| 0 <= j < sync_plan(syncs, repos).len() && (#[trigger] sync_plan(syncs, repos)[j]).0 == i,
    decreases syncs.len(),
{
    if syncs.len() > 0 {
        let prev = syncs.drop_last();
        law_planned_syncs_opted_in(prev, repos);
        let rest = sync_plan(prev, repos);
        let plan = sync_plan(syncs, repos);
        assert forall|j: int| 0 <= j < rest.len() implies (#[trigger] rest[j]).0 < syncs.len() - 1 by {
            let (i, k) = rest[j];
        }
        assert forall|j: int| 0 <= j < plan.len() implies {
            let (i, k) = #[trigger] plan[j];
            &&& 0 <= i < syncs.len()
            &&& safe_opted_in_sync(syncs[i])
            &&& sync_source(syncs[i], repos) == Some(k)
        } by {
            if j < rest.len() {
                assert(plan[j] == rest[j]);
                let (i, k) = rest[j];
                assert(prev[i] == syncs[i]);
            }
        }
        assert forall|j1: int, j2: int| 0 <= j1 < j2 < plan.len()
            implies (#[trigger] plan[j1]).0 < (#[trigger] plan[j2]).0 by {
            assert(plan[j1] == rest[j1]);
            if j2 < rest.len() {
                assert(plan[j2] == rest[j2]);
            }
        }
        assert forall|i: int| 0 <= i < syncs.len() && safe_opted_in_sync(#[trigger] syncs[i]) && sync_source(syncs[i], repos) is Some
            implies exists|j: int| 0 <= j < plan.len() && (#[trigger] plan[j]).0 == i by {
            if i < syncs.len() - 1 {
                assert(prev[i] == syncs[i]);
                let j = choose|j: int| 0 <= j < rest.len() && (#[trigger] rest[j]).0 == i;
                assert(plan[j] == rest[j]);
            } else {
                assert(plan[plan.len() - 1].0 == i);
            }
        }
    }
}

} // verus!
