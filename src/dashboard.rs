//! The application state: tabs, favorites, search, saved log positions, and
//! the key actions that route through the favorite-aware order.

use vstd::prelude::*;
use vstd::string::*;
use crate::analyze::{AnalyzeTabState, AnalyzeViewLevel, NavigationContext, RunMetadata, SourceTab};
use crate::clock::Timestamp;
use crate::favorites::{ordered, ordered_indices, repo_key, runner_key, workflow_key, FavoriteSet, SortKey};
use crate::grouping::{item_job, valid_item};
use crate::lists::LoadingState;
use crate::log::{lowered_lines, lines_of, lower_of, match_indices, search_lines};
use crate::navigation::ViewLevel;
use crate::runners::{RunnersTabState, RunnersViewLevel};
use crate::sync::SyncTabState;
use crate::text::concat_str;
use crate::types::{EnrichedRunner, Owner, Repository, Workflow};
use crate::workflows::{WorkflowsTabState, SCROLL_COLUMNS};

verus! {

/// Lines the log viewer is assumed to show.
pub const VISIBLE_LINES: u16 = 20;

/// The tabs of the dashboard.
#[derive(Clone, Copy, Debug, PartialEq, Eq, Structural)]
pub enum Tab {
    Runners,
    Workflows,
    Analyze,
    Sync,
}

impl Default for Tab {
    fn default() -> (r: Self)
        ensures
            r == Tab::Workflows,
    {
        Tab::Workflows
    }
}

impl Tab {
    /// The tab's title.
    pub fn title(&self) -> (r: &'static str)
        ensures
            *self == Tab::Runners ==> r@ == "Runners"@,
            *self == Tab::Workflows ==> r@ == "Workflows"@,
            *self == Tab::Analyze ==> r@ == "Analyze"@,
            *self == Tab::Sync ==> r@ == "Sync"@,
    {
        match self {
            Tab::Runners => "Runners",
            Tab::Workflows => "Workflows",
            Tab::Analyze => "Analyze",
            Tab::Sync => "Sync",
        }
    }

    /// The tab to the right, wrapping around.
    pub fn next(&self) -> (r: Self)
        ensures
            r == match *self {
                Tab::Runners => Tab::Workflows,
                Tab::Workflows => Tab::Analyze,
                Tab::Analyze => Tab::Sync,
                Tab::Sync => Tab::Runners,
            },
    {
        match self {
            Tab::Runners => Tab::Workflows,
            Tab::Workflows => Tab::Analyze,
            Tab::Analyze => Tab::Sync,
            Tab::Sync => Tab::Runners,
        }
    }

    /// The tab to the left, wrapping around.
    pub fn prev(&self) -> (r: Self)
        ensures
            r == match *self {
                Tab::Runners => Tab::Sync,
                Tab::Workflows => Tab::Runners,
                Tab::Analyze => Tab::Workflows,
                Tab::Sync => Tab::Analyze,
            },
    {
        match self {
            Tab::Runners => Tab::Sync,
            Tab::Workflows => Tab::Runners,
            Tab::Analyze => Tab::Workflows,
            Tab::Sync => Tab::Analyze,
        }
    }
}

/// Saved selection and scroll of a job's log.
#[derive(Clone, Copy, Debug, PartialEq, Eq, Structural)]
pub struct LogViewState {
    pub selection_anchor: usize,
    pub selection_cursor: usize,
    pub scroll_y: u16,
}

/// Sort keys of owners: favorite by login, ordered by login.
pub open spec fn owner_keys_of(keys: Seq<SortKey>, items: Seq<Owner>, favs: Set<Seq<char>>) -> bool {
    keys.len() == items.len() && forall|i: int|
        0 <= i < keys.len() ==> (#[trigger] keys[i]).index == i && keys[i].key@ == items[i].login@
            && keys[i].favorite == favs.contains(items[i].login@)
}

/// Sort keys of an owner's repositories: favorite by `owner/name`, ordered by name.
pub open spec fn repo_keys_of(keys: Seq<SortKey>, items: Seq<Repository>, owner: Seq<char>, favs: Set<Seq<char>>) -> bool {
    keys.len() == items.len() && forall|i: int|
        0 <= i < keys.len() ==> (#[trigger] keys[i]).index == i && keys[i].key@ == items[i].name@
            && keys[i].favorite == favs.contains(owner + "/"@ + items[i].name@)
}

/// Sort keys of a repository's workflows: favorite by `owner/repo/id`, ordered by name.
pub open spec fn workflow_keys_of(
    keys: Seq<SortKey>,
    items: Seq<Workflow>,
    owner: Seq<char>,
    repo: Seq<char>,
    favs: Set<Seq<char>>,
) -> bool {
    keys.len() == items.len() && forall|i: int|
        0 <= i < keys.len() ==> (#[trigger] keys[i]).index == i && keys[i].key@ == items[i].name@
            && keys[i].favorite == favs.contains(
            owner + "/"@ + repo + "/"@ + crate::text::decimal(items[i].id as nat),
        )
}

/// Sort keys of the runners tab's repositories: favorite by and ordered by
/// `owner/name`.
pub open spec fn runner_repo_keys_of(keys: Seq<SortKey>, items: Seq<Repository>, favs: Set<Seq<char>>) -> bool {
    keys.len() == items.len() && forall|i: int|
        0 <= i < keys.len() ==> (#[trigger] keys[i]).index == i && keys[i].key@ == items[i].owner.login@ + "/"@
            + items[i].name@ && keys[i].favorite == favs.contains(keys[i].key@)
}

/// Sort keys of a repository's runners: favorite by `owner/repo/name`,
/// ordered by name.
pub open spec fn runner_keys_of(
    keys: Seq<SortKey>,
    items: Seq<EnrichedRunner>,
    owner: Seq<char>,
    repo: Seq<char>,
    favs: Set<Seq<char>>,
) -> bool {
    keys.len() == items.len() && forall|i: int|
        0 <= i < keys.len() ==> (#[trigger] keys[i]).index == i && keys[i].key@ == items[i].runner.name@
            && keys[i].favorite == favs.contains(owner + "/"@ + repo + "/"@ + items[i].runner.name@)
}

/// Sort keys of owners.
pub fn owner_keys(items: &Vec<Owner>, favs: &FavoriteSet) -> (r: Vec<SortKey>)
    ensures
        owner_keys_of(r@, items@, favs@),
{
    let mut out: Vec<SortKey> = Vec::new();
    let mut i: usize = 0;
    while i < items.len()
        invariant
            i <= items@.len(),
            out@.len() == i,
            forall|k: int|
                0 <= k < i ==> (#[trigger] out@[k]).index == k && out@[k].key@ == items@[k].login@
                    && out@[k].favorite == favs@.contains(items@[k].login@),
        decreases items@.len() - i,
    {
        let fav = favs.contains(items[i].login.as_str());
        out.push(SortKey { favorite: fav, key: items[i].login.clone(), index: i });
        i = i + 1;
    }
    out
}

/// Sort keys of an owner's repositories.
pub fn repo_keys(items: &Vec<Repository>, owner: &str, favs: &FavoriteSet) -> (r: Vec<SortKey>)
    ensures
        repo_keys_of(r@, items@, owner@, favs@),
{
    let mut out: Vec<SortKey> = Vec::new();
    let mut i: usize = 0;
    while i < items.len()
        invariant
            i <= items@.len(),
            out@.len() == i,
            forall|k: int|
                0 <= k < i ==> (#[trigger] out@[k]).index == k && out@[k].key@ == items@[k].name@
                    && out@[k].favorite == favs@.contains(owner@ + "/"@ + items@[k].name@),
        decreases items@.len() - i,
    {
        let key = repo_key(owner, items[i].name.as_str());
        let fav = favs.contains(key.as_str());
        out.push(SortKey { favorite: fav, key: items[i].name.clone(), index: i });
        i = i + 1;
    }
    out
}

/// Sort keys of a repository's workflows.
pub fn workflow_keys(items: &Vec<Workflow>, owner: &str, repo: &str, favs: &FavoriteSet) -> (r: Vec<SortKey>)
    ensures
        workflow_keys_of(r@, items@, owner@, repo@, favs@),
{
    let mut out: Vec<SortKey> = Vec::new();
    let mut i: usize = 0;
    while i < items.len()
        invariant
            i <= items@.len(),
            out@.len() == i,
            forall|k: int|
                0 <= k < i ==> (#[trigger] out@[k]).index == k && out@[k].key@ == items@[k].name@
                    && out@[k].favorite == favs@.contains(
                    owner@ + "/"@ + repo@ + "/"@ + crate::text::decimal(items@[k].id as nat),
                ),
        decreases items@.len() - i,
    {
        let key = workflow_key(owner, repo, items[i].id);
        let fav = favs.contains(key.as_str());
        out.push(SortKey { favorite: fav, key: items[i].name.clone(), index: i });
        i = i + 1;
    }
    out
}

/// Sort keys of the runners tab's repositories.
pub fn runner_repo_keys(items: &Vec<Repository>, favs: &FavoriteSet) -> (r: Vec<SortKey>)
    ensures
        runner_repo_keys_of(r@, items@, favs@),
{
    let mut out: Vec<SortKey> = Vec::new();
    let mut i: usize = 0;
    while i < items.len()
        invariant
            i <= items@.len(),
            out@.len() == i,
            forall|k: int|
                0 <= k < i ==> (#[trigger] out@[k]).index == k && out@[k].key@ == items@[k].owner.login@ + "/"@
                    + items@[k].name@ && out@[k].favorite == favs@.contains(out@[k].key@),
        decreases items@.len() - i,
    {
        let key = repo_key(items[i].owner.login.as_str(), items[i].name.as_str());
        let fav = favs.contains(key.as_str());
        out.push(SortKey { favorite: fav, key, index: i });
        i = i + 1;
    }
    out
}

/// Sort keys of a repository's runners.
pub fn runner_keys(items: &Vec<EnrichedRunner>, owner: &str, repo: &str, favs: &FavoriteSet) -> (r: Vec<SortKey>)
    ensures
        runner_keys_of(r@, items@, owner@, repo@, favs@),
{
    let mut out: Vec<SortKey> = Vec::new();
    let mut i: usize = 0;
    while i < items.len()
        invariant
            i <= items@.len(),
            out@.len() == i,
            forall|k: int|
                0 <= k < i ==> (#[trigger] out@[k]).index == k && out@[k].key@ == items@[k].runner.name@
                    && out@[k].favorite == favs@.contains(owner@ + "/"@ + repo@ + "/"@ + items@[k].runner.name@),
        decreases items@.len() - i,
    {
        let key = runner_key(owner, repo, items[i].runner.name.as_str());
        let fav = favs.contains(key.as_str());
        out.push(SortKey { favorite: fav, key: items[i].runner.name.clone(), index: i });
        i = i + 1;
    }
    out
}

/// The position, in the unordered list, of the item shown at `cursor` in the
/// favorite-aware order.
pub open spec fn shown_at(keys: Seq<SortKey>, cursor: Option<usize>) -> Option<usize> {
    match cursor {
        Some(c) => if c < keys.len() { Some(ordered(keys)[c as int].index) } else { None },
        None => None,
    }
}

/// The position of the item shown at `cursor`, resolved through the
/// favorite-aware order of `keys`.
pub fn resolve_cursor(keys: Vec<SortKey>, cursor: Option<usize>) -> (r: Option<usize>)
    ensures
        r == shown_at(keys@, cursor),
{
    match cursor {
        Some(c) => {
            let order = ordered_indices(keys);
            if c < order.len() {
                Some(order[c])
            } else {
                None
            }
        },
        None => None,
    }
}

/// The last `/`-separated segment of a path.
pub open spec fn last_segment(p: Seq<char>) -> Seq<char>
    decreases p.len(),
{
    if p.len() == 0 {
        p
    } else if p.last() == '/' {
        Seq::empty()
    } else {
        last_segment(p.drop_last()).push(p.last())
    }
}

/// The last `/`-separated segment of a path.
pub fn file_name(path: &str) -> (r: String)
    ensures
        r@ == last_segment(path@),
{
    let n = path.unicode_len();
    let mut start = n;
    assert(path@.subrange(0, n as int) =~= path@);
    assert(path@.subrange(n as int, n as int) =~= Seq::<char>::empty());
    assert(last_segment(path@) + Seq::<char>::empty() =~= last_segment(path@));
    while start > 0 && path.get_char(start - 1) != '/'
        invariant
            n == path@.len(),
            start <= n,
            last_segment(path@) == last_segment(path@.subrange(0, start as int)) + path@.subrange(start as int, n as int),
        decreases start,
    {
        let ghost pre = path@.subrange(0, start as int);
        assert(pre.drop_last() =~= path@.subrange(0, start - 1));
        assert(path@.subrange(start - 1, n as int) =~= seq![pre.last()] + path@.subrange(start as int, n as int));
        assert(last_segment(pre) == last_segment(pre.drop_last()).push(pre.last()));
        assert(last_segment(path@.subrange(0, start - 1)) + path@.subrange(start - 1, n as int) =~= last_segment(pre) + path@.subrange(start as int, n as int));
        start = start - 1;
    }
    proof {
        assert(path@.subrange(0, n as int) =~= path@);
        assert(path@.subrange(start as int, n as int) =~= path@.subrange(start as int, n as int));
    }
    let r = path.substring_char(start, n);
    assert(last_segment(path@.subrange(0, start as int)) =~= Seq::<char>::empty());
    String::from_str(r)
}

/// Moving to the next match from the last of `len` matches lands on the first.
pub proof fn law_next_match_wraps(len: int)
    requires
        len > 0,
    ensures
        ((len - 1) + 1) % len == 0,
{
    assert(((len - 1) + 1) % len == 0) by (nonlinear_arith)
        requires
            len > 0,
    {
    }
}

/// A set with `k` added if absent, removed if present.
pub open spec fn toggled(s: Set<Seq<char>>, k: Seq<char>) -> Set<Seq<char>> {
    if s.contains(k) { s.remove(k) } else { s.insert(k) }
}

/// The main application state.
pub struct App {
    pub active_tab: Tab,
    pub should_quit: bool,
    pub show_help: bool,
    /// Whether the search prompt takes input.
    pub search_active: bool,
    pub search_query: String,
    /// Lines (0-indexed) that contain the query.
    pub search_matches: Vec<usize>,
    /// Position of the current match in `search_matches`.
    pub search_match_index: usize,
    pub workflows: WorkflowsTabState,
    pub runners: RunnersTabState,
    pub analyze: AnalyzeTabState,
    pub sync: SyncTabState,
    /// Saved log positions by job id.
    pub log_view_states: Vec<(u64, LogViewState)>,
    /// Until when the "copied" indicator shows (ms since epoch).
    pub clipboard_flash_until: Option<i64>,
    /// Favorite owners (login).
    pub favorite_owners: FavoriteSet,
    /// Favorite repositories (`owner/repo`).
    pub favorite_repos: FavoriteSet,
    /// Favorite workflows (`owner/repo/workflow_id`).
    pub favorite_workflows: FavoriteSet,
    /// Favorite runners (`owner/repo/runner_name`).
    pub favorite_runners: FavoriteSet,
}

/// Whether the flattened job list has a valid entry under `cursor`.
pub open spec fn entry_shown(
    items: Seq<crate::grouping::JobListItem>,
    groups: Seq<crate::grouping::JobGroup>,
    cursor: Option<usize>,
) -> bool {
    cursor is Some && cursor->Some_0 < items.len() && valid_item(items[cursor->Some_0 as int], groups)
}

/// The job named by the flattened entry under `cursor`.
pub open spec fn entry_job(
    items: Seq<crate::grouping::JobListItem>,
    groups: Seq<crate::grouping::JobGroup>,
    cursor: Option<usize>,
) -> crate::types::Job {
    item_job(items[cursor->Some_0 as int], groups)
}

/// The job an entry of the flattened list names, if the entry is in range.
fn job_entry<'a>(
    items: &Vec<crate::grouping::JobListItem>,
    groups: &'a Vec<crate::grouping::JobGroup>,
    cursor: Option<usize>,
) -> (r: Option<&'a crate::types::Job>)
    ensures
        r is Some <==> entry_shown(items@, groups@, cursor),
        r matches Some(j) ==> *j == entry_job(items@, groups@, cursor),
{
    let c = match cursor {
        Some(c) => c,
        None => return None,
    };
    if c >= items.len() {
        return None;
    }
    let item = items[c];
    let ok = match item {
        crate::grouping::JobListItem::Main { group_index } => group_index < groups.len(),
        crate::grouping::JobListItem::SubItem { group_index, attempt_index } => group_index < groups.len()
            && attempt_index < groups[group_index].previous.len(),
    };
    if ok {
        Some(item.get_job(groups.as_slice()))
    } else {
        None
    }
}

/// Sort keys that describe the same list give the same shown position.
proof fn lemma_shown_same(a: Seq<SortKey>, b: Seq<SortKey>, cursor: Option<usize>)
    requires
        crate::favorites::same_entries(a, b),
    ensures
        shown_at(a, cursor) == shown_at(b, cursor),
{
    crate::favorites::law_order_by_entries(a, b);
    crate::favorites::law_ordered_sorted(a);
    a.to_multiset_ensures();
    ordered(a).to_multiset_ensures();
    if cursor is Some {
        let c = cursor->Some_0 as int;
        if c < a.len() {
            assert(crate::favorites::same_entry(ordered(a)[c], ordered(b)[c]));
        }
    }
}

/// A cursor on an ordered list names an item of the list.
proof fn lemma_shown_in_range(keys: Seq<SortKey>, cursor: Option<usize>)
    requires
        forall|i: int| 0 <= i < keys.len() ==> (#[trigger] keys[i]).index == i,
    ensures
        shown_at(keys, cursor) matches Some(i) ==> i < keys.len(),
{
    if shown_at(keys, cursor) is Some {
        crate::favorites::law_ordered_sorted(keys);
        keys.to_multiset_ensures();
        ordered(keys).to_multiset_ensures();
        let c = cursor->Some_0 as int;
        assert(keys.to_multiset().contains(ordered(keys)[c]));
    }
}

impl App {
    /// A fresh state: workflows tab, every list empty, no favorites.
    pub fn new() -> (r: Self)
        ensures
            r.active_tab == Tab::Workflows,
            !r.should_quit && !r.show_help && !r.search_active,
            r.search_matches@.len() == 0,
            r.favorite_owners@.is_empty() && r.favorite_repos@.is_empty(),
            r.favorite_workflows@.is_empty() && r.favorite_runners@.is_empty(),
            r.workflows.nav@ == seq![ViewLevel::Owners],
            r.runners.nav@ == seq![RunnersViewLevel::Repositories],
    {
        App {
            active_tab: Tab::Workflows,
            should_quit: false,
            show_help: false,
            search_active: false,
            search_query: String::new(),
            search_matches: Vec::new(),
            search_match_index: 0,
            workflows: WorkflowsTabState::new(),
            runners: RunnersTabState::new(),
            analyze: AnalyzeTabState::new(),
            sync: SyncTabState::new(),
            log_view_states: Vec::new(),
            clipboard_flash_until: None,
            favorite_owners: FavoriteSet::new(),
            favorite_repos: FavoriteSet::new(),
            favorite_workflows: FavoriteSet::new(),
            favorite_runners: FavoriteSet::new(),
        }
    }

    /// Whether `i` is the position of the owner shown under the cursor, in
    /// the favorite-aware order.
    pub open spec fn shows_owner(&self, i: usize) -> bool {
        self.workflows.owners.data is Loaded && exists|keys: Seq<SortKey>|
            owner_keys_of(keys, self.workflows.owners.data->Loaded_0.items@, self.favorite_owners@) && shown_at(keys, self.workflows.owners.selected) == Some(i)
    }

    /// Position of the owner shown under the cursor, if any.
    pub open spec fn owner_shown(&self, ) -> Option<usize> {
        if exists|i: usize| self.shows_owner(i) {
            Some(choose|i: usize| self.shows_owner(i))
        } else {
            None
        }
    }

    /// Position in the owners list of the owner shown under the cursor.
    pub fn shown_owner(&self) -> (r: Option<usize>)
        ensures
            r == self.owner_shown(),
            r matches Some(i) ==> self.workflows.owners.data is Loaded && i < self.workflows.owners.data->Loaded_0.items@.len(),
            r is Some <==> (self.workflows.owners.data is Loaded && self.workflows.owners.selected is Some
                && self.workflows.owners.selected->Some_0 < self.workflows.owners.data->Loaded_0.items@.len()),
    {
        match &self.workflows.owners.data {
            LoadingState::Loaded(p) => {
                let keys = owner_keys(&p.items, &self.favorite_owners);
                let ghost kv = keys@;
                let r = resolve_cursor(keys, self.workflows.owners.selected);
                proof {
                    lemma_shown_in_range(kv, self.workflows.owners.selected);
                    if r is Some {
                        assert(self.shows_owner(r->Some_0));
                    }
                    assert forall|j: usize| self.shows_owner(j) implies r == Some(j) by {
                        let k2 = choose|k2: Seq<SortKey>|
                            owner_keys_of(k2, self.workflows.owners.data->Loaded_0.items@, self.favorite_owners@) && shown_at(k2, self.workflows.owners.selected) == Some(j);
                        lemma_owner_keys_same(kv, k2, self);
                        lemma_shown_same(kv, k2, self.workflows.owners.selected);
                    }
                }
                r
            },
            _ => None,
        }
    }

    /// Whether `i` is the position of the repository shown under the cursor, in
    /// the favorite-aware order.
    pub open spec fn shows_repository(&self, owner: Seq<char>, i: usize) -> bool {
        self.workflows.repositories.data is Loaded && exists|keys: Seq<SortKey>|
            repo_keys_of(keys, self.workflows.repositories.data->Loaded_0.items@, owner, self.favorite_repos@) && shown_at(keys, self.workflows.repositories.selected) == Some(i)
    }

    /// Position of the repository shown under the cursor, if any.
    pub open spec fn repository_shown(&self, owner: Seq<char>) -> Option<usize> {
        if exists|i: usize| self.shows_repository(owner, i) {
            Some(choose|i: usize| self.shows_repository(owner, i))
        } else {
            None
        }
    }

    /// Position in the repositories list of the repository shown under the cursor.
    pub fn shown_repository(&self, owner: &str) -> (r: Option<usize>)
        ensures
            r == self.repository_shown(owner@),
            r matches Some(i) ==> self.workflows.repositories.data is Loaded && i < self.workflows.repositories.data->Loaded_0.items@.len(),
            r is Some <==> (self.workflows.repositories.data is Loaded && self.workflows.repositories.selected is Some
                && self.workflows.repositories.selected->Some_0 < self.workflows.repositories.data->Loaded_0.items@.len()),
    {
        match &self.workflows.repositories.data {
            LoadingState::Loaded(p) => {
                let keys = repo_keys(&p.items, owner, &self.favorite_repos);
                let ghost kv = keys@;
                let r = resolve_cursor(keys, self.workflows.repositories.selected);
                proof {
                    lemma_shown_in_range(kv, self.workflows.repositories.selected);
                    if r is Some {
                        assert(self.shows_repository(owner@, r->Some_0));
                    }
                    assert forall|j: usize| self.shows_repository(owner@, j) implies r == Some(j) by {
                        let k2 = choose|k2: Seq<SortKey>|
                            repo_keys_of(k2, self.workflows.repositories.data->Loaded_0.items@, owner@, self.favorite_repos@) && shown_at(k2, self.workflows.repositories.selected) == Some(j);
                        lemma_repository_keys_same(kv, k2, owner@, self);
                        lemma_shown_same(kv, k2, self.workflows.repositories.selected);
                    }
                }
                r
            },
            _ => None,
        }
    }

    /// Whether `i` is the position of the workflow shown under the cursor, in
    /// the favorite-aware order.
    pub open spec fn shows_workflow(&self, owner: Seq<char>, repo: Seq<char>, i: usize) -> bool {
        self.workflows.workflows.data is Loaded && exists|keys: Seq<SortKey>|
            workflow_keys_of(keys, self.workflows.workflows.data->Loaded_0.items@, owner, repo, self.favorite_workflows@) && shown_at(keys, self.workflows.workflows.selected) == Some(i)
    }

    /// Position of the workflow shown under the cursor, if any.
    pub open spec fn workflow_shown(&self, owner: Seq<char>, repo: Seq<char>) -> Option<usize> {
        if exists|i: usize| self.shows_workflow(owner, repo, i) {
            Some(choose|i: usize| self.shows_workflow(owner, repo, i))
        } else {
            None
        }
    }

    /// Position in the workflows list of the workflow shown under the cursor.
    pub fn shown_workflow(&self, owner: &str, repo: &str) -> (r: Option<usize>)
        ensures
            r == self.workflow_shown(owner@, repo@),
            r matches Some(i) ==> self.workflows.workflows.data is Loaded && i < self.workflows.workflows.data->Loaded_0.items@.len(),
            r is Some <==> (self.workflows.workflows.data is Loaded && self.workflows.workflows.selected is Some
                && self.workflows.workflows.selected->Some_0 < self.workflows.workflows.data->Loaded_0.items@.len()),
    {
        match &self.workflows.workflows.data {
            LoadingState::Loaded(p) => {
                let keys = workflow_keys(&p.items, owner, repo, &self.favorite_workflows);
                let ghost kv = keys@;
                let r = resolve_cursor(keys, self.workflows.workflows.selected);
                proof {
                    lemma_shown_in_range(kv, self.workflows.workflows.selected);
                    if r is Some {
                        assert(self.shows_workflow(owner@, repo@, r->Some_0));
                    }
                    assert forall|j: usize| self.shows_workflow(owner@, repo@, j) implies r == Some(j) by {
                        let k2 = choose|k2: Seq<SortKey>|
                            workflow_keys_of(k2, self.workflows.workflows.data->Loaded_0.items@, owner@, repo@, self.favorite_workflows@) && shown_at(k2, self.workflows.workflows.selected) == Some(j);
                        lemma_workflow_keys_same(kv, k2, owner@, repo@, self);
                        lemma_shown_same(kv, k2, self.workflows.workflows.selected);
                    }
                }
                r
            },
            _ => None,
        }
    }

    /// Whether `i` is the position of the repository of the runners tab shown under the cursor, in
    /// the favorite-aware order.
    pub open spec fn shows_runner_repository(&self, i: usize) -> bool {
        self.runners.repositories.data is Loaded && exists|keys: Seq<SortKey>|
            runner_repo_keys_of(keys, self.runners.repositories.data->Loaded_0.items@, self.favorite_repos@) && shown_at(keys, self.runners.repositories.selected) == Some(i)
    }

    /// Position of the repository of the runners tab shown under the cursor, if any.
    pub open spec fn runner_repository_shown(&self, ) -> Option<usize> {
        if exists|i: usize| self.shows_runner_repository(i) {
            Some(choose|i: usize| self.shows_runner_repository(i))
        } else {
            None
        }
    }

    /// Position in the repositories list of the repository of the runners tab shown under the cursor.
    pub fn shown_runner_repository(&self) -> (r: Option<usize>)
        ensures
            r == self.runner_repository_shown(),
            r matches Some(i) ==> self.runners.repositories.data is Loaded && i < self.runners.repositories.data->Loaded_0.items@.len(),
            r is Some <==> (self.runners.repositories.data is Loaded && self.runners.repositories.selected is Some
                && self.runners.repositories.selected->Some_0 < self.runners.repositories.data->Loaded_0.items@.len()),
    {
        match &self.runners.repositories.data {
            LoadingState::Loaded(p) => {
                let keys = runner_repo_keys(&p.items, &self.favorite_repos);
                let ghost kv = keys@;
                let r = resolve_cursor(keys, self.runners.repositories.selected);
                proof {
                    lemma_shown_in_range(kv, self.runners.repositories.selected);
                    if r is Some {
                        assert(self.shows_runner_repository(r->Some_0));
                    }
                    assert forall|j: usize| self.shows_runner_repository(j) implies r == Some(j) by {
                        let k2 = choose|k2: Seq<SortKey>|
                            runner_repo_keys_of(k2, self.runners.repositories.data->Loaded_0.items@, self.favorite_repos@) && shown_at(k2, self.runners.repositories.selected) == Some(j);
                        lemma_runner_repository_keys_same(kv, k2, self);
                        lemma_shown_same(kv, k2, self.runners.repositories.selected);
                    }
                }
                r
            },
            _ => None,
        }
    }

    /// Whether `i` is the position of the runner shown under the cursor, in
    /// the favorite-aware order.
    pub open spec fn shows_runner(&self, owner: Seq<char>, repo: Seq<char>, i: usize) -> bool {
        self.runners.runners.data is Loaded && exists|keys: Seq<SortKey>|
            runner_keys_of(keys, self.runners.runners.data->Loaded_0.items@, owner, repo, self.favorite_runners@) && shown_at(keys, self.runners.runners.selected) == Some(i)
    }

    /// Position of the runner shown under the cursor, if any.
    pub open spec fn runner_shown(&self, owner: Seq<char>, repo: Seq<char>) -> Option<usize> {
        if exists|i: usize| self.shows_runner(owner, repo, i) {
            Some(choose|i: usize| self.shows_runner(owner, repo, i))
        } else {
            None
        }
    }

    /// Position in the runners list of the runner shown under the cursor.
    pub fn shown_runner(&self, owner: &str, repo: &str) -> (r: Option<usize>)
        ensures
            r == self.runner_shown(owner@, repo@),
            r matches Some(i) ==> self.runners.runners.data is Loaded && i < self.runners.runners.data->Loaded_0.items@.len(),
            r is Some <==> (self.runners.runners.data is Loaded && self.runners.runners.selected is Some
                && self.runners.runners.selected->Some_0 < self.runners.runners.data->Loaded_0.items@.len()),
    {
        match &self.runners.runners.data {
            LoadingState::Loaded(p) => {
                let keys = runner_keys(&p.items, owner, repo, &self.favorite_runners);
                let ghost kv = keys@;
                let r = resolve_cursor(keys, self.runners.runners.selected);
                proof {
                    lemma_shown_in_range(kv, self.runners.runners.selected);
                    if r is Some {
                        assert(self.shows_runner(owner@, repo@, r->Some_0));
                    }
                    assert forall|j: usize| self.shows_runner(owner@, repo@, j) implies r == Some(j) by {
                        let k2 = choose|k2: Seq<SortKey>|
                            runner_keys_of(k2, self.runners.runners.data->Loaded_0.items@, owner@, repo@, self.favorite_runners@) && shown_at(k2, self.runners.runners.selected) == Some(j);
                        lemma_runner_keys_same(kv, k2, owner@, repo@, self);
                        lemma_shown_same(kv, k2, self.runners.runners.selected);
                    }
                }
                r
            },
            _ => None,
        }
    }

}

proof fn lemma_owner_keys_same(k1: Seq<SortKey>, k2: Seq<SortKey>, app: &App)
    requires
        owner_keys_of(k1, app.workflows.owners.data->Loaded_0.items@, app.favorite_owners@),
        owner_keys_of(k2, app.workflows.owners.data->Loaded_0.items@, app.favorite_owners@),
    ensures
        crate::favorites::same_entries(k1, k2),
{
    assert forall|i: int| 0 <= i < k1.len() implies crate::favorites::same_entry(#[trigger] k1[i], k2[i]) by {}
}

proof fn lemma_repository_keys_same(k1: Seq<SortKey>, k2: Seq<SortKey>, owner: Seq<char>, app: &App)
    requires
        repo_keys_of(k1, app.workflows.repositories.data->Loaded_0.items@, owner, app.favorite_repos@),
        repo_keys_of(k2, app.workflows.repositories.data->Loaded_0.items@, owner, app.favorite_repos@),
    ensures
        crate::favorites::same_entries(k1, k2),
{
    assert forall|i: int| 0 <= i < k1.len() implies crate::favorites::same_entry(#[trigger] k1[i], k2[i]) by {}
}

proof fn lemma_workflow_keys_same(k1: Seq<SortKey>, k2: Seq<SortKey>, owner: Seq<char>, repo: Seq<char>, app: &App)
    requires
        workflow_keys_of(k1, app.workflows.workflows.data->Loaded_0.items@, owner, repo, app.favorite_workflows@),
        workflow_keys_of(k2, app.workflows.workflows.data->Loaded_0.items@, owner, repo, app.favorite_workflows@),
    ensures
        crate::favorites::same_entries(k1, k2),
{
    assert forall|i: int| 0 <= i < k1.len() implies crate::favorites::same_entry(#[trigger] k1[i], k2[i]) by {}
}

proof fn lemma_runner_repository_keys_same(k1: Seq<SortKey>, k2: Seq<SortKey>, app: &App)
    requires
        runner_repo_keys_of(k1, app.runners.repositories.data->Loaded_0.items@, app.favorite_repos@),
        runner_repo_keys_of(k2, app.runners.repositories.data->Loaded_0.items@, app.favorite_repos@),
    ensures
        crate::favorites::same_entries(k1, k2),
{
    assert forall|i: int| 0 <= i < k1.len() implies crate::favorites::same_entry(#[trigger] k1[i], k2[i]) by {}
}

proof fn lemma_runner_keys_same(k1: Seq<SortKey>, k2: Seq<SortKey>, owner: Seq<char>, repo: Seq<char>, app: &App)
    requires
        runner_keys_of(k1, app.runners.runners.data->Loaded_0.items@, owner, repo, app.favorite_runners@),
        runner_keys_of(k2, app.runners.runners.data->Loaded_0.items@, owner, repo, app.favorite_runners@),
    ensures
        crate::favorites::same_entries(k1, k2),
{
    assert forall|i: int| 0 <= i < k1.len() implies crate::favorites::same_entry(#[trigger] k1[i], k2[i]) by {}
}

impl App {
    /// The level that Enter drills into on the workflows tab: the item shown
    /// under the cursor (in the favorite-aware order for owners, repositories
    /// and workflows; through the flattened job list for jobs).
    pub open spec fn workflows_next(&self) -> Option<ViewLevel> {
        match self.workflows.nav@.last() {
            ViewLevel::Owners => match self.owner_shown() {
                Some(i) => Some(
                    ViewLevel::Repositories { owner: self.workflows.owners.data->Loaded_0.items@[i as int].login },
                ),
                None => None,
            },
            ViewLevel::Repositories { owner } => match self.repository_shown(owner@) {
                Some(i) => Some(
                    ViewLevel::Workflows {
                        owner,
                        repo: self.workflows.repositories.data->Loaded_0.items@[i as int].name,
                    },
                ),
                None => None,
            },
            ViewLevel::Workflows { owner, repo } => match self.workflow_shown(owner@, repo@) {
                Some(i) => Some(
                    ViewLevel::Runs {
                        owner,
                        repo,
                        workflow_id: self.workflows.workflows.data->Loaded_0.items@[i as int].id,
                        workflow_name: self.workflows.workflows.data->Loaded_0.items@[i as int].name,
                    },
                ),
                None => None,
            },
            ViewLevel::Runs { owner, repo, workflow_id, .. } => if self.workflows.runs.data is Loaded
                && self.workflows.runs.selected is Some && self.workflows.runs.selected->Some_0
                < self.workflows.runs.data->Loaded_0.items@.len() {
                let run = self.workflows.runs.data->Loaded_0.items@[self.workflows.runs.selected->Some_0 as int];
                Some(ViewLevel::Jobs { owner, repo, workflow_id, run_id: run.id, run_number: run.run_number })
            } else {
                None
            },
            ViewLevel::Jobs { owner, repo, workflow_id, run_id, .. } => if entry_shown(
                self.workflows.job_list_items@,
                self.workflows.job_groups@,
                self.workflows.jobs.selected,
            ) {
                let job = entry_job(self.workflows.job_list_items@, self.workflows.job_groups@, self.workflows.jobs.selected);
                Some(
                    ViewLevel::Logs {
                        owner,
                        repo,
                        workflow_id,
                        run_id,
                        job_id: job.id,
                        job_name: job.name,
                        job_status: job.status,
                        job_conclusion: job.conclusion,
                    },
                )
            } else {
                None
            },
            ViewLevel::Logs { .. } => None,
        }
    }

    /// The level that Enter drills into on the workflows tab.
    pub fn workflows_next_level(&self) -> (r: Option<ViewLevel>)
        ensures
            r == self.workflows_next(),
    {
        match self.workflows.nav.current() {
            ViewLevel::Owners => {
                let i = match self.shown_owner() {
                    Some(i) => i,
                    None => return None,
                };
                match &self.workflows.owners.data {
                    LoadingState::Loaded(p) => Some(ViewLevel::Repositories { owner: p.items[i].login.clone() }),
                    _ => None,
                }
            },
            ViewLevel::Repositories { owner } => {
                let i = match self.shown_repository(owner.as_str()) {
                    Some(i) => i,
                    None => return None,
                };
                match &self.workflows.repositories.data {
                    LoadingState::Loaded(p) => Some(
                        ViewLevel::Workflows { owner: owner.clone(), repo: p.items[i].name.clone() },
                    ),
                    _ => None,
                }
            },
            ViewLevel::Workflows { owner, repo } => {
                let i = match self.shown_workflow(owner.as_str(), repo.as_str()) {
                    Some(i) => i,
                    None => return None,
                };
                match &self.workflows.workflows.data {
                    LoadingState::Loaded(p) => Some(
                        ViewLevel::Runs {
                            owner: owner.clone(),
                            repo: repo.clone(),
                            workflow_id: p.items[i].id,
                            workflow_name: p.items[i].name.clone(),
                        },
                    ),
                    _ => None,
                }
            },
            ViewLevel::Runs { owner, repo, workflow_id, .. } => match self.workflows.runs.selected_item() {
                Some(run) => Some(
                    ViewLevel::Jobs {
                        owner: owner.clone(),
                        repo: repo.clone(),
                        workflow_id: *workflow_id,
                        run_id: run.id,
                        run_number: run.run_number,
                    },
                ),
                None => None,
            },
            ViewLevel::Jobs { owner, repo, workflow_id, run_id, .. } => match job_entry(
                &self.workflows.job_list_items,
                &self.workflows.job_groups,
                self.workflows.jobs.selected,
            ) {
                Some(job) => Some(
                    ViewLevel::Logs {
                        owner: owner.clone(),
                        repo: repo.clone(),
                        workflow_id: *workflow_id,
                        run_id: *run_id,
                        job_id: job.id,
                        job_name: job.name.clone(),
                        job_status: job.status,
                        job_conclusion: job.conclusion,
                    },
                ),
                None => None,
            },
            ViewLevel::Logs { .. } => None,
        }
    }

    /// Enter on the workflows tab: drills into the item under the cursor and,
    /// entering a log, restores its saved position. Returns whether a level
    /// was entered (it then needs loading).
    pub fn handle_workflows_enter(&mut self) -> (r: bool)
        ensures
            r == old(self).workflows_next() is Some,
            r ==> final(self).workflows.nav@ == old(self).workflows.nav@.push(old(self).workflows_next()->Some_0),
            !r ==> final(self).workflows.nav@ == old(self).workflows.nav@,
            final(self).active_tab == old(self).active_tab,
            (r && old(self).active_tab == Tab::Workflows && old(self).workflows_next()->Some_0 is Logs) ==> match saved_state(
                old(self).log_view_states@,
                old(self).workflows_next()->Some_0->Logs_job_id,
            ) {
                Some(st) => final(self).workflows.log_selection_anchor == st.selection_anchor
                    && final(self).workflows.log_selection_cursor == st.selection_cursor
                    && final(self).workflows.log_scroll_y == st.scroll_y,
                None => true,
            },
    {
        match self.workflows_next_level() {
            Some(level) => {
                let job = match &level {
                    ViewLevel::Logs { job_id, .. } => Some(*job_id),
                    _ => None,
                };
                self.workflows.nav.push(level);
                match job {
                    Some(id) => self.restore_log_state(id),
                    None => {},
                }
                true
            },
            None => false,
        }
    }

    /// The level that Enter drills into on the runners tab.
    pub open spec fn runners_next(&self) -> Option<RunnersViewLevel> {
        match self.runners.nav@.last() {
            RunnersViewLevel::Repositories => match self.runner_repository_shown() {
                Some(i) => Some(
                    RunnersViewLevel::Runners {
                        owner: self.runners.repositories.data->Loaded_0.items@[i as int].owner.login,
                        repo: self.runners.repositories.data->Loaded_0.items@[i as int].name,
                    },
                ),
                None => None,
            },
            RunnersViewLevel::Runners { owner, repo } => match self.runner_shown(owner@, repo@) {
                Some(i) => Some(
                    RunnersViewLevel::Runs {
                        owner,
                        repo,
                        runner_name: Some(self.runners.runners.data->Loaded_0.items@[i as int].runner.name),
                    },
                ),
                None => None,
            },
            RunnersViewLevel::Runs { owner, repo, .. } => if self.runners.runs.data is Loaded
                && self.runners.runs.selected is Some && self.runners.runs.selected->Some_0
                < self.runners.runs.data->Loaded_0.items@.len() {
                let run = self.runners.runs.data->Loaded_0.items@[self.runners.runs.selected->Some_0 as int];
                Some(RunnersViewLevel::Jobs { owner, repo, run_id: run.id, run_number: run.run_number })
            } else {
                None
            },
            RunnersViewLevel::Jobs { owner, repo, run_id, .. } => if entry_shown(
                self.runners.job_list_items@,
                self.runners.job_groups@,
                self.runners.jobs.selected,
            ) {
                let job = entry_job(self.runners.job_list_items@, self.runners.job_groups@, self.runners.jobs.selected);
                Some(
                    RunnersViewLevel::Logs {
                        owner,
                        repo,
                        run_id,
                        job_id: job.id,
                        job_name: job.name,
                        job_status: job.status,
                        job_conclusion: job.conclusion,
                    },
                )
            } else {
                None
            },
            RunnersViewLevel::Logs { .. } => None,
        }
    }

    /// The level that Enter drills into on the runners tab.
    pub fn runners_next_level(&self) -> (r: Option<RunnersViewLevel>)
        ensures
            r == self.runners_next(),
    {
        match self.runners.nav.current() {
            RunnersViewLevel::Repositories => {
                let i = match self.shown_runner_repository() {
                    Some(i) => i,
                    None => return None,
                };
                match &self.runners.repositories.data {
                    LoadingState::Loaded(p) => Some(
                        RunnersViewLevel::Runners {
                            owner: p.items[i].owner.login.clone(),
                            repo: p.items[i].name.clone(),
                        },
                    ),
                    _ => None,
                }
            },
            RunnersViewLevel::Runners { owner, repo } => {
                let i = match self.shown_runner(owner.as_str(), repo.as_str()) {
                    Some(i) => i,
                    None => return None,
                };
                match &self.runners.runners.data {
                    LoadingState::Loaded(p) => Some(
                        RunnersViewLevel::Runs {
                            owner: owner.clone(),
                            repo: repo.clone(),
                            runner_name: Some(p.items[i].runner.name.clone()),
                        },
                    ),
                    _ => None,
                }
            },
            RunnersViewLevel::Runs { owner, repo, .. } => match self.runners.runs.selected_item() {
                Some(run) => Some(
                    RunnersViewLevel::Jobs {
                        owner: owner.clone(),
                        repo: repo.clone(),
                        run_id: run.id,
                        run_number: run.run_number,
                    },
                ),
                None => None,
            },
            RunnersViewLevel::Jobs { owner, repo, run_id, .. } => match job_entry(
                &self.runners.job_list_items,
                &self.runners.job_groups,
                self.runners.jobs.selected,
            ) {
                Some(job) => Some(
                    RunnersViewLevel::Logs {
                        owner: owner.clone(),
                        repo: repo.clone(),
                        run_id: *run_id,
                        job_id: job.id,
                        job_name: job.name.clone(),
                        job_status: job.status,
                        job_conclusion: job.conclusion,
                    },
                ),
                None => None,
            },
            RunnersViewLevel::Logs { .. } => None,
        }
    }

    /// Enter on the runners tab at `now`: leaving the runners list stops its
    /// refresh schedule; entering it starts one. Returns whether a level was
    /// entered.
    pub fn handle_runners_enter_at(&mut self, now: i64) -> (r: bool)
        ensures
            r == old(self).runners_next() is Some,
            r ==> final(self).runners.nav@ == old(self).runners.nav@.push(old(self).runners_next()->Some_0),
            !r ==> final(self).runners.nav@ == old(self).runners.nav@,
            final(self).active_tab == old(self).active_tab,
            (r && old(self).runners_next()->Some_0 is Runners) ==> final(self).runners.runners_next_refresh == Some(
                crate::runners::after_interval(now),
            ),
            !(old(self).runners.nav@.last() is Runners) && !(r && old(self).runners_next()->Some_0 is Runners)
                ==> final(self).runners.runners_next_refresh is None,
            (r && old(self).active_tab == Tab::Runners && old(self).runners_next()->Some_0 is Logs) ==> match saved_state(
                old(self).log_view_states@,
                old(self).runners_next()->Some_0->Logs_job_id,
            ) {
                Some(st) => final(self).runners.log_selection_anchor == st.selection_anchor
                    && final(self).runners.log_selection_cursor == st.selection_cursor
                    && final(self).runners.log_scroll_y == st.scroll_y,
                None => true,
            },
    {
        let next = self.runners_next_level();
        let at_runners = match self.runners.nav.current() {
            RunnersViewLevel::Runners { .. } => true,
            _ => false,
        };
        if !at_runners {
            self.runners.leave_runners_view();
        }
        match next {
            Some(level) => {
                let job = match &level {
                    RunnersViewLevel::Logs { job_id, .. } => Some(*job_id),
                    _ => None,
                };
                let entering_runners = match &level {
                    RunnersViewLevel::Runners { .. } => true,
                    _ => false,
                };
                self.runners.nav.push(level);
                if entering_runners {
                    self.runners.enter_runners_view_at(now);
                }
                match job {
                    Some(id) => self.restore_log_state(id),
                    None => {},
                }
                true
            },
            None => false,
        }
    }

    /// Toggles the favorite under the cursor, resolved through the same order
    /// as the display; only favorite sets change.
    pub fn toggle_favorite(&mut self)
        ensures
            final(self).workflows == old(self).workflows,
            final(self).runners == old(self).runners,
            final(self).active_tab == old(self).active_tab,
            old(self).active_tab == Tab::Workflows ==> old(self).workflows_favorites_toggled(*final(self)),
            old(self).active_tab == Tab::Runners ==> old(self).runners_favorites_toggled(*final(self)),
            !(old(self).active_tab == Tab::Workflows || old(self).active_tab == Tab::Runners) ==> (
            final(self).favorite_owners@ == old(self).favorite_owners@ && final(self).favorite_repos@
                == old(self).favorite_repos@ && final(self).favorite_workflows@ == old(self).favorite_workflows@
                && final(self).favorite_runners@ == old(self).favorite_runners@),
    {
        match self.active_tab {
            Tab::Workflows => self.toggle_workflows_favorite(),
            Tab::Runners => self.toggle_runners_favorite(),
            _ => {},
        }
    }

    /// `after` has the favorites of `self` with the workflows tab's item under
    /// the cursor toggled: its owner login, `owner/repo`, or
    /// `owner/repo/workflow_id`, in the set of its kind; all else is as it was.
    pub open spec fn workflows_favorites_toggled(&self, after: App) -> bool {
        let same_owners = after.favorite_owners@ == self.favorite_owners@;
        let same_repos = after.favorite_repos@ == self.favorite_repos@;
        let same_workflows = after.favorite_workflows@ == self.favorite_workflows@;
        &&& after.favorite_runners@ == self.favorite_runners@
        &&& match self.workflows.nav@.last() {
            ViewLevel::Owners => same_repos && same_workflows && match self.owner_shown() {
                Some(i) => after.favorite_owners@ == toggled(
                    self.favorite_owners@,
                    self.workflows.owners.data->Loaded_0.items@[i as int].login@,
                ),
                None => same_owners,
            },
            ViewLevel::Repositories { owner } => same_owners && same_workflows && match self.repository_shown(owner@) {
                Some(i) => after.favorite_repos@ == toggled(
                    self.favorite_repos@,
                    owner@ + "/"@ + self.workflows.repositories.data->Loaded_0.items@[i as int].name@,
                ),
                None => same_repos,
            },
            ViewLevel::Workflows { owner, repo } => same_owners && same_repos && match self.workflow_shown(owner@, repo@) {
                Some(i) => after.favorite_workflows@ == toggled(
                    self.favorite_workflows@,
                    owner@ + "/"@ + repo@ + "/"@ + crate::text::decimal(
                        self.workflows.workflows.data->Loaded_0.items@[i as int].id as nat,
                    ),
                ),
                None => same_workflows,
            },
            _ => same_owners && same_repos && same_workflows,
        }
    }

    /// `after` has the favorites of `self` with the runners tab's item under
    /// the cursor toggled: `owner/repo` for a repository, `owner/repo/name` for
    /// a runner; all else is as it was.
    pub open spec fn runners_favorites_toggled(&self, after: App) -> bool {
        let same_repos = after.favorite_repos@ == self.favorite_repos@;
        let same_runners = after.favorite_runners@ == self.favorite_runners@;
        &&& after.favorite_owners@ == self.favorite_owners@
        &&& after.favorite_workflows@ == self.favorite_workflows@
        &&& match self.runners.nav@.last() {
            RunnersViewLevel::Repositories => same_runners && match self.runner_repository_shown() {
                Some(i) => after.favorite_repos@ == toggled(
                    self.favorite_repos@,
                    self.runners.repositories.data->Loaded_0.items@[i as int].owner.login@ + "/"@
                        + self.runners.repositories.data->Loaded_0.items@[i as int].name@,
                ),
                None => same_repos,
            },
            RunnersViewLevel::Runners { owner, repo } => same_repos && match self.runner_shown(owner@, repo@) {
                Some(i) => after.favorite_runners@ == toggled(
                    self.favorite_runners@,
                    owner@ + "/"@ + repo@ + "/"@ + self.runners.runners.data->Loaded_0.items@[i as int].runner.name@,
                ),
                None => same_runners,
            },
            _ => same_repos && same_runners,
        }
    }

    /// Toggles the favorite under the cursor on the workflows tab.
    pub fn toggle_workflows_favorite(&mut self)
        ensures
            final(self).workflows == old(self).workflows,
            final(self).runners == old(self).runners,
            final(self).active_tab == old(self).active_tab,
            old(self).workflows_favorites_toggled(*final(self)),
    {
        match self.workflows.nav.current() {
            ViewLevel::Owners => {
                let i = match self.shown_owner() {
                    Some(i) => i,
                    None => return,
                };
                let key = match &self.workflows.owners.data {
                    LoadingState::Loaded(p) => p.items[i].login.clone(),
                    _ => return,
                };
                let _ = self.favorite_owners.toggle(key.as_str());
            },
            ViewLevel::Repositories { owner } => {
                let i = match self.shown_repository(owner.as_str()) {
                    Some(i) => i,
                    None => return,
                };
                let key = match &self.workflows.repositories.data {
                    LoadingState::Loaded(p) => repo_key(owner.as_str(), p.items[i].name.as_str()),
                    _ => return,
                };
                let _ = self.favorite_repos.toggle(key.as_str());
            },
            ViewLevel::Workflows { owner, repo } => {
                let i = match self.shown_workflow(owner.as_str(), repo.as_str()) {
                    Some(i) => i,
                    None => return,
                };
                let key = match &self.workflows.workflows.data {
                    LoadingState::Loaded(p) => workflow_key(owner.as_str(), repo.as_str(), p.items[i].id),
                    _ => return,
                };
                let _ = self.favorite_workflows.toggle(key.as_str());
            },
            _ => {},
        }
    }

    /// Toggles the favorite under the cursor on the runners tab.
    pub fn toggle_runners_favorite(&mut self)
        ensures
            final(self).workflows == old(self).workflows,
            final(self).runners == old(self).runners,
            final(self).active_tab == old(self).active_tab,
            old(self).runners_favorites_toggled(*final(self)),
    {
        match self.runners.nav.current() {
            RunnersViewLevel::Repositories => {
                let i = match self.shown_runner_repository() {
                    Some(i) => i,
                    None => return,
                };
                let key = match &self.runners.repositories.data {
                    LoadingState::Loaded(p) => repo_key(p.items[i].owner.login.as_str(), p.items[i].name.as_str()),
                    _ => return,
                };
                let _ = self.favorite_repos.toggle(key.as_str());
            },
            RunnersViewLevel::Runners { owner, repo } => {
                let i = match self.shown_runner(owner.as_str(), repo.as_str()) {
                    Some(i) => i,
                    None => return,
                };
                let key = match &self.runners.runners.data {
                    LoadingState::Loaded(p) => runner_key(owner.as_str(), repo.as_str(), p.items[i].runner.name.as_str()),
                    _ => return,
                };
                let _ = self.favorite_runners.toggle(key.as_str());
            },
            _ => {},
        }
    }
}


/// The saved position of a job's log, if any.
pub open spec fn saved_state(states: Seq<(u64, LogViewState)>, job_id: u64) -> Option<LogViewState>
    decreases states.len(),
{
    if states.len() == 0 {
        None
    } else if states[0].0 == job_id {
        Some(states[0].1)
    } else {
        saved_state(states.drop_first(), job_id)
    }
}

/// The saved position of a job's log.
pub fn find_log_state(states: &Vec<(u64, LogViewState)>, job_id: u64) -> (r: Option<LogViewState>)
    ensures
        r == saved_state(states@, job_id),
{
    let mut i: usize = 0;
    assert(states@.subrange(0, states@.len() as int) =~= states@);
    while i < states.len()
        invariant
            i <= states@.len(),
            saved_state(states@, job_id) == saved_state(states@.subrange(i as int, states@.len() as int), job_id),
        decreases states@.len() - i,
    {
        let ghost rest = states@.subrange(i as int, states@.len() as int);
        assert(rest.drop_first() =~= states@.subrange(i + 1, states@.len() as int));
        assert(rest[0] == states@[i as int]);
        if states[i].0 == job_id {
            return Some(states[i].1);
        }
        i = i + 1;
    }
    assert(states@.subrange(i as int, states@.len() as int) =~= Seq::<(u64, LogViewState)>::empty());
    None
}

/// Records a job's log position, replacing an earlier one.
pub fn store_log_state(states: &mut Vec<(u64, LogViewState)>, job_id: u64, state: LogViewState)
    ensures
        saved_state(final(states)@, job_id) == Some(state),
        forall|j: u64| j != job_id ==> saved_state(final(states)@, j) == saved_state(old(states)@, j),
{
    let ghost before = states@;
    states.insert(0, (job_id, state));
    proof {
        assert(states@.drop_first() =~= before);
    }
}

/// A `usize` line number held to the `u16` range of the viewer's scroll.
pub open spec fn clamp16(n: usize) -> u16 {
    if n > u16::MAX { u16::MAX } else { n as u16 }
}

fn to_u16(n: usize) -> (r: u16)
    ensures
        r == clamp16(n),
{
    if n > 65535 { 65535 } else { n as u16 }
}

/// Vertical scroll that keeps `cursor` inside a view of `VISIBLE_LINES` lines.
pub open spec fn follow_cursor(scroll_y: u16, cursor: u16) -> u16 {
    if cursor < scroll_y {
        cursor
    } else if cursor as int >= scroll_y as int + VISIBLE_LINES as int {
        (cursor - (VISIBLE_LINES - 1)) as u16
    } else {
        scroll_y
    }
}

fn follow(scroll_y: u16, cursor: u16) -> (r: u16)
    ensures
        r == follow_cursor(scroll_y, cursor),
{
    if cursor < scroll_y {
        cursor
    } else if cursor as u32 >= scroll_y as u32 + VISIBLE_LINES as u32 {
        cursor - (VISIBLE_LINES - 1)
    } else {
        scroll_y
    }
}

/// First seven characters of a commit id (all of a shorter one).
pub open spec fn short_sha(sha: Seq<char>) -> Seq<char> {
    if sha.len() > 7 { sha.subrange(0, 7) } else { sha }
}

impl App {
    /// Restores a job's saved log position on the active tab.
    pub fn restore_log_state(&mut self, job_id: u64)
        ensures
            final(self).workflows.nav@ == old(self).workflows.nav@,
            final(self).runners.nav@ == old(self).runners.nav@,
            final(self).runners.runners_next_refresh == old(self).runners.runners_next_refresh,
            final(self).active_tab == old(self).active_tab,
            match saved_state(old(self).log_view_states@, job_id) {
                Some(st) => match old(self).active_tab {
                    Tab::Workflows => final(self).workflows.log_selection_anchor == st.selection_anchor
                        && final(self).workflows.log_selection_cursor == st.selection_cursor
                        && final(self).workflows.log_scroll_y == st.scroll_y,
                    Tab::Runners => final(self).runners.log_selection_anchor == st.selection_anchor
                        && final(self).runners.log_selection_cursor == st.selection_cursor
                        && final(self).runners.log_scroll_y == st.scroll_y,
                    _ => true,
                },
                None => true,
            },
    {
        match find_log_state(&self.log_view_states, job_id) {
            Some(st) => match self.active_tab {
                Tab::Workflows => {
                    self.workflows.log_selection_anchor = st.selection_anchor;
                    self.workflows.log_selection_cursor = st.selection_cursor;
                    self.workflows.log_scroll_y = st.scroll_y;
                },
                Tab::Runners => {
                    self.runners.log_selection_anchor = st.selection_anchor;
                    self.runners.log_selection_cursor = st.selection_cursor;
                    self.runners.log_scroll_y = st.scroll_y;
                },
                _ => {},
            },
            None => {},
        }
    }

    /// Saves the log position of the active tab's open log, if one is open.
    pub fn save_current_log_state(&mut self)
        ensures
            final(self).workflows == old(self).workflows,
            final(self).runners == old(self).runners,
            final(self).analyze == old(self).analyze,
            final(self).active_tab == old(self).active_tab,
            (old(self).active_tab == Tab::Workflows && old(self).workflows.nav@.last() is Logs) ==> saved_state(
                final(self).log_view_states@,
                old(self).workflows.nav@.last()->Logs_job_id,
            ) == Some(
                LogViewState {
                    selection_anchor: old(self).workflows.log_selection_anchor,
                    selection_cursor: old(self).workflows.log_selection_cursor,
                    scroll_y: old(self).workflows.log_scroll_y,
                },
            ),
            (old(self).active_tab == Tab::Runners && old(self).runners.nav@.last() is Logs) ==> saved_state(
                final(self).log_view_states@,
                old(self).runners.nav@.last()->Logs_job_id,
            ) == Some(
                LogViewState {
                    selection_anchor: old(self).runners.log_selection_anchor,
                    selection_cursor: old(self).runners.log_selection_cursor,
                    scroll_y: old(self).runners.log_scroll_y,
                },
            ),
    {
        match self.active_tab {
            Tab::Workflows => {
                let job = match self.workflows.nav.current() {
                    ViewLevel::Logs { job_id, .. } => Some(*job_id),
                    _ => None,
                };
                match job {
                    Some(id) => {
                        let st = LogViewState {
                            selection_anchor: self.workflows.log_selection_anchor,
                            selection_cursor: self.workflows.log_selection_cursor,
                            scroll_y: self.workflows.log_scroll_y,
                        };
                        store_log_state(&mut self.log_view_states, id, st);
                    },
                    None => {},
                }
            },
            Tab::Runners => {
                let job = match self.runners.nav.current() {
                    RunnersViewLevel::Logs { job_id, .. } => Some(*job_id),
                    _ => None,
                };
                match job {
                    Some(id) => {
                        let st = LogViewState {
                            selection_anchor: self.runners.log_selection_anchor,
                            selection_cursor: self.runners.log_selection_cursor,
                            scroll_y: self.runners.log_scroll_y,
                        };
                        store_log_state(&mut self.log_view_states, id, st);
                    },
                    None => {},
                }
            },
            _ => {},
        }
    }

    /// Whether the active tab shows a log.
    pub open spec fn in_logs(&self) -> bool {
        (self.active_tab == Tab::Workflows && self.workflows.nav@.last() is Logs) || (self.active_tab == Tab::Runners
            && self.runners.nav@.last() is Logs)
    }

    fn viewing_logs(&self) -> (r: bool)
        ensures
            r == self.in_logs(),
    {
        match self.active_tab {
            Tab::Workflows => self.workflows.nav.current().is_logs(),
            Tab::Runners => self.runners.nav.current().is_logs(),
            _ => false,
        }
    }

    /// Keeps the active log's selection cursor in view.
    pub fn scroll_to_selection(&mut self)
        ensures
            final(self).workflows.log_selection_anchor == old(self).workflows.log_selection_anchor,
            final(self).workflows.log_selection_cursor == old(self).workflows.log_selection_cursor,
            final(self).runners.log_selection_anchor == old(self).runners.log_selection_anchor,
            final(self).runners.log_selection_cursor == old(self).runners.log_selection_cursor,
            old(self).active_tab != Tab::Workflows ==> final(self).workflows == old(self).workflows,
            old(self).active_tab != Tab::Runners ==> final(self).runners == old(self).runners,
            final(self).analyze == old(self).analyze,
            old(self).active_tab == Tab::Workflows ==> final(self).workflows.log_scroll_y == follow_cursor(
                old(self).workflows.log_scroll_y,
                clamp16(old(self).workflows.log_selection_cursor),
            ),
            old(self).active_tab == Tab::Runners ==> final(self).runners.log_scroll_y == follow_cursor(
                old(self).runners.log_scroll_y,
                clamp16(old(self).runners.log_selection_cursor),
            ),
            final(self).workflows.nav@ == old(self).workflows.nav@,
            final(self).runners.nav@ == old(self).runners.nav@,
            final(self).active_tab == old(self).active_tab,
    {
        match self.active_tab {
            Tab::Workflows => {
                let c = to_u16(self.workflows.log_selection_cursor);
                self.workflows.log_scroll_y = follow(self.workflows.log_scroll_y, c);
            },
            Tab::Runners => {
                let c = to_u16(self.runners.log_selection_cursor);
                self.runners.log_scroll_y = follow(self.runners.log_scroll_y, c);
            },
            _ => {},
        }
    }

    /// Up key (Shift extends the log selection).
    pub fn handle_up(&mut self, shift_held: bool)
        ensures
            (old(self).active_tab == Tab::Workflows && old(self).workflows.nav@.last() is Logs) ==> (final(self).workflows.log_selection_anchor,
                final(self).workflows.log_selection_cursor) == (if old(self).workflows.log_content is Loaded { crate::log::moved(old(self).workflows.log_selection_anchor, crate::log::up_cursor(old(self).workflows.log_selection_cursor), shift_held) } else { (old(self).workflows.log_selection_anchor, old(self).workflows.log_selection_cursor) }) && final(self).workflows.log_scroll_y == follow_cursor(
                old(self).workflows.log_scroll_y,
                clamp16(final(self).workflows.log_selection_cursor),
            ),
            (old(self).active_tab == Tab::Workflows && !(old(self).workflows.nav@.last() is Logs)) ==> old(self).workflows.lists_stepped(
                final(self).workflows,
                true,
            ) && final(self).workflows.log_scroll_y == old(self).workflows.log_scroll_y,
            (old(self).active_tab == Tab::Runners && old(self).runners.nav@.last() is Logs) ==> (final(self).runners.log_selection_anchor,
                final(self).runners.log_selection_cursor) == (if old(self).runners.log_content is Loaded { crate::log::moved(old(self).runners.log_selection_anchor, crate::log::up_cursor(old(self).runners.log_selection_cursor), shift_held) } else { (old(self).runners.log_selection_anchor, old(self).runners.log_selection_cursor) }) && final(self).runners.log_scroll_y == follow_cursor(
                old(self).runners.log_scroll_y,
                clamp16(final(self).runners.log_selection_cursor),
            ),
            (old(self).active_tab == Tab::Runners && !(old(self).runners.nav@.last() is Logs)) ==> old(self).runners.lists_stepped(
                final(self).runners,
                true,
            ) && final(self).runners.log_scroll_y == old(self).runners.log_scroll_y,
            (old(self).active_tab == Tab::Analyze && old(self).analyze.view is List && old(self).analyze.sessions@.len() > 0)
                ==> final(self).analyze.selected == Some(crate::lists::prev_index(old(self).analyze.selected)),
            (old(self).active_tab == Tab::Sync && old(self).sync.messages@.len() > 0) ==> final(self).sync.selected == Some(
                match old(self).sync.selected {
                    Some(i) => if i == 0 { 0 } else { (i - 1) as usize },
                    None => (old(self).sync.messages@.len() - 1) as usize,
                },
            ),
            final(self).active_tab == old(self).active_tab,
            final(self).workflows.nav@ == old(self).workflows.nav@,
            final(self).runners.nav@ == old(self).runners.nav@,
    {
        match self.active_tab {
            Tab::Workflows => {
                if self.workflows.nav.current().is_logs() {
                    self.workflows.selection_up(shift_held);
                    self.scroll_to_selection();
                } else {
                    self.workflows.select_prev();
                }
            },
            Tab::Runners => {
                if self.runners.nav.current().is_logs() {
                    self.runners.selection_up(shift_held);
                    self.scroll_to_selection();
                } else {
                    self.runners.select_prev();
                }
            },
            Tab::Analyze => {
                if self.analyze.is_list() {
                    self.analyze.select_prev();
                } else {
                    self.analyze.scroll_up();
                }
            },
            Tab::Sync => self.sync.select_prev(),
        }
    }

    /// Down key (Shift extends the log selection).
    pub fn handle_down(&mut self, shift_held: bool)
        ensures
            (old(self).active_tab == Tab::Workflows && old(self).workflows.nav@.last() is Logs) ==> (final(self).workflows.log_selection_anchor,
                final(self).workflows.log_selection_cursor) == (if old(self).workflows.log_content is Loaded { crate::log::moved(old(self).workflows.log_selection_anchor, crate::log::down_cursor(old(self).workflows.log_selection_cursor, crate::workflows::log_lines(old(self).workflows.log_content)), shift_held) } else { (old(self).workflows.log_selection_anchor, old(self).workflows.log_selection_cursor) }) && final(self).workflows.log_scroll_y == follow_cursor(
                old(self).workflows.log_scroll_y,
                clamp16(final(self).workflows.log_selection_cursor),
            ),
            (old(self).active_tab == Tab::Workflows && !(old(self).workflows.nav@.last() is Logs)) ==> old(self).workflows.lists_stepped(
                final(self).workflows,
                false,
            ) && final(self).workflows.log_scroll_y == old(self).workflows.log_scroll_y,
            (old(self).active_tab == Tab::Runners && old(self).runners.nav@.last() is Logs) ==> (final(self).runners.log_selection_anchor,
                final(self).runners.log_selection_cursor) == (if old(self).runners.log_content is Loaded { crate::log::moved(old(self).runners.log_selection_anchor, crate::log::down_cursor(old(self).runners.log_selection_cursor, crate::workflows::log_lines(old(self).runners.log_content)), shift_held) } else { (old(self).runners.log_selection_anchor, old(self).runners.log_selection_cursor) }) && final(self).runners.log_scroll_y == follow_cursor(
                old(self).runners.log_scroll_y,
                clamp16(final(self).runners.log_selection_cursor),
            ),
            (old(self).active_tab == Tab::Runners && !(old(self).runners.nav@.last() is Logs)) ==> old(self).runners.lists_stepped(
                final(self).runners,
                false,
            ) && final(self).runners.log_scroll_y == old(self).runners.log_scroll_y,
            (old(self).active_tab == Tab::Analyze && old(self).analyze.view is List && old(self).analyze.sessions@.len() > 0)
                ==> final(self).analyze.selected == Some(crate::lists::next_index(old(self).analyze.selected, old(self).analyze.sessions@.len())),
            (old(self).active_tab == Tab::Sync && old(self).sync.messages@.len() > 0) ==> final(self).sync.selected == Some(
                crate::lists::next_index(old(self).sync.selected, old(self).sync.messages@.len()),
            ),
            final(self).active_tab == old(self).active_tab,
            final(self).workflows.nav@ == old(self).workflows.nav@,
            final(self).runners.nav@ == old(self).runners.nav@,
    {
        match self.active_tab {
            Tab::Workflows => {
                if self.workflows.nav.current().is_logs() {
                    self.workflows.selection_down(shift_held);
                    self.scroll_to_selection();
                } else {
                    self.workflows.select_next();
                }
            },
            Tab::Runners => {
                if self.runners.nav.current().is_logs() {
                    self.runners.selection_down(shift_held);
                    self.scroll_to_selection();
                } else {
                    self.runners.select_next();
                }
            },
            Tab::Analyze => {
                if self.analyze.is_list() {
                    self.analyze.select_next();
                } else {
                    self.analyze.scroll_down();
                }
            },
            Tab::Sync => self.sync.select_next(),
        }
    }

    /// Left key: scrolls the active log left.
    pub fn handle_left(&mut self)
        ensures
            (old(self).active_tab == Tab::Workflows && old(self).workflows.nav@.last() is Logs) ==> final(self).workflows.log_scroll_x == (if old(self).workflows.log_scroll_x >= SCROLL_COLUMNS { (old(self).workflows.log_scroll_x - SCROLL_COLUMNS) as u16 } else { 0 }),
            (old(self).active_tab == Tab::Workflows && !(old(self).workflows.nav@.last() is Logs)) ==> final(self).workflows == old(self).workflows,
            (old(self).active_tab == Tab::Runners && old(self).runners.nav@.last() is Logs) ==> final(self).runners.log_scroll_x == (if old(self).runners.log_scroll_x >= SCROLL_COLUMNS { (old(self).runners.log_scroll_x - SCROLL_COLUMNS) as u16 } else { 0 }),
            (old(self).active_tab == Tab::Runners && !(old(self).runners.nav@.last() is Logs)) ==> final(self).runners == old(self).runners,
            final(self).active_tab == old(self).active_tab,
    {
        match self.active_tab {
            Tab::Workflows => self.workflows.scroll_left(),
            Tab::Runners => self.runners.scroll_left(),
            _ => {},
        }
    }

    /// Right key: scrolls the active log right.
    pub fn handle_right(&mut self)
        ensures
            (old(self).active_tab == Tab::Workflows && old(self).workflows.nav@.last() is Logs) ==> final(self).workflows.log_scroll_x == (if old(self).workflows.log_scroll_x as int + SCROLL_COLUMNS <= u16::MAX { (old(self).workflows.log_scroll_x + SCROLL_COLUMNS) as u16 } else { u16::MAX }),
            (old(self).active_tab == Tab::Workflows && !(old(self).workflows.nav@.last() is Logs)) ==> final(self).workflows == old(self).workflows,
            (old(self).active_tab == Tab::Runners && old(self).runners.nav@.last() is Logs) ==> final(self).runners.log_scroll_x == (if old(self).runners.log_scroll_x as int + SCROLL_COLUMNS <= u16::MAX { (old(self).runners.log_scroll_x + SCROLL_COLUMNS) as u16 } else { u16::MAX }),
            (old(self).active_tab == Tab::Runners && !(old(self).runners.nav@.last() is Logs)) ==> final(self).runners == old(self).runners,
            final(self).active_tab == old(self).active_tab,
    {
        match self.active_tab {
            Tab::Workflows => self.workflows.scroll_right(),
            Tab::Runners => self.runners.scroll_right(),
            _ => {},
        }
    }

    /// Page Up (Shift extends the log selection).
    pub fn handle_page_up(&mut self, shift_held: bool)
        ensures
            (old(self).active_tab == Tab::Workflows && old(self).workflows.nav@.last() is Logs) ==> (final(self).workflows.log_selection_anchor,
                final(self).workflows.log_selection_cursor) == (if old(self).workflows.log_content is Loaded { crate::log::moved(old(self).workflows.log_selection_anchor, if old(self).workflows.log_selection_cursor >= 20 { (old(self).workflows.log_selection_cursor - 20) as usize } else { 0usize }, shift_held) } else { (old(self).workflows.log_selection_anchor, old(self).workflows.log_selection_cursor) }) && final(self).workflows.log_scroll_y == follow_cursor(
                old(self).workflows.log_scroll_y,
                clamp16(final(self).workflows.log_selection_cursor),
            ),
            (old(self).active_tab == Tab::Workflows && !(old(self).workflows.nav@.last() is Logs)) ==> final(self).workflows == old(self).workflows,
            (old(self).active_tab == Tab::Runners && old(self).runners.nav@.last() is Logs) ==> (final(self).runners.log_selection_anchor,
                final(self).runners.log_selection_cursor) == (if old(self).runners.log_content is Loaded { crate::log::moved(old(self).runners.log_selection_anchor, if old(self).runners.log_selection_cursor >= 20 { (old(self).runners.log_selection_cursor - 20) as usize } else { 0usize }, shift_held) } else { (old(self).runners.log_selection_anchor, old(self).runners.log_selection_cursor) }) && final(self).runners.log_scroll_y == follow_cursor(
                old(self).runners.log_scroll_y,
                clamp16(final(self).runners.log_selection_cursor),
            ),
            (old(self).active_tab == Tab::Runners && !(old(self).runners.nav@.last() is Logs)) ==> final(self).runners == old(self).runners,
            final(self).active_tab == old(self).active_tab,
    {
        match self.active_tab {
            Tab::Workflows => {
                if self.workflows.nav.current().is_logs() {
                    self.workflows.selection_page_up(shift_held);
                    self.scroll_to_selection();
                } else {
                    self.workflows.page_up();
                }
            },
            Tab::Runners => {
                if self.runners.nav.current().is_logs() {
                    self.runners.selection_page_up(shift_held);
                    self.scroll_to_selection();
                } else {
                    self.runners.page_up();
                }
            },
            Tab::Analyze => self.analyze.page_up(),
            Tab::Sync => {},
        }
    }

    /// Page Down (Shift extends the log selection).
    pub fn handle_page_down(&mut self, shift_held: bool)
        ensures
            (old(self).active_tab == Tab::Workflows && old(self).workflows.nav@.last() is Logs) ==> (final(self).workflows.log_selection_anchor,
                final(self).workflows.log_selection_cursor) == (if old(self).workflows.log_content is Loaded { crate::log::moved(old(self).workflows.log_selection_anchor, if old(self).workflows.log_selection_cursor + 20 <= crate::log::last_line(crate::workflows::log_lines(old(self).workflows.log_content)) { (old(self).workflows.log_selection_cursor + 20) as usize } else { crate::log::last_line(crate::workflows::log_lines(old(self).workflows.log_content)) }, shift_held) } else { (old(self).workflows.log_selection_anchor, old(self).workflows.log_selection_cursor) }) && final(self).workflows.log_scroll_y == follow_cursor(
                old(self).workflows.log_scroll_y,
                clamp16(final(self).workflows.log_selection_cursor),
            ),
            (old(self).active_tab == Tab::Workflows && !(old(self).workflows.nav@.last() is Logs)) ==> final(self).workflows == old(self).workflows,
            (old(self).active_tab == Tab::Runners && old(self).runners.nav@.last() is Logs) ==> (final(self).runners.log_selection_anchor,
                final(self).runners.log_selection_cursor) == (if old(self).runners.log_content is Loaded { crate::log::moved(old(self).runners.log_selection_anchor, if old(self).runners.log_selection_cursor + 20 <= crate::log::last_line(crate::workflows::log_lines(old(self).runners.log_content)) { (old(self).runners.log_selection_cursor + 20) as usize } else { crate::log::last_line(crate::workflows::log_lines(old(self).runners.log_content)) }, shift_held) } else { (old(self).runners.log_selection_anchor, old(self).runners.log_selection_cursor) }) && final(self).runners.log_scroll_y == follow_cursor(
                old(self).runners.log_scroll_y,
                clamp16(final(self).runners.log_selection_cursor),
            ),
            (old(self).active_tab == Tab::Runners && !(old(self).runners.nav@.last() is Logs)) ==> final(self).runners == old(self).runners,
            final(self).active_tab == old(self).active_tab,
    {
        match self.active_tab {
            Tab::Workflows => {
                if self.workflows.nav.current().is_logs() {
                    self.workflows.selection_page_down(shift_held);
                    self.scroll_to_selection();
                } else {
                    self.workflows.page_down();
                }
            },
            Tab::Runners => {
                if self.runners.nav.current().is_logs() {
                    self.runners.selection_page_down(shift_held);
                    self.scroll_to_selection();
                } else {
                    self.runners.page_down();
                }
            },
            Tab::Analyze => self.analyze.page_down(),
            Tab::Sync => {},
        }
    }

    /// Home (Shift extends the log selection).
    pub fn handle_home(&mut self, shift_held: bool)
        ensures
            (old(self).active_tab == Tab::Workflows && old(self).workflows.nav@.last() is Logs) ==> (final(self).workflows.log_selection_anchor,
                final(self).workflows.log_selection_cursor) == (crate::log::moved(old(self).workflows.log_selection_anchor, 0usize, shift_held)) && final(self).workflows.log_scroll_y == follow_cursor(
                old(self).workflows.log_scroll_y,
                clamp16(final(self).workflows.log_selection_cursor),
            ),
            (old(self).active_tab == Tab::Workflows && !(old(self).workflows.nav@.last() is Logs)) ==> final(self).workflows == old(self).workflows,
            (old(self).active_tab == Tab::Runners && old(self).runners.nav@.last() is Logs) ==> (final(self).runners.log_selection_anchor,
                final(self).runners.log_selection_cursor) == (crate::log::moved(old(self).runners.log_selection_anchor, 0usize, shift_held)) && final(self).runners.log_scroll_y == follow_cursor(
                old(self).runners.log_scroll_y,
                clamp16(final(self).runners.log_selection_cursor),
            ),
            (old(self).active_tab == Tab::Runners && !(old(self).runners.nav@.last() is Logs)) ==> final(self).runners == old(self).runners,
            final(self).active_tab == old(self).active_tab,
    {
        match self.active_tab {
            Tab::Workflows => {
                if self.workflows.nav.current().is_logs() {
                    self.workflows.selection_to_start(shift_held);
                    self.scroll_to_selection();
                } else {
                    self.workflows.scroll_to_start();
                }
            },
            Tab::Runners => {
                if self.runners.nav.current().is_logs() {
                    self.runners.selection_to_start(shift_held);
                    self.scroll_to_selection();
                } else {
                    self.runners.scroll_to_start();
                }
            },
            _ => {},
        }
    }

    /// End (Shift extends the log selection).
    pub fn handle_end(&mut self, shift_held: bool)
        ensures
            (old(self).active_tab == Tab::Workflows && old(self).workflows.nav@.last() is Logs) ==> (final(self).workflows.log_selection_anchor,
                final(self).workflows.log_selection_cursor) == (if old(self).workflows.log_content is Loaded { crate::log::moved(old(self).workflows.log_selection_anchor, crate::log::last_line(crate::workflows::log_lines(old(self).workflows.log_content)), shift_held) } else { (old(self).workflows.log_selection_anchor, old(self).workflows.log_selection_cursor) }) && final(self).workflows.log_scroll_y == follow_cursor(
                old(self).workflows.log_scroll_y,
                clamp16(final(self).workflows.log_selection_cursor),
            ),
            (old(self).active_tab == Tab::Workflows && !(old(self).workflows.nav@.last() is Logs)) ==> final(self).workflows == old(self).workflows,
            (old(self).active_tab == Tab::Runners && old(self).runners.nav@.last() is Logs) ==> (final(self).runners.log_selection_anchor,
                final(self).runners.log_selection_cursor) == (if old(self).runners.log_content is Loaded { crate::log::moved(old(self).runners.log_selection_anchor, crate::log::last_line(crate::workflows::log_lines(old(self).runners.log_content)), shift_held) } else { (old(self).runners.log_selection_anchor, old(self).runners.log_selection_cursor) }) && final(self).runners.log_scroll_y == follow_cursor(
                old(self).runners.log_scroll_y,
                clamp16(final(self).runners.log_selection_cursor),
            ),
            (old(self).active_tab == Tab::Runners && !(old(self).runners.nav@.last() is Logs)) ==> final(self).runners == old(self).runners,
            final(self).active_tab == old(self).active_tab,
    {
        match self.active_tab {
            Tab::Workflows => {
                if self.workflows.nav.current().is_logs() {
                    self.workflows.selection_to_end(shift_held);
                    self.scroll_to_selection();
                } else {
                    self.workflows.scroll_to_end();
                }
            },
            Tab::Runners => {
                if self.runners.nav.current().is_logs() {
                    self.runners.selection_to_end(shift_held);
                    self.scroll_to_selection();
                } else {
                    self.runners.scroll_to_end();
                }
            },
            _ => {},
        }
    }

    /// `/`: opens the search prompt when a log is shown.
    pub fn handle_search_start(&mut self)
        ensures
            old(self).in_logs() ==> final(self).search_active && final(self).search_query@.len() == 0
                && final(self).search_matches@.len() == 0 && final(self).search_match_index == 0,
            !old(self).in_logs() ==> final(self).search_active == old(self).search_active,
    {
        if self.viewing_logs() {
            self.search_active = true;
            self.search_query = String::new();
            self.search_matches = Vec::new();
            self.search_match_index = 0;
        }
    }

    /// The active tab's loaded log text.
    pub open spec fn shown_log(&self) -> Option<String> {
        if self.active_tab == Tab::Workflows && self.workflows.log_content is Loaded {
            Some(self.workflows.log_content->Loaded_0)
        } else if self.active_tab == Tab::Runners && self.runners.log_content is Loaded {
            Some(self.runners.log_content->Loaded_0)
        } else {
            None
        }
    }

    /// The active tab's loaded log text.
    pub fn active_log(&self) -> (r: Option<&String>)
        ensures
            r matches Some(t) ==> self.shown_log() == Some(*t),
            r is None ==> self.shown_log() is None,
            self.active_tab == Tab::Workflows && self.workflows.log_content is Loaded ==> r == Some(
                &self.workflows.log_content->Loaded_0,
            ),
            self.active_tab == Tab::Runners && self.runners.log_content is Loaded ==> r == Some(
                &self.runners.log_content->Loaded_0,
            ),
            !(self.active_tab == Tab::Workflows && self.workflows.log_content is Loaded) && !(self.active_tab
                == Tab::Runners && self.runners.log_content is Loaded) ==> r is None,
    {
        match self.active_tab {
            Tab::Workflows => self.workflows.log_content.data(),
            Tab::Runners => self.runners.log_content.data(),
            _ => None,
        }
    }

    /// Runs the search: the 0-indexed lines of the active log that contain the
    /// query, ignoring case, and a jump to the first of them.
    pub fn execute_search(&mut self)
        ensures
            (old(self).search_query@.len() > 0 && old(self).shown_log() is Some && final(self).search_matches@.len() > 0
                && old(self).active_tab == Tab::Workflows) ==> final(self).workflows.log_scroll_y == clamp16(final(self).search_matches@[0]),
            (old(self).search_query@.len() > 0 && old(self).shown_log() is Some && final(self).search_matches@.len() > 0
                && old(self).active_tab == Tab::Runners) ==> final(self).runners.log_scroll_y == clamp16(final(self).search_matches@[0]),
            old(self).search_query@.len() == 0 ==> final(self).search_matches@.len() == 0,
            old(self).search_query@.len() > 0 ==> match old(self).shown_log() {
                Some(t) => final(self).search_matches@ == match_indices(
                    lowered_lines(t@),
                    lower_of(old(self).search_query@),
                    lines_of(t@).len() as int,
                ) && (final(self).search_matches@.len() > 0 ==> final(self).search_match_index == 0),
                None => final(self).search_matches@ == old(self).search_matches@,
            },
            final(self).active_tab == old(self).active_tab,
            final(self).workflows.nav@ == old(self).workflows.nav@,
            final(self).runners.nav@ == old(self).runners.nav@,
    {
        if self.search_query.as_str().unicode_len() == 0 {
            self.search_matches = Vec::new();
            return;
        }
        let matches = match self.active_log() {
            Some(t) => search_lines(t.as_str(), self.search_query.as_str()),
            None => return,
        };
        self.search_matches = matches;
        if self.search_matches.len() > 0 {
            self.search_match_index = 0;
            self.scroll_to_match();
        }
    }

    /// Jumps to the next match, from the last back to the first.
    pub fn search_next(&mut self)
        ensures
            (old(self).search_matches@.len() > 0 && old(self).active_tab == Tab::Workflows) ==> final(self).workflows.log_scroll_y
                == clamp16(final(self).search_matches@[final(self).search_match_index as int]),
            (old(self).search_matches@.len() > 0 && old(self).active_tab == Tab::Runners) ==> final(self).runners.log_scroll_y
                == clamp16(final(self).search_matches@[final(self).search_match_index as int]),
            final(self).search_matches@ == old(self).search_matches@,
            old(self).search_matches@.len() > 0 ==> final(self).search_match_index as int == (old(self).search_match_index
                + 1) as int % old(self).search_matches@.len() as int,
            old(self).search_matches@.len() == 0 ==> final(self).search_match_index == old(self).search_match_index,
    {
        if self.search_matches.len() == 0 {
            return;
        }
        let n = self.search_matches.len();
        self.search_match_index = if self.search_match_index >= n - 1 {
            if self.search_match_index == n - 1 { 0 } else { (self.search_match_index - (n - 1)) % n }
        } else {
            self.search_match_index + 1
        };
        proof {
            let i = old(self).search_match_index as int;
            let m = n as int;
            if i > m - 1 {
                assert((i - (m - 1)) % m == (i + 1) % m) by (nonlinear_arith)
                    requires m > 0, i > m - 1 {
                    assert(i + 1 == (i - (m - 1)) + m);
                    vstd::arithmetic::div_mod::lemma_mod_add_multiples_vanish(i - (m - 1), m);
                }
            } else if i == m - 1 {
                assert((i + 1) % m == 0) by (nonlinear_arith) requires i == m - 1, m > 0 {}
            } else {
                assert((i + 1) % m == i + 1) by (nonlinear_arith) requires 0 <= i, i + 1 < m {}
            }
        }
        self.scroll_to_match();
    }

    /// Jumps to the previous match, from the first back to the last.
    pub fn search_prev(&mut self)
        ensures
            (old(self).search_match_index < old(self).search_matches@.len() && old(self).active_tab == Tab::Workflows) ==> final(self).workflows.log_scroll_y
                == clamp16(final(self).search_matches@[final(self).search_match_index as int]),
            (old(self).search_match_index < old(self).search_matches@.len() && old(self).active_tab == Tab::Runners) ==> final(self).runners.log_scroll_y
                == clamp16(final(self).search_matches@[final(self).search_match_index as int]),
            final(self).search_matches@ == old(self).search_matches@,
            old(self).search_matches@.len() > 0 ==> final(self).search_match_index == if old(self).search_match_index
                == 0 {
                (old(self).search_matches@.len() - 1) as usize
            } else {
                (old(self).search_match_index - 1) as usize
            },
    {
        if self.search_matches.len() == 0 {
            return;
        }
        if self.search_match_index == 0 {
            self.search_match_index = self.search_matches.len() - 1;
        } else {
            self.search_match_index = self.search_match_index - 1;
        }
        self.scroll_to_match();
    }

    /// Scrolls the active log so that the current match is the first line shown.
    pub fn scroll_to_match(&mut self)
        ensures
            final(self).search_matches@ == old(self).search_matches@,
            final(self).search_match_index == old(self).search_match_index,
            old(self).search_match_index < old(self).search_matches@.len() && old(self).active_tab == Tab::Workflows
                ==> final(self).workflows.log_scroll_y == clamp16(old(self).search_matches@[old(self).search_match_index as int]),
            old(self).search_match_index < old(self).search_matches@.len() && old(self).active_tab == Tab::Runners
                ==> final(self).runners.log_scroll_y == clamp16(old(self).search_matches@[old(self).search_match_index as int]),
            final(self).active_tab == old(self).active_tab,
            final(self).workflows.nav@ == old(self).workflows.nav@,
            final(self).runners.nav@ == old(self).runners.nav@,
    {
        if self.search_match_index < self.search_matches.len() {
            let line = to_u16(self.search_matches[self.search_match_index]);
            match self.active_tab {
                Tab::Workflows => self.workflows.log_scroll_y = line,
                Tab::Runners => self.runners.log_scroll_y = line,
                _ => {},
            }
        }
    }

    /// Escape: saves the open log's position and goes back one level on the
    /// active tab, or leaves the detail view. Returns whether the new level
    /// needs loading.
    pub fn handle_escape(&mut self) -> (r: bool)
        ensures
            (old(self).active_tab == Tab::Workflows && r) ==> old(self).workflows.back_cleared(final(self).workflows),
            (old(self).active_tab == Tab::Runners && r) ==> old(self).runners.back_cleared(final(self).runners),
            old(self).active_tab == Tab::Workflows ==> (final(self).workflows.nav@, r) == crate::navigation::popped(
                old(self).workflows.nav@,
            ),
            old(self).active_tab == Tab::Runners ==> (final(self).runners.nav@, r) == crate::navigation::popped(
                old(self).runners.nav@,
            ),
            old(self).active_tab == Tab::Analyze ==> final(self).analyze.view == AnalyzeViewLevel::List && !r,
            old(self).active_tab == Tab::Sync ==> !r,
            (old(self).active_tab == Tab::Runners && r && !(final(self).runners.nav@.last() is Runners))
                ==> final(self).runners.runners_next_refresh is None,
    {
        self.save_current_log_state();
        match self.active_tab {
            Tab::Workflows => self.workflows.go_back(),
            Tab::Runners => {
                let popped = self.runners.go_back();
                if popped {
                    let at_runners = match self.runners.nav.current() {
                        RunnersViewLevel::Runners { .. } => true,
                        _ => false,
                    };
                    if !at_runners {
                        self.runners.leave_runners_view();
                    }
                }
                popped
            },
            Tab::Analyze => {
                self.analyze.exit_detail();
                false
            },
            Tab::Sync => false,
        }
    }

    /// After switching tabs: leaving the runners tab stops its refresh schedule.
    pub fn on_tab_change(&mut self)
        ensures
            old(self).active_tab != Tab::Runners ==> final(self).runners.runners_next_refresh is None
                && final(self).runners.runners_view_entered_at is None,
            final(self).active_tab == old(self).active_tab,
    {
        if self.active_tab != Tab::Runners {
            self.runners.leave_runners_view();
        }
    }

    /// Switches sync on or off and logs it.
    pub fn toggle_sync(&mut self) -> (r: bool)
        ensures
            r ==> final(self).sync.status == crate::sync::SyncStatus::Running && final(self).sync.error_tracker@.len() == 0,
            !r ==> final(self).sync.status == (crate::sync::SyncStatus::Paused {
                reason: crate::sync::PauseReason::UserDisabled,
            }),
            r == !old(self).sync.enabled,
            final(self).sync.enabled == r,
            final(self).sync.messages@.len() == old(self).sync.messages@.len() + 1,
    {
        let enabled = self.sync.toggle();
        if enabled {
            self.sync.log_info(String::from_str("Sync enabled"));
        } else {
            self.sync.log_info(String::from_str("Sync disabled"));
        }
        enabled
    }
}


/// Whether `k` is the first session with identifier `id`.
pub open spec fn first_with_id(sessions: Seq<crate::analyze::AnalysisSession>, id: Seq<char>, k: int) -> bool {
    0 <= k < sessions.len() && sessions[k].id@ == id && forall|j: int| 0 <= j < k ==> (#[trigger] sessions[j]).id@ != id
}

/// `app` shows the log that session `s` was saved from: the source tab is
/// active, its stack leads down to that log (root first), and the log is to
/// be loaded with the session's selection and scroll.
pub open spec fn source_opened(s: crate::analyze::AnalysisSession, app: App) -> bool {
    let c = s.nav_context;
    match c.source_tab {
        SourceTab::Workflows => {
            let w = match c.workflow_id { Some(x) => x, None => 0 };
            &&& app.active_tab == Tab::Workflows
            &&& app.workflows.nav@.len() == 6
            &&& app.workflows.nav@.last() == (ViewLevel::Logs {
                owner: c.owner,
                repo: c.repo,
                workflow_id: w,
                run_id: c.run_id,
                job_id: c.job_id,
                job_name: c.job_name,
                job_status: c.job_status,
                job_conclusion: c.job_conclusion,
            })
            &&& app.workflows.log_content is Idle
            &&& app.workflows.log_selection_anchor == c.selection_anchor
            &&& app.workflows.log_selection_cursor == c.selection_cursor
            &&& app.workflows.log_scroll_y == clamp16(c.scroll_to_line)
            &&& app.workflows.log_scroll_x == 0
        },
        SourceTab::Runners => {
            &&& app.active_tab == Tab::Runners
            &&& app.runners.nav@.len() == 5
            &&& app.runners.nav@.last() == (RunnersViewLevel::Logs {
                owner: c.owner,
                repo: c.repo,
                run_id: c.run_id,
                job_id: c.job_id,
                job_name: c.job_name,
                job_status: c.job_status,
                job_conclusion: c.job_conclusion,
            })
            &&& app.runners.log_content is Idle
            &&& app.runners.log_selection_anchor == c.selection_anchor
            &&& app.runners.log_selection_cursor == c.selection_cursor
            &&& app.runners.log_scroll_y == clamp16(c.scroll_to_line)
            &&& app.runners.log_scroll_x == 0
        },
    }
}

/// `after` is `before` with one new session in front, saved from lines
/// `start..=end` of `text` with the given source and selection.
pub open spec fn new_session_added(
    before: Seq<crate::analyze::AnalysisSession>,
    after: Seq<crate::analyze::AnalysisSession>,
    text: Seq<char>,
    owner: Seq<char>,
    repo: Seq<char>,
    run_id: u64,
    job_id: u64,
    anchor: usize,
    cursor: usize,
    start: usize,
    end: usize,
) -> bool {
    &&& after.len() == before.len() + 1
    &&& after.drop_first() == before
    &&& after[0].nav_context.owner@ == owner && after[0].nav_context.repo@ == repo
    &&& after[0].nav_context.run_id == run_id && after[0].nav_context.job_id == job_id
    &&& after[0].nav_context.selection_anchor == anchor && after[0].nav_context.selection_cursor == cursor
    &&& after[0].nav_context.scroll_to_line == start
    &&& after[0].excerpt_start_line == start && after[0].excerpt_end_line == end
    &&& after[0].log_excerpt@ == crate::log::excerpt_of(lines_of(text), start as int, end as int)
    &&& after[0].total_log_lines == lines_of(text).len()
}

/// Run number and workflow name recorded on the workflows stack (the last
/// jobs level's run number, else 0; the last runs level's workflow name).
pub fn workflows_run_context(nav: &crate::navigation::NavigationStack) -> (r: (u64, Option<String>))
    ensures
        r.0 == 0 || exists|i: int| 0 <= i < nav@.len() && nav@[i] is Jobs && nav@[i]->Jobs_run_number == r.0,
        r.1 matches Some(w) ==> exists|i: int| 0 <= i < nav@.len() && nav@[i] is Runs && nav@[i]->Runs_workflow_name == w,
{
    let n = nav.depth();
    let mut run_number: u64 = 0;
    let mut workflow_name: Option<String> = None;
    let mut i: usize = 0;
    while i < n
        invariant
            n <= nav@.len(),
            i <= n,
            run_number == 0 || exists|k: int| 0 <= k < nav@.len() && nav@[k] is Jobs && nav@[k]->Jobs_run_number == run_number,
            workflow_name matches Some(w) ==> exists|k: int| 0 <= k < nav@.len() && nav@[k] is Runs && nav@[k]->Runs_workflow_name == w,
        decreases n - i,
    {
        match nav.level_at(i) {
            ViewLevel::Runs { workflow_name: wn, .. } => workflow_name = Some(wn.clone()),
            ViewLevel::Jobs { run_number: rn, .. } => run_number = *rn,
            _ => {},
        }
        i = i + 1;
    }
    (run_number, workflow_name)
}

/// Run number recorded on the runners stack (0 when there is none).
pub fn runners_run_number(nav: &crate::runners::RunnersNavStack) -> (r: u64)
    ensures
        r == 0 || exists|i: int| 0 <= i < nav@.len() && nav@[i] is Jobs && nav@[i]->Jobs_run_number == r,
{
    let n = nav.depth();
    let mut i: usize = 0;
    while i < n
        invariant
            n <= nav@.len(),
            i <= n,
        decreases n - i,
    {
        match nav.level_at(i) {
            RunnersViewLevel::Jobs { run_number, .. } => return *run_number,
            _ => {},
        }
        i = i + 1;
    }
    0
}

fn first_chars(s: &str, k: usize) -> (r: String)
    ensures
        r@ == if s@.len() > k { s@.subrange(0, k as int) } else { s@ },
        k == 7 ==> r@ == short_sha(s@),
{
    let n = s.unicode_len();
    if n > k {
        String::from_str(s.substring_char(0, k))
    } else {
        String::from_str(s)
    }
}

/// Index of the first item with the given id (runs).
pub open spec fn first_run(items: Seq<crate::types::WorkflowRun>, id: u64, k: int) -> bool {
    0 <= k < items.len() && items[k].id == id && forall|j: int| 0 <= j < k ==> (#[trigger] items[j]).id != id
}

/// Index of the first item with the given id (jobs).
pub open spec fn first_job(items: Seq<crate::types::Job>, id: u64, k: int) -> bool {
    0 <= k < items.len() && items[k].id == id && forall|j: int| 0 <= j < k ==> (#[trigger] items[j]).id != id
}

/// Run metadata from a loaded runs list and jobs list: pull request, branch
/// and short commit of the run (`unknown` when the run is not loaded), and the
/// runner of the job.
pub fn run_metadata(
    runs: &LoadingState<crate::lists::PaginatedList<crate::types::WorkflowRun>>,
    jobs: &LoadingState<crate::lists::PaginatedList<crate::types::Job>>,
    run_id: u64,
    job_id: u64,
) -> (r: RunMetadata)
    ensures
        r.author is None,
        r.runner_labels@.len() == 0,
        ((*runs) is Loaded && exists|k: int| first_run((*runs)->Loaded_0.items@, run_id, k)) ==> {
            let k = choose|k: int| first_run((*runs)->Loaded_0.items@, run_id, k);
            let run = (*runs)->Loaded_0.items@[k];
            &&& r.pr_number == if run.pull_requests@.len() > 0 { Some(run.pull_requests@[0].number) } else { None }
            &&& r.branch_name == run.head_branch
            &&& r.commit_sha@ == short_sha(run.head_sha@)
        },
        !((*runs) is Loaded && exists|k: int| first_run((*runs)->Loaded_0.items@, run_id, k)) ==> r.pr_number is None
            && r.branch_name is None && r.commit_sha@ == "unknown"@,
        ((*jobs) is Loaded && exists|k: int| first_job((*jobs)->Loaded_0.items@, job_id, k)) ==> r.runner_name
            == (*jobs)->Loaded_0.items@[choose|k: int| first_job((*jobs)->Loaded_0.items@, job_id, k)].runner_name,
        !((*jobs) is Loaded && exists|k: int| first_job((*jobs)->Loaded_0.items@, job_id, k)) ==> r.runner_name is None,
{
    let mut pr_number: Option<u64> = None;
    let mut branch_name: Option<String> = None;
    let mut commit_sha = String::from_str("unknown");
    match runs {
        LoadingState::Loaded(p) => {
            let mut i: usize = 0;
            while i < p.items.len()
                invariant
                    i <= p.items@.len(),
                    (*runs) is Loaded && *p == (*runs)->Loaded_0,
                    forall|j: int| 0 <= j < i ==> (#[trigger] p.items@[j]).id != run_id,
                    pr_number is None && branch_name is None && commit_sha@ == "unknown"@,
                decreases p.items@.len() - i,
            {
                if p.items[i].id == run_id {
                    let run = &p.items[i];
                    proof {
                        assert(first_run(p.items@, run_id, i as int));
                        assert forall|k: int| first_run(p.items@, run_id, k) implies k == i by {
                            if k < i {
                            } else if k > i {
                                assert(p.items@[i as int].id != run_id);
                            }
                        }
                        let c = choose|k: int| first_run(p.items@, run_id, k);
                        assert(c == i);
                        assert(p.items@ == (*runs)->Loaded_0.items@);
                    }
                    let pr = if run.pull_requests.len() > 0 { Some(run.pull_requests[0].number) } else { None };
                    let branch = match &run.head_branch {
                        Some(b) => Some(b.clone()),
                        None => None,
                    };
                    let sha = first_chars(run.head_sha.as_str(), 7);
                    let runner_name = job_runner(jobs, job_id);
                    return RunMetadata { pr_number: pr, branch_name: branch, commit_sha: sha, author: None, runner_name, runner_labels: Vec::new() };
                }
                i = i + 1;
            }
        },
        _ => {},
    }
    let runner_name = job_runner(jobs, job_id);
    RunMetadata { pr_number, branch_name, commit_sha, author: None, runner_name, runner_labels: Vec::new() }
}

/// The runner of the first loaded job with the given id.
fn job_runner(jobs: &LoadingState<crate::lists::PaginatedList<crate::types::Job>>, job_id: u64) -> (r: Option<String>)
    ensures
        ((*jobs) is Loaded && exists|k: int| first_job((*jobs)->Loaded_0.items@, job_id, k)) ==> r
            == (*jobs)->Loaded_0.items@[choose|k: int| first_job((*jobs)->Loaded_0.items@, job_id, k)].runner_name,
        !((*jobs) is Loaded && exists|k: int| first_job((*jobs)->Loaded_0.items@, job_id, k)) ==> r is None,
{
    match jobs {
        LoadingState::Loaded(p) => {
            let mut i: usize = 0;
            while i < p.items.len()
                invariant
                    i <= p.items@.len(),
                    (*jobs) is Loaded && *p == (*jobs)->Loaded_0,
                    forall|j: int| 0 <= j < i ==> (#[trigger] p.items@[j]).id != job_id,
                decreases p.items@.len() - i,
            {
                if p.items[i].id == job_id {
                    proof {
                        assert(first_job(p.items@, job_id, i as int));
                        assert forall|k: int| first_job(p.items@, job_id, k) implies k == i by {
                            if k > i {
                                assert(p.items@[i as int].id != job_id);
                            }
                        }
                        let c = choose|k: int| first_job(p.items@, job_id, k);
                        assert(c == i);
                        assert(p.items@ == (*jobs)->Loaded_0.items@);
                    }
                    return match &p.items[i].runner_name {
                        Some(n) => Some(n.clone()),
                        None => None,
                    };
                }
                i = i + 1;
            }
            None
        },
        _ => None,
    }
}

/// The address of a job's log on the provider's site.
pub fn job_url(owner: &str, repo: &str, run_id: u64, job_id: u64) -> (r: String)
    ensures
        r@ == "https://github.com/"@ + owner@ + "/"@ + repo@ + "/actions/runs/"@ + crate::text::decimal(run_id as nat)
            + "/job/"@ + crate::text::decimal(job_id as nat),
{
    let mut s = concat_str("https://github.com/", owner);
    s.append("/");
    s.append(repo);
    s.append("/actions/runs/");
    crate::text::push_decimal(&mut s, run_id);
    s.append("/job/");
    crate::text::push_decimal(&mut s, job_id);
    s
}

/// The address of a run on the provider's site.
pub fn run_url(owner: &str, repo: &str, run_id: u64) -> (r: String)
    ensures
        r@ == "https://github.com/"@ + owner@ + "/"@ + repo@ + "/actions/runs/"@ + crate::text::decimal(run_id as nat),
{
    let mut s = concat_str("https://github.com/", owner);
    s.append("/");
    s.append(repo);
    s.append("/actions/runs/");
    crate::text::push_decimal(&mut s, run_id);
    s
}

/// The address of an owner or, with a name, of a repository.
pub fn repo_url(owner: &str, repo: Option<&str>) -> (r: String)
    ensures
        repo is None ==> r@ == "https://github.com/"@ + owner@,
        repo matches Some(n) ==> r@ == "https://github.com/"@ + owner@ + "/"@ + n@,
{
    let mut s = concat_str("https://github.com/", owner);
    match repo {
        Some(n) => {
            s.append("/");
            s.append(n);
        },
        None => {},
    }
    s
}

impl App {
    /// The provider address of what the workflows tab shows under the cursor.
    pub open spec fn workflows_url(&self) -> Option<Seq<char>> {
        let base = "https://github.com/"@;
        match self.workflows.nav@.last() {
            ViewLevel::Owners => match self.owner_shown() {
                Some(i) => Some(base + self.workflows.owners.data->Loaded_0.items@[i as int].login@),
                None => None,
            },
            ViewLevel::Repositories { owner } => match self.repository_shown(owner@) {
                Some(i) => Some(base + owner@ + "/"@ + self.workflows.repositories.data->Loaded_0.items@[i as int].name@),
                None => None,
            },
            ViewLevel::Workflows { owner, repo } => match self.workflow_shown(owner@, repo@) {
                Some(i) => Some(
                    base + owner@ + "/"@ + repo@ + "/actions/workflows/"@ + last_segment(
                        self.workflows.workflows.data->Loaded_0.items@[i as int].path@,
                    ),
                ),
                None => None,
            },
            ViewLevel::Runs { owner, repo, .. } => if self.workflows.runs.data is Loaded
                && self.workflows.runs.selected is Some && self.workflows.runs.selected->Some_0
                < self.workflows.runs.data->Loaded_0.items@.len() {
                Some(
                    base + owner@ + "/"@ + repo@ + "/actions/runs/"@ + crate::text::decimal(
                        self.workflows.runs.data->Loaded_0.items@[self.workflows.runs.selected->Some_0 as int].id as nat,
                    ),
                )
            } else {
                None
            },
            ViewLevel::Jobs { owner, repo, run_id, .. } => if entry_shown(
                self.workflows.job_list_items@,
                self.workflows.job_groups@,
                self.workflows.jobs.selected,
            ) {
                Some(
                    base + owner@ + "/"@ + repo@ + "/actions/runs/"@ + crate::text::decimal(run_id as nat) + "/job/"@
                        + crate::text::decimal(
                        entry_job(self.workflows.job_list_items@, self.workflows.job_groups@, self.workflows.jobs.selected).id as nat,
                    ),
                )
            } else {
                None
            },
            ViewLevel::Logs { owner, repo, run_id, job_id, .. } => Some(
                base + owner@ + "/"@ + repo@ + "/actions/runs/"@ + crate::text::decimal(run_id as nat) + "/job/"@
                    + crate::text::decimal(job_id as nat),
            ),
        }
    }

    /// The provider address of what the workflows tab shows under the cursor
    /// (resolved through the same order as the display).
    pub fn get_workflows_github_url(&self) -> (r: Option<String>)
        ensures
            match self.workflows_url() {
                Some(u) => r is Some && r->Some_0@ == u,
                None => r is None,
            },
    {
        match self.workflows.nav.current() {
            ViewLevel::Owners => {
                let i = match self.shown_owner() {
                    Some(i) => i,
                    None => return None,
                };
                match &self.workflows.owners.data {
                    LoadingState::Loaded(p) => Some(repo_url(p.items[i].login.as_str(), None)),
                    _ => None,
                }
            },
            ViewLevel::Repositories { owner } => {
                let i = match self.shown_repository(owner.as_str()) {
                    Some(i) => i,
                    None => return None,
                };
                match &self.workflows.repositories.data {
                    LoadingState::Loaded(p) => Some(repo_url(owner.as_str(), Some(p.items[i].name.as_str()))),
                    _ => None,
                }
            },
            ViewLevel::Workflows { owner, repo } => {
                let i = match self.shown_workflow(owner.as_str(), repo.as_str()) {
                    Some(i) => i,
                    None => return None,
                };
                match &self.workflows.workflows.data {
                    LoadingState::Loaded(p) => {
                        let mut s = repo_url(owner.as_str(), Some(repo.as_str()));
                        s.append("/actions/workflows/");
                        let f = file_name(p.items[i].path.as_str());
                        s.append(f.as_str());
                        Some(s)
                    },
                    _ => None,
                }
            },
            ViewLevel::Runs { owner, repo, .. } => match self.workflows.runs.selected_item() {
                Some(run) => Some(run_url(owner.as_str(), repo.as_str(), run.id)),
                None => None,
            },
            ViewLevel::Jobs { owner, repo, run_id, .. } => match job_entry(
                &self.workflows.job_list_items,
                &self.workflows.job_groups,
                self.workflows.jobs.selected,
            ) {
                Some(job) => Some(job_url(owner.as_str(), repo.as_str(), *run_id, job.id)),
                None => None,
            },
            ViewLevel::Logs { owner, repo, run_id, job_id, .. } => Some(
                job_url(owner.as_str(), repo.as_str(), *run_id, *job_id),
            ),
        }
    }

    /// The provider address of what the runners tab shows under the cursor.
    pub open spec fn runners_url(&self) -> Option<Seq<char>> {
        let base = "https://github.com/"@;
        match self.runners.nav@.last() {
            RunnersViewLevel::Repositories => match self.runner_repository_shown() {
                Some(i) => Some(
                    base + self.runners.repositories.data->Loaded_0.items@[i as int].owner.login@ + "/"@
                        + self.runners.repositories.data->Loaded_0.items@[i as int].name@,
                ),
                None => None,
            },
            RunnersViewLevel::Runners { owner, repo } => Some(base + owner@ + "/"@ + repo@ + "/settings/actions/runners"@),
            RunnersViewLevel::Runs { owner, repo, .. } => if self.runners.runs.data is Loaded
                && self.runners.runs.selected is Some && self.runners.runs.selected->Some_0
                < self.runners.runs.data->Loaded_0.items@.len() {
                Some(
                    base + owner@ + "/"@ + repo@ + "/actions/runs/"@ + crate::text::decimal(
                        self.runners.runs.data->Loaded_0.items@[self.runners.runs.selected->Some_0 as int].id as nat,
                    ),
                )
            } else {
                None
            },
            RunnersViewLevel::Jobs { owner, repo, run_id, .. } => if entry_shown(
                self.runners.job_list_items@,
                self.runners.job_groups@,
                self.runners.jobs.selected,
            ) {
                Some(
                    base + owner@ + "/"@ + repo@ + "/actions/runs/"@ + crate::text::decimal(run_id as nat) + "/job/"@
                        + crate::text::decimal(
                        entry_job(self.runners.job_list_items@, self.runners.job_groups@, self.runners.jobs.selected).id as nat,
                    ),
                )
            } else {
                None
            },
            RunnersViewLevel::Logs { owner, repo, run_id, job_id, .. } => Some(
                base + owner@ + "/"@ + repo@ + "/actions/runs/"@ + crate::text::decimal(run_id as nat) + "/job/"@
                    + crate::text::decimal(job_id as nat),
            ),
        }
    }

    /// The provider address of what the runners tab shows under the cursor.
    pub fn get_runners_github_url(&self) -> (r: Option<String>)
        ensures
            match self.runners_url() {
                Some(u) => r is Some && r->Some_0@ == u,
                None => r is None,
            },
    {
        match self.runners.nav.current() {
            RunnersViewLevel::Repositories => {
                let i = match self.shown_runner_repository() {
                    Some(i) => i,
                    None => return None,
                };
                match &self.runners.repositories.data {
                    LoadingState::Loaded(p) => Some(
                        repo_url(p.items[i].owner.login.as_str(), Some(p.items[i].name.as_str())),
                    ),
                    _ => None,
                }
            },
            RunnersViewLevel::Runners { owner, repo } => {
                let mut s = repo_url(owner.as_str(), Some(repo.as_str()));
                s.append("/settings/actions/runners");
                Some(s)
            },
            RunnersViewLevel::Runs { owner, repo, .. } => match self.runners.runs.selected_item() {
                Some(run) => Some(run_url(owner.as_str(), repo.as_str(), run.id)),
                None => None,
            },
            RunnersViewLevel::Jobs { owner, repo, run_id, .. } => match job_entry(
                &self.runners.job_list_items,
                &self.runners.job_groups,
                self.runners.jobs.selected,
            ) {
                Some(job) => Some(job_url(owner.as_str(), repo.as_str(), *run_id, job.id)),
                None => None,
            },
            RunnersViewLevel::Logs { owner, repo, run_id, job_id, .. } => Some(
                job_url(owner.as_str(), repo.as_str(), *run_id, *job_id),
            ),
        }
    }

    /// The text to copy: the selected lines of the open log, or the excerpt of
    /// the selected analysis session.
    pub fn selection_text(&self) -> (r: Option<String>)
        ensures
            (self.active_tab == Tab::Workflows && self.workflows.nav@.last() is Logs && self.workflows.log_content is Loaded)
                ==> r is Some && r->Some_0@ == crate::log::excerpt_of(
                lines_of(self.workflows.log_content->Loaded_0@),
                if self.workflows.log_selection_anchor <= self.workflows.log_selection_cursor { self.workflows.log_selection_anchor } else { self.workflows.log_selection_cursor } as int,
                if self.workflows.log_selection_anchor <= self.workflows.log_selection_cursor { self.workflows.log_selection_cursor } else { self.workflows.log_selection_anchor } as int,
            ),
            self.active_tab == Tab::Sync ==> r is None,
    {
        match self.active_tab {
            Tab::Workflows => {
                if !self.workflows.nav.current().is_logs() {
                    return None;
                }
                match &self.workflows.log_content {
                    LoadingState::Loaded(logs) => {
                        let (start, end) = self.workflows.log_selection_range();
                        Some(crate::log::excerpt(logs.as_str(), start, end))
                    },
                    _ => None,
                }
            },
            Tab::Runners => {
                if !self.runners.nav.current().is_logs() {
                    return None;
                }
                match &self.runners.log_content {
                    LoadingState::Loaded(logs) => {
                        let (start, end) = self.runners.log_selection_range();
                        Some(crate::log::excerpt(logs.as_str(), start, end))
                    },
                    _ => None,
                }
            },
            Tab::Analyze => match self.analyze.selected_session() {
                Some(s) => Some(s.log_excerpt.clone()),
                None => None,
            },
            Tab::Sync => None,
        }
    }

    /// `after` is `self` once lines `start..=end` of `text`, from the given
    /// job and run of `owner/repo`, were saved: a session of the same job and
    /// run that overlaps them is shown instead of adding one; otherwise a new
    /// session with the excerpt, its range, source and selection goes first
    /// (`new_session_shown` says that it is the one shown). Either way the
    /// analyze tab is active and its list cursor is on the session shown.
    pub open spec fn excerpt_saved(
        &self,
        after: App,
        text: Seq<char>,
        owner: Seq<char>,
        repo: Seq<char>,
        run_id: u64,
        job_id: u64,
        anchor: usize,
        cursor: usize,
    ) -> bool {
        let start = if anchor <= cursor { anchor } else { cursor };
        let end = if anchor <= cursor { cursor } else { anchor };
        let old_sessions = self.analyze.sessions@;
        let overlap = crate::analyze::has_overlap(old_sessions, job_id, run_id, start, end);
        after.active_tab == Tab::Analyze && after.analyze.view is Detail && (overlap ==> (after.analyze.sessions@
            == old_sessions && after.analyze.view->session_id@ == old_sessions[crate::analyze::first_overlap_index(
            old_sessions,
            job_id,
            run_id,
            start,
            end,
        )].id@ && after.analyze.selected == Some(
            crate::analyze::first_overlap_index(old_sessions, job_id, run_id, start, end) as usize,
        ))) && (!overlap ==> after.analyze.selected == Some(0usize)) && (!overlap ==> new_session_added(
            old_sessions,
            after.analyze.sessions@,
            text,
            owner,
            repo,
            run_id,
            job_id,
            anchor,
            cursor,
            start,
            end,
        ))
    }

    /// Saves the open log's selection to the analyze tab at `now` (see
    /// `excerpt_saved`). Returns whether there was a selection to save.
    pub fn save_to_analyze_at(&mut self, now: Timestamp) -> (r: bool)
        ensures
            old(self).active_tab == Tab::Workflows ==> r == old(self).workflows_save_possible() && (r ==> {
                let l = old(self).workflows.nav@.last();
                old(self).excerpt_saved(*final(self), old(self).workflows.log_content->Loaded_0@, l->Logs_owner@,
                    l->Logs_repo@, l->Logs_run_id, l->Logs_job_id, old(self).workflows.log_selection_anchor,
                    old(self).workflows.log_selection_cursor)
            }),
            old(self).active_tab == Tab::Runners ==> r == old(self).runners_save_possible() && (r ==> {
                let l = old(self).runners.nav@.last();
                old(self).excerpt_saved(*final(self), old(self).runners.log_content->Loaded_0@, l->Logs_owner@,
                    l->Logs_repo@, l->Logs_run_id, l->Logs_job_id, old(self).runners.log_selection_anchor,
                    old(self).runners.log_selection_cursor)
            }),
            !r ==> final(self).active_tab == old(self).active_tab && final(self).analyze.sessions@ == old(self).analyze.sessions@,
    {
        match self.active_tab {
            Tab::Workflows => self.save_workflows_to_analyze_at(now),
            Tab::Runners => self.save_runners_to_analyze_at(now),
            _ => false,
        }
    }

    /// Whether the detail view shows the first session.
    pub open spec fn new_session_shown(&self) -> bool {
        self.analyze.sessions@.len() > 0 && self.analyze.view == (AnalyzeViewLevel::Detail {
            session_id: self.analyze.sessions@[0].id,
        })
    }

    /// Whether the workflows tab shows a loaded log with a selection to save.
    pub open spec fn workflows_save_possible(&self) -> bool {
        self.workflows.nav@.last() is Logs && self.workflows.log_content is Loaded
            && self.workflows.log_selection_anchor < usize::MAX && self.workflows.log_selection_cursor < usize::MAX
    }

    /// Whether the runners tab shows a loaded log with a selection to save.
    pub open spec fn runners_save_possible(&self) -> bool {
        self.runners.nav@.last() is Logs && self.runners.log_content is Loaded
            && self.runners.log_selection_anchor < usize::MAX && self.runners.log_selection_cursor < usize::MAX
    }

    /// Saves the workflows tab's log selection (see `excerpt_saved`).
    pub fn save_workflows_to_analyze_at(&mut self, now: Timestamp) -> (r: bool)
        ensures
            r == old(self).workflows_save_possible(),
            r ==> {
                let l = old(self).workflows.nav@.last();
                old(self).excerpt_saved(*final(self), old(self).workflows.log_content->Loaded_0@, l->Logs_owner@,
                    l->Logs_repo@, l->Logs_run_id, l->Logs_job_id, old(self).workflows.log_selection_anchor,
                    old(self).workflows.log_selection_cursor)
            },
            (r && final(self).analyze.sessions@.len() > old(self).analyze.sessions@.len()) ==> final(self).new_session_shown(),
            !r ==> final(self).active_tab == old(self).active_tab && final(self).analyze.sessions@ == old(self).analyze.sessions@,
    {
        let (owner, repo, workflow_id, run_id, job_id, job_name, job_status, job_conclusion) = match self.workflows.nav.current() {
            ViewLevel::Logs { owner, repo, workflow_id, run_id, job_id, job_name, job_status, job_conclusion } => (
                owner.clone(),
                repo.clone(),
                *workflow_id,
                *run_id,
                *job_id,
                job_name.clone(),
                *job_status,
                *job_conclusion,
            ),
            _ => return false,
        };
        let text = match &self.workflows.log_content {
            LoadingState::Loaded(t) => t.clone(),
            _ => return false,
        };
        if self.workflows.log_selection_anchor == usize::MAX || self.workflows.log_selection_cursor == usize::MAX {
            return false;
        }
        let (start, end) = self.workflows.log_selection_range();
        let (run_number, workflow_name) = workflows_run_context(&self.workflows.nav);
        let metadata = run_metadata(&self.workflows.runs.data, &self.workflows.jobs.data, run_id, job_id);
        let url = job_url(owner.as_str(), repo.as_str(), run_id, job_id);
        let ctx = NavigationContext {
            source_tab: SourceTab::Workflows,
            owner,
            repo,
            workflow_id: Some(workflow_id),
            workflow_name,
            run_id,
            run_number,
            job_id,
            job_name,
            job_status,
            job_conclusion,
            scroll_to_line: start,
            selection_anchor: self.workflows.log_selection_anchor,
            selection_cursor: self.workflows.log_selection_cursor,
        };
        let created = self.analyze.save_excerpt_at(ctx, metadata, url, text.as_str(), start, end, now);
        self.note_saved(created, start, end);
        true
    }

    /// Saves the runners tab's log selection (see `excerpt_saved`).
    pub fn save_runners_to_analyze_at(&mut self, now: Timestamp) -> (r: bool)
        ensures
            r == old(self).runners_save_possible(),
            r ==> {
                let l = old(self).runners.nav@.last();
                old(self).excerpt_saved(*final(self), old(self).runners.log_content->Loaded_0@, l->Logs_owner@,
                    l->Logs_repo@, l->Logs_run_id, l->Logs_job_id, old(self).runners.log_selection_anchor,
                    old(self).runners.log_selection_cursor)
            },
            (r && final(self).analyze.sessions@.len() > old(self).analyze.sessions@.len()) ==> final(self).new_session_shown(),
            !r ==> final(self).active_tab == old(self).active_tab && final(self).analyze.sessions@ == old(self).analyze.sessions@,
    {
        let (owner, repo, run_id, job_id, job_name, job_status, job_conclusion) = match self.runners.nav.current() {
            RunnersViewLevel::Logs { owner, repo, run_id, job_id, job_name, job_status, job_conclusion } => (
                owner.clone(),
                repo.clone(),
                *run_id,
                *job_id,
                job_name.clone(),
                *job_status,
                *job_conclusion,
            ),
            _ => return false,
        };
        let text = match &self.runners.log_content {
            LoadingState::Loaded(t) => t.clone(),
            _ => return false,
        };
        if self.runners.log_selection_anchor == usize::MAX || self.runners.log_selection_cursor == usize::MAX {
            return false;
        }
        let (start, end) = self.runners.log_selection_range();
        let run_number = runners_run_number(&self.runners.nav);
        let metadata = run_metadata(&self.runners.runs.data, &self.runners.jobs.data, run_id, job_id);
        let url = job_url(owner.as_str(), repo.as_str(), run_id, job_id);
        let ctx = NavigationContext {
            source_tab: SourceTab::Runners,
            owner,
            repo,
            workflow_id: None,
            workflow_name: None,
            run_id,
            run_number,
            job_id,
            job_name,
            job_status,
            job_conclusion,
            scroll_to_line: start,
            selection_anchor: self.runners.log_selection_anchor,
            selection_cursor: self.runners.log_selection_cursor,
        };
        let created = self.analyze.save_excerpt_at(ctx, metadata, url, text.as_str(), start, end, now);
        self.note_saved(created, start, end);
        true
    }

    /// Logs the outcome of a save and switches to the analyze tab.
    fn note_saved(&mut self, created: bool, start: usize, end: usize)
        requires
            start <= end < usize::MAX,
        ensures
            final(self).active_tab == Tab::Analyze,
            final(self).analyze == old(self).analyze,
    {
        if created {
            let mut msg = String::from_str("Saved ");
            crate::text::push_decimal(&mut msg, (end - start + 1) as u64);
            msg.append(" lines to Analyze");
            self.sync.log_info(msg);
        } else {
            self.sync.log_info(String::from_str("Selection overlaps existing session - navigating"));
        }
        self.active_tab = Tab::Analyze;
    }
}


impl App {
    /// Opens the log that an analysis session was saved from: the source
    /// tab's stack is rebuilt down to that log, whose selection and scroll are
    /// restored and whose content is to be loaded. Returns whether the
    /// session exists.
    pub fn go_to_source(&mut self, session_id: &str) -> (r: bool)
        ensures
            r == exists|j: int| 0 <= j < old(self).analyze.sessions@.len() && (#[trigger] old(self).analyze.sessions@[j]).id@ == session_id@,
            !r ==> final(self).active_tab == old(self).active_tab,
            r ==> final(self).analyze.view == AnalyzeViewLevel::List,
            r ==> exists|k: int| first_with_id(old(self).analyze.sessions@, session_id@, k) && source_opened(
                old(self).analyze.sessions@[k],
                *final(self),
            ),
    {
        let ghost mut kk: int = 0;
        let (ctx, runner_name) = match self.analyze.find_session(session_id) {
            Some(s) => {
                proof {
                    kk = choose|k: int|
                        0 <= k < self.analyze.sessions@.len() && *s == self.analyze.sessions@[k] && s.id@ == session_id@
                            && forall|j: int| 0 <= j < k ==> (#[trigger] self.analyze.sessions@[j]).id@ != session_id@;
                }
                (
                    NavigationContext {
                        source_tab: s.nav_context.source_tab,
                        owner: s.nav_context.owner.clone(),
                        repo: s.nav_context.repo.clone(),
                        workflow_id: s.nav_context.workflow_id,
                        workflow_name: match &s.nav_context.workflow_name {
                            Some(n) => Some(n.clone()),
                            None => None,
                        },
                        run_id: s.nav_context.run_id,
                        run_number: s.nav_context.run_number,
                        job_id: s.nav_context.job_id,
                        job_name: s.nav_context.job_name.clone(),
                        job_status: s.nav_context.job_status,
                        job_conclusion: s.nav_context.job_conclusion,
                        scroll_to_line: s.nav_context.scroll_to_line,
                        selection_anchor: s.nav_context.selection_anchor,
                        selection_cursor: s.nav_context.selection_cursor,
                    },
                    match &s.run_metadata.runner_name {
                        Some(n) => Some(n.clone()),
                        None => None,
                    },
                )
            },
            None => return false,
        };
        match ctx.source_tab {
            SourceTab::Workflows => {
                let workflow_id = match ctx.workflow_id {
                    Some(w) => w,
                    None => 0,
                };
                let workflow_name = match &ctx.workflow_name {
                    Some(n) => n.clone(),
                    None => String::new(),
                };
                let mut nav = crate::navigation::LevelStack::new(ViewLevel::Owners);
                nav.push(ViewLevel::Repositories { owner: ctx.owner.clone() });
                nav.push(ViewLevel::Workflows { owner: ctx.owner.clone(), repo: ctx.repo.clone() });
                nav.push(
                    ViewLevel::Runs { owner: ctx.owner.clone(), repo: ctx.repo.clone(), workflow_id, workflow_name },
                );
                nav.push(
                    ViewLevel::Jobs {
                        owner: ctx.owner.clone(),
                        repo: ctx.repo.clone(),
                        workflow_id,
                        run_id: ctx.run_id,
                        run_number: ctx.run_number,
                    },
                );
                nav.push(
                    ViewLevel::Logs {
                        owner: ctx.owner.clone(),
                        repo: ctx.repo.clone(),
                        workflow_id,
                        run_id: ctx.run_id,
                        job_id: ctx.job_id,
                        job_name: ctx.job_name.clone(),
                        job_status: ctx.job_status,
                        job_conclusion: ctx.job_conclusion,
                    },
                );
                self.workflows.nav = nav;
                self.workflows.log_content = LoadingState::Idle;
                self.workflows.log_selection_anchor = ctx.selection_anchor;
                self.workflows.log_selection_cursor = ctx.selection_cursor;
                self.workflows.log_scroll_y = to_u16(ctx.scroll_to_line);
                self.workflows.log_scroll_x = 0;
                self.active_tab = Tab::Workflows;
            },
            SourceTab::Runners => {
                let mut nav = crate::navigation::LevelStack::new(RunnersViewLevel::Repositories);
                nav.push(RunnersViewLevel::Runners { owner: ctx.owner.clone(), repo: ctx.repo.clone() });
                nav.push(RunnersViewLevel::Runs { owner: ctx.owner.clone(), repo: ctx.repo.clone(), runner_name });
                nav.push(
                    RunnersViewLevel::Jobs {
                        owner: ctx.owner.clone(),
                        repo: ctx.repo.clone(),
                        run_id: ctx.run_id,
                        run_number: ctx.run_number,
                    },
                );
                nav.push(
                    RunnersViewLevel::Logs {
                        owner: ctx.owner.clone(),
                        repo: ctx.repo.clone(),
                        run_id: ctx.run_id,
                        job_id: ctx.job_id,
                        job_name: ctx.job_name.clone(),
                        job_status: ctx.job_status,
                        job_conclusion: ctx.job_conclusion,
                    },
                );
                self.runners.nav = nav;
                self.runners.log_content = LoadingState::Idle;
                self.runners.log_selection_anchor = ctx.selection_anchor;
                self.runners.log_selection_cursor = ctx.selection_cursor;
                self.runners.log_scroll_y = to_u16(ctx.scroll_to_line);
                self.runners.log_scroll_x = 0;
                self.active_tab = Tab::Runners;
            },
        }
        self.analyze.exit_detail();
        assert(first_with_id(old(self).analyze.sessions@, session_id@, kk));
        assert(source_opened(old(self).analyze.sessions@[kk], *self));
        true
    }
}

} // verus!
