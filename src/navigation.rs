//! Drill-down navigation: a non-empty stack of view levels whose top is the
//! current view, written once and used by both hierarchies.

use vstd::prelude::*;
use vstd::string::*;
use crate::text::{concat_str, decimal, decimal_text};
use crate::types::{RunConclusion, RunStatus};

verus! {

/// A level of a drill-down hierarchy.
pub trait Level: Sized {
    /// The breadcrumb label of this level.
    spec fn label(&self) -> Seq<char>;

    /// The label shown in the breadcrumb trail.
    fn breadcrumb_label(&self) -> (r: String)
        ensures
            r@ == self.label(),
    ;

    /// An equal copy of this level.
    fn duplicate(&self) -> (r: Self)
        ensures
            r == *self,
    ;
}

/// A count held to the largest `usize` (a stack holds fewer levels than that
/// on any real machine; the count is exact below it).
pub open spec fn capped(n: nat) -> nat {
    if n <= usize::MAX { n } else { usize::MAX as nat }
}

/// The stack after pushing `level`.
pub open spec fn pushed<L>(s: Seq<L>, level: L) -> Seq<L> {
    s.push(level)
}

/// The stack after a pop, and whether a level was removed: the root stays.
pub open spec fn popped<L>(s: Seq<L>) -> (Seq<L>, bool) {
    if s.len() > 1 {
        (s.drop_last(), true)
    } else {
        (s, false)
    }
}

/// A stack of levels that is never empty: the root, then the levels above it;
/// the last is the current one.
pub struct LevelStack<L> {
    root: L,
    above: Vec<L>,
}

impl<L> View for LevelStack<L> {
    type V = Seq<L>;

    closed spec fn view(&self) -> Seq<L> {
        seq![self.root] + self.above@
    }
}

impl<L: Level> LevelStack<L> {
    /// A stack holding only `root`.
    pub fn new(root: L) -> (r: Self)
        ensures
            r@ == seq![root],
    {
        let r = LevelStack { root, above: Vec::new() };
        assert(r@ =~= seq![root]);
        r
    }

    /// A stack of the given levels, root first; `None` if there are none.
    pub fn from_levels(levels: Vec<L>) -> (r: Option<Self>)
        ensures
            r is Some <==> levels@.len() >= 1,
            r matches Some(s) ==> s@ == levels@,
    {
        if levels.len() == 0 {
            None
        } else {
            let mut above = levels;
            let root = above.remove(0);
            let r = LevelStack { root, above };
            assert(r@ =~= levels@);
            Some(r)
        }
    }

    /// The level at position `i`, counted from the root.
    pub fn level_at(&self, i: usize) -> (r: &L)
        requires
            i < self@.len(),
        ensures
            *r == self@[i as int],
    {
        if i == 0 {
            &self.root
        } else {
            &self.above[i - 1]
        }
    }

    /// The current level (the top).
    pub fn current(&self) -> (r: &L)
        ensures
            self@.len() >= 1,
            *r == self@.last(),
    {
        let n = self.above.len();
        if n == 0 {
            &self.root
        } else {
            &self.above[n - 1]
        }
    }

    /// Drills down to `level`.
    pub fn push(&mut self, level: L)
        ensures
            final(self)@ == pushed(old(self)@, level),
    {
        self.above.push(level);
        assert(self@ =~= pushed(old(self)@, level));
    }

    /// Goes back one level; returns false, and changes nothing, at the root.
    pub fn pop(&mut self) -> (r: bool)
        ensures
            (final(self)@, r) == popped(old(self)@),
    {
        if self.above.len() > 0 {
            let _ = self.above.pop();
            assert(self@ =~= old(self)@.drop_last());
            true
        } else {
            false
        }
    }

    /// Whether there is a level to go back to.
    pub fn can_go_back(&self) -> (r: bool)
        ensures
            r == (self@.len() > 1),
    {
        self.above.len() > 0
    }

    /// Returns to the root level.
    pub fn reset(&mut self)
        ensures
            final(self)@ == seq![old(self)@[0]],
    {
        self.above.clear();
        assert(self@ =~= seq![old(self)@[0]]);
    }

    /// Number of levels on the stack.
    pub fn depth(&self) -> (r: usize)
        ensures
            r == capped(self@.len()),
    {
        let n = self.above.len();
        if n == usize::MAX {
            n
        } else {
            n + 1
        }
    }

    /// The breadcrumb labels, root first.
    pub fn labels(&self) -> (r: Vec<String>)
        ensures
            r@.len() == capped(self@.len()),
            forall|i: int| 0 <= i < r@.len() ==> (#[trigger] r@[i])@ == self@[i].label(),
    {
        let mut out: Vec<String> = Vec::new();
        let n = self.depth();
        let mut i: usize = 0;
        while i < n
            invariant
                n == capped(self@.len()),
                i <= n,
                out@.len() == i,
                forall|j: int| 0 <= j < i ==> (#[trigger] out@[j])@ == self@[j].label(),
            decreases n - i,
        {
            out.push(self.level_at(i).breadcrumb_label());
            i = i + 1;
        }
        out
    }
}

/// Pushing a level and then popping gives back the stack as it was.
pub proof fn law_pop_undoes_push<L>(s: Seq<L>, level: L)
    requires
        s.len() >= 1,
    ensures
        popped(pushed(s, level)) == (s, true),
{
    assert(pushed(s, level).drop_last() =~= s);
}

/// Popping a stack that holds only its root returns false and changes nothing.
pub proof fn law_pop_at_root<L>(root: L)
    ensures
        popped(seq![root]) == (seq![root], false),
{
}

/// Popping a stack that a sequence of pushes built removes the last level pushed.
pub proof fn law_pops_undo_pushes<L>(s: Seq<L>, pushes: Seq<L>)
    requires
        s.len() >= 1,
    ensures
        pushes.len() > 0 ==> popped(s + pushes) == (s + pushes.drop_last(), true),
{
    if pushes.len() > 0 {
        assert((s + pushes).drop_last() =~= s + pushes.drop_last());
    }
}

/// The current view level of the workflows hierarchy.
#[derive(Clone, Debug, PartialEq, Eq)]
pub enum ViewLevel {
    /// The owners (the user and their organizations).
    Owners,
    /// Repositories of an owner.
    Repositories { owner: String },
    /// Workflows of a repository.
    Workflows { owner: String, repo: String },
    /// Runs of a workflow.
    Runs { owner: String, repo: String, workflow_id: u64, workflow_name: String },
    /// Jobs of a run.
    Jobs { owner: String, repo: String, workflow_id: u64, run_id: u64, run_number: u64 },
    /// The log of a job.
    Logs {
        owner: String,
        repo: String,
        workflow_id: u64,
        run_id: u64,
        job_id: u64,
        job_name: String,
        job_status: RunStatus,
        job_conclusion: Option<RunConclusion>,
    },
}

/// The display title of a workflows level.
pub open spec fn view_title(l: ViewLevel) -> Seq<char> {
    match l {
        ViewLevel::Owners => "Owners"@,
        ViewLevel::Repositories { owner } => owner@ + " / Repositories"@,
        ViewLevel::Workflows { owner, repo } => owner@ + "/"@ + repo@ + " / Workflows"@,
        ViewLevel::Runs { workflow_name, .. } => workflow_name@ + " / Runs"@,
        ViewLevel::Jobs { run_number, .. } => "Run #"@ + decimal(run_number as nat) + " / Jobs"@,
        ViewLevel::Logs { job_name, .. } => job_name@ + " / Logs"@,
    }
}

/// The breadcrumb label of a workflows level.
pub open spec fn view_label(l: ViewLevel) -> Seq<char> {
    match l {
        ViewLevel::Owners => "Owners"@,
        ViewLevel::Repositories { owner } => owner@,
        ViewLevel::Workflows { repo, .. } => repo@,
        ViewLevel::Runs { workflow_name, .. } => workflow_name@,
        ViewLevel::Jobs { run_number, .. } => "#"@ + decimal(run_number as nat),
        ViewLevel::Logs { job_name, .. } => job_name@,
    }
}

fn cat3(a: &str, b: &str, c: &str) -> (r: String)
    ensures
        r@ == a@ + b@ + c@,
{
    let mut s = concat_str(a, b);
    s.append(c);
    s
}

impl ViewLevel {
    /// The display title for this view level.
    pub fn title(&self) -> (r: String)
        ensures
            r@ == view_title(*self),
    {
        match self {
            ViewLevel::Owners => String::from_str("Owners"),
            ViewLevel::Repositories { owner } => concat_str(owner.as_str(), " / Repositories"),
            ViewLevel::Workflows { owner, repo } => {
                let s = cat3(owner.as_str(), "/", repo.as_str());
                concat_str(s.as_str(), " / Workflows")
            },
            ViewLevel::Runs { workflow_name, .. } => concat_str(workflow_name.as_str(), " / Runs"),
            ViewLevel::Jobs { run_number, .. } => {
                let n = decimal_text(*run_number);
                cat3("Run #", n.as_str(), " / Jobs")
            },
            ViewLevel::Logs { job_name, .. } => concat_str(job_name.as_str(), " / Logs"),
        }
    }

    /// A breadcrumb node for this view level.
    pub fn to_breadcrumb(&self) -> (r: BreadcrumbNode)
        ensures
            r.label@ == view_label(*self),
            r.level == *self,
    {
        BreadcrumbNode { label: self.breadcrumb_label(), level: self.duplicate() }
    }
}

impl Level for ViewLevel {
    open spec fn label(&self) -> Seq<char> {
        view_label(*self)
    }

    fn breadcrumb_label(&self) -> (r: String) {
        match self {
            ViewLevel::Owners => String::from_str("Owners"),
            ViewLevel::Repositories { owner } => owner.clone(),
            ViewLevel::Workflows { repo, .. } => repo.clone(),
            ViewLevel::Runs { workflow_name, .. } => workflow_name.clone(),
            ViewLevel::Jobs { run_number, .. } => {
                let n = decimal_text(*run_number);
                concat_str("#", n.as_str())
            },
            ViewLevel::Logs { job_name, .. } => job_name.clone(),
        }
    }

    fn duplicate(&self) -> (r: Self) {
        match self {
            ViewLevel::Owners => ViewLevel::Owners,
            ViewLevel::Repositories { owner } => ViewLevel::Repositories { owner: owner.clone() },
            ViewLevel::Workflows { owner, repo } => ViewLevel::Workflows {
                owner: owner.clone(),
                repo: repo.clone(),
            },
            ViewLevel::Runs { owner, repo, workflow_id, workflow_name } => ViewLevel::Runs {
                owner: owner.clone(),
                repo: repo.clone(),
                workflow_id: *workflow_id,
                workflow_name: workflow_name.clone(),
            },
            ViewLevel::Jobs { owner, repo, workflow_id, run_id, run_number } => ViewLevel::Jobs {
                owner: owner.clone(),
                repo: repo.clone(),
                workflow_id: *workflow_id,
                run_id: *run_id,
                run_number: *run_number,
            },
            ViewLevel::Logs {
                owner,
                repo,
                workflow_id,
                run_id,
                job_id,
                job_name,
                job_status,
                job_conclusion,
            } => ViewLevel::Logs {
                owner: owner.clone(),
                repo: repo.clone(),
                workflow_id: *workflow_id,
                run_id: *run_id,
                job_id: *job_id,
                job_name: job_name.clone(),
                job_status: *job_status,
                job_conclusion: *job_conclusion,
            },
        }
    }
}

/// A node of the workflows breadcrumb trail.
#[derive(Clone, Debug)]
pub struct BreadcrumbNode {
    /// Display label.
    pub label: String,
    /// The level this node stands for.
    pub level: ViewLevel,
}

/// Navigation stack of the workflows hierarchy.
pub type NavigationStack = LevelStack<ViewLevel>;

impl Default for LevelStack<ViewLevel> {
    fn default() -> (r: Self)
        ensures
            r@ == seq![ViewLevel::Owners],
    {
        LevelStack::new(ViewLevel::Owners)
    }
}

impl LevelStack<ViewLevel> {
    /// The breadcrumb trail, root first.
    pub fn breadcrumbs(&self) -> (r: Vec<BreadcrumbNode>)
        ensures
            r@.len() == capped(self@.len()),
            forall|i: int|
                0 <= i < r@.len() ==> (#[trigger] r@[i]).label@ == view_label(self@[i]) && r@[i].level
                    == self@[i],
    {
        let n = self.depth();
        let mut out: Vec<BreadcrumbNode> = Vec::new();
        let mut i: usize = 0;
        while i < n
            invariant
                n == capped(self@.len()),
                i <= n,
                out@.len() == i,
                forall|j: int|
                    0 <= j < i ==> (#[trigger] out@[j]).label@ == view_label(self@[j]) && out@[j].level
                        == self@[j],
            decreases n - i,
        {
            out.push(self.level_at(i).to_breadcrumb());
            i = i + 1;
        }
        out
    }
}

} // verus!
