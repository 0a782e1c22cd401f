//! Re-run grouping: jobs that share a name form one group, most recent attempt
//! first, and the groups flatten to one list entry per attempt.

use vstd::prelude::*;
use vstd::multiset::Multiset;
use vstd::seq_lib::to_multiset_insert;
use vstd::seq_lib::to_multiset_build;
use crate::clock;
use crate::text::{lemma_lex_irrefl, lemma_lex_total, lemma_lex_trans, lex_lt, str_lt};
use crate::types::Job;

verus! {

broadcast use vstd::seq_lib::group_seq_properties, vstd::multiset::group_multiset_axioms;

/// The time a job is ordered by: its start, else its completion, else `now`.
pub open spec fn time_key(j: Job, now: i64) -> i64 {
    match j.started_at {
        Some(t) => t,
        None => match j.completed_at {
            Some(t) => t,
            None => now,
        },
    }
}

/// Most recent first.
pub open spec fn sorted_desc(s: Seq<Job>, now: i64) -> bool {
    forall|i: int, j: int| 0 <= i < j < s.len() ==> time_key(s[i], now) >= time_key(s[j], now)
}

/// Every job of `s` has the name `name`.
pub open spec fn all_named(s: Seq<Job>, name: Seq<char>) -> bool {
    forall|i: int| 0 <= i < s.len() ==> (#[trigger] s[i]).name@ == name
}

/// Jobs that share a name: the latest attempt and the earlier ones, most
/// recent first.
#[derive(Clone, Debug)]
pub struct JobGroup {
    /// Latest attempt.
    pub latest: Job,
    /// Earlier attempts, most recent first.
    pub previous: Vec<Job>,
}

impl View for JobGroup {
    type V = Seq<Job>;

    open spec fn view(&self) -> Seq<Job> {
        seq![self.latest] + self.previous@
    }
}

/// All jobs of a sequence of groups, counted with repetition.
pub open spec fn jobs_of(gs: Seq<Seq<Job>>) -> Multiset<Job>
    decreases gs.len(),
{
    if gs.len() == 0 {
        Multiset::empty()
    } else {
        jobs_of(gs.drop_last()).add(gs.last().to_multiset())
    }
}

/// The groups' attempts as sequences.
pub open spec fn group_views(gs: Seq<JobGroup>) -> Seq<Seq<Job>> {
    gs.map_values(|g: JobGroup| g@)
}

/// Well-formed grouping of jobs at time `now`: groups are non-empty, named by
/// their first job, in strictly increasing name order, each most recent first.
pub open spec fn well_grouped(gs: Seq<Seq<Job>>, now: i64) -> bool {
    &&& forall|i: int| 0 <= i < gs.len() ==> (#[trigger] gs[i]).len() >= 1
    &&& forall|i: int| 0 <= i < gs.len() ==> all_named(#[trigger] gs[i], gs[i][0].name@)
    &&& forall|i: int| 0 <= i < gs.len() ==> sorted_desc(#[trigger] gs[i], now)
    &&& forall|i: int, j: int| 0 <= i < j < gs.len() ==> lex_lt(gs[i][0].name@, gs[j][0].name@)
}

proof fn lemma_jobs_of_update(gs: Seq<Seq<Job>>, i: int, g: Seq<Job>, x: Job)
    requires
        0 <= i < gs.len(),
        g.to_multiset() == gs[i].to_multiset().insert(x),
    ensures
        jobs_of(gs.update(i, g)) == jobs_of(gs).insert(x),
    decreases gs.len(),
{
    let u = gs.update(i, g);
    if i == gs.len() - 1 {
        assert(u.drop_last() =~= gs.drop_last());
    } else {
        assert(u.drop_last() =~= gs.drop_last().update(i, g));
        lemma_jobs_of_update(gs.drop_last(), i, g, x);
    }
    assert(jobs_of(u) =~= jobs_of(gs).insert(x));
}

proof fn lemma_jobs_of_insert(gs: Seq<Seq<Job>>, i: int, x: Job)
    requires
        0 <= i <= gs.len(),
    ensures
        jobs_of(gs.insert(i, seq![x])) == jobs_of(gs).insert(x),
    decreases gs.len(),
{
    let u = gs.insert(i, seq![x]);
    assert(seq![x].to_multiset() =~= Multiset::singleton(x)) by {
        assert(seq![x] =~= Seq::<Job>::empty().push(x));
        to_multiset_build(Seq::<Job>::empty(), x);
    }
    if i == gs.len() {
        assert(u.drop_last() =~= gs);
        assert(jobs_of(u) =~= jobs_of(gs).insert(x));
    } else {
        assert(u.drop_last() =~= gs.drop_last().insert(i, seq![x]));
        lemma_jobs_of_insert(gs.drop_last(), i, x);
        assert(jobs_of(u) =~= jobs_of(gs).insert(x));
    }
}

/// The time a job is ordered by.
fn job_time(j: &Job, now: i64) -> (r: i64)
    ensures
        r == time_key(*j, now),
{
    match j.started_at {
        Some(t) => t,
        None => match j.completed_at {
            Some(t) => t,
            None => now,
        },
    }
}

/// Inserts `x` into a most-recent-first sequence after every attempt that is
/// not older than it.
fn insert_by_time(g: &mut Vec<Job>, x: Job, now: i64)
    requires
        sorted_desc(old(g)@, now),
    ensures
        exists|p: int| 0 <= p <= old(g)@.len() && final(g)@ == old(g)@.insert(p, x),
        sorted_desc(final(g)@, now),
{
    let kx = job_time(&x, now);
    let mut p: usize = 0;
    while p < g.len() && job_time(&g[p], now) >= kx
        invariant
            p <= g@.len(),
            g@ == old(g)@,
            kx == time_key(x, now),
            forall|k: int| 0 <= k < p ==> time_key(#[trigger] g@[k], now) >= kx,
        decreases g@.len() - p,
    {
        p = p + 1;
    }
    let ghost before = g@;
    g.insert(p, x);
    assert(g@ == before.insert(p as int, x));
    assert(sorted_desc(g@, now)) by {
        assert forall|i: int, j: int| 0 <= i < j < g@.len() implies time_key(g@[i], now) >= time_key(
            g@[j],
            now,
        ) by {
            if j == p {
            } else if i == p {
                assert(time_key(before[p as int], now) < time_key(x, now));
                if j - 1 > p {
                    assert(time_key(before[p as int], now) >= time_key(before[j - 1], now));
                }
            } else if i < p && j > p {
                assert(g@[j] == before[j - 1]);
            } else if i > p {
                assert(g@[i] == before[i - 1]);
                assert(g@[j] == before[j - 1]);
            }
        }
    }
}

/// Groups jobs by name at time `now`: one group per distinct name, in name
/// order, each group most recent first.
pub fn group_by_name_at(jobs: Vec<Job>, now: i64) -> (r: Vec<JobGroup>)
    ensures
        well_grouped(group_views(r@), now),
        jobs_of(group_views(r@)) == jobs@.to_multiset(),
{
    let ghost input = jobs@;
    let total = jobs.len();
    let mut rest = jobs;
    let mut groups: Vec<Vec<Job>> = Vec::new();
    let mut taken: usize = 0;
    while rest.len() > 0
        invariant
            input.len() == taken + rest@.len(),
            input.len() == total,
            rest@ == input.subrange(taken as int, input.len() as int),
            well_grouped(groups@.map_values(|g: Vec<Job>| g@), now),
            jobs_of(groups@.map_values(|g: Vec<Job>| g@)) == input.subrange(0, taken as int).to_multiset(),
        decreases rest@.len(),
    {
        let ghost gv = groups@.map_values(|g: Vec<Job>| g@);
        let x = rest.remove(0);
        proof {
            assert(input.subrange(0, taken + 1) =~= input.subrange(0, taken as int).push(x));
        }
        assert forall|k: int| 0 <= k < groups@.len() implies (#[trigger] groups@[k])@.len() >= 1 by {
            assert(gv[k] == groups@[k]@);
        }
        let mut i: usize = 0;
        while i < groups.len() && str_lt(groups[i][0].name.as_str(), x.name.as_str())
            invariant
                i <= groups@.len(),
                gv == groups@.map_values(|g: Vec<Job>| g@),
                well_grouped(gv, now),
                forall|k: int| 0 <= k < groups@.len() ==> (#[trigger] groups@[k])@.len() >= 1,
                forall|k: int| 0 <= k < i ==> lex_lt((#[trigger] gv[k])[0].name@, x.name@),
            decreases groups@.len() - i,
        {
            i = i + 1;
        }
        if i < groups.len() && groups[i][0].name == x.name {
            let mut g = groups.remove(i);
            proof {
                assert(g@ == gv[i as int]);
            }
            insert_by_time(&mut g, x, now);
            let ghost g2 = g@;
            groups.insert(i, g);
            proof {
                let p = choose|p: int| 0 <= p <= gv[i as int].len() && g2 == gv[i as int].insert(p, x);
                to_multiset_insert(gv[i as int], p, x);
                lemma_jobs_of_update(gv, i as int, g2, x);
                assert(groups@.map_values(|g: Vec<Job>| g@) =~= gv.update(i as int, g2));
                let nv = gv.update(i as int, g2);
                assert forall|k: int| 0 <= k < nv.len() implies all_named(#[trigger] nv[k], nv[k][0].name@) by {
                    if k == i {
                        assert(g2[0] == gv[i as int][0] || g2[0] == x);
                        assert forall|t: int| 0 <= t < g2.len() implies (#[trigger] g2[t]).name@ == nv[k][0].name@ by {
                            if t < p {
                                assert(g2[t] == gv[i as int][t]);
                            } else if t > p {
                                assert(g2[t] == gv[i as int][t - 1]);
                            }
                        }
                    }
                }
                assert(well_grouped(nv, now));
            }
        } else {
            proof {
                if i < groups.len() {
                    lemma_lex_total(gv[i as int][0].name@, x.name@);
                }
            }
            let ghost xg = x;
            let mut single: Vec<Job> = Vec::new();
            single.push(x);
            assert(single@ =~= seq![xg]);
            groups.insert(i, single);
            proof {
                let x = xg;
                lemma_jobs_of_insert(gv, i as int, x);
                assert(groups@.map_values(|g: Vec<Job>| g@) =~= gv.insert(i as int, seq![x]));
                let nv = gv.insert(i as int, seq![x]);
                assert forall|a: int, b: int| 0 <= a < b < nv.len() implies lex_lt(
                    nv[a][0].name@,
                    nv[b][0].name@,
                ) by {
                    if b < i {
                    } else if a < i && b == i {
                    } else if a < i && b > i {
                        assert(nv[b] == gv[b - 1]);
                    } else if a == i {
                        assert(nv[b] == gv[b - 1]);
                        if b - 1 > i {
                            lemma_lex_trans(x.name@, gv[i as int][0].name@, gv[b - 1][0].name@);
                        }
                    } else {
                        assert(nv[a] == gv[a - 1]);
                        assert(nv[b] == gv[b - 1]);
                    }
                }
                assert forall|k: int| 0 <= k < nv.len() implies all_named(#[trigger] nv[k], nv[k][0].name@) by {
                    if k < i {
                    } else if k == i {
                    } else {
                        assert(nv[k] == gv[k - 1]);
                    }
                }
                assert forall|k: int| 0 <= k < nv.len() implies sorted_desc(#[trigger] nv[k], now) by {
                    if k > i {
                        assert(nv[k] == gv[k - 1]);
                    }
                }
                assert(well_grouped(nv, now));
            }
        }
        taken = taken + 1;
    }
    assert(input.subrange(0, taken as int) =~= input);
    let ghost final_views = groups@.map_values(|g: Vec<Job>| g@);
    let ngroups = groups.len();
    let mut out: Vec<JobGroup> = Vec::new();
    let mut k: usize = 0;
    while groups.len() > 0
        invariant
            final_views.len() == k + groups@.len(),
            final_views.len() == ngroups,
            forall|t: int| 0 <= t < groups@.len() ==> (#[trigger] groups@[t])@ == final_views[k + t],
            out@.len() == k,
            forall|t: int| 0 <= t < k ==> (#[trigger] out@[t])@ == final_views[t],
            well_grouped(final_views, now),
        decreases groups@.len(),
    {
        let mut g = groups.remove(0);
        assert(g@ == final_views[k as int]);
        let latest = g.remove(0);
        let jg = JobGroup { latest, previous: g };
        assert(jg@ =~= final_views[k as int]);
        out.push(jg);
        k = k + 1;
    }
    assert(group_views(out@) =~= final_views);
    out
}

impl JobGroup {
    /// A group of jobs that share a name, ordered at time `now`.
    pub fn from_jobs_at(jobs: Vec<Job>, now: i64) -> (r: JobGroup)
        requires
            jobs@.len() >= 1,
        ensures
            r@.to_multiset() == jobs@.to_multiset(),
            sorted_desc(r@, now),
    {
        let ghost input = jobs@;
        let total = jobs.len();
        let mut rest = jobs;
        let mut sorted: Vec<Job> = Vec::new();
        let mut taken: usize = 0;
        while rest.len() > 0
            invariant
                input.len() == taken + rest@.len(),
                input.len() == total,
                rest@ == input.subrange(taken as int, input.len() as int),
                sorted_desc(sorted@, now),
                sorted@.to_multiset() == input.subrange(0, taken as int).to_multiset(),
            decreases rest@.len(),
        {
            let x = rest.remove(0);
            assert(input.subrange(0, taken + 1) =~= input.subrange(0, taken as int).push(x));
            let ghost before = sorted@;
            insert_by_time(&mut sorted, x, now);
            proof {
                let p = choose|p: int| 0 <= p <= before.len() && sorted@ == before.insert(p, x);
                to_multiset_insert(before, p, x);
            }
            taken = taken + 1;
        }
        assert(input.subrange(0, taken as int) =~= input);
        proof {
            sorted@.to_multiset_ensures();
            input.to_multiset_ensures();
        }
        let ghost full = sorted@;
        let latest = sorted.remove(0);
        let r = JobGroup { latest, previous: sorted };
        assert(r@ =~= full);
        r
    }

    /// A group of jobs that share a name, most recent first; a job with neither
    /// start nor completion time counts as happening now.
    pub fn from_jobs(jobs: Vec<Job>) -> (r: JobGroup)
        requires
            jobs@.len() >= 1,
        ensures
            r@.to_multiset() == jobs@.to_multiset(),
            exists|now: i64| sorted_desc(r@, now),
    {
        let t = clock::now();
        JobGroup::from_jobs_at(jobs, t.millis)
    }

    /// Number of attempts, the latest included.
    pub fn total_attempts(&self) -> (r: usize)
        requires
            self.previous@.len() < usize::MAX,
        ensures
            r == self@.len(),
    {
        1 + self.previous.len()
    }

    /// Groups jobs by name: one group per distinct name, in name order, each
    /// most recent first (a job without times counts as happening now).
    pub fn group_by_name(jobs: Vec<Job>) -> (r: Vec<JobGroup>)
        ensures
            exists|now: i64| well_grouped(group_views(r@), now),
            jobs_of(group_views(r@)) == jobs@.to_multiset(),
    {
        let t = clock::now();
        group_by_name_at(jobs, t.millis)
    }
}

/// One entry of the flattened job list.
#[derive(Clone, Copy, Debug, PartialEq, Eq, Structural)]
pub enum JobListItem {
    /// The latest attempt of a group.
    Main { group_index: usize },
    /// An earlier attempt of a group.
    SubItem { group_index: usize, attempt_index: usize },
}

/// The flattened entries of `gs`: each group's latest attempt, then its
/// earlier attempts in order.
pub open spec fn flat_of(gs: Seq<JobGroup>) -> Seq<JobListItem>
    decreases gs.len(),
{
    if gs.len() == 0 {
        Seq::empty()
    } else {
        let g = (gs.len() - 1) as usize;
        flat_of(gs.drop_last()) + seq![JobListItem::Main { group_index: g }] + Seq::new(
            gs.last().previous@.len(),
            |a: int| JobListItem::SubItem { group_index: g, attempt_index: a as usize },
        )
    }
}

/// The group an entry belongs to.
pub open spec fn group_of(item: JobListItem) -> int {
    match item {
        JobListItem::Main { group_index } => group_index as int,
        JobListItem::SubItem { group_index, .. } => group_index as int,
    }
}

/// Whether an entry names an attempt of `gs`.
pub open spec fn valid_item(item: JobListItem, gs: Seq<JobGroup>) -> bool {
    match item {
        JobListItem::Main { group_index } => group_index < gs.len(),
        JobListItem::SubItem { group_index, attempt_index } => group_index < gs.len()
            && attempt_index < gs[group_index as int].previous@.len(),
    }
}

/// The attempt an entry names.
pub open spec fn item_job(item: JobListItem, gs: Seq<JobGroup>) -> Job {
    match item {
        JobListItem::Main { group_index } => gs[group_index as int].latest,
        JobListItem::SubItem { group_index, attempt_index } => gs[group_index as int].previous@[attempt_index as int],
    }
}

/// Number of attempts over all groups.
pub open spec fn attempt_count(gs: Seq<JobGroup>) -> nat
    decreases gs.len(),
{
    if gs.len() == 0 {
        0
    } else {
        attempt_count(gs.drop_last()) + gs.last()@.len()
    }
}

impl JobListItem {
    /// The flattened list: one entry per attempt, group by group.
    pub fn flatten(groups: &[JobGroup]) -> (r: Vec<JobListItem>)
        ensures
            r@ == flat_of(groups@),
    {
        let mut items: Vec<JobListItem> = Vec::new();
        let mut g: usize = 0;
        while g < groups.len()
            invariant
                g <= groups@.len(),
                items@ == flat_of(groups@.subrange(0, g as int)),
            decreases groups@.len() - g,
        {
            let ghost before = items@;
            items.push(JobListItem::Main { group_index: g });
            let n = groups[g].previous.len();
            let mut a: usize = 0;
            while a < n
                invariant
                    g < groups@.len(),
                    n == groups@[g as int].previous@.len(),
                    a <= n,
                    items@ == before + seq![JobListItem::Main { group_index: g }] + Seq::new(
                        a as nat,
                        |k: int| JobListItem::SubItem { group_index: g, attempt_index: k as usize },
                    ),
                decreases n - a,
            {
                items.push(JobListItem::SubItem { group_index: g, attempt_index: a });
                a = a + 1;
                assert(items@ =~= before + seq![JobListItem::Main { group_index: g }] + Seq::new(
                    a as nat,
                    |k: int| JobListItem::SubItem { group_index: g, attempt_index: k as usize },
                ));
            }
            assert(groups@.subrange(0, g + 1).drop_last() =~= groups@.subrange(0, g as int));
            g = g + 1;
        }
        assert(groups@.subrange(0, g as int) =~= groups@);
        items
    }

    /// The job this entry names.
    pub fn get_job<'a>(&self, groups: &'a [JobGroup]) -> (r: &'a Job)
        requires
            valid_item(*self, groups@),
        ensures
            *r == item_job(*self, groups@),
    {
        match self {
            JobListItem::Main { group_index } => &groups[*group_index].latest,
            JobListItem::SubItem { group_index, attempt_index } => &groups[*group_index].previous[*attempt_index],
        }
    }
}

/// Lengths of the groups fit the machine's index type.
pub open spec fn sizes_fit(gs: Seq<JobGroup>) -> bool {
    gs.len() <= usize::MAX && forall|g: int| 0 <= g < gs.len() ==> (#[trigger] gs[g]).previous@.len() <= usize::MAX
}

proof fn lemma_flat_valid(gs: Seq<JobGroup>)
    requires
        sizes_fit(gs),
    ensures
        flat_of(gs).len() == attempt_count(gs),
        forall|k: int|
            0 <= k < flat_of(gs).len() ==> valid_item(#[trigger] flat_of(gs)[k], gs) && (
            #[trigger] item_job(flat_of(gs)[k], gs)) == gs[group_of(flat_of(gs)[k])]@[
                match flat_of(gs)[k] {
                    JobListItem::Main { .. } => 0int,
                    JobListItem::SubItem { attempt_index, .. } => attempt_index + 1,
                }],
    decreases gs.len(),
{
    if gs.len() > 0 {
        let init = gs.drop_last();
        assert forall|g: int| 0 <= g < init.len() implies (#[trigger] init[g]).previous@.len() <= usize::MAX by {
            assert(init[g] == gs[g]);
        }
        lemma_flat_valid(init);
        let f = flat_of(gs);
        let fi = flat_of(init);
        assert forall|k: int| 0 <= k < f.len() implies valid_item(#[trigger] f[k], gs) && (
        #[trigger] item_job(f[k], gs)) == gs[group_of(f[k])]@[
            match f[k] {
                JobListItem::Main { .. } => 0int,
                JobListItem::SubItem { attempt_index, .. } => attempt_index + 1,
            }] by {
            let n = gs.len() - 1;
            let tail = Seq::new(
                gs.last().previous@.len(),
                |a: int| JobListItem::SubItem { group_index: n as usize, attempt_index: a as usize },
            );
            assert(f == fi + seq![JobListItem::Main { group_index: n as usize }] + tail);
            if k < fi.len() {
                assert(f[k] == fi[k]);
                assert(valid_item(fi[k], init));
                assert(item_job(fi[k], init) == item_job(fi[k], gs));
            } else if k == fi.len() {
                assert(f[k] == JobListItem::Main { group_index: n as usize });
            } else {
                let a = k - fi.len() - 1;
                assert(f[k] == tail[a]);
                assert(gs[n]@[a + 1] == gs[n].previous@[a]);
            }
        }
    }
}

proof fn lemma_attempts_of_jobs(gs: Seq<JobGroup>)
    ensures
        attempt_count(gs) == jobs_of(group_views(gs)).len(),
    decreases gs.len(),
{
    if gs.len() > 0 {
        lemma_attempts_of_jobs(gs.drop_last());
        assert(group_views(gs).drop_last() =~= group_views(gs.drop_last()));
    }
}

/// Grouping `jobs` yields one group per distinct job name and one flattened
/// entry per job, and each flattened entry resolves to a job of its own group,
/// bearing that group's name.
pub proof fn law_grouping_counts(jobs: Seq<Job>, gs: Seq<JobGroup>, now: i64)
    requires
        sizes_fit(gs),
        well_grouped(group_views(gs), now),
        jobs_of(group_views(gs)) == jobs.to_multiset(),
    ensures
        flat_of(gs).len() == jobs.len(),
        gs.len() == jobs.map_values(|j: Job| j.name@).to_set().len(),
        forall|k: int|
            0 <= k < flat_of(gs).len() ==> valid_item(#[trigger] flat_of(gs)[k], gs)
                && item_job(flat_of(gs)[k], gs).name@ == gs[group_of(flat_of(gs)[k])].latest.name@,
{
    let gv = group_views(gs);
    lemma_flat_valid(gs);
    lemma_attempts_of_jobs(gs);
    assert forall|k: int| 0 <= k < flat_of(gs).len() implies valid_item(#[trigger] flat_of(gs)[k], gs)
        && item_job(flat_of(gs)[k], gs).name@ == gs[group_of(flat_of(gs)[k])].latest.name@ by {
        let g = group_of(flat_of(gs)[k]);
        assert(gv[g] == gs[g]@);
        assert(all_named(gv[g], gv[g][0].name@));
    }
    // the group names are distinct and are exactly the job names
    let names = gs.map_values(|g: JobGroup| g.latest.name@);
    assert(names.no_duplicates()) by {
        assert forall|a: int, b: int| 0 <= a < names.len() && 0 <= b < names.len() && a != b implies names[a] != names[b] by {
            assert(gv[a][0] == gs[a].latest);
            assert(gv[b][0] == gs[b].latest);
            if a < b {
                lemma_lex_irrefl(names[a]);
            } else {
                lemma_lex_irrefl(names[b]);
            }
        }
    }
    names.unique_seq_to_set();
    let job_names = jobs.map_values(|j: Job| j.name@);
    lemma_jobs_of_contains(gv);
    assert(names.to_set() =~= job_names.to_set()) by {
        assert forall|n: Seq<char>| names.to_set().contains(n) implies job_names.to_set().contains(n) by {
            let a = choose|a: int| 0 <= a < names.len() && names[a] == n;
            assert(gv[a][0] == gs[a].latest);
            assert(gv[a].contains(gv[a][0]));
            assert(jobs.to_multiset().contains(gs[a].latest));
            let t = choose|t: int| 0 <= t < jobs.len() && jobs[t] == gs[a].latest;
            assert(job_names[t] == n);
        }
        assert forall|n: Seq<char>| job_names.to_set().contains(n) implies names.to_set().contains(n) by {
            let t = choose|t: int| 0 <= t < job_names.len() && job_names[t] == n;
            assert(jobs.contains(jobs[t]));
            assert(jobs_of(gv).contains(jobs[t]));
            let a = choose|a: int| 0 <= a < gv.len() && gv[a].contains(jobs[t]);
            let u = choose|u: int| 0 <= u < gv[a].len() && gv[a][u] == jobs[t];
            assert(all_named(gv[a], gv[a][0].name@));
            assert(gv[a][0] == gs[a].latest);
            assert(names[a] == n);
        }
    }
}

proof fn lemma_flat_groups(gs: Seq<JobGroup>)
    requires
        sizes_fit(gs),
    ensures
        forall|k: int| 0 <= k < flat_of(gs).len() ==> 0 <= #[trigger] group_of(flat_of(gs)[k]) < gs.len(),
        forall|k1: int, k2: int|
            0 <= k1 < k2 < flat_of(gs).len() ==> #[trigger] flat_of(gs)[k1] != #[trigger] flat_of(gs)[k2],
    decreases gs.len(),
{
    if gs.len() > 0 {
        let init = gs.drop_last();
        assert forall|g: int| 0 <= g < init.len() implies (#[trigger] init[g]).previous@.len() <= usize::MAX by {
            assert(init[g] == gs[g]);
        }
        lemma_flat_groups(init);
        let n = gs.len() - 1;
        let fi = flat_of(init);
        let tail = Seq::new(
            gs.last().previous@.len(),
            |a: int| JobListItem::SubItem { group_index: n as usize, attempt_index: a as usize },
        );
        let f = flat_of(gs);
        assert(f == fi + seq![JobListItem::Main { group_index: n as usize }] + tail);
        assert forall|k: int| 0 <= k < f.len() implies 0 <= #[trigger] group_of(f[k]) < gs.len() by {
            if k < fi.len() {
                assert(f[k] == fi[k]);
            } else if k == fi.len() {
            } else {
                assert(f[k] == tail[k - fi.len() - 1]);
            }
        }
        assert forall|k1: int, k2: int| 0 <= k1 < k2 < f.len() implies #[trigger] f[k1] != #[trigger] f[k2] by {
            if k2 < fi.len() {
                assert(f[k1] == fi[k1] && f[k2] == fi[k2]);
            } else if k1 < fi.len() {
                assert(f[k1] == fi[k1]);
                assert(group_of(fi[k1]) < init.len());
                if k2 == fi.len() {
                } else {
                    assert(f[k2] == tail[k2 - fi.len() - 1]);
                }
            } else if k1 == fi.len() {
                assert(f[k2] == tail[k2 - fi.len() - 1]);
            } else {
                assert(f[k1] == tail[k1 - fi.len() - 1]);
                assert(f[k2] == tail[k2 - fi.len() - 1]);
            }
        }
    }
}

/// The flattened entries are pairwise different, so each cursor position
/// names its own attempt, and each names a job of the grouped input.
pub proof fn law_flat_entries_distinct(jobs: Seq<Job>, gs: Seq<JobGroup>, now: i64)
    requires
        sizes_fit(gs),
        well_grouped(group_views(gs), now),
        jobs_of(group_views(gs)) == jobs.to_multiset(),
    ensures
        forall|k1: int, k2: int|
            0 <= k1 < k2 < flat_of(gs).len() ==> #[trigger] flat_of(gs)[k1] != #[trigger] flat_of(gs)[k2],
        forall|k: int| 0 <= k < flat_of(gs).len() ==> jobs.contains(#[trigger] item_job(flat_of(gs)[k], gs)),
{
    lemma_flat_groups(gs);
    lemma_flat_valid(gs);
    lemma_jobs_of_contains(group_views(gs));
    jobs.to_multiset_ensures();
    assert forall|k: int| 0 <= k < flat_of(gs).len() implies jobs.contains(#[trigger] item_job(flat_of(gs)[k], gs)) by {
        let e = flat_of(gs)[k];
        let g = group_of(e);
        let idx = match e {
            JobListItem::Main { .. } => 0int,
            JobListItem::SubItem { attempt_index, .. } => attempt_index + 1,
        };
        assert(valid_item(e, gs));
        assert(item_job(e, gs) == gs[g]@[idx]);
        assert(group_views(gs)[g] == gs[g]@);
        assert(group_views(gs)[g].contains(item_job(e, gs)));
        assert(jobs_of(group_views(gs)).contains(item_job(e, gs)));
    }
}

proof fn lemma_jobs_of_contains(gv: Seq<Seq<Job>>)
    ensures
        forall|j: Job| jobs_of(gv).contains(j) <==> exists|a: int| 0 <= a < gv.len() && #[trigger] gv[a].contains(j),
    decreases gv.len(),
{
    if gv.len() > 0 {
        lemma_jobs_of_contains(gv.drop_last());
        assert forall|j: Job| jobs_of(gv).contains(j) <==> exists|a: int| 0 <= a < gv.len() && #[trigger] gv[a].contains(j) by {
            if jobs_of(gv.drop_last()).contains(j) {
                let a = choose|a: int| 0 <= a < gv.len() - 1 && #[trigger] gv.drop_last()[a].contains(j);
                assert(gv[a] == gv.drop_last()[a]);
            }
            if exists|a: int| 0 <= a < gv.len() && #[trigger] gv[a].contains(j) {
                let a = choose|a: int| 0 <= a < gv.len() && #[trigger] gv[a].contains(j);
                if a < gv.len() - 1 {
                    assert(gv.drop_last()[a] == gv[a]);
                }
            }
        }
    }
}

} // verus!
