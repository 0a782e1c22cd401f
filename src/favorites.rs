//! Favorite-aware ordering: favorites first, then by a secondary key, the same
//! order wherever a list is shown, selected from or linked.

use vstd::prelude::*;
use vstd::string::*;
use vstd::multiset::Multiset;
use crate::text::{concat_str, decimal, decimal_text, lemma_lex_irrefl, lemma_lex_total, lemma_lex_trans, lex_lt, str_lt};

verus! {

broadcast use vstd::seq_lib::group_seq_properties, vstd::multiset::group_multiset_axioms;

/// What an item is ordered by: whether it is a favorite, its secondary key,
/// and its position in the unordered list.
#[derive(Clone, Debug)]
pub struct SortKey {
    pub favorite: bool,
    pub key: String,
    pub index: usize,
}

/// Whether `a` goes strictly before `b`: a favorite before a non-favorite,
/// else the smaller key first.
pub open spec fn before(a: SortKey, b: SortKey) -> bool {
    (a.favorite && !b.favorite) || (a.favorite == b.favorite && lex_lt(a.key@, b.key@))
}

/// No entry goes before an earlier one.
pub open spec fn in_order(s: Seq<SortKey>) -> bool {
    forall|i: int, j: int| 0 <= i < j < s.len() ==> !before(s[j], s[i])
}

/// `x` placed after every entry of `s` that it does not go before.
pub open spec fn insert_ordered(s: Seq<SortKey>, x: SortKey) -> Seq<SortKey>
    decreases s.len(),
{
    if s.len() == 0 {
        seq![x]
    } else if before(x, s.last()) {
        insert_ordered(s.drop_last(), x).push(s.last())
    } else {
        s.push(x)
    }
}

/// The favorite-aware order of `s`: a stable sort by `before`.
pub open spec fn ordered(s: Seq<SortKey>) -> Seq<SortKey>
    decreases s.len(),
{
    if s.len() == 0 {
        Seq::empty()
    } else {
        insert_ordered(ordered(s.drop_last()), s.last())
    }
}

proof fn lemma_before_asym(a: SortKey, b: SortKey)
    ensures
        before(a, b) ==> !before(b, a),
{
    if before(a, b) && a.favorite == b.favorite {
        if lex_lt(b.key@, a.key@) {
            lemma_lex_trans(a.key@, b.key@, a.key@);
            lemma_lex_irrefl(a.key@);
        }
    }
}

proof fn lemma_before_split(x: SortKey, y: SortKey, l: SortKey)
    requires
        before(x, y),
    ensures
        before(x, l) || before(l, y),
{
    if x.favorite == y.favorite && l.favorite == x.favorite {
        if !lex_lt(x.key@, l.key@) {
            if x.key@ == l.key@ {
            } else {
                lemma_lex_total(x.key@, l.key@);
                lemma_lex_trans(l.key@, x.key@, y.key@);
            }
        }
    }
}

proof fn lemma_insert_ordered(s: Seq<SortKey>, x: SortKey)
    requires
        in_order(s),
    ensures
        in_order(insert_ordered(s, x)),
        insert_ordered(s, x).to_multiset() == s.to_multiset().insert(x),
    decreases s.len(),
{
    if s.len() == 0 {
        assert(seq![x] =~= Seq::<SortKey>::empty().push(x));
        assert(Seq::<SortKey>::empty().to_multiset() =~= Multiset::empty());
    } else if before(x, s.last()) {
        let init = s.drop_last();
        let l = s.last();
        assert(in_order(init));
        lemma_insert_ordered(init, x);
        let t = insert_ordered(init, x);
        let r = t.push(l);
        assert(s =~= init.push(l));
        assert forall|i: int, j: int| 0 <= i < j < r.len() implies !before(r[j], r[i]) by {
            if j == r.len() - 1 {
                assert(t.to_multiset().contains(t[i]));
                if t[i] == x {
                    lemma_before_asym(x, l);
                } else {
                    assert(init.to_multiset().contains(t[i]));
                    let k = choose|k: int| 0 <= k < init.len() && init[k] == t[i];
                    assert(s[k] == init[k]);
                }
            }
        }
    } else {
        let r = s.push(x);
        assert forall|i: int, j: int| 0 <= i < j < r.len() implies !before(r[j], r[i]) by {
            if j == r.len() - 1 && i < s.len() - 1 {
                if before(x, s[i]) {
                    lemma_before_split(x, s[i], s.last());
                }
            }
        }
    }
}

/// The order is sorted, and holds the same entries as its input.
pub proof fn law_ordered_sorted(s: Seq<SortKey>)
    ensures
        in_order(ordered(s)),
        ordered(s).to_multiset() == s.to_multiset(),
    decreases s.len(),
{
    if s.len() > 0 {
        law_ordered_sorted(s.drop_last());
        lemma_insert_ordered(ordered(s.drop_last()), s.last());
        assert(s =~= s.drop_last().push(s.last()));
    }
}

/// Every favorite comes before every non-favorite, whatever the favorites are.
pub proof fn law_favorites_first(s: Seq<SortKey>)
    ensures
        forall|i: int, j: int|
            0 <= i < j < ordered(s).len() && (#[trigger] ordered(s)[j]).favorite ==> (
            #[trigger] ordered(s)[i]).favorite,
{
    law_ordered_sorted(s);
    let r = ordered(s);
    assert forall|i: int, j: int| 0 <= i < j < r.len() && (#[trigger] r[j]).favorite implies (#[trigger] r[i]).favorite by {
        assert(!before(r[j], r[i]));
    }
}

proof fn lemma_ordered_of_sorted(t: Seq<SortKey>)
    requires
        in_order(t),
    ensures
        ordered(t) == t,
    decreases t.len(),
{
    if t.len() > 0 {
        let init = t.drop_last();
        assert(in_order(init));
        lemma_ordered_of_sorted(init);
        if init.len() > 0 {
            assert(!before(t.last(), init.last()));
        }
        assert(init.push(t.last()) =~= t);
    }
}

/// Ordering an ordered list changes nothing.
pub proof fn law_order_idempotent(s: Seq<SortKey>)
    ensures
        ordered(ordered(s)) == ordered(s),
{
    law_ordered_sorted(s);
    lemma_ordered_of_sorted(ordered(s));
}

/// Two entries with the same favorite flag, key text and position.
pub open spec fn same_entry(a: SortKey, b: SortKey) -> bool {
    a.favorite == b.favorite && a.key@ == b.key@ && a.index == b.index
}

/// Two entry sequences that agree entry by entry.
pub open spec fn same_entries(a: Seq<SortKey>, b: Seq<SortKey>) -> bool {
    a.len() == b.len() && forall|i: int| 0 <= i < a.len() ==> same_entry(#[trigger] a[i], b[i])
}

proof fn lemma_insert_same(s: Seq<SortKey>, t: Seq<SortKey>, x: SortKey, y: SortKey)
    requires
        same_entries(s, t),
        same_entry(x, y),
    ensures
        same_entries(insert_ordered(s, x), insert_ordered(t, y)),
    decreases s.len(),
{
    if s.len() == 0 {
        assert(same_entry(insert_ordered(s, x)[0], insert_ordered(t, y)[0]));
    } else {
        assert(same_entry(s.last(), t.last()));
        assert(before(x, s.last()) == before(y, t.last()));
        if before(x, s.last()) {
            assert(same_entries(s.drop_last(), t.drop_last())) by {
                assert forall|i: int| 0 <= i < s.drop_last().len() implies same_entry(#[trigger] s.drop_last()[i], t.drop_last()[i]) by {
                    assert(same_entry(s[i], t[i]));
                }
            }
            lemma_insert_same(s.drop_last(), t.drop_last(), x, y);
            let a = insert_ordered(s.drop_last(), x);
            let b = insert_ordered(t.drop_last(), y);
            assert forall|i: int| 0 <= i < a.push(s.last()).len() implies same_entry(#[trigger] a.push(s.last())[i], b.push(t.last())[i]) by {
                if i < a.len() {
                    assert(same_entry(a[i], b[i]));
                }
            }
        } else {
            assert forall|i: int| 0 <= i < s.push(x).len() implies same_entry(#[trigger] s.push(x)[i], t.push(y)[i]) by {
                if i < s.len() {
                    assert(same_entry(s[i], t[i]));
                }
            }
        }
    }
}

/// The order depends only on each entry's favorite flag, key text and
/// position: entries that agree give orders that agree.
pub proof fn law_order_by_entries(a: Seq<SortKey>, b: Seq<SortKey>)
    requires
        same_entries(a, b),
    ensures
        same_entries(ordered(a), ordered(b)),
    decreases a.len(),
{
    if a.len() > 0 {
        assert(same_entries(a.drop_last(), b.drop_last())) by {
            assert forall|i: int| 0 <= i < a.drop_last().len() implies same_entry(#[trigger] a.drop_last()[i], b.drop_last()[i]) by {
                assert(same_entry(a[i], b[i]));
            }
        }
        law_order_by_entries(a.drop_last(), b.drop_last());
        assert(same_entry(a.last(), b.last()));
        lemma_insert_same(ordered(a.drop_last()), ordered(b.drop_last()), a.last(), b.last());
    }
}

fn goes_before(a: &SortKey, b: &SortKey) -> (r: bool)
    ensures
        r == before(*a, *b),
{
    (a.favorite && !b.favorite) || (a.favorite == b.favorite && str_lt(a.key.as_str(), b.key.as_str()))
}

/// Entries in the favorite-aware order: favorites first, then by key,
/// entries that tie keeping their relative order.
pub fn order(entries: Vec<SortKey>) -> (r: Vec<SortKey>)
    ensures
        r@ == ordered(entries@),
{
    let ghost input = entries@;
    let total = entries.len();
    let mut rest = entries;
    let mut out: Vec<SortKey> = Vec::new();
    let mut taken: usize = 0;
    while rest.len() > 0
        invariant
            input.len() == taken + rest@.len(),
            input.len() == total,
            rest@ == input.subrange(taken as int, input.len() as int),
            out@ == ordered(input.subrange(0, taken as int)),
        decreases rest@.len(),
    {
        let x = rest.remove(0);
        let ghost prefix = input.subrange(0, taken + 1);
        assert(prefix.drop_last() =~= input.subrange(0, taken as int));
        let ghost before_out = out@;
        let mut p = out.len();
        assert(before_out.subrange(0, p as int) =~= before_out);
        assert(before_out.subrange(p as int, before_out.len() as int) =~= Seq::<SortKey>::empty());
        while p > 0 && goes_before(&x, &out[p - 1])
            invariant
                p <= out@.len(),
                out@ == before_out,
                insert_ordered(before_out, x) == insert_ordered(before_out.subrange(0, p as int), x)
                    + before_out.subrange(p as int, before_out.len() as int),
            decreases p,
        {
            let ghost sp = before_out.subrange(0, p as int);
            assert(sp.drop_last() =~= before_out.subrange(0, p - 1));
            assert(before_out.subrange(p - 1, before_out.len() as int) =~= seq![sp.last()]
                + before_out.subrange(p as int, before_out.len() as int));
            assert(insert_ordered(sp, x) == insert_ordered(sp.drop_last(), x).push(sp.last()));
            assert(insert_ordered(sp, x) + before_out.subrange(p as int, before_out.len() as int)
                =~= insert_ordered(before_out.subrange(0, p - 1), x) + before_out.subrange(
                p - 1,
                before_out.len() as int,
            ));
            p = p - 1;
        }
        proof {
            let sp = before_out.subrange(0, p as int);
            assert(insert_ordered(sp, x) =~= sp.push(x));
            assert(sp.push(x) + before_out.subrange(p as int, before_out.len() as int) =~= before_out.insert(
                p as int,
                x,
            ));
        }
        out.insert(p, x);
        taken = taken + 1;
    }
    assert(input.subrange(0, taken as int) =~= input);
    out
}

/// The positions, in the unordered list, of the entries in favorite-aware order.
pub fn ordered_indices(entries: Vec<SortKey>) -> (r: Vec<usize>)
    ensures
        r@.len() == entries@.len(),
        forall|i: int| 0 <= i < r@.len() ==> r@[i] == (#[trigger] ordered(entries@)[i]).index,
{
    let sorted = order(entries);
    proof {
        law_ordered_sorted(entries@);
        entries@.to_multiset_ensures();
        sorted@.to_multiset_ensures();
    }
    let mut out: Vec<usize> = Vec::new();
    let mut i: usize = 0;
    while i < sorted.len()
        invariant
            i <= sorted@.len(),
            sorted@ == ordered(entries@),
            out@.len() == i,
            forall|k: int| 0 <= k < i ==> out@[k] == (#[trigger] sorted@[k]).index,
        decreases sorted@.len() - i,
    {
        out.push(sorted[i].index);
        i = i + 1;
    }
    out
}

/// A set of favorite keys, without repetition.
pub struct FavoriteSet {
    keys: Vec<String>,
}

impl View for FavoriteSet {
    type V = Set<Seq<char>>;

    closed spec fn view(&self) -> Set<Seq<char>> {
        self.keys@.map_values(|k: String| k@).to_set()
    }
}

impl FavoriteSet {
    /// No favorites.
    pub fn new() -> (r: Self)
        ensures
            r@ == Set::<Seq<char>>::empty(),
    {
        let r = FavoriteSet { keys: Vec::new() };
        assert(r@ =~= Set::<Seq<char>>::empty());
        r
    }

    /// Whether `key` is a favorite.
    pub fn contains(&self, key: &str) -> (r: bool)
        ensures
            r == self@.contains(key@),
    {
        let ghost views = self.keys@.map_values(|k: String| k@);
        let mut i: usize = 0;
        while i < self.keys.len()
            invariant
                i <= self.keys@.len(),
                views == self.keys@.map_values(|k: String| k@),
                forall|j: int| 0 <= j < i ==> views[j] != key@,
            decreases self.keys@.len() - i,
        {
            if self.keys[i].as_str().unicode_len() == key.unicode_len() && str_eq(self.keys[i].as_str(), key) {
                assert(views[i as int] == key@);
                return true;
            }
            i = i + 1;
        }
        false
    }

    /// Adds `key`.
    pub fn insert(&mut self, key: String)
        ensures
            final(self)@ == old(self)@.insert(key@),
    {
        if !self.contains(key.as_str()) {
            let ghost k = key@;
            self.keys.push(key);
            assert(self.keys@.map_values(|k: String| k@) =~= old(self).keys@.map_values(|k: String| k@).push(k));
            assert(self@ =~= old(self)@.insert(k));
        } else {
            assert(self@ =~= old(self)@.insert(key@));
        }
    }

    /// Removes `key`.
    pub fn remove(&mut self, key: &str)
        ensures
            final(self)@ == old(self)@.remove(key@),
    {
        let mut kept: Vec<String> = Vec::new();
        let mut i: usize = 0;
        while i < self.keys.len()
            invariant
                i <= self.keys@.len(),
                self.keys@ == old(self).keys@,
                kept@.map_values(|k: String| k@).to_set() =~= self.keys@.subrange(0, i as int).map_values(
                    |k: String| k@,
                ).to_set().remove(key@),
            decreases self.keys@.len() - i,
        {
            let ghost prev = self.keys@.subrange(0, i as int).map_values(|k: String| k@);
            assert(self.keys@.subrange(0, i + 1).map_values(|k: String| k@) =~= prev.push(self.keys@[i as int]@));
            proof {
                prev.lemma_push_to_set_commute(self.keys@[i as int]@);
            }
            if !str_eq(self.keys[i].as_str(), key) {
                let ghost kv = self.keys@[i as int]@;
                let ghost kept_before = kept@.map_values(|k: String| k@);
                kept.push(self.keys[i].clone());
                assert(kept@.map_values(|k: String| k@) =~= kept_before.push(kv));
                proof {
                    kept_before.lemma_push_to_set_commute(kv);
                }
            }
            i = i + 1;
        }
        assert(self.keys@.subrange(0, i as int) =~= self.keys@);
        self.keys = kept;
    }

    /// Adds `key` if absent, removes it if present; returns whether it is now a
    /// favorite.
    pub fn toggle(&mut self, key: &str) -> (r: bool)
        ensures
            r == !old(self)@.contains(key@),
            r ==> final(self)@ == old(self)@.insert(key@),
            !r ==> final(self)@ == old(self)@.remove(key@),
    {
        if self.contains(key) {
            self.remove(key);
            false
        } else {
            self.insert(String::from_str(key));
            true
        }
    }

    /// The favorite keys.
    pub fn keys(&self) -> (r: &Vec<String>)
        ensures
            r@.map_values(|k: String| k@).to_set() == self@,
    {
        &self.keys
    }

    /// A set holding the given keys.
    pub fn from_keys(keys: Vec<String>) -> (r: Self)
        ensures
            r@ == keys@.map_values(|k: String| k@).to_set(),
    {
        let mut s = FavoriteSet::new();
        let mut i: usize = 0;
        while i < keys.len()
            invariant
                i <= keys@.len(),
                s@ =~= keys@.subrange(0, i as int).map_values(|k: String| k@).to_set(),
            decreases keys@.len() - i,
        {
            assert(keys@.subrange(0, i + 1).map_values(|k: String| k@) =~= keys@.subrange(0, i as int).map_values(
                |k: String| k@,
            ).push(keys@[i as int]@));
            s.insert(keys[i].clone());
            i = i + 1;
        }
        assert(keys@.subrange(0, i as int) =~= keys@);
        s
    }
}

/// Whether two strings are equal.
pub fn str_eq(a: &str, b: &str) -> (r: bool)
    ensures
        r == (a@ == b@),
{
    let n = a.unicode_len();
    if n != b.unicode_len() {
        return false;
    }
    let mut i: usize = 0;
    while i < n
        invariant
            n == a@.len(),
            n == b@.len(),
            i <= n,
            a@.subrange(0, i as int) == b@.subrange(0, i as int),
        decreases n - i,
    {
        if a.get_char(i) != b.get_char(i) {
            return false;
        }
        assert(a@.subrange(0, i + 1) =~= a@.subrange(0, i as int).push(a@[i as int]));
        assert(b@.subrange(0, i + 1) =~= b@.subrange(0, i as int).push(b@[i as int]));
        i = i + 1;
    }
    assert(a@ =~= a@.subrange(0, n as int));
    assert(b@ =~= b@.subrange(0, n as int));
    true
}

/// Favorite key of a repository: `owner/repo`.
pub fn repo_key(owner: &str, repo: &str) -> (r: String)
    ensures
        r@ == owner@ + "/"@ + repo@,
{
    let mut s = concat_str(owner, "/");
    s.append(repo);
    s
}

/// Favorite key of a workflow: `owner/repo/workflow_id`.
pub fn workflow_key(owner: &str, repo: &str, workflow_id: u64) -> (r: String)
    ensures
        r@ == owner@ + "/"@ + repo@ + "/"@ + decimal(workflow_id as nat),
{
    let mut s = repo_key(owner, repo);
    s.append("/");
    let id = decimal_text(workflow_id);
    s.append(id.as_str());
    s
}

/// Favorite key of a runner: `owner/repo/runner_name`.
pub fn runner_key(owner: &str, repo: &str, runner_name: &str) -> (r: String)
    ensures
        r@ == owner@ + "/"@ + repo@ + "/"@ + runner_name@,
{
    let mut s = repo_key(owner, repo);
    s.append("/");
    s.append(runner_name);
    s
}

} // verus!
