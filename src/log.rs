//! Log text: its lines, the anchor/cursor line selection, search over lines and
//! excerpts of a selected range.

use vstd::prelude::*;
use vstd::string::*;

verus! {

/// A line with one trailing carriage return removed.
pub open spec fn strip_cr(l: Seq<char>) -> Seq<char> {
    if l.len() > 0 && l.last() == '\r' {
        l.drop_last()
    } else {
        l
    }
}

/// Lines finished by a newline so far, and the unfinished rest.
pub open spec fn scan_lines(s: Seq<char>) -> (Seq<Seq<char>>, Seq<char>)
    decreases s.len(),
{
    if s.len() == 0 {
        (Seq::empty(), Seq::empty())
    } else {
        let (done, cur) = scan_lines(s.drop_last());
        if s.last() == '\n' {
            (done.push(strip_cr(cur)), Seq::empty())
        } else {
            (done, cur.push(s.last()))
        }
    }
}

/// The lines of a text: split at each newline, a carriage return before the
/// newline removed, and no empty line after a final newline.
pub open spec fn lines_of(s: Seq<char>) -> Seq<Seq<char>> {
    let (done, cur) = scan_lines(s);
    if cur.len() == 0 {
        done
    } else {
        done.push(cur)
    }
}

/// The lines of `text`.
pub fn split_lines(text: &str) -> (r: Vec<String>)
    ensures
        r@.len() == lines_of(text@).len(),
        forall|i: int| 0 <= i < r@.len() ==> (#[trigger] r@[i])@ == lines_of(text@)[i],
{
    let n = text.unicode_len();
    let mut done: Vec<String> = Vec::new();
    let mut cur = String::new();
    let mut i: usize = 0;
    while i < n
        invariant
            n == text@.len(),
            i <= n,
            done@.len() == scan_lines(text@.subrange(0, i as int)).0.len(),
            forall|j: int|
                0 <= j < done@.len() ==> (#[trigger] done@[j])@ == scan_lines(text@.subrange(0, i as int)).0[j],
            cur@ == scan_lines(text@.subrange(0, i as int)).1,
        decreases n - i,
    {
        let c = text.get_char(i);
        let ghost prev = text@.subrange(0, i as int);
        assert(text@.subrange(0, i + 1).drop_last() =~= prev);
        if c == '\n' {
            let mut line = cur;
            let len = line.unicode_len();
            if len > 0 && line.as_str().get_char(len - 1) == '\r' {
                line = String::from_str(line.as_str().substring_char(0, len - 1));
                assert(line@ =~= strip_cr(scan_lines(prev).1));
            }
            done.push(line);
            cur = String::new();
        } else {
            cur.push(c);
        }
        i = i + 1;
    }
    assert(text@.subrange(0, n as int) =~= text@);
    if cur.unicode_len() > 0 {
        done.push(cur);
    }
    done
}

/// Number of lines of `text`.
pub fn line_count(text: &str) -> (r: usize)
    ensures
        r == lines_of(text@).len(),
{
    split_lines(text).len()
}

/// Whether `q` occurs in `s` at position `k`.
pub open spec fn occurs_at(s: Seq<char>, q: Seq<char>, k: int) -> bool {
    0 <= k && k + q.len() <= s.len() && s.subrange(k, k + q.len()) == q
}

/// Whether `q` occurs in `s`.
pub open spec fn contains(s: Seq<char>, q: Seq<char>) -> bool {
    exists|k: int| occurs_at(s, q, k)
}

/// Whether `q` occurs in `s`.
pub fn str_contains(s: &str, q: &str) -> (r: bool)
    ensures
        r == contains(s@, q@),
{
    let n = s.unicode_len();
    let m = q.unicode_len();
    if m > n {
        assert forall|k: int| !occurs_at(s@, q@, k) by {}
        return false;
    }
    let mut k: usize = 0;
    loop
        invariant
            n == s@.len(),
            m == q@.len(),
            m <= n,
            k <= n - m,
            forall|j: int| 0 <= j < k ==> !occurs_at(s@, q@, j),
        decreases n - m - k,
    {
        let mut t: usize = 0;
        let mut same = true;
        assert(s@.subrange(k as int, k as int) =~= q@.subrange(0, 0));
        while t < m
            invariant
                n == s@.len(),
                m == q@.len(),
                k + m <= n,
                t <= m,
                same == (s@.subrange(k as int, k + t) == q@.subrange(0, t as int)),
            decreases m - t,
        {
            let a = s.get_char(k + t);
            let b = q.get_char(t);
            proof {
                if same {
                    if a == b {
                        assert(s@.subrange(k as int, k + t + 1) =~= s@.subrange(k as int, k + t).push(a));
                        assert(q@.subrange(0, t + 1) =~= q@.subrange(0, t as int).push(b));
                    } else {
                        assert(s@.subrange(k as int, k + t + 1)[t as int] != q@.subrange(0, t + 1)[t as int]);
                    }
                } else {
                    if s@.subrange(k as int, k + t + 1) == q@.subrange(0, t + 1) {
                        assert(s@.subrange(k as int, k + t) =~= s@.subrange(k as int, k + t + 1).drop_last());
                        assert(q@.subrange(0, t as int) =~= q@.subrange(0, t + 1).drop_last());
                    }
                }
            }
            same = same && a == b;
            t = t + 1;
        }
        assert(q@.subrange(0, m as int) =~= q@);
        if same {
            assert(occurs_at(s@, q@, k as int));
            return true;
        }
        if k == n - m {
            assert forall|j: int| !occurs_at(s@, q@, j) by {
                if 0 <= j && j < k {
                }
            }
            return false;
        }
        k = k + 1;
    }
}

/// A name for `str::to_lowercase`: the lower-case form that the standard
/// library's Unicode tables give.
pub uninterp spec fn lower_of(s: Seq<char>) -> Seq<char>;

/// Relies on `str::to_lowercase`, whose result depends on the text alone.
#[verifier::external_body]
fn lowercase(s: &str) -> (r: String)
    ensures
        r@ == lower_of(s@),
{
    s.to_lowercase()
}

/// Indices, below `n`, of the lines that contain `q`, in increasing order.
pub open spec fn match_indices(lines: Seq<Seq<char>>, q: Seq<char>, n: int) -> Seq<usize>
    decreases n,
{
    if n <= 0 {
        Seq::empty()
    } else if contains(lines[n - 1], q) {
        match_indices(lines, q, n - 1).push((n - 1) as usize)
    } else {
        match_indices(lines, q, n - 1)
    }
}

/// Each match index names a line that contains the query, and every such line
/// is listed, in increasing order.
pub proof fn law_matches_are_exact(lines: Seq<Seq<char>>, q: Seq<char>, n: int)
    requires
        0 <= n <= lines.len(),
        n <= usize::MAX + 1,
    ensures
        forall|i: int|
            0 <= i < match_indices(lines, q, n).len() ==> (#[trigger] match_indices(lines, q, n)[i]) < n
                && contains(lines[match_indices(lines, q, n)[i] as int], q),
        forall|i: int, j: int|
            0 <= i < j < match_indices(lines, q, n).len() ==> match_indices(lines, q, n)[i]
                < match_indices(lines, q, n)[j],
        forall|l: int| 0 <= l < n && contains(lines[l], q) ==> match_indices(lines, q, n).contains(l as usize),
    decreases n,
{
    if n > 0 {
        law_matches_are_exact(lines, q, n - 1);
        let prev = match_indices(lines, q, n - 1);
        if contains(lines[n - 1], q) {
            assert forall|l: int| 0 <= l < n && contains(lines[l], q) implies match_indices(
                lines,
                q,
                n,
            ).contains(l as usize) by {
                if l < n - 1 {
                    let k = choose|k: int| 0 <= k < prev.len() && prev[k] == l as usize;
                    assert(match_indices(lines, q, n)[k] == l as usize);
                } else {
                    assert(match_indices(lines, q, n)[prev.len() as int] == l as usize);
                }
            }
        }
    }
}

/// Indices of the lines that contain `query`: with both already lower-cased,
/// the case-insensitive matches.
pub fn matching_lines(lines: &Vec<String>, query: &str) -> (r: Vec<usize>)
    ensures
        r@ == match_indices(lines@.map_values(|l: String| l@), query@, lines@.len() as int),
{
    let ghost views = lines@.map_values(|l: String| l@);
    let mut out: Vec<usize> = Vec::new();
    let mut i: usize = 0;
    while i < lines.len()
        invariant
            views == lines@.map_values(|l: String| l@),
            i <= lines@.len(),
            out@ == match_indices(views, query@, i as int),
        decreases lines@.len() - i,
    {
        if str_contains(lines[i].as_str(), query) {
            out.push(i);
        }
        i = i + 1;
    }
    out
}

/// The lines of a text, each lower-cased.
pub open spec fn lowered_lines(text: Seq<char>) -> Seq<Seq<char>> {
    lines_of(text).map_values(|l: Seq<char>| lower_of(l))
}

/// The 0-indexed lines of `text` that contain `query`, ignoring case; none
/// for an empty query.
pub fn search_lines(text: &str, query: &str) -> (r: Vec<usize>)
    ensures
        query@.len() == 0 ==> r@.len() == 0,
        query@.len() > 0 ==> r@ == match_indices(
            lowered_lines(text@),
            lower_of(query@),
            lines_of(text@).len() as int,
        ),
{
    if query.unicode_len() == 0 {
        return Vec::new();
    }
    let lines = split_lines(text);
    let mut lowered: Vec<String> = Vec::new();
    let mut i: usize = 0;
    while i < lines.len()
        invariant
            i <= lines@.len(),
            lowered@.len() == i,
            forall|j: int| 0 <= j < i ==> (#[trigger] lowered@[j])@ == lower_of(lines@[j]@),
        decreases lines@.len() - i,
    {
        lowered.push(lowercase(lines[i].as_str()));
        i = i + 1;
    }
    let q = lowercase(query);
    let r = matching_lines(&lowered, q.as_str());
    assert(lowered@.map_values(|l: String| l@) =~= lowered_lines(text@));
    r
}

/// The lines `start..=end` of a text (those that exist), joined by newlines.
pub open spec fn excerpt_of(lines: Seq<Seq<char>>, start: int, end: int) -> Seq<char>
    decreases end - start,
{
    if start > end || start >= lines.len() {
        Seq::empty()
    } else if start == end || start + 1 >= lines.len() {
        lines[start]
    } else {
        lines[start] + seq!['\n'] + excerpt_of(lines, start + 1, end)
    }
}

/// The lines `start..=end` of `text`, joined by newlines.
pub fn excerpt(text: &str, start: usize, end: usize) -> (r: String)
    ensures
        r@ == excerpt_of(lines_of(text@), start as int, end as int),
{
    let lines = split_lines(text);
    let ghost ls = lines_of(text@);
    if start > end || start >= lines.len() {
        return String::new();
    }
    let last = if end < lines.len() - 1 { end } else { lines.len() - 1 };
    let mut out = lines[last].clone();
    let mut k = last;
    while k > start
        invariant
            start <= k <= last,
            last < lines@.len(),
            last <= end,
            ls.len() == lines@.len(),
            forall|i: int| 0 <= i < lines@.len() ==> (#[trigger] lines@[i])@ == ls[i],
            out@ == excerpt_of(ls, k as int, end as int),
            last == end || last == lines@.len() - 1,
        decreases k - start,
    {
        k = k - 1;
        let mut s = lines[k].clone();
        s.push('\n');
        s.append(out.as_str());
        out = s;
    }
    out
}

/// Cursor line after moving up one line.
pub open spec fn up_cursor(cursor: usize) -> usize {
    if cursor > 0 { (cursor - 1) as usize } else { cursor }
}

/// The last line index of a text of `count` lines (0 when empty).
pub open spec fn last_line(count: usize) -> usize {
    if count > 0 { (count - 1) as usize } else { 0 }
}

/// Anchor and cursor after moving the cursor to `cursor`: a move that does not
/// extend the selection brings the anchor along.
pub open spec fn moved(anchor: usize, cursor: usize, extend: bool) -> (usize, usize) {
    if extend { (anchor, cursor) } else { (cursor, cursor) }
}

/// The selection as an inclusive range of lines: (smaller, larger) end.
pub fn selection_range(anchor: usize, cursor: usize) -> (r: (usize, usize))
    ensures
        r.0 <= r.1,
        r.0 == anchor || r.0 == cursor,
        r.1 == anchor || r.1 == cursor,
        r.0 <= anchor && r.0 <= cursor,
        r.1 >= anchor && r.1 >= cursor,
{
    if anchor <= cursor { (anchor, cursor) } else { (cursor, anchor) }
}

/// Cursor line after moving down one line among `count` lines: it stays on
/// the last.
pub open spec fn down_cursor(cursor: usize, count: usize) -> usize {
    if cursor < last_line(count) { (cursor + 1) as usize } else { cursor }
}

/// Moves the cursor up one line, staying on the first; without `extend` the
/// anchor joins the cursor.
pub fn selection_up(anchor: usize, cursor: usize, extend: bool) -> (r: (usize, usize))
    ensures
        r == moved(anchor, up_cursor(cursor), extend),
{
    let c = if cursor > 0 { cursor - 1 } else { cursor };
    selection_to(anchor, c, extend)
}

/// Moves the cursor down one line, staying on the last of `count` lines;
/// without `extend` the anchor joins the cursor.
pub fn selection_down(anchor: usize, cursor: usize, count: usize, extend: bool) -> (r: (usize, usize))
    ensures
        r == moved(anchor, down_cursor(cursor, count), extend),
{
    let max = if count > 0 { count - 1 } else { 0 };
    let c = if cursor < max { cursor + 1 } else { cursor };
    selection_to(anchor, c, extend)
}

/// Moves the cursor to `target`.
pub fn selection_to(anchor: usize, target: usize, extend: bool) -> (r: (usize, usize))
    ensures
        r == moved(anchor, target, extend),
{
    if extend { (anchor, target) } else { (target, target) }
}

/// Moves the cursor up by `page` lines, stopping at the first.
pub fn selection_page_up(anchor: usize, cursor: usize, page: usize, extend: bool) -> (r: (usize, usize))
    ensures
        r == moved(anchor, if cursor >= page { (cursor - page) as usize } else { 0usize }, extend),
{
    let c = if cursor >= page { cursor - page } else { 0 };
    selection_to(anchor, c, extend)
}

/// Moves the cursor down by `page` lines, stopping at the last of `count`.
pub fn selection_page_down(anchor: usize, cursor: usize, count: usize, page: usize, extend: bool) -> (r: (
    usize,
    usize,
))
    ensures
        r == moved(
            anchor,
            if cursor + page <= last_line(count) { (cursor + page) as usize } else { last_line(count) },
            extend,
        ),
{
    let max = if count > 0 { count - 1 } else { 0 };
    let c = if cursor <= max && max - cursor >= page { cursor + page } else { max };
    selection_to(anchor, c, extend)
}

/// A move that does not extend the selection leaves anchor and cursor together.
pub proof fn law_plain_move_collapses(anchor: usize, cursor: usize)
    ensures
        moved(anchor, cursor, false).0 == moved(anchor, cursor, false).1,
{
}

} // verus!
