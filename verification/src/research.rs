//! Paging through the durable results of a research run. A run keeps its
//! occurrences in numbered page files; a request for `limit` occurrences from
//! position `cursor` reads a stretch of those pages.
use vstd::prelude::*;
use crate::order::{key_less, key_lt, lemma_key_lt_irreflexive, lemma_key_lt_total, lemma_key_lt_transitive};
use crate::strings::{chars_of, str_eq};

verus! {

/// The most occurrences served at once.
pub const MAX_RESEARCH_PAGE: usize = 200;

/// The number of occurrences served for a requested limit: at least one, at most the page limit.
pub open spec fn served_limit(limit: usize) -> int {
    if limit < 1 { 1 } else if limit > MAX_RESEARCH_PAGE { MAX_RESEARCH_PAGE as int } else { limit as int }
}

/// How many occurrences the first `i` page files hold.
pub open spec fn prefix_count(pages: Seq<usize>, i: int) -> int
    decreases i,
{
    if i <= 0 || i > pages.len() {
        0
    } else {
        prefix_count(pages, i - 1) + pages[i - 1]
    }
}

/// How many occurrences a run holds in all.
pub open spec fn total_count(pages: Seq<usize>) -> int {
    prefix_count(pages, pages.len() as int)
}

/// How many occurrences from `cursor` on lie before page `i`, up to the limit.
pub open spec fn covered(pages: Seq<usize>, i: int, cursor: int, lim: int) -> int {
    let before = prefix_count(pages, i) - cursor;
    if before < 0 { 0 } else if before > lim { lim } else { before }
}

/// What is read of page `i`: `None` when it is not read, else how many of its
/// occurrences are skipped and how many are taken. A page is read when it
/// ends after the cursor while the limit is not yet reached.
pub open spec fn page_read(pages: Seq<usize>, i: int, cursor: int, lim: int) -> Option<(usize, usize)> {
    if prefix_count(pages, i + 1) > cursor && covered(pages, i, cursor, lim) < lim {
        let skip = if cursor > prefix_count(pages, i) { cursor - prefix_count(pages, i) } else { 0 };
        let take = if pages[i] - skip < lim - covered(pages, i, cursor, lim) {
            pages[i] - skip
        } else {
            lim - covered(pages, i, cursor, lim)
        };
        Some((skip as usize, take as usize))
    } else {
        None
    }
}

/// How many occurrences a plan takes from its first `i` pages.
pub open spec fn planned(plan: Seq<Option<(usize, usize)>>, i: int) -> int
    decreases i,
{
    if i <= 0 || i > plan.len() {
        0
    } else {
        planned(plan, i - 1) + match plan[i - 1] {
            Some(r) => r.1 as int,
            None => 0,
        }
    }
}

proof fn lemma_prefix_monotone(pages: Seq<usize>, i: int, j: int)
    requires
        0 <= i <= j <= pages.len(),
    ensures
        0 <= prefix_count(pages, i) <= prefix_count(pages, j),
    decreases j,
{
    if j > 0 {
        if i < j {
            lemma_prefix_monotone(pages, i, j - 1);
        } else {
            lemma_prefix_monotone(pages, j - 1, j - 1);
        }
    }
}

proof fn lemma_planned_push(s: Seq<Option<(usize, usize)>>, x: Option<(usize, usize)>, i: int)
    requires
        0 <= i <= s.len(),
    ensures
        planned(s.push(x), i) == planned(s, i),
    decreases i,
{
    if i > 0 {
        lemma_planned_push(s, x, i - 1);
    }
}

/// Plans the reads of one page of occurrences: for each page file, whether
/// it is read and what is skipped and taken of it.
pub fn page_plan(pages: &Vec<usize>, cursor: usize, limit: usize) -> (r: Vec<Option<(usize, usize)>>)
    requires
        total_count(pages@) <= usize::MAX,
    ensures
        r@.len() == pages@.len(),
        forall|i: int| 0 <= i < pages@.len() ==> r@[i] == page_read(pages@, i, cursor as int, served_limit(limit)),
        planned(r@, r@.len() as int) == covered(pages@, pages@.len() as int, cursor as int, served_limit(limit)),
{
    let lim: usize = if limit < 1 { 1 } else if limit > MAX_RESEARCH_PAGE { MAX_RESEARCH_PAGE } else { limit };
    let mut r: Vec<Option<(usize, usize)>> = Vec::new();
    let mut offset: usize = 0;
    let mut taken: usize = 0;
    let mut i: usize = 0;
    while i < pages.len()
        invariant
            0 <= i <= pages@.len(),
            lim == served_limit(limit),
            total_count(pages@) <= usize::MAX,
            r@.len() == i,
            offset == prefix_count(pages@, i as int),
            taken == covered(pages@, i as int, cursor as int, lim as int),
            planned(r@, i as int) == taken,
            forall|j: int| 0 <= j < i ==> r@[j] == page_read(pages@, j, cursor as int, lim as int),
        decreases pages@.len() - i,
    {
        proof {
            lemma_prefix_monotone(pages@, i as int + 1, pages@.len() as int);
        }
        let count = pages[i];
        let next = offset + count;
        assert(next == prefix_count(pages@, i as int + 1));
        let read = if next > cursor && taken < lim {
            let skip = if cursor > offset { cursor - offset } else { 0 };
            let room = lim - taken;
            let take = if count - skip < room { count - skip } else { room };
            taken = taken + take;
            Some((skip, take))
        } else {
            None
        };
        let ghost before = r@;
        r.push(read);
        proof {
            lemma_planned_push(before, read, i as int);
        }
        offset = next;
        i += 1;
    }
    r
}

/// How many occurrences a run holds in all.
pub fn total_occurrences(pages: &Vec<usize>) -> (r: usize)
    requires
        total_count(pages@) <= usize::MAX,
    ensures
        r == total_count(pages@),
{
    let mut total: usize = 0;
    let mut i: usize = 0;
    while i < pages.len()
        invariant
            0 <= i <= pages@.len(),
            total_count(pages@) <= usize::MAX,
            total == prefix_count(pages@, i as int),
        decreases pages@.len() - i,
    {
        proof {
            lemma_prefix_monotone(pages@, i as int + 1, pages@.len() as int);
        }
        total = total + pages[i];
        i += 1;
    }
    total
}

/// Where the next page starts, when occurrences remain after those served.
pub fn next_cursor(cursor: usize, served: usize, total: usize) -> (r: Option<u64>)
    requires
        cursor + served <= u64::MAX,
    ensures
        r == (if cursor + served < total { Some((cursor + served) as u64) } else { None::<u64> }),
{
    let next = cursor as u64 + served as u64;
    if (next as u128) < (total as u128) { Some(next) } else { None }
}

/// The review status of an occurrence a human judgement is recorded for:
/// `confirmed` while the judged text is unchanged, else `needs_review`.
/// Occurrences without a judgement keep the status they were stored with.
pub fn occurrence_status(judged: bool, unchanged: bool) -> (r: Option<&'static str>)
    ensures
        !judged ==> r is None,
        judged && unchanged ==> (r matches Some(s) && s@ == "confirmed"@),
        judged && !unchanged ==> (r matches Some(s) && s@ == "needs_review"@),
{
    if !judged {
        None
    } else if unchanged {
        Some("confirmed")
    } else {
        Some("needs_review")
    }
}

/// Occurrences still waiting for a judgement.
pub fn pending_count(total: usize, confirmed: usize) -> (r: usize)
    ensures
        r == (if confirmed <= total { total - confirmed } else { 0 }),
{
    total.saturating_sub(confirmed)
}

pub open spec fn in_group(groups: Seq<Option<String>>, group: Seq<char>, i: int) -> bool {
    groups[i] matches Some(g) && g@ == group
}

/// How many of the first `i` occurrences are judged into the group.
pub open spec fn rank(groups: Seq<Option<String>>, group: Seq<char>, i: int) -> int
    decreases i,
{
    if i <= 0 || i > groups.len() {
        0
    } else {
        rank(groups, group, i - 1) + if in_group(groups, group, i - 1) { 1int } else { 0int }
    }
}

proof fn lemma_rank_bound(groups: Seq<Option<String>>, group: Seq<char>, i: int)
    requires
        0 <= i <= groups.len(),
    ensures
        0 <= rank(groups, group, i) <= i,
    decreases i,
{
    if i > 0 {
        lemma_rank_bound(groups, group, i - 1);
    }
}

/// The positions of the occurrences judged into `group` whose rank among
/// those occurrences lies in `cursor .. cursor + limit` (the limit clamped
/// as for any page), in order, and how many occurrences the group holds.
pub fn group_window(groups: &Vec<Option<String>>, group: &str, cursor: usize, limit: usize) -> (r: (Vec<usize>, usize))
    ensures
        r.1 == rank(groups@, group@, groups@.len() as int),
        forall|k: int| 0 <= k < r.0@.len() ==> {
            let i = #[trigger] r.0@[k] as int;
            &&& 0 <= i < groups@.len()
            &&& in_group(groups@, group@, i)
            &&& rank(groups@, group@, i) == cursor + k
        },
        r.0@.len() == ({
            let available = rank(groups@, group@, groups@.len() as int) - cursor;
            if available < 0 { 0 } else if available > served_limit(limit) { served_limit(limit) } else { available }
        }),
{
    let lim: usize = if limit < 1 { 1 } else if limit > MAX_RESEARCH_PAGE { MAX_RESEARCH_PAGE } else { limit };
    let mut chosen: Vec<usize> = Vec::new();
    let mut total: usize = 0;
    let mut i: usize = 0;
    while i < groups.len()
        invariant
            0 <= i <= groups@.len(),
            lim == served_limit(limit),
            total == rank(groups@, group@, i as int),
            chosen@.len() == ({
                let available = total - cursor;
                if available < 0 { 0 } else if available > lim { lim as int } else { available }
            }),
            forall|k: int| 0 <= k < chosen@.len() ==> {
                let j = #[trigger] chosen@[k] as int;
                &&& 0 <= j < i
                &&& in_group(groups@, group@, j)
                &&& rank(groups@, group@, j) == cursor + k
            },
        decreases groups@.len() - i,
    {
        proof {
            lemma_rank_bound(groups@, group@, i as int);
        }
        let matches = match &groups[i] {
            Some(g) => str_eq(g.as_str(), group),
            None => false,
        };
        if matches {
            if total >= cursor && chosen.len() < lim {
                chosen.push(i);
            }
            total = total + 1;
        }
        i += 1;
    }
    (chosen, total)
}

/// A group in a run's summary: the judgements with one group name and
/// strategy, and how many there are.
#[derive(Clone, Debug, PartialEq, Eq)]
pub struct GroupCount {
    pub name: String,
    pub strategy: String,
    pub count: usize,
}

/// A judgement's group and strategy as plain text.
pub open spec fn judgement_key(j: (String, String)) -> (Seq<char>, Seq<char>) {
    (j.0@, j.1@)
}

pub open spec fn group_key(g: GroupCount) -> (Seq<char>, Seq<char>) {
    (g.name@, g.strategy@)
}

/// Groups are listed by name, then by strategy, each in string order.
pub open spec fn pair_lt(a: (Seq<char>, Seq<char>), b: (Seq<char>, Seq<char>)) -> bool {
    key_lt(a.0, b.0) || (a.0 == b.0 && key_lt(a.1, b.1))
}

/// How many of the first `n` judgements have the key.
pub open spec fn key_count(js: Seq<(String, String)>, key: (Seq<char>, Seq<char>), n: int) -> int
    decreases n,
{
    if n <= 0 || n > js.len() {
        0
    } else {
        key_count(js, key, n - 1) + if judgement_key(js[n - 1]) == key { 1int } else { 0int }
    }
}

/// The summary groups of the first `n` judgements: each key that occurs,
/// once, with how often it occurs, in increasing key order.
pub open spec fn groups_of(js: Seq<(String, String)>, gs: Seq<GroupCount>, n: int) -> bool {
    &&& forall|a: int, b: int| 0 <= a < b < gs.len() ==> pair_lt(group_key(#[trigger] gs[a]), group_key(#[trigger] gs[b]))
    &&& forall|k: int| 0 <= k < gs.len() ==> (#[trigger] gs[k]).count == key_count(js, group_key(gs[k]), n) && gs[k].count > 0
    &&& forall|i: int| 0 <= i < n ==> exists|k: int| 0 <= k < gs.len() && group_key(#[trigger] gs[k]) == judgement_key(#[trigger] js[i])
}

proof fn lemma_pair_lt_irreflexive(a: (Seq<char>, Seq<char>))
    ensures
        !pair_lt(a, a),
{
    lemma_key_lt_irreflexive(a.0);
    lemma_key_lt_irreflexive(a.1);
}

proof fn lemma_pair_lt_transitive(a: (Seq<char>, Seq<char>), b: (Seq<char>, Seq<char>), c: (Seq<char>, Seq<char>))
    requires
        pair_lt(a, b),
        pair_lt(b, c),
    ensures
        pair_lt(a, c),
{
    if key_lt(a.0, b.0) && key_lt(b.0, c.0) {
        lemma_key_lt_transitive(a.0, b.0, c.0);
    } else if key_lt(a.0, b.0) {
    } else if key_lt(b.0, c.0) {
    } else {
        lemma_key_lt_transitive(a.1, b.1, c.1);
    }
}

proof fn lemma_pair_lt_total(a: (Seq<char>, Seq<char>), b: (Seq<char>, Seq<char>))
    requires
        a != b,
    ensures
        pair_lt(a, b) || pair_lt(b, a),
{
    if a.0 != b.0 {
        lemma_key_lt_total(a.0, b.0);
    } else {
        assert(a.1 != b.1);
        lemma_key_lt_total(a.1, b.1);
    }
}

proof fn lemma_key_count_bound(js: Seq<(String, String)>, key: (Seq<char>, Seq<char>), n: int)
    requires
        0 <= n <= js.len(),
    ensures
        0 <= key_count(js, key, n) <= n,
    decreases n,
{
    if n > 0 {
        lemma_key_count_bound(js, key, n - 1);
    }
}

fn pair_less(a: &GroupCount, name: &str, strategy: &str) -> (r: bool)
    ensures
        r == pair_lt(group_key(*a), (name@, strategy@)),
{
    let an = chars_of(a.name.as_str());
    let bn = chars_of(name);
    if key_less(&an, &bn) {
        return true;
    }
    if !str_eq(a.name.as_str(), name) {
        return false;
    }
    key_less(&chars_of(a.strategy.as_str()), &chars_of(strategy))
}

/// The groups of a run's summary: each group name and strategy that the
/// judgements use, with how many judgements use it, ordered by name and then
/// by strategy.
pub fn group_counts(judgements: &Vec<(String, String)>) -> (r: Vec<GroupCount>)
    ensures
        groups_of(judgements@, r@, judgements@.len() as int),
{
    let mut out: Vec<GroupCount> = Vec::new();
    let mut i: usize = 0;
    while i < judgements.len()
        invariant
            0 <= i <= judgements@.len(),
            groups_of(judgements@, out@, i as int),
        decreases judgements@.len() - i,
    {
        let name = judgements[i].0.as_str();
        let strategy = judgements[i].1.as_str();
        let ghost x = judgement_key(judgements@[i as int]);
        assert(x == (name@, strategy@));
        proof {
            lemma_key_count_bound(judgements@, x, i as int);
        }
        // The first group whose key is not below the judgement's.
        let mut p: usize = 0;
        while p < out.len() && pair_less(&out[p], name, strategy)
            invariant
                0 <= p <= out@.len(),
                x == (name@, strategy@),
                forall|m: int| 0 <= m < p ==> pair_lt(group_key(#[trigger] out@[m]), x),
            decreases out@.len() - p,
        {
            p += 1;
        }
        let ghost before = out@;
        let found = p < out.len() && str_eq(out[p].name.as_str(), name) && str_eq(out[p].strategy.as_str(), strategy);
        if found {
            let count = out[p].count;
            proof {
                lemma_key_count_bound(judgements@, group_key(before[p as int]), i as int);
            }
            out.set(p, GroupCount { name: name.to_owned(), strategy: strategy.to_owned(), count: count + 1 });
            assert forall|k: int| 0 <= k < out@.len() implies (#[trigger] out@[k]).count == key_count(
                judgements@, group_key(out@[k]), i as int + 1) && out@[k].count > 0 by {
                if k != p {
                    assert(out@[k] == before[k]);
                    if group_key(before[k]) == x {
                        if k < p {
                            lemma_pair_lt_irreflexive(x);
                        } else {
                            assert(pair_lt(group_key(before[p as int]), group_key(before[k])));
                            lemma_pair_lt_irreflexive(x);
                        }
                    }
                }
            }
            assert forall|t: int| 0 <= t < i + 1 implies exists|k: int| 0 <= k < out@.len() && group_key(#[trigger] out@[k]) == judgement_key(#[trigger] judgements@[t]) by {
                if t < i {
                    let k = choose|k: int| 0 <= k < before.len() && group_key(#[trigger] before[k]) == judgement_key(judgements@[t]);
                    assert(group_key(out@[k]) == group_key(before[k]));
                } else {
                    assert(group_key(out@[p as int]) == x);
                }
            }
            assert forall|a: int, b: int| 0 <= a < b < out@.len() implies pair_lt(group_key(#[trigger] out@[a]), group_key(#[trigger] out@[b])) by {
                assert(group_key(out@[a]) == group_key(before[a]));
                assert(group_key(out@[b]) == group_key(before[b]));
            }
        } else {
            let g = GroupCount { name: name.to_owned(), strategy: strategy.to_owned(), count: 1 };
            assert(group_key(g) == x);
            out.insert(p, g);
            proof {
                if p < before.len() {
                    assert(!pair_lt(group_key(before[p as int]), x));
                    assert(group_key(before[p as int]) != x);
                    lemma_pair_lt_total(group_key(before[p as int]), x);
                    assert(pair_lt(x, group_key(before[p as int])));
                }
                assert forall|m: int| 0 <= m < before.len() implies group_key(#[trigger] before[m]) != x by {
                    if m < p {
                        lemma_pair_lt_irreflexive(x);
                    } else {
                        if m > p {
                            lemma_pair_lt_transitive(x, group_key(before[p as int]), group_key(before[m]));
                        }
                        lemma_pair_lt_irreflexive(x);
                    }
                }
            }
            assert forall|a: int, b: int| 0 <= a < b < out@.len() implies pair_lt(group_key(#[trigger] out@[a]), group_key(#[trigger] out@[b])) by {
                if b < p {
                    assert(out@[a] == before[a] && out@[b] == before[b]);
                } else if b == p {
                    assert(out@[a] == before[a]);
                } else if a < p {
                    assert(out@[a] == before[a] && out@[b] == before[b - 1]);
                    if p < before.len() {
                        if b - 1 > p {
                            lemma_pair_lt_transitive(x, group_key(before[p as int]), group_key(before[b - 1]));
                        }
                        lemma_pair_lt_transitive(group_key(before[a]), x, group_key(before[b - 1]));
                    }
                } else if a == p {
                    assert(out@[b] == before[b - 1]);
                    if b - 1 > p {
                        lemma_pair_lt_transitive(x, group_key(before[p as int]), group_key(before[b - 1]));
                    }
                } else {
                    assert(out@[a] == before[a - 1] && out@[b] == before[b - 1]);
                }
            }
            assert forall|k: int| 0 <= k < out@.len() implies (#[trigger] out@[k]).count == key_count(
                judgements@, group_key(out@[k]), i as int + 1) && out@[k].count > 0 by {
                if k < p {
                    assert(out@[k] == before[k]);
                } else if k == p {
                    assert(key_count(judgements@, x, i as int) == 0) by {
                        if key_count(judgements@, x, i as int) != 0 {
                            lemma_key_count_witness(judgements@, x, i as int);
                            let t = choose|t: int| 0 <= t < i && judgement_key(judgements@[t]) == x;
                            let k2 = choose|k2: int| 0 <= k2 < before.len() && group_key(#[trigger] before[k2]) == judgement_key(judgements@[t]);
                        }
                    }
                } else {
                    assert(out@[k] == before[k - 1]);
                }
            }
            assert forall|t: int| 0 <= t < i + 1 implies exists|k: int| 0 <= k < out@.len() && group_key(#[trigger] out@[k]) == judgement_key(#[trigger] judgements@[t]) by {
                if t < i {
                    let k = choose|k: int| 0 <= k < before.len() && group_key(#[trigger] before[k]) == judgement_key(judgements@[t]);
                    if k < p {
                        assert(out@[k] == before[k]);
                    } else {
                        assert(out@[k + 1] == before[k]);
                    }
                } else {
                    assert(group_key(out@[p as int]) == x);
                }
            }
        }
        i += 1;
    }
    out
}

proof fn lemma_key_count_witness(js: Seq<(String, String)>, key: (Seq<char>, Seq<char>), n: int)
    requires
        0 <= n <= js.len(),
        key_count(js, key, n) != 0,
    ensures
        exists|t: int| 0 <= t < n && judgement_key(js[t]) == key,
    decreases n,
{
    if n > 0 {
        if judgement_key(js[n - 1]) != key {
            lemma_key_count_witness(js, key, n - 1);
        }
    }
}

/// Refuses the results of a run that belongs to another project.
pub fn check_run_project(run_project: u128, open_project: u128) -> (r: Result<(), String>)
    ensures
        r is Ok <==> run_project == open_project,
        r matches Err(m) ==> m@ == "run project mismatch"@,
{
    if run_project != open_project {
        return Err("run project mismatch".to_owned());
    }
    Ok(())
}

} // verus!
