//! Pool downloads: the posts of a pool, in pool order (or newest first),
//! fetched one by one. The caller fetches each post the download asks for,
//! sends on the post each step gives, and hands the next post to the next
//! step.
use vstd::prelude::*;

use crate::blacklist::{accepted_by, lemma_kept_is_accepted, BlacklistFilter};
use crate::error::ExtractorError;
use crate::extractor::{PoolDownloadConfig, PostExtractor, SiteApi};
use crate::hashing::{pool_index_entries, pool_index_insert, pool_index_len, pool_index_new, PoolIndex};
use crate::imageboards::{lemma_pool_order_positions, pool_order_map};
use crate::post::{posts_view, Post, PostView};

verus! {

/// Whether `a` may come before `b`: in ascending order, or in descending
/// order when `desc`.
pub open spec fn ordered(desc: bool, a: usize, b: usize) -> bool {
    if desc {
        a >= b
    } else {
        a <= b
    }
}

fn ordered_exec(desc: bool, a: usize, b: usize) -> (r: bool)
    ensures
        r == ordered(desc, a, b),
{
    if desc {
        a >= b
    } else {
        a <= b
    }
}

/// The keys of a sequence of map entries.
pub open spec fn entry_keys(s: Seq<(u64, usize)>) -> Seq<u64> {
    s.map_values(|e: (u64, usize)| e.0)
}

/// Whether `s` holds every entry of `m` once, ordered by value.
pub open spec fn is_sorted_entries(m: Map<u64, usize>, s: Seq<(u64, usize)>, desc: bool) -> bool {
    &&& forall|i: int, j: int| 0 <= i < j < s.len() ==> s[i].0 != s[j].0
    &&& forall|i: int| 0 <= i < s.len() ==> m.contains_key(#[trigger] s[i].0) && m[s[i].0] == s[i].1
    &&& forall|k: u64| m.contains_key(k) ==> exists|i: int| 0 <= i < s.len() && #[trigger] s[i].0 == k
    &&& forall|i: int, j: int| 0 <= i < j < s.len() ==> ordered(desc, s[i].1, s[j].1)
}

/// Keys occur once in `s`.
pub open spec fn distinct_keys(s: Seq<(u64, usize)>) -> bool {
    forall|a: int, b: int| 0 <= a < b < s.len() ==> s[a].0 != s[b].0
}

/// Values are ordered along `s`.
pub open spec fn ordered_values(s: Seq<(u64, usize)>, desc: bool) -> bool {
    forall|a: int, b: int| 0 <= a < b < s.len() ==> ordered(desc, s[a].1, s[b].1)
}

/// The keys of `s` are those of the first `i` entries of `e`.
pub open spec fn same_keys_as_prefix(s: Seq<(u64, usize)>, e: Seq<(u64, usize)>, i: int) -> bool {
    &&& forall|j: int| 0 <= j < i ==> entry_keys(s).contains(#[trigger] e[j].0)
    &&& forall|a: int| 0 <= a < s.len() ==> entry_keys(e).take(i).contains(#[trigger] s[a].0)
}

/// Inserting `x` where everything before orders before it and everything
/// after orders after it keeps the values ordered, and keeps keys distinct
/// when `x`'s key is new.
proof fn lemma_insert_ordered(before: Seq<(u64, usize)>, k: int, x: (u64, usize), desc: bool)
    requires
        0 <= k <= before.len(),
        distinct_keys(before),
        ordered_values(before, desc),
        forall|a: int| 0 <= a < before.len() ==> #[trigger] before[a].0 != x.0,
        forall|a: int| 0 <= a < k ==> ordered(desc, #[trigger] before[a].1, x.1),
        forall|b: int| k <= b < before.len() ==> ordered(desc, x.1, #[trigger] before[b].1),
    ensures
        distinct_keys(before.insert(k, x)),
        ordered_values(before.insert(k, x), desc),
{
    let out = before.insert(k, x);
    assert forall|a: int, b: int| 0 <= a < b < out.len() implies out[a].0 != out[b].0 by {
        if a < k && b < k {
        } else if a < k && b == k {
            assert(before[a].0 != x.0);
        } else if a < k && b > k {
            assert(before[a].0 != before[b - 1].0);
        } else if a == k {
            assert(before[b - 1].0 != x.0);
        } else {
            assert(before[a - 1].0 != before[b - 1].0);
        }
    }
    assert forall|a: int, b: int| 0 <= a < b < out.len() implies ordered(desc, out[a].1, out[b].1) by {
        if a < k && b < k {
        } else if a < k && b == k {
            assert(ordered(desc, before[a].1, x.1));
        } else if a < k && b > k {
            assert(ordered(desc, before[a].1, before[b - 1].1));
        } else if a == k {
            assert(ordered(desc, x.1, before[b - 1].1));
        } else {
            assert(ordered(desc, before[a - 1].1, before[b - 1].1));
        }
    }
}

/// Inserting the `i`-th entry anywhere extends the prefix whose keys `s` holds.
proof fn lemma_insert_prefix(before: Seq<(u64, usize)>, k: int, e: Seq<(u64, usize)>, i: int)
    requires
        0 <= k <= before.len(),
        0 <= i < e.len(),
        same_keys_as_prefix(before, e, i),
    ensures
        same_keys_as_prefix(before.insert(k, e[i]), e, i + 1),
{
    let out = before.insert(k, e[i]);
    let ko = entry_keys(out);
    let kb = entry_keys(before);
    assert forall|j: int| 0 <= j < i + 1 implies ko.contains(#[trigger] e[j].0) by {
        if j == i {
            assert(ko[k] == e[j].0);
        } else {
            assert(kb.contains(e[j].0));
            let a = choose|a: int| 0 <= a < kb.len() && kb[a] == e[j].0;
            if a < k {
                assert(ko[a] == e[j].0);
            } else {
                assert(ko[a + 1] == e[j].0);
            }
        }
    }
    let pi = entry_keys(e).take(i);
    let pi1 = entry_keys(e).take(i + 1);
    assert forall|a: int| 0 <= a < out.len() implies pi1.contains(#[trigger] out[a].0) by {
        if a == k {
            assert(pi1[i] == out[a].0);
        } else {
            let b = if a < k { a } else { a - 1 };
            assert(out[a] == before[b]);
            assert(pi.contains(before[b].0));
            let j = choose|j: int| 0 <= j < pi.len() && pi[j] == before[b].0;
            assert(pi1[j] == out[a].0);
        }
    }
}

/// The entries of the map, ordered by value (ascending, or descending when
/// `desc`). Entries of equal value come in an order left unsaid.
fn sorted_entries(m: &PoolIndex, desc: bool) -> (r: Vec<(u64, usize)>)
    ensures
        is_sorted_entries(m@, r@, desc),
{
    let entries = pool_index_entries(m);
    let mut out: Vec<(u64, usize)> = Vec::new();
    let n = entries.len();
    for i in 0..n
        invariant
            n == entries.len(),
            out@.len() == i,
            distinct_keys(out@),
            ordered_values(out@, desc),
            forall|a: int|
                0 <= a < out@.len() ==> m@.contains_key(#[trigger] out@[a].0) && m@[out@[a].0]
                    == out@[a].1,
            same_keys_as_prefix(out@, entries@, i as int),
            distinct_keys(entries@),
            forall|a: int|
                0 <= a < entries@.len() ==> m@.contains_key(#[trigger] entries@[a].0)
                    && m@[entries@[a].0] == entries@[a].1,
    {
        let x = entries[i];
        let mut k: usize = 0;
        while k < out.len() && ordered_exec(desc, out[k].1, x.1)
            invariant
                0 <= k <= out.len(),
                forall|a: int| 0 <= a < k ==> ordered(desc, #[trigger] out@[a].1, x.1),
            decreases out.len() - k,
        {
            k += 1;
        }
        let ghost before = out@;
        proof {
            assert forall|a: int| 0 <= a < before.len() implies #[trigger] before[a].0 != x.0 by {
                let p = entry_keys(entries@).take(i as int);
                assert(p.contains(before[a].0));
                let j = choose|j: int| 0 <= j < p.len() && p[j] == before[a].0;
                assert(entries@[j].0 != entries@[i as int].0);
            }
            if k < before.len() {
                assert forall|b: int| k <= b < before.len() implies ordered(desc, x.1, #[trigger] before[b].1) by {
                    assert(!ordered(desc, before[k as int].1, x.1));
                    if b > k {
                        assert(ordered(desc, before[k as int].1, before[b].1));
                    }
                }
            }
            lemma_insert_ordered(before, k as int, x, desc);
            lemma_insert_prefix(before, k as int, entries@, i as int);
        }
        out.insert(k, x);
        assert(out@ =~= before.insert(k as int, x));
    }
    proof {
        assert forall|key: u64| m@.contains_key(key) implies exists|a: int| 0 <= a < out@.len() && #[trigger] out@[a].0 == key by {
            let j = choose|j: int| 0 <= j < entries@.len() && #[trigger] entries@[j].0 == key;
            let ko = entry_keys(out@);
            assert(ko.contains(entries@[j].0));
            let a = choose|a: int| 0 <= a < ko.len() && ko[a] == key;
            assert(out@[a].0 == key);
        }
    }
    out
}

/// The number of keys of `m` is the length of a sequence holding each once.
proof fn lemma_sorted_entries_len(m: Map<u64, usize>, s: Seq<(u64, usize)>, desc: bool)
    requires
        is_sorted_entries(m, s, desc),
    ensures
        m.dom().len() == s.len(),
        m.dom().finite(),
{
    let keys = entry_keys(s);
    assert(keys.no_duplicates()) by {
        assert forall|i: int, j: int|
            0 <= i < keys.len() && 0 <= j < keys.len() && i != j implies keys[i] != keys[j] by {
            if i < j {
                assert(s[i].0 != s[j].0);
            } else {
                assert(s[j].0 != s[i].0);
            }
        }
    }
    keys.unique_seq_to_set();
    assert(keys.to_set() =~= m.dom()) by {
        assert forall|k: u64| m.dom().contains(k) implies keys.to_set().contains(k) by {
            let i = choose|i: int| 0 <= i < s.len() && #[trigger] s[i].0 == k;
            assert(keys[i] == k);
        }
        assert forall|k: u64| keys.to_set().contains(k) implies m.dom().contains(k) by {
            let i = choose|i: int| 0 <= i < keys.len() && keys[i] == k;
            assert(m.contains_key(s[i].0));
        }
    }
    vstd::seq_lib::seq_to_set_is_finite(keys);
}

/// Whether `ids` are the post ids a pool download fetches from the pool
/// order `m`: ordered by their place in the pool (newest first when
/// `last_first`), as many as the limit allows; where places tie, the
/// order among them is left unsaid.
pub open spec fn is_pool_plan(m: Map<u64, usize>, ids: Seq<u64>, last_first: bool, limit: Option<u16>) -> bool {
    &&& forall|i: int, j: int| 0 <= i < j < ids.len() ==> ids[i] != ids[j]
    &&& forall|i: int| 0 <= i < ids.len() ==> m.contains_key(#[trigger] ids[i])
    &&& forall|i: int, j: int| 0 <= i < j < ids.len() ==> ordered(last_first, m[ids[i]], m[ids[j]])
    &&& forall|k: u64, i: int|
        #![trigger m.contains_key(k), ids[i]]
        m.contains_key(k) && !ids.contains(k) && 0 <= i < ids.len() ==> ordered(
            last_first,
            m[ids[i]],
            m[k],
        )
    &&& limit matches Some(l) ==> ids.len() <= l
    &&& (match limit {
        Some(l) => ids.len() < l,
        None => true,
    }) ==> forall|k: u64| m.contains_key(k) ==> ids.contains(k)
}

/// The post ids of the pool to fetch: ordered by their place in the pool,
/// newest first when `last_first`, and at most `limit` of them.
pub fn pool_fetch_plan(map: &PoolIndex, last_first: bool, limit: Option<u16>) -> (r: Vec<u64>)
    ensures
        is_pool_plan(map@, r@, last_first, limit),
{
    let sorted = sorted_entries(map, last_first);
    let count = match limit {
        Some(l) => if (l as usize) < sorted.len() {
            l as usize
        } else {
            sorted.len()
        },
        None => sorted.len(),
    };
    let mut ids: Vec<u64> = Vec::new();
    for i in 0..count
        invariant
            count <= sorted@.len(),
            ids@ == entry_keys(sorted@.take(i as int)),
    {
        ids.push(sorted[i].0);
        assert(entry_keys(sorted@.take(i + 1)) =~= entry_keys(sorted@.take(i as int)).push(
            sorted@[i as int].0,
        ));
    }
    proof {
        let s = sorted@;
        assert(ids@.len() == count);
        assert forall|i: int| 0 <= i < ids@.len() implies #[trigger] ids@[i] == s[i].0 by {}
        assert forall|k: u64, i: int|
            #![trigger map@.contains_key(k), ids@[i]]
            map@.contains_key(k) && !ids@.contains(k) && 0 <= i < ids@.len() implies ordered(
            last_first,
            map@[ids@[i]],
            map@[k],
        ) by {
            let a = choose|a: int| 0 <= a < s.len() && #[trigger] s[a].0 == k;
            if a < count {
                assert(ids@[a] == k);
            }
            assert(s[i].1 == map@[ids@[i]]);
        }
        assert forall|k: u64| map@.contains_key(k) && count == s.len() implies ids@.contains(k) by {
            let a = choose|a: int| 0 <= a < s.len() && #[trigger] s[a].0 == k;
            assert(ids@[a] == k);
        }
        assert forall|i: int, j: int| 0 <= i < j < ids@.len() implies ordered(
            last_first,
            map@[ids@[i]],
            map@[ids@[j]],
        ) by {
            assert(s[i].1 == map@[ids@[i]]);
            assert(s[j].1 == map@[ids@[j]]);
        }
        assert forall|i: int, j: int| 0 <= i < j < ids@.len() implies ids@[i] != ids@[j] by {
            assert(s[i].0 != s[j].0);
        }
    }
    ids
}

/// The place in the pool of the `i`-th post fetched from a pool of `n`:
/// `i`, or counted from the end when newest first.
pub open spec fn fetch_place(last_first: bool, n: int, i: int) -> int {
    if last_first {
        n - 1 - i
    } else {
        i
    }
}

/// The number of posts fetched from a pool of `n` under the limit.
pub open spec fn plan_len(n: int, limit: Option<u16>) -> int {
    match limit {
        Some(l) => if l < n {
            l as int
        } else {
            n
        },
        None => n,
    }
}

/// Each post id of the pool is at its place.
proof fn lemma_place_of(ids: Seq<u64>, x: u64) -> (p: int)
    requires
        ids.no_duplicates(),
        ids.len() <= usize::MAX,
        pool_order_map(ids).contains_key(x),
    ensures
        0 <= p < ids.len(),
        ids[p] == x,
        pool_order_map(ids)[x] == p,
{
    lemma_pool_order_positions(ids);
    assert(ids.contains(x));
    let p = choose|p: int| 0 <= p < ids.len() && ids[p] == x;
    assert(pool_order_map(ids)[ids[p]] == p);
    p
}

/// The `i`-th id of a pool plan is the post at its place.
proof fn lemma_plan_at(ids: Seq<u64>, r: Seq<u64>, last_first: bool, limit: Option<u16>, i: int)
    requires
        ids.no_duplicates(),
        ids.len() <= usize::MAX,
        is_pool_plan(pool_order_map(ids), r, last_first, limit),
        0 <= i < r.len(),
    ensures
        i < ids.len(),
        r[i] == ids[fetch_place(last_first, ids.len() as int, i)],
    decreases i,
{
    let m = pool_order_map(ids);
    let n = ids.len() as int;
    lemma_pool_order_positions(ids);
    assert forall|j: int| 0 <= j < i implies j < n && r[j] == ids[fetch_place(last_first, n, j)] by {
        lemma_plan_at(ids, r, last_first, limit, j);
    }
    assert(m.contains_key(r[i]));
    let v = lemma_place_of(ids, r[i]);
    let want = fetch_place(last_first, n, i);
    if i > 0 {
        assert(m.contains_key(r[i - 1]));
        let u = lemma_place_of(ids, r[i - 1]);
        assert(r[i - 1] != r[i]);
        assert(ordered(last_first, m[r[i - 1]], m[r[i]]));
        assert(u == fetch_place(last_first, n, i - 1));
    }
    // Past the place: the post at its place would be missing from the plan
    // although it comes first.
    if v != want {
        assert(0 <= want < n);
        let k = ids[want];
        assert(m[k] == want);
        assert(ids.contains(k));
        assert(m.contains_key(k));
        if r.contains(k) {
            let j = choose|j: int| 0 <= j < r.len() && r[j] == k;
            if j < i {
                assert(r[j] == ids[fetch_place(last_first, n, j)]);
                assert(fetch_place(last_first, n, j) != want);
            } else if j > i {
                assert(ordered(last_first, m[r[i]], m[r[j]]));
            }
        } else {
            assert(ordered(last_first, m[r[i]], m[k]));
        }
    }
}

/// A pool download fetches the posts of a pool in pool order, or in reverse
/// order when newest first, as many as the limit allows.
pub proof fn lemma_pool_plan_follows_pool(ids: Seq<u64>, r: Seq<u64>, last_first: bool, limit: Option<u16>)
    requires
        ids.no_duplicates(),
        ids.len() <= usize::MAX,
        is_pool_plan(pool_order_map(ids), r, last_first, limit),
    ensures
        r == (if last_first {
            ids.reverse()
        } else {
            ids
        }).take(plan_len(ids.len() as int, limit)),
{
    let m = pool_order_map(ids);
    let n = ids.len() as int;
    let target = if last_first {
        ids.reverse()
    } else {
        ids
    };
    lemma_pool_order_positions(ids);
    assert forall|i: int| 0 <= i < r.len() implies i < n && r[i] == target[i] by {
        lemma_plan_at(ids, r, last_first, limit, i);
    }
    let c = r.len() as int;
    if c < n {
        let under_limit = match limit {
            Some(l) => c < l,
            None => true,
        };
        if under_limit {
            let k = target[c];
            assert(k == ids[fetch_place(last_first, n, c)]);
            assert(ids.contains(k));
            assert(m.contains_key(k));
            assert(r.contains(k));
            let j = choose|j: int| 0 <= j < r.len() && r[j] == k;
            assert(r[j] == ids[fetch_place(last_first, n, j)]);
            assert(fetch_place(last_first, n, j) != fetch_place(last_first, n, c));
            assert(false);
        }
    }
    if c > 0 {
        assert(r[c - 1] == target[c - 1]);
        assert(c - 1 < n);
    }
    assert(c == plan_len(n, limit));
    assert(r =~= target.take(plan_len(n, limit)));
}

/// Whether `r` keeps of the pool order `m` the `limit` keys that come
/// first, when `m` holds more, and is `m` otherwise; where places tie,
/// which keys stay is left unsaid.
pub open spec fn is_limited_index(m: Map<u64, usize>, limit: Option<u16>, r: Map<u64, usize>) -> bool {
    match limit {
        Some(l) if m.dom().len() > l => {
            &&& r.dom().len() == l
            &&& forall|k: u64| #[trigger] r.contains_key(k) ==> m.contains_key(k) && r[k] == m[k]
            &&& forall|k1: u64, k2: u64|
                r.contains_key(k1) && m.contains_key(k2) && !r.contains_key(k2) ==> #[trigger] m[k1]
                    <= #[trigger] m[k2]
        },
        _ => r == m,
    }
}

/// Keeps the `limit` keys of the map that come first in pool order, when it
/// holds more.
pub fn limit_pool_index(map: PoolIndex, limit: Option<u16>) -> (r: PoolIndex)
    ensures
        is_limited_index(map@, limit, r@),
{
    let l = match limit {
        Some(l) => l,
        None => {
            return map;
        },
    };
    if pool_index_len(&map) <= l as usize {
        return map;
    }
    let sorted = sorted_entries(&map, false);
    proof {
        lemma_sorted_entries_len(map@, sorted@, false);
    }
    let mut out = pool_index_new();
    let count = l as usize;
    for i in 0..count
        invariant
            count < sorted@.len(),
            is_sorted_entries(map@, sorted@, false),
            forall|k: u64|
                #[trigger] out@.contains_key(k) <==> exists|a: int| 0 <= a < i && #[trigger] sorted@[a].0 == k,
            forall|a: int| 0 <= a < i ==> out@[#[trigger] sorted@[a].0] == sorted@[a].1,
            out@.dom().finite(),
            out@.dom().len() == i,
    {
        let e = sorted[i];
        proof {
            assert(!out@.contains_key(e.0)) by {
                if out@.contains_key(e.0) {
                    let a = choose|a: int| 0 <= a < i && #[trigger] sorted@[a].0 == e.0;
                    assert(sorted@[a].0 != sorted@[i as int].0);
                }
            }
        }
        let ghost before = out@;
        pool_index_insert(&mut out, e.0, e.1);
        proof {
            assert(out@.dom() =~= before.dom().insert(e.0));
            assert forall|k: u64| #[trigger] out@.contains_key(k) implies exists|a: int| 0 <= a < i + 1 && #[trigger] sorted@[a].0 == k by {
                if k == e.0 {
                    assert(sorted@[i as int].0 == k);
                } else {
                    assert(before.contains_key(k));
                }
            }
            assert forall|a: int| 0 <= a < i + 1 implies out@[#[trigger] sorted@[a].0] == sorted@[a].1 by {
                if a < i {
                    assert(sorted@[a].0 != sorted@[i as int].0);
                }
            }
        }
    }
    proof {
        assert forall|k: u64| #[trigger] out@.contains_key(k) implies map@.contains_key(k) && out@[k] == map@[k] by {
            let a = choose|a: int| 0 <= a < count && #[trigger] sorted@[a].0 == k;
        }
        assert forall|k1: u64, k2: u64|
            out@.contains_key(k1) && map@.contains_key(k2) && !out@.contains_key(k2) implies #[trigger] map@[k1]
                <= #[trigger] map@[k2] by {
            let a = choose|a: int| 0 <= a < count && #[trigger] sorted@[a].0 == k1;
            let b = choose|b: int| 0 <= b < sorted@.len() && #[trigger] sorted@[b].0 == k2;
            if b < count {
                assert(out@.contains_key(k2));
            }
            assert(ordered(false, sorted@[a].1, sorted@[b].1));
        }
    }
    out
}


/// What a pool download does next.
pub enum PoolNext {
    /// Fetch the post with this id and hand the result to the next step.
    FetchPost { post_id: u32 },
    /// The download is over, with this result: the extractor's count of
    /// removed posts.
    Done(Result<u64, ExtractorError>),
    /// The count of removed posts does not fit 64 bits: the download cannot
    /// go on, and ends as an arithmetic overflow does.
    Overflow,
}

/// Whether adding what the filter removes of the fetched post overflows the
/// count of removed posts.
pub open spec fn removed_overflows(total: u64, f: BlacklistFilter, fetched: Result<Post, ExtractorError>) -> bool {
    match fetched {
        Ok(p) => total + f.removed_count(seq![p@]) > u64::MAX,
        Err(_) => false,
    }
}

/// One step of a pool download: the post to send on, if one passed the
/// filter, and what comes next.
pub struct PoolStep {
    pub send: Option<Post>,
    pub next: PoolNext,
}

/// A pool download between two posts.
pub struct PoolFetch {
    ids: Vec<u64>,
    index: usize,
    filter: BlacklistFilter,
}

impl PoolFetch {
    /// The post ids to fetch, in order.
    pub closed spec fn spec_ids(&self) -> Seq<u64> {
        self.ids@
    }

    /// The position of the post being fetched.
    pub closed spec fn spec_index(&self) -> int {
        self.index as int
    }

    pub closed spec fn spec_filter(&self) -> BlacklistFilter {
        self.filter
    }

    pub closed spec fn wf(&self) -> bool {
        &&& self.index < self.ids@.len()
        &&& self.ids@[self.index as int] <= u32::MAX
        &&& self.filter.wf()
    }
}

/// Whether `next` asks for the post at `index` of `ids`: done when there is
/// none, an error when its id does not fit 32 bits.
pub open spec fn asks_post(next: PoolNext, ids: Seq<u64>, index: int, total_removed: u64) -> bool {
    if index >= ids.len() {
        next matches PoolNext::Done(Ok(n)) && n == total_removed
    } else if ids[index] > u32::MAX {
        next matches PoolNext::Done(Err(ExtractorError::IntConversionFail))
    } else {
        next matches PoolNext::FetchPost { post_id } && post_id == ids[index]
    }
}

/// What comes after the post at `index`.
fn next_post(ids: &Vec<u64>, index: usize, total_removed: u64) -> (r: PoolNext)
    ensures
        asks_post(r, ids@, index as int, total_removed),
{
    if index >= ids.len() {
        PoolNext::Done(Ok(total_removed))
    } else if ids[index] > 0xffff_ffffu64 {
        PoolNext::Done(Err(ExtractorError::IntConversionFail))
    } else {
        PoolNext::FetchPost { post_id: ids[index] as u32 }
    }
}

impl<S: SiteApi> PostExtractor<S> {
    /// The pool download configured, if any.
    pub fn pool_config(&self) -> (r: Option<PoolDownloadConfig>)
        ensures
            r == self.spec_pool(),
    {
        self.pool_config
    }

    /// The pool order of decoded pool details: each post id mapped to its
    /// place in the pool, keeping only the `limit_opt` first when the pool
    /// holds more.
    pub fn pool_index(&self, response: S::PoolDetailsResponse, limit_opt: Option<u16>) -> (r: Result<
        PoolIndex,
        ExtractorError,
    >)
        ensures
            match self.spec_site().spec_pool_ids(response) {
                Some(ids) => r matches Ok(m) && is_limited_index(pool_order_map(ids), limit_opt, m@),
                None => r is Err,
            },
    {
        let map = self.site_api.map_pool_details_to_post_ids_with_order(response)?;
        Ok(limit_pool_index(map, limit_opt))
    }

    /// Starts the download of a pool given its order: the post ids by their
    /// place in the pool (newest first when `last_first`), at most `limit`
    /// of them. An empty pool ends at once with the count of removed posts.
    /// The download filters with the blacklist configuration, the excluded
    /// tags, the ratings, the forced extension and, unless videos are
    /// mapped, animation.
    pub fn pool_fetch_start(&self, pool_cfg: PoolDownloadConfig, index: &PoolIndex, limit: Option<u16>) -> (r: (
        PoolFetch,
        PoolNext,
    ))
        ensures
            is_pool_plan(index@, r.0.spec_ids(), pool_cfg.last_first, limit),
            r.0.spec_index() == 0,
            r.0.spec_filter().made_from(
                self.spec_blacklist_config().sections(),
                self.spec_server().server,
                self.spec_excluded_tags(),
                self.spec_ratings(),
                self.spec_blacklist_disabled(),
                !self.spec_map_videos(),
                self.spec_extension(),
            ),
            asks_post(r.1, r.0.spec_ids(), 0, self.spec_total_removed()),
            r.1 is FetchPost ==> r.0.wf(),
    {
        let ids = pool_fetch_plan(index, pool_cfg.last_first, limit);
        let filter = BlacklistFilter::new(
            &self.global_blacklist,
            self.server_cfg.server,
            self.user_excluded_tags.as_slice(),
            self.download_ratings.as_slice(),
            self.disable_blacklist,
            !self.map_videos,
            self.selected_extension,
        );
        let next = next_post(&ids, 0, self.total_removed);
        (PoolFetch { ids, index: 0, filter }, next)
    }

    /// Takes in the fetched post of a pool download. A post that passes the
    /// filter is sent on; the filter's count of removed posts adds to the
    /// extractor's. A failed fetch skips the post. The download then asks
    /// for the next post, and ends with the count of removed posts after the
    /// last; an id that does not fit 32 bits ends it in `IntConversionFail`,
    /// a count of removed posts that overflows in `Overflow`.
    pub fn pool_fetch_step(&mut self, fetch: &mut PoolFetch, fetched: Result<Post, ExtractorError>) -> (r:
        PoolStep)
        requires
            old(fetch).wf(),
        ensures
            final(self).same_settings(&*old(self)),
            final(fetch).spec_ids() == old(fetch).spec_ids(),
            final(fetch).spec_filter() == old(fetch).spec_filter(),
            removed_overflows(old(self).spec_total_removed(), old(fetch).spec_filter(), fetched) ==> {
                &&& r.send is None
                &&& r.next is Overflow
                &&& final(self).spec_total_removed() == old(self).spec_total_removed()
            },
            !removed_overflows(old(self).spec_total_removed(), old(fetch).spec_filter(), fetched) ==> {
            &&& final(fetch).spec_index() == old(fetch).spec_index() + 1
            &&& match fetched {
                Ok(p) => {
                    &&& final(self).spec_total_removed() == old(self).spec_total_removed()
                        + old(fetch).spec_filter().removed_count(seq![p@])
                    &&& match r.send {
                        Some(q) => accepted_by(old(fetch).spec_filter(), p@) && q@ == p@,
                        None => !accepted_by(old(fetch).spec_filter(), p@),
                    }
                },
                Err(_) => r.send is None && final(self).spec_total_removed()
                    == old(self).spec_total_removed(),
            }
            &&& asks_post(r.next, old(fetch).spec_ids(), old(fetch).spec_index() + 1, final(self).spec_total_removed())
            &&& r.next is FetchPost ==> final(fetch).wf()
            },
    {
        let send = match fetched {
            Ok(p) => {
                let ghost pv = p@;
                let mut one: Vec<Post> = Vec::new();
                one.push(p);
                assert(posts_view(one@) =~= seq![pv]);
                let (removed, mut kept) = fetch.filter.filter(one);
                match self.total_removed.checked_add(removed) {
                    Some(t) => {
                        self.total_removed = t;
                    },
                    None => {
                        return PoolStep { send: None, next: PoolNext::Overflow };
                    },
                }
                proof {
                    lemma_kept_is_accepted(fetch.filter, seq![pv]);
                    let acc = |q: PostView| accepted_by(fetch.filter, q);
                    Seq::<PostView>::empty().lemma_filter_push(pv, acc);
                    assert(seq![pv] =~= Seq::<PostView>::empty().push(pv));
                    assert(Seq::<PostView>::empty().filter(acc) =~= Seq::<PostView>::empty());
                }
                let ghost before = kept@;
                let last = kept.pop();
                assert(last matches Some(q) ==> q@ == posts_view(before)[before.len() - 1]);
                last
            },
            Err(_) => None,
        };
        let n = fetch.ids.len();
        assert(fetch.index < n);
        fetch.index = fetch.index + 1;
        let next = next_post(&fetch.ids, fetch.index, self.total_removed);
        PoolStep { send, next }
    }
}

} // verus!
