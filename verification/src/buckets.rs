//! Grouping of per-transaction amounts into period buckets, ordered by
//! period label (as a `BTreeMap<String, _>` orders its keys).
use vstd::prelude::*;

verus! {

/// Strict lexicographic order on character sequences (the order of `str`).
pub open spec fn lex_lt(a: Seq<char>, b: Seq<char>) -> bool
    decreases a.len(),
{
    if a.len() == 0 {
        b.len() > 0
    } else if b.len() == 0 {
        false
    } else if a[0] != b[0] {
        a[0] < b[0]
    } else {
        lex_lt(a.drop_first(), b.drop_first())
    }
}

/// The sum of the amounts of the rows labelled `k`.
pub open spec fn key_sum(rows: Seq<(Seq<char>, i32)>, k: Seq<char>) -> int
    decreases rows.len(),
{
    if rows.len() == 0 {
        0
    } else {
        key_sum(rows.drop_last(), k) + if rows.last().0 == k {
            rows.last().1 as int
        } else {
            0
        }
    }
}

/// The number of rows labelled `k`.
pub open spec fn key_count(rows: Seq<(Seq<char>, i32)>, k: Seq<char>) -> nat
    decreases rows.len(),
{
    if rows.len() == 0 {
        0
    } else {
        key_count(rows.drop_last(), k) + if rows.last().0 == k {
            1nat
        } else {
            0nat
        }
    }
}

/// The sum of all amounts.
pub open spec fn total_sum(rows: Seq<(Seq<char>, i32)>) -> int
    decreases rows.len(),
{
    if rows.len() == 0 {
        0
    } else {
        total_sum(rows.drop_last()) + rows.last().1 as int
    }
}

/// One bucket: its label, the sum of its amounts and its number of rows.
pub type Bucket = (Seq<char>, int, nat);

/// `buckets` groups `rows` exactly: labels strictly increasing, one bucket
/// per label that occurs, each with the sum and count of its rows.
pub open spec fn groups(buckets: Seq<Bucket>, rows: Seq<(Seq<char>, i32)>) -> bool {
    &&& forall|i: int, j: int| 0 <= i < j < buckets.len() ==> lex_lt(buckets[i].0, buckets[j].0)
    &&& forall|i: int|
        0 <= i < buckets.len() ==> #[trigger] buckets[i].1 == key_sum(rows, buckets[i].0)
            && buckets[i].2 == key_count(rows, buckets[i].0) && buckets[i].2 > 0
    &&& forall|k: Seq<char>|
        #[trigger] key_count(rows, k) > 0 ==> exists|i: int|
            0 <= i < buckets.len() && buckets[i].0 == k
}

proof fn lemma_lex_total(a: Seq<char>, b: Seq<char>)
    ensures
        a == b || lex_lt(a, b) || lex_lt(b, a),
        !(lex_lt(a, b) && lex_lt(b, a)),
        !lex_lt(a, a),
    decreases a.len(),
{
    if a.len() > 0 && b.len() > 0 && a[0] == b[0] {
        lemma_lex_total(a.drop_first(), b.drop_first());
        if a.drop_first() == b.drop_first() {
            assert(a =~= seq![a[0]] + a.drop_first());
            assert(b =~= seq![b[0]] + b.drop_first());
        }
    } else if a.len() == 0 && b.len() == 0 {
        assert(a =~= b);
    }
    if a.len() > 0 {
        lemma_lex_total(a.drop_first(), a.drop_first());
    }
}

proof fn lemma_lex_trans(a: Seq<char>, b: Seq<char>, c: Seq<char>)
    requires
        lex_lt(a, b),
        lex_lt(b, c),
    ensures
        lex_lt(a, c),
    decreases a.len(),
{
    if a.len() > 0 && b.len() > 0 && c.len() > 0 && a[0] == b[0] && b[0] == c[0] {
        lemma_lex_trans(a.drop_first(), b.drop_first(), c.drop_first());
    }
}

/// A label that labels no row has a zero sum.
pub proof fn lemma_absent_sum(rows: Seq<(Seq<char>, i32)>, k: Seq<char>)
    requires
        key_count(rows, k) == 0,
    ensures
        key_sum(rows, k) == 0,
    decreases rows.len(),
{
    if rows.len() > 0 {
        lemma_absent_sum(rows.drop_last(), k);
    }
}

proof fn lemma_sum_bounds(rows: Seq<(Seq<char>, i32)>, k: Seq<char>)
    ensures
        key_count(rows, k) <= rows.len(),
        -(rows.len() as int) * 0x8000_0000 <= key_sum(rows, k) <= (rows.len() as int) * 0x8000_0000,
        -(rows.len() as int) * 0x8000_0000 <= total_sum(rows) <= (rows.len() as int) * 0x8000_0000,
    decreases rows.len(),
{
    if rows.len() > 0 {
        lemma_sum_bounds(rows.drop_last(), k);
    }
}

/// The total of `n` amounts lies within `n` times the `i32` range.
pub proof fn lemma_total_bound(rows: Seq<(Seq<char>, i32)>)
    ensures
        -(rows.len() as int) * 0x8000_0000 <= total_sum(rows) <= (rows.len() as int) * 0x8000_0000,
    decreases rows.len(),
{
    if rows.len() > 0 {
        lemma_total_bound(rows.drop_last());
    }
}

/// The sum of the amounts of a list of buckets.
pub open spec fn buckets_total(buckets: Seq<Bucket>) -> int
    decreases buckets.len(),
{
    if buckets.len() == 0 {
        0
    } else {
        buckets_total(buckets.drop_last()) + buckets.last().1
    }
}

/// The sum of the row counts of a list of buckets.
pub open spec fn buckets_count(buckets: Seq<Bucket>) -> int
    decreases buckets.len(),
{
    if buckets.len() == 0 {
        0
    } else {
        buckets_count(buckets.drop_last()) + buckets.last().2
    }
}

/// Buckets that group a list of rows account for all of it: their amounts
/// add up to the total of the rows, and their counts to the number of rows.
pub proof fn law_buckets_add_up(buckets: Seq<Bucket>, rows: Seq<(Seq<char>, i32)>)
    requires
        groups(buckets, rows),
    ensures
        buckets_total(buckets) == total_sum(rows),
        buckets_count(buckets) == rows.len(),
{
    let ks = labels(buckets);
    assert forall|i: int, j: int| 0 <= i < j < ks.len() implies ks[i] != ks[j] by {
        lemma_lex_total(ks[i], ks[i]);
    }
    assert forall|j: int| 0 <= j < rows.len() implies ks.contains(rows[j].0) by {
        lemma_row_label_counted(rows, j);
        let i = choose|i: int| 0 <= i < buckets.len() && buckets[i].0 == rows[j].0;
        assert(ks[i] == rows[j].0);
    }
    lemma_buckets_as_labels(buckets, rows);
    lemma_labels_cover(ks, rows);
}

/// The labels of a list of buckets.
spec fn labels(buckets: Seq<Bucket>) -> Seq<Seq<char>> {
    buckets.map_values(|b: Bucket| b.0)
}

/// The sum, over the labels `ks`, of the amounts of the rows so labelled.
spec fn label_sum(ks: Seq<Seq<char>>, rows: Seq<(Seq<char>, i32)>) -> int
    decreases ks.len(),
{
    if ks.len() == 0 {
        0
    } else {
        label_sum(ks.drop_last(), rows) + key_sum(rows, ks.last())
    }
}

/// The sum, over the labels `ks`, of the number of rows so labelled.
spec fn label_count(ks: Seq<Seq<char>>, rows: Seq<(Seq<char>, i32)>) -> int
    decreases ks.len(),
{
    if ks.len() == 0 {
        0
    } else {
        label_count(ks.drop_last(), rows) + key_count(rows, ks.last())
    }
}

/// `v` once for each occurrence of `l` in `ks`.
spec fn hits(ks: Seq<Seq<char>>, l: Seq<char>, v: int) -> int
    decreases ks.len(),
{
    if ks.len() == 0 {
        0
    } else {
        hits(ks.drop_last(), l, v) + if ks.last() == l {
            v
        } else {
            0
        }
    }
}

proof fn lemma_label_split(ks: Seq<Seq<char>>, rows: Seq<(Seq<char>, i32)>)
    requires
        rows.len() > 0,
    ensures
        label_sum(ks, rows) == label_sum(ks, rows.drop_last()) + hits(
            ks,
            rows.last().0,
            rows.last().1 as int,
        ),
        label_count(ks, rows) == label_count(ks, rows.drop_last()) + hits(ks, rows.last().0, 1),
    decreases ks.len(),
{
    if ks.len() > 0 {
        lemma_label_split(ks.drop_last(), rows);
    }
}

proof fn lemma_hits_none(ks: Seq<Seq<char>>, l: Seq<char>, v: int)
    requires
        !ks.contains(l),
    ensures
        hits(ks, l, v) == 0,
    decreases ks.len(),
{
    if ks.len() > 0 {
        assert(ks.drop_last().contains(l) ==> ks.contains(l));
        assert(ks.last() == ks[ks.len() - 1]);
        lemma_hits_none(ks.drop_last(), l, v);
    }
}

proof fn lemma_hits_once(ks: Seq<Seq<char>>, l: Seq<char>, v: int)
    requires
        forall|i: int, j: int| 0 <= i < j < ks.len() ==> ks[i] != ks[j],
        ks.contains(l),
    ensures
        hits(ks, l, v) == v,
    decreases ks.len(),
{
    let p = ks.drop_last();
    let n = ks.len() - 1;
    if ks.last() == l {
        assert(!p.contains(l)) by {
            if p.contains(l) {
                let i = choose|i: int| 0 <= i < p.len() && p[i] == l;
                assert(ks[i] == ks[n]);
            }
        }
        lemma_hits_none(p, l, v);
    } else {
        let i = choose|i: int| 0 <= i < ks.len() && ks[i] == l;
        assert(i != n);
        assert(p[i] == l);
        lemma_hits_once(p, l, v);
    }
}

proof fn lemma_labels_cover(ks: Seq<Seq<char>>, rows: Seq<(Seq<char>, i32)>)
    requires
        forall|i: int, j: int| 0 <= i < j < ks.len() ==> ks[i] != ks[j],
        forall|j: int| 0 <= j < rows.len() ==> ks.contains(#[trigger] rows[j].0),
    ensures
        label_sum(ks, rows) == total_sum(rows),
        label_count(ks, rows) == rows.len(),
    decreases rows.len(),
{
    if rows.len() == 0 {
        lemma_label_empty(ks, rows);
    } else {
        let p = rows.drop_last();
        assert forall|j: int| 0 <= j < p.len() implies ks.contains(#[trigger] p[j].0) by {
            assert(p[j] == rows[j]);
        }
        lemma_labels_cover(ks, p);
        lemma_label_split(ks, rows);
        assert(ks.contains(rows[rows.len() - 1].0));
        lemma_hits_once(ks, rows.last().0, rows.last().1 as int);
        lemma_hits_once(ks, rows.last().0, 1);
    }
}

proof fn lemma_label_empty(ks: Seq<Seq<char>>, rows: Seq<(Seq<char>, i32)>)
    requires
        rows.len() == 0,
    ensures
        label_sum(ks, rows) == 0,
        label_count(ks, rows) == 0,
    decreases ks.len(),
{
    if ks.len() > 0 {
        lemma_label_empty(ks.drop_last(), rows);
    }
}

proof fn lemma_buckets_as_labels(buckets: Seq<Bucket>, rows: Seq<(Seq<char>, i32)>)
    requires
        forall|i: int|
            0 <= i < buckets.len() ==> #[trigger] buckets[i].1 == key_sum(rows, buckets[i].0)
                && buckets[i].2 == key_count(rows, buckets[i].0),
    ensures
        buckets_total(buckets) == label_sum(labels(buckets), rows),
        buckets_count(buckets) == label_count(labels(buckets), rows),
    decreases buckets.len(),
{
    if buckets.len() > 0 {
        let p = buckets.drop_last();
        assert forall|i: int| 0 <= i < p.len() implies #[trigger] p[i].1 == key_sum(rows, p[i].0)
            && p[i].2 == key_count(rows, p[i].0) by {
            assert(p[i] == buckets[i]);
        }
        lemma_buckets_as_labels(p, rows);
        assert(labels(p) =~= labels(buckets).drop_last());
        assert(buckets[buckets.len() - 1] == buckets.last());
    }
}

proof fn lemma_row_label_counted(rows: Seq<(Seq<char>, i32)>, j: int)
    requires
        0 <= j < rows.len(),
    ensures
        key_count(rows, rows[j].0) > 0,
    decreases rows.len(),
{
    if j < rows.len() - 1 {
        assert(rows.drop_last()[j] == rows[j]);
        lemma_row_label_counted(rows.drop_last(), j);
    }
}

/// Character-wise comparison: whether `a` sorts strictly before `b`.
pub fn text_lt(a: &str, b: &str) -> (r: bool)
    ensures
        r == lex_lt(a@, b@),
{
    let n = a.unicode_len();
    let m = b.unicode_len();
    let mut i: usize = 0;
    assert(a@.skip(0) =~= a@);
    assert(b@.skip(0) =~= b@);
    while i < n && i < m && a.get_char(i) == b.get_char(i)
        invariant
            n == a@.len(),
            m == b@.len(),
            i <= n,
            i <= m,
            lex_lt(a@, b@) == lex_lt(a@.skip(i as int), b@.skip(i as int)),
        decreases n - i,
    {
        assert(a@.skip(i as int)[0] == a@[i as int]);
        assert(b@.skip(i as int)[0] == b@[i as int]);
        assert(a@.skip(i as int).drop_first() =~= a@.skip(i + 1));
        assert(b@.skip(i as int).drop_first() =~= b@.skip(i + 1));
        i = i + 1;
    }
    if i < n && i < m {
        assert(a@.skip(i as int)[0] == a@[i as int]);
        assert(b@.skip(i as int)[0] == b@[i as int]);
    }
    if i == n {
        i < m
    } else if i == m {
        false
    } else {
        a.get_char(i) < b.get_char(i)
    }
}

/// One step of grouping: adding the row `(key, amount)` to buckets that
/// group `pre`, either into the bucket at `p` (when it has label `key`) or as
/// a new bucket at `p`, gives buckets that group `post`.
proof fn lemma_group_step(
    bs: Seq<Bucket>,
    nb: Seq<Bucket>,
    pre: Seq<(Seq<char>, i32)>,
    post: Seq<(Seq<char>, i32)>,
    key: Seq<char>,
    amount: i32,
    p: int,
    hit: bool,
)
    requires
        groups(bs, pre),
        post.len() == pre.len() + 1,
        post.drop_last() == pre,
        post.last() == (key, amount),
        0 <= p <= bs.len(),
        forall|j: int| 0 <= j < p ==> lex_lt(#[trigger] bs[j].0, key),
        forall|j: int| p <= j < bs.len() ==> !lex_lt(#[trigger] bs[j].0, key),
        hit == (p < bs.len() && bs[p].0 == key),
        hit ==> nb.len() == bs.len() && forall|j: int|
            0 <= j < nb.len() ==> #[trigger] nb[j] == if j == p {
                (key, bs[j].1 + amount, bs[j].2 + 1)
            } else {
                bs[j]
            },
        !hit ==> nb.len() == bs.len() + 1 && forall|j: int|
            0 <= j < nb.len() ==> #[trigger] nb[j] == if j < p {
                bs[j]
            } else if j == p {
                (key, amount as int, 1nat)
            } else {
                bs[j - 1]
            },
    ensures
        groups(nb, post),
{
    let m = bs.len();
    if !hit {
        lemma_lex_total(key, key);
        if key_count(pre, key) > 0 {
            let j = choose|j: int| 0 <= j < bs.len() && bs[j].0 == key;
            if j >= p {
                assert(p < m);
                assert(bs[p].0 != key);
                lemma_lex_total(bs[p].0, key);
                if j > p {
                    lemma_lex_trans(key, bs[p].0, bs[j].0);
                }
            }
        }
        assert(key_count(pre, key) == 0);
        assert forall|j: int| p <= j < m implies lex_lt(key, #[trigger] bs[j].0) by {
            assert(bs[j].1 == key_sum(pre, bs[j].0));
            assert(bs[j].0 != key);
            lemma_lex_total(bs[j].0, key);
        }
    }
    assert forall|a: int, b: int| 0 <= a < b < nb.len() implies lex_lt(nb[a].0, nb[b].0) by {
        if !hit {
            if a < p && b == p {
            } else if a < p && b > p {
                assert(lex_lt(key, bs[b - 1].0));
                lemma_lex_trans(bs[a].0, key, bs[b - 1].0);
            } else if a == p && b > p {
                assert(lex_lt(key, bs[b - 1].0));
            } else if a > p {
                assert(lex_lt(bs[a - 1].0, bs[b - 1].0));
            } else {
                assert(lex_lt(bs[a].0, bs[b].0));
            }
        }
    }
    assert forall|k: Seq<char>| k != key implies #[trigger] key_sum(post, k) == key_sum(pre, k)
        && key_count(post, k) == key_count(pre, k) by {}
    assert(key_sum(post, key) == key_sum(pre, key) + amount);
    assert(key_count(post, key) == key_count(pre, key) + 1);
    if !hit {
        lemma_absent_sum(pre, key);
    }
    lemma_lex_total(key, key);
    assert forall|j: int| 0 <= j < nb.len() implies #[trigger] nb[j].1 == key_sum(post, nb[j].0)
        && nb[j].2 == key_count(post, nb[j].0) && nb[j].2 > 0 by {
        if hit {
            if j != p {
                assert(bs[j].1 == key_sum(pre, bs[j].0));
                if j < p {
                    assert(lex_lt(bs[j].0, bs[p].0));
                } else {
                    assert(lex_lt(bs[p].0, bs[j].0));
                }
                assert(bs[j].0 != key);
            } else {
                assert(bs[j].1 == key_sum(pre, bs[j].0));
            }
        } else {
            if j < p {
                assert(bs[j].1 == key_sum(pre, bs[j].0));
                assert(bs[j].0 != key);
            } else if j > p {
                assert(bs[j - 1].1 == key_sum(pre, bs[j - 1].0));
                assert(bs[j - 1].0 != key);
            }
        }
    }
    assert forall|k: Seq<char>| #[trigger] key_count(post, k) > 0 implies exists|j: int|
        0 <= j < nb.len() && nb[j].0 == k by {
        if k == key {
            assert(nb[p].0 == k);
        } else {
            assert(key_count(pre, k) > 0);
            let j = choose|j: int| 0 <= j < bs.len() && bs[j].0 == k;
            if hit || j < p {
                assert(nb[j].0 == k);
            } else {
                assert(nb[j + 1].0 == k);
            }
        }
    }
}

/// Group the `(label, amount)` rows into buckets ordered by label, each with
/// the sum (as `i64`) and the number of its rows.
pub fn group_by_label(rows: &Vec<(String, i32)>) -> (r: Vec<(String, i64, u64)>)
    requires
        rows@.len() <= u32::MAX,
    ensures
        groups(
            r@.map_values(|b: (String, i64, u64)| (b.0@, b.1 as int, b.2 as nat)),
            rows@.map_values(|x: (String, i32)| (x.0@, x.1)),
        ),
{
    let ghost rs = rows@.map_values(|x: (String, i32)| (x.0@, x.1));
    let mut out: Vec<(String, i64, u64)> = Vec::new();
    let n = rows.len();
    for i in 0..n
        invariant
            n == rows@.len(),
            n <= u32::MAX,
            rs == rows@.map_values(|x: (String, i32)| (x.0@, x.1)),
            groups(
                out@.map_values(|b: (String, i64, u64)| (b.0@, b.1 as int, b.2 as nat)),
                rs.take(i as int),
            ),
    {
        let ghost pre = rs.take(i as int);
        let ghost post = rs.take(i + 1);
        let ghost bs = out@.map_values(|b: (String, i64, u64)| (b.0@, b.1 as int, b.2 as nat));
        let key = &rows[i].0;
        let amount = rows[i].1;
        proof {
            assert(post.drop_last() =~= pre);
            assert(post.last() == (key@, amount));
            lemma_sum_bounds(post, key@);
        }
        let m = out.len();
        let mut p: usize = 0;
        while p < m && text_lt(out[p].0.as_str(), key.as_str())
            invariant
                m == out@.len(),
                p <= m,
                bs == out@.map_values(|b: (String, i64, u64)| (b.0@, b.1 as int, b.2 as nat)),
                forall|j: int| 0 <= j < p ==> lex_lt(#[trigger] bs[j].0, key@),
            decreases m - p,
        {
            p = p + 1;
        }
        let hit = p < m && crate::text::text_eq(out[p].0.as_str(), key.as_str());
        proof {
            assert forall|j: int| p <= j < m implies !lex_lt(#[trigger] bs[j].0, key@) by {
                if j > p {
                    lemma_lex_total(bs[p as int].0, key@);
                    if lex_lt(bs[j].0, key@) {
                        lemma_lex_trans(bs[p as int].0, bs[j].0, key@);
                    }
                }
            }
        }
        if hit {
            let (k, s, c) = out.remove(p);
            proof {
                assert(bs[p as int].0 == key@);
                assert(bs[p as int].1 == key_sum(pre, key@));
                assert(s == key_sum(pre, key@));
                assert(c == key_count(pre, key@));
                assert(key_sum(post, key@) == key_sum(pre, key@) + amount);
                assert(key_count(post, key@) == key_count(pre, key@) + 1);
                assert((post.len() as int) * 0x8000_0000 <= 0xFFFF_FFFFint * 0x8000_0000)
                    by (nonlinear_arith)
                    requires
                        post.len() <= 0xFFFF_FFFF,
                ;
            }
            let ns: i64 = s + amount as i64;
            let nc: u64 = c + 1;
            out.insert(p, (k, ns, nc));
        } else {
            out.insert(p, (key.clone(), amount as i64, 1u64));
        }
        proof {
            let nb = out@.map_values(|b: (String, i64, u64)| (b.0@, b.1 as int, b.2 as nat));
            if hit {
                assert forall|j: int| 0 <= j < nb.len() implies #[trigger] nb[j] == if j == p {
                    (key@, bs[j].1 + amount, bs[j].2 + 1)
                } else {
                    bs[j]
                } by {}
            } else {
                assert forall|j: int| 0 <= j < nb.len() implies #[trigger] nb[j] == if j < p {
                    bs[j]
                } else if j == p {
                    (key@, amount as int, 1nat)
                } else {
                    bs[j - 1]
                } by {}
            }
            lemma_group_step(bs, nb, pre, post, key@, amount, p as int, hit);
        }
    }
    proof {
        assert(rs.take(n as int) =~= rs);
    }
    out
}

} // verus!
