//! The order of a history: commits by commit date, the newest first, and
//! commits of the same date by their identifiers.

use vstd::prelude::*;
use vstd::string::*;
use crate::history::CommitInfo;

verus! {

/// Whether `a` comes before `b`, or equals it, in the order of the
/// dictionary, character by character.
pub open spec fn lex_le(a: Seq<char>, b: Seq<char>) -> bool
    decreases a.len(),
{
    if a.len() == 0 {
        true
    } else if b.len() == 0 {
        false
    } else if a[0] < b[0] {
        true
    } else if a[0] > b[0] {
        false
    } else {
        lex_le(a.drop_first(), b.drop_first())
    }
}

/// Whether the commit `a` may stand before the commit `b` in a history: it
/// is newer, or as old and its identifier does not come later.
pub open spec fn precedes(a: CommitInfo, b: CommitInfo) -> bool {
    a.time > b.time || (a.time == b.time && lex_le(a.id@, b.id@))
}

/// Whether each commit of `s` may stand before all that follow it.
pub open spec fn in_order(s: Seq<CommitInfo>) -> bool {
    forall|i: int, j: int| 0 <= i < j < s.len() ==> precedes(s[i], s[j])
}

/// Where `x` goes into `s`: behind the last commit that may stand before it.
pub open spec fn slot(s: Seq<CommitInfo>, x: CommitInfo) -> int
    decreases s.len(),
{
    if s.len() == 0 || precedes(s.last(), x) {
        s.len() as int
    } else {
        slot(s.drop_last(), x)
    }
}

/// `s` in order: its commits by date, the newest first, those of one date by
/// identifier, and those that agree in both as they stood in `s`.
pub open spec fn ordered(s: Seq<CommitInfo>) -> Seq<CommitInfo>
    decreases s.len(),
{
    if s.len() == 0 {
        s
    } else {
        let before = ordered(s.drop_last());
        before.insert(slot(before, s.last()), s.last())
    }
}

/// Of two texts one comes before the other, or they are equal.
pub proof fn lemma_lex_total(a: Seq<char>, b: Seq<char>)
    ensures
        lex_le(a, b) || lex_le(b, a),
    decreases a.len(),
{
    if a.len() > 0 && b.len() > 0 && a[0] == b[0] {
        lemma_lex_total(a.drop_first(), b.drop_first());
    }
}

/// The order of the dictionary is transitive.
pub proof fn lemma_lex_transitive(a: Seq<char>, b: Seq<char>, c: Seq<char>)
    requires
        lex_le(a, b),
        lex_le(b, c),
    ensures
        lex_le(a, c),
    decreases a.len(),
{
    if a.len() > 0 && b.len() > 0 && c.len() > 0 {
        if a[0] == b[0] && b[0] == c[0] {
            lemma_lex_transitive(a.drop_first(), b.drop_first(), c.drop_first());
        }
    }
}

/// Texts that come before each other are equal.
pub proof fn lemma_lex_antisymmetric(a: Seq<char>, b: Seq<char>)
    requires
        lex_le(a, b),
        lex_le(b, a),
    ensures
        a == b,
    decreases a.len(),
{
    if a.len() > 0 && b.len() > 0 {
        lemma_lex_antisymmetric(a.drop_first(), b.drop_first());
        assert(a =~= seq![a[0]] + a.drop_first());
        assert(b =~= seq![b[0]] + b.drop_first());
    } else {
        assert(a =~= b);
    }
}

/// Of two commits one may stand before the other.
pub proof fn lemma_precedes_total(a: CommitInfo, b: CommitInfo)
    ensures
        precedes(a, b) || precedes(b, a),
{
    lemma_lex_total(a.id@, b.id@);
}

/// What may stand before a commit may stand before all that the commit may
/// stand before.
pub proof fn lemma_precedes_transitive(a: CommitInfo, b: CommitInfo, c: CommitInfo)
    requires
        precedes(a, b),
        precedes(b, c),
    ensures
        precedes(a, c),
{
    if a.time == b.time && b.time == c.time {
        lemma_lex_transitive(a.id@, b.id@, c.id@);
    }
}

/// The slot of a commit lies within the sequence; what stands at it and
/// behind it in an ordered sequence may not stand before the commit, and what
/// stands right before it may.
pub proof fn lemma_slot(s: Seq<CommitInfo>, x: CommitInfo)
    ensures
        0 <= slot(s, x) <= s.len(),
        slot(s, x) > 0 ==> precedes(s[slot(s, x) - 1], x),
        forall|k: int| slot(s, x) <= k < s.len() ==> !precedes(#[trigger] s[k], x),
    decreases s.len(),
{
    if s.len() == 0 || precedes(s.last(), x) {
    } else {
        let init = s.drop_last();
        lemma_slot(init, x);
        assert forall|k: int| slot(s, x) <= k < s.len() implies !precedes(#[trigger] s[k], x) by {
            if k < init.len() {
                assert(s[k] == init[k]);
            }
        }
        if slot(s, x) > 0 {
            assert(s[slot(s, x) - 1] == init[slot(init, x) - 1]);
        }
    }
}

/// Putting a commit at its slot keeps an ordered sequence ordered.
pub proof fn lemma_insert_keeps_order(s: Seq<CommitInfo>, x: CommitInfo)
    requires
        in_order(s),
    ensures
        in_order(s.insert(slot(s, x), x)),
{
    lemma_slot(s, x);
    let at = slot(s, x);
    let t = s.insert(at, x);
    assert forall|i: int, j: int| 0 <= i < j < t.len() implies precedes(t[i], t[j]) by {
        if j < at {
            assert(t[i] == s[i] && t[j] == s[j]);
        } else if j == at {
            assert(t[j] == x);
            assert(t[i] == s[i]);
            if i < at - 1 {
                assert(precedes(s[i], s[at - 1]));
                lemma_precedes_transitive(s[i], s[at - 1], x);
            }
        } else if i == at {
            assert(t[i] == x);
            assert(t[j] == s[j - 1]);
            assert(!precedes(s[j - 1], x));
            lemma_precedes_total(s[j - 1], x);
        } else if i < at {
            assert(t[i] == s[i] && t[j] == s[j - 1]);
        } else {
            assert(t[i] == s[i - 1] && t[j] == s[j - 1]);
        }
    }
}

/// The ordered form of a walk is in order and holds exactly the commits of
/// the walk, each as often as the walk holds it.
pub proof fn lemma_ordered(s: Seq<CommitInfo>)
    ensures
        in_order(ordered(s)),
        ordered(s).len() == s.len(),
        ordered(s).to_multiset() == s.to_multiset(),
    decreases s.len(),
{
    broadcast use vstd::seq_lib::group_to_multiset_ensures;

    if s.len() == 0 {
    } else {
        let init = s.drop_last();
        let last = s.last();
        lemma_ordered(init);
        let before = ordered(init);
        lemma_slot(before, last);
        lemma_insert_keeps_order(before, last);
        let at = slot(before, last);
        assert(s =~= init.push(last));
        vstd::seq_lib::to_multiset_insert(before, at, last);
        assert(ordered(s).to_multiset() =~= before.to_multiset().insert(last));
        assert(s.to_multiset() =~= init.to_multiset().insert(last));
    }
}

/// Two walks that hold the same commits have the same ordered form, as long
/// as no two of their commits share both date and identifier: the order of a
/// history does not depend on the order in which its commits were found.
pub proof fn lemma_order_is_stable(a: Seq<CommitInfo>, b: Seq<CommitInfo>)
    requires
        a.to_multiset() == b.to_multiset(),
        forall|i: int, j: int|
            0 <= i < j < a.len() ==> !(a[i].time == a[j].time && a[i].id@ == a[j].id@),
    ensures
        ordered(a) == ordered(b),
{
    lemma_ordered(a);
    lemma_ordered(b);
    let x = ordered(a);
    let y = ordered(b);
    assert(x.to_multiset() == y.to_multiset());
    lemma_distinct_keys(a, x);
    lemma_same_ordered(x, y);
}

/// A sequence with the commits of one without two commits of the same date
/// and identifier has no two such commits either.
proof fn lemma_distinct_keys(a: Seq<CommitInfo>, x: Seq<CommitInfo>)
    requires
        a.to_multiset() == x.to_multiset(),
        forall|i: int, j: int|
            0 <= i < j < a.len() ==> !(a[i].time == a[j].time && a[i].id@ == a[j].id@),
    ensures
        forall|i: int, j: int|
            0 <= i < j < x.len() ==> !(x[i].time == x[j].time && x[i].id@ == x[j].id@),
{
    broadcast use vstd::seq_lib::group_to_multiset_ensures;

    assert forall|i: int, j: int| 0 <= i < j < x.len() implies !(x[i].time == x[j].time
        && x[i].id@ == x[j].id@) by {
        if x[i].time == x[j].time && x[i].id@ == x[j].id@ {
            // Both stand in `a`, at different places or as one value twice.
            assert(x.to_multiset().count(x[i]) > 0);
            assert(x.to_multiset().count(x[j]) > 0);
            assert(a.to_multiset().count(x[i]) > 0);
            assert(a.to_multiset().count(x[j]) > 0);
            assert(a.contains(x[i]));
            assert(a.contains(x[j]));
            let p = choose|p: int| 0 <= p < a.len() && a[p] == x[i];
            let q = choose|q: int| 0 <= q < a.len() && a[q] == x[j];
            if p != q {
                if p < q {
                    assert(!(a[p].time == a[q].time && a[p].id@ == a[q].id@));
                } else {
                    assert(!(a[q].time == a[p].time && a[q].id@ == a[p].id@));
                }
            } else {
                // One value, twice in `x`, so twice in `a`.
                assert(x[i] == x[j]);
                lemma_count_two(x, i, j);
                assert(a.to_multiset().count(x[i]) >= 2);
                lemma_two_places(a, x[i]);
            }
        }
    }
}

/// A value at two places of a sequence counts at least twice.
proof fn lemma_count_two(x: Seq<CommitInfo>, i: int, j: int)
    requires
        0 <= i < j < x.len(),
        x[i] == x[j],
    ensures
        x.to_multiset().count(x[i]) >= 2,
    decreases x.len(),
{
    broadcast use vstd::seq_lib::group_to_multiset_ensures;

    let init = x.drop_last();
    let last = x.last();
    assert(x =~= init.push(last));
    assert(x.to_multiset() =~= init.to_multiset().insert(last));
    if j == x.len() - 1 {
        assert(init[i] == x[i]);
        assert(init.contains(x[i]));
        assert(init.to_multiset().count(x[i]) > 0);
    } else {
        assert(init[i] == x[i] && init[j] == x[j]);
        lemma_count_two(init, i, j);
    }
}

/// A value that counts at least twice stands at two places.
proof fn lemma_two_places(a: Seq<CommitInfo>, v: CommitInfo)
    requires
        a.to_multiset().count(v) >= 2,
    ensures
        exists|p: int, q: int| 0 <= p < q < a.len() && a[p] == v && a[q] == v,
    decreases a.len(),
{
    broadcast use vstd::seq_lib::group_to_multiset_ensures;

    if a.len() == 0 {
        assert(a.to_multiset().count(v) == 0);
    } else {
        let init = a.drop_last();
        let last = a.last();
        assert(a =~= init.push(last));
        assert(a.to_multiset() =~= init.to_multiset().insert(last));
        if last == v {
            assert(init.to_multiset().count(v) >= 1);
            assert(init.contains(v));
            let p = choose|p: int| 0 <= p < init.len() && init[p] == v;
            assert(a[p] == v && a[a.len() - 1] == v);
        } else {
            lemma_two_places(init, v);
            let (p, q) = choose|p: int, q: int|
                0 <= p < q < init.len() && init[p] == v && init[q] == v;
            assert(a[p] == v && a[q] == v);
        }
    }
}

/// Two ordered sequences of the same commits, no two of them of the same
/// date and identifier, are the same sequence.
proof fn lemma_same_ordered(x: Seq<CommitInfo>, y: Seq<CommitInfo>)
    requires
        in_order(x),
        in_order(y),
        x.to_multiset() == y.to_multiset(),
        forall|i: int, j: int|
            0 <= i < j < x.len() ==> !(x[i].time == x[j].time && x[i].id@ == x[j].id@),
    ensures
        x == y,
    decreases x.len(),
{
    broadcast use vstd::seq_lib::group_to_multiset_ensures;

    assert(x.len() == y.len()) by {
        x.to_multiset_ensures();
        y.to_multiset_ensures();
    }
    if x.len() == 0 {
        assert(x =~= y);
    } else {
        // The first of `x` stands somewhere in `y`, and the first of `y`
        // somewhere in `x`; each may stand before the other, so they agree in
        // date and identifier, and by that are one commit of `x`.
        let fx = x[0];
        let fy = y[0];
        assert(x.contains(fx));
        assert(x.to_multiset().count(fx) > 0);
        assert(y.to_multiset().count(fx) > 0);
        assert(y.contains(fx));
        let q = choose|q: int| 0 <= q < y.len() && y[q] == fx;
        assert(y.contains(fy));
        assert(y.to_multiset().count(fy) > 0);
        assert(x.to_multiset().count(fy) > 0);
        assert(x.contains(fy));
        let p = choose|p: int| 0 <= p < x.len() && x[p] == fy;
        if p > 0 {
            assert(precedes(x[0], x[p]));
            if q > 0 {
                assert(precedes(y[0], y[q]));
            }
            assert(precedes(fy, fx));
            assert(fx.time == fy.time);
            lemma_lex_antisymmetric(fx.id@, fy.id@);
            assert(false);
        }
        assert(fx == fy);
        let xs = x.drop_first();
        let ys = y.drop_first();
        assert(x =~= seq![fx] + xs);
        assert(y =~= seq![fy] + ys);
        assert(xs.to_multiset() =~= x.to_multiset().remove(fx)) by {
            vstd::seq_lib::to_multiset_remove(x, 0);
            assert(x.remove(0) =~= xs);
        }
        assert(ys.to_multiset() =~= y.to_multiset().remove(fy)) by {
            vstd::seq_lib::to_multiset_remove(y, 0);
            assert(y.remove(0) =~= ys);
        }
        assert forall|i: int, j: int| 0 <= i < j < xs.len() implies precedes(xs[i], xs[j]) by {
            assert(xs[i] == x[i + 1] && xs[j] == x[j + 1]);
        }
        assert forall|i: int, j: int| 0 <= i < j < ys.len() implies precedes(ys[i], ys[j]) by {
            assert(ys[i] == y[i + 1] && ys[j] == y[j + 1]);
        }
        assert forall|i: int, j: int| 0 <= i < j < xs.len() implies !(xs[i].time == xs[j].time
            && xs[i].id@ == xs[j].id@) by {
            assert(xs[i] == x[i + 1] && xs[j] == x[j + 1]);
        }
        lemma_same_ordered(xs, ys);
    }
}

/// Whether `a` comes before `b`, or equals it, in the order of the dictionary.
pub fn text_le(a: &str, b: &str) -> (r: bool)
    ensures
        r == lex_le(a@, b@),
{
    let n = a.unicode_len();
    let m = b.unicode_len();
    let mut i: usize = 0;
    proof {
        assert(a@.subrange(0, n as int) =~= a@);
        assert(b@.subrange(0, m as int) =~= b@);
    }
    while i < n && i < m
        invariant
            i <= n,
            i <= m,
            n == a@.len(),
            m == b@.len(),
            lex_le(a@, b@) == lex_le(a@.subrange(i as int, n as int), b@.subrange(i as int, m as int)),
        decreases n - i,
    {
        let x = a.get_char(i);
        let y = b.get_char(i);
        let ghost ra = a@.subrange(i as int, n as int);
        let ghost rb = b@.subrange(i as int, m as int);
        assert(ra[0] == a@[i as int] && rb[0] == b@[i as int]);
        if x < y {
            return true;
        }
        if x > y {
            return false;
        }
        proof {
            assert(ra.drop_first() =~= a@.subrange(i + 1, n as int));
            assert(rb.drop_first() =~= b@.subrange(i + 1, m as int));
        }
        i += 1;
    }
    i == n
}

/// Whether the commit `a` may stand before the commit `b` in a history.
pub fn may_precede(a: &CommitInfo, b: &CommitInfo) -> (r: bool)
    ensures
        r == precedes(*a, *b),
{
    a.time > b.time || (a.time == b.time && text_le(a.id.as_str(), b.id.as_str()))
}

/// Puts the commits of a walk in order: by commit date, the newest first,
/// those of one date by identifier.
pub fn order_walk(commits: Vec<CommitInfo>) -> (out: Vec<CommitInfo>)
    ensures
        out@ == ordered(commits@),
        in_order(out@),
        out@.to_multiset() == commits@.to_multiset(),
{
    let mut out: Vec<CommitInfo> = Vec::new();
    let mut i: usize = 0;
    while i < commits.len()
        invariant
            i <= commits.len(),
            out@ == ordered(commits@.subrange(0, i as int)),
            out.len() == i,
        decreases commits.len() - i,
    {
        let next = commits[i].duplicate();
        let ghost seen = commits@.subrange(0, i as int);
        let ghost before = out@;
        let mut at: usize = out.len();
        proof {
            assert(before.subrange(0, at as int) =~= before);
        }
        while at > 0 && !may_precede(&out[at - 1], &next)
            invariant
                at <= out.len(),
                out@ == before,
                slot(before, next) == slot(before.subrange(0, at as int), next),
            decreases at,
        {
            proof {
                let head = before.subrange(0, at as int);
                assert(head.last() == before[at - 1]);
                assert(head.drop_last() =~= before.subrange(0, at - 1));
            }
            at -= 1;
        }
        proof {
            let head = before.subrange(0, at as int);
            if at > 0 {
                assert(head.last() == before[at - 1]);
            }
            assert(slot(head, next) == at);
            assert(commits@.subrange(0, i + 1).drop_last() =~= seen);
            assert(commits@.subrange(0, i + 1).last() == next);
            lemma_ordered(seen);
        }
        out.insert(at, next);
        i += 1;
    }
    proof {
        assert(commits@.subrange(0, commits.len() as int) =~= commits@);
        lemma_ordered(commits@);
    }
    out
}

} // verus!
