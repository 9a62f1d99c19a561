//! Choosing which cropped frames of a recording to keep: the best few, no two within a second
//! (15 frames) of each other.
use vstd::prelude::*;
use crate::utils::absdiff;

verus! {

/// How many frames are kept at most.
pub const KEEP: usize = 5;

/// How many frames apart two kept frames must be, more than this.
pub const GAP: u32 = 15;

/// Whether two frames are more than a second apart.
pub open spec fn apart(a: u32, b: u32) -> bool {
    if a > b { a - b > GAP } else { b - a > GAP }
}

/// Whether a frame survives the round that keeps `cur`: it is `cur` or more than a second from
/// it.
pub open spec fn survives(cur: u32) -> spec_fn(u32) -> bool {
    |fa: u32| fa == cur || apart(fa, cur)
}

/// The frames left after the rounds from the `i`-th on: each round keeps the frame at its
/// position and drops every other frame within a second of it, for the first `KEEP` positions
/// (or all, when fewer are left).
pub open spec fn thinned(s: Seq<u32>, i: nat) -> Seq<u32>
    decreases KEEP - i,
{
    if i >= KEEP || i >= s.len() {
        s
    } else {
        thinned(s.filter(survives(s[i as int])), i + 1)
    }
}

/// The frames kept from frames ordered best first: the first `KEEP` left after thinning.
pub open spec fn spec_keepers(sorted: Seq<u32>) -> Seq<u32> {
    let t = thinned(sorted, 0);
    if t.len() > KEEP { t.take(KEEP as int) } else { t }
}

/// The frames of `s` that survive the round that keeps `cur`, in their order.
fn keep_apart(s: &Vec<u32>, cur: u32) -> (r: Vec<u32>)
    ensures
        r@ == s@.filter(survives(cur)),
{
    let mut out: Vec<u32> = Vec::new();
    let mut j: usize = 0;
    while j < s.len()
        invariant
            j <= s.len(),
            out@ == s@.take(j as int).filter(survives(cur)),
        decreases s.len() - j,
    {
        let fa = s[j];
        proof {
            assert(s@.take(j + 1) =~= s@.take(j as int).push(fa));
            s@.take(j as int).lemma_filter_push(fa, survives(cur));
        }
        if fa == cur || absdiff(fa, cur) > GAP {
            out.push(fa);
        }
        j = j + 1;
    }
    assert(s@.take(j as int) =~= s@);
    out
}

/// The frames to keep, from the frames ordered best first: the best frame is kept, every frame
/// within a second of it dropped, and so on for the next best left, up to `KEEP` frames.
pub fn keepers(sorted: &Vec<u32>) -> (r: Vec<u32>)
    ensures
        r@ == spec_keepers(sorted@),
{
    let mut k: Vec<u32> = sorted.clone();
    assert(k@ =~= sorted@);
    let mut i: usize = 0;
    while i < KEEP && i < k.len()
        invariant
            i <= KEEP,
            thinned(k@, i as nat) == thinned(sorted@, 0),
        decreases KEEP - i,
    {
        let cur = k[i];
        k = keep_apart(&k, cur);
        i = i + 1;
    }
    if k.len() > KEEP {
        k.truncate(KEEP);
    }
    k
}

/// Every frame among the first `n` is more than a second from every other frame of `s`, or the
/// same frame.
pub open spec fn spread(s: Seq<u32>, n: int) -> bool {
    forall|a: int, b: int|
        0 <= a < n && a < s.len() && 0 <= b < s.len() && a != b ==> s[a] == s[b] || apart(s[a], s[b])
}

/// A filter that keeps every item keeps the sequence.
proof fn lemma_filter_all(t: Seq<u32>, p: spec_fn(u32) -> bool)
    requires
        forall|k: int| 0 <= k < t.len() ==> p(t[k]),
    ensures
        t.filter(p) == t,
    decreases t.len(),
{
    if t.len() > 0 {
        lemma_filter_all(t.drop_last(), p);
        assert(t.drop_last().push(t.last()) =~= t);
        t.drop_last().lemma_filter_push(t.last(), p);
    }
}

/// A filter that keeps the first `n` items leaves them at their positions.
proof fn lemma_filter_prefix(s: Seq<u32>, p: spec_fn(u32) -> bool, n: int)
    requires
        0 <= n <= s.len(),
        forall|k: int| 0 <= k < n ==> p(s[k]),
    ensures
        s.filter(p).len() >= n,
        forall|k: int| 0 <= k < n ==> s.filter(p)[k] == s[k],
{
    assert(s.take(n) + s.skip(n) =~= s);
    Seq::filter_distributes_over_add(s.take(n), s.skip(n), p);
    lemma_filter_all(s.take(n), p);
}

/// Thinning from the `i`-th round on, where the rounds before kept their frames apart, leaves
/// the first `KEEP` frames apart from all others.
proof fn lemma_thinned_spread(s: Seq<u32>, i: nat)
    requires
        spread(s, i as int),
    ensures
        spread(thinned(s, i), KEEP as int),
    decreases KEEP - i,
{
    if i >= KEEP || i >= s.len() {
    } else {
        let cur = s[i as int];
        let p = survives(cur);
        let t = s.filter(p);
        assert forall|k: int| 0 <= k < i + 1 implies p(s[k]) by {
            if k < i {
                assert(s[k] == s[i as int] || apart(s[k], s[i as int]));
            }
        }
        lemma_filter_prefix(s, p, (i + 1) as int);
        assert forall|a: int, b: int|
            0 <= a < i + 1 && a < t.len() && 0 <= b < t.len() && a != b implies t[a] == t[b] || apart(t[a], t[b]) by {
            s.lemma_filter_pred(p, b);
            assert(t.contains(t[b]));
            s.lemma_filter_contains_rev(p, t[b]);
            let c = choose|c: int| 0 <= c < s.len() && s[c] == t[b];
            if a < i && c != a {
                assert(s[a] == s[c] || apart(s[a], s[c]));
            }
        }
        lemma_thinned_spread(t, i + 1);
    }
}

/// No two frames that `keepers` keeps are within a second of each other, unless they are the
/// same frame; at most `KEEP` are kept, each one of those given, and the best frame is kept
/// first.
pub proof fn law_keepers_apart(sorted: Seq<u32>)
    ensures
        spec_keepers(sorted).len() <= KEEP,
        forall|a: int, b: int|
            0 <= a < spec_keepers(sorted).len() && 0 <= b < spec_keepers(sorted).len() && a != b
                ==> spec_keepers(sorted)[a] == spec_keepers(sorted)[b] || apart(spec_keepers(sorted)[a], spec_keepers(sorted)[b]),
        forall|a: int| 0 <= a < spec_keepers(sorted).len() ==> sorted.contains(#[trigger] spec_keepers(sorted)[a]),
        sorted.len() > 0 ==> spec_keepers(sorted).len() > 0 && spec_keepers(sorted)[0] == sorted[0],
{
    lemma_thinned_spread(sorted, 0);
    lemma_thinned_within(sorted, 0);
}

/// Thinning keeps only given frames, and from the `i`-th round on it leaves the first `i + 1`
/// positions as they were.
proof fn lemma_thinned_within(s: Seq<u32>, i: nat)
    requires
        spread(s, i as int),
    ensures
        forall|a: int| 0 <= a < thinned(s, i).len() ==> s.contains(#[trigger] thinned(s, i)[a]),
        thinned(s, i).len() >= if s.len() < i + 1 { s.len() as int } else { (i + 1) as int },
        forall|a: int| 0 <= a <= i && a < s.len() ==> thinned(s, i)[a] == s[a],
    decreases KEEP - i,
{
    if i >= KEEP || i >= s.len() {
    } else {
        let cur = s[i as int];
        let p = survives(cur);
        let t = s.filter(p);
        assert forall|k: int| 0 <= k < i + 1 implies p(s[k]) by {
            if k < i {
                assert(s[k] == s[i as int] || apart(s[k], s[i as int]));
            }
        }
        lemma_filter_prefix(s, p, (i + 1) as int);
        assert forall|a: int, b: int|
            0 <= a < i + 1 && a < t.len() && 0 <= b < t.len() && a != b implies t[a] == t[b] || apart(t[a], t[b]) by {
            s.lemma_filter_pred(p, b);
            assert(t.contains(t[b]));
            s.lemma_filter_contains_rev(p, t[b]);
            let c = choose|c: int| 0 <= c < s.len() && s[c] == t[b];
            if a < i && c != a {
                assert(s[a] == s[c] || apart(s[a], s[c]));
            }
        }
        lemma_thinned_within(t, i + 1);
        assert forall|a: int| 0 <= a < thinned(s, i).len() implies s.contains(#[trigger] thinned(s, i)[a]) by {
            assert(t.contains(thinned(t, i + 1)[a]));
            s.lemma_filter_contains_rev(p, thinned(t, i + 1)[a]);
        }
    }
}

} // verus!
