//! Lexicographic order of names, by character code: the order in which
//! `String` keys of a `BTreeMap` are walked.
use vstd::prelude::*;
use crate::gen::text::{chars_of, views};

verus! {

/// `a` sorts before `b`, comparing from position `i` on.
pub open spec fn chars_lt_from(a: Seq<char>, b: Seq<char>, i: int) -> bool
    decreases a.len() - i,
{
    if i < 0 || i >= a.len() {
        0 <= i < b.len()
    } else if i >= b.len() {
        false
    } else if a[i] == b[i] {
        chars_lt_from(a, b, i + 1)
    } else {
        (a[i] as u32) < (b[i] as u32)
    }
}

/// `a` sorts strictly before `b`.
pub open spec fn chars_lt(a: Seq<char>, b: Seq<char>) -> bool {
    chars_lt_from(a, b, 0)
}

proof fn lemma_char_codes(c: char, d: char)
    ensures
        c as u32 == c as int,
        d as u32 == d as int,
        c != d ==> c as int != d as int,
{
}

proof fn lemma_lt_from_irreflexive(a: Seq<char>, i: int)
    requires
        0 <= i,
    ensures
        !chars_lt_from(a, a, i),
    decreases a.len() - i,
{
    if i < a.len() {
        lemma_lt_from_irreflexive(a, i + 1);
    }
}

proof fn lemma_lt_from_transitive(a: Seq<char>, b: Seq<char>, c: Seq<char>, i: int)
    requires
        0 <= i,
        chars_lt_from(a, b, i),
        chars_lt_from(b, c, i),
    ensures
        chars_lt_from(a, c, i),
    decreases a.len() - i,
{
    if i < a.len() && i < b.len() && i < c.len() && a[i] == b[i] && b[i] == c[i] {
        lemma_lt_from_transitive(a, b, c, i + 1);
    }
}

proof fn lemma_lt_from_total(a: Seq<char>, b: Seq<char>, i: int)
    requires
        0 <= i <= a.len(),
        i <= b.len(),
        !chars_lt_from(a, b, i),
        !chars_lt_from(b, a, i),
    ensures
        a.len() == b.len(),
        forall|j: int| i <= j < a.len() ==> a[j] == b[j],
    decreases a.len() - i,
{
    if i < a.len() && i < b.len() && a[i] == b[i] {
        lemma_lt_from_total(a, b, i + 1);
    }
    if i < a.len() && i < b.len() && a[i] != b[i] {
        lemma_char_codes(a[i], b[i]);
    }
}

/// No name sorts before itself.
pub proof fn lemma_lt_irreflexive(a: Seq<char>)
    ensures
        !chars_lt(a, a),
{
    lemma_lt_from_irreflexive(a, 0);
}

/// The order is transitive.
pub proof fn lemma_lt_transitive(a: Seq<char>, b: Seq<char>, c: Seq<char>)
    requires
        chars_lt(a, b),
        chars_lt(b, c),
    ensures
        chars_lt(a, c),
{
    lemma_lt_from_transitive(a, b, c, 0);
}

/// Of two different names, one sorts before the other.
pub proof fn lemma_lt_total(a: Seq<char>, b: Seq<char>)
    requires
        a != b,
    ensures
        chars_lt(a, b) || chars_lt(b, a),
{
    if !chars_lt(a, b) && !chars_lt(b, a) {
        lemma_lt_from_total(a, b, 0);
        assert(a =~= b);
    }
}

/// Compares two names: negative when `a` sorts first, zero when they are
/// equal, positive when `b` sorts first.
pub fn compare_chars(a: &Vec<char>, b: &Vec<char>) -> (r: i8)
    ensures
        r < 0 <==> chars_lt(a@, b@),
        r == 0 <==> a@ == b@,
        r > 0 <==> chars_lt(b@, a@),
{
    let mut i: usize = 0;
    while i < a.len() && i < b.len()
        invariant
            i <= a.len(),
            i <= b.len(),
            forall|j: int| 0 <= j < i ==> a@[j] == b@[j],
            chars_lt(a@, b@) == chars_lt_from(a@, b@, i as int),
            chars_lt(b@, a@) == chars_lt_from(b@, a@, i as int),
        decreases a.len() - i,
    {
        if a[i] != b[i] {
            proof {
                let x = a@[i as int];
                let y = b@[i as int];
                lemma_char_codes(x, y);
                lemma_lt_irreflexive(a@);
                if a@ == b@ {
                    assert(a@[i as int] == b@[i as int]);
                }
            }
            if (a[i] as u32) < (b[i] as u32) {
                return -1;
            } else {
                return 1;
            }
        }
        i = i + 1;
    }
    proof {
        lemma_lt_irreflexive(a@);
    }
    if a.len() < b.len() {
        -1
    } else if b.len() < a.len() {
        1
    } else {
        assert(a@ =~= b@);
        0
    }
}

/// Two strictly sorted sequences with the same elements are the same.
pub proof fn lemma_sorted_unique(a: Seq<Seq<char>>, b: Seq<Seq<char>>)
    requires
        forall|i: int, j: int| 0 <= i < j < a.len() ==> chars_lt(#[trigger] a[i], #[trigger] a[j]),
        forall|i: int, j: int| 0 <= i < j < b.len() ==> chars_lt(#[trigger] b[i], #[trigger] b[j]),
        forall|x: Seq<char>| a.contains(x) <==> b.contains(x),
    ensures
        a == b,
    decreases a.len(),
{
    if a.len() == 0 {
        if b.len() > 0 {
            assert(b.contains(b[0]));
        }
        assert(a =~= b);
    } else {
        assert(a.contains(a[0]));
        assert(b.len() > 0);
        assert(b.contains(b[0]));
        if a[0] != b[0] {
            let j = choose|j: int| 0 <= j < a.len() && a[j] == b[0];
            let k = choose|k: int| 0 <= k < b.len() && b[k] == a[0];
            assert(j > 0 && k > 0);
            assert(chars_lt(a[0], a[j]));
            assert(chars_lt(b[0], b[k]));
            lemma_lt_transitive(a[0], b[0], a[0]);
            lemma_lt_irreflexive(a[0]);
        }
        let a1 = a.drop_first();
        let b1 = b.drop_first();
        assert forall|x: Seq<char>| a1.contains(x) <==> b1.contains(x) by {
            if a1.contains(x) {
                let i = choose|i: int| 0 <= i < a1.len() && a1[i] == x;
                assert(chars_lt(a[0], a[i + 1]));
                if x == a[0] {
                    lemma_lt_irreflexive(x);
                }
                assert(a.contains(x));
                let j = choose|j: int| 0 <= j < b.len() && b[j] == x;
                assert(j != 0);
                assert(b1[j - 1] == x);
            }
            if b1.contains(x) {
                let i = choose|i: int| 0 <= i < b1.len() && b1[i] == x;
                assert(chars_lt(b[0], b[i + 1]));
                if x == b[0] {
                    lemma_lt_irreflexive(x);
                }
                assert(b.contains(x));
                let j = choose|j: int| 0 <= j < a.len() && a[j] == x;
                assert(j != 0);
                assert(a1[j - 1] == x);
            }
        }
        assert forall|i: int, j: int| 0 <= i < j < a1.len() implies chars_lt(#[trigger] a1[i], #[trigger] a1[j]) by {
            assert(chars_lt(a[i + 1], a[j + 1]));
        }
        assert forall|i: int, j: int| 0 <= i < j < b1.len() implies chars_lt(#[trigger] b1[i], #[trigger] b1[j]) by {
            assert(chars_lt(b[i + 1], b[j + 1]));
        }
        lemma_sorted_unique(a1, b1);
        assert(a =~= b) by {
            assert forall|i: int| 0 <= i < a.len() implies a[i] == b[i] by {
                if i > 0 {
                    assert(a1[i - 1] == b1[i - 1]);
                }
            }
        }
    }
}

/// The elements of a set of names, in strictly increasing order.
pub open spec fn sorted_of(s: Set<Seq<char>>) -> Seq<Seq<char>> {
    choose|q: Seq<Seq<char>>| strictly_sorted(q) && forall|x: Seq<char>| #[trigger] q.contains(x) <==> s.contains(x)
}

/// Every name sorts strictly before the names after it.
pub open spec fn strictly_sorted(ks: Seq<Seq<char>>) -> bool {
    forall|i: int, j: int| 0 <= i < j < ks.len() ==> chars_lt(#[trigger] ks[i], #[trigger] ks[j])
}

/// A strictly sorted sequence with the elements of `s` is `sorted_of(s)`.
pub proof fn lemma_sorted_of(q: Seq<Seq<char>>, s: Set<Seq<char>>)
    requires
        strictly_sorted(q),
        forall|x: Seq<char>| #[trigger] q.contains(x) <==> s.contains(x),
    ensures
        sorted_of(s) == q,
{
    let w = sorted_of(s);
    assert(strictly_sorted(w) && forall|x: Seq<char>| #[trigger] w.contains(x) <==> s.contains(x));
    lemma_sorted_unique(w, q);
}

/// The distinct strings of `v`, in increasing order.
pub fn sorted_unique(v: &Vec<String>) -> (r: Vec<String>)
    ensures
        views(r@) == sorted_of(views(v@).to_set()),
{
    let mut r: Vec<String> = Vec::new();
    let mut keys: Vec<Vec<char>> = Vec::new();
    let n = v.len();
    for i in 0..n
        invariant
            n == v@.len(),
            keys@.len() == r@.len(),
            forall|j: int| 0 <= j < r@.len() ==> (#[trigger] keys@[j])@ == r@[j]@,
            strictly_sorted(views(r@)),
            forall|y: Seq<char>| #[trigger] views(r@).contains(y) <==> views(v@.take(i as int)).contains(y),
    {
        let x = chars_of(v[i].as_str());
        let mut p: usize = 0;
        while p < keys.len() && compare_chars(&keys[p], &x) < 0
            invariant
                p <= keys@.len(),
                keys@.len() == r@.len(),
                forall|j: int| 0 <= j < p ==> chars_lt(#[trigger] keys@[j]@, x@),
            decreases keys@.len() - p,
        {
            p = p + 1;
        }
        let ghost before = views(r@);
        let ghost vx = x@;
        assert(views(v@.take(i + 1)) =~= views(v@.take(i as int)).push(vx));
        if p < keys.len() && compare_chars(&keys[p], &x) == 0 {
            assert(keys@[p as int]@ == r@[p as int]@);
            assert(before[p as int] == vx);
            assert forall|y: Seq<char>| #[trigger] views(r@).contains(y) <==> views(v@.take(i + 1)).contains(y) by {
                if y == vx {
                    assert(before.contains(vx));
                    assert(views(v@.take(i + 1))[i as int] == vx);
                }
                if views(r@).contains(y) {
                    let w = views(v@.take(i as int));
                    assert(w.contains(y));
                    let k = choose|k: int| 0 <= k < w.len() && #[trigger] w[k] == y;
                    assert(views(v@.take(i + 1))[k] == y);
                }
                if views(v@.take(i + 1)).contains(y) && y != vx {
                    let w = views(v@.take(i + 1));
                    let k = choose|k: int| 0 <= k < w.len() && #[trigger] w[k] == y;
                    assert(views(v@.take(i as int))[k] == y);
                }
            }
        } else {
            proof {
                assert forall|j: int| 0 <= j < p implies chars_lt(#[trigger] before[j], vx) by {
                    assert(keys@[j]@ == r@[j]@);
                }
                if p < keys.len() {
                    assert(keys@[p as int]@ == r@[p as int]@);
                }
                assert forall|j: int| p <= j < before.len() implies chars_lt(vx, #[trigger] before[j]) by {
                    if j == p {
                        lemma_lt_total(before[j], vx);
                    } else {
                        lemma_lt_total(before[p as int], vx);
                        lemma_lt_transitive(vx, before[p as int], before[j]);
                    }
                }
            }
            r.insert(p, v[i].clone());
            keys.insert(p, x);
            assert(views(r@) =~= before.insert(p as int, vx));
            assert forall|a: int, b: int| 0 <= a < b < views(r@).len() implies chars_lt(#[trigger] views(r@)[a], #[trigger] views(r@)[b]) by {
                if b < p {
                } else if a < p && b == p {
                } else if a < p && b > p {
                    assert(chars_lt(before[a], vx));
                    lemma_lt_transitive(before[a], vx, before[b - 1]);
                } else if a == p {
                } else {
                    assert(chars_lt(before[a - 1], before[b - 1]));
                }
            }
            assert forall|y: Seq<char>| #[trigger] views(r@).contains(y) <==> views(v@.take(i + 1)).contains(y) by {
                if views(r@).contains(y) {
                    let w = views(r@);
                    let k = choose|k: int| 0 <= k < w.len() && #[trigger] w[k] == y;
                    if k == p {
                        assert(views(v@.take(i + 1))[i as int] == vx);
                    } else {
                        if k < p {
                            assert(before[k] == y);
                        } else {
                            assert(before[k - 1] == y);
                        }
                        assert(before.contains(y));
                        let w2 = views(v@.take(i as int));
                        assert(w2.contains(y));
                        let k2 = choose|k2: int| 0 <= k2 < w2.len() && #[trigger] w2[k2] == y;
                        assert(views(v@.take(i + 1))[k2] == y);
                    }
                }
                if views(v@.take(i + 1)).contains(y) {
                    if y == vx {
                        assert(views(r@)[p as int] == y);
                    } else {
                        let w = views(v@.take(i + 1));
                        let k = choose|k: int| 0 <= k < w.len() && #[trigger] w[k] == y;
                        assert(views(v@.take(i as int))[k] == y);
                        assert(before.contains(y));
                        let q = choose|q: int| 0 <= q < before.len() && #[trigger] before[q] == y;
                        if q < p {
                            assert(views(r@)[q] == y);
                        } else {
                            assert(views(r@)[q + 1] == y);
                        }
                    }
                }
            }
        }
    }
    assert(v@.take(n as int) =~= v@);
    proof {
        lemma_sorted_of(views(r@), views(v@).to_set());
    }
    r
}

} // verus!
