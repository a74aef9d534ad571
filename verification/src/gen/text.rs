//! Character-level text helpers used by the generators.
use vstd::prelude::*;

verus! {

/// The characters of `s`, one element each.
pub fn chars_of(s: &str) -> (v: Vec<char>)
    ensures
        v@ == s@,
{
    let mut v: Vec<char> = Vec::new();
    for c in it: s.chars()
        invariant
            v@ == it.seq().take(it.index() as int),
            it.seq() == s@,
    {
        v.push(c);
    }
    v
}

/// Appends one character: `String::push`.
#[verifier::external_body]
pub(crate) fn push_char(s: &mut String, c: char)
    ensures
        final(s)@ == old(s)@.push(c),
{
    s.push(c);
}

/// A string holding the given characters.
pub fn string_of_chars(v: &Vec<char>) -> (s: String)
    ensures
        s@ == v@,
{
    let mut s = String::new();
    let n = v.len();
    for i in 0..n
        invariant
            n == v.len(),
            s@ == v@.take(i as int),
    {
        push_char(&mut s, v[i]);
        assert(v@.take(i + 1) == v@.take(i as int).push(v@[i as int]));
    }
    assert(v@.take(n as int) == v@);
    s
}

/// A fresh string equal to `a` followed by `b`.
pub fn concat2(a: &str, b: &str) -> (s: String)
    ensures
        s@ == a@ + b@,
{
    let mut s = a.to_owned();
    s.append(b);
    s
}

/// A fresh string equal to `a`, `b` and `c` in that order.
pub fn concat3(a: &str, b: &str, c: &str) -> (s: String)
    ensures
        s@ == a@ + b@ + c@,
{
    let mut s = a.to_owned();
    s.append(b);
    s.append(c);
    s
}

/// Whether `pat` occurs in `s` at position `i`.
pub open spec fn occurs_at(s: Seq<char>, pat: Seq<char>, i: int) -> bool {
    0 <= i && i + pat.len() <= s.len() && s.subrange(i, i + pat.len()) == pat
}

/// `s` with every non-overlapping occurrence of `pat`, scanned from the
/// left, replaced by `rep`; `s` itself where `pat` is empty.
pub open spec fn replace_all_spec(s: Seq<char>, pat: Seq<char>, rep: Seq<char>) -> Seq<char>
    decreases s.len(),
{
    if pat.len() == 0 || s.len() < pat.len() {
        s
    } else if s.subrange(0, pat.len() as int) == pat {
        rep + replace_all_spec(s.subrange(pat.len() as int, s.len() as int), pat, rep)
    } else {
        seq![s[0]] + replace_all_spec(s.subrange(1, s.len() as int), pat, rep)
    }
}

pub(crate) fn matches_at(s: &Vec<char>, pat: &Vec<char>, i: usize) -> (b: bool)
    requires
        i <= s.len(),
    ensures
        b == occurs_at(s@, pat@, i as int),
{
    if pat.len() > s.len() - i {
        return false;
    }
    let mut j: usize = 0;
    while j < pat.len()
        invariant
            j <= pat.len(),
            i + pat.len() <= s.len(),
            forall|k: int| 0 <= k < j ==> s@[i + k] == pat@[k],
        decreases pat.len() - j,
    {
        if s[i + j] != pat[j] {
            assert(s@.subrange(i as int, i + pat.len())[j as int] != pat@[j as int]);
            return false;
        }
        j = j + 1;
    }
    assert(s@.subrange(i as int, i + pat.len()) =~= pat@);
    true
}

proof fn lemma_replace_step(s: Seq<char>, pat: Seq<char>, rep: Seq<char>, i: int)
    requires
        pat.len() > 0,
        0 <= i <= s.len(),
    ensures
        i + pat.len() > s.len() ==> replace_all_spec(s.subrange(i, s.len() as int), pat, rep)
            == s.subrange(i, s.len() as int),
        occurs_at(s, pat, i) ==> replace_all_spec(s.subrange(i, s.len() as int), pat, rep) == rep
            + replace_all_spec(s.subrange(i + pat.len(), s.len() as int), pat, rep),
        i + pat.len() <= s.len() && !occurs_at(s, pat, i) ==> replace_all_spec(
            s.subrange(i, s.len() as int),
            pat,
            rep,
        ) == seq![s[i]] + replace_all_spec(s.subrange(i + 1, s.len() as int), pat, rep),
{
    let t = s.subrange(i, s.len() as int);
    if i + pat.len() <= s.len() {
        assert(t.subrange(0, pat.len() as int) == s.subrange(i, i + pat.len()));
        assert(t.subrange(pat.len() as int, t.len() as int) == s.subrange(
            i + pat.len(),
            s.len() as int,
        ));
        assert(t.subrange(1, t.len() as int) == s.subrange(i + 1, s.len() as int));
    }
}

/// Replaces every non-overlapping occurrence of `pat` in `s` by `rep`,
/// scanning from the left: `str::replace` for a non-empty pattern.
pub fn replace_all(s: &str, pat: &str, rep: &str) -> (r: String)
    requires
        pat@.len() > 0,
    ensures
        r@ == replace_all_spec(s@, pat@, rep@),
{
    let sv = chars_of(s);
    let pv = chars_of(pat);
    let mut out = String::new();
    let n = sv.len();
    let mut i: usize = 0;
    proof {
        assert(sv@.subrange(0, n as int) == sv@);
    }
    while i < n
        invariant
            n == sv.len(),
            i <= n,
            pv@.len() > 0,
            sv@ == s@,
            pv@ == pat@,
            replace_all_spec(s@, pat@, rep@) == out@ + replace_all_spec(
                sv@.subrange(i as int, n as int),
                pv@,
                rep@,
            ),
        decreases n - i,
    {
        proof {
            lemma_replace_step(sv@, pv@, rep@, i as int);
        }
        if matches_at(&sv, &pv, i) {
            let ghost before = out@;
            out.append(rep);
            i = i + pv.len();
            assert(out@ == before + rep@);
        } else if pv.len() > n - i {
            proof {
                assert(replace_all_spec(s@, pat@, rep@) == out@ + sv@.subrange(i as int, n as int));
            }
            let mut k = i;
            while k < n
                invariant
                    n == sv.len(),
                    i <= k <= n,
                    replace_all_spec(s@, pat@, rep@) == out@ + sv@.subrange(k as int, n as int),
                decreases n - k,
            {
                let ghost before = out@;
                push_char(&mut out, sv[k]);
                proof {
                    assert(sv@.subrange(k as int, n as int) == seq![sv@[k as int]] + sv@.subrange(
                        k + 1,
                        n as int,
                    ));
                }
                k = k + 1;
            }
            proof {
                assert(sv@.subrange(n as int, n as int) == Seq::<char>::empty());
            }
            return out;
        } else {
            push_char(&mut out, sv[i]);
            i = i + 1;
        }
    }
    proof {
        assert(sv@.subrange(n as int, n as int) == Seq::<char>::empty());
    }
    out
}


/// The character of a digit below sixteen, lower-case for ten and above.
pub open spec fn digit_char(d: nat) -> char {
    if d < 10 {
        (d + 48) as char
    } else {
        (d - 10 + 97) as char
    }
}

/// The digits of `n` in base `b`, most significant first, without sign,
/// prefix or leading zeros (`"0"` for zero).
pub open spec fn digits_spec(n: nat, b: nat) -> Seq<char>
    recommends
        2 <= b <= 16,
    decreases n,
{
    if b < 2 || n < b {
        seq![digit_char(n % 16)]
    } else {
        proof {
            assert(n / b < n) by (nonlinear_arith)
                requires
                    b >= 2,
                    n >= b,
            ;
        }
        digits_spec(n / b, b).push(digit_char(n % b))
    }
}

fn digit_of(d: u64) -> (c: char)
    requires
        d < 16,
    ensures
        c == digit_char(d as nat),
{
    if d < 10 {
        ((d as u8) + 48u8) as char
    } else {
        ((d as u8) - 10u8 + 97u8) as char
    }
}

/// Appends the digits of `n` in base `b` to `out`.
pub fn push_digits(out: &mut String, n: u64, b: u64)
    requires
        2 <= b <= 16,
    ensures
        final(out)@ == old(out)@ + digits_spec(n as nat, b as nat),
    decreases n,
{
    if n >= b {
        proof {
            assert(n / b < n) by (nonlinear_arith)
                requires
                    b >= 2,
                    n >= b,
            ;
        }
        push_digits(out, n / b, b);
        push_char(out, digit_of(n % b));
    } else {
        push_char(out, digit_of(n % 16));
    }
}

/// `n` written in decimal: `format!("{n}")` for an unsigned integer.
pub open spec fn unsigned_decimal(n: nat) -> Seq<char> {
    digits_spec(n, 10)
}

/// `n` written in decimal with a leading `-` when negative:
/// `format!("{n}")` for a signed integer.
pub open spec fn signed_decimal(n: int) -> Seq<char> {
    if n < 0 {
        seq!['-'] + digits_spec((-n) as nat, 10)
    } else {
        digits_spec(n as nat, 10)
    }
}

/// `n` written as `0x` followed by its lower-case hexadecimal digits:
/// `format!("{n:#x}")` for an unsigned integer.
pub open spec fn prefixed_hex(n: nat) -> Seq<char> {
    seq!['0', 'x'] + digits_spec(n, 16)
}

/// Decimal text of an unsigned integer.
pub fn u64_decimal(n: u64) -> (s: String)
    ensures
        s@ == unsigned_decimal(n as nat),
{
    let mut s = String::new();
    push_digits(&mut s, n, 10);
    s
}

/// Decimal text of a signed integer.
pub fn i64_decimal(n: i64) -> (s: String)
    ensures
        s@ == signed_decimal(n as int),
{
    let mut s = String::new();
    if n < 0 {
        push_char(&mut s, '-');
        let m: u64 = (0i128 - (n as i128)) as u64;
        push_digits(&mut s, m, 10);
    } else {
        push_digits(&mut s, n as u64, 10);
    }
    s
}

/// `0x`-prefixed lower-case hexadecimal text of an unsigned integer.
pub fn u64_prefixed_hex(n: u64) -> (s: String)
    ensures
        s@ == prefixed_hex(n as nat),
{
    let mut s = String::new();
    push_char(&mut s, '0');
    push_char(&mut s, 'x');
    push_digits(&mut s, n, 16);
    s
}


/// Whether `pat` occurs somewhere in `s`.
pub open spec fn contains_spec(s: Seq<char>, pat: Seq<char>) -> bool {
    exists|i: int| occurs_at(s, pat, i)
}

/// Whether `pat` occurs in `s`: `str::contains`.
pub fn contains(s: &str, pat: &str) -> (b: bool)
    ensures
        b == contains_spec(s@, pat@),
{
    let sv = chars_of(s);
    let pv = chars_of(pat);
    let n = sv.len();
    for i in 0..n
        invariant
            n == sv.len(),
            sv@ == s@,
            pv@ == pat@,
            forall|j: int| 0 <= j < i ==> !occurs_at(s@, pat@, j),
    {
        if matches_at(&sv, &pv, i) {
            return true;
        }
    }
    if matches_at(&sv, &pv, n) {
        return true;
    }
    proof {
        assert forall|j: int| !occurs_at(s@, pat@, j) by {
            if 0 <= j < n {
            }
        }
    }
    false
}


/// Text that holds `p` still holds it with more text after it.
pub broadcast proof fn lemma_contains_extend(s: Seq<char>, t: Seq<char>, p: Seq<char>)
    requires
        contains_spec(s, p),
    ensures
        #[trigger] contains_spec(s + t, p),
{
    let i = choose|i: int| occurs_at(s, p, i);
    assert((s + t).subrange(i, i + p.len()) =~= s.subrange(i, i + p.len()));
    assert(occurs_at(s + t, p, i));
}

/// Text that holds `p` still holds it with more text before it.
pub broadcast proof fn lemma_contains_extend_left(s: Seq<char>, t: Seq<char>, p: Seq<char>)
    requires
        contains_spec(t, p),
    ensures
        #[trigger] contains_spec(s + t, p),
{
    let i = choose|i: int| occurs_at(t, p, i);
    assert((s + t).subrange(s.len() + i, s.len() + i + p.len()) =~= t.subrange(i, i + p.len()));
    assert(occurs_at(s + t, p, s.len() + i));
}

/// What a part of a text holds, the text holds.
pub proof fn lemma_contains_trans(s: Seq<char>, q: Seq<char>, p: Seq<char>)
    requires
        contains_spec(s, q),
        contains_spec(q, p),
    ensures
        contains_spec(s, p),
{
    let i = choose|i: int| occurs_at(s, q, i);
    let j = choose|j: int| occurs_at(q, p, j);
    assert(s.subrange(i + j, i + j + p.len()) =~= q.subrange(j, j + p.len()));
    assert(occurs_at(s, p, i + j));
}

/// Pieces written one after the other hold each piece.
pub proof fn lemma_concat_all_contains(ps: Seq<Seq<char>>, i: int)
    requires
        0 <= i < ps.len(),
    ensures
        contains_spec(concat_all(ps), ps[i]),
    decreases ps.len(),
{
    if i == ps.len() - 1 {
        lemma_contains_mid(concat_all(ps.drop_last()), ps[i], Seq::empty());
        assert(concat_all(ps.drop_last()) + ps[i] + Seq::<char>::empty() =~= concat_all(ps));
    } else {
        lemma_concat_all_contains(ps.drop_last(), i);
        lemma_contains_extend(concat_all(ps.drop_last()), ps.last(), ps[i]);
    }
}

/// A text holds what stands in its middle.
pub proof fn lemma_contains_mid(a: Seq<char>, p: Seq<char>, b: Seq<char>)
    ensures
        contains_spec(a + p + b, p),
{
    assert((a + p + b).subrange(a.len() as int, (a.len() + p.len()) as int) =~= p);
    assert(occurs_at(a + p + b, p, a.len() as int));
}

/// The pieces written one after the other.
pub open spec fn concat_all(ps: Seq<Seq<char>>) -> Seq<char>
    decreases ps.len(),
{
    if ps.len() == 0 {
        Seq::empty()
    } else {
        concat_all(ps.drop_last()) + ps.last()
    }
}

/// The pieces written one after the other with `sep` between neighbours.
pub open spec fn join_spec(ps: Seq<Seq<char>>, sep: Seq<char>) -> Seq<char>
    decreases ps.len(),
{
    if ps.len() == 0 {
        Seq::empty()
    } else if ps.len() == 1 {
        ps[0]
    } else {
        join_spec(ps.drop_last(), sep) + sep + ps.last()
    }
}

/// Writing one more piece appends it.
pub proof fn lemma_concat_all_step(ps: Seq<Seq<char>>, i: int)
    requires
        0 <= i < ps.len(),
    ensures
        concat_all(ps.take(i + 1)) == concat_all(ps.take(i)) + ps[i],
{
    assert(ps.take(i + 1).drop_last() =~= ps.take(i));
}

/// Joining one more piece appends the separator and the piece.
pub proof fn lemma_join_step(ps: Seq<Seq<char>>, sep: Seq<char>, i: int)
    requires
        0 < i < ps.len(),
    ensures
        join_spec(ps.take(i + 1), sep) == join_spec(ps.take(i), sep) + sep + ps[i],
{
    assert(ps.take(i + 1).drop_last() =~= ps.take(i));
}


/// The views of a vector of strings.
pub open spec fn views(v: Seq<String>) -> Seq<Seq<char>> {
    v.map_values(|s: String| s@)
}

/// The strings joined with `sep` between neighbours: `[String]::join`.
pub fn join_strings(ps: &Vec<String>, sep: &str) -> (r: String)
    ensures
        r@ == join_spec(views(ps@), sep@),
{
    let ghost vs = views(ps@);
    let n = ps.len();
    if n == 0 {
        return String::new();
    }
    let mut r = ps[0].clone();
    proof {
        assert(vs.take(1).len() == 1);
        assert(vs.take(1)[0] == ps@[0]@);
    }
    let mut i: usize = 1;
    while i < n
        invariant
            n == ps@.len(),
            1 <= i <= n,
            vs == views(ps@),
            r@ == join_spec(vs.take(i as int), sep@),
        decreases n - i,
    {
        proof {
            lemma_join_step(vs, sep@, i as int);
        }
        r.append(sep);
        r.append(ps[i].as_str());
        i = i + 1;
    }
    assert(vs.take(n as int) =~= vs);
    r
}

} // verus!
