//! The record of which type helpers and support definitions have been
//! emitted, so that each is emitted once.
use vstd::prelude::*;
use crate::gen::order::{chars_lt, compare_chars, lemma_lt_irreflexive, lemma_lt_total, lemma_lt_transitive, lemma_sorted_of, sorted_of, strictly_sorted};
use crate::gen::text::{chars_of, string_of_chars};
use crate::gen::types::Type;

verus! {

/// The names under which type helpers are registered, each with the type it
/// stands for, kept in name order; and the names of support definitions that
/// do not stand for a type.
pub struct TypeHelpersRenderer {
    keys: Vec<Vec<char>>,
    types: Vec<Type>,
    custom: Vec<Vec<char>>,
}

/// The names of `keys`, in order.
pub open spec fn key_seq(keys: Seq<Vec<char>>) -> Seq<Seq<char>> {
    keys.map_values(|v: Vec<char>| v@)
}


impl TypeHelpersRenderer {
    /// The registered names, in name order.
    pub closed spec fn names(&self) -> Seq<Seq<char>> {
        key_seq(self.keys@)
    }

    /// Each registered name with the type registered under it last.
    pub closed spec fn helpers(&self) -> Map<Seq<char>, Type> {
        let ks = key_seq(self.keys@);
        Map::new(
            |k: Seq<char>| exists|i: int| 0 <= i < ks.len() && ks[i] == k,
            |k: Seq<char>| self.types@[choose|i: int| 0 <= i < ks.len() && ks[i] == k],
        )
    }

    /// The names of the support definitions emitted so far.
    pub closed spec fn custom_names(&self) -> Set<Seq<char>> {
        Set::new(|k: Seq<char>| exists|i: int| 0 <= i < self.custom@.len() && self.custom@[i]@ == k)
    }

    /// The names are kept sorted and paired with one type each.
    pub closed spec fn well_formed(&self) -> bool {
        &&& self.keys@.len() == self.types@.len()
        &&& strictly_sorted(key_seq(self.keys@))
    }

    /// An empty registry.
    pub fn new() -> (r: Self)
        ensures
            r.well_formed(),
            r.helpers() == Map::<Seq<char>, Type>::empty(),
            r.custom_names() == Set::<Seq<char>>::empty(),
    {
        let r = TypeHelpersRenderer { keys: Vec::new(), types: Vec::new(), custom: Vec::new() };
        assert(r.helpers() =~= Map::<Seq<char>, Type>::empty());
        assert(r.custom_names() =~= Set::<Seq<char>>::empty());
        r
    }

    /// The position of the first name that does not sort before `key`.
    fn position(&self, key: &Vec<char>) -> (p: usize)
        requires
            self.well_formed(),
        ensures
            p <= self.keys@.len(),
            forall|j: int| 0 <= j < p ==> chars_lt(#[trigger] self.names()[j], key@),
            p < self.keys@.len() ==> !chars_lt(self.names()[p as int], key@),
    {
        let mut p: usize = 0;
        while p < self.keys.len()
            invariant
                p <= self.keys@.len(),
                forall|j: int| 0 <= j < p ==> chars_lt(#[trigger] key_seq(self.keys@)[j], key@),
            decreases self.keys@.len() - p,
        {
            if compare_chars(&self.keys[p], key) >= 0 {
                return p;
            }
            p = p + 1;
        }
        p
    }

    /// Registers `ty` under `name` and tells whether the name was registered
    /// already; a later type under the same name replaces the earlier one.
    pub fn include_once_check(&mut self, name: &str, ty: &Type) -> (found: bool)
        requires
            old(self).well_formed(),
        ensures
            final(self).well_formed(),
            found == old(self).helpers().contains_key(name@),
            final(self).helpers() == old(self).helpers().insert(name@, *ty),
            final(self).custom_names() == old(self).custom_names(),
    {
        let key = chars_of(name);
        let p = self.position(&key);
        let ghost ks = key_seq(self.keys@);
        let ghost old_self = *self;
        proof {
            assert forall|i: int, j: int| 0 <= i < ks.len() && 0 <= j < ks.len() && i != j implies ks[i]
                != ks[j] by {
                if i < j {
                    assert(chars_lt(ks[i], ks[j]));
                } else {
                    assert(chars_lt(ks[j], ks[i]));
                }
                lemma_lt_irreflexive(ks[i]);
            }
        }
        if p < self.keys.len() && compare_chars(&self.keys[p], &key) == 0 {
            let t = ty.duplicate();
            self.types.set(p, t);
            proof {
                assert(key_seq(self.keys@) == ks);
                assert(old_self.helpers().contains_key(name@)) by {
                    assert(ks[p as int] == name@);
                }
                assert forall|k: Seq<char>| #![auto] self.helpers().contains_key(k) == old_self.helpers().insert(name@, *ty).contains_key(k) by {}
                assert forall|k: Seq<char>| #![auto] self.helpers().contains_key(k) implies self.helpers()[k]
                    == old_self.helpers().insert(name@, *ty)[k] by {
                    let i = choose|i: int| 0 <= i < ks.len() && ks[i] == k;
                    if k == name@ {
                        assert(ks[p as int] == k);
                    }
                }
                assert(self.helpers() =~= old_self.helpers().insert(name@, *ty));
            }
            true
        } else {
            proof {
                assert forall|j: int| 0 <= j < ks.len() implies ks[j] != name@ by {
                    if j < p {
                        assert(chars_lt(ks[j], key@));
                        lemma_lt_irreflexive(ks[j]);
                    } else {
                        assert(!chars_lt(ks[p as int], key@));
                        if j > p {
                            assert(chars_lt(ks[p as int], ks[j]));
                            if ks[j] == name@ {
                                lemma_lt_total(ks[p as int], key@);
                            }
                        }
                    }
                }
                assert(!old_self.helpers().contains_key(name@));
            }
            let t = ty.duplicate();
            self.keys.insert(p, key);
            self.types.insert(p, t);
            proof {
                let nks = key_seq(self.keys@);
                assert(nks =~= ks.insert(p as int, name@));
                if p < ks.len() {
                    lemma_lt_total(ks[p as int], key@);
                }
                assert forall|i: int, j: int| 0 <= i < j < nks.len() implies chars_lt(
                    #[trigger] nks[i],
                    #[trigger] nks[j],
                ) by {
                    if j == p {
                        assert(chars_lt(ks[i], key@));
                    } else if i == p {
                        assert(chars_lt(key@, ks[p as int]));
                        if j - 1 > p {
                            assert(chars_lt(ks[p as int], ks[j - 1]));
                            lemma_lt_transitive(key@, ks[p as int], ks[j - 1]);
                        }
                    } else if i < p && j > p {
                        assert(chars_lt(ks[i], ks[j - 1]));
                    } else if i > p {
                        assert(chars_lt(ks[i - 1], ks[j - 1]));
                    } else {
                        assert(chars_lt(ks[i], ks[j]));
                    }
                }
                assert forall|i: int, j: int| 0 <= i < nks.len() && 0 <= j < nks.len() && i != j implies nks[i]
                    != nks[j] by {
                    if i < j {
                        assert(chars_lt(nks[i], nks[j]));
                    } else {
                        assert(chars_lt(nks[j], nks[i]));
                    }
                    lemma_lt_irreflexive(nks[i]);
                }
                assert forall|k: Seq<char>| #![auto] self.helpers().contains_key(k) == old_self.helpers().insert(name@, *ty).contains_key(k) by {
                    if old_self.helpers().contains_key(k) {
                        let i = choose|i: int| 0 <= i < ks.len() && ks[i] == k;
                        if i < p {
                            assert(nks[i] == k);
                        } else {
                            assert(nks[i + 1] == k);
                        }
                    }
                    if k == name@ {
                        assert(nks[p as int] == k);
                    }
                    if self.helpers().contains_key(k) && k != name@ {
                        let i = choose|i: int| 0 <= i < nks.len() && nks[i] == k;
                        if i < p {
                            assert(ks[i] == k);
                        } else {
                            assert(ks[i - 1] == k);
                        }
                    }
                }
                assert forall|k: Seq<char>| #![auto] self.helpers().contains_key(k) implies self.helpers()[k]
                    == old_self.helpers().insert(name@, *ty)[k] by {
                    let i = choose|i: int| 0 <= i < nks.len() && nks[i] == k;
                    if k == name@ {
                        assert(nks[p as int] == k);
                    } else {
                        let oi = choose|i: int| 0 <= i < ks.len() && ks[i] == k;
                        if oi < p {
                            assert(nks[oi] == k);
                        } else {
                            assert(nks[oi + 1] == k);
                        }
                    }
                }
                assert(self.helpers() =~= old_self.helpers().insert(name@, *ty));
            }
            false
        }
    }

    /// Whether a helper is registered under `name`.
    pub fn check(&self, name: &str) -> (found: bool)
        requires
            self.well_formed(),
        ensures
            found == self.helpers().contains_key(name@),
    {
        let key = chars_of(name);
        let p = self.position(&key);
        let ghost ks = key_seq(self.keys@);
        if p < self.keys.len() && compare_chars(&self.keys[p], &key) == 0 {
            assert(ks[p as int] == name@);
            true
        } else {
            proof {
                assert forall|j: int| 0 <= j < ks.len() implies ks[j] != name@ by {
                    if j < p {
                        assert(chars_lt(ks[j], key@));
                        lemma_lt_irreflexive(ks[j]);
                    } else if j > p {
                        assert(chars_lt(ks[p as int], ks[j]));
                        if ks[j] == name@ {
                            lemma_lt_total(ks[p as int], key@);
                        }
                    }
                }
            }
            false
        }
    }

    /// Records that the support definition `name` is emitted and tells
    /// whether it had been emitted already.
    pub fn include_once_by_name(&mut self, name: &str) -> (found: bool)
        requires
            old(self).well_formed(),
        ensures
            final(self).well_formed(),
            found == old(self).custom_names().contains(name@),
            final(self).custom_names() == old(self).custom_names().insert(name@),
            final(self).helpers() == old(self).helpers(),
    {
        let key = chars_of(name);
        let mut i: usize = 0;
        while i < self.custom.len()
            invariant
                i <= self.custom@.len(),
                *self == *old(self),
                self.well_formed(),
                key@ == name@,
                forall|j: int| 0 <= j < i ==> self.custom@[j]@ != key@,
            decreases self.custom@.len() - i,
        {
            if compare_chars(&self.custom[i], &key) == 0 {
                proof {
                    assert(self.custom@[i as int]@ == name@);
                    assert(self.custom_names().contains(name@));
                    assert(self.custom_names() =~= self.custom_names().insert(name@));
                }
                return true;
            }
            i = i + 1;
        }
        let ghost old_self = *self;
        self.custom.push(key);
        proof {
            assert forall|k: Seq<char>| #![auto] self.custom_names().contains(k) == old_self.custom_names().insert(name@).contains(k) by {
                if k == name@ {
                    assert(self.custom@[self.custom@.len() - 1]@ == k);
                }
                if old_self.custom_names().contains(k) {
                    let j = choose|j: int| 0 <= j < old_self.custom@.len() && old_self.custom@[j]@ == k;
                    assert(self.custom@[j]@ == k);
                }
            }
            assert(self.custom_names() =~= old_self.custom_names().insert(name@));
            assert(self.helpers() =~= old_self.helpers());
        }
        false
    }

    /// The registered names in name order, each with its type.
    pub fn get_include_names(&self) -> (r: Vec<(String, Type)>)
        requires
            self.well_formed(),
        ensures
            r@.len() == self.names().len(),
            forall|i: int| 0 <= i < r@.len() ==> (#[trigger] r@[i]).0@ == self.names()[i],
            forall|i: int| 0 <= i < r@.len() ==> self.helpers()[r@[i].0@] == (#[trigger] r@[i]).1,
            strictly_sorted(self.names()),
            forall|k: Seq<char>| self.helpers().contains_key(k) <==> exists|i: int| 0 <= i < r@.len() && #[trigger] r@[i].0@ == k,
    {
        let mut r: Vec<(String, Type)> = Vec::new();
        let n = self.keys.len();
        let ghost ks = key_seq(self.keys@);
        proof {
            assert forall|i: int, j: int| 0 <= i < ks.len() && 0 <= j < ks.len() && i != j implies ks[i]
                != ks[j] by {
                if i < j {
                    assert(chars_lt(ks[i], ks[j]));
                } else {
                    assert(chars_lt(ks[j], ks[i]));
                }
                lemma_lt_irreflexive(ks[i]);
            }
        }
        for i in 0..n
            invariant
                n == self.keys@.len(),
                n == self.types@.len(),
                ks == key_seq(self.keys@),
                forall|a: int, b: int| 0 <= a < ks.len() && 0 <= b < ks.len() && a != b ==> ks[a] != ks[b],
                r@.len() == i,
                forall|j: int| 0 <= j < i ==> (#[trigger] r@[j]).0@ == ks[j] && r@[j].1 == self.types@[j],
        {
            let name = string_of_chars(&self.keys[i]);
            let t = self.types[i].duplicate();
            r.push((name, t));
        }
        proof {
            assert forall|i: int| 0 <= i < r@.len() implies self.helpers()[r@[i].0@] == (#[trigger] r@[i]).1 by {
                assert(ks[i] == r@[i].0@);
                let c = choose|c: int| 0 <= c < ks.len() && ks[c] == r@[i].0@;
            }
            assert forall|k: Seq<char>| self.helpers().contains_key(k) implies exists|i: int| 0 <= i < r@.len() && #[trigger] r@[i].0@ == k by {
                let c = choose|c: int| 0 <= c < ks.len() && ks[c] == k;
                assert(r@[c].0@ == k);
            }
        }
        r
    }
}

/// A name once registered is found by every later registration and check,
/// and a later type under the same name replaces the earlier one.
pub proof fn registration_is_remembered(m: Map<Seq<char>, Type>, name: Seq<char>, first: Type, later: Type)
    ensures
        m.insert(name, first).contains_key(name),
        m.insert(name, first).insert(name, later)[name] == later,
        m.insert(name, first).insert(name, later).dom() == m.insert(name, first).dom(),
{
    assert(m.insert(name, first).insert(name, later).dom() =~= m.insert(name, first).dom());
}

impl TypeHelpersRenderer {
    /// The registered names are those of the helpers, in name order.
    pub proof fn names_in_name_order(&self)
        requires
            self.well_formed(),
        ensures
            self.names() == sorted_of(self.helpers().dom()),
    {
        let ks = self.names();
        assert forall|x: Seq<char>| #[trigger] ks.contains(x) <==> self.helpers().dom().contains(x) by {
            if ks.contains(x) {
                let i = choose|i: int| 0 <= i < ks.len() && ks[i] == x;
                assert(exists|i: int| 0 <= i < ks.len() && ks[i] == x);
            }
        }
        lemma_sorted_of(ks, self.helpers().dom());
    }
}

} // verus!
