//! A set of names, listed in lexicographic order.

use vstd::prelude::*;

use crate::text::{lemma_lex_irreflexive, lemma_lex_total, lemma_lex_transitive, lex_less, same_text, text_less};

verus! {

/// Each name is below every later one: sorted, hence without repeats.
pub open spec fn sorted_names(s: Seq<Seq<char>>) -> bool {
    forall|i: int, j: int| 0 <= i < j < s.len() ==> lex_less(#[trigger] s[i], #[trigger] s[j])
}

/// The character sequences of a sequence of strings.
pub open spec fn texts(v: Seq<String>) -> Seq<Seq<char>> {
    v.map_values(|s: String| s@)
}

/// A set of names, kept in lexicographic order.
pub struct NameSet {
    names: Vec<String>,
}

impl NameSet {
    /// The names, in lexicographic order.
    pub closed spec fn listed(&self) -> Seq<Seq<char>> {
        texts(self.names@)
    }

    /// The set of names.
    pub open spec fn contents(&self) -> Set<Seq<char>> {
        self.listed().to_set()
    }

    /// The invariant: the names are listed in strictly increasing order.
    #[verifier::type_invariant]
    pub open spec fn well_formed(&self) -> bool {
        sorted_names(self.listed())
    }

    /// The empty set.
    pub fn new() -> (r: NameSet)
        ensures
            r.well_formed(),
            r.listed() == Seq::<Seq<char>>::empty(),
    {
        let r = NameSet { names: Vec::new() };
        assert(r.listed() =~= Seq::<Seq<char>>::empty());
        r
    }

    /// True when `name` is in the set.
    pub fn contains(&self, name: &str) -> (r: bool)
        ensures
            r == self.contents().contains(name@),
    {
        let mut i: usize = 0;
        while i < self.names.len()
            invariant
                i <= self.names@.len(),
                forall|j: int| 0 <= j < i ==> (#[trigger] self.names@[j])@ != name@,
            decreases self.names.len() - i,
        {
            if same_text(self.names[i].as_str(), name) {
                assert(self.listed()[i as int] == name@);
                return true;
            }
            i = i + 1;
        }
        assert(!self.contents().contains(name@)) by {
            if self.contents().contains(name@) {
                let k = choose|k: int| 0 <= k < self.listed().len() && self.listed()[k] == name@;
                assert(self.names@[k]@ == name@);
            }
        }
        false
    }

    fn position_of(&self, name: &str) -> (r: usize)
        ensures
            r <= self.listed().len(),
            forall|j: int| 0 <= j < r ==> lex_less(#[trigger] self.listed()[j], name@),
            r < self.listed().len() ==> !lex_less(self.listed()[r as int], name@),
    {
        let mut i: usize = 0;
        while i < self.names.len() && text_less(self.names[i].as_str(), name)
            invariant
                i <= self.names@.len(),
                forall|j: int| 0 <= j < i ==> lex_less(#[trigger] self.listed()[j], name@),
            decreases self.names.len() - i,
        {
            assert(self.listed()[i as int] == self.names@[i as int]@);
            i = i + 1;
        }
        i
    }

    /// Add `name`, keeping the order; adding a present name changes nothing.
    pub fn insert(&mut self, name: String)
        ensures
            final(self).well_formed(),
            final(self).contents() == old(self).contents().insert(name@),
    {
        proof {
            use_type_invariant(&*self);
        }
        let i = self.position_of(name.as_str());
        let ghost old_names = self.listed();
        if i < self.names.len() && same_text(self.names[i].as_str(), name.as_str()) {
            assert(old_names[i as int] == name@);
            assert(old_names.to_set() =~= old_names.to_set().insert(name@));
            return;
        }
        proof {
            if i < old_names.len() {
                lemma_lex_total(old_names[i as int], name@);
            }
        }
        let ghost nv = name@;
        let mut names: Vec<String> = Vec::new();
        std::mem::swap(&mut names, &mut self.names);
        names.insert(i, name);
        let ghost new_names = texts(names@);
        proof {
            assert(new_names =~= old_names.insert(i as int, nv));
            assert forall|a: int, b: int| 0 <= a < b < new_names.len() implies lex_less(
                #[trigger] new_names[a],
                #[trigger] new_names[b],
            ) by {
                if b < i {
                    assert(new_names[a] == old_names[a] && new_names[b] == old_names[b]);
                } else if b == i {
                    assert(new_names[a] == old_names[a]);
                } else if a == i {
                    assert(new_names[b] == old_names[b - 1]);
                    if b - 1 > i {
                        assert(lex_less(old_names[i as int], old_names[b - 1]));
                        lemma_lex_transitive(nv, old_names[i as int], old_names[b - 1]);
                    }
                } else if a < i {
                    assert(new_names[a] == old_names[a] && new_names[b] == old_names[b - 1]);
                    if a < b - 1 {
                    } else {
                        assert(false);
                    }
                } else {
                    assert(new_names[a] == old_names[a - 1] && new_names[b] == old_names[b - 1]);
                }
            }
            assert(new_names.to_set() =~= old_names.to_set().insert(nv)) by {
                assert forall|x: Seq<char>| new_names.to_set().contains(x) implies old_names.to_set().insert(
                    nv,
                ).contains(x) by {
                    let k = choose|k: int| 0 <= k < new_names.len() && new_names[k] == x;
                    if k < i {
                        assert(old_names[k] == x);
                    } else if k > i {
                        assert(old_names[k - 1] == x);
                    }
                }
                assert forall|x: Seq<char>| old_names.to_set().insert(nv).contains(
                    x,
                ) implies new_names.to_set().contains(x) by {
                    if x == nv {
                        assert(new_names[i as int] == x);
                    } else {
                        let k = choose|k: int| 0 <= k < old_names.len() && old_names[k] == x;
                        if k < i {
                            assert(new_names[k] == x);
                        } else {
                            assert(new_names[k + 1] == x);
                        }
                    }
                }
            }
        }
        self.names = names;
    }

    /// The names, in lexicographic order.
    pub fn list(&self) -> (r: Vec<String>)
        ensures
            texts(r@) == self.listed(),
            sorted_names(texts(r@)),
            texts(r@).to_set() == self.contents(),
    {
        proof {
            use_type_invariant(self);
        }
        let mut out: Vec<String> = Vec::new();
        let mut i: usize = 0;
        while i < self.names.len()
            invariant
                i <= self.names@.len(),
                out@ == self.names@.subrange(0, i as int),
            decreases self.names.len() - i,
        {
            out.push(self.names[i].clone());
            i = i + 1;
        }
        assert(out@ =~= self.names@);
        out
    }

    /// The number of names.
    pub fn len(&self) -> (r: usize)
        ensures
            r == self.listed().len(),
    {
        self.names.len()
    }
}

} // verus!
