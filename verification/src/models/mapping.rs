//! A small map from column names to texts that keeps the order in which
//! its keys arrived.

use crate::text::same_text;
use vstd::prelude::*;

verus! {

/// The view of a pair of strings.
pub open spec fn pair_view(p: (String, String)) -> (Seq<char>, Seq<char>) {
    (p.0@, p.1@)
}

/// The views of a sequence of pairs, in order.
pub open spec fn pair_views(pairs: Seq<(String, String)>) -> Seq<(Seq<char>, Seq<char>)> {
    Seq::new(pairs.len(), |i: int| pair_view(pairs[i]))
}

/// No key stands in two places.
pub open spec fn distinct_keys(pairs: Seq<(Seq<char>, Seq<char>)>) -> bool {
    forall|i: int, j: int| 0 <= i < j < pairs.len() ==> pairs[i].0 != pairs[j].0
}

/// `key` stands at place `i` of `pairs`.
pub open spec fn bound_at(pairs: Seq<(Seq<char>, Seq<char>)>, key: Seq<char>, i: int) -> bool {
    0 <= i < pairs.len() && pairs[i].0 == key
}

/// `key` stands somewhere in `pairs`.
pub open spec fn is_bound(pairs: Seq<(Seq<char>, Seq<char>)>, key: Seq<char>) -> bool {
    exists|i: int| bound_at(pairs, key, i)
}

/// A place at which `key` stands in `pairs`; the only one where the keys
/// are distinct.
pub open spec fn place_of(pairs: Seq<(Seq<char>, Seq<char>)>, key: Seq<char>) -> int {
    choose|i: int| bound_at(pairs, key, i)
}

/// `pairs` with `key` bound to `value`: in the key's place if it has one,
/// at the end otherwise.
pub open spec fn with_binding(
    pairs: Seq<(Seq<char>, Seq<char>)>,
    key: Seq<char>,
    value: Seq<char>,
) -> Seq<(Seq<char>, Seq<char>)> {
    if is_bound(pairs, key) {
        pairs.update(place_of(pairs, key), (key, value))
    } else {
        pairs.push((key, value))
    }
}

/// Binding a key keeps the keys distinct, binds the key to the value and
/// leaves every other binding as it was.
pub proof fn lemma_with_binding(
    pairs: Seq<(Seq<char>, Seq<char>)>,
    key: Seq<char>,
    value: Seq<char>,
)
    requires
        distinct_keys(pairs),
    ensures
        distinct_keys(with_binding(pairs, key, value)),
        is_bound(with_binding(pairs, key, value), key),
        with_binding(pairs, key, value)[place_of(with_binding(pairs, key, value), key)].1
            == value,
        with_binding(pairs, key, value).len() == if is_bound(pairs, key) {
            pairs.len()
        } else {
            pairs.len() + 1
        },
{
    let after = with_binding(pairs, key, value);
    if is_bound(pairs, key) {
        let i = place_of(pairs, key);
        assert(bound_at(after, key, i));
    } else {
        assert forall|k: int| 0 <= k < pairs.len() implies pairs[k].0 != key by {
            if pairs[k].0 == key {
                assert(bound_at(pairs, key, k));
            }
        }
        assert(bound_at(after, key, pairs.len() as int));
    }
    let j = place_of(after, key);
    assert(bound_at(after, key, j));
}

/// Column names bound to texts. A name is bound at most once; the
/// bindings keep the order in which their names were first bound.
#[derive(Debug)]
pub struct ColumnMapping {
    pairs: Vec<(String, String)>,
}

impl View for ColumnMapping {
    type V = Seq<(Seq<char>, Seq<char>)>;

    closed spec fn view(&self) -> Seq<(Seq<char>, Seq<char>)> {
        pair_views(self.pairs@)
    }
}

impl ColumnMapping {
    #[verifier::type_invariant]
    closed spec fn well_formed(&self) -> bool {
        distinct_keys(pair_views(self.pairs@))
    }

    /// A mapping without bindings.
    pub fn new() -> (m: Self)
        ensures
            m@.len() == 0,
            distinct_keys(m@),
    {
        ColumnMapping { pairs: Vec::new() }
    }

    /// The number of bindings.
    pub fn len(&self) -> (n: usize)
        ensures
            n == self@.len(),
            distinct_keys(self@),
    {
        proof {
            use_type_invariant(self);
        }
        self.pairs.len()
    }

    /// The name bound at place `i`.
    pub fn key_at(&self, i: usize) -> (key: &String)
        requires
            i < self@.len(),
        ensures
            key@ == self@[i as int].0,
    {
        &self.pairs[i].0
    }

    /// The text bound at place `i`.
    pub fn value_at(&self, i: usize) -> (value: &String)
        requires
            i < self@.len(),
        ensures
            value@ == self@[i as int].1,
    {
        &self.pairs[i].1
    }

    /// The place at which `key` is bound, if it is bound.
    pub fn position(&self, key: &str) -> (place: Option<usize>)
        ensures
            match place {
                Some(i) => bound_at(self@, key@, i as int) && place_of(self@, key@) == i,
                None => !is_bound(self@, key@),
            },
            distinct_keys(self@),
    {
        proof {
            use_type_invariant(self);
        }
        let mut i: usize = 0;
        while i < self.pairs.len()
            invariant
                i <= self.pairs.len(),
                distinct_keys(self@),
                forall|k: int| 0 <= k < i ==> self@[k].0 != key@,
            decreases self.pairs.len() - i,
        {
            if same_text(self.pairs[i].0.as_str(), key) {
                assert(bound_at(self@, key@, i as int));
                assert(bound_at(self@, key@, place_of(self@, key@)));
                return Some(i);
            }
            i = i + 1;
        }
        assert(!is_bound(self@, key@)) by {
            if is_bound(self@, key@) {
                assert(bound_at(self@, key@, place_of(self@, key@)));
            }
        }
        None
    }

    /// The text bound to `key`, if it is bound.
    pub fn get(&self, key: &str) -> (value: Option<&String>)
        ensures
            match value {
                Some(v) => is_bound(self@, key@) && v@ == self@[place_of(self@, key@)].1,
                None => !is_bound(self@, key@),
            },
    {
        match self.position(key) {
            Some(i) => Some(&self.pairs[i].1),
            None => None,
        }
    }

    /// Binds `key` to `value`. A name that was bound keeps its place and
    /// gets the new text; a new name goes to the end.
    pub fn insert(&mut self, key: String, value: String)
        ensures
            final(self)@ == with_binding(old(self)@, key@, value@),
            distinct_keys(final(self)@),
    {
        let place = self.position(key.as_str());
        proof {
            lemma_with_binding(self@, key@, value@);
        }
        let mut taken = ColumnMapping::new();
        core::mem::swap(self, &mut taken);
        let ColumnMapping { pairs } = taken;
        let mut pairs = pairs;
        let ghost before = pair_views(pairs@);
        match place {
            Some(i) => {
                pairs.set(i, (key, value));
                assert(pair_views(pairs@) =~= before.update(i as int, (key@, value@)));
            },
            None => {
                pairs.push((key, value));
                assert(pair_views(pairs@) =~= before.push((key@, value@)));
            },
        }
        *self = ColumnMapping { pairs };
    }
}

impl Clone for ColumnMapping {
    fn clone(&self) -> (copy: Self)
        ensures
            copy@ == self@,
    {
        proof {
            use_type_invariant(self);
        }
        let mut pairs: Vec<(String, String)> = Vec::new();
        let mut i: usize = 0;
        while i < self.pairs.len()
            invariant
                i <= self.pairs.len(),
                pairs@.len() == i,
                forall|k: int| 0 <= k < i ==> pair_view(pairs@[k]) == pair_view(self.pairs@[k]),
            decreases self.pairs.len() - i,
        {
            pairs.push((self.pairs[i].0.clone(), self.pairs[i].1.clone()));
            i = i + 1;
        }
        assert(pair_views(pairs@) =~= pair_views(self.pairs@));
        ColumnMapping { pairs }
    }
}

} // verus!
