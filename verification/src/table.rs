//! A map from strings to values that is kept in the dictionary order of its
//! keys, so that walking it is the same on every run.

use vstd::prelude::*;

use crate::text::{
    compare, lemma_lex_irreflexive, lemma_lex_total, lemma_lex_transitive, lex_lt, Order,
};

verus! {

/// The views of a list of strings.
pub open spec fn texts(keys: Seq<String>) -> Seq<Seq<char>> {
    Seq::new(keys.len(), |i: int| keys[i]@)
}

/// Each key comes strictly before the next in dictionary order; so no key
/// occurs twice.
pub open spec fn ascending(keys: Seq<Seq<char>>) -> bool {
    forall|i: int, j: int|
        0 <= i < j < keys.len() ==> lex_lt(#[trigger] keys[i], #[trigger] keys[j])
}

/// The number of leading keys that come before `key`: in an ascending list,
/// the place where `key` is or would have to be put.
pub open spec fn rank(keys: Seq<Seq<char>>, key: Seq<char>) -> int
    decreases keys.len(),
{
    if keys.len() == 0 {
        0
    } else if lex_lt(keys[0], key) {
        1 + rank(keys.drop_first(), key)
    } else {
        0
    }
}

/// `key` stands at its place in `keys`.
pub open spec fn holds(keys: Seq<Seq<char>>, key: Seq<char>) -> bool {
    0 <= rank(keys, key) < keys.len() && keys[rank(keys, key)] == key
}

/// The keys after `key` was put: unchanged where it was there, and else with
/// `key` at its place.
pub open spec fn put_key(keys: Seq<Seq<char>>, key: Seq<char>) -> Seq<Seq<char>> {
    if holds(keys, key) {
        keys
    } else {
        keys.insert(rank(keys, key), key)
    }
}

/// The values after `value` was put under `key`: it takes the place of the
/// value that was there, or else comes in at the place of `key`.
pub open spec fn put_value<V>(
    keys: Seq<Seq<char>>,
    values: Seq<V>,
    key: Seq<char>,
    value: V,
) -> Seq<V> {
    if holds(keys, key) {
        values.update(rank(keys, key), value)
    } else {
        values.insert(rank(keys, key), value)
    }
}

/// The value under `key`, if there is one.
pub open spec fn lookup<V>(keys: Seq<Seq<char>>, values: Seq<V>, key: Seq<char>) -> Option<V> {
    if holds(keys, key) {
        Some(values[rank(keys, key)])
    } else {
        None
    }
}

/// The rank stays within the list.
pub proof fn lemma_rank_bounds(keys: Seq<Seq<char>>, key: Seq<char>)
    ensures
        0 <= rank(keys, key) <= keys.len(),
    decreases keys.len(),
{
    if keys.len() > 0 && lex_lt(keys[0], key) {
        lemma_rank_bounds(keys.drop_first(), key);
    }
}

/// The rank is the one place with only smaller keys before it and none
/// smaller at it.
pub proof fn lemma_rank_is(keys: Seq<Seq<char>>, key: Seq<char>, at: int)
    requires
        0 <= at <= keys.len(),
        forall|i: int| 0 <= i < at ==> lex_lt(#[trigger] keys[i], key),
        at < keys.len() ==> !lex_lt(keys[at], key),
    ensures
        rank(keys, key) == at,
    decreases keys.len(),
{
    if keys.len() > 0 && at > 0 {
        let rest = keys.drop_first();
        assert forall|i: int| 0 <= i < at - 1 implies lex_lt(#[trigger] rest[i], key) by {}
        lemma_rank_is(rest, key, at - 1);
    }
}

/// In an ascending list the keys before the rank are smaller than `key` and
/// those from the rank on are not.
pub proof fn lemma_rank_splits(keys: Seq<Seq<char>>, key: Seq<char>)
    requires
        ascending(keys),
    ensures
        0 <= rank(keys, key) <= keys.len(),
        forall|i: int| 0 <= i < rank(keys, key) ==> lex_lt(#[trigger] keys[i], key),
        forall|i: int| rank(keys, key) <= i < keys.len() ==> !lex_lt(#[trigger] keys[i], key),
    decreases keys.len(),
{
    if keys.len() > 0 {
        let rest = keys.drop_first();
        assert forall|i: int, j: int| 0 <= i < j < rest.len() implies lex_lt(
            #[trigger] rest[i],
            #[trigger] rest[j],
        ) by {}
        if lex_lt(keys[0], key) {
            lemma_rank_splits(rest, key);
            assert forall|i: int| 0 <= i < rank(keys, key) implies lex_lt(
                #[trigger] keys[i],
                key,
            ) by {
                if i > 0 {
                    assert(rest[i - 1] == keys[i]);
                }
            }
            assert forall|i: int| rank(keys, key) <= i < keys.len() implies !lex_lt(
                #[trigger] keys[i],
                key,
            ) by {
                assert(rest[i - 1] == keys[i]);
            }
        } else {
            assert forall|i: int| 0 <= i < keys.len() implies !lex_lt(#[trigger] keys[i], key) by {
                if i > 0 && lex_lt(keys[i], key) {
                    lemma_lex_transitive(keys[0], keys[i], key);
                }
            }
        }
    }
}

/// In an ascending list a key is held exactly if it occurs.
pub proof fn lemma_holds_iff_occurs(keys: Seq<Seq<char>>, key: Seq<char>)
    requires
        ascending(keys),
    ensures
        holds(keys, key) <==> exists|i: int| 0 <= i < keys.len() && #[trigger] keys[i] == key,
{
    lemma_rank_splits(keys, key);
    if exists|i: int| 0 <= i < keys.len() && #[trigger] keys[i] == key {
        lemma_lex_irreflexive(key);
    }
}

/// Putting a key keeps the list ascending.
pub proof fn lemma_put_ascending(keys: Seq<Seq<char>>, key: Seq<char>)
    requires
        ascending(keys),
    ensures
        ascending(put_key(keys, key)),
        put_key(keys, key).len() == if holds(keys, key) {
            keys.len()
        } else {
            keys.len() + 1
        },
{
    lemma_rank_splits(keys, key);
    let r = rank(keys, key);
    if !holds(keys, key) {
        let out = keys.insert(r, key);
        assert forall|i: int, j: int| 0 <= i < j < out.len() implies lex_lt(
            #[trigger] out[i],
            #[trigger] out[j],
        ) by {
            if i == r {
                lemma_lex_total(keys[j - 1], key);
            }
        }
    }
}

/// After a put, the key that was put is held with the value that was put,
/// and every other key is as it was.
pub proof fn lemma_lookup_put<V>(
    keys: Seq<Seq<char>>,
    values: Seq<V>,
    key: Seq<char>,
    value: V,
    wanted: Seq<char>,
)
    requires
        ascending(keys),
        keys.len() == values.len(),
    ensures
        lookup(put_key(keys, key), put_value(keys, values, key, value), wanted) == if wanted
            == key {
            Some(value)
        } else {
            lookup(keys, values, wanted)
        },
{
    lemma_rank_splits(keys, key);
    lemma_rank_splits(keys, wanted);
    lemma_put_ascending(keys, key);
    let out = put_key(keys, key);
    let r = rank(keys, key);
    let w = rank(keys, wanted);
    lemma_rank_splits(out, wanted);
    lemma_lex_irreflexive(key);
    lemma_lex_irreflexive(wanted);
    if !holds(keys, key) {
        if wanted == key {
            assert forall|i: int| 0 <= i < r implies lex_lt(#[trigger] out[i], wanted) by {}
            lemma_rank_is(out, wanted, r);
        } else {
            lemma_lex_total(wanted, key);
            if lex_lt(wanted, key) {
                assert(w <= r) by {
                    if r < w {
                        lemma_lex_transitive(keys[r], wanted, key);
                    }
                }
                assert forall|i: int| 0 <= i < w implies lex_lt(#[trigger] out[i], wanted) by {}
                lemma_rank_is(out, wanted, w);
            } else {
                assert(r <= w) by {
                    if w < r {
                        lemma_lex_total(keys[w], wanted);
                        lemma_lex_total(keys[w], key);
                        if keys[w] != wanted {
                            lemma_lex_transitive(key, wanted, keys[w]);
                        }
                    }
                }
                assert forall|i: int| 0 <= i < w + 1 implies lex_lt(#[trigger] out[i], wanted) by {}
                lemma_rank_is(out, wanted, w + 1);
            }
        }
    }
}

/// Putting a key that comes after every key of the list appends it.
pub proof fn lemma_put_last<V>(keys: Seq<Seq<char>>, values: Seq<V>, key: Seq<char>, value: V)
    requires
        keys.len() == values.len(),
        forall|i: int| 0 <= i < keys.len() ==> lex_lt(#[trigger] keys[i], key),
    ensures
        put_key(keys, key) == keys.push(key),
        put_value(keys, values, key, value) == values.push(value),
{
    lemma_rank_is(keys, key, keys.len() as int);
}

/// A map from strings to values, kept in the dictionary order of its keys.
#[derive(Debug, PartialEq, Eq)]
pub struct Table<T> {
    keys: Vec<String>,
    values: Vec<T>,
}

impl<T: Clone> Clone for Table<T> {
    fn clone(&self) -> (copy: Table<T>)
        ensures
            copy.keys() == self.keys(),
            copy.values().len() == self.values().len(),
    {
        proof {
            use_type_invariant(self);
        }
        let keys = self.keys.clone();
        let values = self.values.clone();
        proof {
            assert(texts(keys@) =~= texts(self.keys@)) by {
                assert forall|i: int| 0 <= i < keys@.len() implies keys@[i]@ == self.keys@[i]@ by {}
            }
        }
        Table { keys, values }
    }
}

impl<T> Table<T> {
    /// The keys, in order.
    pub closed spec fn keys(&self) -> Seq<Seq<char>> {
        texts(self.keys@)
    }

    /// The values, in the order of their keys.
    pub closed spec fn values(&self) -> Seq<T> {
        self.values@
    }

    /// There is one value for each key, and the keys ascend. This holds of
    /// every table.
    pub open spec fn wf(&self) -> bool {
        self.keys().len() == self.values().len() && ascending(self.keys())
    }

    #[verifier::type_invariant]
    pub closed spec fn ordered(&self) -> bool {
        self.wf()
    }

    /// Does nothing; tells the caller that this table is well formed.
    pub fn check(&self)
        ensures
            self.wf(),
    {
        proof {
            use_type_invariant(self);
        }
    }

    /// The value under `key`, if there is one.
    pub open spec fn value_at(&self, key: Seq<char>) -> Option<T> {
        lookup(self.keys(), self.values(), key)
    }

    /// An empty table.
    pub fn new() -> (out: Table<T>)
        ensures
            out.wf(),
            out.keys() == Seq::<Seq<char>>::empty(),
            out.values() == Seq::<T>::empty(),
    {
        let out = Table { keys: Vec::new(), values: Vec::new() };
        out
    }

    /// The number of entries.
    pub fn len(&self) -> (n: usize)
        ensures
            n == self.values().len(),
    {
        self.values.len()
    }

    /// Whether there is no entry.
    pub fn is_empty(&self) -> (empty: bool)
        ensures
            empty == (self.values().len() == 0),
    {
        self.values.len() == 0
    }

    /// The place of `key` among the keys.
    fn locate(&self, key: &str) -> (at: usize)
        ensures
            at == rank(self.keys(), key@),
            at <= self.keys().len(),
    {
        proof {
            use_type_invariant(self);
        }
        let ghost keys = self.keys();
        let mut i: usize = 0;
        while i < self.keys.len()
            invariant
                keys == self.keys(),
                i <= self.keys@.len(),
                forall|k: int| 0 <= k < i ==> lex_lt(#[trigger] keys[k], key@),
            decreases self.keys@.len() - i,
        {
            match compare(self.keys[i].as_str(), key) {
                Order::Less => {},
                _ => {
                    proof {
                        lemma_lex_total(keys[i as int], key@);
                        lemma_rank_is(keys, key@, i as int);
                    }
                    return i;
                },
            }
            i = i + 1;
        }
        proof {
            lemma_rank_is(keys, key@, i as int);
        }
        i
    }

    /// Puts `value` under `key`. A value that was there under this key is
    /// replaced; every other entry stays.
    pub fn insert(&mut self, key: String, value: T)
        ensures
            final(self).wf(),
            final(self).keys() == put_key(old(self).keys(), key@),
            final(self).values() == put_value(old(self).keys(), old(self).values(), key@, value),
    {
        let at = self.locate(key.as_str());
        let ghost before = self.keys();
        proof {
            use_type_invariant(&*self);
            lemma_put_ascending(before, key@);
        }
        let found = at < self.keys.len() && self.keys[at].as_str().eq(key.as_str());
        let mut taken = Table { keys: Vec::new(), values: Vec::new() };
        core::mem::swap(self, &mut taken);
        let mut keys = taken.keys;
        let mut values = taken.values;
        if found {
            values.set(at, value);
        } else {
            keys.insert(at, key);
            values.insert(at, value);
            assert(texts(keys@) =~= before.insert(at as int, key@));
        }
        *self = Table { keys, values };
    }

    /// The value under `key`, if there is one.
    pub fn get(&self, key: &str) -> (out: Option<&T>)
        ensures
            match out {
                Some(value) => self.value_at(key@) == Some(*value),
                None => self.value_at(key@) is None,
            },
    {
        proof {
            use_type_invariant(self);
        }
        let at = self.locate(key);
        if at < self.keys.len() && self.keys[at].as_str().eq(key) {
            Some(&self.values[at])
        } else {
            None
        }
    }

    /// Whether there is a value under `key`: whether `key` is one of the keys.
    pub fn contains_key(&self, key: &str) -> (found: bool)
        ensures
            found == holds(self.keys(), key@),
            found <==> exists|i: int|
                0 <= i < self.keys().len() && #[trigger] self.keys()[i] == key@,
    {
        proof {
            use_type_invariant(self);
            lemma_holds_iff_occurs(self.keys(), key@);
        }
        self.get(key).is_some()
    }

    /// The values, in the order of their keys.
    pub fn as_values(&self) -> (out: &Vec<T>)
        ensures
            out@ == self.values(),
    {
        &self.values
    }

    /// The key of the entry at `index`.
    pub fn key_at(&self, index: usize) -> (out: &str)
        requires
            index < self.keys().len(),
        ensures
            out@ == self.keys()[index as int],
    {
        self.keys[index].as_str()
    }
}

} // verus!
