//! The rendering context: a flat string-keyed mapping built once from an
//! injected snapshot of environment pairs.
//!
//! The snapshot is a sequence of key/value pairs in the order they were
//! taken; a later pair with the same key overwrites an earlier one. Once
//! built, the context is read-only.

use vstd::prelude::*;

verus! {

/// The mapping a sequence of key/value pairs builds up: each pair is
/// inserted in order, so a later pair with the same key overwrites an
/// earlier one.
pub open spec fn map_of_pairs(pairs: Seq<(String, String)>) -> Map<Seq<char>, Seq<char>>
    decreases pairs.len(),
{
    if pairs.len() == 0 {
        Map::<Seq<char>, Seq<char>>::empty()
    } else {
        map_of_pairs(pairs.drop_last()).insert(pairs.last().0@, pairs.last().1@)
    }
}

/// A later pair overwrites an earlier one with the same key, and nothing
/// else: appending a pair to the snapshot puts its value under its key
/// and leaves the mapping unchanged elsewhere.
pub proof fn lemma_snapshot_append(pairs: Seq<(String, String)>, pair: (String, String))
    ensures
        map_of_pairs(pairs.push(pair)) == map_of_pairs(pairs).insert(pair.0@, pair.1@),
{
    assert(pairs.push(pair).drop_last() =~= pairs);
    assert(pairs.push(pair).last() == pair);
}

/// The flat variable-name-to-value mapping a template is rendered
/// against.
pub struct Context {
    pairs: Vec<(String, String)>,
}

impl View for Context {
    type V = Map<Seq<char>, Seq<char>>;

    closed spec fn view(&self) -> Map<Seq<char>, Seq<char>> {
        map_of_pairs(self.pairs@)
    }
}

/// A key is in `map_of_pairs(pairs)` exactly when some pair holds it, and
/// its value is the one of the last such pair.
proof fn lemma_map_of_pairs_last(pairs: Seq<(String, String)>, key: Seq<char>)
    ensures
        map_of_pairs(pairs).contains_key(key) <==> (exists|i: int|
            0 <= i < pairs.len() && pairs[i].0@ == key),
        forall|i: int|
            (0 <= i < pairs.len() && pairs[i].0@ == key && (forall|j: int|
                i < j < pairs.len() ==> pairs[j].0@ != key)) ==> map_of_pairs(pairs).contains_key(
                key,
            ) && map_of_pairs(pairs)[key] == pairs[i].1@,
    decreases pairs.len(),
{
    if pairs.len() > 0 {
        lemma_map_of_pairs_last(pairs.drop_last(), key);
        if pairs.last().0@ == key {
            assert(pairs[pairs.len() - 1].0@ == key);
        } else {
            assert(forall|i: int|
                0 <= i < pairs.len() - 1 && pairs[i].0@ == key ==> pairs.drop_last()[i].0@ == key);
        }
    }
}

impl Context {
    /// The pairs the context was built from, in snapshot order.
    pub closed spec fn pairs_view(&self) -> Seq<(String, String)> {
        self.pairs@
    }

    /// The pairs the context holds, in snapshot order.
    pub fn pairs_ref(&self) -> (r: &Vec<(String, String)>)
        ensures
            r@ == self.pairs_view(),
    {
        &self.pairs
    }

    /// The context's mapping is exactly what its snapshot of pairs builds
    /// up, later pairs overwriting earlier ones.
    pub proof fn lemma_view_of_pairs(&self)
        ensures
            self@ == map_of_pairs(self.pairs_view()),
    {
    }

    /// Builds the context from a snapshot of environment pairs. Every
    /// pair of the snapshot enters the mapping; later pairs with the same
    /// key win.
    pub fn from_pairs(pairs: Vec<(String, String)>) -> (c: Context)
        ensures
            c@ == map_of_pairs(pairs@),
            c.pairs_view() == pairs@,
    {
        Context { pairs }
    }

    /// Looks the key up in the mapping: the value of the last pair with
    /// this key, or nothing when no pair holds it.
    pub fn get(&self, key: &String) -> (r: Option<&String>)
        ensures
            match r {
                Some(v) => self@.contains_key(key@) && v@ == self@[key@],
                None => !self@.contains_key(key@),
            },
    {
        let mut i: usize = self.pairs.len();
        while i > 0
            invariant
                i <= self.pairs.len(),
                forall|j: int| i <= j < self.pairs.len() ==> self.pairs[j].0@ != key@,
            decreases i,
        {
            i = i - 1;
            if self.pairs[i].0 == *key {
                proof {
                    lemma_map_of_pairs_last(self.pairs@, key@);
                }
                return Some(&self.pairs[i].1);
            }
        }
        proof {
            lemma_map_of_pairs_last(self.pairs@, key@);
        }
        None
    }
}

} // verus!
