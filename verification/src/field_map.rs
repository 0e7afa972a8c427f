//! A small map from text to text, kept in the order of its keys.

use vstd::prelude::*;
use vstd::string::*;

use crate::text;

verus! {

/// A map from text to text. Its entries are sorted by key, and no key occurs
/// twice.
#[derive(Debug)]
pub struct FieldMap {
    entries: Vec<(String, String)>,
}

/// The map that a list of pairs denotes: a later pair replaces an earlier one
/// with the same key.
pub open spec fn map_of(pairs: Seq<(Seq<char>, Seq<char>)>) -> Map<Seq<char>, Seq<char>>
    decreases pairs.len(),
{
    if pairs.len() == 0 {
        Map::empty()
    } else {
        map_of(pairs.drop_last()).insert(pairs.last().0, pairs.last().1)
    }
}

/// The texts of a list of string pairs.
pub open spec fn pair_texts(v: Seq<(String, String)>) -> Seq<(Seq<char>, Seq<char>)> {
    v.map_values(|p: (String, String)| (p.0@, p.1@))
}

/// Keys strictly ascending.
pub open spec fn ascending(pairs: Seq<(Seq<char>, Seq<char>)>) -> bool {
    forall|i: int, j: int|
        0 <= i < j < pairs.len() ==> #[trigger] text::precedes_spec(pairs[i].0, pairs[j].0)
}

impl FieldMap {
    /// The entries, in the order of their keys.
    pub closed spec fn pairs(self) -> Seq<(Seq<char>, Seq<char>)> {
        pair_texts(self.entries@)
    }

    /// The entries are sorted by key, and no key occurs twice.
    #[verifier::type_invariant]
    pub closed spec fn valid(self) -> bool {
        ascending(self.pairs())
    }
}

impl View for FieldMap {
    type V = Map<Seq<char>, Seq<char>>;

    open spec fn view(&self) -> Map<Seq<char>, Seq<char>> {
        map_of(self.pairs())
    }
}

/// A key is in the map exactly when some pair has it.
proof fn lemma_map_of_dom(pairs: Seq<(Seq<char>, Seq<char>)>, k: Seq<char>)
    ensures
        map_of(pairs).contains_key(k) <==> exists|i: int|
            0 <= i < pairs.len() && (#[trigger] pairs[i]).0 == k,
    decreases pairs.len(),
{
    if pairs.len() > 0 {
        lemma_map_of_dom(pairs.drop_last(), k);
        if map_of(pairs.drop_last()).contains_key(k) {
            let i = choose|i: int|
                0 <= i < pairs.drop_last().len() && (#[trigger] pairs.drop_last()[i]).0 == k;
            assert(pairs[i].0 == k);
        }
        if pairs.last().0 == k {
            assert(pairs[pairs.len() - 1].0 == k);
        }
        if exists|i: int| 0 <= i < pairs.len() && (#[trigger] pairs[i]).0 == k {
            let i = choose|i: int| 0 <= i < pairs.len() && (#[trigger] pairs[i]).0 == k;
            if i < pairs.len() - 1 {
                assert(pairs.drop_last()[i].0 == k);
            }
        }
    }
}

/// With ascending keys, a pair's key is mapped to its value.
proof fn lemma_map_of_value(pairs: Seq<(Seq<char>, Seq<char>)>, i: int)
    requires
        ascending(pairs),
        0 <= i < pairs.len(),
    ensures
        map_of(pairs).contains_key(pairs[i].0),
        map_of(pairs)[pairs[i].0] == pairs[i].1,
    decreases pairs.len(),
{
    if i < pairs.len() - 1 {
        assert(ascending(pairs.drop_last())) by {
            assert forall|a: int, b: int| 0 <= a < b < pairs.drop_last().len() implies
                #[trigger] text::precedes_spec(pairs.drop_last()[a].0, pairs.drop_last()[b].0) by {
                assert(text::precedes_spec(pairs[a].0, pairs[b].0));
            }
        }
        lemma_map_of_value(pairs.drop_last(), i);
        assert(text::precedes_spec(pairs[i].0, pairs[pairs.len() - 1].0));
        text::lemma_precedes_irreflexive(pairs[i].0);
    }
}

/// Two ascending lists with the same pairs denote the same map; here, the map is
/// determined by membership.
proof fn lemma_map_of_determined(
    pairs: Seq<(Seq<char>, Seq<char>)>,
    m: Map<Seq<char>, Seq<char>>,
)
    requires
        ascending(pairs),
        forall|i: int| 0 <= i < pairs.len() ==> m.contains_key((#[trigger] pairs[i]).0)
            && m[pairs[i].0] == pairs[i].1,
        forall|k: Seq<char>| #[trigger] m.contains_key(k) ==> exists|i: int|
            0 <= i < pairs.len() && (#[trigger] pairs[i]).0 == k,
    ensures
        map_of(pairs) == m,
{
    assert forall|k: Seq<char>| #[trigger] map_of(pairs).contains_key(k) == m.contains_key(k) by {
        lemma_map_of_dom(pairs, k);
    }
    assert forall|k: Seq<char>| #[trigger] map_of(pairs).contains_key(k) implies map_of(pairs)[k]
        == m[k] by {
        lemma_map_of_dom(pairs, k);
        let i = choose|i: int| 0 <= i < pairs.len() && (#[trigger] pairs[i]).0 == k;
        lemma_map_of_value(pairs, i);
    }
    assert(map_of(pairs) =~= m);
}

proof fn lemma_ascending_init(pairs: Seq<(Seq<char>, Seq<char>)>)
    requires
        ascending(pairs),
        pairs.len() > 0,
    ensures
        ascending(pairs.drop_last()),
{
    assert forall|i: int, j: int| 0 <= i < j < pairs.drop_last().len() implies
        #[trigger] text::precedes_spec(pairs.drop_last()[i].0, pairs.drop_last()[j].0) by {
        assert(text::precedes_spec(pairs[i].0, pairs[j].0));
    }
}

/// Without the last of some ascending pairs, its key is not mapped.
proof fn lemma_init_is_removed(pairs: Seq<(Seq<char>, Seq<char>)>)
    requires
        ascending(pairs),
        pairs.len() > 0,
    ensures
        map_of(pairs.drop_last()) == map_of(pairs).remove(pairs.last().0),
{
    let k = pairs.last().0;
    let init = pairs.drop_last();
    lemma_map_of_dom(init, k);
    if map_of(init).contains_key(k) {
        let i = choose|i: int| 0 <= i < init.len() && (#[trigger] init[i]).0 == k;
        assert(text::precedes_spec(pairs[i].0, pairs[pairs.len() - 1].0));
        text::lemma_precedes_irreflexive(k);
    }
    assert(map_of(init) =~= map_of(pairs).remove(k));
}

/// Ascending pairs that denote the same map are the same pairs: what is made of a
/// map's pairs in order depends on the map alone.
pub proof fn law_pairs_are_canonical(
    a: Seq<(Seq<char>, Seq<char>)>,
    b: Seq<(Seq<char>, Seq<char>)>,
)
    requires
        ascending(a),
        ascending(b),
        map_of(a) == map_of(b),
    ensures
        a == b,
    decreases a.len(),
{
    if a.len() == 0 {
        if b.len() > 0 {
            lemma_map_of_value(b, 0);
        }
        assert(a =~= b);
    } else if b.len() == 0 {
        lemma_map_of_value(a, 0);
    } else {
        lemma_map_of_value(a, a.len() - 1);
        lemma_map_of_value(b, b.len() - 1);
        lemma_map_of_dom(b, a.last().0);
        lemma_map_of_dom(a, b.last().0);
        let j = choose|j: int| 0 <= j < b.len() && (#[trigger] b[j]).0 == a.last().0;
        let i = choose|i: int| 0 <= i < a.len() && (#[trigger] a[i]).0 == b.last().0;
        assert(a.last().0 == b.last().0) by {
            if j < b.len() - 1 {
                assert(text::precedes_spec(b[j].0, b[b.len() - 1].0));
                if i < a.len() - 1 {
                    assert(text::precedes_spec(a[i].0, a[a.len() - 1].0));
                    text::lemma_precedes_transitive(a.last().0, b.last().0, a.last().0);
                }
                text::lemma_precedes_irreflexive(a.last().0);
            }
        }
        lemma_ascending_init(a);
        lemma_ascending_init(b);
        lemma_init_is_removed(a);
        lemma_init_is_removed(b);
        law_pairs_are_canonical(a.drop_last(), b.drop_last());
        assert(a =~= a.drop_last().push(a.last()));
        assert(b =~= b.drop_last().push(b.last()));
    }
}

impl FieldMap {
    /// The empty map.
    pub fn new() -> (r: FieldMap)
        ensures
            r@ == Map::<Seq<char>, Seq<char>>::empty(),
            r.pairs().len() == 0,
    {
        let r = FieldMap { entries: Vec::new() };
        assert(r.pairs() =~= Seq::empty());
        r
    }

    /// Number of entries.
    pub fn len(&self) -> (r: usize)
        ensures
            r == self.pairs().len(),
    {
        self.entries.len()
    }

    /// The entries, in the order of their keys.
    pub fn entries(&self) -> (r: &Vec<(String, String)>)
        ensures
            pair_texts(r@) == self.pairs(),
            ascending(self.pairs()),
    {
        proof {
            use_type_invariant(self);
        }
        &self.entries
    }

    /// The position of the first key that does not sort before `key`.
    fn position(&self, key: &str) -> (r: usize)
        ensures
            r <= self.entries@.len(),
            forall|i: int| 0 <= i < r ==> text::precedes_spec(#[trigger] self.pairs()[i].0, key@),
            r < self.entries@.len() ==> !text::precedes_spec(self.pairs()[r as int].0, key@),
    {
        let n: usize = self.entries.len();
        let mut i: usize = 0;
        while i < n
            invariant
                n == self.entries@.len(),
                i <= n,
                forall|j: int|
                    0 <= j < i ==> text::precedes_spec(#[trigger] self.pairs()[j].0, key@),
            decreases n - i,
        {
            assert(self.pairs()[i as int].0 == self.entries@[i as int].0@);
            if !text::precedes(self.entries[i].0.as_str(), key) {
                return i;
            }
            i = i + 1;
        }
        n
    }

    /// Map `key` to `value`, replacing what it was mapped to.
    pub fn insert(&mut self, key: String, value: String)
        ensures
            final(self)@ == old(self)@.insert(key@, value@),
    {
        proof {
            use_type_invariant(&*self);
        }
        let at: usize = self.position(key.as_str());
        let ghost before = self.pairs();
        let mut entries: Vec<(String, String)> = Vec::new();
        core::mem::swap(&mut self.entries, &mut entries);
        let ghost k = key@;
        let ghost v = value@;
        proof {
            assert forall|i: int, j: int| at <= i < before.len() && i < j < before.len() implies
                #[trigger] text::precedes_spec(before[i].0, before[j].0) by {}
        }
        if at < entries.len() && text::same(entries[at].0.as_str(), key.as_str()) {
            entries.set(at, (key, value));
            proof {
                let after = pair_texts(entries@);
                assert(after =~= before.update(at as int, (k, v)));
                assert(before[at as int].0 == k);
                assert(ascending(after)) by {
                    assert forall|i: int, j: int| 0 <= i < j < after.len() implies
                        #[trigger] text::precedes_spec(after[i].0, after[j].0) by {
                        assert(text::precedes_spec(before[i].0, before[j].0));
                    }
                }
                Self::lemma_inserted(before, after, k, v, at as int, false);
            }
        } else {
            entries.insert(at, (key, value));
            proof {
                let after = pair_texts(entries@);
                assert(after =~= before.insert(at as int, (k, v)));
                assert(ascending(after)) by {
                    if at < before.len() {
                        text::lemma_precedes_total(before[at as int].0, k);
                    }
                    assert forall|i: int, j: int| 0 <= i < j < after.len() implies
                        #[trigger] text::precedes_spec(after[i].0, after[j].0) by {
                        if i < at && j < at {
                            assert(text::precedes_spec(before[i].0, before[j].0));
                        } else if i < at && j == at {
                            assert(text::precedes_spec(before[i].0, k));
                        } else if i < at && j > at {
                            assert(text::precedes_spec(before[i].0, before[j - 1].0));
                        } else if i == at {
                            assert(text::precedes_spec(k, before[at as int].0));
                            if j - 1 > at {
                                assert(text::precedes_spec(before[at as int].0, before[j - 1].0));
                                text::lemma_precedes_transitive(
                                    k,
                                    before[at as int].0,
                                    before[j - 1].0,
                                );
                            }
                        } else {
                            assert(text::precedes_spec(before[i - 1].0, before[j - 1].0));
                        }
                    }
                }
                Self::lemma_inserted(before, after, k, v, at as int, true);
            }
        }
        self.entries = entries;
    }

    /// Placing a pair among ascending pairs, in the place of its key or in a new
    /// one, is insertion into the map.
    proof fn lemma_inserted(
        before: Seq<(Seq<char>, Seq<char>)>,
        after: Seq<(Seq<char>, Seq<char>)>,
        k: Seq<char>,
        v: Seq<char>,
        at: int,
        fresh: bool,
    )
        requires
            ascending(before),
            ascending(after),
            fresh ==> 0 <= at <= before.len() && after == before.insert(at, (k, v)),
            !fresh ==> 0 <= at < before.len() && before[at].0 == k && after == before.update(
                at,
                (k, v),
            ),
        ensures
            map_of(after) == map_of(before).insert(k, v),
    {
        let m = map_of(before).insert(k, v);
        assert(after[at] == (k, v));
        assert forall|i: int| 0 <= i < after.len() implies m.contains_key((#[trigger] after[i]).0)
            && m[after[i].0] == after[i].1 by {
            if i != at {
                let j = if fresh && i > at {
                    i - 1
                } else {
                    i
                };
                assert(after[i] == before[j]);
                lemma_map_of_value(before, j);
                if i < at {
                    assert(text::precedes_spec(after[i].0, after[at].0));
                } else {
                    assert(text::precedes_spec(after[at].0, after[i].0));
                }
                text::lemma_precedes_irreflexive(k);
            }
        }
        assert forall|q: Seq<char>| #[trigger] m.contains_key(q) implies exists|i: int|
            0 <= i < after.len() && (#[trigger] after[i]).0 == q by {
            if q == k {
                assert(after[at].0 == q);
            } else {
                lemma_map_of_dom(before, q);
                let j = choose|j: int| 0 <= j < before.len() && (#[trigger] before[j]).0 == q;
                let i = if fresh && j >= at {
                    j + 1
                } else {
                    j
                };
                assert(after[i] == before[j]);
                assert(after[i].0 == q);
            }
        }
        lemma_map_of_determined(after, m);
    }

    /// The same map.
    pub fn copy(&self) -> (r: FieldMap)
        ensures
            r.pairs() == self.pairs(),
            r@ == self@,
    {
        let n: usize = self.entries.len();
        let mut entries: Vec<(String, String)> = Vec::new();
        let mut i: usize = 0;
        while i < n
            invariant
                n == self.entries@.len(),
                i <= n,
                entries@.len() == i,
                forall|k: int|
                    0 <= k < i ==> (#[trigger] entries@[k]).0@ == self.entries@[k].0@
                        && entries@[k].1@ == self.entries@[k].1@,
            decreases n - i,
        {
            entries.push((self.entries[i].0.clone(), self.entries[i].1.clone()));
            i = i + 1;
        }
        assert(pair_texts(entries@) =~= pair_texts(self.entries@));
        proof {
            use_type_invariant(self);
        }
        FieldMap { entries }
    }

    /// What `key` is mapped to.
    pub fn get(&self, key: &str) -> (r: Option<&String>)
        ensures
            r is Some <==> self@.contains_key(key@),
            r matches Some(v) ==> v@ == self@[key@],
    {
        proof {
            use_type_invariant(self);
        }
        let at: usize = self.position(key);
        if at < self.entries.len() && text::same(self.entries[at].0.as_str(), key) {
            proof {
                assert(self.pairs()[at as int] == (self.entries@[at as int].0@, self.entries@[at as int].1@));
                lemma_map_of_value(self.pairs(), at as int);
            }
            Some(&self.entries[at].1)
        } else {
            proof {
                lemma_map_of_dom(self.pairs(), key@);
                if self@.contains_key(key@) {
                    let i = choose|i: int|
                        0 <= i < self.pairs().len() && (#[trigger] self.pairs()[i]).0 == key@;
                    text::lemma_precedes_irreflexive(key@);
                    if i > at {
                        assert(text::precedes_spec(self.pairs()[at as int].0, self.pairs()[i].0));
                    }
                    assert(self.pairs()[at as int].0 == self.entries@[at as int].0@);
                }
            }
            None
        }
    }
}

} // verus!
