//! Lists of names with values, in which no name occurs twice.

use vstd::prelude::*;
use vstd::string::*;

use crate::text;

verus! {

/// The last value of each name.
pub open spec fn map_of<V>(pairs: Seq<(Seq<char>, V)>) -> Map<Seq<char>, V>
    decreases pairs.len(),
{
    if pairs.len() == 0 {
        Map::empty()
    } else {
        map_of(pairs.drop_last()).insert(pairs.last().0, pairs.last().1)
    }
}

/// Names and values of a list.
pub open spec fn named<V>(v: Seq<(String, V)>) -> Seq<(Seq<char>, V)> {
    v.map_values(|p: (String, V)| (p.0@, p.1))
}

/// No name occurs twice.
pub open spec fn distinct<V>(pairs: Seq<(Seq<char>, V)>) -> bool {
    forall|i: int, j: int|
        0 <= i < j < pairs.len() ==> (#[trigger] pairs[i]).0 != (#[trigger] pairs[j]).0
}

proof fn lemma_domain<V>(pairs: Seq<(Seq<char>, V)>, name: Seq<char>)
    ensures
        map_of(pairs).contains_key(name) <==> exists|i: int|
            0 <= i < pairs.len() && (#[trigger] pairs[i]).0 == name,
    decreases pairs.len(),
{
    if pairs.len() > 0 {
        let init = pairs.drop_last();
        lemma_domain(init, name);
        if exists|i: int| 0 <= i < init.len() && (#[trigger] init[i]).0 == name {
            let i = choose|i: int| 0 <= i < init.len() && (#[trigger] init[i]).0 == name;
            assert(pairs[i].0 == name);
        }
        if pairs.last().0 == name {
            assert(pairs[pairs.len() - 1].0 == name);
        }
        if exists|i: int| 0 <= i < pairs.len() && (#[trigger] pairs[i]).0 == name {
            let i = choose|i: int| 0 <= i < pairs.len() && (#[trigger] pairs[i]).0 == name;
            if i < pairs.len() - 1 {
                assert(init[i].0 == name);
            }
        }
    }
}

/// To give a name another value in a list without repeats is to insert it.
proof fn lemma_update<V>(pairs: Seq<(Seq<char>, V)>, i: int, value: V)
    requires
        distinct(pairs),
        0 <= i < pairs.len(),
    ensures
        map_of(pairs.update(i, (pairs[i].0, value))) == map_of(pairs).insert(pairs[i].0, value),
        distinct(pairs.update(i, (pairs[i].0, value))),
    decreases pairs.len(),
{
    let after = pairs.update(i, (pairs[i].0, value));
    let init = pairs.drop_last();
    let last = pairs.last();
    if i == pairs.len() - 1 {
        assert(after.drop_last() =~= init);
        assert(map_of(after) =~= map_of(pairs).insert(pairs[i].0, value));
    } else {
        assert(distinct(init)) by {
            assert forall|a: int, b: int| 0 <= a < b < init.len() implies (#[trigger] init[a]).0
                != (#[trigger] init[b]).0 by {
                assert(pairs[a].0 != pairs[b].0);
            }
        }
        lemma_update(init, i, value);
        assert(after.drop_last() =~= init.update(i, (init[i].0, value)));
        assert(pairs[i].0 != pairs[pairs.len() - 1].0);
        assert(map_of(after) =~= map_of(pairs).insert(pairs[i].0, value));
    }
    assert forall|a: int, b: int| 0 <= a < b < after.len() implies (#[trigger] after[a]).0 != (
    #[trigger] after[b]).0 by {
        assert(pairs[a].0 != pairs[b].0);
    }
}

/// Give a name a value.
pub fn set<V>(list: &mut Vec<(String, V)>, name: &str, value: V)
    requires
        distinct(named(old(list)@)),
    ensures
        distinct(named(final(list)@)),
        map_of(named(final(list)@)) == map_of(named(old(list)@)).insert(name@, value),
{
    let n: usize = list.len();
    let mut i: usize = 0;
    let ghost before = named(list@);
    while i < n
        invariant
            n == list@.len(),
            *list == *old(list),
            before == named(list@),
            distinct(before),
            i <= n,
            forall|k: int| 0 <= k < i ==> (#[trigger] before[k]).0 != name@,
        decreases n - i,
    {
        assert(before[i as int].0 == list@[i as int].0@);
        if text::same(list[i].0.as_str(), name) {
            list[i] = (name.to_owned(), value);
            proof {
                lemma_update(before, i as int, value);
                assert(named(list@) =~= before.update(i as int, (before[i as int].0, value)));
            }
            return;
        }
        i = i + 1;
    }
    list.push((name.to_owned(), value));
    proof {
        let after = named(list@);
        assert(after =~= before.push((name@, value)));
        assert(after.drop_last() =~= before);
        assert forall|a: int, b: int| 0 <= a < b < after.len() implies (#[trigger] after[a]).0 != (
        #[trigger] after[b]).0 by {
            if b < before.len() {
                assert(before[a].0 != before[b].0);
            } else {
                assert(before[a].0 != name@);
            }
        }
    }
}

/// In a list without repeats a name has the value that stands beside it.
proof fn lemma_value<V>(pairs: Seq<(Seq<char>, V)>, i: int)
    requires
        distinct(pairs),
        0 <= i < pairs.len(),
    ensures
        map_of(pairs).contains_key(pairs[i].0),
        map_of(pairs)[pairs[i].0] == pairs[i].1,
    decreases pairs.len(),
{
    let init = pairs.drop_last();
    if i < pairs.len() - 1 {
        assert(distinct(init)) by {
            assert forall|a: int, b: int| 0 <= a < b < init.len() implies (#[trigger] init[a]).0
                != (#[trigger] init[b]).0 by {
                assert(pairs[a].0 != pairs[b].0);
            }
        }
        lemma_value(init, i);
        assert(init[i] == pairs[i]);
        assert(pairs[i].0 != pairs[pairs.len() - 1].0);
    }
}

/// The place of a name.
pub fn find<V>(list: &Vec<(String, V)>, name: &str) -> (r: Option<usize>)
    requires
        distinct(named(list@)),
    ensures
        r is Some <==> map_of(named(list@)).contains_key(name@),
        r matches Some(i) ==> i < list@.len() && list@[i as int].0@ == name@ && list@[i as int].1
            == map_of(named(list@))[name@],
{
    let n: usize = list.len();
    let mut i: usize = 0;
    let ghost pairs = named(list@);
    while i < n
        invariant
            n == list@.len(),
            pairs == named(list@),
            distinct(pairs),
            i <= n,
            forall|k: int| 0 <= k < i ==> (#[trigger] pairs[k]).0 != name@,
        decreases n - i,
    {
        assert(pairs[i as int] == (list@[i as int].0@, list@[i as int].1));
        if text::same(list[i].0.as_str(), name) {
            proof {
                lemma_value(pairs, i as int);
            }
            return Some(i);
        }
        i = i + 1;
    }
    proof {
        lemma_domain(pairs, name@);
    }
    None
}

} // verus!
