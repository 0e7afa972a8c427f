//! State that handlers share, one value per type.

use vstd::prelude::*;

verus! {

/// Identity of a type.
#[verifier::external_type_specification]
#[verifier::external_body]
pub struct ExTypeId(std::any::TypeId);

/// `==` on `std::any::TypeId`: whether the two stand for the same type.
#[verifier::external_body]
fn same_type(a: &std::any::TypeId, b: &std::any::TypeId) -> (r: bool)
    ensures
        r == (*a == *b),
{
    a == b
}

/// Values by the identity of their type. `V` is how a value of any type is kept.
pub struct StateMap<V> {
    slots: Vec<(std::any::TypeId, V)>,
}

/// The value that each type was given last.
pub open spec fn values_of<V>(slots: Seq<(std::any::TypeId, V)>) -> Map<std::any::TypeId, V>
    decreases slots.len(),
{
    if slots.len() == 0 {
        Map::empty()
    } else {
        values_of(slots.drop_last()).insert(slots.last().0, slots.last().1)
    }
}

impl<V> View for StateMap<V> {
    type V = Map<std::any::TypeId, V>;

    closed spec fn view(&self) -> Map<std::any::TypeId, V> {
        values_of(self.slots@)
    }
}

/// The value of a type is the one in its last slot.
proof fn lemma_last_slot<V>(slots: Seq<(std::any::TypeId, V)>, id: std::any::TypeId, i: int)
    requires
        -1 <= i < slots.len(),
        i >= 0 ==> slots[i].0 == id,
        forall|k: int| i < k < slots.len() ==> (#[trigger] slots[k]).0 != id,
    ensures
        values_of(slots).contains_key(id) <==> i >= 0,
        i >= 0 ==> values_of(slots)[id] == slots[i].1,
    decreases slots.len(),
{
    if slots.len() > 0 {
        let init = slots.drop_last();
        if i < slots.len() - 1 {
            assert(slots[slots.len() - 1].0 != id);
            assert forall|k: int| i < k < init.len() implies (#[trigger] init[k]).0 != id by {
                assert(slots[k].0 != id);
            }
            lemma_last_slot(init, id, i);
        }
    }
}

/// To replace the last slot of a type is to give the type the new value.
proof fn lemma_replace<V>(
    slots: Seq<(std::any::TypeId, V)>,
    id: std::any::TypeId,
    i: int,
    value: V,
)
    requires
        0 <= i < slots.len(),
        slots[i].0 == id,
        forall|k: int| i < k < slots.len() ==> (#[trigger] slots[k]).0 != id,
    ensures
        values_of(slots.update(i, (id, value))) == values_of(slots).insert(id, value),
    decreases slots.len(),
{
    let init = slots.drop_last();
    let after = slots.update(i, (id, value));
    if i == slots.len() - 1 {
        assert(after.drop_last() =~= init);
        assert(values_of(after) =~= values_of(slots).insert(id, value));
    } else {
        assert(slots[slots.len() - 1].0 != id);
        assert forall|k: int| i < k < init.len() implies (#[trigger] init[k]).0 != id by {
            assert(slots[k].0 != id);
        }
        lemma_replace(init, id, i, value);
        assert(after.drop_last() =~= init.update(i, (id, value)));
        assert(values_of(after) =~= values_of(slots).insert(id, value));
    }
}

impl<V> Default for StateMap<V> {
    fn default() -> (r: StateMap<V>)
        ensures
            r@ == Map::<std::any::TypeId, V>::empty(),
    {
        StateMap { slots: Vec::new() }
    }
}

impl<V> StateMap<V> {
    /// Give a type its value. A second one for the same type takes the place of the
    /// first.
    pub fn insert(&mut self, id: std::any::TypeId, value: V)
        ensures
            final(self)@ == old(self)@.insert(id, value),
    {
        let ghost before = self.slots@;
        let mut n: usize = self.slots.len();
        while n > 0
            invariant
                self.slots@ == before,
                before == old(self).slots@,
                n <= before.len(),
                forall|k: int| n <= k < before.len() ==> (#[trigger] before[k]).0 != id,
            decreases n,
        {
            if same_type(&self.slots[n - 1].0, &id) {
                proof {
                    lemma_replace(before, id, n - 1, value);
                }
                self.slots[n - 1] = (id, value);
                return;
            }
            n = n - 1;
        }
        self.slots.push((id, value));
        assert(self.slots@.drop_last() =~= before);
    }

    /// The value of a type.
    pub fn get(&self, id: &std::any::TypeId) -> (r: Option<&V>)
        ensures
            r is Some <==> self@.contains_key(*id),
            r matches Some(v) ==> *v == self@[*id],
    {
        let mut n: usize = self.slots.len();
        while n > 0
            invariant
                n <= self.slots@.len(),
                forall|k: int| n <= k < self.slots@.len() ==> (#[trigger] self.slots@[k]).0 != *id,
            decreases n,
        {
            if same_type(&self.slots[n - 1].0, id) {
                proof {
                    lemma_last_slot(self.slots@, *id, n - 1);
                }
                return Some(&self.slots[n - 1].1);
            }
            n = n - 1;
        }
        proof {
            lemma_last_slot(self.slots@, *id, -1);
        }
        None
    }
}

} // verus!
