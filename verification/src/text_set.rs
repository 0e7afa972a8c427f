//! A small set of texts, kept in order.

use vstd::prelude::*;
use vstd::string::*;

use crate::text;

verus! {

/// A set of texts, sorted and without duplicates.
#[derive(Debug)]
pub struct TextSet {
    items: Vec<String>,
}

/// Strictly ascending texts.
pub open spec fn ascending(items: Seq<Seq<char>>) -> bool {
    forall|i: int, j: int|
        0 <= i < j < items.len() ==> #[trigger] text::precedes_spec(items[i], items[j])
}

impl TextSet {
    /// The texts, in order.
    pub closed spec fn items_spec(self) -> Seq<Seq<char>> {
        text::texts(self.items@)
    }

    /// The texts are sorted, and none occurs twice.
    #[verifier::type_invariant]
    pub closed spec fn valid(self) -> bool {
        ascending(self.items_spec())
    }
}

impl View for TextSet {
    type V = Set<Seq<char>>;

    open spec fn view(&self) -> Set<Seq<char>> {
        self.items_spec().to_set()
    }
}

/// Two ascending lists of the same texts are the same list.
pub proof fn law_order_is_canonical(a: Seq<Seq<char>>, b: Seq<Seq<char>>)
    requires
        ascending(a),
        ascending(b),
        a.to_set() == b.to_set(),
    ensures
        a == b,
    decreases a.len(),
{
    if a.len() == 0 {
        if b.len() > 0 {
            assert(b.to_set().contains(b[0]));
            assert(a.to_set().contains(b[0]));
        }
        assert(a =~= b);
    } else {
        assert(a.to_set().contains(a.last()));
        assert(b.to_set().contains(a.last()));
        let j = choose|j: int| 0 <= j < b.len() && b[j] == a.last();
        assert(b.to_set().contains(b.last()));
        assert(a.to_set().contains(b.last()));
        let i = choose|i: int| 0 <= i < a.len() && a[i] == b.last();
        assert(a.last() == b.last()) by {
            if j < b.len() - 1 {
                assert(text::precedes_spec(b[j], b[b.len() - 1]));
                if i < a.len() - 1 {
                    assert(text::precedes_spec(a[i], a[a.len() - 1]));
                    text::lemma_precedes_transitive(a.last(), b.last(), a.last());
                }
                text::lemma_precedes_irreflexive(a.last());
            }
        }
        let x = a.drop_last();
        let y = b.drop_last();
        lemma_ascending_init(a);
        lemma_ascending_init(b);
        assert(x.to_set() =~= y.to_set()) by {
            assert forall|t: Seq<char>| x.to_set().contains(t) == y.to_set().contains(t) by {
                lemma_init_member(a, t);
                lemma_init_member(b, t);
            }
        }
        law_order_is_canonical(x, y);
        assert(a =~= x.push(a.last()));
        assert(b =~= y.push(b.last()));
    }
}

proof fn lemma_ascending_init(a: Seq<Seq<char>>)
    requires
        ascending(a),
        a.len() > 0,
    ensures
        ascending(a.drop_last()),
{
    assert forall|i: int, j: int| 0 <= i < j < a.drop_last().len() implies
        #[trigger] text::precedes_spec(a.drop_last()[i], a.drop_last()[j]) by {
        assert(text::precedes_spec(a[i], a[j]));
    }
}

/// The members of all but the last text are the members other than the last.
proof fn lemma_init_member(a: Seq<Seq<char>>, t: Seq<char>)
    requires
        ascending(a),
        a.len() > 0,
    ensures
        a.drop_last().to_set().contains(t) <==> a.to_set().contains(t) && t != a.last(),
{
    let x = a.drop_last();
    if x.to_set().contains(t) {
        let i = choose|i: int| 0 <= i < x.len() && x[i] == t;
        assert(a[i] == t);
        assert(text::precedes_spec(a[i], a[a.len() - 1]));
        text::lemma_precedes_irreflexive(t);
    }
    if a.to_set().contains(t) && t != a.last() {
        let i = choose|i: int| 0 <= i < a.len() && a[i] == t;
        assert(x[i] == t);
    }
}

/// The texts of a set, in ascending order.
pub open spec fn sorted(texts: Set<Seq<char>>) -> Seq<Seq<char>> {
    choose|items: Seq<Seq<char>>| #[trigger] ascending(items) && items.to_set() == texts
}

/// An ascending list is the one that its set of texts is sorted to.
pub proof fn lemma_sorted(items: Seq<Seq<char>>)
    requires
        ascending(items),
    ensures
        sorted(items.to_set()) == items,
{
    law_order_is_canonical(sorted(items.to_set()), items);
}

impl TextSet {
    /// The set of the texts in a list.
    pub fn collect(list: &Vec<String>) -> (r: TextSet)
        ensures
            r@ == text::texts(list@).to_set(),
            r.items_spec() == sorted(text::texts(list@).to_set()),
    {
        let mut out = TextSet::new();
        let n: usize = list.len();
        let mut i: usize = 0;
        assert(text::texts(list@.take(0)).to_set() =~= Set::empty());
        while i < n
            invariant
                n == list@.len(),
                i <= n,
                out@ == text::texts(list@.take(i as int)).to_set(),
            decreases n - i,
        {
            let ghost before = text::texts(list@.take(i as int));
            let ghost t = list@[i as int]@;
            out.insert(list[i].clone());
            proof {
                let after = text::texts(list@.take(i as int + 1));
                assert(after =~= before.push(t));
                assert(after.to_set() =~= before.to_set().insert(t)) by {
                    assert forall|x: Seq<char>| after.to_set().contains(x) <==> before.to_set().insert(
                        t,
                    ).contains(x) by {
                        if before.to_set().contains(x) {
                            let k = choose|k: int| 0 <= k < before.len() && before[k] == x;
                            assert(after[k] == x);
                        }
                        if x == t {
                            assert(after[i as int] == x);
                        }
                    }
                }
            }
            i = i + 1;
        }
        assert(list@.take(n as int) =~= list@);
        proof {
            use_type_invariant(&out);
            lemma_sorted(out.items_spec());
        }
        out
    }

    /// The empty set.
    pub fn new() -> (r: TextSet)
        ensures
            r@ == Set::<Seq<char>>::empty(),
            r.items_spec().len() == 0,
    {
        let r = TextSet { items: Vec::new() };
        assert(r.items_spec() =~= Seq::empty());
        assert(r@ =~= Set::empty());
        r
    }

    /// The texts, in order.
    pub fn items(&self) -> (r: &Vec<String>)
        ensures
            text::texts(r@) == self.items_spec(),
            ascending(self.items_spec()),
    {
        proof {
            use_type_invariant(self);
        }
        &self.items
    }

    /// Number of texts.
    pub fn len(&self) -> (r: usize)
        ensures
            r == self.items_spec().len(),
    {
        self.items.len()
    }

    /// The texts in order, separated by commas.
    pub fn csv(&self) -> (r: String)
        ensures
            r@ == text::joined(self.items_spec(), ","@),
    {
        text::join(&self.items, ",")
    }

    /// Add a text.
    pub fn insert(&mut self, item: String)
        ensures
            final(self)@ == old(self)@.insert(item@),
    {
        proof {
            use_type_invariant(&*self);
        }
        let n: usize = self.items.len();
        let mut at: usize = 0;
        let ghost before = self.items_spec();
        while at < n && text::precedes(self.items[at].as_str(), item.as_str())
            invariant
                before == self.items_spec(),
                self.items == old(self).items,
                n == self.items@.len(),
                n == before.len(),
                at <= n,
                forall|i: int| 0 <= i < at ==> text::precedes_spec(#[trigger] before[i], item@),
            ensures
                at < n ==> !text::precedes_spec(before[at as int], item@),
            decreases n - at,
        {
            assert(before[at as int] == self.items@[at as int]@);
            at = at + 1;
        }
        let ghost t = item@;
        if at < n && text::same(self.items[at].as_str(), item.as_str()) {
            assert(before[at as int] == t);
            assert(before.to_set().contains(t));
            assert(self@ =~= old(self)@.insert(t));
            return;
        }
        let mut items: Vec<String> = Vec::new();
        core::mem::swap(&mut self.items, &mut items);
        items.insert(at, item);
        proof {
            let after = text::texts(items@);
            assert(after =~= before.insert(at as int, t));
            if at < n {
                assert(before[at as int] != t);
                text::lemma_precedes_total(before[at as int], t);
            }
            assert forall|i: int, j: int| 0 <= i < j < after.len() implies
                #[trigger] text::precedes_spec(after[i], after[j]) by {
                if i < at && j < at {
                    assert(text::precedes_spec(before[i], before[j]));
                } else if i < at && j == at {
                    assert(text::precedes_spec(before[i], t));
                } else if i < at && j > at {
                    assert(text::precedes_spec(before[i], before[j - 1]));
                } else if i == at {
                    assert(text::precedes_spec(t, before[at as int]));
                    if j - 1 > at {
                        assert(text::precedes_spec(before[at as int], before[j - 1]));
                        text::lemma_precedes_transitive(t, before[at as int], before[j - 1]);
                    }
                } else {
                    assert(text::precedes_spec(before[i - 1], before[j - 1]));
                }
            }
            assert(after.to_set() =~= before.to_set().insert(t)) by {
                assert forall|q: Seq<char>| after.to_set().contains(q) == before.to_set().insert(
                    t,
                ).contains(q) by {
                    if after.to_set().contains(q) {
                        let i = choose|i: int| 0 <= i < after.len() && after[i] == q;
                        if i < at {
                            assert(before[i] == q);
                        } else if i > at {
                            assert(before[i - 1] == q);
                        }
                    }
                    if before.to_set().contains(q) {
                        let i = choose|i: int| 0 <= i < before.len() && before[i] == q;
                        if i < at {
                            assert(after[i] == q);
                        } else {
                            assert(after[i + 1] == q);
                        }
                    }
                    if q == t {
                        assert(after[at as int] == q);
                    }
                }
            }
        }
        self.items = items;
    }
}

} // verus!
