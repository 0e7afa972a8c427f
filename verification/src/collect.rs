//! Reading a list item by item, where the first failure decides.

use vstd::prelude::*;

verus! {

/// The values of a list of results, or the first error in it.
pub open spec fn all_ok<T, E>(s: Seq<Result<T, E>>) -> Result<Seq<T>, E>
    decreases s.len(),
{
    if s.len() == 0 {
        Ok(Seq::empty())
    } else {
        match all_ok(s.drop_last()) {
            Err(e) => Err(e),
            Ok(t) => match s.last() {
                Ok(x) => Ok(t.push(x)),
                Err(e) => Err(e),
            },
        }
    }
}

/// One more item.
pub proof fn lemma_all_ok_step<T, E>(s: Seq<Result<T, E>>, i: int)
    requires
        0 <= i < s.len(),
    ensures
        all_ok(s.take(i + 1)) == match all_ok(s.take(i)) {
            Err(e) => Err(e),
            Ok(t) => match s[i] {
                Ok(x) => Ok(t.push(x)),
                Err(e) => Err(e),
            },
        },
{
    assert(s.take(i + 1).drop_last() =~= s.take(i));
}

/// A failure among the first items is the failure of the whole list.
pub proof fn lemma_all_ok_fails<T, E>(s: Seq<Result<T, E>>, i: int)
    requires
        0 <= i <= s.len(),
        all_ok(s.take(i)) is Err,
    ensures
        all_ok(s) == all_ok(s.take(i)),
    decreases s.len() - i,
{
    if i < s.len() {
        lemma_all_ok_step(s, i);
        lemma_all_ok_fails(s, i + 1);
    } else {
        assert(s.take(i) =~= s);
    }
}

/// A list is read in full exactly when each item is, item by item.
pub proof fn lemma_all_ok_values<T, E>(s: Seq<Result<T, E>>)
    ensures
        all_ok(s) is Ok <==> forall|i: int| 0 <= i < s.len() ==> (#[trigger] s[i]) is Ok,
        all_ok(s) matches Ok(t) ==> t.len() == s.len() && forall|i: int|
            0 <= i < s.len() ==> s[i] == Ok::<T, E>(#[trigger] t[i]),
    decreases s.len(),
{
    if s.len() > 0 {
        lemma_all_ok_values(s.drop_last());
        if all_ok(s) is Ok {
            assert forall|i: int| 0 <= i < s.len() implies (#[trigger] s[i]) is Ok by {
                if i < s.len() - 1 {
                    assert(s.drop_last()[i] is Ok);
                }
            }
            let t = all_ok(s)->Ok_0;
            let u = all_ok(s.drop_last())->Ok_0;
            assert forall|i: int| 0 <= i < s.len() implies s[i] == Ok::<T, E>(#[trigger] t[i]) by {
                if i < s.len() - 1 {
                    assert(s.drop_last()[i] == Ok::<T, E>(u[i]));
                }
            }
        }
        if forall|i: int| 0 <= i < s.len() ==> (#[trigger] s[i]) is Ok {
            assert forall|i: int| 0 <= i < s.drop_last().len() implies (#[trigger] s.drop_last()[i])
                is Ok by {
                assert(s[i] is Ok);
            }
            assert(s[s.len() - 1] is Ok);
        }
    }
}

} // verus!
