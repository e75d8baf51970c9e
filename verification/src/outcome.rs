//! Work done item by item, where the first item that fails fails the whole.

use vstd::prelude::*;

verus! {

/// Every item of `s` where none fails, else the failure that comes first.
pub open spec fn all_or_first<T, E>(s: Seq<Result<T, E>>) -> Result<Seq<T>, E>
    decreases s.len(),
{
    if s.len() == 0 {
        Ok(Seq::empty())
    } else {
        match all_or_first(s.drop_last()) {
            Err(e) => Err(e),
            Ok(items) => match s.last() {
                Ok(item) => Ok(items.push(item)),
                Err(e) => Err(e),
            },
        }
    }
}

/// The result `r` of a function says what the model `m` says: the same
/// failure, or items with the same content.
pub open spec fn says<T, E>(r: Result<Vec<T>, E>, m: Result<Seq<T>, E>) -> bool {
    match m {
        Ok(items) => r is Ok && r->Ok_0@ == items,
        Err(e) => r == Err::<Vec<T>, E>(e),
    }
}

/// One more item, where all before it went well.
pub proof fn lemma_all_or_first_step<T, E>(s: Seq<Result<T, E>>, i: int)
    requires
        0 <= i < s.len(),
        all_or_first(s.take(i)) is Ok,
    ensures
        s[i] is Ok ==> all_or_first(s.take(i + 1)) == Ok::<Seq<T>, E>(
            all_or_first(s.take(i))->Ok_0.push(s[i]->Ok_0),
        ),
        s[i] is Err ==> all_or_first(s) == Err::<Seq<T>, E>(s[i]->Err_0),
{
    assert(s.take(i + 1).drop_last() =~= s.take(i));
    assert(s.take(i + 1).last() == s[i]);
    if s[i] is Err {
        lemma_failure_stays(s, i + 1);
    }
}

/// A failure among the first `n` items is the failure of the whole.
pub proof fn lemma_failure_stays<T, E>(s: Seq<Result<T, E>>, n: int)
    requires
        0 <= n <= s.len(),
        all_or_first(s.take(n)) is Err,
    ensures
        all_or_first(s) == all_or_first(s.take(n)),
    decreases s.len() - n,
{
    if n == s.len() {
        assert(s.take(n) =~= s);
    } else {
        assert(s.take(n + 1).drop_last() =~= s.take(n));
        lemma_failure_stays(s, n + 1);
    }
}

/// Where no item fails, the whole is every item in its place.
pub proof fn lemma_all_ok<T, E>(s: Seq<Result<T, E>>)
    requires
        forall|i: int| 0 <= i < s.len() ==> (#[trigger] s[i]) is Ok,
    ensures
        all_or_first(s) is Ok,
        all_or_first(s)->Ok_0.len() == s.len(),
        forall|i: int| 0 <= i < s.len() ==> all_or_first(s)->Ok_0[i] == (#[trigger] s[i])->Ok_0,
    decreases s.len(),
{
    if s.len() > 0 {
        let front = s.drop_last();
        assert forall|i: int| 0 <= i < front.len() implies (#[trigger] front[i]) is Ok by {
            assert(front[i] == s[i]);
        }
        lemma_all_ok(front);
        assert forall|i: int| 0 <= i < s.len() implies all_or_first(s)->Ok_0[i] == (
        #[trigger] s[i])->Ok_0 by {
            if i < s.len() - 1 {
                assert(front[i] == s[i]);
            }
        }
    }
}

/// Where the whole fails, it fails with the first failure among the items.
pub proof fn lemma_first_failure<T, E>(s: Seq<Result<T, E>>) -> (at: int)
    requires
        all_or_first(s) is Err,
    ensures
        0 <= at < s.len(),
        s[at] == Err::<T, E>(all_or_first(s)->Err_0),
        forall|i: int| 0 <= i < at ==> (#[trigger] s[i]) is Ok,
    decreases s.len(),
{
    let front = s.drop_last();
    if all_or_first(front) is Err {
        let at = lemma_first_failure(front);
        assert forall|i: int| 0 <= i < at implies (#[trigger] s[i]) is Ok by {
            assert(front[i] == s[i]);
        }
        assert(front[at] == s[at]);
        at
    } else {
        lemma_all_ok_back(front);
        assert forall|i: int| 0 <= i < s.len() - 1 implies (#[trigger] s[i]) is Ok by {
            assert(front[i] == s[i]);
        }
        s.len() - 1
    }
}

/// Where the whole goes well, no item fails.
pub proof fn lemma_all_ok_back<T, E>(s: Seq<Result<T, E>>)
    requires
        all_or_first(s) is Ok,
    ensures
        forall|i: int| 0 <= i < s.len() ==> (#[trigger] s[i]) is Ok,
    decreases s.len(),
{
    if s.len() > 0 {
        lemma_all_ok_back(s.drop_last());
        assert forall|i: int| 0 <= i < s.len() implies (#[trigger] s[i]) is Ok by {
            if i < s.len() - 1 {
                assert(s.drop_last()[i] == s[i]);
            }
        }
    }
}

} // verus!
