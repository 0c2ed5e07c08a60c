//! Joining a batch of independent resolutions.
//!
//! The project page resolves every manifest entry concurrently; the rim
//! collects one outcome per input name, completion order notwithstanding,
//! and hands the ordered outcomes here. The join is whole-or-nothing: all
//! values in input order, or the first failure — never a partial list.

use vstd::prelude::*;

verus! {

/// The join of a batch of outcomes: the values in input order if every
/// member succeeded, otherwise the error of the earliest failed member.
pub open spec fn spec_join<T, E>(rs: Seq<Result<T, E>>) -> Result<Seq<T>, E>
    decreases rs.len(),
{
    if rs.len() == 0 {
        Ok(Seq::empty())
    } else {
        match rs[0] {
            Err(e) => Err(e),
            Ok(v) => match spec_join(rs.drop_first()) {
                Ok(tail) => Ok(seq![v] + tail),
                Err(e) => Err(e),
            },
        }
    }
}

/// The position of the first failed outcome, `rs.len()` if none failed.
pub open spec fn first_err_index<T, E>(rs: Seq<Result<T, E>>) -> int
    decreases rs.len(),
{
    if rs.len() == 0 {
        0
    } else {
        match rs[0] {
            Err(_) => 0,
            Ok(_) => 1 + first_err_index(rs.drop_first()),
        }
    }
}

/// When every member succeeds, the join succeeds and keeps the input
/// order: the value at position `i` of the join is the value of the
/// `i`-th outcome, whatever order the members completed in.
pub proof fn lemma_join_order_preserving<T, E>(rs: Seq<Result<T, E>>)
    requires
        forall|i: int| 0 <= i < rs.len() ==> rs[i] is Ok,
    ensures
        spec_join(rs) is Ok,
        spec_join(rs)->Ok_0.len() == rs.len(),
        forall|i: int| 0 <= i < rs.len() ==> spec_join(rs)->Ok_0[i] == rs[i]->Ok_0,
    decreases rs.len(),
{
    if rs.len() > 0 {
        assert(rs[0] is Ok);
        lemma_join_order_preserving(rs.drop_first());
        assert forall|i: int| 0 <= i < rs.len() implies spec_join(rs)->Ok_0[i] == rs[i]->Ok_0 by {
            if i > 0 {
                assert(spec_join(rs.drop_first())->Ok_0[i - 1] == rs.drop_first()[i - 1]->Ok_0);
            }
        }
    }
}

/// When any member fails, the join fails with the error of the earliest
/// failed member — no partial list of successes ever reaches the caller.
pub proof fn lemma_join_fail_fast<T, E>(rs: Seq<Result<T, E>>)
    requires
        exists|i: int| 0 <= i < rs.len() && rs[i] is Err,
    ensures
        0 <= first_err_index(rs) < rs.len(),
        rs[first_err_index(rs)] is Err,
        forall|j: int| 0 <= j < first_err_index(rs) ==> rs[j] is Ok,
        spec_join(rs) == Err::<Seq<T>, E>(rs[first_err_index(rs)]->Err_0),
    decreases rs.len(),
{
    if rs[0] is Ok {
        let i = choose|i: int| 0 <= i < rs.len() && rs[i] is Err;
        assert(rs.drop_first()[i - 1] is Err);
        lemma_join_fail_fast(rs.drop_first());
        assert forall|j: int| 0 <= j < first_err_index(rs) implies rs[j] is Ok by {
            if j > 0 {
                assert(rs.drop_first()[j - 1] is Ok);
            }
        }
    }
}

/// Joins the outcomes of one fan-out batch, one per input name, in input
/// order. Succeeds with all the values iff every member succeeded;
/// otherwise returns the earliest failure and discards every success.
pub fn join_results<T, E>(results: Vec<Result<T, E>>) -> (r: Result<Vec<T>, E>)
    ensures
        r is Ok ==> spec_join(results@) == Ok::<Seq<T>, E>(r->Ok_0@),
        r is Err ==> spec_join(results@) == Err::<Seq<T>, E>(r->Err_0),
{
    let ghost orig = results@;
    let mut rest = results;
    let mut out: Vec<T> = Vec::new();
    proof {
        if spec_join(orig) is Ok {
            assert(out@ + spec_join(orig)->Ok_0 =~= spec_join(orig)->Ok_0);
        }
    }
    while rest.len() > 0
        invariant
            orig == results@,
            spec_join(rest@) is Ok ==> spec_join(orig) is Ok && spec_join(orig)->Ok_0 == out@
                + spec_join(rest@)->Ok_0,
            spec_join(rest@) is Err ==> spec_join(orig) is Err && spec_join(orig)->Err_0
                == spec_join(rest@)->Err_0,
        decreases rest@.len(),
    {
        let ghost pre = rest@;
        let x = rest.remove(0);
        proof {
            assert(pre.remove(0) =~= pre.drop_first());
        }
        match x {
            Ok(v) => {
                proof {
                    if spec_join(pre.drop_first()) is Ok {
                        assert(out@ + (seq![x->Ok_0] + spec_join(pre.drop_first())->Ok_0) =~= out@.push(
                            x->Ok_0,
                        ) + spec_join(pre.drop_first())->Ok_0);
                    }
                }
                out.push(v);
            },
            Err(e) => {
                proof {
                    assert(spec_join(orig) == Err::<Seq<T>, E>(spec_join(orig)->Err_0));
                }
                return Err(e);
            },
        }
    }
    proof {
        assert(out@ + Seq::<T>::empty() =~= out@);
    }
    Ok(out)
}

} // verus!
