//! All-or-nothing assembly of a collection fan-out: every entity of a
//! listing is reconciled independently, and one failure fails the whole
//! listing with that same error — no partial results.

use vstd::prelude::*;
use crate::error::ApiError;

verus! {

/// The all-or-nothing collection rule: the values of the results in order
/// when every one succeeded, otherwise the first error in order.
pub open spec fn spec_collect<T>(rs: Seq<Result<T, ApiError>>) -> Result<Seq<T>, ApiError>
    decreases rs.len(),
{
    if rs.len() == 0 {
        Ok(Seq::empty())
    } else {
        match rs[0] {
            Err(e) => Err(e),
            Ok(v) => match spec_collect(rs.drop_first()) {
                Ok(tail) => Ok(seq![v] + tail),
                Err(e) => Err(e),
            },
        }
    }
}

/// Law: the collection rule is all-or-nothing.  It succeeds exactly when
/// every single result succeeded, and then returns all their values in
/// order; otherwise it fails with the error of the first failed result,
/// every result before which succeeded.
pub proof fn lemma_collect_all_or_nothing<T>(rs: Seq<Result<T, ApiError>>)
    ensures
        (spec_collect(rs) is Ok) <==> (forall|i: int| 0 <= i < rs.len() ==> rs[i] is Ok),
        spec_collect(rs) is Ok ==> spec_collect(rs)->Ok_0 == rs.map_values(
            |r: Result<T, ApiError>| r->Ok_0,
        ),
        spec_collect(rs) is Err ==> exists|i: int|
            {
                &&& 0 <= i < rs.len()
                &&& rs[i] is Err
                &&& spec_collect(rs)->Err_0 == #[trigger] rs[i]->Err_0
                &&& forall|j: int| 0 <= j < i ==> rs[j] is Ok
            },
    decreases rs.len(),
{
    if rs.len() == 0 {
        assert(spec_collect(rs)->Ok_0 =~= rs.map_values(|r: Result<T, ApiError>| r->Ok_0));
    } else {
        let t = rs.drop_first();
        lemma_collect_all_or_nothing(t);
        assert(forall|i: int| 1 <= i < rs.len() ==> rs[i] == #[trigger] t[i - 1]);
        match rs[0] {
            Err(e) => {
                assert({
                    &&& 0 <= 0 < rs.len()
                    &&& rs[0] is Err
                    &&& spec_collect(rs)->Err_0 == rs[0]->Err_0
                    &&& forall|j: int| 0 <= j < 0 ==> rs[j] is Ok
                });
            },
            Ok(v) => {
                if forall|i: int| 0 <= i < rs.len() ==> rs[i] is Ok {
                    assert forall|i: int| 0 <= i < t.len() implies #[trigger] t[i] is Ok by {
                        assert(t[i] == rs[i + 1]);
                    }
                }
                if forall|i: int| 0 <= i < t.len() ==> t[i] is Ok {
                    assert forall|i: int| 0 <= i < rs.len() implies #[trigger] rs[i] is Ok by {
                        if i >= 1 {
                            assert(rs[i] == t[i - 1]);
                        }
                    }
                }
                match spec_collect(t) {
                    Ok(tail) => {
                        assert(seq![v] + tail =~= rs.map_values(
                            |r: Result<T, ApiError>| r->Ok_0,
                        ));
                    },
                    Err(_) => {
                        let i = choose|i: int|
                            {
                                &&& 0 <= i < t.len()
                                &&& t[i] is Err
                                &&& spec_collect(t)->Err_0 == #[trigger] t[i]->Err_0
                                &&& forall|j: int| 0 <= j < i ==> t[j] is Ok
                            };
                        assert(rs[i + 1] == t[i]);
                        assert forall|j: int| 0 <= j < i + 1 implies #[trigger] rs[j] is Ok by {
                            if j >= 1 {
                                assert(rs[j] == t[j - 1]);
                            }
                        }
                        assert({
                            &&& 0 <= i + 1 < rs.len()
                            &&& rs[i + 1] is Err
                            &&& spec_collect(rs)->Err_0 == rs[i + 1]->Err_0
                            &&& forall|j: int| 0 <= j < i + 1 ==> rs[j] is Ok
                        });
                    },
                }
            },
        }
    }
}

/// Assembles the results of a collection fan-out, all-or-nothing: the list
/// of all reconciled entities in order when every one succeeded, otherwise
/// the first error in order, with every partial result discarded.
#[verifier::loop_isolation(false)]
pub fn collect_all<T>(results: Vec<Result<T, ApiError>>) -> (r: Result<Vec<T>, ApiError>)
    ensures
        match r {
            Ok(v) => spec_collect(results@) == Ok::<Seq<T>, ApiError>(v@),
            Err(e) => spec_collect(results@) == Err::<Seq<T>, ApiError>(e),
        },
{
    let ghost all: Seq<Result<T, ApiError>> = results@;
    let mut rest = results;
    let mut out: Vec<T> = Vec::new();
    while rest.len() > 0
        invariant
            spec_collect(all) == (match spec_collect(rest@) {
                Ok(tail) => Ok::<Seq<T>, ApiError>(out@ + tail),
                Err(e) => Err::<Seq<T>, ApiError>(e),
            }),
        decreases rest.len(),
    {
        let ghost rest0: Seq<Result<T, ApiError>> = rest@;
        let head = rest.remove(0);
        proof {
            assert(rest@ =~= rest0.drop_first());
        }
        match head {
            Ok(v) => {
                let ghost out0: Seq<T> = out@;
                out.push(v);
                proof {
                    if spec_collect(rest@) is Ok {
                        let tail = spec_collect(rest@)->Ok_0;
                        assert(spec_collect(rest0) == Ok::<Seq<T>, ApiError>(seq![v] + tail));
                        assert(out0 + (seq![v] + tail) =~= out@ + tail);
                    }
                }
            },
            Err(e) => {
                proof {
                    assert(rest0[0] == Err::<T, ApiError>(e));
                    assert(spec_collect(rest0) == Err::<Seq<T>, ApiError>(e));
                }
                return Err(e);
            },
        }
    }
    proof {
        assert(out@ + spec_collect(rest@)->Ok_0 =~= out@);
    }
    Ok(out)
}

} // verus!
