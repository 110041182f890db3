//! Aggregating many concurrent acquisitions: results are collected in
//! order and the first failure wins; finished downloads are then held
//! against their declared hashes.

use vstd::prelude::*;

use crate::cache::{DownloadResult, Error};
use crate::hash::hash_matches;

verus! {

/// The successful results among `s`, in order.
pub open spec fn ok_values(s: Seq<Result<DownloadResult, Error>>) -> Seq<DownloadResult>
    decreases s.len(),
{
    if s.len() == 0 {
        Seq::empty()
    } else {
        match s[0] {
            Ok(v) => seq![v] + ok_values(s.skip(1)),
            Err(_) => ok_values(s.skip(1)),
        }
    }
}

/// Aggregates the settled acquisitions: the first error, in input order,
/// fails the whole batch; with no error every result is returned, in
/// order.
#[verifier::loop_isolation(false)]
pub fn collect_results(results: Vec<Result<DownloadResult, Error>>) -> (r: Result<
    Vec<DownloadResult>,
    Error,
>)
    ensures
        match r {
            Ok(vs) => (forall|k: int| 0 <= k < results@.len() ==> (#[trigger] results@[k]) is Ok)
                && vs@ == ok_values(results@),
            Err(_) => exists|k: int|
                {
                    &&& 0 <= k < results@.len()
                    &&& (#[trigger] results@[k]) is Err
                    &&& r == Err::<Vec<DownloadResult>, Error>(results@[k]->Err_0)
                    &&& forall|j: int| 0 <= j < k ==> (#[trigger] results@[j]) is Ok
                },
        },
{
    let ghost all = results@;
    let mut rest = results;
    let mut out: Vec<DownloadResult> = Vec::new();
    let ghost mut i: int = 0;
    proof {
        assert(all.skip(0) =~= all);
        assert(out@ + ok_values(all) =~= ok_values(all));
    }
    while rest.len() > 0
        invariant
            0 <= i <= all.len(),
            rest@ == all.skip(i),
            forall|j: int| 0 <= j < i ==> (#[trigger] all[j]) is Ok,
            ok_values(all) == out@ + ok_values(all.skip(i)),
        decreases rest@.len(),
    {
        proof {
            assert(all.skip(i)[0] == all[i]);
            assert(all.skip(i).skip(1) =~= all.skip(i + 1));
        }
        let ghost out_before = out@;
        let head = rest.remove(0);
        proof {
            assert(rest@ =~= all.skip(i + 1));
        }
        match head {
            Ok(v) => {
                out.push(v);
                proof {
                    assert(out@ + ok_values(all.skip(i + 1)) =~= out_before + (seq![
                        all[i]->Ok_0,
                    ] + ok_values(all.skip(i + 1))));
                }
            },
            Err(e) => {
                proof {
                    assert(results@ == all);
                    assert(results@[i] is Err);
                    assert(results@[i]->Err_0 == e);
                    assert(forall|j: int| 0 <= j < i ==> (#[trigger] results@[j]) is Ok);
                }
                return Err(e);
            },
        }
        proof {
            i = i + 1;
        }
    }
    proof {
        assert(all.skip(i) =~= Seq::<Result<DownloadResult, Error>>::empty());
        assert(out@ + ok_values(all.skip(i)) =~= out@);
        assert(i == all.len());
    }
    Ok(out)
}

/// Holds every finished download against its declared hash, in order:
/// the first mismatch fails the batch with both spellings; with hash
/// checking disabled nothing is compared and the batch passes.
#[verifier::loop_isolation(false)]
pub fn verify_all(results: &Vec<DownloadResult>, declared: &Vec<String>, no_hash_check: bool) -> (r:
    Result<(), Error>)
    requires
        results@.len() == declared@.len(),
    ensures
        no_hash_check ==> r is Ok,
        !no_hash_check ==> match r {
            Ok(_) => forall|k: int|
                0 <= k < results@.len() ==> hash_matches(
                    (#[trigger] results@[k]).computed_hash@,
                    declared@[k]@,
                ),
            Err(_) => exists|k: int|
                {
                    &&& 0 <= k < results@.len()
                    &&& !hash_matches((#[trigger] results@[k]).computed_hash@, declared@[k]@)
                    &&& forall|j: int|
                        0 <= j < k ==> hash_matches(
                            (#[trigger] results@[j]).computed_hash@,
                            declared@[j]@,
                        )
                },
        },
{
    if no_hash_check {
        return Ok(());
    }
    let mut i: usize = 0;
    while i < results.len()
        invariant
            i <= results@.len(),
            results@.len() == declared@.len(),
            forall|j: int|
                0 <= j < i ==> hash_matches(
                    (#[trigger] results@[j]).computed_hash@,
                    declared@[j]@,
                ),
        decreases results@.len() - i,
    {
        match crate::cache::verify_download(&results[i], declared[i].as_str()) {
            Ok(_) => {},
            Err(e) => {
                proof {
                    assert(0 <= i < results@.len());
                    assert(!hash_matches(
                        (results@[i as int]).computed_hash@,
                        declared@[i as int]@,
                    ));
                    assert(forall|j: int|
                        0 <= j < i ==> hash_matches(
                            (#[trigger] results@[j]).computed_hash@,
                            declared@[j]@,
                        ));
                }
                return Err(e);
            },
        }
        i = i + 1;
    }
    Ok(())
}

} // verus!
