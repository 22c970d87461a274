//! Steps that may fail, taken in order: the whole succeeds with every text,
//! or fails with the error of the first step that failed.
use vstd::prelude::*;

verus! {

/// Step `i` fails and no earlier step does.
pub open spec fn fails_first_at<E>(steps: Seq<Result<Seq<char>, E>>, i: int) -> bool {
    &&& 0 <= i < steps.len()
    &&& steps[i] is Err
    &&& forall|j: int| 0 <= j < i ==> (#[trigger] steps[j]) is Ok
}

/// The texts of all steps, or the error of the first step that fails.
pub open spec fn collected<E>(steps: Seq<Result<Seq<char>, E>>) -> Result<Seq<Seq<char>>, E> {
    if exists|i: int| fails_first_at(steps, i) {
        Err(steps[choose|i: int| fails_first_at(steps, i)]->Err_0)
    } else {
        Ok(steps.map_values(|step: Result<Seq<char>, E>| step->Ok_0))
    }
}

/// Where step `i` is the first to fail, the whole fails with its error.
pub proof fn lemma_collected_fails<E>(steps: Seq<Result<Seq<char>, E>>, i: int)
    requires
        fails_first_at(steps, i),
    ensures
        collected(steps) == Err::<Seq<Seq<char>>, E>(steps[i]->Err_0),
{
    let k = choose|k: int| fails_first_at(steps, k);
    assert(fails_first_at(steps, k));
    if k < i {
        assert(steps[k] is Ok);
    } else if i < k {
        assert(steps[i] is Ok);
    }
}

/// Where every step gives its text, the whole gives all of them in order.
pub proof fn lemma_collected_succeeds<E>(steps: Seq<Result<Seq<char>, E>>, all: Seq<Seq<char>>)
    requires
        all.len() == steps.len(),
        forall|i: int| 0 <= i < steps.len() ==> (#[trigger] steps[i]) == Ok::<Seq<char>, E>(all[i]),
    ensures
        collected(steps) == Ok::<Seq<Seq<char>>, E>(all),
{
    assert forall|i: int| !fails_first_at(steps, i) by {
        if 0 <= i < steps.len() {
            assert(steps[i] is Ok);
        }
    }
    assert(steps.map_values(|step: Result<Seq<char>, E>| step->Ok_0) =~= all);
}

/// Where some step fails, some step is the first to fail.
pub proof fn lemma_first_failure_exists<E>(steps: Seq<Result<Seq<char>, E>>, i: int)
    requires
        0 <= i < steps.len(),
        steps[i] is Err,
    ensures
        exists|k: int| fails_first_at(steps, k),
    decreases i,
{
    if forall|j: int| 0 <= j < i ==> (#[trigger] steps[j]) is Ok {
        assert(fails_first_at(steps, i));
    } else {
        let j = choose|j: int| 0 <= j < i && !((#[trigger] steps[j]) is Ok);
        lemma_first_failure_exists(steps, j);
    }
}

/// Where the whole succeeds, every step gave its text, and the whole holds
/// them in order.
pub proof fn lemma_collected_is_ok<E>(steps: Seq<Result<Seq<char>, E>>)
    requires
        collected(steps) is Ok,
    ensures
        collected(steps)->Ok_0.len() == steps.len(),
        forall|i: int|
            0 <= i < steps.len() ==> (#[trigger] steps[i]) == Ok::<Seq<char>, E>(
                collected(steps)->Ok_0[i],
            ),
{
    assert forall|i: int| 0 <= i < steps.len() implies (#[trigger] steps[i]) == Ok::<
        Seq<char>,
        E,
    >(collected(steps)->Ok_0[i]) by {
        if steps[i] is Err {
            lemma_first_failure_exists(steps, i);
        }
    }
}

} // verus!
