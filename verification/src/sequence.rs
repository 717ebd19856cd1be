//! Running a fixed sequence of native calls that stops at the first failure,
//! as the driver bring-up routines do.

use vstd::prelude::*;

use crate::error::{EspError, ESP_OK};

verus! {

/// `codes` are the statuses that `run` returned for the first `codes.len()`
/// steps, in order, and the run stopped where it had to: every status but
/// the last is `ESP_OK`, and a run that ended before the last step ended on
/// a failure.
pub open spec fn ran_until_failure<S, F: Fn(S) -> i32>(steps: Seq<S>, codes: Seq<i32>, run: F) -> bool {
    &&& codes.len() <= steps.len()
    &&& forall|i: int| 0 <= i < codes.len() ==> #[trigger] call_ensures(run, (steps[i],), codes[i])
    &&& forall|i: int| 0 <= i < codes.len() - 1 ==> #[trigger] codes[i] == ESP_OK
    &&& codes.len() < steps.len() ==> codes.len() > 0 && codes.last() != ESP_OK
}

/// The result of a run that produced `codes`: `Ok` when every step ran and
/// succeeded, else the error of the last (failed) step.
pub open spec fn run_result(steps_len: nat, codes: Seq<i32>) -> Result<(), i32> {
    if codes.len() == steps_len && (codes.len() == 0 || codes.last() == ESP_OK) {
        Ok(())
    } else {
        Err(codes.last())
    }
}

/// Runs `run` on each step in order and stops at the first step whose status
/// is not `ESP_OK`, returning that status as the error.
pub fn run_steps<S: Copy, F: Fn(S) -> i32>(steps: &Vec<S>, run: &F) -> (r: Result<(), EspError>)
    requires
        forall|s: S| call_requires(*run, (s,)),
    ensures
        exists|codes: Seq<i32>| #[trigger] ran_until_failure(steps@, codes, *run) && match r {
            Ok(()) => run_result(steps@.len(), codes) == Ok::<(), i32>(()),
            Err(e) => run_result(steps@.len(), codes) == Err::<(), i32>(e.spec_code()),
        },
{
    let mut i: usize = 0;
    let ghost mut codes: Seq<i32> = Seq::empty();
    while i < steps.len()
        invariant
            forall|s: S| call_requires(*run, (s,)),
            i <= steps.len(),
            codes.len() == i,
            forall|j: int| 0 <= j < i ==> #[trigger] call_ensures(*run, (steps@[j],), codes[j]),
            forall|j: int| 0 <= j < i ==> #[trigger] codes[j] == ESP_OK,
        decreases steps.len() - i,
    {
        let step = steps[i];
        let code = run(step);
        proof {
            codes = codes.push(code);
        }
        if code != ESP_OK {
            assert(ran_until_failure(steps@, codes, *run));
            assert(run_result(steps@.len(), codes) == Err::<(), i32>(code));
            return Err(EspError::from_non_zero(code));
        }
        i = i + 1;
    }
    assert(ran_until_failure(steps@, codes, *run));
    Ok(())
}

} // verus!
