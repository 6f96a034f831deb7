//! The lifecycle of a transcoding job: queued, processing, uploading,
//! completed (or cancelled), with a failure recorded on an out-of-order step.

use vstd::prelude::*;
use crate::proto::{JobState, RawProtoResult, RawProtoResultWrapper, result_view, same_job_state, string_result_view};
use crate::text::owned;

verus! {

/// The failure recorded when a job is not in the state a step expects.
pub open spec fn mismatch_text() -> Seq<char> {
    "internal server error (state mismatch)"@
}

/// The job failed because a step found it in an unexpected state.
pub open spec fn failed_with_mismatch(s: JobState) -> bool {
    s matches JobState::Completed(w) && w.result_inner matches Some(RawProtoResult::Failure(e))
        && e@ == mismatch_text()
}

/// Moves the job in `state` to `new` when `expected` is absent or the job is
/// in the `expected` state, and reports whether it did; otherwise the job
/// is completed with a state-mismatch failure.
pub fn set_state_if_eq(state: &mut JobState, new: JobState, expected: Option<JobState>) -> (ok: bool)
    ensures
        ok == (match expected {
            None => true,
            Some(e) => same_job_state(*old(state), e),
        }),
        ok ==> *final(state) == new,
        !ok ==> failed_with_mismatch(*final(state)),
{
    match expected {
        None => {
            *state = new;
            true
        },
        Some(expected) => {
            if state.same_as(&expected) {
                *state = new;
                true
            } else {
                *state = JobState::Completed(
                    RawProtoResultWrapper::from_result(Err(owned("internal server error (state mismatch)"))),
                );
                false
            }
        },
    }
}

/// A queued job starts processing.
pub fn begin_processing(state: &mut JobState) -> (ok: bool)
    ensures
        ok == (*old(state) is Queued),
        ok ==> *final(state) == JobState::Processing(()),
        !ok ==> failed_with_mismatch(*final(state)),
{
    set_state_if_eq(state, JobState::Processing(()), Some(JobState::Queued(())))
}

/// A processed job starts uploading.
pub fn begin_uploading(state: &mut JobState) -> (ok: bool)
    ensures
        ok == (*old(state) is Processing),
        ok ==> *final(state) == JobState::Uploading(()),
        !ok ==> failed_with_mismatch(*final(state)),
{
    set_state_if_eq(state, JobState::Uploading(()), Some(JobState::Processing(())))
}

/// A job ends with `outcome`: the uploaded file's URL, or the failure.
pub fn finish_job(state: &mut JobState, outcome: Result<String, String>)
    ensures
        *final(state) matches JobState::Completed(w) && w.result_inner is Some && result_view(w)
            == string_result_view(outcome),
{
    let done = JobState::from_result(outcome);
    set_state_if_eq(state, done, None);
}

/// A job is cancelled, whatever state it is in.
pub fn cancel_job(state: &mut JobState)
    ensures
        *final(state) == JobState::Cancelled(()),
{
    set_state_if_eq(state, JobState::Cancelled(()), None);
}

} // verus!
