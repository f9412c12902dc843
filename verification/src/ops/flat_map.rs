//! `flat_map`: each upstream item is mapped to a task on the target runtime,
//! and the task outcomes come out in the order of the items. `flat_map_result`
//! hands each outcome on as it is; `flat_map` unwraps it.

use vstd::prelude::*;
use tokio::task::JoinError;

verus! {

#[verifier::external_type_specification]
#[verifier::external_body]
pub struct ExJoinError(tokio::task::JoinError);

/// What `flat_map` yields for one result of its inner ordered stream.
pub enum FlatMapStep<T> {
    /// The task finished with this value: yield it.
    Emit(T),
    /// The task failed (it panicked or was cancelled): the stream fails.
    Fail(JoinError),
    /// The inner stream is exhausted: the stream ends.
    End,
}

pub open spec fn spec_flat_map_step<T>(polled: Option<Result<T, JoinError>>) -> FlatMapStep<T> {
    match polled {
        Some(Ok(v)) => FlatMapStep::Emit(v),
        Some(Err(e)) => FlatMapStep::Fail(e),
        None => FlatMapStep::End,
    }
}

/// Decides what `flat_map` yields for `polled`, the next ready result of its
/// inner ordered stream of task outcomes.
pub fn flat_map_step<T>(polled: Option<Result<T, JoinError>>) -> (step: FlatMapStep<T>)
    ensures
        step == spec_flat_map_step(polled),
{
    match polled {
        Some(Ok(v)) => FlatMapStep::Emit(v),
        Some(Err(e)) => FlatMapStep::Fail(e),
        None => FlatMapStep::End,
    }
}

} // verus!
