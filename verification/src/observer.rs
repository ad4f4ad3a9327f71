//! Watching the inner computation of a request for its response.

use vstd::prelude::*;
use crate::tracer::attach_response_status;

verus! {

/// What one poll of the inner computation of a request brought.
#[derive(Clone, Copy, Debug, PartialEq, Eq, Structural)]
pub enum PollOutcome {
    /// The computation has not resolved yet.
    Pending,
    /// The computation resolved to a response with this status code.
    Succeeded { status: u16 },
    /// The computation resolved to a failure.
    Failed,
}

/// The status code to record after a poll: that of the response, once there
/// is one.
pub open spec fn status_to_record(outcome: PollOutcome) -> Option<u16> {
    match outcome {
        PollOutcome::Succeeded { status } => Some(status),
        _ => None,
    }
}

/// Looks at the outcome of one poll of the inner computation and, where it
/// is a response, hands the status code of the response to the span that is
/// current. Returns the status code that it handed over.
///
/// A failure is passed by without a status property, and so is a poll that
/// did not resolve. Where no span is current the status code is dropped.
/// Not to be called from inside a closure that `fastrace` runs to build the
/// properties of a local span.
pub fn inspect(outcome: PollOutcome) -> (recorded: Option<u16>)
    ensures
        recorded == status_to_record(outcome),
{
    match outcome {
        PollOutcome::Succeeded { status } => {
            attach_response_status(status);
            Some(status)
        },
        _ => None,
    }
}

/// Whether a sequence of outcomes can be the polls of one computation: a
/// computation that has resolved is not polled again.
pub open spec fn is_poll_history(outcomes: Seq<PollOutcome>) -> bool {
    forall|i: int| 0 <= i < outcomes.len() - 1 ==> #[trigger] outcomes[i] is Pending
}

/// The status codes recorded over a sequence of polls, in order.
pub open spec fn recorded_statuses(outcomes: Seq<PollOutcome>) -> Seq<u16>
    decreases outcomes.len(),
{
    if outcomes.len() == 0 {
        Seq::empty()
    } else {
        match status_to_record(outcomes.last()) {
            Some(status) => recorded_statuses(outcomes.drop_last()).push(status),
            None => recorded_statuses(outcomes.drop_last()),
        }
    }
}

/// However often a computation is polled before it resolves, a status code
/// is recorded at most once: once where the computation resolved to a
/// response, with the status code of that response, and not at all where it
/// failed or has not resolved.
pub proof fn lemma_recorded_at_most_once(outcomes: Seq<PollOutcome>)
    requires
        is_poll_history(outcomes),
    ensures
        outcomes.len() > 0 ==> (status_to_record(outcomes.last()) matches Some(status)
            ==> recorded_statuses(outcomes) == seq![status]),
        outcomes.len() == 0 || status_to_record(outcomes.last()) is None ==> recorded_statuses(
            outcomes,
        ) == Seq::<u16>::empty(),
{
    if outcomes.len() > 0 {
        lemma_pending_records_nothing(outcomes.drop_last());
    }
}

/// Polls that did not resolve record nothing.
proof fn lemma_pending_records_nothing(outcomes: Seq<PollOutcome>)
    requires
        forall|i: int| 0 <= i < outcomes.len() ==> #[trigger] outcomes[i] is Pending,
    ensures
        recorded_statuses(outcomes) == Seq::<u16>::empty(),
    decreases outcomes.len(),
{
    if outcomes.len() > 0 {
        lemma_pending_records_nothing(outcomes.drop_last());
    }
}

} // verus!
