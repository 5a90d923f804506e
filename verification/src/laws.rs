//! What holds of promises across calls, over the step functions that the
//! contracts of [`crate::Promise`] use.
use vstd::prelude::*;

use crate::channel::RecvOutcome;
use crate::promise::SenderDropped;

verus! {

/// Once a promise is ready it stays ready with the same value, whatever the
/// channel gives afterwards.
pub proof fn lemma_ready_stays_ready<T>(value: T, outcome: RecvOutcome<T>)
    ensures
        crate::promise::settled(Some(value), outcome) == (Ok::<bool, SenderDropped>(true), Some(value)),
{
}

/// A pending promise that receives a value becomes ready with exactly that
/// value.
pub proof fn lemma_received_value_is_kept<T>(value: T)
    ensures
        crate::promise::settled(None, RecvOutcome::Received(value)) == (Ok::<bool, SenderDropped>(true), Some(value)),
{
}

/// Every settling step, whatever the channel gave, is a poll as the
/// contracts of the polling functions describe it.
pub proof fn lemma_settling_is_polling<T>(before: Option<T>, outcome: RecvOutcome<T>)
    ensures
        crate::promise::polled(before, crate::promise::settled(before, outcome).0, crate::promise::settled(before, outcome).1),
{
}

/// Once a poll has answered that the value is there, every later poll
/// answers so too, and the value does not change.
pub proof fn lemma_ready_answer_is_final<T>(
    first: Option<T>,
    first_answer: Result<bool, SenderDropped>,
    second: Option<T>,
    second_answer: Result<bool, SenderDropped>,
    third: Option<T>,
)
    requires
        crate::promise::polled(first, first_answer, second),
        crate::promise::polled(second, second_answer, third),
        first_answer == Ok::<bool, SenderDropped>(true),
    ensures
        second is Some,
        second_answer == Ok::<bool, SenderDropped>(true),
        third == second,
{
}

/// A poll that does not answer that the value is there finds the promise
/// pending and leaves it pending.
pub proof fn lemma_pending_answer_changes_nothing<T>(
    before: Option<T>,
    answer: Result<bool, SenderDropped>,
    after: Option<T>,
)
    requires
        crate::promise::polled(before, answer, after),
        answer != Ok::<bool, SenderDropped>(true),
    ensures
        before is None,
        after is None,
{
}

/// A poll of a promise that already held its value answers ready and keeps
/// that value.
pub proof fn lemma_ready_promise_answers_ready<T>(
    value: T,
    answer: Result<bool, SenderDropped>,
    after: Option<T>,
)
    requires
        crate::promise::polled(Some(value), answer, after),
    ensures
        answer == Ok::<bool, SenderDropped>(true),
        after == Some(value),
{
}

/// A pending promise answers that its sender is gone exactly when the
/// channel reported the sender disconnected; an empty channel never gives
/// that answer.
pub proof fn lemma_pending_fails_only_when_disconnected<T>(outcome: RecvOutcome<T>)
    ensures
        crate::promise::settled(None, outcome).0 is Err <==> outcome is Disconnected,
{
}

/// A pending promise stays pending exactly when the channel was empty, and
/// then still holds no value.
pub proof fn lemma_pending_stays_pending_only_when_empty<T>(outcome: RecvOutcome<T>)
    ensures
        crate::promise::settled(None, outcome).0 == Ok::<bool, SenderDropped>(false) <==> outcome is Empty,
        outcome is Empty ==> crate::promise::settled(None, outcome).1 is None,
{
}

/// A blocking wait, whose outcome is never an empty channel, never answers
/// pending: it ends with the value, or, only when the sender is gone, with
/// that error.
pub proof fn lemma_wait_never_answers_pending<T>(before: Option<T>, outcome: RecvOutcome<T>)
    requires
        !(outcome is Empty),
    ensures
        crate::promise::settled(before, outcome).0 != Ok::<bool, SenderDropped>(false),
        crate::promise::settled(before, outcome).0 is Err ==> before is None && outcome is Disconnected,
        crate::promise::settled(before, outcome).0 is Ok ==> crate::promise::settled(before, outcome).1 is Some,
{
}

} // verus!
