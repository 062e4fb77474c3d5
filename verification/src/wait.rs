use vstd::prelude::*;

use crate::response::PaymentError;

verus! {

/// The number of seconds between two status queries while a payment is
/// awaited.
pub const STATUS_POLL_INTERVAL_SECS: u64 = 5;

/// What to do after one answer to a status query.
#[derive(Debug)]
pub enum WaitStep {
    /// The payment is still awaited: ask again after
    /// `STATUS_POLL_INTERVAL_SECS` seconds.
    Retry,
    /// The wait is over, with this result; no further query is made.
    Finish(Result<(), PaymentError>),
}

/// An answer that leaves the payment awaited.
pub open spec fn is_pending(answer: Result<(), Option<PaymentError>>) -> bool {
    answer == Err::<(), Option<PaymentError>>(None)
}

/// The step taken after `answer`: retry while it is pending, else finish
/// with it (success, or the failure it carries).
pub open spec fn wait_step_spec(answer: Result<(), Option<PaymentError>>) -> WaitStep {
    match answer {
        Ok(()) => WaitStep::Finish(Ok(())),
        Err(Some(e)) => WaitStep::Finish(Err(e)),
        Err(None) => WaitStep::Retry,
    }
}

/// Decides the next step of a wait for payment from the answer to one status
/// query (as read by `StatusResponse::into_result`).
pub fn wait_step(answer: Result<(), Option<PaymentError>>) -> (step: WaitStep)
    ensures
        step == wait_step_spec(answer),
{
    match answer {
        Ok(()) => WaitStep::Finish(Ok(())),
        Err(Some(e)) => WaitStep::Finish(Err(e)),
        Err(None) => WaitStep::Retry,
    }
}

/// A failed answer leads to another query exactly when `should_retry` says
/// so: exactly when it carries no error.
pub proof fn lemma_retry_exactly_without_error(error: Option<PaymentError>)
    ensures
        wait_step_spec(Err(error)) is Retry <==> error is None,
{
}

/// The result of a wait whose status queries got `answers`, in order:
/// `None` while it is still going on after all of them.
pub open spec fn wait_outcome(answers: Seq<Result<(), Option<PaymentError>>>) -> Option<
    Result<(), PaymentError>,
>
    decreases answers.len(),
{
    if answers.len() == 0 {
        None
    } else {
        match wait_step_spec(answers[0]) {
            WaitStep::Retry => wait_outcome(answers.drop_first()),
            WaitStep::Finish(result) => Some(result),
        }
    }
}

/// All answers before index `k` are pending, and the one at `k` is not: the
/// `k`-th query decides the wait.
pub open spec fn decided_at(answers: Seq<Result<(), Option<PaymentError>>>, k: int) -> bool {
    &&& 0 <= k < answers.len()
    &&& !is_pending(answers[k])
    &&& forall|j: int| 0 <= j < k ==> is_pending(#[trigger] answers[j])
}

/// The first answer that is not pending decides the wait, with its result,
/// and what answers would come after it makes no difference: no further
/// query is made.
pub proof fn lemma_wait_decided(
    answers: Seq<Result<(), Option<PaymentError>>>,
    k: int,
    later: Seq<Result<(), Option<PaymentError>>>,
)
    requires
        decided_at(answers, k),
    ensures
        wait_step_spec(answers[k]) matches WaitStep::Finish(r) && wait_outcome(answers) == Some(r),
        wait_outcome(answers.take(k + 1) + later) == wait_outcome(answers),
        answers[k] == Ok::<(), Option<PaymentError>>(()) ==> wait_outcome(answers) == Some(
            Ok::<(), PaymentError>(()),
        ),
        answers[k] matches Err(Some(e)) ==> wait_outcome(answers) == Some(
            Err::<(), PaymentError>(e),
        ),
    decreases k,
{
    let cut = answers.take(k + 1) + later;
    assert(cut[0] == answers[0]);
    if k > 0 {
        assert(is_pending(answers[0]));
        assert forall|j: int| 0 <= j < k - 1 implies is_pending(
            #[trigger] answers.drop_first()[j],
        ) by {
            assert(answers.drop_first()[j] == answers[j + 1]);
        }
        lemma_wait_decided(answers.drop_first(), k - 1, later);
        assert(cut.drop_first() =~= answers.drop_first().take(k) + later);
    }
}

/// A wait whose answers are all pending is still going on.
pub proof fn lemma_wait_pending(answers: Seq<Result<(), Option<PaymentError>>>)
    requires
        forall|j: int| 0 <= j < answers.len() ==> is_pending(#[trigger] answers[j]),
    ensures
        wait_outcome(answers) is None,
    decreases answers.len(),
{
    if answers.len() > 0 {
        assert(is_pending(answers[0]));
        assert forall|j: int| 0 <= j < answers.len() - 1 implies is_pending(
            #[trigger] answers.drop_first()[j],
        ) by {
            assert(answers.drop_first()[j] == answers[j + 1]);
        }
        lemma_wait_pending(answers.drop_first());
    }
}

/// A wait ends exactly when some query is answered with anything but
/// "pending", and then at the first such answer: it succeeds exactly when
/// that answer is "paid" and fails with exactly the error it carries. It
/// never ends without a result.
pub proof fn lemma_wait_outcome_cases(answers: Seq<Result<(), Option<PaymentError>>>)
    ensures
        wait_outcome(answers) is None <==> forall|j: int|
            0 <= j < answers.len() ==> is_pending(#[trigger] answers[j]),
        wait_outcome(answers) is Some ==> exists|k: int| #[trigger]
            decided_at(answers, k) && wait_step_spec(answers[k]) == WaitStep::Finish(
                wait_outcome(answers)->0,
            ),
    decreases answers.len(),
{
    if answers.len() > 0 {
        let rest = answers.drop_first();
        lemma_wait_outcome_cases(rest);
        if is_pending(answers[0]) {
            assert forall|j: int| 0 <= j < rest.len() implies #[trigger] rest[j] == answers[j
                + 1] by {}
            if wait_outcome(answers) is Some {
                let k = choose|k: int| #[trigger]
                    decided_at(rest, k) && wait_step_spec(rest[k]) == WaitStep::Finish(
                        wait_outcome(rest)->0,
                    );
                assert(rest[k] == answers[k + 1]);
                assert forall|j: int| 0 <= j < k + 1 implies is_pending(#[trigger] answers[j]) by {
                    if j > 0 {
                        assert(rest[j - 1] == answers[j]);
                    }
                }
                assert(decided_at(answers, k + 1));
            }
            if forall|j: int| 0 <= j < rest.len() ==> is_pending(#[trigger] rest[j]) {
                assert forall|j: int| 0 <= j < answers.len() implies is_pending(
                    #[trigger] answers[j],
                ) by {
                    if j > 0 {
                        assert(rest[j - 1] == answers[j]);
                    }
                }
            }
        } else {
            assert(decided_at(answers, 0));
        }
    }
}

} // verus!
