//! The captioning of one attachment: attempts, pauses, and what comes of
//! them.

use crate::retry::{Retry, Verdict, MAX_ATTEMPTS};
use crate::text::{blank, is_blank};
use crate::vision::{CaptionError, CaptionErrorView};
use vstd::prelude::*;

verus! {

/// What came of captioning one attachment.
#[derive(Debug, PartialEq, Eq)]
pub struct Outcome {
    /// The attachment.
    pub attachment_id: String,
    /// Its caption, or nothing: no caption is to be written.
    pub caption: Option<String>,
}

/// What an `Outcome` holds.
pub struct OutcomeView {
    pub attachment_id: Seq<char>,
    pub caption: Option<Seq<char>>,
}

impl View for Outcome {
    type V = OutcomeView;

    open spec fn view(&self) -> OutcomeView {
        OutcomeView {
            attachment_id: self.attachment_id@,
            caption: match self.caption {
                Some(c) => Some(c@),
                None => None,
            },
        }
    }
}

/// What follows one attempt.
#[derive(Debug, PartialEq, Eq)]
pub enum TaskStep {
    /// The task is over.
    Finished(Outcome),
    /// Wait, then attempt once more.
    RetryAfter { delay_millis: u64 },
}

/// What a `TaskStep` holds.
pub enum TaskStepView {
    Finished(OutcomeView),
    RetryAfter { delay_millis: u64 },
}

impl View for TaskStep {
    type V = TaskStepView;

    open spec fn view(&self) -> TaskStepView {
        match self {
            TaskStep::Finished(o) => TaskStepView::Finished(o@),
            TaskStep::RetryAfter { delay_millis } => TaskStepView::RetryAfter {
                delay_millis: *delay_millis,
            },
        }
    }
}

/// The outcome that a caption gives: none where the caption is blank.
pub open spec fn outcome_of(id: Seq<char>, caption: Seq<char>) -> OutcomeView {
    OutcomeView {
        attachment_id: id,
        caption: if is_blank(caption) {
            None
        } else {
            Some(caption)
        },
    }
}

/// The outcome without a caption.
pub open spec fn absent(id: Seq<char>) -> OutcomeView {
    OutcomeView { attachment_id: id, caption: None }
}

/// What follows one attempt, and the failures on record after it. A caption
/// ends the task, a blank one too. A failure is recorded; the task goes on
/// while the budget lasts and ends without a caption when it is spent.
pub open spec fn after_attempt(
    retry: Retry,
    id: Seq<char>,
    result: Result<Seq<char>, CaptionErrorView>,
) -> (Retry, TaskStepView) {
    match result {
        Ok(caption) => (retry, TaskStepView::Finished(outcome_of(id, caption))),
        Err(_) => {
            let counted = retry.after_failure();
            match counted.verdict() {
                Verdict::Again { delay_millis } => (
                    counted,
                    TaskStepView::RetryAfter { delay_millis },
                ),
                Verdict::GiveUp => (counted, TaskStepView::Finished(absent(id))),
            }
        },
    }
}

/// The task run against a service whose answers are `results`, in order:
/// the outcome, if the task ends on one of them, and the number of attempts
/// made.
pub open spec fn run(
    retry: Retry,
    id: Seq<char>,
    results: Seq<Result<Seq<char>, CaptionErrorView>>,
) -> (Option<OutcomeView>, nat)
    decreases results.len(),
{
    if results.len() == 0 {
        (None, 0)
    } else {
        let (next, step) = after_attempt(retry, id, results[0]);
        match step {
            TaskStepView::Finished(outcome) => (Some(outcome), 1),
            TaskStepView::RetryAfter { .. } => {
                let (outcome, attempts) = run(next, id, results.skip(1));
                (outcome, attempts + 1)
            },
        }
    }
}

/// The captioning of one attachment.
#[derive(Debug, PartialEq, Eq)]
pub struct CaptionTask {
    attachment_id: String,
    retry: Retry,
}

impl CaptionTask {
    /// The attachment that is captioned.
    pub closed spec fn attachment_id(&self) -> Seq<char> {
        self.attachment_id@
    }

    /// The failures so far.
    pub closed spec fn retry(&self) -> Retry {
        self.retry
    }

    /// A task that has attempted nothing yet.
    pub fn new(attachment_id: String) -> (r: CaptionTask)
        ensures
            r.attachment_id() == attachment_id@,
            r.retry() == Retry::fresh(),
    {
        CaptionTask { attachment_id, retry: Retry::new() }
    }

    /// How many attempts have failed.
    pub fn failures(&self) -> (n: u64)
        ensures
            n == self.retry().failed(),
    {
        self.retry.failures()
    }

    /// Takes the result of one attempt and says what follows.
    pub fn on_result(&mut self, result: Result<String, CaptionError>) -> (step: TaskStep)
        ensures
            final(self).attachment_id() == old(self).attachment_id(),
            (final(self).retry(), step@) == after_attempt(
                old(self).retry(),
                old(self).attachment_id(),
                match result {
                    Ok(c) => Ok(c@),
                    Err(e) => Err(e@),
                },
            ),
    {
        match result {
            Ok(caption) => {
                if blank(caption.as_str()) {
                    TaskStep::Finished(
                        Outcome { attachment_id: self.attachment_id.clone(), caption: None },
                    )
                } else {
                    TaskStep::Finished(
                        Outcome { attachment_id: self.attachment_id.clone(), caption: Some(caption) },
                    )
                }
            },
            Err(_) => {
                let mut retry = self.retry;
                let verdict = retry.on_failure();
                self.retry = retry;
                match verdict {
                    Verdict::Again { delay_millis } => TaskStep::RetryAfter { delay_millis },
                    Verdict::GiveUp => TaskStep::Finished(
                        Outcome { attachment_id: self.attachment_id.clone(), caption: None },
                    ),
                }
            },
        }
    }
}

/// A task never makes more attempts than the budget has left, and never
/// fewer than one where there is an answer to take.
pub proof fn law_attempts_bounded(
    retry: Retry,
    id: Seq<char>,
    results: Seq<Result<Seq<char>, CaptionErrorView>>,
)
    requires
        !retry.exhausted(),
    ensures
        run(retry, id, results).1 <= MAX_ATTEMPTS - retry.failed(),
        run(retry, id, results).1 <= results.len(),
    decreases results.len(),
{
    if results.len() > 0 {
        let (next, step) = after_attempt(retry, id, results[0]);
        if step is RetryAfter {
            law_attempts_bounded(next, id, results.skip(1));
        }
    }
}

/// Against a service that fails every time a task makes exactly as many
/// attempts as its budget has left, ten from the start, and ends without a
/// caption.
pub proof fn law_always_failing(
    retry: Retry,
    id: Seq<char>,
    results: Seq<Result<Seq<char>, CaptionErrorView>>,
)
    requires
        !retry.exhausted(),
        results.len() >= MAX_ATTEMPTS - retry.failed(),
        forall|i: int| 0 <= i < results.len() ==> (#[trigger] results[i]) is Err,
    ensures
        run(retry, id, results) == (Some(absent(id)), (MAX_ATTEMPTS - retry.failed()) as nat),
    decreases results.len(),
{
    let (next, step) = after_attempt(retry, id, results[0]);
    assert(results[0] is Err);
    if step is RetryAfter {
        assert forall|i: int| 0 <= i < results.skip(1).len() implies (#[trigger] results.skip(
            1,
        )[i]) is Err by {
            assert(results[i + 1] is Err);
        }
        law_always_failing(next, id, results.skip(1));
    }
}

/// A task ends on the first caption it gets, whatever failed before, as
/// long as the budget lasted until then.
pub proof fn law_first_caption_wins(
    retry: Retry,
    id: Seq<char>,
    results: Seq<Result<Seq<char>, CaptionErrorView>>,
    k: int,
)
    requires
        !retry.exhausted(),
        0 <= k < results.len(),
        k < MAX_ATTEMPTS - retry.failed(),
        results[k] is Ok,
        forall|i: int| 0 <= i < k ==> (#[trigger] results[i]) is Err,
    ensures
        run(retry, id, results) == (Some(outcome_of(id, results[k]->Ok_0)), (k + 1) as nat),
    decreases results.len(),
{
    if k > 0 {
        let (next, step) = after_attempt(retry, id, results[0]);
        assert(results[0] is Err);
        assert forall|i: int| 0 <= i < k - 1 implies (#[trigger] results.skip(1)[i]) is Err by {
            assert(results[i + 1] is Err);
        }
        law_first_caption_wins(next, id, results.skip(1), k - 1);
    }
}

} // verus!
