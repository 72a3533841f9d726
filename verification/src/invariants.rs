//! What holds of every batch.
//!
//! A batch is well-formed when it is made, and every event and every
//! decision keeps it so. What follows is stated of every well-formed batch,
//! and so of every moment of every batch.

use vstd::prelude::*;
use crate::document::Document;
use crate::error::Error;
use crate::orchestrator::{
    aggregate, attached, decided, handled, outcome_of, running_marks, started, worked_marks,
    Action, BatchView, Event, JobState, Stage,
};
use crate::tally::{lemma_total_at_least, lemma_total_update, lemma_total_zero, total};

verus! {

/// What the end of one job does to the counts of running and of worked jobs.
proof fn lemma_settled<D: Document>(
    pre: BatchView<D>,
    job: int,
    cached: bool,
    result: Result<Vec<u8>, Error>,
    documents: Seq<D>,
)
    requires
        pre.jobs.len() == pre.documents.len(),
        0 <= job < pre.jobs.len(),
        attached(pre.documents, job, result, documents),
    ensures
        ({
            let jobs = pre.jobs.update(
                job,
                JobState::Finished { cached, outcome: outcome_of(result) },
            );
            let was_worked: nat = if pre.jobs[job].worked() { 1 } else { 0 };
            let is_worked: nat = if cached { 0 } else { 1 };
            &&& forall|converts: bool|
                #![trigger running_marks(jobs, documents, converts)]
                total(running_marks(jobs, documents, converts)) + (if pre.jobs[job] is Running
                    && pre.documents[job].converts() == converts {
                    1nat
                } else {
                    0nat
                }) == total(running_marks(pre.jobs, pre.documents, converts))
            &&& total(worked_marks(jobs)) + was_worked == total(worked_marks(pre.jobs)) + is_worked
        }),
{
    let jobs = pre.jobs.update(job, JobState::Finished { cached, outcome: outcome_of(result) });
    assert forall|converts: bool|
        #![trigger running_marks(jobs, documents, converts)]
        total(running_marks(jobs, documents, converts)) + (if pre.jobs[job] is Running
            && pre.documents[job].converts() == converts {
            1nat
        } else {
            0nat
        }) == total(running_marks(pre.jobs, pre.documents, converts)) by {
        let before = running_marks(pre.jobs, pre.documents, converts);
        assert(running_marks(jobs, documents, converts) =~= before.update(job, 0));
        lemma_total_update(before, job, 0);
    }
    let is_worked: nat = if cached { 0 } else { 1 };
    assert(worked_marks(jobs) =~= worked_marks(pre.jobs).update(job, is_worked));
    lemma_total_update(worked_marks(pre.jobs), job, is_worked);
}

/// Every event keeps a batch well-formed.
pub proof fn lemma_handled_preserves<D: Document>(
    pre: BatchView<D>,
    event: Event,
    post: BatchView<D>,
)
    requires
        pre.wf(),
        handled(pre, event, post),
    ensures
        post.wf(),
{
    match event {
        Event::Tick => {
            assert(post.windows.drop_last() =~= pre.windows);
        },
        Event::Probed(exists) => {},
        Event::Loaded(result) => {
            if pre.cursor < pre.jobs.len() && pre.stage is Load {
                lemma_settled(pre, pre.cursor as int, true, result, post.documents);
            }
        },
        Event::Completed(job, result) => {
            if job < pre.jobs.len() && pre.jobs[job as int] is Running {
                lemma_settled(pre, job as int, false, result, post.documents);
                lemma_total_at_least(
                    running_marks(pre.jobs, pre.documents, pre.documents[job as int].converts()),
                    job as int,
                );
            }
        },
    }
}

/// A request admitted for the job at the cursor keeps a batch well-formed:
/// the job now holds it, and the current window counts it.
pub proof fn lemma_admitted_preserves<D: Document>(pre: BatchView<D>, post: BatchView<D>)
    requires
        pre.wf(),
        pre.cursor < pre.jobs.len(),
        pre.stage is Admit,
        pre.requests < pre.max_requests_per_second,
        post == (BatchView {
            stage: Stage::Start,
            requests: pre.requests + 1,
            windows: pre.windows.update(pre.windows.len() - 1, pre.windows.last() + 1),
            ..pre
        }),
    ensures
        post.wf(),
{
    lemma_total_update(pre.windows, pre.windows.len() - 1, pre.windows.last() + 1);
}

/// Starting the job at the cursor, or leaving it to wait for a slot, keeps a
/// batch well-formed.
pub proof fn lemma_started_preserves<D: Document>(
    pre: BatchView<D>,
    action: Action,
    post: BatchView<D>,
)
    requires
        pre.wf(),
        pre.cursor < pre.jobs.len(),
        pre.stage is Start,
        started(pre, action, post),
    ensures
        post.wf(),
{
    let job = pre.cursor as int;
    let converts = pre.documents[job].converts();
    let free = if converts {
        pre.threads_cpu < pre.max_threads_cpu
    } else {
        pre.threads_io < pre.max_threads_io
    };
    if free {
        assert(pre.jobs[job] is Queued);
        assert forall|class: bool|
            #![trigger running_marks(post.jobs, post.documents, class)]
            total(running_marks(post.jobs, post.documents, class)) == total(
                running_marks(pre.jobs, pre.documents, class),
            ) + if class == converts {
                1nat
            } else {
                0nat
            } by {
            let before = running_marks(pre.jobs, pre.documents, class);
            let mark: nat = if class == converts { 1 } else { 0 };
            assert(running_marks(post.jobs, post.documents, class) =~= before.update(job, mark));
            lemma_total_update(before, job, mark);
        }
        assert(worked_marks(post.jobs) =~= worked_marks(pre.jobs).update(job, 1));
        lemma_total_update(worked_marks(pre.jobs), job, 1);
    }
}

/// Every decision keeps a batch well-formed.
pub proof fn lemma_decided_preserves<D: Document>(
    pre: BatchView<D>,
    action: Action,
    post: BatchView<D>,
)
    requires
        pre.wf(),
        decided(pre, action, post),
    ensures
        post.wf(),
{
    if pre.cursor < pre.jobs.len() {
        if pre.stage is Admit && pre.requests < pre.max_requests_per_second {
            let holding = BatchView {
                stage: Stage::Start,
                requests: pre.requests + 1,
                windows: pre.windows.update(pre.windows.len() - 1, pre.windows.last() + 1),
                ..pre
            };
            lemma_admitted_preserves(pre, holding);
            lemma_started_preserves(holding, action, post);
        } else if pre.stage is Start {
            lemma_started_preserves(pre, action, post);
        }
    }
}

/// One step of a batch: an event taken in, or a decision made.
pub open spec fn stepped<D: Document>(pre: BatchView<D>, post: BatchView<D>) -> bool {
    ||| exists|event: Event| handled(pre, event, post)
    ||| exists|action: Action| decided(pre, action, post)
}

/// A history of a batch: each state comes from the one before by one step.
pub open spec fn history<D: Document>(states: Seq<BatchView<D>>) -> bool {
    forall|k: int| 0 < k < states.len() ==> stepped(#[trigger] states[k - 1], states[k])
}

/// Whatever happens to a batch, and in whatever order, it stays within its
/// limits. At every moment of every history of a well-formed batch, no more
/// conversions run than the conversion gate has slots, no more raw downloads
/// than the download gate has, and no window, past or current, holds more
/// requests than the request gate allows.
pub proof fn lemma_limits_hold_throughout<D: Document>(states: Seq<BatchView<D>>, moment: int)
    requires
        states.len() > 0,
        states[0].wf(),
        history(states),
        0 <= moment < states.len(),
    ensures
        states[moment].wf(),
        states[moment].running(true) <= states[moment].max_threads_cpu,
        states[moment].running(false) <= states[moment].max_threads_io,
        forall|w: int|
            0 <= w < states[moment].windows.len() ==> #[trigger] states[moment].windows[w]
                <= states[moment].max_requests_per_second,
    decreases moment,
{
    if moment > 0 {
        lemma_limits_hold_throughout(states, moment - 1);
        let pre = states[moment - 1];
        let post = states[moment];
        assert(stepped(pre, post));
        if exists|event: Event| handled(pre, event, post) {
            let event = choose|event: Event| handled(pre, event, post);
            lemma_handled_preserves(pre, event, post);
        } else {
            let action = choose|action: Action| decided(pre, action, post);
            lemma_decided_preserves(pre, action, post);
        }
    }
}

/// At no moment do more conversions run than the conversion gate has slots,
/// nor more raw downloads than the download gate has. The jobs counted are
/// those whose state is `Running`, whatever the gates' own counters say.
pub proof fn lemma_running_within_limits<D: Document>(batch: BatchView<D>)
    requires
        batch.wf(),
    ensures
        batch.running(true) <= batch.max_threads_cpu,
        batch.running(false) <= batch.max_threads_io,
{
}

/// In no window, past or current, were more requests admitted than the
/// request gate allows. Two windows side by side may each be full.
pub proof fn lemma_window_within_limit<D: Document>(batch: BatchView<D>, window: int)
    requires
        batch.wf(),
        0 <= window < batch.windows.len(),
    ensures
        batch.windows[window] <= batch.max_requests_per_second,
{
}

/// Each request admitted, over all windows, belongs to a job that was started
/// or to the job at the cursor that waits for a slot: a job takes one request
/// and no more.
pub proof fn lemma_one_request_per_job<D: Document>(batch: BatchView<D>)
    requires
        batch.wf(),
    ensures
        batch.admitted() == total(worked_marks(batch.jobs)) + batch.held(),
        batch.admitted() <= batch.missing,
{
}

/// As long as every destination looked at was found to exist, nothing was
/// spent: no request was admitted in any window, no slot is taken, and no job
/// was started. Each job that is done was loaded from its destination.
pub proof fn lemma_existing_destinations_cost_nothing<D: Document>(batch: BatchView<D>)
    requires
        batch.wf(),
        batch.missing == 0,
    ensures
        batch.admitted() == 0,
        forall|w: int| 0 <= w < batch.windows.len() ==> batch.windows[w] == 0,
        batch.threads_cpu == 0,
        batch.threads_io == 0,
        forall|i: int|
            0 <= i < batch.jobs.len() ==> (#[trigger] batch.jobs[i] is Queued
                || batch.jobs[i] matches JobState::Finished { cached: true, .. }),
{
    lemma_total_zero(worked_marks(batch.jobs));
    lemma_total_zero(batch.windows);
    assert forall|i: int| 0 <= i < batch.jobs.len() implies (#[trigger] batch.jobs[i] is Queued
        || batch.jobs[i] matches JobState::Finished { cached: true, .. }) by {
        assert(worked_marks(batch.jobs)[i] == 0);
    }
    assert forall|i: int| 0 <= i < batch.jobs.len() implies running_marks(
        batch.jobs,
        batch.documents,
        true,
    )[i] == 0 by {
        assert(worked_marks(batch.jobs)[i] == 0);
    }
    assert forall|i: int| 0 <= i < batch.jobs.len() implies running_marks(
        batch.jobs,
        batch.documents,
        false,
    )[i] == 0 by {
        assert(worked_marks(batch.jobs)[i] == 0);
    }
    lemma_total_zero(running_marks(batch.jobs, batch.documents, true));
    lemma_total_zero(running_marks(batch.jobs, batch.documents, false));
}

/// A batch succeeds exactly when no job failed.
pub proof fn lemma_aggregate_ok(jobs: Seq<JobState>)
    ensures
        aggregate(jobs) is Ok <==> forall|i: int| 0 <= i < jobs.len() ==> !(#[trigger] jobs[i]).failed(),
    decreases jobs.len(),
{
    if jobs.len() > 0 {
        let rest = jobs.drop_first();
        lemma_aggregate_ok(rest);
        if aggregate(jobs) is Ok {
            assert forall|i: int| 0 <= i < jobs.len() implies !(#[trigger] jobs[i]).failed() by {
                if i > 0 {
                    assert(rest[i - 1] == jobs[i]);
                }
            }
        } else if !jobs.first().failed() {
            let i = choose|i: int| 0 <= i < rest.len() && (#[trigger] rest[i]).failed();
            assert(rest[i] == jobs[i + 1]);
        }
    }
}

/// A batch that fails reports the error of the first job in dispatch order
/// that failed.
pub proof fn lemma_aggregate_first_failure(jobs: Seq<JobState>, job: int, error: Error)
    requires
        0 <= job < jobs.len(),
        jobs[job] matches JobState::Finished { outcome: Err(e), .. } && e == error,
        forall|i: int| 0 <= i < job ==> !(#[trigger] jobs[i]).failed(),
    ensures
        aggregate(jobs) == Err::<(), Error>(error),
    decreases jobs.len(),
{
    if job > 0 {
        let rest = jobs.drop_first();
        assert(jobs[0] == jobs.first());
        assert forall|i: int| 0 <= i < job - 1 implies !(#[trigger] rest[i]).failed() by {
            assert(rest[i] == jobs[i + 1]);
        }
        lemma_aggregate_first_failure(rest, job - 1, error);
    }
}

/// Failures stay where they are. Where one job succeeded and another failed,
/// the batch reports an error, the document of the job that succeeded has its
/// bytes, and the document of the job that failed has the payload it was
/// given with.
pub proof fn lemma_failure_is_isolated<D: Document>(batch: BatchView<D>, succeeded: int, failed: int)
    requires
        batch.wf(),
        0 <= succeeded < batch.jobs.len(),
        0 <= failed < batch.jobs.len(),
        batch.jobs[succeeded].succeeded(),
        batch.jobs[failed].failed(),
    ensures
        aggregate(batch.jobs) is Err,
        batch.documents[succeeded].payload() is Some,
        batch.documents[failed].payload() == batch.initial[failed].payload(),
{
    lemma_aggregate_ok(batch.jobs);
}

/// What is done stays done. No event changes the state of a job that has
/// finished, nor its document: a payload is attached once, by the one job
/// that is about the document.
pub proof fn lemma_finished_jobs_stay<D: Document>(
    pre: BatchView<D>,
    event: Event,
    post: BatchView<D>,
    job: int,
)
    requires
        pre.wf(),
        handled(pre, event, post),
        0 <= job < pre.jobs.len(),
        pre.jobs[job] is Finished,
    ensures
        post.jobs[job] == pre.jobs[job],
        post.documents[job] == pre.documents[job],
{
}

/// Deciding what to do next touches no document and no job but the one it
/// starts.
pub proof fn lemma_deciding_starts_one_job<D: Document>(
    pre: BatchView<D>,
    action: Action,
    post: BatchView<D>,
    job: int,
)
    requires
        pre.wf(),
        decided(pre, action, post),
        0 <= job < pre.jobs.len(),
    ensures
        post.documents == pre.documents,
        post.jobs[job] != pre.jobs[job] ==> (job == pre.cursor && post.jobs[job] is Running && (
        action == Action::Convert(job as usize) || action == Action::Fetch(job as usize))),
        (action is Convert || action is Fetch) ==> pre.stage is Admit || pre.stage is Start,
{
}

} // verus!
