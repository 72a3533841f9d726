//! The orchestrator: which job starts when, and what the batch comes to.
//!
//! A [`Batch`] owns the documents for the length of one batch call. It never
//! performs outside work itself. [`Batch::next`] decides what is to be done
//! next, and [`Batch::handle`] takes in what happened: whether a destination
//! exists, what a read or a job gave, or that the rate window has turned. The
//! caller runs the jobs concurrently and feeds their results back in whatever
//! order they arrive.

use vstd::prelude::*;
use crate::document::Document;
use crate::error::Error;
use crate::semaphore::Semaphore;
use crate::invariants::{
    lemma_admitted_preserves, lemma_handled_preserves, lemma_started_preserves,
};
use crate::tally::{lemma_total_at_least, lemma_total_zero, total};

verus! {

/// How far a job has come.
#[derive(Clone, Copy, Debug, PartialEq, Eq)]
pub enum JobState {
    /// Not yet looked at.
    Queued,
    /// Started under the gates and not yet reported back.
    Running,
    /// Done. `cached` tells whether the bytes came from an existing
    /// destination rather than from a fetch or a conversion.
    Finished { cached: bool, outcome: Result<(), Error> },
}

impl JobState {
    /// The job took a request and a slot of its class.
    pub open spec fn worked(self) -> bool {
        self is Running || self matches JobState::Finished { cached: false, .. }
    }

    /// The job is done and gave bytes.
    pub open spec fn succeeded(self) -> bool {
        self matches JobState::Finished { outcome: Ok(_), .. }
    }

    /// The job is done and gave an error.
    pub open spec fn failed(self) -> bool {
        self matches JobState::Finished { outcome: Err(_), .. }
    }
}

/// What the job at the cursor is waiting for.
#[derive(Clone, Copy, Debug, PartialEq, Eq)]
pub enum Stage {
    /// To learn whether its destination exists.
    Probe,
    /// The destination exists: to have its bytes read.
    Load,
    /// The destination is missing: to be admitted by the request gate.
    Admit,
    /// It holds a request: to get a slot of its class.
    Start,
}

/// What the caller is to do next.
#[derive(Clone, Copy, Debug, PartialEq, Eq)]
pub enum Action {
    /// Look whether the destination of this job exists, and report
    /// [`Event::Probed`].
    Probe(usize),
    /// Read the existing destination of this job, and report
    /// [`Event::Loaded`].
    Load(usize),
    /// Run the conversion tool for this job beside the others, and report
    /// [`Event::Completed`] when it ends.
    Convert(usize),
    /// Fetch this job's source and persist it beside the others, and report
    /// [`Event::Completed`] when it ends.
    Fetch(usize),
    /// Nothing can start before a job ends or the window turns: wait for
    /// either and report it.
    Wait,
    /// Every job has reported: stop the ticker and return this result.
    Finish(Result<(), Error>),
}

/// What the caller reports.
#[derive(Debug)]
pub enum Event {
    /// The destination of the job at the cursor exists, or does not.
    Probed(bool),
    /// Reading the destination of the job at the cursor gave this.
    Loaded(Result<Vec<u8>, Error>),
    /// The running job with this index ended with this.
    Completed(usize, Result<Vec<u8>, Error>),
    /// The rate window has turned.
    Tick,
}

/// The documents whose conversion flag is `converts`, in the order given.
pub open spec fn selected<D: Document>(documents: Seq<D>, converts: bool) -> Seq<D>
    decreases documents.len(),
{
    if documents.len() == 0 {
        Seq::empty()
    } else {
        let before = selected(documents.drop_last(), converts);
        if documents.last().converts() == converts {
            before.push(documents.last())
        } else {
            before
        }
    }
}

/// The order in which jobs are considered: raw downloads first, conversions
/// after them, each group in the order given.
pub open spec fn dispatch_order<D: Document>(documents: Seq<D>) -> Seq<D> {
    selected(documents, false) + selected(documents, true)
}

/// One mark for each job of the given class that is running.
pub open spec fn running_marks<D: Document>(
    jobs: Seq<JobState>,
    documents: Seq<D>,
    converts: bool,
) -> Seq<nat> {
    Seq::new(
        jobs.len(),
        |i: int|
            if jobs[i] is Running && documents[i].converts() == converts {
                1nat
            } else {
                0nat
            },
    )
}

/// One mark for each job that was started under the gates.
pub open spec fn worked_marks(jobs: Seq<JobState>) -> Seq<nat> {
    Seq::new(
        jobs.len(),
        |i: int|
            if jobs[i].worked() {
                1nat
            } else {
                0nat
            },
    )
}

/// The result of a batch: the error of the first job in dispatch order that
/// failed, or success where none did.
pub open spec fn aggregate(jobs: Seq<JobState>) -> Result<(), Error>
    decreases jobs.len(),
{
    if jobs.len() == 0 {
        Ok(())
    } else {
        match jobs.first() {
            JobState::Finished { outcome: Err(error), .. } => Err(error),
            _ => aggregate(jobs.drop_first()),
        }
    }
}

/// What a job's result says of its outcome.
pub open spec fn outcome_of(result: Result<Vec<u8>, Error>) -> Result<(), Error> {
    match result {
        Ok(_) => Ok(()),
        Err(error) => Err(error),
    }
}

/// The documents after the job `job` reported `result`: bytes that came are
/// attached to its document and to no other, and an error leaves every
/// document as it was.
pub open spec fn attached<D: Document>(
    pre: Seq<D>,
    job: int,
    result: Result<Vec<u8>, Error>,
    post: Seq<D>,
) -> bool {
    &&& post.len() == pre.len()
    &&& forall|i: int| 0 <= i < pre.len() && i != job ==> #[trigger] post[i] == pre[i]
    &&& match result {
        Ok(bytes) => {
            &&& post[job].payload() == Some(bytes@)
            &&& post[job].destination() == pre[job].destination()
            &&& post[job].locator() == pre[job].locator()
            &&& post[job].converts() == pre[job].converts()
        },
        Err(_) => post[job] == pre[job],
    }
}

/// A batch as the contracts see it.
pub struct BatchView<D> {
    /// The documents, in dispatch order.
    pub documents: Seq<D>,
    /// The documents as they were when the batch was made.
    pub initial: Seq<D>,
    /// The state of each job; job `i` is about document `i`.
    pub jobs: Seq<JobState>,
    /// The first job that has not been started or loaded.
    pub cursor: nat,
    /// What the job at the cursor is waiting for.
    pub stage: Stage,
    /// Requests admitted in the current window.
    pub requests: nat,
    /// Conversion slots taken.
    pub threads_cpu: nat,
    /// Download slots taken.
    pub threads_io: nat,
    /// The most requests admitted in one window.
    pub max_requests_per_second: nat,
    /// The most conversions under way at once.
    pub max_threads_cpu: nat,
    /// The most raw downloads under way at once.
    pub max_threads_io: nat,
    /// The number of requests admitted in each window so far; the last
    /// entry is the current window.
    pub windows: Seq<nat>,
    /// How many destinations were reported missing.
    pub missing: nat,
}

impl<D: Document> BatchView<D> {
    /// How many jobs of a class are running.
    pub open spec fn running(self, converts: bool) -> nat {
        total(running_marks(self.jobs, self.documents, converts))
    }

    /// How many requests were admitted over all windows.
    pub open spec fn admitted(self) -> nat {
        total(self.windows)
    }

    /// Every job has reported.
    pub open spec fn finished(self) -> bool {
        forall|i: int| 0 <= i < self.jobs.len() ==> #[trigger] self.jobs[i] is Finished
    }

    /// The job at the cursor has been found missing and not yet started.
    pub open spec fn pending(self) -> nat {
        if self.stage is Admit || self.stage is Start {
            1
        } else {
            0
        }
    }

    /// The job at the cursor holds a request.
    pub open spec fn held(self) -> nat {
        if self.stage is Start {
            1
        } else {
            0
        }
    }

    /// What holds of a batch at every moment.
    pub open spec fn wf(self) -> bool {
        &&& self.jobs.len() == self.documents.len()
        &&& self.jobs.len() <= usize::MAX
        &&& self.initial.len() == self.documents.len()
        &&& self.cursor <= self.jobs.len()
        &&& self.cursor == self.jobs.len() ==> self.stage is Probe
        &&& forall|i: int|
            0 <= i < self.jobs.len() ==> (#[trigger] self.jobs[i] is Queued <==> i >= self.cursor)
        &&& self.requests <= self.max_requests_per_second
        &&& self.threads_cpu <= self.max_threads_cpu
        &&& self.threads_io <= self.max_threads_io
        &&& self.threads_cpu == self.running(true)
        &&& self.threads_io == self.running(false)
        &&& self.windows.len() > 0
        &&& self.windows.last() == self.requests
        &&& forall|w: int|
            0 <= w < self.windows.len() ==> #[trigger] self.windows[w]
                <= self.max_requests_per_second
        &&& self.admitted() == total(worked_marks(self.jobs)) + self.held()
        &&& self.missing == total(worked_marks(self.jobs)) + self.pending()
        &&& forall|i: int, j: int|
            0 <= i < j < self.documents.len() && (#[trigger] self.documents[i]).converts() ==> (
            #[trigger] self.documents[j]).converts()
        &&& forall|i: int|
            0 <= i < self.documents.len() ==> {
                &&& (#[trigger] self.documents[i]).destination() == self.initial[i].destination()
                &&& self.documents[i].locator() == self.initial[i].locator()
                &&& self.documents[i].converts() == self.initial[i].converts()
            }
        &&& forall|i: int|
            0 <= i < self.jobs.len() && (#[trigger] self.jobs[i]).succeeded()
                ==> self.documents[i].payload() is Some
        &&& forall|i: int|
            0 <= i < self.jobs.len() && !(#[trigger] self.jobs[i]).succeeded()
                ==> self.documents[i].payload() == self.initial[i].payload()
    }
}

/// A batch of documents on its way through the gates.
pub struct Batch<D: Document> {
    documents: Vec<D>,
    jobs: Vec<JobState>,
    cursor: usize,
    stage: Stage,
    semaphore: Semaphore,
    initial: Ghost<Seq<D>>,
    windows: Ghost<Seq<nat>>,
    missing: Ghost<nat>,
}

impl<D: Document> View for Batch<D> {
    type V = BatchView<D>;

    closed spec fn view(&self) -> BatchView<D> {
        BatchView {
            documents: self.documents@,
            initial: self.initial@,
            jobs: self.jobs@,
            cursor: self.cursor as nat,
            stage: self.stage,
            requests: self.semaphore.requests(),
            threads_cpu: self.semaphore.threads_cpu(),
            threads_io: self.semaphore.threads_io(),
            max_requests_per_second: self.semaphore.max_requests_per_second(),
            max_threads_cpu: self.semaphore.max_threads_cpu(),
            max_threads_io: self.semaphore.max_threads_io(),
            windows: self.windows@,
            missing: self.missing@,
        }
    }
}

/// What is selected by a flag carries that flag.
proof fn lemma_selected_flags<D: Document>(documents: Seq<D>, converts: bool)
    ensures
        forall|i: int|
            0 <= i < selected(documents, converts).len() ==> (#[trigger] selected(
                documents,
                converts,
            )[i]).converts() == converts,
        selected(documents, converts).len() <= documents.len(),
    decreases documents.len(),
{
    if documents.len() > 0 {
        lemma_selected_flags(documents.drop_last(), converts);
    }
}

/// The two groups together are as many as the documents.
proof fn lemma_selected_lengths<D: Document>(documents: Seq<D>)
    ensures
        selected(documents, false).len() + selected(documents, true).len() == documents.len(),
    decreases documents.len(),
{
    if documents.len() > 0 {
        lemma_selected_lengths(documents.drop_last());
    }
}

impl<D: Document> Batch<D> {
    /// A batch of these documents under three empty gates with the given
    /// maxima. The documents are put in dispatch order: raw downloads before
    /// conversions, each group keeping the order it came in.
    pub fn new(
        documents: Vec<D>,
        max_requests_per_second: usize,
        max_threads_cpu: usize,
        max_threads_io: usize,
    ) -> (batch: Batch<D>)
        ensures
            batch@.wf(),
            batch@ == (BatchView {
                documents: dispatch_order(documents@),
                initial: dispatch_order(documents@),
                jobs: Seq::new(documents@.len(), |i: int| JobState::Queued),
                cursor: 0,
                stage: Stage::Probe,
                requests: 0,
                threads_cpu: 0,
                threads_io: 0,
                max_requests_per_second: max_requests_per_second as nat,
                max_threads_cpu: max_threads_cpu as nat,
                max_threads_io: max_threads_io as nat,
                windows: Seq::<nat>::empty().push(0),
                missing: 0,
            }),
    {
        let ghost given = documents@;
        let mut raw: Vec<D> = Vec::new();
        let mut converted: Vec<D> = Vec::new();
        let mut jobs: Vec<JobState> = Vec::new();
        for document in iter: documents
            invariant
                iter.seq() == given,
                raw@ == selected(given.take(iter.index() as int), false),
                converted@ == selected(given.take(iter.index() as int), true),
                jobs@ == Seq::new(iter.index() as nat, |i: int| JobState::Queued),
        {
            proof {
                let next = given.take(iter.index() + 1);
                assert(next.drop_last() =~= given.take(iter.index() as int));
                assert(next.last() == document);
            }
            jobs.push(JobState::Queued);
            if document.wkhtmltopdf() {
                converted.push(document);
            } else {
                raw.push(document);
            }
        }
        assert(given.take(given.len() as int) =~= given);
        raw.append(&mut converted);
        let ghost order = dispatch_order(given);
        let ghost windows = Seq::<nat>::empty().push(0);
        let batch = Batch {
            documents: raw,
            jobs,
            cursor: 0,
            stage: Stage::Probe,
            semaphore: Semaphore::new(max_requests_per_second, max_threads_cpu, max_threads_io),
            initial: Ghost(order),
            windows: Ghost(windows),
            missing: Ghost(0),
        };
        proof {
            let view = batch@;
            assert(view.jobs.len() == batch.jobs.len());
            lemma_selected_flags(given, false);
            lemma_selected_flags(given, true);
            lemma_selected_lengths(given);
            assert(view.documents =~= dispatch_order(given));
            lemma_total_zero(running_marks(view.jobs, view.documents, true));
            lemma_total_zero(running_marks(view.jobs, view.documents, false));
            lemma_total_zero(worked_marks(view.jobs));
            assert(view.windows.drop_last() =~= Seq::<nat>::empty());
            assert(total(view.windows) == total(view.windows.drop_last()) + view.windows.last());
        }
        batch
    }
}

/// How an event changes a batch. An event that does not fit the state the
/// batch is in changes nothing.
pub open spec fn handled<D: Document>(pre: BatchView<D>, event: Event, post: BatchView<D>) -> bool {
    match event {
        Event::Tick => post == (BatchView { requests: 0, windows: pre.windows.push(0), ..pre }),
        Event::Probed(exists) => if pre.cursor < pre.jobs.len() && pre.stage is Probe {
            if exists {
                post == (BatchView { stage: Stage::Load, ..pre })
            } else {
                post == (BatchView { stage: Stage::Admit, missing: pre.missing + 1, ..pre })
            }
        } else {
            post == pre
        },
        Event::Loaded(result) => if pre.cursor < pre.jobs.len() && pre.stage is Load {
            &&& attached(pre.documents, pre.cursor as int, result, post.documents)
            &&& post == (BatchView {
                documents: post.documents,
                jobs: pre.jobs.update(
                    pre.cursor as int,
                    JobState::Finished { cached: true, outcome: outcome_of(result) },
                ),
                cursor: pre.cursor + 1,
                stage: Stage::Probe,
                ..pre
            })
        } else {
            post == pre
        },
        Event::Completed(job, result) => if job < pre.jobs.len() && pre.jobs[job as int] is Running {
            &&& attached(pre.documents, job as int, result, post.documents)
            &&& post == (BatchView {
                documents: post.documents,
                jobs: pre.jobs.update(
                    job as int,
                    JobState::Finished { cached: false, outcome: outcome_of(result) },
                ),
                threads_cpu: if pre.documents[job as int].converts() {
                    (pre.threads_cpu - 1) as nat
                } else {
                    pre.threads_cpu
                },
                threads_io: if pre.documents[job as int].converts() {
                    pre.threads_io
                } else {
                    (pre.threads_io - 1) as nat
                },
                ..pre
            })
        } else {
            post == pre
        },
    }
}

/// How the job at the cursor starts once it holds a request: it takes a slot
/// of its class if one is free and runs, and waits if none is.
pub open spec fn started<D: Document>(pre: BatchView<D>, action: Action, post: BatchView<D>) -> bool {
    if pre.documents[pre.cursor as int].converts() {
        if pre.threads_cpu < pre.max_threads_cpu {
            &&& action == Action::Convert(pre.cursor as usize)
            &&& post == (BatchView {
                jobs: pre.jobs.update(pre.cursor as int, JobState::Running),
                cursor: pre.cursor + 1,
                stage: Stage::Probe,
                threads_cpu: pre.threads_cpu + 1,
                ..pre
            })
        } else {
            action == Action::Wait && post == (BatchView { stage: Stage::Start, ..pre })
        }
    } else {
        if pre.threads_io < pre.max_threads_io {
            &&& action == Action::Fetch(pre.cursor as usize)
            &&& post == (BatchView {
                jobs: pre.jobs.update(pre.cursor as int, JobState::Running),
                cursor: pre.cursor + 1,
                stage: Stage::Probe,
                threads_io: pre.threads_io + 1,
                ..pre
            })
        } else {
            action == Action::Wait && post == (BatchView { stage: Stage::Start, ..pre })
        }
    }
}

/// What is done next, and what deciding it changes. Past the last job the
/// batch waits while jobs run and finishes once none does. Before that the
/// job at the cursor is probed, loaded, or taken through the request gate and
/// then through that of its class.
pub open spec fn decided<D: Document>(pre: BatchView<D>, action: Action, post: BatchView<D>) -> bool {
    if pre.cursor == pre.jobs.len() {
        &&& post == pre
        &&& action == if pre.threads_cpu + pre.threads_io > 0 {
            Action::Wait
        } else {
            Action::Finish(aggregate(pre.jobs))
        }
    } else {
        match pre.stage {
            Stage::Probe => post == pre && action == Action::Probe(pre.cursor as usize),
            Stage::Load => post == pre && action == Action::Load(pre.cursor as usize),
            Stage::Admit => if pre.requests < pre.max_requests_per_second {
                started(
                    BatchView {
                        requests: pre.requests + 1,
                        windows: pre.windows.update(
                            pre.windows.len() - 1,
                            pre.windows.last() + 1,
                        ),
                        ..pre
                    },
                    action,
                    post,
                )
            } else {
                post == pre && action == Action::Wait
            },
            Stage::Start => started(pre, action, post),
        }
    }
}

impl<D: Document> Batch<D> {
    /// Takes in what the caller reports.
    ///
    /// A tick opens a new window. A probe sends the job at the cursor to be
    /// loaded or to the request gate. A read or a job that gave bytes
    /// attaches them to its document; one that failed leaves the document as
    /// it was. A job that ends gives the slot of its class back, whatever
    /// it ended with. No event touches another job or another document.
    pub fn handle(&mut self, event: Event)
        requires
            old(self)@.wf(),
        ensures
            final(self)@.wf(),
            handled(old(self)@, event, final(self)@),
    {
        match event {
            Event::Tick => self.tick(),
            Event::Probed(exists) => self.probed(exists),
            Event::Loaded(result) => self.loaded(result),
            Event::Completed(job, result) => self.completed(job, result),
        }
    }

    /// Opens a new window.
    fn tick(&mut self)
        requires
            old(self)@.wf(),
        ensures
            final(self)@.wf(),
            handled(old(self)@, Event::Tick, final(self)@),
    {
        self.semaphore.reset_requests();
        proof {
            self.windows@ = self.windows@.push(0);
            lemma_handled_preserves(old(self)@, Event::Tick, self@);
        }
    }

    /// Sends the job at the cursor to be loaded or to the request gate.
    fn probed(&mut self, exists: bool)
        requires
            old(self)@.wf(),
        ensures
            final(self)@.wf(),
            handled(old(self)@, Event::Probed(exists), final(self)@),
    {
        if self.cursor < self.jobs.len() {
            match self.stage {
                Stage::Probe => {
                    if exists {
                        self.stage = Stage::Load;
                    } else {
                        self.stage = Stage::Admit;
                        proof {
                            self.missing@ = self.missing@ + 1;
                        }
                    }
                },
                _ => {},
            }
        }
    }

    /// Ends the job at the cursor with what reading its destination gave.
    fn loaded(&mut self, result: Result<Vec<u8>, Error>)
        requires
            old(self)@.wf(),
        ensures
            final(self)@.wf(),
            handled(old(self)@, Event::Loaded(result), final(self)@),
    {
        if self.cursor < self.jobs.len() {
            match self.stage {
                Stage::Load => {
                    let job = self.cursor;
                    self.settle(job, true, result);
                    self.cursor = job + 1;
                    self.stage = Stage::Probe;
                    proof {
                        lemma_handled_preserves(old(self)@, Event::Loaded(result), self@);
                    }
                },
                _ => {},
            }
        }
    }

    /// Ends a running job and gives the slot of its class back.
    fn completed(&mut self, job: usize, result: Result<Vec<u8>, Error>)
        requires
            old(self)@.wf(),
        ensures
            final(self)@.wf(),
            handled(old(self)@, Event::Completed(job, result), final(self)@),
    {
        if job < self.jobs.len() {
            match self.jobs[job] {
                JobState::Running => {
                    let converts = self.documents[job].wkhtmltopdf();
                    proof {
                        lemma_total_at_least(
                            running_marks(self@.jobs, self@.documents, converts),
                            job as int,
                        );
                    }
                    self.settle(job, false, result);
                    if converts {
                        self.semaphore.decrement_threads_cpu();
                    } else {
                        self.semaphore.decrement_threads_io();
                    }
                    proof {
                        lemma_handled_preserves(old(self)@, Event::Completed(job, result), self@);
                    }
                },
                _ => {},
            }
        }
    }

    /// Records the end of job `job` and attaches what it gave.
    fn settle(&mut self, job: usize, cached: bool, result: Result<Vec<u8>, Error>)
        requires
            old(self)@.jobs.len() == old(self)@.documents.len(),
            job < old(self)@.jobs.len(),
        ensures
            attached(old(self)@.documents, job as int, result, final(self)@.documents),
            final(self)@ == (BatchView {
                documents: final(self)@.documents,
                jobs: old(self)@.jobs.update(
                    job as int,
                    JobState::Finished { cached, outcome: outcome_of(result) },
                ),
                ..old(self)@
            }),
    {
        match result {
            Ok(bytes) => {
                self.documents[job].set_bytes(Some(bytes));
                self.jobs[job] = JobState::Finished { cached, outcome: Ok(()) };
            },
            Err(error) => {
                self.jobs[job] = JobState::Finished { cached, outcome: Err(error) };
            },
        }
    }
}

/// Where no job of either class is counted as running, none is running.
proof fn lemma_none_running<D: Document>(view: BatchView<D>)
    requires
        view.jobs.len() == view.documents.len(),
        view.running(true) == 0,
        view.running(false) == 0,
    ensures
        forall|i: int| 0 <= i < view.jobs.len() ==> !(#[trigger] view.jobs[i] is Running),
{
    lemma_total_zero(running_marks(view.jobs, view.documents, true));
    lemma_total_zero(running_marks(view.jobs, view.documents, false));
    assert forall|i: int| 0 <= i < view.jobs.len() implies !(#[trigger] view.jobs[i] is Running) by {
        assert(running_marks(view.jobs, view.documents, true)[i] == 0);
        assert(running_marks(view.jobs, view.documents, false)[i] == 0);
    }
}

impl<D: Document> Batch<D> {
    /// Decides what is to be done next.
    ///
    /// A job whose destination exists is loaded and never passes a gate. A
    /// job whose destination is missing first needs a request of the current
    /// window and then a slot of its class; it starts once it has both, and
    /// keeps the request while it waits for the slot. The request is not
    /// given back: only a tick retires it.
    pub fn next(&mut self) -> (action: Action)
        requires
            old(self)@.wf(),
        ensures
            final(self)@.wf(),
            decided(old(self)@, action, final(self)@),
    {
        if self.cursor == self.jobs.len() {
            if self.semaphore.cpu_in_use() > 0 || self.semaphore.io_in_use() > 0 {
                Action::Wait
            } else {
                Action::Finish(self.result())
            }
        } else {
            match self.stage {
                Stage::Probe => Action::Probe(self.cursor),
                Stage::Load => Action::Load(self.cursor),
                Stage::Admit => {
                    if self.semaphore.increment_requests() {
                        self.stage = Stage::Start;
                        proof {
                            let last = self.windows@.len() - 1;
                            self.windows@ = self.windows@.update(last, self.windows@[last] + 1);
                            lemma_admitted_preserves(old(self)@, self@);
                        }
                        self.start()
                    } else {
                        Action::Wait
                    }
                },
                Stage::Start => self.start(),
            }
        }
    }

    /// Starts the job at the cursor if a slot of its class is free.
    fn start(&mut self) -> (action: Action)
        requires
            old(self)@.wf(),
            old(self)@.cursor < old(self)@.jobs.len(),
            old(self)@.stage is Start,
        ensures
            final(self)@.wf(),
            started(old(self)@, action, final(self)@),
    {
        let job = self.cursor;
        assert(job < self.jobs.len());
        let following = job + 1;
        let converts = self.documents[job].wkhtmltopdf();
        let admitted = if converts {
            self.semaphore.increment_threads_cpu()
        } else {
            self.semaphore.increment_threads_io()
        };
        let action = if admitted {
            self.jobs[job] = JobState::Running;
            self.cursor = following;
            self.stage = Stage::Probe;
            if converts {
                Action::Convert(job)
            } else {
                Action::Fetch(job)
            }
        } else {
            Action::Wait
        };
        proof {
            lemma_started_preserves(old(self)@, action, self@);
        }
        action
    }

    /// The result of the batch as the jobs stand.
    fn result(&self) -> (result: Result<(), Error>)
        ensures
            result == aggregate(self@.jobs),
    {
        let mut i: usize = 0;
        assert(self.jobs@.skip(0) =~= self.jobs@);
        while i < self.jobs.len()
            invariant
                i <= self.jobs@.len(),
                aggregate(self.jobs@) == aggregate(self.jobs@.skip(i as int)),
            decreases self.jobs@.len() - i,
        {
            proof {
                assert(self.jobs@.skip(i as int).drop_first() =~= self.jobs@.skip(i + 1));
            }
            match self.jobs[i] {
                JobState::Finished { cached: _, outcome: Err(error) } => {
                    return Err(error);
                },
                _ => {},
            }
            i = i + 1;
        }
        Ok(())
    }

    /// The result of the batch once every job has reported, and nothing
    /// before that.
    pub fn outcome(&self) -> (outcome: Option<Result<(), Error>>)
        requires
            self@.wf(),
        ensures
            outcome == if self@.finished() {
                Some(aggregate(self@.jobs))
            } else {
                None::<Result<(), Error>>
            },
    {
        if self.cursor == self.jobs.len() && self.semaphore.cpu_in_use() == 0
            && self.semaphore.io_in_use() == 0 {
            proof {
                lemma_none_running(self@);
            }
            Some(self.result())
        } else {
            proof {
                if self.cursor < self.jobs.len() {
                    assert(self@.jobs[self.cursor as int] is Queued);
                } else if self@.threads_cpu > 0 {
                    lemma_total_zero(running_marks(self@.jobs, self@.documents, true));
                    let i = choose|i: int|
                        0 <= i < self@.jobs.len() && running_marks(
                            self@.jobs,
                            self@.documents,
                            true,
                        )[i] != 0;
                    assert(self@.jobs[i] is Running);
                } else {
                    lemma_total_zero(running_marks(self@.jobs, self@.documents, false));
                    let i = choose|i: int|
                        0 <= i < self@.jobs.len() && running_marks(
                            self@.jobs,
                            self@.documents,
                            false,
                        )[i] != 0;
                    assert(self@.jobs[i] is Running);
                }
            }
            None
        }
    }

    /// The documents, in dispatch order.
    pub fn documents(&self) -> (documents: &Vec<D>)
        ensures
            documents@ == self@.documents,
    {
        &self.documents
    }

    /// The state of each job; job `i` is about document `i`.
    pub fn jobs(&self) -> (jobs: &Vec<JobState>)
        ensures
            jobs@ == self@.jobs,
    {
        &self.jobs
    }

    /// The gates as they stand.
    pub fn semaphore(&self) -> (semaphore: &Semaphore)
        ensures
            semaphore.requests() == self@.requests,
            semaphore.threads_cpu() == self@.threads_cpu,
            semaphore.threads_io() == self@.threads_io,
            semaphore.max_requests_per_second() == self@.max_requests_per_second,
            semaphore.max_threads_cpu() == self@.max_threads_cpu,
            semaphore.max_threads_io() == self@.max_threads_io,
    {
        &self.semaphore
    }

    /// Ends the batch and hands the documents back, in dispatch order.
    pub fn into_documents(self) -> (documents: Vec<D>)
        ensures
            documents@ == self@.documents,
    {
        self.documents
    }
}

/// Where every document carries the same flag, that flag selects them all
/// and the other flag selects none.
proof fn lemma_selected_all<D: Document>(documents: Seq<D>, converts: bool)
    requires
        forall|i: int| 0 <= i < documents.len() ==> (#[trigger] documents[i]).converts() == converts,
    ensures
        selected(documents, converts) == documents,
        selected(documents, !converts) == Seq::<D>::empty(),
    decreases documents.len(),
{
    if documents.len() > 0 {
        let before = documents.drop_last();
        assert forall|i: int| 0 <= i < before.len() implies (#[trigger] before[i]).converts()
            == converts by {
            assert(before[i] == documents[i]);
        }
        lemma_selected_all(before, converts);
        assert(documents.last() == documents[documents.len() - 1]);
        assert(before.push(documents.last()) =~= documents);
    } else {
        assert(documents =~= Seq::<D>::empty());
    }
}

/// Documents that come with the raw downloads first are left in the order
/// they came in.
pub proof fn lemma_dispatch_order_of_ordered<D: Document>(documents: Seq<D>)
    requires
        forall|i: int, j: int|
            0 <= i < j < documents.len() && (#[trigger] documents[i]).converts() ==> (
            #[trigger] documents[j]).converts(),
    ensures
        dispatch_order(documents) == documents,
    decreases documents.len(),
{
    if documents.len() > 0 {
        let before = documents.drop_last();
        let last = documents.last();
        assert(last == documents[documents.len() - 1]);
        assert forall|i: int, j: int|
            0 <= i < j < before.len() && (#[trigger] before[i]).converts() implies (
        #[trigger] before[j]).converts() by {
            assert(before[i] == documents[i]);
            assert(before[j] == documents[j]);
        }
        lemma_dispatch_order_of_ordered(before);
        if !last.converts() {
            assert forall|i: int| 0 <= i < before.len() implies (#[trigger] before[i]).converts()
                == false by {
                assert(before[i] == documents[i]);
            }
            lemma_selected_all(before, false);
        }
        assert(dispatch_order(documents) =~= before.push(last));
        assert(before.push(last) =~= documents);
    } else {
        assert(dispatch_order(documents) =~= documents);
    }
}

/// Raw downloads are considered before conversions, and within each group
/// the documents keep the order they were given in.
pub proof fn lemma_dispatch_order<D: Document>(documents: Seq<D>)
    ensures
        dispatch_order(documents).len() == documents.len(),
        forall|i: int, j: int|
            0 <= i < j < documents.len() && (#[trigger] dispatch_order(documents)[i]).converts()
                ==> (#[trigger] dispatch_order(documents)[j]).converts(),
{
    lemma_selected_flags(documents, false);
    lemma_selected_flags(documents, true);
    lemma_selected_lengths(documents);
}

} // verus!
