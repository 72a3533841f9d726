use urls2disk::client::conversion_outcome;
use urls2disk::destination::Destination;
use urls2disk::document::Document;
use urls2disk::error::{Error, ErrorKind};
use urls2disk::job::{Job, ResourceClass};
use urls2disk::locator::Locator;
use urls2disk::orchestrator::{Action, Batch, Event, JobState};
use urls2disk::simple_document::SimpleDocument;

fn document(name: &str, converts: bool) -> SimpleDocument {
    SimpleDocument::new(
        Destination::from_text(name),
        Locator::parse("https://example.com/page").unwrap(),
        converts,
    )
}

fn names(documents: &[SimpleDocument]) -> Vec<String> {
    documents.iter().map(|document| document.path().argument().unwrap()).collect()
}

fn done(cached: bool, outcome: Result<(), Error>) -> JobState {
    JobState::Finished { cached, outcome }
}

#[test]
fn raw_downloads_are_considered_before_conversions() {
    let batch = Batch::new(
        vec![
            document("a.pdf", true),
            document("b.html", false),
            document("c.pdf", true),
            document("d.html", false),
            document("e.html", false),
        ],
        10,
        2,
        100,
    );
    assert_eq!(names(batch.documents()), ["b.html", "d.html", "e.html", "a.pdf", "c.pdf"]);
    assert_eq!(batch.jobs(), &vec![JobState::Queued; 5]);
    assert_eq!(batch.outcome(), None);
}

#[test]
fn an_empty_batch_finishes_at_once() {
    let mut batch = Batch::new(Vec::<SimpleDocument>::new(), 10, 2, 100);
    assert_eq!(batch.outcome(), Some(Ok(())));
    assert_eq!(batch.next(), Action::Finish(Ok(())));
    assert!(batch.into_documents().is_empty());
}

#[test]
fn third_request_waits_for_the_window_to_turn() {
    let mut batch = Batch::new(
        vec![document("a.html", false), document("b.html", false), document("c.html", false)],
        2,
        4,
        100,
    );
    assert_eq!(batch.next(), Action::Probe(0));
    batch.handle(Event::Probed(false));
    assert_eq!(batch.next(), Action::Fetch(0));
    assert_eq!(batch.next(), Action::Probe(1));
    batch.handle(Event::Probed(false));
    assert_eq!(batch.next(), Action::Fetch(1));
    assert_eq!(batch.next(), Action::Probe(2));
    batch.handle(Event::Probed(false));
    assert_eq!(batch.next(), Action::Wait);

    // Jobs that end give their slots back, but not their requests.
    batch.handle(Event::Completed(0, Ok(vec![1])));
    batch.handle(Event::Completed(1, Ok(vec![2])));
    assert_eq!(batch.semaphore().io_in_use(), 0);
    assert_eq!(batch.semaphore().requests_in_window(), 2);
    assert_eq!(batch.next(), Action::Wait);
    assert_eq!(batch.outcome(), None);

    batch.handle(Event::Tick);
    assert_eq!(batch.semaphore().requests_in_window(), 0);
    assert_eq!(batch.next(), Action::Fetch(2));
    assert_eq!(batch.semaphore().requests_in_window(), 1);
    assert_eq!(batch.next(), Action::Wait);
    batch.handle(Event::Completed(2, Ok(vec![3])));
    assert_eq!(batch.next(), Action::Finish(Ok(())));
    assert_eq!(batch.outcome(), Some(Ok(())));

    let documents = batch.into_documents();
    assert_eq!(documents[0].bytes(), Some(&[1u8][..]));
    assert_eq!(documents[1].bytes(), Some(&[2u8][..]));
    assert_eq!(documents[2].bytes(), Some(&[3u8][..]));
}

#[test]
fn two_windows_side_by_side_may_each_be_full() {
    let documents: Vec<SimpleDocument> =
        (0..4).map(|i| document(&format!("{}.html", i), false)).collect();
    let mut batch = Batch::new(documents, 2, 1, 100);
    for job in 0..2 {
        assert_eq!(batch.next(), Action::Probe(job));
        batch.handle(Event::Probed(false));
        assert_eq!(batch.next(), Action::Fetch(job));
    }
    batch.handle(Event::Tick);
    for job in 2..4 {
        assert_eq!(batch.next(), Action::Probe(job));
        batch.handle(Event::Probed(false));
        assert_eq!(batch.next(), Action::Fetch(job));
    }
    assert_eq!(batch.semaphore().requests_in_window(), 2);
    assert_eq!(batch.semaphore().io_in_use(), 4);
}

#[test]
fn failed_conversion_gives_its_slot_back_and_spares_the_download() {
    let mut batch = Batch::new(vec![document("b.pdf", true), document("a.html", false)], 10, 1, 1);
    assert_eq!(names(batch.documents()), ["a.html", "b.pdf"]);
    assert_eq!(batch.next(), Action::Probe(0));
    batch.handle(Event::Probed(false));
    assert_eq!(batch.next(), Action::Fetch(0));
    assert_eq!(batch.next(), Action::Probe(1));
    batch.handle(Event::Probed(false));
    assert_eq!(batch.next(), Action::Convert(1));
    assert_eq!(batch.semaphore().cpu_in_use(), 1);
    assert_eq!(batch.semaphore().io_in_use(), 1);
    assert_eq!(batch.next(), Action::Wait);

    let failure = conversion_outcome(Some(1)).unwrap_err();
    assert_eq!(failure.kind(), ErrorKind::Process);
    batch.handle(Event::Completed(1, Err(failure)));
    assert_eq!(batch.jobs()[1], done(false, Err(Error::ProcessExit(1))));
    assert_eq!(batch.semaphore().cpu_in_use(), 0);
    assert_eq!(batch.semaphore().io_in_use(), 1);
    assert_eq!(batch.jobs()[0], JobState::Running);
    assert_eq!(batch.next(), Action::Wait);

    batch.handle(Event::Completed(0, Ok(vec![7, 8, 9])));
    assert_eq!(batch.jobs()[0], done(false, Ok(())));
    assert_eq!(batch.semaphore().io_in_use(), 0);
    assert_eq!(batch.next(), Action::Finish(Err(Error::ProcessExit(1))));

    let documents = batch.into_documents();
    assert_eq!(documents[0].bytes(), Some(&[7u8, 8, 9][..]));
    assert_eq!(documents[1].bytes(), None);
}

#[test]
fn existing_destination_is_loaded_and_costs_nothing() {
    let mut batch = Batch::new(vec![document("kept.pdf", true)], 1, 1, 1);
    assert_eq!(batch.next(), Action::Probe(0));
    batch.handle(Event::Probed(true));
    assert_eq!(batch.next(), Action::Load(0));
    assert_eq!(batch.next(), Action::Load(0));
    batch.handle(Event::Loaded(Ok(b"known bytes".to_vec())));
    assert_eq!(batch.jobs()[0], done(true, Ok(())));
    assert_eq!(batch.semaphore().requests_in_window(), 0);
    assert_eq!(batch.semaphore().cpu_in_use(), 0);
    assert_eq!(batch.semaphore().io_in_use(), 0);
    assert_eq!(batch.next(), Action::Finish(Ok(())));
    assert_eq!(batch.into_documents()[0].bytes(), Some(&b"known bytes"[..]));
}

#[test]
fn a_batch_of_existing_destinations_never_fetches_or_converts() {
    let documents: Vec<SimpleDocument> =
        (0..20).map(|i| document(&format!("test{}", i), i % 10 == 0)).collect();
    // No request could be admitted and no job could start under these limits.
    let mut batch = Batch::new(documents, 0, 0, 0);
    let mut loaded = 0;
    loop {
        match batch.next() {
            Action::Probe(_) => batch.handle(Event::Probed(true)),
            Action::Load(job) => {
                batch.handle(Event::Loaded(Ok(vec![job as u8])));
                loaded += 1;
            },
            Action::Finish(result) => {
                assert_eq!(result, Ok(()));
                break;
            },
            action => panic!("{:?} in a batch of existing destinations", action),
        }
    }
    assert_eq!(loaded, 20);
    let documents = batch.into_documents();
    for (job, document) in documents.iter().enumerate() {
        assert_eq!(document.bytes(), Some(&[job as u8][..]));
    }
}

#[test]
fn a_destination_that_cannot_be_read_fails_its_job_alone() {
    let mut batch = Batch::new(vec![document("a.html", false), document("b.html", false)], 5, 5, 5);
    assert_eq!(batch.next(), Action::Probe(0));
    batch.handle(Event::Probed(true));
    assert_eq!(batch.next(), Action::Load(0));
    batch.handle(Event::Loaded(Err(Error::Io)));
    assert_eq!(batch.jobs()[0], done(true, Err(Error::Io)));
    assert_eq!(batch.next(), Action::Probe(1));
    batch.handle(Event::Probed(true));
    assert_eq!(batch.next(), Action::Load(1));
    batch.handle(Event::Loaded(Ok(vec![4])));
    assert_eq!(batch.next(), Action::Finish(Err(Error::Io)));
    let documents = batch.into_documents();
    assert_eq!(documents[0].bytes(), None);
    assert_eq!(documents[1].bytes(), Some(&[4u8][..]));
}

#[test]
fn no_more_conversions_run_than_the_gate_has_slots() {
    let documents: Vec<SimpleDocument> =
        (0..5).map(|i| document(&format!("{}.pdf", i), true)).collect();
    let mut batch = Batch::new(documents, 100, 2, 100);
    let mut running: Vec<usize> = Vec::new();
    let mut most = 0;
    loop {
        match batch.next() {
            Action::Probe(_) => batch.handle(Event::Probed(false)),
            Action::Convert(job) => {
                running.push(job);
                most = most.max(running.len());
                assert!(running.len() <= 2);
                assert_eq!(batch.semaphore().cpu_in_use(), running.len());
            },
            Action::Wait => {
                let job = running.remove(0);
                batch.handle(Event::Completed(job, Ok(vec![job as u8])));
            },
            Action::Finish(result) => {
                assert_eq!(result, Ok(()));
                break;
            },
            action => panic!("{:?} in a batch of conversions", action),
        }
    }
    assert_eq!(most, 2);
    assert!(running.is_empty());
    assert_eq!(batch.semaphore().io_in_use(), 0);
}

#[test]
fn a_job_keeps_its_request_while_it_waits_for_a_slot() {
    let mut batch = Batch::new(vec![document("a.pdf", true), document("b.pdf", true)], 2, 1, 1);
    assert_eq!(batch.next(), Action::Probe(0));
    batch.handle(Event::Probed(false));
    assert_eq!(batch.next(), Action::Convert(0));
    assert_eq!(batch.next(), Action::Probe(1));
    batch.handle(Event::Probed(false));
    assert_eq!(batch.next(), Action::Wait);
    assert_eq!(batch.semaphore().requests_in_window(), 2);
    assert_eq!(batch.next(), Action::Wait);
    assert_eq!(batch.semaphore().requests_in_window(), 2);
    batch.handle(Event::Tick);
    assert_eq!(batch.next(), Action::Wait);
    assert_eq!(batch.semaphore().requests_in_window(), 0);
    batch.handle(Event::Completed(0, Ok(vec![1])));
    assert_eq!(batch.next(), Action::Convert(1));
    assert_eq!(batch.semaphore().requests_in_window(), 0);
}

#[test]
fn events_that_do_not_fit_change_nothing() {
    let mut batch = Batch::new(vec![document("a.html", false), document("b.html", false)], 5, 5, 5);
    batch.handle(Event::Loaded(Ok(vec![1])));
    batch.handle(Event::Completed(0, Ok(vec![1])));
    batch.handle(Event::Completed(7, Err(Error::Io)));
    assert_eq!(batch.jobs(), &vec![JobState::Queued; 2]);
    assert_eq!(batch.next(), Action::Probe(0));
    batch.handle(Event::Probed(false));
    batch.handle(Event::Probed(true));
    batch.handle(Event::Loaded(Ok(vec![1])));
    assert_eq!(batch.next(), Action::Fetch(0));
    batch.handle(Event::Completed(1, Ok(vec![1])));
    assert_eq!(batch.jobs(), &vec![JobState::Running, JobState::Queued]);
    batch.handle(Event::Completed(0, Err(Error::TransportStatus(503))));
    batch.handle(Event::Completed(0, Ok(vec![1])));
    assert_eq!(batch.jobs()[0], done(false, Err(Error::TransportStatus(503))));
    assert_eq!(batch.documents()[0].bytes(), None);
    assert_eq!(batch.semaphore().io_in_use(), 0);
}

#[test]
fn the_first_failure_in_dispatch_order_is_reported() {
    let documents: Vec<SimpleDocument> =
        (0..3).map(|i| document(&format!("{}.html", i), false)).collect();
    let mut batch = Batch::new(documents, 5, 5, 5);
    for job in 0..3 {
        assert_eq!(batch.next(), Action::Probe(job));
        batch.handle(Event::Probed(false));
        assert_eq!(batch.next(), Action::Fetch(job));
    }
    batch.handle(Event::Completed(2, Err(Error::TransportFailure)));
    batch.handle(Event::Completed(0, Ok(vec![0])));
    assert_eq!(batch.outcome(), None);
    batch.handle(Event::Completed(1, Err(Error::TransportStatus(500))));
    assert_eq!(batch.outcome(), Some(Err(Error::TransportStatus(500))));
    assert_eq!(batch.next(), Action::Finish(Err(Error::TransportStatus(500))));
}

#[test]
fn a_gate_without_slots_keeps_its_jobs_waiting() {
    let mut batch = Batch::new(vec![document("a.html", false)], 1, 1, 0);
    assert_eq!(batch.next(), Action::Probe(0));
    batch.handle(Event::Probed(false));
    assert_eq!(batch.next(), Action::Wait);
    batch.handle(Event::Tick);
    assert_eq!(batch.next(), Action::Wait);
    assert_eq!(batch.jobs()[0], JobState::Queued);
}

#[test]
fn jobs_carry_their_bytes_back_to_the_callers_positions() {
    let url = Locator::parse("https://example.com/page").unwrap();
    let jobs = vec![
        Job::new(0, ResourceClass::Cpu, url.clone(), Destination::from_text("0.pdf")),
        Job::new(1, ResourceClass::Io, url.clone(), Destination::from_text("1.html")),
        Job::new(2, ResourceClass::Cpu, url.clone(), Destination::from_text("2.pdf")),
        Job::new(3, ResourceClass::Io, url, Destination::from_text("3.html")),
    ];
    let mut batch = Batch::new(jobs, 10, 10, 10);
    let order: Vec<usize> = batch.documents().iter().map(|job| job.document()).collect();
    assert_eq!(order, [1, 3, 0, 2]);
    loop {
        match batch.next() {
            Action::Probe(_) => batch.handle(Event::Probed(false)),
            Action::Fetch(job) => {
                let document = batch.documents()[job].document();
                assert_eq!(batch.documents()[job].class(), ResourceClass::Io);
                let result = if document == 3 { Err(Error::Io) } else { Ok(vec![document as u8]) };
                batch.handle(Event::Completed(job, result));
            },
            Action::Convert(job) => {
                let document = batch.documents()[job].document();
                assert_eq!(batch.documents()[job].class(), ResourceClass::Cpu);
                batch.handle(Event::Completed(job, Ok(vec![document as u8])));
            },
            Action::Finish(result) => {
                assert_eq!(result, Err(Error::Io));
                break;
            },
            action => panic!("{:?} with every gate open", action),
        }
    }
    let mut bytes: Vec<Option<Vec<u8>>> = vec![None; 4];
    for job in batch.into_documents() {
        let document = job.document();
        bytes[document] = job.into_bytes();
    }
    assert_eq!(bytes, [Some(vec![0]), Some(vec![1]), Some(vec![2]), None]);
}

#[test]
fn no_more_downloads_run_than_the_gate_has_slots() {
    let documents: Vec<SimpleDocument> =
        (0..7).map(|i| document(&format!("{}.html", i), false)).collect();
    let mut batch = Batch::new(documents, 100, 100, 3);
    let mut running: Vec<usize> = Vec::new();
    let mut most = 0;
    loop {
        match batch.next() {
            Action::Probe(_) => batch.handle(Event::Probed(false)),
            Action::Fetch(job) => {
                running.push(job);
                most = most.max(running.len());
                assert!(running.len() <= 3);
                assert_eq!(batch.semaphore().io_in_use(), running.len());
            },
            Action::Wait => {
                let job = running.pop().unwrap();
                batch.handle(Event::Completed(job, Ok(vec![job as u8])));
            },
            Action::Finish(result) => {
                assert_eq!(result, Ok(()));
                break;
            },
            action => panic!("{:?} in a batch of raw downloads", action),
        }
    }
    assert_eq!(most, 3);
    assert_eq!(batch.semaphore().cpu_in_use(), 0);
    assert_eq!(batch.semaphore().requests_in_window(), 7);
}

#[test]
fn documents_that_come_in_dispatch_order_keep_their_places() {
    let batch = Batch::new(
        vec![
            document("a.html", false),
            document("b.html", false),
            document("c.pdf", true),
            document("d.pdf", true),
        ],
        1,
        1,
        1,
    );
    assert_eq!(names(batch.documents()), ["a.html", "b.html", "c.pdf", "d.pdf"]);
    let raw_only = Batch::new(vec![document("x.html", false), document("y.html", false)], 1, 1, 1);
    assert_eq!(names(raw_only.documents()), ["x.html", "y.html"]);
    let converted_only = Batch::new(vec![document("x.pdf", true), document("y.pdf", true)], 1, 1, 1);
    assert_eq!(names(converted_only.documents()), ["x.pdf", "y.pdf"]);
}
