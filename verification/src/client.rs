//! The client: the limits and settings of its batches, and what a retrieval
//! or a conversion came to.

use vstd::prelude::*;
use vstd::utf8::decode_utf8;
use crate::destination::Destination;
use crate::document::Document;
use crate::error::Error;
use crate::locator::Locator;
use crate::orchestrator::{dispatch_order, Batch, BatchView, JobState, Stage};
use crate::wkhtmltopdf::{texts, Settings, SettingsView};

verus! {

/// The rate window, in milliseconds: the caller reports a tick to the batch
/// each time this long has passed.
pub const RESET_INTERVAL_MILLIS: u64 = 1000;

/// The status of a retrieval that worked.
pub const STATUS_OK: u16 = 200;

/// A configuration as the contracts see it.
pub struct ClientView {
    /// The most requests admitted in one window.
    pub max_requests_per_second: nat,
    /// The most conversions under way at once.
    pub max_threads_cpu: nat,
    /// The most raw downloads under way at once.
    pub max_threads_io: nat,
    /// The settings of the conversion tool.
    pub settings: SettingsView,
}

/// A `Client` fetches a batch of documents and keeps them on local storage.
/// It never admits more requests in one window than it was told, nor runs
/// more conversions or raw downloads at once than it was told. A document
/// whose `wkhtmltopdf()` is `true` goes through the conversion tool before it
/// is kept.
#[derive(Clone, Debug)]
pub struct Client {
    max_requests_per_second: usize,
    max_threads_cpu: usize,
    max_threads_io: usize,
    wkhtmltopdf_settings: Settings,
}

impl View for Client {
    type V = ClientView;

    closed spec fn view(&self) -> ClientView {
        ClientView {
            max_requests_per_second: self.max_requests_per_second as nat,
            max_threads_cpu: self.max_threads_cpu as nat,
            max_threads_io: self.max_threads_io as nat,
            settings: self.wkhtmltopdf_settings@,
        }
    }
}

/// The arguments of one run of the conversion tool: those of the settings,
/// then the source, then the destination.
pub open spec fn conversion_arguments(
    settings: SettingsView,
    locator: Seq<char>,
    destination: Seq<char>,
) -> Seq<Seq<char>> {
    settings.arguments().push(locator).push(destination)
}

impl Client {
    /// A client with these limits and settings.
    pub fn new(
        max_requests_per_second: usize,
        max_threads_cpu: usize,
        max_threads_io: usize,
        wkhtmltopdf_settings: Settings,
    ) -> (client: Client)
        ensures
            client@ == (ClientView {
                max_requests_per_second: max_requests_per_second as nat,
                max_threads_cpu: max_threads_cpu as nat,
                max_threads_io: max_threads_io as nat,
                settings: wkhtmltopdf_settings@,
            }),
    {
        Client { max_requests_per_second, max_threads_cpu, max_threads_io, wkhtmltopdf_settings }
    }

    /// The settings of the conversion tool.
    pub fn settings(&self) -> (settings: &Settings)
        ensures
            settings@ == self@.settings,
    {
        &self.wkhtmltopdf_settings
    }

    /// Begins a batch of these documents under the client's limits: every
    /// job queued, every gate empty, the documents in dispatch order.
    pub fn batch<D: Document>(&self, documents: Vec<D>) -> (batch: Batch<D>)
        ensures
            batch@.wf(),
            batch@ == (BatchView {
                documents: dispatch_order(documents@),
                initial: dispatch_order(documents@),
                jobs: Seq::new(documents@.len(), |i: int| JobState::Queued),
                cursor: 0,
                stage: Stage::Probe,
                requests: 0,
                threads_cpu: 0,
                threads_io: 0,
                max_requests_per_second: self@.max_requests_per_second,
                max_threads_cpu: self@.max_threads_cpu,
                max_threads_io: self@.max_threads_io,
                windows: Seq::<nat>::empty().push(0),
                missing: 0,
            }),
    {
        Batch::new(
            documents,
            self.max_requests_per_second,
            self.max_threads_cpu,
            self.max_threads_io,
        )
    }

    /// The arguments the conversion tool is run with for one document: those
    /// of the settings, then the source, then the destination. A destination
    /// that is not text cannot be an argument and is a configuration error.
    pub fn converter_arguments(&self, url: &Locator, path: &Destination) -> (arguments: Result<
        Vec<String>,
        Error,
    >)
        ensures
            path.is_text() ==> (arguments matches Ok(list) && texts(list@) == conversion_arguments(
                self@.settings,
                url@,
                decode_utf8(path@),
            )),
            !path.is_text() ==> arguments == Err::<Vec<String>, Error>(Error::Config),
    {
        let mut list = self.wkhtmltopdf_settings.to_arguments();
        list.push(url.as_str().to_owned());
        match path.argument() {
            Ok(destination) => {
                list.push(destination);
                assert(texts(list@) =~= conversion_arguments(
                    self@.settings,
                    url@,
                    decode_utf8(path@),
                ));
                Ok(list)
            },
            Err(error) => Err(error),
        }
    }
}

/// What the status of a retrieval says: success where it is exactly 200, and
/// the status as a transport error otherwise, other successes included.
pub fn fetch_outcome(status: u16) -> (outcome: Result<(), Error>)
    ensures
        outcome == if status == STATUS_OK {
            Ok::<(), Error>(())
        } else {
            Err::<(), Error>(Error::TransportStatus(status))
        },
{
    if status == STATUS_OK {
        Ok(())
    } else {
        Err(Error::TransportStatus(status))
    }
}

/// What a run of the conversion tool came to: success where it exited with
/// zero, and a process error where it exited with another code or with none.
pub fn conversion_outcome(exit_code: Option<i32>) -> (outcome: Result<(), Error>)
    ensures
        outcome == match exit_code {
            Some(code) => if code == 0 {
                Ok::<(), Error>(())
            } else {
                Err::<(), Error>(Error::ProcessExit(code))
            },
            None => Err::<(), Error>(Error::ProcessNoExitCode),
        },
{
    match exit_code {
        Some(code) => {
            if code == 0 {
                Ok(())
            } else {
                Err(Error::ProcessExit(code))
            }
        },
        None => Err(Error::ProcessNoExitCode),
    }
}

} // verus!
