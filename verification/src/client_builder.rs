//! Configuring a client.

use vstd::prelude::*;
use crate::client::{Client, ClientView};
use crate::cpus::default_threads_cpu;
use crate::wkhtmltopdf::{Setting, Settings, SettingsView};

verus! {

/// A `ClientBuilder` can be used to create a `Client` with custom configuration.
#[derive(Clone, Debug)]
pub struct ClientBuilder {
    max_requests_per_second: usize,
    max_threads_cpu: usize,
    max_threads_io: usize,
    wkhtmltopdf_settings: Settings,
}

impl View for ClientBuilder {
    type V = ClientView;

    closed spec fn view(&self) -> ClientView {
        ClientView {
            max_requests_per_second: self.max_requests_per_second as nat,
            max_threads_cpu: self.max_threads_cpu as nat,
            max_threads_io: self.max_threads_io as nat,
            settings: self.wkhtmltopdf_settings@,
        }
    }
}

impl Default for ClientBuilder {
    /// Creates a `ClientBuilder` with the following default settings:
    /// * `max_requests_per_second` = `10`
    /// * `max_threads_cpu` = number of logical cores on your machine, and at least `1`
    /// * `max_threads_io` = `100`
    /// * the settings of the conversion tool before any is set
    fn default() -> (builder: ClientBuilder)
        ensures
            builder@ == (ClientView {
                max_requests_per_second: 10,
                max_threads_cpu: builder@.max_threads_cpu,
                max_threads_io: 100,
                settings: SettingsView::initial(),
            }),
            builder@.max_threads_cpu >= 1,
    {
        ClientBuilder {
            max_requests_per_second: 10,
            max_threads_cpu: default_threads_cpu(),
            max_threads_io: 100,
            wkhtmltopdf_settings: Settings::default(),
        }
    }
}

impl ClientBuilder {
    /// Set the maximum number of requests per second.
    pub fn set_max_requests_per_second(self, max_requests_per_second: usize) -> (builder:
        ClientBuilder)
        ensures
            builder@ == (ClientView {
                max_requests_per_second: max_requests_per_second as nat,
                ..self@
            }),
    {
        let mut builder = self;
        builder.max_requests_per_second = max_requests_per_second;
        builder
    }

    /// Set the maximum number of cpu threads (those used for PDF conversion).
    pub fn set_max_threads_cpu(self, max_threads_cpu: usize) -> (builder: ClientBuilder)
        ensures
            builder@ == (ClientView { max_threads_cpu: max_threads_cpu as nat, ..self@ }),
    {
        let mut builder = self;
        builder.max_threads_cpu = max_threads_cpu;
        builder
    }

    /// Set the maximum number of io threads (those used for downloading bytes).
    pub fn set_max_threads_io(self, max_threads_io: usize) -> (builder: ClientBuilder)
        ensures
            builder@ == (ClientView { max_threads_io: max_threads_io as nat, ..self@ }),
    {
        let mut builder = self;
        builder.max_threads_io = max_threads_io;
        builder
    }

    /// Set wkhtmltopdf setting.
    pub fn set_wkhtmltopdf_setting(self, setting: Setting) -> (builder: ClientBuilder)
        ensures
            builder@ == (ClientView { settings: self@.settings.with(setting), ..self@ }),
    {
        let mut builder = self;
        builder.wkhtmltopdf_settings.set(setting);
        builder
    }

    /// Set wkhtmltopdf settings based on provided `Vec` of `wkhtmltopdf::Setting`.
    pub fn set_wkhtmltopdf_settings(self, settings: Vec<Setting>) -> (builder: ClientBuilder)
        ensures
            builder@ == (ClientView { settings: self@.settings.with_all(settings@), ..self@ }),
    {
        let mut builder = self;
        let ghost given = settings@;
        for setting in iter: settings
            invariant
                iter.seq() == given,
                builder@ == (ClientView {
                    settings: self@.settings.with_all(given.take(iter.index() as int)),
                    ..self@
                }),
        {
            proof {
                let next = given.take(iter.index() + 1);
                assert(next.drop_last() =~= given.take(iter.index() as int));
                assert(next.last() == setting);
            }
            builder.wkhtmltopdf_settings.set(setting);
        }
        assert(given.take(given.len() as int) =~= given);
        builder
    }

    /// Returns a `Client` that uses this `ClientBuilder` configuration.
    pub fn build(self) -> (client: Client)
        ensures
            client@ == self@,
    {
        Client::new(
            self.max_requests_per_second,
            self.max_threads_cpu,
            self.max_threads_io,
            self.wkhtmltopdf_settings,
        )
    }
}

} // verus!
