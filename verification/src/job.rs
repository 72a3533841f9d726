//! A job: what the orchestrator holds of one caller's document while a
//! batch runs.

use vstd::prelude::*;
use crate::destination::Destination;
use crate::document::{payload_view, Document};
use crate::locator::Locator;

verus! {

/// Which of the two slot gates a job runs under.
#[derive(Clone, Copy, Debug, PartialEq, Eq, Hash)]
pub enum ResourceClass {
    /// A conversion, which runs the conversion tool.
    Cpu,
    /// A raw download.
    Io,
}

/// One document of a batch: where the caller keeps it, where it is fetched
/// from, where it goes, under which gate it runs, and the bytes it was
/// given.
#[derive(Clone, Debug, PartialEq, Eq, Hash)]
pub struct Job {
    document: usize,
    class: ResourceClass,
    locator: Locator,
    destination: Destination,
    bytes: Option<Vec<u8>>,
}

impl Job {
    /// The position of the caller's document that the job is about.
    pub closed spec fn reference(&self) -> nat {
        self.document as nat
    }

    /// Which of the two slot gates the job runs under.
    pub closed spec fn resource_class(&self) -> ResourceClass {
        self.class
    }

    /// A job without bytes for the caller's document at position `document`.
    pub fn new(document: usize, class: ResourceClass, locator: Locator, destination: Destination) -> (job:
        Job)
        ensures
            job.reference() == document,
            job.resource_class() == class,
            job.locator() == locator@,
            job.destination() == destination@,
            job.converts() == (class is Cpu),
            job.payload() is None,
    {
        Job { document, class, locator, destination, bytes: None }
    }

    /// The position of the caller's document that the job is about.
    pub fn document(&self) -> (document: usize)
        ensures
            document == self.reference(),
    {
        self.document
    }

    /// Which of the two slot gates the job runs under.
    pub fn class(&self) -> (class: ResourceClass)
        ensures
            class == self.resource_class(),
            self.converts() == (class is Cpu),
    {
        self.class
    }

    /// The bytes the job was given, if any.
    pub fn bytes(&self) -> (bytes: Option<&[u8]>)
        ensures
            bytes is Some <==> self.payload() is Some,
            bytes matches Some(b) ==> self.payload() == Some(b@),
    {
        match &self.bytes {
            Some(bytes) => Some(bytes.as_slice()),
            None => None,
        }
    }

    /// Ends the job and hands out the bytes it was given, if any.
    pub fn into_bytes(self) -> (bytes: Option<Vec<u8>>)
        ensures
            payload_view(bytes) == self.payload(),
    {
        self.bytes
    }
}

impl Document for Job {
    closed spec fn destination(&self) -> Seq<u8> {
        self.destination@
    }

    closed spec fn locator(&self) -> Seq<char> {
        self.locator@
    }

    closed spec fn converts(&self) -> bool {
        self.class is Cpu
    }

    closed spec fn payload(&self) -> Option<Seq<u8>> {
        payload_view(self.bytes)
    }

    fn path(&self) -> (path: &Destination) {
        &self.destination
    }

    fn url(&self) -> (url: &Locator) {
        &self.locator
    }

    fn wkhtmltopdf(&self) -> (converts: bool) {
        match self.class {
            ResourceClass::Cpu => true,
            ResourceClass::Io => false,
        }
    }

    fn set_bytes(&mut self, bytes: Option<Vec<u8>>) {
        self.bytes = bytes;
    }
}

} // verus!
