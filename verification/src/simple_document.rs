//! A plain document.

use vstd::prelude::*;
use crate::destination::Destination;
use crate::document::{payload_view, Document};
use crate::locator::Locator;

verus! {

/// A document that holds its destination, its source, its conversion flag
/// and, once it has been fetched, its bytes.
#[derive(Clone, Debug, PartialEq, Eq, PartialOrd, Ord, Hash)]
pub struct SimpleDocument {
    bytes: Option<Vec<u8>>,
    path: Destination,
    url: Locator,
    wkhtmltopdf: bool,
}

impl SimpleDocument {
    /// A document without bytes.
    pub fn new(path: Destination, url: Locator, wkhtmltopdf: bool) -> (document: SimpleDocument)
        ensures
            document.payload() is None,
            document.destination() == path@,
            document.locator() == url@,
            document.converts() == wkhtmltopdf,
    {
        SimpleDocument { bytes: None, path, url, wkhtmltopdf }
    }

    /// The bytes of the document once it has been fetched.
    pub fn bytes(&self) -> (bytes: Option<&[u8]>)
        ensures
            bytes is Some <==> self.payload() is Some,
            bytes matches Some(b) ==> self.payload() == Some(b@),
    {
        match &self.bytes {
            Some(bytes) => Some(bytes.as_slice()),
            None => None,
        }
    }
}

impl Document for SimpleDocument {
    closed spec fn destination(&self) -> Seq<u8> {
        self.path@
    }

    closed spec fn locator(&self) -> Seq<char> {
        self.url@
    }

    closed spec fn converts(&self) -> bool {
        self.wkhtmltopdf
    }

    closed spec fn payload(&self) -> Option<Seq<u8>> {
        payload_view(self.bytes)
    }

    fn path(&self) -> (path: &Destination) {
        &self.path
    }

    fn url(&self) -> (url: &Locator) {
        &self.url
    }

    fn wkhtmltopdf(&self) -> (converts: bool) {
        self.wkhtmltopdf
    }

    fn set_bytes(&mut self, bytes: Option<Vec<u8>>) {
        self.bytes = bytes;
    }
}

} // verus!
