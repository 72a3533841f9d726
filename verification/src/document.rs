//! What the orchestrator asks of a document.

use vstd::prelude::*;
use crate::destination::Destination;
use crate::locator::Locator;

verus! {

/// The bytes of an optional payload.
pub open spec fn payload_view(bytes: Option<Vec<u8>>) -> Option<Seq<u8>> {
    match bytes {
        Some(bytes) => Some(bytes@),
        None => None,
    }
}

/// Something that can be fetched and kept on local storage. A document whose
/// `wkhtmltopdf` is `true` goes through the conversion tool before it is
/// kept; one whose `wkhtmltopdf` is `false` is kept as the bytes that came.
pub trait Document {
    /// The raw bytes of the destination path.
    spec fn destination(&self) -> Seq<u8>;

    /// The serialized source URL.
    spec fn locator(&self) -> Seq<char>;

    /// Whether the document is converted before it is kept.
    spec fn converts(&self) -> bool;

    /// The bytes attached to the document, if any.
    spec fn payload(&self) -> Option<Seq<u8>>;

    /// Where the document is kept.
    fn path(&self) -> (path: &Destination)
        ensures
            path@ == self.destination(),
    ;

    /// Where the document is fetched from.
    fn url(&self) -> (url: &Locator)
        ensures
            url@ == self.locator(),
    ;

    /// Whether the document is converted before it is kept.
    fn wkhtmltopdf(&self) -> (converts: bool)
        ensures
            converts == self.converts(),
    ;

    /// Replaces the payload: `Some` attaches bytes, `None` clears it.
    /// Nothing else about the document changes.
    fn set_bytes(&mut self, bytes: Option<Vec<u8>>)
        ensures
            final(self).payload() == payload_view(bytes),
            final(self).destination() == old(self).destination(),
            final(self).locator() == old(self).locator(),
            final(self).converts() == old(self).converts(),
    ;
}

} // verus!
