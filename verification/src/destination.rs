//! Where a document is kept on local storage.

use vstd::prelude::*;
use vstd::string::StrSliceExecFns;
use vstd::utf8::{decode_utf8, encode_utf8, valid_utf8};
use crate::error::Error;

verus! {

/// Calls `core::str::from_utf8` and copies the text it accepts. The standard
/// library accepts exactly the byte sequences that are well-formed UTF-8, and
/// the text then holds the characters those bytes encode.
#[verifier::external_body]
fn text_of_bytes(bytes: &[u8]) -> (text: Option<String>)
    ensures
        text is Some <==> valid_utf8(bytes@),
        text matches Some(s) ==> s@ == decode_utf8(bytes@),
{
    match core::str::from_utf8(bytes) {
        Ok(text) => Some(text.to_owned()),
        Err(_) => None,
    }
}

/// A destination path, as the platform's raw bytes.
#[derive(Clone, Debug, PartialEq, Eq, PartialOrd, Ord, Hash)]
pub struct Destination {
    bytes: Vec<u8>,
}

impl View for Destination {
    type V = Seq<u8>;

    closed spec fn view(&self) -> Seq<u8> {
        self.bytes@
    }
}

impl Destination {
    /// The destination with these raw bytes.
    pub fn from_bytes(bytes: Vec<u8>) -> (destination: Destination)
        ensures
            destination@ == bytes@,
    {
        Destination { bytes }
    }

    /// The destination written as `text`. It can be an argument, and the
    /// argument is `text` again.
    pub fn from_text(text: &str) -> (destination: Destination)
        ensures
            destination@ == encode_utf8(text@),
            destination.is_text(),
            decode_utf8(destination@) == text@,
    {
        broadcast use {
            vstd::utf8::encode_utf8_valid_utf8,
            vstd::utf8::encode_utf8_decode_utf8,
        };

        Destination { bytes: text.as_bytes_vec() }
    }

    /// The raw bytes.
    pub fn as_bytes(&self) -> (bytes: &[u8])
        ensures
            bytes@ == self@,
    {
        self.bytes.as_slice()
    }

    /// Whether the destination can be written as text.
    pub open spec fn is_text(&self) -> bool {
        valid_utf8(self@)
    }

    /// The destination as an argument for the conversion tool: its text where
    /// the bytes are well-formed UTF-8, and a configuration error otherwise.
    pub fn argument(&self) -> (argument: Result<String, Error>)
        ensures
            self.is_text() ==> (argument matches Ok(text) && text@ == decode_utf8(self@)),
            !self.is_text() ==> argument == Err::<String, Error>(Error::Config),
    {
        match text_of_bytes(self.bytes.as_slice()) {
            Some(text) => Ok(text),
            None => Err(Error::Config),
        }
    }
}

} // verus!
