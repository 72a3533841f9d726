//! Where a document is fetched from.

use vstd::prelude::*;

verus! {

/// A parsed URL record of the `url` crate.
#[verifier::external_type_specification]
#[verifier::external_body]
pub struct ExUrl(url::Url);

/// What `url::Url::parse` makes of a text: the serialization of the URL
/// record it parses to, or nothing where it rejects the text.
pub uninterp spec fn url_serialization(text: Seq<char>) -> Option<Seq<char>>;

/// The serialization a URL record holds: what `url::Url::as_str` returns.
pub uninterp spec fn url_text(url: url::Url) -> Seq<char>;

/// Calls `url::Url::parse` and hands out the serialization of the record,
/// which is the text that `Url::as_str` and `Url::to_string` give. Parsing
/// reads nothing but its argument.
#[verifier::external_body]
fn parse_url(text: &str) -> (serialization: Option<String>)
    ensures
        serialization is Some <==> url_serialization(text@) is Some,
        serialization matches Some(s) ==> url_serialization(text@) == Some(s@),
{
    match url::Url::parse(text) {
        Ok(url) => Some(String::from(url)),
        Err(_) => None,
    }
}

/// Calls `url::Url::as_str`, which hands out the serialization the record
/// holds, and copies it.
#[verifier::external_body]
fn serialization_of(url: &url::Url) -> (serialization: String)
    ensures
        serialization@ == url_text(*url),
{
    url.as_str().to_owned()
}

/// An absolute URL in serialized form.
#[derive(Clone, Debug, PartialEq, Eq, PartialOrd, Ord, Hash)]
pub struct Locator {
    text: String,
}

impl View for Locator {
    type V = Seq<char>;

    closed spec fn view(&self) -> Seq<char> {
        self.text@
    }
}

impl Locator {
    /// Parses `text` as an absolute URL. The locator holds the serialization
    /// of what was parsed; a text that is no absolute URL gives nothing.
    pub fn parse(text: &str) -> (locator: Option<Locator>)
        ensures
            locator is Some <==> url_serialization(text@) is Some,
            locator matches Some(l) ==> url_serialization(text@) == Some(l@),
    {
        match parse_url(text) {
            Some(serialization) => Some(Locator { text: serialization }),
            None => None,
        }
    }

    /// The locator of a URL that has been parsed already: its serialization.
    pub fn of(url: &url::Url) -> (locator: Locator)
        ensures
            locator@ == url_text(*url),
    {
        Locator { text: serialization_of(url) }
    }

    /// The serialized URL.
    pub fn as_str(&self) -> (text: &str)
        ensures
            text@ == self@,
    {
        self.text.as_str()
    }
}

} // verus!
