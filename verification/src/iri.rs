//! Identifier URLs.
//!
//! Actors and activities are named by absolute URLs. Two URLs are the same
//! identifier exactly when their serializations are the same text, so an
//! [`Iri`] holds the serialization and its view is that text.

use url::{ParseError, Url};
use vstd::prelude::*;

verus! {

#[verifier::external_type_specification]
#[verifier::external_body]
pub struct ExParseError(ParseError);

/// What `url::Url::parse` makes of a piece of text: the serialization of the
/// URL it reads there, or nothing where the text is not an absolute URL.
pub uninterp spec fn url_serialization(input: Seq<char>) -> Option<Seq<char>>;

/// Calls `url::Url::parse` and takes the serialization out of the URL with
/// `String::from`. The contract only gives that outcome its name: parsing
/// reads nothing but its argument.
#[verifier::external_body]
fn parse_url(input: &str) -> (r: Result<String, ParseError>)
    ensures
        r matches Ok(text) ==> url_serialization(input@) == Some(text@),
        r is Err ==> url_serialization(input@) is None,
{
    Url::parse(input).map(String::from)
}

/// The text could not be read as an absolute URL.
#[derive(Clone, Copy, Debug, PartialEq, Eq, Structural)]
pub struct InvalidUrl;

/// An identifier URL in serialized form.
#[derive(Debug)]
pub struct Iri {
    text: String,
}

impl View for Iri {
    type V = Seq<char>;

    closed spec fn view(&self) -> Seq<char> {
        self.text@
    }
}

impl Clone for Iri {
    fn clone(&self) -> (r: Self)
        ensures
            r@ == self@,
    {
        Iri { text: self.text.clone() }
    }
}

impl Iri {
    /// Reads `input` as an absolute URL and keeps its serialization.
    pub fn parse(input: &str) -> (r: Result<Iri, InvalidUrl>)
        ensures
            r matches Ok(iri) ==> url_serialization(input@) == Some(iri@),
            r is Err ==> url_serialization(input@) is None,
    {
        match parse_url(input) {
            Ok(text) => Ok(Iri { text }),
            Err(_) => Err(InvalidUrl),
        }
    }

    /// The serialization.
    pub fn as_str(&self) -> (s: &str)
        ensures
            s@ == self@,
    {
        self.text.as_str()
    }

    /// Whether both name the same thing.
    pub fn same_as(&self, other: &Iri) -> (r: bool)
        ensures
            r == (self@ == other@),
    {
        self.text == other.text
    }
}

} // verus!
