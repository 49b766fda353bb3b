//! A URL checked by the URI parser of the `http` crate behind `hyper`,
//! kept with the text it was parsed from.

use vstd::prelude::*;
use hyper::Uri;

verus! {

#[verifier::external_type_specification]
#[verifier::external_body]
pub struct ExUri(Uri);

/// A parsed URI, with the text it was parsed from.
pub struct CheckedUri {
    url: String,
    uri: Uri,
}

impl CheckedUri {
    /// The text the URI was parsed from.
    pub closed spec fn url(self) -> Seq<char> {
        self.url@
    }

    /// The text the URI was parsed from.
    pub fn url_text(&self) -> (s: &str)
        ensures
            s@ == self.url(),
    {
        self.url.as_str()
    }

    /// The URI, for building the request.
    pub fn uri(&self) -> &Uri {
        &self.uri
    }

    /// The URI, for building the request.
    pub fn into_uri(self) -> Uri {
        self.uri
    }
}

/// The message `http::Uri`'s parser gives for `s`, or `None` where it
/// accepts `s`.
pub uninterp spec fn uri_parse_error(s: Seq<char>) -> Option<Seq<char>>;

/// `str::parse::<http::Uri>`: the URI parsed from `s`, kept with `s`, or
/// the message of the error. Which texts it accepts, and the message, are
/// named rather than written out; what the URI holds is not stated beyond
/// the text it was parsed from.
#[verifier::external_body]
pub(crate) fn parse_uri(s: &str) -> (r: Result<CheckedUri, String>)
    ensures
        match r {
            Ok(u) => uri_parse_error(s@) is None && u.url() == s@,
            Err(e) => uri_parse_error(s@) == Some(e@),
        },
{
    match s.parse::<Uri>() {
        Ok(uri) => Ok(CheckedUri { url: s.to_string(), uri }),
        Err(e) => Err(e.to_string()),
    }
}

} // verus!
