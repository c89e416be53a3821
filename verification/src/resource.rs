//! Remote resources: URLs that have been checked before anything is sent.

use crate::error::{ErrorKind, FetchError};
use vstd::prelude::*;
use vstd::string::*;

verus! {

/// The error of `url::Url::parse`.
#[verifier::external_type_specification]
#[verifier::external_body]
pub struct ExParseError(url::ParseError);

/// The scheme of `text` read as an absolute URL, or nothing where `text` is
/// not an absolute URL.
pub uninterp spec fn url_scheme(text: Seq<char>) -> Option<Seq<char>>;

/// Parses `text` with `url::Url::parse` and hands out the scheme of the
/// result, as `url::Url::scheme` gives it.
///
/// Trusted: whether `text` parses, and the scheme it has if it does, depend
/// on `text` alone.
#[verifier::external_body]
fn parse_scheme(text: &str) -> (res: Result<String, url::ParseError>)
    ensures
        match res {
            Ok(scheme) => url_scheme(text@) == Some(scheme@),
            Err(_) => url_scheme(text@) is None,
        },
{
    match url::Url::parse(text) {
        Ok(parsed) => Ok(parsed.scheme().to_string()),
        Err(error) => Err(error),
    }
}

/// How the fetcher names itself to every origin, in the `User-Agent` header
/// of its one GET.
pub const USER_AGENT: &'static str = "include_url_macro";

/// Whether a scheme is one that the fetcher speaks.
pub open spec fn is_supported_scheme(scheme: Seq<char>) -> bool {
    scheme == "http"@ || scheme == "https"@
}

/// What validation says of a URL text.
pub open spec fn validate(text: Seq<char>) -> Result<(), ErrorKind> {
    match url_scheme(text) {
        None => Err(ErrorKind::InvalidUrl),
        Some(scheme) => if is_supported_scheme(scheme) {
            Ok(())
        } else {
            Err(ErrorKind::UnsupportedScheme)
        },
    }
}

/// A URL that may be fetched: absolute, with scheme `http` or `https`.
pub struct RemoteResource {
    url: String,
}

impl View for RemoteResource {
    type V = Seq<char>;

    closed spec fn view(&self) -> Seq<char> {
        self.url@
    }
}

impl RemoteResource {
    #[verifier::type_invariant]
    spec fn well_formed(self) -> bool {
        validate(self.url@) is Ok
    }

    /// Validates `text`. Nothing is sent anywhere.
    pub fn parse(text: &str) -> (res: Result<RemoteResource, FetchError>)
        ensures
            match res {
                Ok(resource) => validate(text@) is Ok && resource@ == text@,
                Err(error) => validate(text@) == Err::<(), ErrorKind>(error.kind()),
            },
    {
        match parse_scheme(text) {
            Err(error) => Err(FetchError::InvalidUrl { cause: error.to_string() }),
            Ok(scheme) => {
                if scheme == String::from_str("http") || scheme == String::from_str("https") {
                    Ok(RemoteResource { url: String::from_str(text) })
                } else {
                    Err(FetchError::UnsupportedScheme)
                }
            },
        }
    }

    /// The URL as text.
    pub fn as_str(&self) -> (text: &str)
        ensures
            text@ == self@,
            validate(text@) is Ok,
    {
        proof {
            use_type_invariant(self);
        }
        self.url.as_str()
    }
}

} // verus!
