use vstd::prelude::*;
use crate::error::AppError;
use crate::text::{contains_text, occurs_in};

verus! {

/// What `url::Url::parse` makes of a string, written out as its serialization;
/// `None` where the string does not parse.
pub uninterp spec fn parsed_url(s: Seq<char>) -> Option<Seq<char>>;

/// The host that `url::Url::host_str` reports for the URL parsed from a string.
pub uninterp spec fn parsed_host(s: Seq<char>) -> Option<Seq<char>>;

#[verifier::external_type_specification]
#[verifier::external_body]
pub struct ExParseError(url::ParseError);

/// A parsed URL as plain text: its serialization and its host.
struct UrlParts {
    text: String,
    host: Option<String>,
}

/// Relies on `url::Url::parse` for the parse, and on `Url::as_str` and
/// `Url::host_str` of the parsed value for its serialization and host.
#[verifier::external_body]
fn parse_url(s: &str) -> (r: Result<UrlParts, url::ParseError>)
    ensures
        match r {
            Ok(p) => parsed_url(s@) == Some(p.text@) && match p.host {
                Some(h) => parsed_host(s@) == Some(h@),
                None => parsed_host(s@) is None,
            },
            Err(_) => parsed_url(s@) is None,
        },
{
    url::Url::parse(s).map(
        |u| UrlParts { text: u.as_str().to_string(), host: u.host_str().map(String::from) },
    )
}

/// The host carries one of the accepted domain markers.
pub open spec fn recognized_host(host: Seq<char>) -> bool {
    occurs_in(host, "youtube.com"@) || occurs_in(host, "youtu.be"@)
}

/// How validation of a raw string ends: the accepted address's text, or the
/// error.
pub open spec fn validation(s: Seq<char>) -> Result<Seq<char>, AppError> {
    match parsed_url(s) {
        None => Err(AppError::MalformedUrl),
        Some(text) => match parsed_host(s) {
            None => Err(AppError::MissingHost),
            Some(host) => if recognized_host(host) {
                Ok(text)
            } else {
                Err(AppError::UnrecognizedDomain)
            },
        },
    }
}

/// Of well-formed URLs with a host, validation accepts exactly those whose
/// host carries an accepted domain marker, and refuses the others as an
/// unrecognized domain.
pub proof fn lemma_domain_classification(s: Seq<char>)
    requires
        parsed_url(s) is Some,
        parsed_host(s) is Some,
    ensures
        recognized_host(parsed_host(s)->0) ==> validation(s) == Ok::<Seq<char>, AppError>(
            parsed_url(s)->0,
        ),
        !recognized_host(parsed_host(s)->0) ==> validation(s) == Err::<Seq<char>, AppError>(
            AppError::UnrecognizedDomain,
        ),
{
}

/// A URL whose host names the video site.
#[derive(Debug, Clone)]
pub struct YoutubeUrl {
    url: String,
    host: String,
}

impl View for YoutubeUrl {
    type V = Seq<char>;

    closed spec fn view(&self) -> Seq<char> {
        self.url@
    }
}

impl YoutubeUrl {
    /// The host of the address.
    pub closed spec fn host(&self) -> Seq<char> {
        self.host@
    }

    /// Every address carries an accepted domain marker in its host.
    pub closed spec fn wf(&self) -> bool {
        recognized_host(self.host@)
    }

    /// Whether a host carries one of the accepted domain markers.
    pub fn is_recognized_host(host: &str) -> (r: bool)
        ensures
            r == recognized_host(host@),
    {
        contains_text(host, "youtube.com") || contains_text(host, "youtu.be")
    }

    /// Validates the host that a parsed URL reported: a missing host and a
    /// host without an accepted marker are refused.
    pub fn check_host(host: Option<String>) -> (r: Result<String, AppError>)
        ensures
            match host {
                None => r matches Err(AppError::MissingHost),
                Some(h) => if recognized_host(h@) {
                    r matches Ok(v) && v@ == h@
                } else {
                    r matches Err(AppError::UnrecognizedDomain)
                },
            },
    {
        match host {
            None => Err(AppError::MissingHost),
            Some(h) => {
                if Self::is_recognized_host(h.as_str()) {
                    Ok(h)
                } else {
                    Err(AppError::UnrecognizedDomain)
                }
            },
        }
    }

    /// Parses and validates a raw string as a channel address.
    pub fn new(url_str: &str) -> (r: Result<YoutubeUrl, AppError>)
        ensures
            match validation(url_str@) {
                Ok(text) => r matches Ok(y) && y@ == text && y.wf() && y.host()
                    == parsed_host(url_str@)->0,
                Err(e) => r matches Err(f) && f == e,
            },
    {
        match parse_url(url_str) {
            Err(_) => Err(AppError::MalformedUrl),
            Ok(parts) => match Self::check_host(parts.host) {
                Err(e) => Err(e),
                Ok(host) => Ok(YoutubeUrl { url: parts.text, host }),
            },
        }
    }

    /// The address as text.
    pub fn as_str(&self) -> (r: &str)
        ensures
            r@ == self@,
    {
        self.url.as_str()
    }
}

impl AsRef<str> for YoutubeUrl {
    fn as_ref(&self) -> (r: &str)
        ensures
            r@ == self@,
    {
        self.url.as_str()
    }
}

} // verus!
