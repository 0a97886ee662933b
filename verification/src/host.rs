//! Host resolution: turns the raw host string into a structured network
//! address, mapping each parse failure onto a user-facing error kind.

use vstd::prelude::*;

use crate::error::{Error, HostParseError};

verus! {

/// The structured network-address type of the address parser.
#[verifier::external_type_specification]
#[verifier::external_body]
pub struct ExUrl(url::Url);

/// The outcome of parsing a string as an absolute URL: the parsed address,
/// or the category of the failure. URL parsing depends on the input string
/// alone, so the outcome is a function of it.
pub uninterp spec fn parse_outcome(s: Seq<char>) -> Result<url::Url, HostParseError>;

/// Relies on url::Url::parse: parses an absolute URL from a string, and the
/// outcome depends on the input string alone. The six error variants that
/// the model distinguishes are mapped one to one; every other variant of
/// the parser's error becomes the catch-all kind.
#[verifier::external_body]
fn parse_host_url(s: &str) -> (r: Result<url::Url, HostParseError>)
    ensures
        r == parse_outcome(s@),
{
    match url::Url::parse(s) {
        Ok(u) => Ok(u),
        Err(url::ParseError::EmptyHost) => Err(HostParseError::EmptyHost),
        Err(url::ParseError::InvalidPort) => Err(HostParseError::InvalidPort),
        Err(url::ParseError::InvalidIpv4Address) => Err(HostParseError::InvalidIpv4Address),
        Err(url::ParseError::InvalidIpv6Address) => Err(HostParseError::InvalidIpv6Address),
        Err(url::ParseError::InvalidDomainCharacter) => Err(HostParseError::InvalidDomainCharacter),
        Err(url::ParseError::RelativeUrlWithoutBase) => Err(HostParseError::RelativeUrlWithoutBase),
        Err(_) => Err(HostParseError::Other),
    }
}

/// Resolves a raw host string into a structured address. On a parse
/// failure, returns the error kind whose diagnostic names the failure.
pub fn resolve_host(raw: &str) -> (r: Result<url::Url, Error>)
    ensures
        match parse_outcome(raw@) {
            Ok(u) => r == Ok::<url::Url, Error>(u),
            Err(k) => r == Err::<url::Url, Error>(Error::InvalidHost(k)),
        },
{
    match parse_host_url(raw) {
        Ok(u) => Ok(u),
        Err(k) => Err(Error::InvalidHost(k)),
    }
}

} // verus!
