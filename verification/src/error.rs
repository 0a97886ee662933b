//! Error taxonomy of the upload argument model.
//!
//! Every accessor outcome that the user or the environment can cause is
//! reported as a structured error carrying a specific kind; a single
//! boundary turns the kind into a one-line diagnostic message.

use vstd::prelude::*;

verus! {

/// The category of a host-address parse failure, one per named failure of
/// the address parser, with a catch-all for every other failure.
#[derive(Clone, Copy, Debug, PartialEq, Eq, Structural)]
pub enum HostParseError {
    EmptyHost,
    InvalidPort,
    InvalidIpv4Address,
    InvalidIpv6Address,
    InvalidDomainCharacter,
    RelativeUrlWithoutBase,
    Other,
}

/// An error of the upload argument model.
#[derive(Clone, Copy, Debug, PartialEq, Eq, Structural)]
pub enum Error {
    /// A required argument is missing: a contract breach between the
    /// parser and the accessor, never user-caused under a correct parser.
    MissingRequiredArgument,
    /// The rename value is empty after trimming.
    EmptyName,
    /// The host string is not a valid network address.
    InvalidHost(HostParseError),
    /// The interactive channel could not provide a password line.
    SecretReadFailure,
}

/// The user-facing diagnostic for each host-address parse failure.
pub open spec fn spec_host_message(k: HostParseError) -> Seq<char> {
    match k {
        HostParseError::EmptyHost => "Empty host given"@,
        HostParseError::InvalidPort => "Invalid host port"@,
        HostParseError::InvalidIpv4Address => "Invalid IPv4 address in host"@,
        HostParseError::InvalidIpv6Address => "Invalid IPv6 address in host"@,
        HostParseError::InvalidDomainCharacter => "Host domains contains an invalid character"@,
        HostParseError::RelativeUrlWithoutBase => "Host domain doesn't contain a host"@,
        HostParseError::Other => "The given host is invalid"@,
    }
}

/// The user-facing diagnostic for each error of the model.
pub open spec fn spec_message(e: Error) -> Seq<char> {
    match e {
        Error::MissingRequiredArgument => "no file specified to upload"@,
        Error::EmptyName => "the new name must not be empty"@,
        Error::InvalidHost(k) => spec_host_message(k),
        Error::SecretReadFailure => "failed to read password from stdin"@,
    }
}

impl Error {
    /// The one-line diagnostic to print before terminating.
    pub fn message(&self) -> (r: String)
        ensures
            r@ == spec_message(*self),
    {
        match self {
            Error::MissingRequiredArgument => String::from_str("no file specified to upload"),
            Error::EmptyName => String::from_str("the new name must not be empty"),
            Error::InvalidHost(k) => match k {
                HostParseError::EmptyHost => String::from_str("Empty host given"),
                HostParseError::InvalidPort => String::from_str("Invalid host port"),
                HostParseError::InvalidIpv4Address => String::from_str(
                    "Invalid IPv4 address in host",
                ),
                HostParseError::InvalidIpv6Address => String::from_str(
                    "Invalid IPv6 address in host",
                ),
                HostParseError::InvalidDomainCharacter => String::from_str(
                    "Host domains contains an invalid character",
                ),
                HostParseError::RelativeUrlWithoutBase => String::from_str(
                    "Host domain doesn't contain a host",
                ),
                HostParseError::Other => String::from_str("The given host is invalid"),
            },
            Error::SecretReadFailure => String::from_str("failed to read password from stdin"),
        }
    }
}

/// For each named address-parse failure category, the diagnostic of the
/// corresponding host error is exactly the category's message; every other
/// parse failure carries the catch-all diagnostic.
pub proof fn lemma_host_failure_messages(k: HostParseError)
    ensures
        k == HostParseError::EmptyHost ==> spec_message(Error::InvalidHost(k))
            == "Empty host given"@,
        k == HostParseError::InvalidPort ==> spec_message(Error::InvalidHost(k))
            == "Invalid host port"@,
        k == HostParseError::InvalidIpv4Address ==> spec_message(Error::InvalidHost(k))
            == "Invalid IPv4 address in host"@,
        k == HostParseError::InvalidIpv6Address ==> spec_message(Error::InvalidHost(k))
            == "Invalid IPv6 address in host"@,
        k == HostParseError::InvalidDomainCharacter ==> spec_message(Error::InvalidHost(k))
            == "Host domains contains an invalid character"@,
        k == HostParseError::RelativeUrlWithoutBase ==> spec_message(Error::InvalidHost(k))
            == "Host domain doesn't contain a host"@,
        k == HostParseError::Other ==> spec_message(Error::InvalidHost(k))
            == "The given host is invalid"@,
{
}

} // verus!
