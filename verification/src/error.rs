//! The error type shared by the identity, document, trust-bundle and TLS modules.

use vstd::prelude::*;
use vstd::string::*;

verus! {

/// The error a URL parser reports; carried through unchanged.
#[verifier::external_type_specification]
#[verifier::external_body]
pub struct ExUrlParseError(url::ParseError);

/// Why an operation of this library failed.
#[derive(Debug)]
pub enum Error {
    /// An identity name is malformed.
    InvalidSpiffeId(String),
    /// An X.509 identity document is malformed or empty.
    X509Error(String),
    /// A JWT identity document is malformed or empty.
    JwtError(String),
    /// TLS policy could not be assembled.
    TlsError(String),
    /// The identity provider could not be reached or refused the request.
    AgentError(String),
    /// A trust bundle is invalid, or a merge or federation rule was broken.
    TrustBundleError(String),
    /// A credential is expired, or a peer or an identity is not trusted.
    ValidationError(String),
    /// The URL parser rejected the text of an identity name.
    UrlError(url::ParseError),
    /// Anything else.
    Other(String),
}

impl Error {
    /// The text carried by the error; empty for an error of the URL parser.
    pub open spec fn message(&self) -> Seq<char> {
        match self {
            Error::InvalidSpiffeId(m) => m@,
            Error::X509Error(m) => m@,
            Error::JwtError(m) => m@,
            Error::TlsError(m) => m@,
            Error::AgentError(m) => m@,
            Error::TrustBundleError(m) => m@,
            Error::ValidationError(m) => m@,
            Error::UrlError(_) => Seq::<char>::empty(),
            Error::Other(m) => m@,
        }
    }

    /// The text carried by the error; empty for an error of the URL parser.
    pub fn text(&self) -> (r: String)
        ensures
            r@ == self.message(),
    {
        match self {
            Error::InvalidSpiffeId(m) => m.clone(),
            Error::X509Error(m) => m.clone(),
            Error::JwtError(m) => m.clone(),
            Error::TlsError(m) => m.clone(),
            Error::AgentError(m) => m.clone(),
            Error::TrustBundleError(m) => m.clone(),
            Error::ValidationError(m) => m.clone(),
            Error::UrlError(_) => String::new(),
            Error::Other(m) => m.clone(),
        }
    }

    /// A malformed-identity error with the given text.
    pub fn invalid_spiffe_id(msg: &str) -> (e: Self)
        ensures
            e is InvalidSpiffeId,
            e.message() == msg@,
    {
        Error::InvalidSpiffeId(msg.to_owned())
    }

    /// A TLS-configuration error with the given text.
    pub fn tls_error(msg: &str) -> (e: Self)
        ensures
            e is TlsError,
            e.message() == msg@,
    {
        Error::TlsError(msg.to_owned())
    }

    /// An identity-provider error with the given text.
    pub fn agent_error(msg: &str) -> (e: Self)
        ensures
            e is AgentError,
            e.message() == msg@,
    {
        Error::AgentError(msg.to_owned())
    }
}

/// Why the identity of a peer was not accepted.
#[derive(Debug)]
pub enum SpiffeError {
    /// The text is not of the form of an identity name.
    InvalidSpiffeId(String),
    /// The identity is of another trust domain than the one expected.
    TrustDomainMismatch {
        /// The trust domain that was expected.
        expected: String,
        /// The trust domain of the identity.
        actual: String,
    },
    /// The certificate holds no identity, or cannot be read, or its chain
    /// does not lead to a trusted root.
    ValidationError(String),
}

} // verus!
