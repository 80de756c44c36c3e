//! The identity that a certificate carries: a URI of the Subject Alternative
//! Name that begins with `spiffe://`, and the check of its trust domain.

use vstd::prelude::*;
use vstd::string::*;
use x509_parser::prelude::FromDer;
use crate::error::SpiffeError;
use crate::spiffe_id::{canonical_text, scheme_prefix};
use crate::text::{bytes_equal, chars_of, find_char, has_prefix, starts_with, str_equal, text_before};

verus! {

/// An extension of a certificate as a mathematical value.
pub struct CertExtensionView {
    /// The object identifier, as the contents of its DER encoding.
    pub oid: Seq<u8>,
    /// The contents of the extension.
    pub value: Seq<u8>,
}

/// An extension of a certificate.
#[derive(Debug)]
pub struct CertExtension {
    /// The object identifier, as the contents of its DER encoding.
    pub oid: Vec<u8>,
    /// The contents of the extension.
    pub value: Vec<u8>,
}

impl View for CertExtension {
    type V = CertExtensionView;

    open spec fn view(&self) -> CertExtensionView {
        CertExtensionView { oid: self.oid@, value: self.value@ }
    }
}

/// A general name of a Subject Alternative Name as a mathematical value.
pub enum AltNameView {
    /// A URI.
    Uri(Seq<char>),
    /// A name of another kind.
    Other,
}

/// A general name of a Subject Alternative Name.
#[derive(Debug)]
pub enum AltName {
    /// A URI.
    Uri(String),
    /// A name of another kind.
    Other,
}

impl View for AltName {
    type V = AltNameView;

    open spec fn view(&self) -> AltNameView {
        match self {
            AltName::Uri(uri) => AltNameView::Uri(uri@),
            AltName::Other => AltNameView::Other,
        }
    }
}

/// The views of a list of extensions.
pub open spec fn extension_views(list: Seq<CertExtension>) -> Seq<CertExtensionView> {
    list.map_values(|e: CertExtension| e@)
}

/// The views of a list of general names.
pub open spec fn name_views(list: Seq<AltName>) -> Seq<AltNameView> {
    list.map_values(|n: AltName| n@)
}

/// The object identifier 2.5.29.17 of the Subject Alternative Name, as the
/// contents of its DER encoding.
pub open spec fn san_oid() -> Seq<u8> {
    seq![0x55u8, 0x1du8, 0x11u8]
}

/// The extensions that `x509_parser` reads from a DER certificate, in the
/// order of the certificate; nothing where it cannot read the certificate.
pub uninterp spec fn certificate_extensions(der: Seq<u8>) -> Option<Seq<CertExtensionView>>;

/// The general names that `x509_parser` reads from the contents of a Subject
/// Alternative Name extension; nothing where it cannot read them.
pub uninterp spec fn subject_alt_names(value: Seq<u8>) -> Option<Seq<AltNameView>>;

/// Parses a certificate with `x509_parser`'s `X509Certificate::from_der` and
/// hands out, for each extension in order, the bytes of its object
/// identifier and its contents. The contract only gives the parser's answer
/// its name, `certificate_extensions`.
#[verifier::external_body]
fn parse_extensions(der: &[u8]) -> (r: Option<Vec<CertExtension>>)
    ensures
        match r {
            Some(list) => certificate_extensions(der@) == Some(extension_views(list@)),
            None => certificate_extensions(der@) is None,
        },
{
    let (_, cert) = x509_parser::certificate::X509Certificate::from_der(der).ok()?;
    Some(
        cert.extensions().iter().map(
            |e| CertExtension { oid: e.oid.as_bytes().to_vec(), value: e.value.to_vec() },
        ).collect(),
    )
}

/// Parses the contents of a Subject Alternative Name extension with
/// `x509_parser`'s `SubjectAlternativeName::from_der` and hands out its
/// general names in order: a URI with its text, any other as `Other`. The
/// contract only gives the parser's answer its name, `subject_alt_names`.
#[verifier::external_body]
fn parse_subject_alt_names(value: &[u8]) -> (r: Option<Vec<AltName>>)
    ensures
        match r {
            Some(list) => subject_alt_names(value@) == Some(name_views(list@)),
            None => subject_alt_names(value@) is None,
        },
{
    let (_, san) = x509_parser::extensions::SubjectAlternativeName::from_der(value).ok()?;
    Some(
        san.general_names.iter().map(
            |name| match name {
                x509_parser::extensions::GeneralName::URI(uri) => AltName::Uri(uri.to_string()),
                _ => AltName::Other,
            },
        ).collect(),
    )
}

/// Whether a general name is a URI that begins with `spiffe://`.
pub open spec fn is_spiffe_uri(name: AltNameView) -> bool {
    name matches AltNameView::Uri(uri) && starts_with(uri, scheme_prefix())
}

/// The first URI among `names` that begins with `spiffe://`.
pub open spec fn first_spiffe_uri(names: Seq<AltNameView>) -> Option<Seq<char>>
    decreases names.len(),
{
    if names.len() == 0 {
        None
    } else if is_spiffe_uri(names[0]) {
        Some(names[0]->Uri_0)
    } else {
        first_spiffe_uri(names.drop_first())
    }
}

/// The identity that a list of extensions carries. The extensions are taken
/// in order. One that is a Subject Alternative Name must be readable, and
/// the first URI of it that begins with `spiffe://` is the identity; where
/// it has none, the search goes on with the extensions after it.
pub open spec fn identity_in_extensions(extensions: Seq<CertExtensionView>) -> Option<Seq<char>>
    decreases extensions.len(),
{
    if extensions.len() == 0 {
        None
    } else if extensions[0].oid == san_oid() {
        match subject_alt_names(extensions[0].value) {
            None => None,
            Some(names) => match first_spiffe_uri(names) {
                Some(uri) => Some(uri),
                None => identity_in_extensions(extensions.drop_first()),
            },
        }
    } else {
        identity_in_extensions(extensions.drop_first())
    }
}

/// The identity that a DER certificate carries, if it carries one.
pub open spec fn certificate_identity(der: Seq<u8>) -> Option<Seq<char>> {
    match certificate_extensions(der) {
        Some(extensions) => identity_in_extensions(extensions),
        None => None,
    }
}

/// The trust domain of an identity URI: what stands between `spiffe://` and
/// the next `/`, or the end.
pub open spec fn uri_trust_domain(uri: Seq<char>) -> Seq<char> {
    text_before(uri.skip(9), '/')
}

/// The identity that a peer is accepted under: the identity of its
/// certificate, where that is of the expected trust domain.
pub open spec fn accepted_identity(der: Seq<u8>, expected_trust_domain: Seq<char>) -> Option<
    Seq<char>,
> {
    match certificate_identity(der) {
        Some(uri) => if uri_trust_domain(uri) == expected_trust_domain {
            Some(uri)
        } else {
            None
        },
        None => None,
    }
}

/// Whether `e` is how the identity check refuses a certificate for an
/// expected trust domain: as a certificate without an identity, or as one
/// whose identity is of another trust domain, with the domain that was
/// expected and the domain that was found.
pub open spec fn identity_refused_with(
    e: SpiffeError,
    der: Seq<u8>,
    expected_trust_domain: Seq<char>,
) -> bool {
    match certificate_identity(der) {
        None => e is ValidationError,
        Some(uri) => {
            &&& uri_trust_domain(uri) != expected_trust_domain
            &&& e matches SpiffeError::TrustDomainMismatch { expected, actual }
            &&& expected@ == expected_trust_domain
            &&& actual@ == uri_trust_domain(uri)
        },
    }
}

/// An identity found in a certificate begins with `spiffe://`.
pub proof fn lemma_identity_has_prefix(der: Seq<u8>)
    ensures
        certificate_identity(der) matches Some(uri) ==> starts_with(uri, scheme_prefix()),
{
    if let Some(extensions) = certificate_extensions(der) {
        lemma_extension_identity_has_prefix(extensions);
    }
}

proof fn lemma_extension_identity_has_prefix(extensions: Seq<CertExtensionView>)
    ensures
        identity_in_extensions(extensions) matches Some(uri) ==> starts_with(uri, scheme_prefix()),
    decreases extensions.len(),
{
    if extensions.len() > 0 {
        lemma_extension_identity_has_prefix(extensions.drop_first());
        if extensions[0].oid == san_oid() {
            if let Some(names) = subject_alt_names(extensions[0].value) {
                lemma_first_uri_has_prefix(names);
            }
        }
    }
}

proof fn lemma_first_uri_has_prefix(names: Seq<AltNameView>)
    ensures
        first_spiffe_uri(names) matches Some(uri) ==> starts_with(uri, scheme_prefix()),
    decreases names.len(),
{
    if names.len() > 0 {
        lemma_first_uri_has_prefix(names.drop_first());
    }
}

/// The text form of an identity name has the trust domain of the name:
/// where the trust domain holds no `/` and the path begins with one, the
/// trust domain read from `spiffe://<domain><path>` is `domain`.
pub proof fn text_form_has_its_trust_domain(domain: Seq<char>, path: Seq<char>)
    requires
        !domain.contains('/'),
        path.len() > 0,
        path[0] == '/',
    ensures
        starts_with(canonical_text(domain, path), scheme_prefix()),
        uri_trust_domain(canonical_text(domain, path)) == domain,
{
    crate::spiffe_id::lemma_scheme_prefix();
    let text = canonical_text(domain, path);
    let rest = text.skip(9);
    assert(text.subrange(0, 9) =~= scheme_prefix());
    assert(rest =~= domain + path);
    rest.index_of_first_ensures('/');
    assert(rest[domain.len() as int] == '/');
    let first = rest.index_of_first('/')->0;
    if first < domain.len() {
        assert(domain[first] == rest[first]);
        assert(domain.contains('/'));
    }
    assert(rest.take(domain.len() as int) =~= domain);
}

/// The first URI among `names` that begins with `spiffe://`.
pub fn spiffe_uri_among(names: &Vec<AltName>) -> (r: Option<String>)
    ensures
        match r {
            Some(uri) => first_spiffe_uri(name_views(names@)) == Some(uri@),
            None => first_spiffe_uri(name_views(names@)) is None,
        },
{
    let prefix = chars_of("spiffe://");
    let ghost all = name_views(names@);
    let mut i: usize = 0;
    assert(all.skip(0) =~= all);
    while i < names.len()
        invariant
            i <= names.len(),
            all == name_views(names@),
            prefix@ == scheme_prefix(),
            first_spiffe_uri(all) == first_spiffe_uri(all.skip(i as int)),
        decreases names.len() - i,
    {
        assert(all.skip(i as int).drop_first() =~= all.skip(i + 1));
        match &names[i] {
            AltName::Uri(uri) => {
                if has_prefix(&chars_of(uri.as_str()), &prefix) {
                    return Some(uri.clone());
                }
            },
            AltName::Other => {},
        }
        i = i + 1;
    }
    None
}

/// The identity that a list of extensions carries.
pub fn identity_from_extensions(extensions: &Vec<CertExtension>) -> (r: Result<String, SpiffeError>)
    ensures
        match r {
            Ok(uri) => identity_in_extensions(extension_views(extensions@)) == Some(uri@),
            Err(e) => identity_in_extensions(extension_views(extensions@)) is None
                && e is ValidationError,
        },
{
    let ghost all = extension_views(extensions@);
    let san: [u8; 3] = [0x55, 0x1d, 0x11];
    let mut i: usize = 0;
    assert(all.skip(0) =~= all);
    while i < extensions.len()
        invariant
            i <= extensions.len(),
            all == extension_views(extensions@),
            san@ == san_oid(),
            identity_in_extensions(all) == identity_in_extensions(all.skip(i as int)),
        decreases extensions.len() - i,
    {
        assert(all.skip(i as int).drop_first() =~= all.skip(i + 1));
        if bytes_equal(extensions[i].oid.as_slice(), san.as_slice()) {
            let names = match parse_subject_alt_names(extensions[i].value.as_slice()) {
                Some(names) => names,
                None => {
                    return Err(SpiffeError::ValidationError(String::from_str("Failed to parse SAN")));
                },
            };
            match spiffe_uri_among(&names) {
                Some(uri) => {
                    return Ok(uri);
                },
                None => {},
            }
        }
        i = i + 1;
    }
    Err(SpiffeError::ValidationError(String::from_str("No SPIFFE ID found in certificate")))
}

/// The identity that a DER certificate carries: the first URI of its
/// Subject Alternative Name that begins with `spiffe://`. It fails where the
/// certificate cannot be read, where its Subject Alternative Name cannot be
/// read, and where there is no such URI.
pub fn extract_spiffe_id(cert: &[u8]) -> (r: Result<String, SpiffeError>)
    ensures
        match r {
            Ok(uri) => certificate_identity(cert@) == Some(uri@),
            Err(e) => certificate_identity(cert@) is None && e is ValidationError,
        },
{
    match parse_extensions(cert) {
        Some(extensions) => identity_from_extensions(&extensions),
        None => Err(SpiffeError::ValidationError(String::from_str("Failed to parse certificate"))),
    }
}

/// Checks that an identity URI is of the expected trust domain. The URI
/// must begin with `spiffe://`; its trust domain is what follows, up to
/// the next `/`.
pub fn validate_spiffe_id(spiffe_id: &str, expected_trust_domain: &str) -> (r: Result<
    (),
    SpiffeError,
>)
    ensures
        match r {
            Ok(()) => starts_with(spiffe_id@, scheme_prefix()) && uri_trust_domain(spiffe_id@)
                == expected_trust_domain@,
            Err(SpiffeError::InvalidSpiffeId(_)) => !starts_with(spiffe_id@, scheme_prefix()),
            Err(SpiffeError::TrustDomainMismatch { expected, actual }) => {
                &&& starts_with(spiffe_id@, scheme_prefix())
                &&& uri_trust_domain(spiffe_id@) != expected_trust_domain@
                &&& expected@ == expected_trust_domain@
                &&& actual@ == uri_trust_domain(spiffe_id@)
            },
            Err(SpiffeError::ValidationError(_)) => false,
        },
{
    let chars = chars_of(spiffe_id);
    let prefix = chars_of("spiffe://");
    proof {
        crate::spiffe_id::lemma_scheme_prefix();
    }
    if !has_prefix(&chars, &prefix) {
        return Err(SpiffeError::InvalidSpiffeId(String::from_str("Invalid SPIFFE ID format")));
    }
    let rest = spiffe_id.substring_char(9, chars.len());
    let rest_chars = chars_of(rest);
    let trust_domain = match find_char(&rest_chars, '/') {
        Some(end) => rest.substring_char(0, end),
        None => rest,
    };
    if !str_equal(trust_domain, expected_trust_domain) {
        return Err(
            SpiffeError::TrustDomainMismatch {
                expected: expected_trust_domain.to_owned(),
                actual: trust_domain.to_owned(),
            },
        );
    }
    Ok(())
}

/// The identity of a peer certificate, checked against the expected trust
/// domain and, where one is given, against the one identity expected. A
/// certificate without an identity is refused with `ValidationError`, an
/// identity of another trust domain with `TrustDomainMismatch`, which names
/// the domain expected and the domain found, and another identity than the
/// one expected with `ValidationError`.
pub fn verify_spiffe_certificate(
    cert_der: &[u8],
    expected_trust_domain: &str,
    expected_spiffe_id: Option<&str>,
) -> (r: Result<String, SpiffeError>)
    ensures
        match r {
            Ok(uri) => accepted_identity(cert_der@, expected_trust_domain@) == Some(uri@) && (
            expected_spiffe_id matches Some(expected) ==> uri@ == expected@),
            Err(e) => match accepted_identity(cert_der@, expected_trust_domain@) {
                None => identity_refused_with(e, cert_der@, expected_trust_domain@),
                Some(uri) => e is ValidationError && (expected_spiffe_id matches Some(expected)
                    && uri != expected@),
            },
        },
{
    let spiffe_id = extract_spiffe_id(cert_der)?;
    proof {
        lemma_identity_has_prefix(cert_der@);
    }
    validate_spiffe_id(spiffe_id.as_str(), expected_trust_domain)?;
    match expected_spiffe_id {
        Some(expected) => {
            if !str_equal(spiffe_id.as_str(), expected) {
                return Err(SpiffeError::ValidationError(String::from_str("SPIFFE ID mismatch")));
            }
        },
        None => {},
    }
    Ok(spiffe_id)
}

} // verus!
