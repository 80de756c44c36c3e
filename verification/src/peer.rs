//! The check of a peer during a TLS handshake: its identity first, then its
//! certificate chain, and acceptance only if both hold.

use vstd::prelude::*;
use vstd::string::*;
use crate::bundle::{authority_ders, Bundle};
use crate::bytes::byte_views;
use crate::error::SpiffeError;
use crate::identity::{accepted_identity, identity_refused_with, verify_spiffe_certificate};
use crate::bytes::copy_byte_list;
use crate::roots::{all_roots_readable, anchors_of, build_root_store};
use crate::tls::{chain_trusted, verify_chain};

verus! {

/// A signature scheme of a TLS handshake that peers may use.
#[derive(Clone, Copy, Debug, PartialEq, Eq, Structural)]
pub enum SignatureScheme {
    /// RSA-PSS with SHA-256.
    RsaPssSha256,
    /// RSA-PSS with SHA-384.
    RsaPssSha384,
    /// RSA-PSS with SHA-512.
    RsaPssSha512,
    /// ECDSA on P-256 with SHA-256.
    EcdsaNistp256Sha256,
    /// ECDSA on P-384 with SHA-384.
    EcdsaNistp384Sha384,
}

impl SignatureScheme {
    /// The number of the scheme in the TLS registry.
    pub open spec fn spec_code(self) -> u16 {
        match self {
            SignatureScheme::RsaPssSha256 => 0x0804,
            SignatureScheme::RsaPssSha384 => 0x0805,
            SignatureScheme::RsaPssSha512 => 0x0806,
            SignatureScheme::EcdsaNistp256Sha256 => 0x0403,
            SignatureScheme::EcdsaNistp384Sha384 => 0x0503,
        }
    }

    /// The number of the scheme in the TLS registry.
    pub fn code(self) -> (r: u16)
        ensures
            r == self.spec_code(),
    {
        match self {
            SignatureScheme::RsaPssSha256 => 0x0804,
            SignatureScheme::RsaPssSha384 => 0x0805,
            SignatureScheme::RsaPssSha512 => 0x0806,
            SignatureScheme::EcdsaNistp256Sha256 => 0x0403,
            SignatureScheme::EcdsaNistp384Sha384 => 0x0503,
        }
    }

    /// The scheme with the given number, if peers may use it. The schemes
    /// with RSA PKCS#1 v1.5 or SHA-1 have no number here.
    pub fn from_code(code: u16) -> (r: Option<SignatureScheme>)
        ensures
            match r {
                Some(scheme) => scheme.spec_code() == code,
                None => forall|scheme: SignatureScheme| scheme.spec_code() != code,
            },
    {
        if code == 0x0804 {
            Some(SignatureScheme::RsaPssSha256)
        } else if code == 0x0805 {
            Some(SignatureScheme::RsaPssSha384)
        } else if code == 0x0806 {
            Some(SignatureScheme::RsaPssSha512)
        } else if code == 0x0403 {
            Some(SignatureScheme::EcdsaNistp256Sha256)
        } else if code == 0x0503 {
            Some(SignatureScheme::EcdsaNistp384Sha384)
        } else {
            None
        }
    }
}

/// The signature schemes that peers may use, in order of preference.
pub open spec fn allowed_schemes() -> Seq<SignatureScheme> {
    seq![
        SignatureScheme::RsaPssSha256,
        SignatureScheme::RsaPssSha384,
        SignatureScheme::RsaPssSha512,
        SignatureScheme::EcdsaNistp256Sha256,
        SignatureScheme::EcdsaNistp384Sha384,
    ]
}

/// The signature schemes that peers may use, in order of preference.
pub fn supported_verify_schemes() -> (r: Vec<SignatureScheme>)
    ensures
        r@ == allowed_schemes(),
{
    let mut schemes: Vec<SignatureScheme> = Vec::new();
    schemes.push(SignatureScheme::RsaPssSha256);
    schemes.push(SignatureScheme::RsaPssSha384);
    schemes.push(SignatureScheme::RsaPssSha512);
    schemes.push(SignatureScheme::EcdsaNistp256Sha256);
    schemes.push(SignatureScheme::EcdsaNistp384Sha384);
    schemes
}

/// The identity under which a peer is accepted at `now_secs`: the identity
/// of its certificate, where that identity is of the expected trust domain
/// and where, besides, the TLS engine reads every root certificate and
/// verifies the chain of the peer against them. A good chain with an
/// identity of another domain does not pass, nor does a good identity with
/// a chain that does not verify.
pub open spec fn peer_accepted(
    trust_domain: Seq<char>,
    roots: Seq<Seq<u8>>,
    end_entity: Seq<u8>,
    intermediates: Seq<Seq<u8>>,
    now_secs: u64,
) -> Option<Seq<char>> {
    match accepted_identity(end_entity, trust_domain) {
        Some(uri) => if all_roots_readable(roots) && chain_trusted(
            anchors_of(roots),
            end_entity,
            intermediates,
            now_secs,
        ) {
            Some(uri)
        } else {
            None
        },
        None => None,
    }
}

/// Whether `e` is how a peer is refused: as the identity check refuses it
/// where that check fails, and with `ValidationError` where the identity
/// is good and the chain does not verify.
pub open spec fn peer_refused_with(e: SpiffeError, trust_domain: Seq<char>, end_entity: Seq<u8>) -> bool {
    if accepted_identity(end_entity, trust_domain) is None {
        identity_refused_with(e, end_entity, trust_domain)
    } else {
        e is ValidationError
    }
}

/// What is made of the two checks of a peer: the identity, if the identity
/// check gave one and the chain check passed. The failure of the identity
/// check comes first.
pub fn decide_peer(identity: Result<String, SpiffeError>, chain: Result<(), String>) -> (r: Result<
    String,
    SpiffeError,
>)
    ensures
        r is Ok <==> identity is Ok && chain is Ok,
        r matches Ok(uri) ==> identity == Ok::<String, SpiffeError>(uri),
        identity matches Err(e) ==> r == Err::<String, SpiffeError>(e),
        identity is Ok && chain is Err ==> (r matches Err(e) && e is ValidationError),
{
    match identity {
        Err(e) => Err(e),
        Ok(uri) => match chain {
            Ok(()) => Ok(uri),
            Err(text) => {
                let mut message = String::from_str("Certificate chain verification failed: ");
                message.append(text.as_str());
                Err(SpiffeError::ValidationError(message))
            },
        },
    }
}

/// A capability to verify the certificate of a peer.
pub trait CertificateVerifier {
    /// The identity of the peer, if the peer is accepted at `now_secs`
    /// seconds after the Unix epoch.
    fn verify_server_cert(
        &self,
        end_entity: &[u8],
        intermediates: &Vec<Vec<u8>>,
        now_secs: u64,
    ) -> Result<String, SpiffeError>;
}

/// The verifier of peers of one trust domain against a list of root
/// certificates.
#[derive(Debug)]
pub struct PeerVerifier {
    trust_domain: String,
    roots: Vec<Vec<u8>>,
}

impl PeerVerifier {
    /// The trust domain that peers must be of.
    pub closed spec fn expected_domain(&self) -> Seq<char> {
        self.trust_domain@
    }

    /// The root certificates that chains must lead to.
    pub closed spec fn root_ders(&self) -> Seq<Seq<u8>> {
        byte_views(self.roots@)
    }

    /// The identity under which this verifier accepts a peer at `now_secs`.
    pub open spec fn accepts(
        &self,
        end_entity: Seq<u8>,
        intermediates: Seq<Seq<u8>>,
        now_secs: u64,
    ) -> Option<Seq<char>> {
        peer_accepted(self.expected_domain(), self.root_ders(), end_entity, intermediates, now_secs)
    }

    /// A verifier of peers of `trust_domain` against `roots`.
    pub fn new(trust_domain: String, roots: Vec<Vec<u8>>) -> (verifier: Self)
        ensures
            verifier.expected_domain() == trust_domain@,
            verifier.root_ders() == byte_views(roots@),
    {
        PeerVerifier { trust_domain, roots }
    }

    /// The trust domain that peers must be of.
    pub fn trust_domain(&self) -> (r: &str)
        ensures
            r@ == self.expected_domain(),
    {
        self.trust_domain.as_str()
    }

    /// The root certificates that chains must lead to.
    pub fn roots(&self) -> (r: &Vec<Vec<u8>>)
        ensures
            byte_views(r@) == self.root_ders(),
    {
        &self.roots
    }

    /// The first check: the identity of the certificate, which must be of
    /// the trust domain of the verifier.
    pub fn verify_identity(&self, end_entity: &[u8]) -> (r: Result<String, SpiffeError>)
        ensures
            match r {
                Ok(uri) => accepted_identity(end_entity@, self.expected_domain()) == Some(uri@),
                Err(e) => accepted_identity(end_entity@, self.expected_domain()) is None
                    && identity_refused_with(e, end_entity@, self.expected_domain()),
            },
    {
        verify_spiffe_certificate(end_entity, self.trust_domain.as_str(), None)
    }

    /// The second check: the chain of the certificate, against the roots,
    /// at `now_secs`. The name of the peer plays no part in it.
    pub fn verify_chain(&self, end_entity: &[u8], intermediates: &Vec<Vec<u8>>, now_secs: u64) -> (r:
        Result<(), String>)
        ensures
            r is Ok <==> all_roots_readable(self.root_ders()) && chain_trusted(
                anchors_of(self.root_ders()),
                end_entity@,
                byte_views(intermediates@),
                now_secs,
            ),
    {
        let roots = match build_root_store(&self.roots) {
            Ok(store) => store,
            Err(_) => {
                return Err(String::from_str("Failed to read the root certificates"));
            },
        };
        verify_chain(&roots, end_entity, intermediates, now_secs)
    }
}

impl Clone for PeerVerifier {
    fn clone(&self) -> (r: Self)
        ensures
            r.expected_domain() == self.expected_domain(),
            r.root_ders() == self.root_ders(),
    {
        PeerVerifier { trust_domain: self.trust_domain.clone(), roots: copy_byte_list(&self.roots) }
    }
}

impl CertificateVerifier for PeerVerifier {
    /// Both checks, the identity first. The peer is accepted only if both
    /// pass. A peer without an identity is refused with `ValidationError`,
    /// one of another trust domain with `TrustDomainMismatch`, which names
    /// the domain expected and the domain found, and one whose chain does
    /// not verify with `ValidationError`.
    fn verify_server_cert(
        &self,
        end_entity: &[u8],
        intermediates: &Vec<Vec<u8>>,
        now_secs: u64,
    ) -> (r: Result<String, SpiffeError>)
        ensures
            match r {
                Ok(uri) => self.accepts(end_entity@, byte_views(intermediates@), now_secs) == Some(
                    uri@,
                ),
                Err(e) => self.accepts(end_entity@, byte_views(intermediates@), now_secs) is None
                    && peer_refused_with(e, self.expected_domain(), end_entity@),
            },
    {
        let identity = self.verify_identity(end_entity);
        if identity.is_err() {
            return identity;
        }
        let chain = self.verify_chain(end_entity, intermediates, now_secs);
        decide_peer(identity, chain)
    }
}

/// The verifier of peers of one trust domain, against the authorities of a
/// bundle.
#[derive(Debug)]
pub struct SpiffeVerifier {
    /// The trust domain that peers must be of.
    pub trust_domain: String,
    /// The bundle whose X.509 authorities are the roots of trust.
    pub bundle: Bundle,
}

impl SpiffeVerifier {
    /// A verifier of peers of `trust_domain` against `bundle`.
    pub fn new(trust_domain: String, bundle: Bundle) -> (verifier: Self)
        ensures
            verifier.trust_domain == trust_domain,
            verifier.bundle == bundle,
    {
        SpiffeVerifier { trust_domain, bundle }
    }

    /// The verifier of the same trust domain against the X.509 authorities
    /// of the bundle.
    pub fn peer_verifier(&self) -> (verifier: PeerVerifier)
        ensures
            verifier.expected_domain() == self.trust_domain@,
            verifier.root_ders() == authority_ders(self.bundle.x509_authorities@),
    {
        PeerVerifier::new(self.trust_domain.clone(), self.bundle.ca_certificates())
    }
}

impl CertificateVerifier for SpiffeVerifier {
    /// Both checks, the identity first, against the X.509 authorities of
    /// the bundle. The peer is accepted only if both pass. A peer without
    /// an identity is refused with `ValidationError`, one of another trust
    /// domain with `TrustDomainMismatch`, which names the domain expected
    /// and the domain found, and one whose chain does not verify with
    /// `ValidationError`.
    fn verify_server_cert(
        &self,
        end_entity: &[u8],
        intermediates: &Vec<Vec<u8>>,
        now_secs: u64,
    ) -> (r: Result<String, SpiffeError>)
        ensures
            match r {
                Ok(uri) => peer_accepted(
                    self.trust_domain@,
                    authority_ders(self.bundle.x509_authorities@),
                    end_entity@,
                    byte_views(intermediates@),
                    now_secs,
                ) == Some(uri@),
                Err(e) => peer_accepted(
                    self.trust_domain@,
                    authority_ders(self.bundle.x509_authorities@),
                    end_entity@,
                    byte_views(intermediates@),
                    now_secs,
                ) is None && peer_refused_with(e, self.trust_domain@, end_entity@),
            },
    {
        self.peer_verifier().verify_server_cert(end_entity, intermediates, now_secs)
    }
}

/// A peer is accepted only if both checks pass: an identity of another
/// trust domain is refused whatever the chain, a chain that does not verify
/// is refused whatever the identity, and an accepted peer has both, with
/// the identity of its certificate.
pub proof fn peer_accepted_needs_both(
    trust_domain: Seq<char>,
    roots: Seq<Seq<u8>>,
    end_entity: Seq<u8>,
    intermediates: Seq<Seq<u8>>,
    now_secs: u64,
)
    ensures
        accepted_identity(end_entity, trust_domain) is None ==> peer_accepted(
            trust_domain,
            roots,
            end_entity,
            intermediates,
            now_secs,
        ) is None,
        !chain_trusted(anchors_of(roots), end_entity, intermediates, now_secs) ==> peer_accepted(
            trust_domain,
            roots,
            end_entity,
            intermediates,
            now_secs,
        ) is None,
        peer_accepted(trust_domain, roots, end_entity, intermediates, now_secs) is Some <==> (
        accepted_identity(end_entity, trust_domain) is Some && all_roots_readable(roots)
            && chain_trusted(anchors_of(roots), end_entity, intermediates, now_secs)),
        peer_accepted(trust_domain, roots, end_entity, intermediates, now_secs) is Some
            ==> peer_accepted(trust_domain, roots, end_entity, intermediates, now_secs)
            == accepted_identity(end_entity, trust_domain),
{
}

} // verus!
