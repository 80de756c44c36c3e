//! The TLS engine behind this library: root stores, chain verification and
//! the assembly of client and server configurations.

use vstd::prelude::*;
use vstd::string::*;
use std::sync::Arc;
use rustls::pki_types::{CertificateDer, PrivateKeyDer, UnixTime};
use crate::bytes::byte_views;

verus! {

/// A set of trust anchors of the TLS engine.
#[verifier::external_type_specification]
#[verifier::external_body]
pub struct ExRootCertStore(rustls::RootCertStore);

/// A client configuration of the TLS engine.
#[verifier::external_type_specification]
#[verifier::external_body]
pub struct ExClientConfig(rustls::ClientConfig);

/// A server configuration of the TLS engine.
#[verifier::external_type_specification]
#[verifier::external_body]
pub struct ExServerConfig(rustls::ServerConfig);

/// An initiator of outbound TLS connections.
#[verifier::external_type_specification]
#[verifier::external_body]
pub struct ExTlsConnector(tokio_rustls::TlsConnector);

/// An acceptor of inbound TLS connections.
#[verifier::external_type_specification]
#[verifier::external_body]
pub struct ExTlsAcceptor(tokio_rustls::TlsAcceptor);

/// A trust anchor as a mathematical value: the three DER values that the
/// TLS engine keeps of a root certificate.
pub struct TrustAnchorView {
    /// The subject of the root.
    pub subject: Seq<u8>,
    /// The public key of the root, with its algorithm.
    pub subject_public_key_info: Seq<u8>,
    /// The name constraints of the root, if it has any.
    pub name_constraints: Option<Seq<u8>>,
}

/// The trust anchors that a root store holds, in the order in which they
/// were added.
pub uninterp spec fn root_anchors(store: rustls::RootCertStore) -> Seq<TrustAnchorView>;

/// The trust anchor that the TLS engine makes of a DER certificate; nothing
/// where it cannot read the certificate as a root.
pub uninterp spec fn trust_anchor_of(der: Seq<u8>) -> Option<TrustAnchorView>;

/// Whether the TLS engine, with the `ring` provider, verifies that an
/// end-entity certificate chains to one of the anchors through the
/// intermediates, at `now_secs` seconds after the Unix epoch. The name of
/// the peer plays no part in it. The check is the engine's check of server
/// certificates, and it is used for peers in either direction: a
/// certificate that lists extended key usages must list server
/// authentication among them, also where it is presented by a client.
pub uninterp spec fn chain_trusted(
    anchors: Seq<TrustAnchorView>,
    end_entity: Seq<u8>,
    intermediates: Seq<Seq<u8>>,
    now_secs: u64,
) -> bool;

/// Whether the TLS engine recognizes a DER private key as PKCS#8, PKCS#1 or
/// SEC1 and, with the `ring` provider, accepts a certificate chain with it
/// as the identity of a client.
pub uninterp spec fn client_identity_accepted(chain: Seq<Seq<u8>>, key: Seq<u8>) -> bool;

/// Whether the TLS engine recognizes a DER private key as PKCS#8, PKCS#1 or
/// SEC1 and, with the `ring` provider, accepts a certificate chain with it
/// as the identity of a server.
pub uninterp spec fn server_identity_accepted(chain: Seq<Seq<u8>>, key: Seq<u8>) -> bool;

/// What a client configuration is made of: the trust anchors that its
/// verifier of servers holds, and the certificate chain that it presents. A
/// configuration made here verifies a server with the engine's own
/// verifier: the chain of the server must lead to one of the anchors, and
/// the certificate must be valid for the host name that the connection is
/// made to. It does not look at the identity URI of the certificate.
pub uninterp spec fn client_config_parts(config: rustls::ClientConfig) -> (
    Seq<TrustAnchorView>,
    Seq<Seq<u8>>,
);

/// What a server configuration is made of: the trust anchors that its
/// verifier of clients holds, and the certificate chain that it presents. A
/// configuration made here requires a certificate of each client and
/// verifies it with the engine's own verifier: the chain of the client must
/// lead to one of the anchors. It does not look at the identity URI of the
/// certificate.
pub uninterp spec fn server_config_parts(config: rustls::ServerConfig) -> (
    Seq<TrustAnchorView>,
    Seq<Seq<u8>>,
);

/// The client configuration that a connector works under.
pub uninterp spec fn connector_config(connector: tokio_rustls::TlsConnector) -> Arc<
    rustls::ClientConfig,
>;

/// The server configuration that an acceptor works under.
pub uninterp spec fn acceptor_config(acceptor: tokio_rustls::TlsAcceptor) -> Arc<
    rustls::ServerConfig,
>;

/// `rustls::RootCertStore::empty`: a root store without anchors.
#[verifier::external_body]
pub(crate) fn empty_root_store() -> (store: rustls::RootCertStore)
    ensures
        root_anchors(store) == Seq::<TrustAnchorView>::empty(),
{
    rustls::RootCertStore::empty()
}

/// `rustls::RootCertStore::add`: the engine reads the certificate as a
/// trust anchor and puts the anchor at the end of the store, or fails and
/// leaves the store as it was. An error comes back as its text.
#[verifier::external_body]
pub(crate) fn add_root(store: &mut rustls::RootCertStore, der: &Vec<u8>) -> (r: Result<(), String>)
    ensures
        match r {
            Ok(()) => trust_anchor_of(der@) is Some && root_anchors(*final(store)) == root_anchors(
                *old(store),
            ).push(trust_anchor_of(der@)->0),
            Err(_) => trust_anchor_of(der@) is None && root_anchors(*final(store)) == root_anchors(
                *old(store),
            ),
        },
{
    store.add(CertificateDer::from(der.as_slice())).map_err(|e| e.to_string())
}

/// `rustls::client::verify_server_cert_signed_by_trust_anchor`, on the
/// end-entity certificate as `rustls::server::ParsedCertificate` reads it,
/// with the signature algorithms of the `ring` provider. It checks the
/// chain and the validity at `now_secs`, not the name of the peer. An error
/// comes back as its text.
#[verifier::external_body]
pub(crate) fn verify_chain(
    roots: &rustls::RootCertStore,
    end_entity: &[u8],
    intermediates: &Vec<Vec<u8>>,
    now_secs: u64,
) -> (r: Result<(), String>)
    ensures
        r is Ok <==> chain_trusted(
            root_anchors(*roots),
            end_entity@,
            byte_views(intermediates@),
            now_secs,
        ),
{
    let leaf = CertificateDer::from(end_entity);
    let parsed = rustls::server::ParsedCertificate::try_from(&leaf).map_err(|e| e.to_string())?;
    let others: Vec<_> = intermediates.iter().map(|c| CertificateDer::from(c.as_slice())).collect();
    let now = UnixTime::since_unix_epoch(core::time::Duration::from_secs(now_secs));
    let algorithms = rustls::crypto::ring::default_provider().signature_verification_algorithms.all;
    rustls::client::verify_server_cert_signed_by_trust_anchor(&parsed, roots, &others, now, algorithms)
        .map_err(|e| e.to_string())
}

/// Builds a `rustls::ClientConfig` with the `ring` provider and the safe
/// default protocol versions: `with_root_certificates` on the store, then
/// `with_client_auth_cert` on the chain and the key, the key read by
/// `PrivateKeyDer::try_from`. Whether it succeeds depends on the chain and
/// the key alone. The configuration holds the anchors of the store in the
/// engine's own verifier of servers, and presents the chain. An error
/// comes back as its text.
#[verifier::external_body]
pub(crate) fn client_config(
    roots: rustls::RootCertStore,
    chain: &Vec<Vec<u8>>,
    key: &Vec<u8>,
) -> (r: Result<rustls::ClientConfig, String>)
    ensures
        r is Ok <==> client_identity_accepted(byte_views(chain@), key@),
        r matches Ok(config) ==> client_config_parts(config) == (
            root_anchors(roots),
            byte_views(chain@),
        ),
{
    let certs = chain.iter().map(|c| CertificateDer::from(c.clone())).collect();
    let key = PrivateKeyDer::try_from(key.clone()).map_err(|e| e.to_string())?;
    let provider = Arc::new(rustls::crypto::ring::default_provider());
    let builder = rustls::ClientConfig::builder_with_provider(provider)
        .with_safe_default_protocol_versions()
        .map_err(|e| e.to_string())?;
    builder.with_root_certificates(roots).with_client_auth_cert(certs, key).map_err(|e| e.to_string())
}

/// Builds a `rustls::ServerConfig` with the `ring` provider and the safe
/// default protocol versions: a `WebPkiClientVerifier` on the store, which
/// requires a client certificate, then `with_single_cert` on the chain and
/// the key, the key read by `PrivateKeyDer::try_from`. The verifier needs a
/// store that is not empty; beyond that, whether it succeeds depends on the
/// chain and the key alone. The configuration holds the anchors of the
/// store in the engine's own verifier of clients, and presents the chain.
/// An error comes back as its text.
#[verifier::external_body]
pub(crate) fn server_config(
    roots: rustls::RootCertStore,
    chain: &Vec<Vec<u8>>,
    key: &Vec<u8>,
) -> (r: Result<rustls::ServerConfig, String>)
    ensures
        (r is Ok) == (root_anchors(roots).len() > 0 && server_identity_accepted(
            byte_views(chain@),
            key@,
        )),
        r matches Ok(config) ==> server_config_parts(config) == (
            root_anchors(roots),
            byte_views(chain@),
        ),
{
    let certs = chain.iter().map(|c| CertificateDer::from(c.clone())).collect();
    let key = PrivateKeyDer::try_from(key.clone()).map_err(|e| e.to_string())?;
    let provider = Arc::new(rustls::crypto::ring::default_provider());
    let verifier = rustls::server::WebPkiClientVerifier::builder_with_provider(roots.into(), provider.clone())
        .build()
        .map_err(|e| e.to_string())?;
    let builder = rustls::ServerConfig::builder_with_provider(provider)
        .with_safe_default_protocol_versions()
        .map_err(|e| e.to_string())?;
    builder.with_client_cert_verifier(verifier).with_single_cert(certs, key).map_err(|e| e.to_string())
}

/// `tokio_rustls::TlsConnector::from` on a client configuration: the
/// connector keeps the handle that it is given.
#[verifier::external_body]
pub(crate) fn connector_from(config: Arc<rustls::ClientConfig>) -> (connector:
    tokio_rustls::TlsConnector)
    ensures
        connector_config(connector) == config,
{
    tokio_rustls::TlsConnector::from(config)
}

/// `tokio_rustls::TlsAcceptor::from` on a server configuration: the
/// acceptor keeps the handle that it is given.
#[verifier::external_body]
pub(crate) fn acceptor_from(config: Arc<rustls::ServerConfig>) -> (acceptor:
    tokio_rustls::TlsAcceptor)
    ensures
        acceptor_config(acceptor) == config,
{
    tokio_rustls::TlsAcceptor::from(config)
}

/// Another handle on a shared value: `Arc::clone`. The new handle is on the
/// same value as the old one.
#[verifier::external_body]
pub(crate) fn share<T>(handle: &Arc<T>) -> (r: Arc<T>)
    ensures
        r == *handle,
{
    handle.clone()
}

} // verus!
