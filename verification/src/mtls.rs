//! Mutual-TLS policy made of one identity document and one trust bundle.
//!
//! A configuration holds two things side by side. The first is a pair of
//! configurations of the TLS engine, made with the engine's own verifiers:
//! they check the chain of a peer against the roots of the bundle, and on
//! outbound connections the host name, but not the identity URI. The second
//! is the verifier of peers, which checks the identity and the chain and no
//! host name. An application that wants every handshake to be decided by
//! identity puts `verify_peer` behind the engine's verifier hooks.

use vstd::prelude::*;
use vstd::string::*;
use std::sync::Arc;
use crate::bytes::{byte_views, copy_byte_list};
use crate::error::{Error, SpiffeError};
use crate::identity::{certificate_identity, extract_spiffe_id};
use crate::spiffe_id::{spec_parse, SpiffeId, SpiffeIdView};
use crate::svid::{expired, X509Svid, X509SvidView};
use crate::time::{clock_reading, Timestamp};
use crate::peer::{peer_refused_with, CertificateVerifier, PeerVerifier};
use crate::roots::{all_roots_readable, anchors_of, build_root_store};
use crate::tls::{
    acceptor_config, acceptor_from, client_config, client_config_parts, client_identity_accepted,
    connector_config, connector_from, server_config, server_config_parts,
    server_identity_accepted, share,
};
use crate::trust_bundle::{TrustBundle, TrustBundleView};

verus! {

/// Whether mutual-TLS policy can be made of a document and a bundle at
/// `now`: the document has not expired, the TLS engine reads every root
/// certificate of the bundle as a trust anchor and there is at least one,
/// and it accepts the chain and key of the document as the identity of a
/// client and of a server.
pub open spec fn policy_can_be_built(svid: X509SvidView, bundle: TrustBundleView, now: Timestamp) -> bool {
    &&& !expired(svid.expiry, now)
    &&& all_roots_readable(bundle.certificates)
    &&& client_identity_accepted(svid.cert_chain, svid.private_key)
    &&& bundle.certificates.len() > 0
    &&& server_identity_accepted(svid.cert_chain, svid.private_key)
}

/// Mutual-TLS configuration of a workload: the engine's configuration for
/// outbound connections, the one for inbound connections, the identity
/// that both present, and the verifier of peers by identity.
pub struct MtlsConfig {
    client_config: Arc<rustls::ClientConfig>,
    server_config: Option<Arc<rustls::ServerConfig>>,
    spiffe_id: SpiffeId,
    peer_verifier: PeerVerifier,
}

impl MtlsConfig {
    /// The identity that the configuration presents.
    pub closed spec fn identity(&self) -> SpiffeIdView {
        self.spiffe_id@
    }

    /// Whether there is a configuration for inbound connections.
    pub closed spec fn has_server_policy(&self) -> bool {
        self.server_config is Some
    }

    /// The verifier of peers that belongs to the configuration.
    pub closed spec fn peer_policy(&self) -> PeerVerifier {
        self.peer_verifier
    }

    /// Whether the configuration is that of a document and a bundle. It
    /// presents the identity of the document. Both engine configurations
    /// hold the trust anchors of the roots of the bundle and present the
    /// chain of the document; they verify with the engine's own verifiers,
    /// by chain and, outbound, by host name. The verifier of peers accepts
    /// peers of the trust domain of the document whose chain leads to a
    /// root of the bundle.
    pub open spec fn made_of(&self, svid: X509SvidView, bundle: TrustBundleView) -> bool {
        &&& self.identity() == svid.spiffe_id
        &&& client_config_parts(*self.client_config_handle()) == (
            anchors_of(bundle.certificates),
            svid.cert_chain,
        )
        &&& self.server_config_handle() matches Some(held) && server_config_parts(*held) == (
            anchors_of(bundle.certificates),
            svid.cert_chain,
        )
        &&& self.has_server_policy()
        &&& self.peer_policy().expected_domain() == svid.spiffe_id.trust_domain
        &&& self.peer_policy().root_ders() == bundle.certificates
    }

    /// What `from_svid_at` gives for a document and a bundle as of `now`: a
    /// configuration of the two if and only if policy can be built, and
    /// else an error that says whether the document had expired or the TLS
    /// engine refused the material.
    pub open spec fn built_as_of(
        r: Result<MtlsConfig, Error>,
        svid: X509SvidView,
        bundle: TrustBundleView,
        now: Timestamp,
    ) -> bool {
        match r {
            Ok(config) => policy_can_be_built(svid, bundle, now) && config.made_of(svid, bundle),
            Err(e) => {
                &&& !policy_can_be_built(svid, bundle, now)
                &&& e is ValidationError <==> expired(svid.expiry, now)
                &&& e is TlsError <==> !expired(svid.expiry, now)
            },
        }
    }

    /// Makes the configuration for both directions of a document and a
    /// bundle, as of `now`. The roots of the bundle are the root of trust
    /// in both directions; the chain and key of the document are presented
    /// in both. The engine's configurations verify with the engine's own
    /// verifiers; the check by identity is the verifier of peers, made for
    /// the trust domain of the document and the roots of the bundle. An
    /// expired document is refused before anything is built.
    pub fn from_svid_at(svid: &X509Svid, trust_bundle: &TrustBundle, now: &Timestamp) -> (r: Result<
        MtlsConfig,
        Error,
    >)
        ensures
            Self::built_as_of(r, svid@, trust_bundle@, *now),
    {
        svid.validate_at(now)?;
        let client = Self::build_client_config(svid, trust_bundle)?;
        let server = Self::build_server_config(svid, trust_bundle)?;
        Ok(
            MtlsConfig {
                client_config: Arc::new(client),
                server_config: Some(Arc::new(server)),
                spiffe_id: svid.spiffe_id().clone(),
                peer_verifier: Self::verifier_for(svid, trust_bundle),
            },
        )
    }

    /// Makes the configuration for both directions of a document and a
    /// bundle, by the system clock: the answer of `from_svid_at` for the
    /// time that the clock gives.
    pub fn from_svid(svid: &X509Svid, trust_bundle: &TrustBundle) -> (r: Result<MtlsConfig, Error>)
        ensures
            exists|now: Timestamp| #[trigger]
                clock_reading(now) && Self::built_as_of(r, svid@, trust_bundle@, now),
    {
        let now = Timestamp::now();
        Self::from_svid_at(svid, trust_bundle, &now)
    }

    /// The verifier of peers for a document and a bundle: peers must be of
    /// the trust domain of the document, and their chain must lead to a root
    /// of the bundle.
    fn verifier_for(svid: &X509Svid, trust_bundle: &TrustBundle) -> (verifier: PeerVerifier)
        ensures
            verifier.expected_domain() == svid@.spiffe_id.trust_domain,
            verifier.root_ders() == trust_bundle@.certificates,
    {
        PeerVerifier::new(
            svid.spiffe_id().trust_domain().to_owned(),
            copy_byte_list(trust_bundle.certificates()),
        )
    }

    /// The chain to present, which must hold a certificate.
    fn convert_cert_chain(chain: &Vec<Vec<u8>>) -> (r: Result<&Vec<Vec<u8>>, Error>)
        ensures
            match r {
                Ok(same) => chain@.len() > 0 && same == chain,
                Err(e) => chain@.len() == 0 && e is TlsError,
            },
    {
        if chain.len() == 0 {
            return Err(Error::tls_error("Certificate chain is empty"));
        }
        Ok(chain)
    }

    /// The key to present, which must not be empty.
    fn convert_private_key(key_der: &Vec<u8>) -> (r: Result<&Vec<u8>, Error>)
        ensures
            match r {
                Ok(same) => key_der@.len() > 0 && same == key_der,
                Err(e) => key_der@.len() == 0 && e is TlsError,
            },
    {
        if key_der.len() == 0 {
            return Err(Error::tls_error("Private key is empty"));
        }
        Ok(key_der)
    }

    /// The engine's configuration for outbound connections: it trusts the
    /// roots of the bundle and presents the document as the client
    /// certificate. It verifies a server with the engine's own verifier,
    /// by chain and host name.
    fn build_client_config(svid: &X509Svid, trust_bundle: &TrustBundle) -> (r: Result<
        rustls::ClientConfig,
        Error,
    >)
        ensures
            r is Ok <==> all_roots_readable(trust_bundle@.certificates) && client_identity_accepted(
                svid@.cert_chain,
                svid@.private_key,
            ),
            r matches Ok(config) ==> client_config_parts(config) == (
                anchors_of(trust_bundle@.certificates),
                svid@.cert_chain,
            ),
            r matches Err(e) ==> e is TlsError,
    {
        let root_store = build_root_store(trust_bundle.certificates())?;
        let chain = Self::convert_cert_chain(svid.cert_chain())?;
        let key = Self::convert_private_key(svid.private_key())?;
        match client_config(root_store, chain, key) {
            Ok(config) => Ok(config),
            Err(text) => {
                let mut message = String::from_str("Failed to create client config: ");
                message.append(text.as_str());
                Err(Error::TlsError(message))
            },
        }
    }

    /// The engine's configuration for inbound connections: it requires a
    /// client certificate that chains to the roots of the bundle, and
    /// presents the document as the server certificate. It verifies a
    /// client with the engine's own verifier, by chain.
    fn build_server_config(svid: &X509Svid, trust_bundle: &TrustBundle) -> (r: Result<
        rustls::ServerConfig,
        Error,
    >)
        ensures
            r is Ok <==> all_roots_readable(trust_bundle@.certificates)
                && trust_bundle@.certificates.len() > 0 && server_identity_accepted(
                svid@.cert_chain,
                svid@.private_key,
            ),
            r matches Ok(config) ==> server_config_parts(config) == (
                anchors_of(trust_bundle@.certificates),
                svid@.cert_chain,
            ),
            r matches Err(e) ==> e is TlsError,
    {
        let root_store = build_root_store(trust_bundle.certificates())?;
        let chain = Self::convert_cert_chain(svid.cert_chain())?;
        let key = Self::convert_private_key(svid.private_key())?;
        match server_config(root_store, chain, key) {
            Ok(config) => Ok(config),
            Err(text) => {
                let mut message = String::from_str("Failed to create server config: ");
                message.append(text.as_str());
                Err(Error::TlsError(message))
            },
        }
    }

    /// The engine's configuration for outbound connections. It verifies a
    /// server by chain and host name, not by identity; `verify_peer` does
    /// the check by identity.
    pub fn client_config(&self) -> (r: Arc<rustls::ClientConfig>)
        ensures
            r == self.client_config_handle(),
    {
        share(&self.client_config)
    }

    /// The configuration for outbound connections, as held.
    pub closed spec fn client_config_handle(&self) -> Arc<rustls::ClientConfig> {
        self.client_config
    }

    /// The configuration for inbound connections, as held.
    pub closed spec fn server_config_handle(&self) -> Option<Arc<rustls::ServerConfig>> {
        self.server_config
    }

    /// The engine's configuration for inbound connections, if there is
    /// one. It verifies a client by chain, not by identity; `verify_peer`
    /// does the check by identity.
    pub fn server_config(&self) -> (r: Option<Arc<rustls::ServerConfig>>)
        ensures
            r == self.server_config_handle(),
            r is Some <==> self.has_server_policy(),
    {
        match &self.server_config {
            Some(config) => Some(share(config)),
            None => None,
        }
    }

    /// The identity that the configuration presents.
    pub fn spiffe_id(&self) -> (r: &SpiffeId)
        ensures
            r@ == self.identity(),
    {
        &self.spiffe_id
    }

    /// The verifier of peers that belongs to the configuration.
    pub fn peer_verifier(&self) -> (r: &PeerVerifier)
        ensures
            *r == self.peer_policy(),
    {
        &self.peer_verifier
    }

    /// Verifies a peer in either direction: its identity must be of the
    /// trust domain of the configuration, and its chain must lead to a root
    /// of the bundle at `now_secs` seconds after the Unix epoch.
    pub fn verify_peer(&self, end_entity: &[u8], intermediates: &Vec<Vec<u8>>, now_secs: u64) -> (r:
        Result<String, SpiffeError>)
        ensures
            match r {
                Ok(uri) => self.peer_policy().accepts(
                    end_entity@,
                    byte_views(intermediates@),
                    now_secs,
                ) == Some(uri@),
                Err(e) => self.peer_policy().accepts(
                    end_entity@,
                    byte_views(intermediates@),
                    now_secs,
                ) is None && peer_refused_with(
                    e,
                    self.peer_policy().expected_domain(),
                    end_entity@,
                ),
            },
    {
        self.peer_verifier.verify_server_cert(end_entity, intermediates, now_secs)
    }

    /// An initiator of outbound connections: it works under the engine's
    /// configuration for outbound connections that this configuration
    /// holds, and so verifies a server by chain and host name, not by
    /// identity.
    pub fn connector(&self) -> (r: tokio_rustls::TlsConnector)
        ensures
            connector_config(r) == self.client_config_handle(),
    {
        connector_from(share(&self.client_config))
    }

    /// An acceptor of inbound connections: it works under the engine's
    /// configuration for inbound connections that this configuration
    /// holds, and so verifies a client by chain, not by identity. It fails
    /// if and only if there is none.
    pub fn acceptor(&self) -> (r: Result<tokio_rustls::TlsAcceptor, Error>)
        ensures
            r is Ok <==> self.has_server_policy(),
            r matches Ok(acceptor) ==> Some(acceptor_config(acceptor)) == self.server_config_handle(),
            r matches Err(e) ==> e is TlsError,
    {
        match &self.server_config {
            Some(config) => Ok(acceptor_from(share(config))),
            None => Err(Error::tls_error("Server configuration not available")),
        }
    }

    /// The protocol versions are fixed when the configuration is made:
    /// there is nothing left to check.
    pub fn verify_tls_version(&self) -> (r: Result<(), Error>)
        ensures
            r is Ok,
    {
        Ok(())
    }

    /// What `update_svid_at` makes of a configuration as of `now`: that of
    /// the new document and the bundle if and only if policy can be built,
    /// and else the configuration as it was, with an error that says
    /// whether the document had expired or the TLS engine refused the
    /// material.
    pub open spec fn updated_as_of(
        r: Result<(), Error>,
        before: MtlsConfig,
        after: MtlsConfig,
        svid: X509SvidView,
        bundle: TrustBundleView,
        now: Timestamp,
    ) -> bool {
        match r {
            Ok(()) => policy_can_be_built(svid, bundle, now) && after.made_of(svid, bundle),
            Err(e) => {
                &&& !policy_can_be_built(svid, bundle, now)
                &&& after == before
                &&& e is ValidationError <==> expired(svid.expiry, now)
                &&& e is TlsError <==> !expired(svid.expiry, now)
            },
        }
    }

    /// Replaces both directions and the identity by those of a new document,
    /// as of `now`. A document that has expired is never installed; where
    /// anything fails, the configuration stays as it was.
    pub fn update_svid_at(&mut self, svid: &X509Svid, trust_bundle: &TrustBundle, now: &Timestamp) -> (r:
        Result<(), Error>)
        ensures
            Self::updated_as_of(r, *old(self), *final(self), svid@, trust_bundle@, *now),
    {
        if svid.is_expired_at(now) {
            return Err(Error::ValidationError(String::from_str("Cannot update with expired SVID")));
        }
        let client = Self::build_client_config(svid, trust_bundle)?;
        let server = Self::build_server_config(svid, trust_bundle)?;
        self.client_config = Arc::new(client);
        self.server_config = Some(Arc::new(server));
        self.spiffe_id = svid.spiffe_id().clone();
        self.peer_verifier = Self::verifier_for(svid, trust_bundle);
        Ok(())
    }

    /// Replaces both directions and the identity by those of a new
    /// document, by the system clock: what `update_svid_at` does for the
    /// time that the clock gives.
    pub fn update_svid(&mut self, svid: &X509Svid, trust_bundle: &TrustBundle) -> (r: Result<
        (),
        Error,
    >)
        ensures
            exists|now: Timestamp| #[trigger]
                clock_reading(now) && Self::updated_as_of(
                    r,
                    *old(self),
                    *final(self),
                    svid@,
                    trust_bundle@,
                    now,
                ),
    {
        let now = Timestamp::now();
        self.update_svid_at(svid, trust_bundle, &now)
    }
}

impl Clone for MtlsConfig {
    fn clone(&self) -> (r: Self)
        ensures
            r.identity() == self.identity(),
            r.client_config_handle() == self.client_config_handle(),
            r.server_config_handle() == self.server_config_handle(),
            r.peer_policy().expected_domain() == self.peer_policy().expected_domain(),
            r.peer_policy().root_ders() == self.peer_policy().root_ders(),
    {
        MtlsConfig {
            client_config: share(&self.client_config),
            server_config: match &self.server_config {
                Some(config) => Some(share(config)),
                None => None,
            },
            spiffe_id: self.spiffe_id.clone(),
            peer_verifier: self.peer_verifier.clone(),
        }
    }
}

/// The views of a list of identity names.
pub open spec fn id_views(list: Seq<SpiffeId>) -> Seq<SpiffeIdView> {
    list.map_values(|id: SpiffeId| id@)
}

/// The identity name that a certificate carries: its identity URI, read as
/// a name.
pub open spec fn certificate_name(der: Seq<u8>) -> Option<SpiffeIdView> {
    match certificate_identity(der) {
        Some(uri) => spec_parse(uri),
        None => None,
    }
}

/// The check of a peer against a list of expected identities.
pub struct MtlsValidator {
    expected_spiffe_ids: Vec<SpiffeId>,
    trust_bundle: TrustBundle,
}

impl MtlsValidator {
    /// The identities that are expected; where there is none, every
    /// identity is.
    pub closed spec fn expected(&self) -> Seq<SpiffeIdView> {
        id_views(self.expected_spiffe_ids@)
    }

    /// The trust bundle that the validator was made with.
    pub closed spec fn bundle(&self) -> TrustBundleView {
        self.trust_bundle@
    }

    /// Whether the validator accepts the identity `id`.
    pub open spec fn expects(&self, id: SpiffeIdView) -> bool {
        self.expected().len() == 0 || self.expected().contains(id)
    }

    /// A validator that expects every identity.
    pub fn new(trust_bundle: TrustBundle) -> (validator: Self)
        ensures
            validator.expected() == Seq::<SpiffeIdView>::empty(),
            validator.bundle() == trust_bundle@,
    {
        let validator = MtlsValidator { expected_spiffe_ids: Vec::new(), trust_bundle };
        validator
    }

    /// Adds an identity to those that are expected.
    pub fn add_expected_id(&mut self, id: SpiffeId)
        ensures
            final(self).expected() == old(self).expected().push(id@),
            final(self).bundle() == old(self).bundle(),
    {
        self.expected_spiffe_ids.push(id);
    }

    /// The identity of a peer, from the first certificate of its chain. The
    /// chain must not be empty, the certificate must carry an identity URI
    /// that reads as a name, and the name must be among those expected.
    pub fn validate_peer_cert(&self, cert_chain: &Vec<Vec<u8>>) -> (r: Result<SpiffeId, Error>)
        ensures
            match r {
                Ok(id) => {
                    &&& cert_chain@.len() > 0
                    &&& certificate_name(cert_chain@[0]@) == Some(id@)
                    &&& self.expects(id@)
                },
                Err(e) => if cert_chain@.len() == 0 || certificate_identity(cert_chain@[0]@) is None {
                    e is ValidationError
                } else {
                    match certificate_name(cert_chain@[0]@) {
                        Some(id) => !self.expects(id) && e is ValidationError,
                        None => e is InvalidSpiffeId || e is UrlError,
                    }
                },
            },
    {
        if cert_chain.len() == 0 {
            return Err(Error::ValidationError(String::from_str("Peer certificate chain is empty")));
        }
        let uri = match extract_spiffe_id(cert_chain[0].as_slice()) {
            Ok(uri) => uri,
            Err(_) => {
                return Err(
                    Error::ValidationError(String::from_str("No SPIFFE ID found in certificate")),
                );
            },
        };
        let spiffe_id = SpiffeId::parse(uri.as_str())?;
        if self.expected_spiffe_ids.len() > 0 {
            let mut found = false;
            let mut i: usize = 0;
            while i < self.expected_spiffe_ids.len() && !found
                invariant
                    i <= self.expected_spiffe_ids.len(),
                    found ==> self.expected().contains(spiffe_id@),
                    !found ==> forall|k: int| 0 <= k < i ==> self.expected()[k] != spiffe_id@,
                decreases self.expected_spiffe_ids.len() - i,
            {
                if self.expected_spiffe_ids[i] == spiffe_id {
                    assert(self.expected()[i as int] == spiffe_id@);
                    found = true;
                }
                i = i + 1;
            }
            if !found {
                let mut message = String::from_str("Unexpected SPIFFE ID: ");
                message.append(spiffe_id.to_string().as_str());
                return Err(Error::ValidationError(message));
            }
        }
        Ok(spiffe_id)
    }
}

} // verus!
