//! What a channel to the identity provider's server is built from.

use vstd::prelude::*;
use vstd::string::*;
use crate::bundle::{authority_ders, Bundle};
use crate::bytes::byte_views;

verus! {

/// The settings of a channel to the server: the trust domain and bundle
/// that the server is verified against and, for mutual TLS, the certificate
/// and key that the client presents.
#[derive(Debug)]
pub struct SpiffeChannelBuilder {
    trust_domain: String,
    bundle: Bundle,
    require_client_cert: bool,
    client_svid: Option<(Vec<u8>, Vec<u8>)>,
}

impl SpiffeChannelBuilder {
    /// The trust domain that the server must be of.
    pub closed spec fn trust_domain_view(&self) -> Seq<char> {
        self.trust_domain@
    }

    /// The bundle that the server is verified against.
    pub closed spec fn bundle_held(&self) -> Bundle {
        self.bundle
    }

    /// Whether the client presents a certificate.
    pub closed spec fn presents_client_cert(&self) -> bool {
        self.require_client_cert
    }

    /// The certificate and key that the client presents, if it does.
    pub closed spec fn client_identity(&self) -> Option<(Seq<u8>, Seq<u8>)> {
        match self.client_svid {
            Some((cert, key)) => Some((cert@, key@)),
            None => None,
        }
    }

    /// Settings without a client certificate.
    pub fn new(trust_domain: String, bundle: Bundle) -> (builder: Self)
        ensures
            builder.trust_domain_view() == trust_domain@,
            builder.bundle_held() == bundle,
            !builder.presents_client_cert(),
            builder.client_identity() is None,
    {
        SpiffeChannelBuilder { trust_domain, bundle, require_client_cert: false, client_svid: None }
    }

    /// The same settings, with a client certificate and its key.
    pub fn with_client_svid(self, cert: Vec<u8>, key: Vec<u8>) -> (builder: Self)
        ensures
            builder.trust_domain_view() == self.trust_domain_view(),
            builder.bundle_held() == self.bundle_held(),
            builder.presents_client_cert(),
            builder.client_identity() == Some((cert@, key@)),
    {
        SpiffeChannelBuilder {
            trust_domain: self.trust_domain,
            bundle: self.bundle,
            require_client_cert: true,
            client_svid: Some((cert, key)),
        }
    }

    /// The trust domain that the server must be of.
    pub fn trust_domain(&self) -> (r: &str)
        ensures
            r@ == self.trust_domain_view(),
    {
        self.trust_domain.as_str()
    }

    /// Whether the client presents a certificate.
    pub fn require_client_cert(&self) -> (r: bool)
        ensures
            r == self.presents_client_cert(),
    {
        self.require_client_cert
    }

    /// The certificate and key that the client presents, if it does.
    pub fn client_svid(&self) -> (r: Option<(&Vec<u8>, &Vec<u8>)>)
        ensures
            match r {
                Some((cert, key)) => self.client_identity() == Some((cert@, key@)),
                None => self.client_identity() is None,
            },
    {
        match &self.client_svid {
            Some((cert, key)) => Some((cert, key)),
            None => None,
        }
    }

    /// The DER encodings of the X.509 authorities of the bundle, in order.
    pub fn extract_ca_certificates(&self) -> (r: Vec<Vec<u8>>)
        ensures
            byte_views(r@) == authority_ders(self.bundle_held().x509_authorities@),
    {
        self.bundle.ca_certificates()
    }
}

} // verus!
