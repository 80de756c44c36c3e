//! Bundles as the identity provider's server hands them out, the request for
//! one, and the check of what comes back.

use vstd::prelude::*;
use vstd::string::*;
use crate::bytes::{byte_views, copy_bytes};
use crate::error::Error;

verus! {

/// An X.509 authority of a bundle.
#[derive(Debug)]
pub struct X509Certificate {
    /// The certificate, DER encoded.
    pub asn1: Vec<u8>,
    /// Whether the authority is no longer to be trusted.
    pub tainted: bool,
}

/// A JWT authority of a bundle.
#[derive(Debug)]
pub struct JwtKey {
    /// The public key, PKIX encoded.
    pub public_key: Vec<u8>,
    /// The identifier of the key.
    pub key_id: String,
    /// When the key expires, in seconds since the Unix epoch; 0 for never.
    pub expires_at: i64,
    /// Whether the key is no longer to be trusted.
    pub tainted: bool,
}

/// The authorities of one trust domain, as the server hands them out.
#[derive(Debug)]
pub struct Bundle {
    /// The trust domain.
    pub trust_domain: String,
    /// The X.509 authorities.
    pub x509_authorities: Vec<X509Certificate>,
    /// The JWT authorities.
    pub jwt_authorities: Vec<JwtKey>,
    /// After how many seconds to ask again.
    pub refresh_hint: i64,
    /// The version of the bundle.
    pub sequence_number: u64,
}

/// Which fields of a bundle a request asks for.
#[derive(Clone, Copy, Debug, PartialEq, Eq, Structural)]
pub struct BundleMask {
    /// The X.509 authorities.
    pub x509_authorities: bool,
    /// The JWT authorities.
    pub jwt_authorities: bool,
    /// The refresh hint.
    pub refresh_hint: bool,
    /// The sequence number.
    pub sequence_number: bool,
}

/// A request for the bundle of the server's own trust domain.
#[derive(Clone, Copy, Debug, PartialEq, Eq, Structural)]
pub struct GetBundleRequest {
    /// The fields asked for; all of them where there is no mask.
    pub output_mask: Option<BundleMask>,
}

/// Why a call to the server failed: its status code and its message.
#[derive(Debug)]
pub struct RpcFailure {
    /// The status code, as text.
    pub code: String,
    /// The message of the status.
    pub message: String,
}

/// The DER encodings of a list of X.509 authorities, in order.
pub open spec fn authority_ders(list: Seq<X509Certificate>) -> Seq<Seq<u8>> {
    list.map_values(|authority: X509Certificate| authority.asn1@)
}

impl Bundle {
    /// Whether the bundle holds no authority of either kind.
    pub open spec fn is_empty(&self) -> bool {
        self.x509_authorities@.len() == 0 && self.jwt_authorities@.len() == 0
    }

    /// The DER encodings of the X.509 authorities, in order.
    pub fn ca_certificates(&self) -> (r: Vec<Vec<u8>>)
        ensures
            byte_views(r@) == authority_ders(self.x509_authorities@),
    {
        let mut out: Vec<Vec<u8>> = Vec::new();
        let mut i: usize = 0;
        while i < self.x509_authorities.len()
            invariant
                i <= self.x509_authorities.len(),
                byte_views(out@) == authority_ders(self.x509_authorities@).take(i as int),
            decreases self.x509_authorities.len() - i,
        {
            let der = copy_bytes(&self.x509_authorities[i].asn1);
            out.push(der);
            assert(authority_ders(self.x509_authorities@).take(i + 1) =~= authority_ders(
                self.x509_authorities@,
            ).take(i as int).push(self.x509_authorities@[i as int].asn1@));
            i = i + 1;
        }
        assert(authority_ders(self.x509_authorities@).take(self.x509_authorities@.len() as int)
            =~= authority_ders(self.x509_authorities@));
        out
    }
}

/// The request that asks for every field of the bundle.
pub fn get_bundle_request() -> (request: GetBundleRequest)
    ensures
        request == (GetBundleRequest {
            output_mask: Some(
                BundleMask {
                    x509_authorities: true,
                    jwt_authorities: true,
                    refresh_hint: true,
                    sequence_number: true,
                },
            ),
        }),
{
    GetBundleRequest {
        output_mask: Some(
            BundleMask {
                x509_authorities: true,
                jwt_authorities: true,
                refresh_hint: true,
                sequence_number: true,
            },
        ),
    }
}

/// What a caller gets of the server's answer to a bundle request: the
/// bundle, unless the call failed or the bundle holds no authority at all.
pub fn check_bundle_response(response: Result<Bundle, RpcFailure>) -> (r: Result<Bundle, Error>)
    ensures
        match r {
            Ok(bundle) => response == Ok::<Bundle, RpcFailure>(bundle) && !bundle.is_empty(),
            Err(e) => e is AgentError && (response matches Ok(bundle) ==> bundle.is_empty()),
        },
{
    match response {
        Ok(bundle) => {
            if bundle.x509_authorities.len() == 0 && bundle.jwt_authorities.len() == 0 {
                return Err(Error::agent_error("Received empty bundle from server"));
            }
            Ok(bundle)
        },
        Err(failure) => {
            let mut message = String::from_str("GetBundle failed: code=");
            message.append(failure.code.as_str());
            message.append(", message=");
            message.append(failure.message.as_str());
            Err(Error::AgentError(message))
        },
    }
}

} // verus!
