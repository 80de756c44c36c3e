//! The root of trust: the trust anchors that the TLS engine makes of a list
//! of root certificates.

use vstd::prelude::*;
use vstd::string::*;
use crate::bytes::byte_views;
use crate::error::Error;
use crate::tls::{add_root, empty_root_store, root_anchors, trust_anchor_of, TrustAnchorView};

verus! {

/// Whether the TLS engine reads each of the certificates as a trust anchor.
pub open spec fn all_roots_readable(certificates: Seq<Seq<u8>>) -> bool {
    forall|i: int| 0 <= i < certificates.len() ==> trust_anchor_of(#[trigger] certificates[i]) is Some
}

/// The trust anchors of a list of root certificates, in order.
pub open spec fn anchors_of(certificates: Seq<Seq<u8>>) -> Seq<TrustAnchorView> {
    certificates.map_values(|der: Seq<u8>| trust_anchor_of(der)->0)
}

/// The root-of-trust set of a list of root certificates: the trust anchor of
/// each, in order. It fails where the TLS engine cannot read one of them.
pub fn build_root_store(certificates: &Vec<Vec<u8>>) -> (r: Result<rustls::RootCertStore, Error>)
    ensures
        match r {
            Ok(store) => all_roots_readable(byte_views(certificates@)) && root_anchors(store)
                == anchors_of(byte_views(certificates@)),
            Err(e) => !all_roots_readable(byte_views(certificates@)) && e is TlsError,
        },
{
    let mut store = empty_root_store();
    let ghost all = byte_views(certificates@);
    let mut i: usize = 0;
    while i < certificates.len()
        invariant
            i <= certificates.len(),
            all == byte_views(certificates@),
            root_anchors(store) == anchors_of(all.take(i as int)),
            all_roots_readable(all.take(i as int)),
        decreases certificates.len() - i,
    {
        match add_root(&mut store, &certificates[i]) {
            Ok(()) => {},
            Err(text) => {
                let mut message = String::from_str("Failed to add root certificate: ");
                message.append(text.as_str());
                return Err(Error::TlsError(message));
            },
        }
        proof {
            assert(anchors_of(all.take(i + 1)) =~= anchors_of(all.take(i as int)).push(
                trust_anchor_of(all[i as int])->0,
            ));
            assert forall|k: int| 0 <= k < all.take(i + 1).len() implies trust_anchor_of(
                #[trigger] all.take(i + 1)[k],
            ) is Some by {
                if k < i {
                    assert(all.take(i as int)[k] == all.take(i + 1)[k]);
                }
            }
        }
        i = i + 1;
    }
    assert(all.take(certificates.len() as int) =~= all);
    Ok(store)
}

} // verus!
