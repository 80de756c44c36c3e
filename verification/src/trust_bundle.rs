//! Trust bundles: the root certificates of a trust domain, versioned, kept in
//! a store by domain, and federated across domains.

use vstd::prelude::*;
use vstd::string::*;
use crate::bytes::{byte_views, copy_byte_list, text_views};
use crate::error::Error;
use crate::spiffe_id::SpiffeId;
use crate::string_map::StringMap;
use crate::text::str_equal;
use crate::time::{clock_reading, Timestamp};

verus! {

/// A trust bundle as a mathematical value.
pub struct TrustBundleView {
    /// The trust domain that the roots belong to.
    pub trust_domain: Seq<char>,
    /// The root certificates, in order.
    pub certificates: Seq<Seq<u8>>,
    /// The version of the bundle within its domain.
    pub sequence_number: u64,
    /// When the bundle was last changed.
    pub updated_at: Timestamp,
}

/// A bundle that `validate` accepts: a trust domain, at least one root
/// certificate, and no empty one.
pub open spec fn valid_bundle(bundle: TrustBundleView) -> bool {
    &&& bundle.trust_domain.len() > 0
    &&& bundle.certificates.len() > 0
    &&& forall|i: int| 0 <= i < bundle.certificates.len() ==> bundle.certificates[i].len() > 0
}

/// What `merge` makes of `receiver` when `other` is of the same domain: the
/// certificates, version and time of `other` where `other` is newer, and
/// `receiver` as it was where it is not. Nothing of the older one is kept.
pub open spec fn merged(receiver: TrustBundleView, other: TrustBundleView) -> TrustBundleView {
    if other.sequence_number > receiver.sequence_number {
        TrustBundleView {
            trust_domain: receiver.trust_domain,
            certificates: other.certificates,
            sequence_number: other.sequence_number,
            updated_at: other.updated_at,
        }
    } else {
        receiver
    }
}

/// A merge never lowers the version and never changes the trust domain;
/// what it leaves is the receiver or, in all but the trust domain, the
/// other bundle; and merging the same bundle again changes nothing.
pub proof fn merged_is_monotonic(receiver: TrustBundleView, other: TrustBundleView)
    ensures
        merged(receiver, other).sequence_number >= receiver.sequence_number,
        merged(receiver, other).sequence_number >= other.sequence_number,
        merged(receiver, other).trust_domain == receiver.trust_domain,
        merged(receiver, other) == receiver || (merged(receiver, other).certificates
            == other.certificates && merged(receiver, other).sequence_number
            == other.sequence_number),
        merged(merged(receiver, other), other) == merged(receiver, other),
{
}

/// The root certificates of one trust domain, with a version.
#[derive(Debug)]
pub struct TrustBundle {
    trust_domain: String,
    certificates: Vec<Vec<u8>>,
    sequence_number: u64,
    updated_at: Timestamp,
}

impl View for TrustBundle {
    type V = TrustBundleView;

    closed spec fn view(&self) -> TrustBundleView {
        TrustBundleView {
            trust_domain: self.trust_domain@,
            certificates: byte_views(self.certificates@),
            sequence_number: self.sequence_number,
            updated_at: self.updated_at,
        }
    }
}

impl Clone for TrustBundle {
    fn clone(&self) -> (r: Self)
        ensures
            r@ == self@,
    {
        TrustBundle {
            trust_domain: self.trust_domain.clone(),
            certificates: copy_byte_list(&self.certificates),
            sequence_number: self.sequence_number,
            updated_at: self.updated_at,
        }
    }
}

impl TrustBundle {
    /// A bundle at version `sequence_number`, last changed at `updated_at`.
    pub fn with_sequence_at(
        trust_domain: String,
        certificates: Vec<Vec<u8>>,
        sequence_number: u64,
        updated_at: Timestamp,
    ) -> (bundle: Self)
        ensures
            bundle@ == (TrustBundleView {
                trust_domain: trust_domain@,
                certificates: byte_views(certificates@),
                sequence_number: sequence_number,
                updated_at: updated_at,
            }),
    {
        TrustBundle { trust_domain, certificates, sequence_number, updated_at }
    }

    /// A bundle at version 0, stamped with the time of the system clock.
    pub fn new(trust_domain: String, certificates: Vec<Vec<u8>>) -> (bundle: Self)
        ensures
            bundle@.trust_domain == trust_domain@,
            bundle@.certificates == byte_views(certificates@),
            bundle@.sequence_number == 0,
            clock_reading(bundle@.updated_at),
    {
        TrustBundle::with_sequence_at(trust_domain, certificates, 0, Timestamp::now())
    }

    /// A bundle at version `sequence_number`, stamped with the time of the
    /// system clock.
    pub fn with_sequence(trust_domain: String, certificates: Vec<Vec<u8>>, sequence_number: u64) -> (bundle:
        Self)
        ensures
            bundle@.trust_domain == trust_domain@,
            bundle@.certificates == byte_views(certificates@),
            bundle@.sequence_number == sequence_number,
            clock_reading(bundle@.updated_at),
    {
        TrustBundle::with_sequence_at(trust_domain, certificates, sequence_number, Timestamp::now())
    }

    /// The trust domain.
    pub fn trust_domain(&self) -> (r: &str)
        ensures
            r@ == self@.trust_domain,
    {
        self.trust_domain.as_str()
    }

    /// The root certificates.
    pub fn certificates(&self) -> (r: &Vec<Vec<u8>>)
        ensures
            byte_views(r@) == self@.certificates,
    {
        &self.certificates
    }

    /// The version of the bundle.
    pub fn sequence_number(&self) -> (r: u64)
        ensures
            r == self@.sequence_number,
    {
        self.sequence_number
    }

    /// When the bundle was last changed.
    pub fn updated_at(&self) -> (r: &Timestamp)
        ensures
            *r == self@.updated_at,
    {
        &self.updated_at
    }

    /// Checks the bundle: it names a trust domain, holds at least one root
    /// certificate, and holds no empty one.
    pub fn validate(&self) -> (r: Result<(), Error>)
        ensures
            r is Ok <==> valid_bundle(self@),
            r matches Err(e) ==> e is TrustBundleError,
    {
        if self.trust_domain.as_str().is_empty() {
            return Err(Error::TrustBundleError(String::from_str("Trust domain cannot be empty")));
        }
        if self.certificates.len() == 0 {
            return Err(
                Error::TrustBundleError(
                    String::from_str("Trust bundle must contain at least one certificate"),
                ),
            );
        }
        let mut i: usize = 0;
        while i < self.certificates.len()
            invariant
                i <= self.certificates.len(),
                forall|k: int| 0 <= k < i ==> byte_views(self.certificates@)[k].len() > 0,
            decreases self.certificates.len() - i,
        {
            if self.certificates[i].len() == 0 {
                assert(byte_views(self.certificates@)[i as int].len() == 0);
                let mut message = String::from_str("Certificate ");
                message.append(i.to_string().as_str());
                message.append(" is empty");
                return Err(Error::TrustBundleError(message));
            }
            i = i + 1;
        }
        Ok(())
    }

    /// Whether this bundle is of a strictly higher version than `other`.
    pub fn is_newer_than(&self, other: &TrustBundle) -> (r: bool)
        ensures
            r == (self@.sequence_number > other@.sequence_number),
    {
        self.sequence_number > other.sequence_number
    }

    /// Takes over `other` where it is newer. Bundles of different trust
    /// domains are not merged: the call fails and changes nothing.
    pub fn merge(&mut self, other: &TrustBundle) -> (r: Result<(), Error>)
        ensures
            match r {
                Ok(()) => old(self)@.trust_domain == other@.trust_domain && final(self)@ == merged(
                    old(self)@,
                    other@,
                ),
                Err(e) => old(self)@.trust_domain != other@.trust_domain && e is TrustBundleError
                    && *final(self) == *old(self),
            },
    {
        if !str_equal(self.trust_domain.as_str(), other.trust_domain.as_str()) {
            return Err(
                Error::TrustBundleError(
                    String::from_str("Cannot merge bundles from different trust domains"),
                ),
            );
        }
        if other.is_newer_than(self) {
            self.certificates = copy_byte_list(&other.certificates);
            self.sequence_number = other.sequence_number;
            self.updated_at = other.updated_at;
        }
        Ok(())
    }

    /// Adds a root certificate at `now`: the version goes up by one, so it
    /// must not stand at its last value yet. An empty certificate is
    /// refused whatever the version, and the bundle stays as it was.
    pub fn add_certificate_at(&mut self, cert: Vec<u8>, now: Timestamp) -> (r: Result<(), Error>)
        requires
            cert@.len() > 0 ==> old(self)@.sequence_number < u64::MAX,
        ensures
            match r {
                Ok(()) => cert@.len() > 0 && final(self)@ == (TrustBundleView {
                    trust_domain: old(self)@.trust_domain,
                    certificates: old(self)@.certificates.push(cert@),
                    sequence_number: (old(self)@.sequence_number + 1) as u64,
                    updated_at: now,
                }),
                Err(e) => cert@.len() == 0 && e is TrustBundleError && *final(self) == *old(self),
            },
    {
        if cert.len() == 0 {
            return Err(Error::TrustBundleError(String::from_str("Cannot add empty certificate")));
        }
        let ghost before = self.certificates@;
        self.certificates.push(cert);
        assert(byte_views(self.certificates@) =~= byte_views(before).push(cert@));
        self.sequence_number = self.sequence_number + 1;
        self.updated_at = now;
        Ok(())
    }

    /// Adds a root certificate, stamped with the time of the system clock.
    pub fn add_certificate(&mut self, cert: Vec<u8>) -> (r: Result<(), Error>)
        requires
            cert@.len() > 0 ==> old(self)@.sequence_number < u64::MAX,
        ensures
            match r {
                Ok(()) => {
                    &&& cert@.len() > 0
                    &&& final(self)@.trust_domain == old(self)@.trust_domain
                    &&& final(self)@.certificates == old(self)@.certificates.push(cert@)
                    &&& final(self)@.sequence_number == old(self)@.sequence_number + 1
                    &&& clock_reading(final(self)@.updated_at)
                },
                Err(e) => cert@.len() == 0 && e is TrustBundleError && *final(self) == *old(self),
            },
    {
        self.add_certificate_at(cert, Timestamp::now())
    }

    /// Removes expired root certificates. Certificates are not parsed here,
    /// so none is ever found expired: nothing is removed, and the count is 0.
    pub fn prune_expired(&mut self) -> (pruned: usize)
        ensures
            pruned == 0,
            *final(self) == *old(self),
    {
        0
    }
}

/// The trust domain of each bundle of a list.
pub open spec fn bundle_domains(list: Seq<TrustBundle>) -> Seq<Seq<char>> {
    list.map_values(|bundle: TrustBundle| bundle@.trust_domain)
}

/// Trust bundles by trust domain: at most one bundle for a domain, each
/// under its own domain, and each valid.
pub struct TrustBundleStore {
    bundles: StringMap<TrustBundle>,
}

impl View for TrustBundleStore {
    type V = Map<Seq<char>, TrustBundleView>;

    closed spec fn view(&self) -> Map<Seq<char>, TrustBundleView> {
        self.bundles@.map_values(|bundle: TrustBundle| bundle@)
    }
}

impl TrustBundleStore {
    /// No domain occurs twice, each bundle is kept under its own domain, and
    /// each bundle is valid.
    pub closed spec fn wf(&self) -> bool {
        &&& self.bundles.wf()
        &&& forall|domain: Seq<char>| #[trigger]
            self.bundles@.contains_key(domain) ==> self.bundles@[domain]@.trust_domain == domain
                && valid_bundle(self.bundles@[domain]@)
    }

    /// In a store, each bundle is under its own domain and is valid.
    pub proof fn lemma_entries(&self)
        requires
            self.wf(),
        ensures
            forall|domain: Seq<char>| #[trigger]
                self@.contains_key(domain) ==> self@[domain].trust_domain == domain
                    && valid_bundle(self@[domain]),
    {
    }

    /// An empty store.
    pub fn new() -> (store: Self)
        ensures
            store.wf(),
            store@ == Map::<Seq<char>, TrustBundleView>::empty(),
    {
        TrustBundleStore { bundles: StringMap::new() }
    }

    /// Puts a bundle under its trust domain, in place of the one that was
    /// there. A bundle that is not valid is refused, and the store stays as
    /// it was.
    pub fn set_bundle(&mut self, bundle: TrustBundle) -> (r: Result<(), Error>)
        requires
            old(self).wf(),
        ensures
            final(self).wf(),
            match r {
                Ok(()) => valid_bundle(bundle@) && final(self)@ == old(self)@.insert(
                    bundle@.trust_domain,
                    bundle@,
                ),
                Err(e) => !valid_bundle(bundle@) && e is TrustBundleError && *final(self) == *old(
                    self,
                ),
            },
    {
        bundle.validate()?;
        let trust_domain = bundle.trust_domain().to_owned();
        let ghost before = self.bundles@;
        let _ = self.bundles.insert(trust_domain, bundle);
        assert(self@ =~= before.map_values(|b: TrustBundle| b@).insert(
            bundle@.trust_domain,
            bundle@,
        ));
        Ok(())
    }

    /// The bundle of `trust_domain`, if the store has one.
    pub fn get_bundle(&self, trust_domain: &str) -> (r: Option<TrustBundle>)
        requires
            self.wf(),
        ensures
            match r {
                Some(bundle) => self@.contains_key(trust_domain@) && bundle@ == self@[trust_domain@],
                None => !self@.contains_key(trust_domain@),
            },
    {
        match self.bundles.get(trust_domain) {
            Some(bundle) => Some(bundle.clone()),
            None => None,
        }
    }

    /// Takes the bundle of `trust_domain` out of the store, if it has one.
    pub fn remove_bundle(&mut self, trust_domain: &str) -> (r: Option<TrustBundle>)
        requires
            old(self).wf(),
        ensures
            final(self).wf(),
            final(self)@ == old(self)@.remove(trust_domain@),
            match r {
                Some(bundle) => old(self)@.contains_key(trust_domain@) && bundle@ == old(
                    self,
                )@[trust_domain@],
                None => !old(self)@.contains_key(trust_domain@),
            },
    {
        self.bundles.remove(trust_domain)
    }

    /// The trust domains that the store has a bundle for, each once.
    pub fn domains(&self) -> (r: Vec<String>)
        requires
            self.wf(),
        ensures
            text_views(r@).no_duplicates(),
            text_views(r@).to_set() == self@.dom(),
    {
        let mut out: Vec<String> = Vec::new();
        let n = self.bundles.len();
        let mut i: usize = 0;
        while i < n
            invariant
                i <= n,
                n == self.bundles.key_seq().len(),
                text_views(out@) == self.bundles.key_seq().take(i as int),
            decreases n - i,
        {
            let key = self.bundles.key_at(i).to_owned();
            out.push(key);
            assert(self.bundles.key_seq().take(i + 1) =~= self.bundles.key_seq().take(
                i as int,
            ).push(self.bundles.key_seq()[i as int]));
            i = i + 1;
        }
        proof {
            self.bundles.lemma_listing();
            assert(self.bundles.key_seq().take(n as int) =~= self.bundles.key_seq());
        }
        out
    }

    /// A copy of every bundle of the store, one for each trust domain.
    pub fn all_bundles(&self) -> (r: Vec<TrustBundle>)
        requires
            self.wf(),
        ensures
            bundle_domains(r@).no_duplicates(),
            bundle_domains(r@).to_set() == self@.dom(),
            forall|i: int| 0 <= i < r@.len() ==> (#[trigger] r@[i])@ == self@[r@[i]@.trust_domain],
    {
        let mut out: Vec<TrustBundle> = Vec::new();
        let n = self.bundles.len();
        let mut i: usize = 0;
        proof {
            self.bundles.lemma_listing();
        }
        while i < n
            invariant
                self.wf(),
                i <= n,
                n == self.bundles.key_seq().len(),
                n == self.bundles.value_seq().len(),
                bundle_domains(out@) == self.bundles.key_seq().take(i as int),
                forall|k: int| 0 <= k < out@.len() ==> (#[trigger] out@[k])@ == self@[out@[k]@.trust_domain],
            decreases n - i,
        {
            let bundle = self.bundles.value_at(i).clone();
            proof {
                self.bundles.lemma_listing();
            }
            out.push(bundle);
            assert(self.bundles.key_seq().take(i + 1) =~= self.bundles.key_seq().take(
                i as int,
            ).push(self.bundles.key_seq()[i as int]));
            i = i + 1;
        }
        proof {
            self.bundles.lemma_listing();
            assert(self.bundles.key_seq().take(n as int) =~= self.bundles.key_seq());
        }
        out
    }

    /// Whether `update_if_newer` puts `bundle` into a store that holds
    /// `stored`: there is no bundle of that domain yet, or the one there is
    /// of a strictly lower version.
    pub open spec fn replaces(
        stored: Map<Seq<char>, TrustBundleView>,
        bundle: TrustBundleView,
    ) -> bool {
        !stored.contains_key(bundle.trust_domain) || bundle.sequence_number
            > stored[bundle.trust_domain].sequence_number
    }

    /// Puts a bundle under its trust domain if the store has none for that
    /// domain or an older one, and says whether it did. A bundle that is
    /// not newer leaves the store as it was; so does one that is not valid,
    /// which is refused.
    pub fn update_if_newer(&mut self, bundle: TrustBundle) -> (r: Result<bool, Error>)
        requires
            old(self).wf(),
        ensures
            final(self).wf(),
            match r {
                Ok(updated) => {
                    &&& valid_bundle(bundle@)
                    &&& updated == Self::replaces(old(self)@, bundle@)
                    &&& updated ==> final(self)@ == old(self)@.insert(bundle@.trust_domain, bundle@)
                    &&& !updated ==> *final(self) == *old(self)
                },
                Err(e) => !valid_bundle(bundle@) && e is TrustBundleError && *final(self) == *old(
                    self,
                ),
            },
    {
        bundle.validate()?;
        let newer = match self.bundles.get(bundle.trust_domain()) {
            Some(existing) => bundle.is_newer_than(existing),
            None => true,
        };
        if newer {
            let trust_domain = bundle.trust_domain().to_owned();
            let ghost before = self.bundles@;
            let _ = self.bundles.insert(trust_domain, bundle);
            assert(self@ =~= before.map_values(|b: TrustBundle| b@).insert(
                bundle@.trust_domain,
                bundle@,
            ));
        }
        Ok(newer)
    }

    /// Removes expired root certificates from every bundle, and counts
    /// them. Certificates are not parsed here, so none is ever found
    /// expired: nothing is removed, and the count is 0.
    pub fn prune_all_expired(&mut self) -> (pruned: usize)
        ensures
            pruned == 0,
            final(self)@ == old(self)@,
            final(self).wf() == old(self).wf(),
    {
        let mut total_pruned: usize = 0;
        let n = self.bundles.len();
        let mut i: usize = 0;
        while i < n
            invariant
                i <= n,
                n == self.bundles.value_seq().len(),
                total_pruned == 0,
                self.bundles.key_seq() == old(self).bundles.key_seq(),
                self.bundles.value_seq() == old(self).bundles.value_seq(),
            decreases n - i,
        {
            let bundle = self.bundles.value_at_mut(i);
            let count = bundle.prune_expired();
            total_pruned = total_pruned + count;
            i = i + 1;
        }
        proof {
            self.bundles.lemma_same_listing(&old(self).bundles);
        }
        total_pruned
    }
}

impl Default for TrustBundleStore {
    fn default() -> (store: Self)
        ensures
            store.wf(),
            store@ == Map::<Seq<char>, TrustBundleView>::empty(),
    {
        TrustBundleStore::new()
    }
}

/// The trust bundles of a primary trust domain and of the domains federated
/// with it.
pub struct FederatedBundle {
    primary_domain: String,
    store: TrustBundleStore,
}

impl FederatedBundle {
    /// The primary trust domain.
    pub closed spec fn primary_domain(&self) -> Seq<char> {
        self.primary_domain@
    }

    /// The bundles that are registered, by trust domain.
    pub closed spec fn bundles(&self) -> Map<Seq<char>, TrustBundleView> {
        self.store@
    }

    /// The store is well formed. Then each bundle is under its own domain:
    /// the one under the primary domain is of the primary domain, and no
    /// other is.
    pub closed spec fn wf(&self) -> bool {
        self.store.wf()
    }

    /// Each registered bundle is valid and under its own domain.
    pub proof fn lemma_entries(&self)
        requires
            self.wf(),
        ensures
            forall|domain: Seq<char>| #[trigger]
                self.bundles().contains_key(domain) ==> self.bundles()[domain].trust_domain
                    == domain && valid_bundle(self.bundles()[domain]),
    {
        self.store.lemma_entries();
    }

    /// The bundle registered under the primary domain is of the primary
    /// domain, and no other registered bundle is.
    pub proof fn lemma_primary_apart(&self)
        requires
            self.wf(),
        ensures
            forall|domain: Seq<char>| #[trigger]
                self.bundles().contains_key(domain) ==> (self.bundles()[domain].trust_domain
                    == self.primary_domain() <==> domain == self.primary_domain()),
    {
        self.store.lemma_entries();
    }

    /// A federation around `primary_domain`, with no bundle yet.
    pub fn new(primary_domain: String) -> (federated: Self)
        ensures
            federated.wf(),
            federated.primary_domain() == primary_domain@,
            federated.bundles() == Map::<Seq<char>, TrustBundleView>::empty(),
    {
        FederatedBundle { primary_domain, store: TrustBundleStore::new() }
    }

    /// Registers the bundle of the primary domain. A bundle of another
    /// domain, or one that is not valid, is refused and changes nothing.
    pub fn set_primary(&mut self, bundle: TrustBundle) -> (r: Result<(), Error>)
        requires
            old(self).wf(),
        ensures
            final(self).wf(),
            final(self).primary_domain() == old(self).primary_domain(),
            match r {
                Ok(()) => {
                    &&& bundle@.trust_domain == old(self).primary_domain()
                    &&& valid_bundle(bundle@)
                    &&& final(self).bundles() == old(self).bundles().insert(
                        bundle@.trust_domain,
                        bundle@,
                    )
                },
                Err(e) => {
                    &&& bundle@.trust_domain != old(self).primary_domain() || !valid_bundle(bundle@)
                    &&& e is TrustBundleError
                    &&& *final(self) == *old(self)
                },
            },
    {
        if !str_equal(bundle.trust_domain(), self.primary_domain.as_str()) {
            let mut message = String::from_str("Bundle domain ");
            message.append(bundle.trust_domain());
            message.append(" doesn't match primary ");
            message.append(self.primary_domain.as_str());
            return Err(Error::TrustBundleError(message));
        }
        self.store.set_bundle(bundle)
    }

    /// Registers the bundle of a federated domain. A bundle of the primary
    /// domain, or one that is not valid, is refused and changes nothing.
    pub fn add_federated(&mut self, bundle: TrustBundle) -> (r: Result<(), Error>)
        requires
            old(self).wf(),
        ensures
            final(self).wf(),
            final(self).primary_domain() == old(self).primary_domain(),
            match r {
                Ok(()) => {
                    &&& bundle@.trust_domain != old(self).primary_domain()
                    &&& valid_bundle(bundle@)
                    &&& final(self).bundles() == old(self).bundles().insert(
                        bundle@.trust_domain,
                        bundle@,
                    )
                },
                Err(e) => {
                    &&& bundle@.trust_domain == old(self).primary_domain() || !valid_bundle(bundle@)
                    &&& e is TrustBundleError
                    &&& *final(self) == *old(self)
                },
            },
    {
        if str_equal(bundle.trust_domain(), self.primary_domain.as_str()) {
            return Err(
                Error::TrustBundleError(String::from_str("Use set_primary for primary domain")),
            );
        }
        self.store.set_bundle(bundle)
    }

    /// The bundle of the primary domain, if it is registered.
    pub fn primary(&self) -> (r: Option<TrustBundle>)
        requires
            self.wf(),
        ensures
            match r {
                Some(bundle) => self.bundles().contains_key(self.primary_domain()) && bundle@
                    == self.bundles()[self.primary_domain()],
                None => !self.bundles().contains_key(self.primary_domain()),
            },
    {
        self.store.get_bundle(self.primary_domain.as_str())
    }

    /// The domains that have a bundle registered, but for the primary one,
    /// each once.
    pub fn federated_domains(&self) -> (r: Vec<String>)
        requires
            self.wf(),
        ensures
            text_views(r@).no_duplicates(),
            text_views(r@).to_set() == self.bundles().dom().remove(self.primary_domain()),
    {
        let all = self.store.domains();
        let ghost listed = text_views(all@);
        let mut out: Vec<String> = Vec::new();
        let ghost mut origin: Seq<int> = Seq::empty();
        let mut i: usize = 0;
        while i < all.len()
            invariant
                i <= all.len(),
                listed == text_views(all@),
                listed.no_duplicates(),
                text_views(out@).no_duplicates(),
                origin.len() == out@.len(),
                forall|a: int|
                    0 <= a < out@.len() ==> 0 <= #[trigger] origin[a] < i && listed[origin[a]]
                        == text_views(out@)[a],
                forall|a: int|
                    0 <= a < out@.len() ==> #[trigger] text_views(out@)[a] != self.primary_domain(),
                forall|k: int|
                    0 <= k < i && #[trigger] listed[k] != self.primary_domain() ==> text_views(
                        out@,
                    ).contains(listed[k]),
            decreases all.len() - i,
        {
            if !str_equal(all[i].as_str(), self.primary_domain.as_str()) {
                let ghost before = text_views(out@);
                let domain = all[i].clone();
                out.push(domain);
                proof {
                    let after = text_views(out@);
                    assert(after =~= before.push(domain@));
                    assert(after[before.len() as int] == listed[i as int]);
                    origin = origin.push(i as int);
                    assert forall|a: int, b: int|
                        0 <= a < after.len() && 0 <= b < after.len() && a != b implies after[a]
                        != after[b] by {
                        if a < before.len() && b < before.len() {
                            assert(before[a] != before[b]);
                        } else {
                            assert(listed[origin[a]] == after[a]);
                            assert(listed[origin[b]] == after[b]);
                            assert(origin[a] != origin[b]);
                        }
                    }
                    assert forall|k: int|
                        0 <= k < i + 1 && #[trigger] listed[k]
                            != self.primary_domain() implies after.contains(listed[k]) by {
                        if k < i {
                            assert(before.contains(listed[k]));
                            let a = before.index_of(listed[k]);
                            assert(after[a] == listed[k]);
                        }
                    }
                }
            }
            i = i + 1;
        }
        proof {
            let shown = text_views(out@);
            assert forall|d: Seq<char>| shown.to_set().contains(d) <==> self.bundles().dom().remove(
                self.primary_domain(),
            ).contains(d) by {
                if shown.contains(d) {
                    let a = shown.index_of(d);
                    assert(shown[a] == d);
                    assert(listed[origin[a]] == d);
                    assert(listed.contains(d));
                }
                if listed.to_set().contains(d) && d != self.primary_domain() {
                    let k = listed.index_of(d);
                    assert(listed[k] == d);
                }
            }
            assert(shown.to_set() =~= self.bundles().dom().remove(self.primary_domain()));
        }
        out
    }

    /// Whether the identity is of a domain that has a bundle registered.
    /// It fails if and only if there is none.
    pub fn validate_spiffe_id(&self, spiffe_id: &SpiffeId) -> (r: Result<(), Error>)
        requires
            self.wf(),
        ensures
            r is Ok <==> self.bundles().contains_key(spiffe_id@.trust_domain),
            r matches Err(e) ==> e is ValidationError,
    {
        let trust_domain = spiffe_id.trust_domain();
        if self.store.get_bundle(trust_domain).is_none() {
            let mut message = String::from_str("No trust bundle for domain: ");
            message.append(trust_domain);
            return Err(Error::ValidationError(message));
        }
        Ok(())
    }
}

} // verus!
