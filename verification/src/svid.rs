//! Identity documents: the X.509 and JWT credentials of a workload, and the
//! bundle of them that a client caches.

use vstd::prelude::*;
use vstd::string::*;
use std::sync::Arc;
use crate::bytes::{byte_views, copy_byte_list, copy_bytes, copy_text_list, text_views};
use crate::error::Error;
use crate::spiffe_id::{valid_id, SpiffeId, SpiffeIdView};
use crate::string_map::StringMap;
use crate::text::{chars_of, str_equal};
use crate::time::{clock_reading, Timestamp};
use crate::tls::share;

verus! {

/// Whether a credential that expires at `expiry` has expired at `now`: `now`
/// is strictly later.
pub open spec fn expired(expiry: Timestamp, now: Timestamp) -> bool {
    now.as_nanos() > expiry.as_nanos()
}

/// The time left at `now` until `expiry`, in nanoseconds.
pub open spec fn remaining_nanos(expiry: Timestamp, now: Timestamp) -> int {
    expiry.as_nanos() - now.as_nanos()
}

/// The lifetime window that rotation goes by: the time left and 24 hours.
pub open spec fn nominal_lifetime_nanos(expiry: Timestamp, now: Timestamp) -> int {
    remaining_nanos(expiry, now) + 86_400_000_000_000
}

/// Whether a credential that expires at `expiry` is due for rotation at
/// `now`: the time left is less than a third of the lifetime window.
pub open spec fn rotation_due(expiry: Timestamp, now: Timestamp) -> bool {
    3 * remaining_nanos(expiry, now) < nominal_lifetime_nanos(expiry, now)
}

/// Rotation is due exactly while less than 12 hours are left: a third of
/// the time left and 24 hours is more than the time left only then.
pub proof fn rotation_due_below_twelve_hours(expiry: Timestamp, now: Timestamp)
    ensures
        rotation_due(expiry, now) <==> remaining_nanos(expiry, now) < 43_200_000_000_000,
        expired(expiry, now) ==> rotation_due(expiry, now),
{
}

/// How often `c` occurs in `s`.
pub open spec fn count_char(s: Seq<char>, c: char) -> nat
    decreases s.len(),
{
    if s.len() == 0 {
        0
    } else {
        count_char(s.drop_last(), c) + if s.last() == c {
            1nat
        } else {
            0nat
        }
    }
}

/// The number of segments of `token` when it is cut at each `.`.
pub open spec fn segment_count(token: Seq<char>) -> nat {
    count_char(token, '.') + 1
}

/// A token of the shape of a JWT: three segments.
pub open spec fn token_well_formed(token: Seq<char>) -> bool {
    segment_count(token) == 3
}

/// An X.509 identity document as a mathematical value.
pub struct X509SvidView {
    /// The identity that the document proves.
    pub spiffe_id: SpiffeIdView,
    /// The certificates, the leaf first.
    pub cert_chain: Seq<Seq<u8>>,
    /// The private key.
    pub private_key: Seq<u8>,
    /// When the document expires.
    pub expiry: Timestamp,
    /// The serial number of the leaf certificate.
    pub serial_number: Seq<char>,
}

impl X509SvidView {
    /// What every X.509 identity document holds: a certificate, a key, and
    /// a valid identity.
    pub open spec fn well_formed(self) -> bool {
        &&& self.cert_chain.len() > 0
        &&& self.private_key.len() > 0
        &&& valid_id(self.spiffe_id)
    }
}

/// An X.509 identity document: a certificate chain with its private key. It
/// has no printed form, so that the key reaches no log.
pub struct X509Svid {
    spiffe_id: SpiffeId,
    cert_chain: Vec<Vec<u8>>,
    private_key: Vec<u8>,
    expiry: Timestamp,
    serial_number: String,
}

impl View for X509Svid {
    type V = X509SvidView;

    closed spec fn view(&self) -> X509SvidView {
        X509SvidView {
            spiffe_id: self.spiffe_id@,
            cert_chain: byte_views(self.cert_chain@),
            private_key: self.private_key@,
            expiry: self.expiry,
            serial_number: self.serial_number@,
        }
    }
}

impl Clone for X509Svid {
    fn clone(&self) -> (r: Self)
        ensures
            r@ == self@,
    {
        proof {
            use_type_invariant(self);
        }
        X509Svid {
            spiffe_id: self.spiffe_id.clone(),
            cert_chain: copy_byte_list(&self.cert_chain),
            private_key: copy_bytes(&self.private_key),
            expiry: self.expiry,
            serial_number: self.serial_number.clone(),
        }
    }
}

impl X509Svid {
    #[verifier::type_invariant]
    spec fn inv(self) -> bool {
        self@.well_formed()
    }

    /// Makes a document. The chain and the key must not be empty, and the
    /// identity must be valid; a document that fails any of these is
    /// malformed.
    pub fn new(
        spiffe_id: SpiffeId,
        cert_chain: Vec<Vec<u8>>,
        private_key: Vec<u8>,
        expiry: Timestamp,
        serial_number: String,
    ) -> (r: Result<X509Svid, Error>)
        ensures
            match r {
                Ok(svid) => svid@ == (X509SvidView {
                    spiffe_id: spiffe_id@,
                    cert_chain: byte_views(cert_chain@),
                    private_key: private_key@,
                    expiry: expiry,
                    serial_number: serial_number@,
                }) && svid@.well_formed(),
                Err(e) => e is X509Error && (cert_chain@.len() == 0 || private_key@.len() == 0
                    || !valid_id(spiffe_id@)),
            },
    {
        if cert_chain.len() == 0 {
            return Err(Error::X509Error(String::from_str("Certificate chain cannot be empty")));
        }
        if private_key.len() == 0 {
            return Err(Error::X509Error(String::from_str("Private key cannot be empty")));
        }
        match spiffe_id.validate() {
            Ok(()) => {},
            Err(e) => {
                let mut message = String::from_str("Invalid identity: ");
                message.append(e.text().as_str());
                return Err(Error::X509Error(message));
            },
        }
        Ok(X509Svid { spiffe_id, cert_chain, private_key, expiry, serial_number })
    }

    /// The identity that the document proves.
    pub fn spiffe_id(&self) -> (r: &SpiffeId)
        ensures
            r@ == self@.spiffe_id,
            valid_id(r@),
    {
        proof {
            use_type_invariant(self);
        }
        &self.spiffe_id
    }

    /// The certificates, the leaf first; there is at least one.
    pub fn cert_chain(&self) -> (r: &Vec<Vec<u8>>)
        ensures
            byte_views(r@) == self@.cert_chain,
            r@.len() > 0,
    {
        proof {
            use_type_invariant(self);
        }
        &self.cert_chain
    }

    /// The first certificate of the chain.
    pub fn leaf_cert(&self) -> (r: &Vec<u8>)
        ensures
            self@.cert_chain.len() > 0,
            r@ == self@.cert_chain[0],
    {
        proof {
            use_type_invariant(self);
        }
        &self.cert_chain[0]
    }

    /// The private key; it is not empty.
    pub fn private_key(&self) -> (r: &Vec<u8>)
        ensures
            r@ == self@.private_key,
            r@.len() > 0,
    {
        proof {
            use_type_invariant(self);
        }
        &self.private_key
    }

    /// When the document expires.
    pub fn expiry(&self) -> (r: &Timestamp)
        ensures
            *r == self@.expiry,
    {
        &self.expiry
    }

    /// The serial number of the leaf certificate.
    pub fn serial_number(&self) -> (r: &str)
        ensures
            r@ == self@.serial_number,
    {
        self.serial_number.as_str()
    }

    /// Whether the document has expired at `now`.
    pub fn is_expired_at(&self, now: &Timestamp) -> (r: bool)
        ensures
            r == expired(self@.expiry, *now),
    {
        now.is_after(&self.expiry)
    }

    /// Whether the document has expired by the system clock: the answer of
    /// `is_expired_at` for the time that the clock gives.
    pub fn is_expired(&self) -> (r: bool)
        ensures
            exists|now: Timestamp| #[trigger] clock_reading(now) && r == expired(self@.expiry, now),
    {
        let now = Timestamp::now();
        self.is_expired_at(&now)
    }

    /// The nanoseconds left at `now` until the document expires; negative
    /// once it has expired.
    pub fn time_until_expiry_at(&self, now: &Timestamp) -> (r: i128)
        ensures
            r == remaining_nanos(self@.expiry, *now),
    {
        now.nanos_until(&self.expiry)
    }

    /// The nanoseconds left by the system clock until the document expires:
    /// the answer of `time_until_expiry_at` for the time that the clock
    /// gives.
    pub fn time_until_expiry(&self) -> (r: i128)
        ensures
            exists|now: Timestamp| #[trigger]
                clock_reading(now) && r == remaining_nanos(self@.expiry, now),
    {
        let now = Timestamp::now();
        self.time_until_expiry_at(&now)
    }

    /// Validates the document at `now`: it must not have expired. The
    /// identity is checked again; it is valid in every document.
    pub fn validate_at(&self, now: &Timestamp) -> (r: Result<(), Error>)
        ensures
            r is Ok <==> !expired(self@.expiry, *now),
            r matches Err(e) ==> e is ValidationError,
    {
        if self.is_expired_at(now) {
            return Err(Error::ValidationError(String::from_str("SVID has expired")));
        }
        proof {
            use_type_invariant(self);
        }
        self.spiffe_id.validate()
    }

    /// Validates the document by the system clock: the answer of
    /// `validate_at` for the time that the clock gives.
    pub fn validate(&self) -> (r: Result<(), Error>)
        ensures
            exists|now: Timestamp| #[trigger]
                clock_reading(now) && (r is Ok <==> !expired(self@.expiry, now)),
            r matches Err(e) ==> e is ValidationError,
    {
        let now = Timestamp::now();
        self.validate_at(&now)
    }

    /// Whether the document is due for rotation at `now`: the time left is
    /// less than a third of the time left and 24 hours.
    pub fn needs_rotation_at(&self, now: &Timestamp) -> (r: bool)
        ensures
            r == rotation_due(self@.expiry, *now),
    {
        let time_until = self.time_until_expiry_at(now);
        let total_lifetime = time_until + crate::time::NANOS_PER_DAY;
        3 * time_until < total_lifetime
    }

    /// Whether the document is due for rotation by the system clock: the
    /// answer of `needs_rotation_at` for the time that the clock gives.
    pub fn needs_rotation(&self) -> (r: bool)
        ensures
            exists|now: Timestamp| #[trigger]
                clock_reading(now) && r == rotation_due(self@.expiry, now),
    {
        let now = Timestamp::now();
        self.needs_rotation_at(&now)
    }
}

/// A JWT identity document as a mathematical value.
pub struct JwtSvidView {
    /// The identity that the document proves.
    pub spiffe_id: SpiffeIdView,
    /// The token.
    pub token: Seq<char>,
    /// When the document expires.
    pub expiry: Timestamp,
    /// For whom the token is meant.
    pub audience: Seq<Seq<char>>,
}

impl JwtSvidView {
    /// What every JWT identity document holds: a token of three segments
    /// and a valid identity.
    pub open spec fn well_formed(self) -> bool {
        &&& token_well_formed(self.token)
        &&& valid_id(self.spiffe_id)
    }
}

/// A JWT identity document. Only the shape of the token is checked, not its
/// signature.
#[derive(Debug)]
pub struct JwtSvid {
    spiffe_id: SpiffeId,
    token: String,
    expiry: Timestamp,
    audience: Vec<String>,
}

impl View for JwtSvid {
    type V = JwtSvidView;

    closed spec fn view(&self) -> JwtSvidView {
        JwtSvidView {
            spiffe_id: self.spiffe_id@,
            token: self.token@,
            expiry: self.expiry,
            audience: text_views(self.audience@),
        }
    }
}

impl Clone for JwtSvid {
    fn clone(&self) -> (r: Self)
        ensures
            r@ == self@,
    {
        proof {
            use_type_invariant(self);
        }
        JwtSvid {
            spiffe_id: self.spiffe_id.clone(),
            token: self.token.clone(),
            expiry: self.expiry,
            audience: copy_text_list(&self.audience),
        }
    }
}

/// How often `.` occurs in `token`, counted up to 3.
fn count_dots(token: &str) -> (n: usize)
    ensures
        n <= 3,
        n < 3 ==> n == count_char(token@, '.'),
        n == 3 ==> count_char(token@, '.') >= 3,
{
    let chars = chars_of(token);
    let mut n: usize = 0;
    let mut i: usize = 0;
    while i < chars.len() && n < 3
        invariant
            i <= chars.len(),
            chars@ == token@,
            n <= 3,
            n == count_char(chars@.take(i as int), '.'),
        decreases chars.len() - i,
    {
        assert(chars@.take(i + 1).drop_last() =~= chars@.take(i as int));
        if chars[i] == '.' {
            n = n + 1;
        }
        i = i + 1;
    }
    proof {
        lemma_count_char_prefix(chars@, i as int, '.');
    }
    n
}

/// A prefix holds a character no more often than the whole text does.
proof fn lemma_count_char_prefix(s: Seq<char>, i: int, c: char)
    requires
        0 <= i <= s.len(),
    ensures
        count_char(s.take(i), c) <= count_char(s, c),
        i == s.len() ==> count_char(s.take(i), c) == count_char(s, c),
    decreases s.len() - i,
{
    if i == s.len() {
        assert(s.take(i) =~= s);
    } else {
        assert(s.take(i + 1).drop_last() =~= s.take(i));
        lemma_count_char_prefix(s, i + 1, c);
    }
}

impl JwtSvid {
    #[verifier::type_invariant]
    spec fn inv(self) -> bool {
        self@.well_formed()
    }

    /// Makes a document. The token must have three segments between its
    /// dots, and the identity must be valid.
    pub fn new(spiffe_id: SpiffeId, token: String, expiry: Timestamp, audience: Vec<String>) -> (r:
        Result<JwtSvid, Error>)
        ensures
            match r {
                Ok(svid) => svid@ == (JwtSvidView {
                    spiffe_id: spiffe_id@,
                    token: token@,
                    expiry: expiry,
                    audience: text_views(audience@),
                }) && svid@.well_formed(),
                Err(e) => e is JwtError && (!token_well_formed(token@) || !valid_id(spiffe_id@)),
            },
    {
        if token.as_str().is_empty() {
            return Err(Error::JwtError(String::from_str("Token cannot be empty")));
        }
        if count_dots(token.as_str()) != 2 {
            return Err(Error::JwtError(String::from_str("Invalid JWT format")));
        }
        match spiffe_id.validate() {
            Ok(()) => {},
            Err(e) => {
                let mut message = String::from_str("Invalid identity: ");
                message.append(e.text().as_str());
                return Err(Error::JwtError(message));
            },
        }
        Ok(JwtSvid { spiffe_id, token, expiry, audience })
    }

    /// The identity that the document proves.
    pub fn spiffe_id(&self) -> (r: &SpiffeId)
        ensures
            r@ == self@.spiffe_id,
            valid_id(r@),
    {
        proof {
            use_type_invariant(self);
        }
        &self.spiffe_id
    }

    /// The token; it has three segments.
    pub fn token(&self) -> (r: &str)
        ensures
            r@ == self@.token,
            token_well_formed(r@),
    {
        proof {
            use_type_invariant(self);
        }
        self.token.as_str()
    }

    /// When the document expires.
    pub fn expiry(&self) -> (r: &Timestamp)
        ensures
            *r == self@.expiry,
    {
        &self.expiry
    }

    /// For whom the token is meant.
    pub fn audience(&self) -> (r: &Vec<String>)
        ensures
            text_views(r@) == self@.audience,
    {
        &self.audience
    }

    /// Whether `aud` is among those for whom the token is meant.
    pub fn has_audience(&self, aud: &str) -> (r: bool)
        ensures
            r == self@.audience.contains(aud@),
    {
        let mut i: usize = 0;
        while i < self.audience.len()
            invariant
                i <= self.audience.len(),
                forall|k: int| 0 <= k < i ==> text_views(self.audience@)[k] != aud@,
            decreases self.audience.len() - i,
        {
            if str_equal(self.audience[i].as_str(), aud) {
                assert(text_views(self.audience@)[i as int] == aud@);
                return true;
            }
            i = i + 1;
        }
        false
    }

    /// Whether the document has expired at `now`.
    pub fn is_expired_at(&self, now: &Timestamp) -> (r: bool)
        ensures
            r == expired(self@.expiry, *now),
    {
        now.is_after(&self.expiry)
    }

    /// Whether the document has expired by the system clock: the answer of
    /// `is_expired_at` for the time that the clock gives.
    pub fn is_expired(&self) -> (r: bool)
        ensures
            exists|now: Timestamp| #[trigger] clock_reading(now) && r == expired(self@.expiry, now),
    {
        let now = Timestamp::now();
        self.is_expired_at(&now)
    }

    /// Validates the document at `now`: it must not have expired. The
    /// identity is checked again; it is valid in every document.
    pub fn validate_at(&self, now: &Timestamp) -> (r: Result<(), Error>)
        ensures
            r is Ok <==> !expired(self@.expiry, *now),
            r matches Err(e) ==> e is ValidationError,
    {
        if self.is_expired_at(now) {
            return Err(Error::ValidationError(String::from_str("JWT has expired")));
        }
        proof {
            use_type_invariant(self);
        }
        self.spiffe_id.validate()
    }

    /// Validates the document by the system clock: the answer of
    /// `validate_at` for the time that the clock gives.
    pub fn validate(&self) -> (r: Result<(), Error>)
        ensures
            exists|now: Timestamp| #[trigger]
                clock_reading(now) && (r is Ok <==> !expired(self@.expiry, now)),
            r matches Err(e) ==> e is ValidationError,
    {
        let now = Timestamp::now();
        self.validate_at(&now)
    }
}

/// The identity documents of one workload: at most one X.509 document, and
/// JWT documents by audience.
pub struct SvidBundle {
    /// The X.509 document, if there is one.
    pub x509_svid: Option<Arc<X509Svid>>,
    /// The JWT documents, each under its audience.
    pub jwt_svids: StringMap<Arc<JwtSvid>>,
}

impl Clone for SvidBundle {
    /// Another bundle of the same documents: the handles are copied, not
    /// the documents.
    fn clone(&self) -> (r: Self)
        ensures
            r.x509_svid == self.x509_svid,
            r.jwt_svids@ == self.jwt_svids@,
            r.wf() == self.wf(),
    {
        SvidBundle {
            x509_svid: match &self.x509_svid {
                Some(svid) => Some(share(svid)),
                None => None,
            },
            jwt_svids: self.jwt_svids.share_all(),
        }
    }
}

impl SvidBundle {
    /// No audience occurs twice.
    pub open spec fn wf(&self) -> bool {
        self.jwt_svids.wf()
    }

    /// Whether some JWT document of the bundle has expired at `now`.
    pub open spec fn any_jwt_expired(&self, now: Timestamp) -> bool {
        exists|audience: Seq<char>|
            self.jwt_svids@.contains_key(audience) && expired(
                (#[trigger] self.jwt_svids@[audience])@.expiry,
                now,
            )
    }

    /// Whether the bundle needs rotation at `now`: the X.509 document is due
    /// for rotation, or a JWT document has already expired. The X.509
    /// document is renewed ahead of its expiry, a JWT document only after.
    pub open spec fn rotation_needed(&self, now: Timestamp) -> bool {
        (self.x509_svid matches Some(x509) && rotation_due(x509@.expiry, now))
            || self.any_jwt_expired(now)
    }

    /// A bundle with the given X.509 document and no JWT document.
    pub fn new(x509_svid: Option<X509Svid>) -> (bundle: Self)
        ensures
            bundle.wf(),
            bundle.jwt_svids@ == Map::<Seq<char>, Arc<JwtSvid>>::empty(),
            match x509_svid {
                Some(svid) => bundle.x509_svid matches Some(held) && *held == svid,
                None => bundle.x509_svid is None,
            },
    {
        let held = match x509_svid {
            Some(svid) => Some(Arc::new(svid)),
            None => None,
        };
        SvidBundle { x509_svid: held, jwt_svids: StringMap::new() }
    }

    /// Puts a JWT document under `audience`, in place of the one that was
    /// there.
    pub fn add_jwt_svid(&mut self, audience: String, jwt_svid: JwtSvid)
        requires
            old(self).wf(),
        ensures
            final(self).wf(),
            final(self).x509_svid == old(self).x509_svid,
            final(self).jwt_svids@.dom() == old(self).jwt_svids@.dom().insert(audience@),
            *final(self).jwt_svids@[audience@] == jwt_svid,
            forall|other: Seq<char>|
                other != audience@ && old(self).jwt_svids@.contains_key(other)
                    ==> final(self).jwt_svids@[other] == old(self).jwt_svids@[other],
    {
        let _ = self.jwt_svids.insert(audience, Arc::new(jwt_svid));
    }

    /// The JWT document under `audience`, if there is one.
    pub fn get_jwt_svid(&self, audience: &str) -> (r: Option<Arc<JwtSvid>>)
        requires
            self.wf(),
        ensures
            match r {
                Some(svid) => self.jwt_svids@.contains_key(audience@) && svid
                    == self.jwt_svids@[audience@],
                None => !self.jwt_svids@.contains_key(audience@),
            },
    {
        match self.jwt_svids.get(audience) {
            Some(svid) => Some(share(svid)),
            None => None,
        }
    }

    /// Whether the bundle needs rotation at `now`.
    pub fn needs_rotation_at(&self, now: &Timestamp) -> (r: bool)
        requires
            self.wf(),
        ensures
            r == self.rotation_needed(*now),
    {
        match &self.x509_svid {
            Some(x509) => {
                if x509.needs_rotation_at(now) {
                    return true;
                }
            },
            None => {},
        }
        proof {
            self.jwt_svids.lemma_listing();
        }
        let n = self.jwt_svids.len();
        let mut i: usize = 0;
        while i < n
            invariant
                self.wf(),
                i <= n,
                n == self.jwt_svids.key_seq().len(),
                n == self.jwt_svids.value_seq().len(),
                forall|k: int| 0 <= k < i ==> !expired(self.jwt_svids.value_seq()[k]@.expiry, *now),
            decreases n - i,
        {
            if self.jwt_svids.value_at(i).is_expired_at(now) {
                proof {
                    self.jwt_svids.lemma_listing();
                    let audience = self.jwt_svids.key_seq()[i as int];
                    assert(self.jwt_svids@.contains_key(audience));
                }
                return true;
            }
            i = i + 1;
        }
        proof {
            assert forall|audience: Seq<char>| self.jwt_svids@.contains_key(audience) implies !expired(
                (#[trigger] self.jwt_svids@[audience])@.expiry,
                *now,
            ) by {
                let j = self.jwt_svids.key_seq().index_of(audience);
                assert(self.jwt_svids.key_seq()[j] == audience);
            }
        }
        false
    }

    /// Whether the bundle needs rotation by the system clock: the answer of
    /// `needs_rotation_at` for the time that the clock gives.
    pub fn needs_rotation(&self) -> (r: bool)
        requires
            self.wf(),
        ensures
            exists|now: Timestamp| #[trigger] clock_reading(now) && r == self.rotation_needed(now),
    {
        let now = Timestamp::now();
        self.needs_rotation_at(&now)
    }
}

} // verus!
