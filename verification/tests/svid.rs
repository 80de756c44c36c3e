use spiffe_client::error::Error;
use spiffe_client::spiffe_id::SpiffeId;
use spiffe_client::svid::{JwtSvid, SvidBundle, X509Svid};
use spiffe_client::time::Timestamp;

fn hours_from_now(hours: i64) -> Timestamp {
    let now = Timestamp::now();
    Timestamp::new(now.secs + hours * 3600, now.nanos)
}

fn x509_expiring_at(expiry: Timestamp) -> X509Svid {
    let spiffe_id = SpiffeId::new("example.org", "/service/web").unwrap();
    X509Svid::new(spiffe_id, vec![vec![1, 2, 3]], vec![4, 5, 6], expiry, "12345".to_string())
        .unwrap()
}

fn jwt_expiring_at(expiry: Timestamp) -> JwtSvid {
    let spiffe_id = SpiffeId::new("example.org", "/service/web").unwrap();
    JwtSvid::new(
        spiffe_id,
        "header.payload.signature".to_string(),
        expiry,
        vec!["api.example.org".to_string()],
    )
    .unwrap()
}

#[test]
fn test_x509_svid_creation() {
    let spiffe_id = SpiffeId::new("example.org", "/service/web").unwrap();
    let cert_chain = vec![vec![1, 2, 3]];
    let private_key = vec![4, 5, 6];
    let expiry = hours_from_now(1);
    let serial = "12345".to_string();

    let svid = X509Svid::new(spiffe_id.clone(), cert_chain, private_key, expiry, serial).unwrap();

    assert_eq!(svid.spiffe_id(), &spiffe_id);
    assert!(!svid.is_expired());
    assert_eq!(svid.serial_number(), "12345");
}

#[test]
fn test_jwt_svid_creation() {
    let spiffe_id = SpiffeId::new("example.org", "/service/web").unwrap();
    let token = "header.payload.signature".to_string();
    let expiry = hours_from_now(1);
    let audience = vec!["api.example.org".to_string()];

    let svid = JwtSvid::new(spiffe_id.clone(), token, expiry, audience).unwrap();

    assert_eq!(svid.spiffe_id(), &spiffe_id);
    assert!(!svid.is_expired());
    assert!(svid.has_audience("api.example.org"));
    assert!(!svid.has_audience("other.example.org"));
}

#[test]
fn test_invalid_jwt_format() {
    let spiffe_id = SpiffeId::new("example.org", "/service/web").unwrap();
    let token = "invalid_token".to_string();
    let expiry = hours_from_now(1);
    let audience = vec![];

    let result = JwtSvid::new(spiffe_id, token, expiry, audience);
    assert!(result.is_err());
}

#[test]
fn test_svid_expiration() {
    let spiffe_id = SpiffeId::new("example.org", "/service/web").unwrap();
    let cert_chain = vec![vec![1, 2, 3]];
    let private_key = vec![4, 5, 6];
    let expiry = hours_from_now(-1); // Already expired
    let serial = "12345".to_string();

    let svid = X509Svid::new(spiffe_id, cert_chain, private_key, expiry, serial).unwrap();

    assert!(svid.is_expired());
    assert!(svid.validate().is_err());
}

#[test]
fn x509_new_refuses_empty_parts_and_invalid_identities() {
    let id = SpiffeId::new("example.org", "/service/web").unwrap();
    let expiry = Timestamp::new(1_700_000_000, 0);
    assert!(matches!(
        X509Svid::new(id.clone(), vec![], vec![4], expiry, "1".to_string()),
        Err(Error::X509Error(_))
    ));
    assert!(matches!(
        X509Svid::new(id.clone(), vec![vec![1]], vec![], expiry, "1".to_string()),
        Err(Error::X509Error(_))
    ));
    let bad = SpiffeId::new("example.org", "/a/../b").unwrap();
    assert!(matches!(
        X509Svid::new(bad, vec![vec![1]], vec![4], expiry, "1".to_string()),
        Err(Error::X509Error(_))
    ));
}

#[test]
fn x509_accessors_hand_back_what_was_put_in() {
    let id = SpiffeId::new("example.org", "/service/web").unwrap();
    let expiry = Timestamp::new(1_700_000_000, 5);
    let svid = X509Svid::new(
        id.clone(),
        vec![vec![1, 2, 3], vec![9, 9]],
        vec![4, 5, 6],
        expiry,
        "12345".to_string(),
    )
    .unwrap();
    assert_eq!(svid.cert_chain(), &vec![vec![1u8, 2, 3], vec![9u8, 9]]);
    assert_eq!(svid.leaf_cert(), &vec![1u8, 2, 3]);
    assert_eq!(svid.private_key(), &vec![4u8, 5, 6]);
    assert_eq!(svid.expiry(), &expiry);
    let copy = svid.clone();
    assert_eq!(copy.cert_chain(), svid.cert_chain());
    assert_eq!(copy.serial_number(), "12345");
}

#[test]
fn expiry_is_strict() {
    let expiry = Timestamp::new(1_700_000_000, 500);
    let svid = x509_expiring_at(expiry);
    assert!(!svid.is_expired_at(&Timestamp::new(1_700_000_000, 499)));
    assert!(!svid.is_expired_at(&expiry));
    assert!(svid.is_expired_at(&Timestamp::new(1_700_000_000, 501)));
    assert!(svid.is_expired_at(&Timestamp::new(1_700_000_001, 0)));
    assert!(svid.validate_at(&expiry).is_ok());
    assert!(matches!(
        svid.validate_at(&Timestamp::new(1_700_000_001, 0)),
        Err(Error::ValidationError(_))
    ));
}

#[test]
fn time_until_expiry_counts_nanoseconds() {
    let svid = x509_expiring_at(Timestamp::new(100, 250));
    assert_eq!(svid.time_until_expiry_at(&Timestamp::new(98, 750)), 1_999_999_500);
    assert_eq!(svid.time_until_expiry_at(&Timestamp::new(101, 0)), -999_999_750);
}

#[test]
fn rotation_is_due_below_twelve_hours() {
    let now = Timestamp::new(1_700_000_000, 0);
    let twelve_hours = 12 * 3600;
    // A third of (12 h + 24 h) is 12 h: not below it, so not yet due.
    assert!(!x509_expiring_at(Timestamp::new(now.secs + twelve_hours, 0)).needs_rotation_at(&now));
    assert!(x509_expiring_at(Timestamp::new(now.secs + twelve_hours - 1, 999_999_999))
        .needs_rotation_at(&now));
    assert!(!x509_expiring_at(Timestamp::new(now.secs + 24 * 3600, 0)).needs_rotation_at(&now));
    assert!(x509_expiring_at(Timestamp::new(now.secs + 3600, 0)).needs_rotation_at(&now));
    assert!(x509_expiring_at(Timestamp::new(now.secs - 3600, 0)).needs_rotation_at(&now));
}

#[test]
fn rotation_by_the_clock() {
    assert!(!x509_expiring_at(hours_from_now(24)).needs_rotation());
    assert!(x509_expiring_at(hours_from_now(1)).needs_rotation());
    assert!(x509_expiring_at(hours_from_now(1)).time_until_expiry() > 0);
}

#[test]
fn jwt_tokens_have_three_segments() {
    let id = SpiffeId::new("example.org", "/service/web").unwrap();
    let expiry = Timestamp::new(1_700_000_000, 0);
    for token in ["", "a", "a.b", "a.b.c.d", "...."] {
        assert!(matches!(
            JwtSvid::new(id.clone(), token.to_string(), expiry, vec![]),
            Err(Error::JwtError(_))
        ));
    }
    for token in ["a.b.c", "..", "a..c"] {
        let svid = JwtSvid::new(id.clone(), token.to_string(), expiry, vec![]).unwrap();
        assert_eq!(svid.token(), token);
    }
    let bad = SpiffeId::new("example.org", "/..").unwrap();
    assert!(matches!(
        JwtSvid::new(bad, "a.b.c".to_string(), expiry, vec![]),
        Err(Error::JwtError(_))
    ));
}

#[test]
fn jwt_validation_goes_by_expiry() {
    let expiry = Timestamp::new(1_700_000_000, 0);
    let svid = jwt_expiring_at(expiry);
    assert_eq!(svid.expiry(), &expiry);
    assert_eq!(svid.audience(), &vec!["api.example.org".to_string()]);
    assert!(svid.validate_at(&expiry).is_ok());
    assert!(matches!(
        svid.validate_at(&Timestamp::new(1_700_000_000, 1)),
        Err(Error::ValidationError(_))
    ));
    assert!(jwt_expiring_at(hours_from_now(1)).validate().is_ok());
    assert!(jwt_expiring_at(hours_from_now(-1)).validate().is_err());
    assert!(jwt_expiring_at(hours_from_now(-1)).is_expired());
}

#[test]
fn bundle_keeps_jwt_documents_by_audience() {
    let mut bundle = SvidBundle::new(None);
    assert!(bundle.get_jwt_svid("api.example.org").is_none());
    bundle.add_jwt_svid("api.example.org".to_string(), jwt_expiring_at(Timestamp::new(10, 0)));
    bundle.add_jwt_svid("db.example.org".to_string(), jwt_expiring_at(Timestamp::new(20, 0)));
    bundle.add_jwt_svid("api.example.org".to_string(), jwt_expiring_at(Timestamp::new(30, 0)));
    assert_eq!(bundle.jwt_svids.len(), 2);
    assert_eq!(bundle.get_jwt_svid("api.example.org").unwrap().expiry(), &Timestamp::new(30, 0));
    assert_eq!(bundle.get_jwt_svid("db.example.org").unwrap().expiry(), &Timestamp::new(20, 0));
    assert!(bundle.get_jwt_svid("other.example.org").is_none());
}

#[test]
fn bundle_rotation_is_ahead_for_x509_and_late_for_jwt() {
    let now = Timestamp::new(1_700_000_000, 0);
    let in_one_hour = Timestamp::new(now.secs + 3600, 0);
    let in_two_days = Timestamp::new(now.secs + 48 * 3600, 0);
    let an_hour_ago = Timestamp::new(now.secs - 3600, 0);

    assert!(!SvidBundle::new(None).needs_rotation_at(&now));
    assert!(!SvidBundle::new(None).needs_rotation());
    assert!(!SvidBundle::new(Some(x509_expiring_at(in_two_days))).needs_rotation_at(&now));
    // The X.509 document is renewed ahead of its expiry.
    assert!(SvidBundle::new(Some(x509_expiring_at(in_one_hour))).needs_rotation_at(&now));

    // A JWT document that is about to expire does not count yet.
    let mut bundle = SvidBundle::new(Some(x509_expiring_at(in_two_days)));
    bundle.add_jwt_svid("a".to_string(), jwt_expiring_at(in_one_hour));
    assert!(!bundle.needs_rotation_at(&now));
    // One that has expired does.
    bundle.add_jwt_svid("b".to_string(), jwt_expiring_at(an_hour_ago));
    assert!(bundle.needs_rotation_at(&now));
}

#[test]
fn a_copy_of_a_bundle_shares_its_documents() {
    let mut bundle = SvidBundle::new(Some(x509_expiring_at(Timestamp::new(50, 0))));
    bundle.add_jwt_svid("a".to_string(), jwt_expiring_at(Timestamp::new(10, 0)));
    bundle.add_jwt_svid("b".to_string(), jwt_expiring_at(Timestamp::new(20, 0)));
    let copy = bundle.clone();
    assert!(std::sync::Arc::ptr_eq(
        copy.x509_svid.as_ref().unwrap(),
        bundle.x509_svid.as_ref().unwrap()
    ));
    assert_eq!(copy.jwt_svids.len(), 2);
    for audience in ["a", "b"] {
        assert!(std::sync::Arc::ptr_eq(
            &copy.get_jwt_svid(audience).unwrap(),
            &bundle.get_jwt_svid(audience).unwrap()
        ));
    }
    assert!(copy.get_jwt_svid("c").is_none());
    // The copy is a bundle of its own.
    bundle.add_jwt_svid("c".to_string(), jwt_expiring_at(Timestamp::new(30, 0)));
    assert!(copy.get_jwt_svid("c").is_none());
    assert!(SvidBundle::new(None).clone().x509_svid.is_none());
}
