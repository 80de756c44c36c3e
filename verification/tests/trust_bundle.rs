use spiffe_client::error::Error;
use spiffe_client::spiffe_id::SpiffeId;
use spiffe_client::time::Timestamp;
use spiffe_client::trust_bundle::{FederatedBundle, TrustBundle, TrustBundleStore};

#[test]
fn test_trust_bundle_creation() {
    let bundle = TrustBundle::new("example.org".to_string(), vec![vec![1, 2, 3]]);

    assert_eq!(bundle.trust_domain(), "example.org");
    assert_eq!(bundle.certificates().len(), 1);
    assert_eq!(bundle.sequence_number(), 0);
}

#[test]
fn test_trust_bundle_validation() {
    let bundle = TrustBundle::new("example.org".to_string(), vec![vec![1, 2, 3]]);
    assert!(bundle.validate().is_ok());

    let empty_domain = TrustBundle::new("".to_string(), vec![vec![1, 2, 3]]);
    assert!(empty_domain.validate().is_err());

    let empty_certs = TrustBundle::new("example.org".to_string(), vec![]);
    assert!(empty_certs.validate().is_err());
}

#[test]
fn test_trust_bundle_store() {
    let mut store = TrustBundleStore::new();

    let bundle1 = TrustBundle::new("example.org".to_string(), vec![vec![1, 2, 3]]);
    store.set_bundle(bundle1.clone()).unwrap();

    let retrieved = store.get_bundle("example.org");
    assert!(retrieved.is_some());
    assert_eq!(retrieved.unwrap().trust_domain(), "example.org");

    let bundle2 = TrustBundle::with_sequence("example.org".to_string(), vec![vec![4, 5, 6]], 2);
    assert!(store.update_if_newer(bundle2).unwrap());

    let updated = store.get_bundle("example.org").unwrap();
    assert_eq!(updated.sequence_number(), 2);
}

#[test]
fn test_federated_bundle() {
    let mut federated = FederatedBundle::new("primary.org".to_string());

    let primary = TrustBundle::new("primary.org".to_string(), vec![vec![1, 2, 3]]);
    federated.set_primary(primary).unwrap();

    let secondary = TrustBundle::new("partner.org".to_string(), vec![vec![4, 5, 6]]);
    federated.add_federated(secondary).unwrap();

    assert!(federated.primary().is_some());
    assert_eq!(federated.federated_domains(), vec!["partner.org"]);

    let spiffe_id = SpiffeId::new("partner.org", "/service").unwrap();
    assert!(federated.validate_spiffe_id(&spiffe_id).is_ok());

    let unknown_id = SpiffeId::new("unknown.org", "/service").unwrap();
    assert!(federated.validate_spiffe_id(&unknown_id).is_err());
}

#[test]
fn validation_refuses_an_empty_certificate() {
    let bundle = TrustBundle::new("example.org".to_string(), vec![vec![1], vec![], vec![3]]);
    assert!(matches!(bundle.validate(), Err(Error::TrustBundleError(_))));
    let empty_domain = TrustBundle::new("".to_string(), vec![vec![1]]);
    assert!(matches!(empty_domain.validate(), Err(Error::TrustBundleError(_))));
}

#[test]
fn constructors_stamp_the_bundle() {
    let at = Timestamp::new(1_700_000_000, 7);
    let bundle = TrustBundle::with_sequence_at("example.org".to_string(), vec![vec![1]], 5, at);
    assert_eq!(bundle.sequence_number(), 5);
    assert_eq!(bundle.updated_at(), &at);
    assert_eq!(bundle.certificates(), &vec![vec![1u8]]);
    let stamped = TrustBundle::with_sequence("example.org".to_string(), vec![vec![1]], 9);
    assert_eq!(stamped.sequence_number(), 9);
    assert!(stamped.updated_at().secs > 1_600_000_000);
}

#[test]
fn newer_means_a_strictly_higher_sequence_number() {
    let at = Timestamp::new(0, 0);
    let one = TrustBundle::with_sequence_at("example.org".to_string(), vec![vec![1]], 1, at);
    let two = TrustBundle::with_sequence_at("example.org".to_string(), vec![vec![1]], 2, at);
    assert!(two.is_newer_than(&one));
    assert!(!one.is_newer_than(&two));
    assert!(!one.is_newer_than(&one.clone()));
}

#[test]
fn merge_takes_over_a_newer_bundle_wholesale() {
    let old_time = Timestamp::new(100, 0);
    let new_time = Timestamp::new(200, 0);
    let mut receiver = TrustBundle::with_sequence_at(
        "example.org".to_string(),
        vec![vec![1], vec![2]],
        1,
        old_time,
    );
    let newer = TrustBundle::with_sequence_at("example.org".to_string(), vec![vec![3]], 4, new_time);
    receiver.merge(&newer).unwrap();
    // The certificates of the older bundle are dropped, not joined.
    assert_eq!(receiver.certificates(), &vec![vec![3u8]]);
    assert_eq!(receiver.sequence_number(), 4);
    assert_eq!(receiver.updated_at(), &new_time);
    assert_eq!(receiver.trust_domain(), "example.org");

    let older = TrustBundle::with_sequence_at("example.org".to_string(), vec![vec![9]], 4, old_time);
    receiver.merge(&older).unwrap();
    assert_eq!(receiver.certificates(), &vec![vec![3u8]]);
    assert_eq!(receiver.updated_at(), &new_time);
}

#[test]
fn merge_across_trust_domains_fails_and_changes_nothing() {
    let at = Timestamp::new(100, 0);
    let mut receiver =
        TrustBundle::with_sequence_at("example.org".to_string(), vec![vec![1]], 1, at);
    let other = TrustBundle::with_sequence_at(
        "other.org".to_string(),
        vec![vec![7]],
        9,
        Timestamp::new(900, 0),
    );
    assert!(matches!(receiver.merge(&other), Err(Error::TrustBundleError(_))));
    assert_eq!(receiver.trust_domain(), "example.org");
    assert_eq!(receiver.certificates(), &vec![vec![1u8]]);
    assert_eq!(receiver.sequence_number(), 1);
    assert_eq!(receiver.updated_at(), &at);
}

#[test]
fn add_certificate_raises_the_sequence_number_by_one() {
    let mut bundle =
        TrustBundle::with_sequence_at("example.org".to_string(), vec![vec![1]], 41, Timestamp::new(1, 0));
    let at = Timestamp::new(500, 0);
    bundle.add_certificate_at(vec![2, 2], at).unwrap();
    assert_eq!(bundle.certificates(), &vec![vec![1u8], vec![2u8, 2]]);
    assert_eq!(bundle.sequence_number(), 42);
    assert_eq!(bundle.updated_at(), &at);

    assert!(matches!(bundle.add_certificate_at(vec![], at), Err(Error::TrustBundleError(_))));
    assert_eq!(bundle.certificates().len(), 2);
    assert_eq!(bundle.sequence_number(), 42);

    bundle.add_certificate(vec![3]).unwrap();
    assert_eq!(bundle.sequence_number(), 43);
    assert!(bundle.updated_at().secs > 1_600_000_000);
    assert!(bundle.add_certificate(vec![]).is_err());
}

#[test]
fn prune_expired_removes_nothing() {
    let mut bundle = TrustBundle::new("example.org".to_string(), vec![vec![1], vec![2]]);
    assert_eq!(bundle.prune_expired(), 0);
    assert_eq!(bundle.certificates().len(), 2);
    let mut store = TrustBundleStore::new();
    store.set_bundle(bundle).unwrap();
    assert_eq!(store.prune_all_expired(), 0);
    assert_eq!(store.get_bundle("example.org").unwrap().certificates().len(), 2);
}

#[test]
fn update_if_newer_wants_a_strictly_higher_sequence_number() {
    let at = Timestamp::new(0, 0);
    let mut store = TrustBundleStore::default();
    let first = TrustBundle::with_sequence_at("example.org".to_string(), vec![vec![1]], 1, at);
    // No bundle of that domain yet: it goes in.
    assert!(store.update_if_newer(first).unwrap());

    let same = TrustBundle::with_sequence_at("example.org".to_string(), vec![vec![2]], 1, at);
    assert!(!store.update_if_newer(same).unwrap());
    assert_eq!(store.get_bundle("example.org").unwrap().certificates(), &vec![vec![1u8]]);

    let lower = TrustBundle::with_sequence_at("example.org".to_string(), vec![vec![3]], 0, at);
    assert!(!store.update_if_newer(lower).unwrap());
    assert_eq!(store.get_bundle("example.org").unwrap().sequence_number(), 1);

    let higher = TrustBundle::with_sequence_at("example.org".to_string(), vec![vec![4]], 2, at);
    assert!(store.update_if_newer(higher).unwrap());
    let stored = store.get_bundle("example.org").unwrap();
    assert_eq!(stored.sequence_number(), 2);
    assert_eq!(stored.certificates(), &vec![vec![4u8]]);

    let invalid = TrustBundle::with_sequence_at("example.org".to_string(), vec![], 9, at);
    assert!(matches!(store.update_if_newer(invalid), Err(Error::TrustBundleError(_))));
    assert_eq!(store.get_bundle("example.org").unwrap().sequence_number(), 2);
}

#[test]
fn store_holds_one_bundle_for_a_domain() {
    let at = Timestamp::new(0, 0);
    let mut store = TrustBundleStore::new();
    assert!(store.domains().is_empty());
    assert!(store.get_bundle("a.org").is_none());
    store.set_bundle(TrustBundle::with_sequence_at("a.org".to_string(), vec![vec![1]], 1, at)).unwrap();
    store.set_bundle(TrustBundle::with_sequence_at("b.org".to_string(), vec![vec![2]], 1, at)).unwrap();
    // `set_bundle` puts a bundle in whatever its sequence number.
    store.set_bundle(TrustBundle::with_sequence_at("a.org".to_string(), vec![vec![3]], 0, at)).unwrap();
    let mut domains = store.domains();
    domains.sort();
    assert_eq!(domains, vec!["a.org", "b.org"]);
    let all = store.all_bundles();
    assert_eq!(all.len(), 2);
    assert_eq!(store.get_bundle("a.org").unwrap().certificates(), &vec![vec![3u8]]);

    assert!(matches!(
        store.set_bundle(TrustBundle::with_sequence_at("c.org".to_string(), vec![], 1, at)),
        Err(Error::TrustBundleError(_))
    ));
    assert!(store.get_bundle("c.org").is_none());

    let removed = store.remove_bundle("a.org").unwrap();
    assert_eq!(removed.trust_domain(), "a.org");
    assert!(store.remove_bundle("a.org").is_none());
    assert_eq!(store.domains(), vec!["b.org"]);
}

#[test]
fn federation_keeps_the_primary_domain_apart() {
    let mut federated = FederatedBundle::new("primary.org".to_string());
    let bundle = TrustBundle::new("primary.org".to_string(), vec![vec![1, 2, 3]]);

    assert!(matches!(federated.add_federated(bundle.clone()), Err(Error::TrustBundleError(_))));
    assert!(federated.primary().is_none());
    federated.set_primary(bundle).unwrap();
    assert_eq!(federated.primary().unwrap().trust_domain(), "primary.org");
    assert!(federated.federated_domains().is_empty());

    let partner = TrustBundle::new("partner.org".to_string(), vec![vec![4]]);
    assert!(matches!(federated.set_primary(partner.clone()), Err(Error::TrustBundleError(_))));
    federated.add_federated(partner).unwrap();
    assert_eq!(federated.federated_domains(), vec!["partner.org"]);
    assert!(!federated.federated_domains().contains(&"primary.org".to_string()));

    let invalid = TrustBundle::new("third.org".to_string(), vec![]);
    assert!(federated.add_federated(invalid).is_err());
    assert_eq!(federated.federated_domains(), vec!["partner.org"]);

    let unknown = SpiffeId::new("unknown.org", "/service").unwrap();
    assert!(matches!(federated.validate_spiffe_id(&unknown), Err(Error::ValidationError(_))));
    let primary_id = SpiffeId::new("primary.org", "/service").unwrap();
    assert!(federated.validate_spiffe_id(&primary_id).is_ok());
}

#[test]
fn merging_twice_is_merging_once() {
    let mut receiver = TrustBundle::with_sequence_at(
        "example.org".to_string(),
        vec![vec![1]],
        3,
        Timestamp::new(1, 0),
    );
    let other = TrustBundle::with_sequence_at(
        "example.org".to_string(),
        vec![vec![2], vec![3]],
        5,
        Timestamp::new(2, 0),
    );
    receiver.merge(&other).unwrap();
    let once = (receiver.certificates().clone(), receiver.sequence_number(), *receiver.updated_at());
    receiver.merge(&other).unwrap();
    let twice =
        (receiver.certificates().clone(), receiver.sequence_number(), *receiver.updated_at());
    assert_eq!(once, twice);
    assert_eq!(receiver.sequence_number(), 5);
}

#[test]
fn an_empty_certificate_is_refused_at_the_last_version_too() {
    let at = Timestamp::new(100, 0);
    let mut bundle =
        TrustBundle::with_sequence_at("example.org".to_string(), vec![vec![1]], u64::MAX, at);
    assert!(matches!(
        bundle.add_certificate_at(vec![], Timestamp::new(200, 0)),
        Err(Error::TrustBundleError(_))
    ));
    assert!(matches!(bundle.add_certificate(vec![]), Err(Error::TrustBundleError(_))));
    assert_eq!(bundle.sequence_number(), u64::MAX);
    assert_eq!(bundle.certificates(), &vec![vec![1u8]]);
    assert_eq!(bundle.updated_at(), &at);
}
