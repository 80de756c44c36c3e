use rcgen::{BasicConstraints, Certificate, CertificateParams, IsCa, SanType};
use spiffe_client::error::SpiffeError;
use spiffe_client::identity::{
    extract_spiffe_id, identity_from_extensions, spiffe_uri_among, validate_spiffe_id,
    verify_spiffe_certificate, AltName, CertExtension,
};

fn self_signed(sans: Vec<SanType>) -> Vec<u8> {
    let mut params = CertificateParams::new(Vec::<String>::new());
    params.subject_alt_names = sans;
    Certificate::from_params(params).unwrap().serialize_der().unwrap()
}

fn uri(text: &str) -> SanType {
    SanType::URI(text.to_string())
}

#[test]
fn the_identity_is_the_spiffe_uri_of_the_subject_alternative_name() {
    let der = self_signed(vec![uri("spiffe://example.org/workload")]);
    assert_eq!(extract_spiffe_id(&der).unwrap(), "spiffe://example.org/workload");
}

#[test]
fn the_first_spiffe_uri_is_taken() {
    let der = self_signed(vec![
        SanType::DnsName("example.org".to_string()),
        uri("https://example.org/x"),
        uri("spiffe://example.org/first"),
        uri("spiffe://example.org/second"),
    ]);
    assert_eq!(extract_spiffe_id(&der).unwrap(), "spiffe://example.org/first");
}

#[test]
fn a_certificate_without_a_spiffe_uri_has_no_identity() {
    let only_dns = self_signed(vec![SanType::DnsName("example.org".to_string())]);
    assert!(matches!(extract_spiffe_id(&only_dns), Err(SpiffeError::ValidationError(_))));
    let other_uri = self_signed(vec![uri("https://spiffe://example.org/x")]);
    assert!(matches!(extract_spiffe_id(&other_uri), Err(SpiffeError::ValidationError(_))));
    let no_san = self_signed(vec![]);
    assert!(matches!(extract_spiffe_id(&no_san), Err(SpiffeError::ValidationError(_))));
    // A certificate authority carries other extensions, and no identity.
    let mut params = CertificateParams::new(Vec::<String>::new());
    params.is_ca = IsCa::Ca(BasicConstraints::Unconstrained);
    let ca = Certificate::from_params(params).unwrap().serialize_der().unwrap();
    assert!(extract_spiffe_id(&ca).is_err());
}

#[test]
fn what_is_no_certificate_has_no_identity() {
    assert!(matches!(extract_spiffe_id(&[]), Err(SpiffeError::ValidationError(_))));
    assert!(matches!(extract_spiffe_id(&[1, 2, 3]), Err(SpiffeError::ValidationError(_))));
    let mut der = self_signed(vec![uri("spiffe://example.org/workload")]);
    der.truncate(der.len() / 2);
    assert!(extract_spiffe_id(&der).is_err());
}

#[test]
fn general_names_are_searched_in_order() {
    let names = vec![
        AltName::Other,
        AltName::Uri("http://example.org".to_string()),
        AltName::Uri("spiffe:/example.org".to_string()),
        AltName::Uri("spiffe://a".to_string()),
        AltName::Uri("spiffe://b".to_string()),
    ];
    assert_eq!(spiffe_uri_among(&names), Some("spiffe://a".to_string()));
    assert_eq!(spiffe_uri_among(&vec![AltName::Uri("spiffe://".to_string())]), Some("spiffe://".to_string()));
    assert_eq!(spiffe_uri_among(&vec![AltName::Other, AltName::Uri("SPIFFE://a".to_string())]), None);
    assert_eq!(spiffe_uri_among(&vec![]), None);
}

// The contents of a Subject Alternative Name with one URI.
fn san_with_uri(text: &str) -> Vec<u8> {
    let mut name = vec![0x86, text.len() as u8];
    name.extend_from_slice(text.as_bytes());
    let mut value = vec![0x30, name.len() as u8];
    value.extend_from_slice(&name);
    value
}

#[test]
fn only_the_subject_alternative_name_is_read() {
    let san = vec![0x55, 0x1d, 0x11];
    let key_usage = vec![0x55, 0x1d, 0x0f];
    let found = identity_from_extensions(&vec![
        CertExtension { oid: key_usage.clone(), value: san_with_uri("spiffe://example.org/no") },
        CertExtension { oid: san.clone(), value: san_with_uri("spiffe://example.org/yes") },
    ]);
    assert_eq!(found.unwrap(), "spiffe://example.org/yes");

    let none = identity_from_extensions(&vec![CertExtension {
        oid: key_usage,
        value: san_with_uri("spiffe://example.org/no"),
    }]);
    assert!(matches!(none, Err(SpiffeError::ValidationError(_))));

    // A Subject Alternative Name that cannot be read ends the search.
    let malformed = identity_from_extensions(&vec![
        CertExtension { oid: san.clone(), value: vec![0x30, 0x05, 0x86] },
        CertExtension { oid: san, value: san_with_uri("spiffe://example.org/yes") },
    ]);
    assert!(matches!(malformed, Err(SpiffeError::ValidationError(_))));
    assert!(identity_from_extensions(&vec![]).is_err());
}

#[test]
fn the_trust_domain_ends_at_the_first_slash() {
    assert!(validate_spiffe_id("spiffe://example.org/service/web", "example.org").is_ok());
    assert!(validate_spiffe_id("spiffe://example.org", "example.org").is_ok());
    assert!(validate_spiffe_id("spiffe://example.org/", "example.org").is_ok());
    assert!(validate_spiffe_id("spiffe:///x", "").is_ok());
    match validate_spiffe_id("spiffe://other.org/service", "example.org") {
        Err(SpiffeError::TrustDomainMismatch { expected, actual }) => {
            assert_eq!(expected, "example.org");
            assert_eq!(actual, "other.org");
        }
        other => panic!("unexpected: {:?}", other),
    }
    assert!(matches!(
        validate_spiffe_id("spiffe://example.org.evil/x", "example.org"),
        Err(SpiffeError::TrustDomainMismatch { .. })
    ));
    assert!(matches!(
        validate_spiffe_id("spiffe://example/x", "example.org"),
        Err(SpiffeError::TrustDomainMismatch { .. })
    ));
}

#[test]
fn what_does_not_begin_with_the_scheme_is_no_identity() {
    for text in ["", "spiffe:/example.org/x", "http://example.org/x", "example.org", " spiffe://a/b"] {
        assert!(matches!(
            validate_spiffe_id(text, "example.org"),
            Err(SpiffeError::InvalidSpiffeId(_))
        ));
    }
}

#[test]
fn a_certificate_is_checked_against_the_domain_and_the_identity_expected() {
    let der = self_signed(vec![uri("spiffe://example.org/rust-server")]);
    assert_eq!(
        verify_spiffe_certificate(&der, "example.org", None).unwrap(),
        "spiffe://example.org/rust-server"
    );
    assert_eq!(
        verify_spiffe_certificate(&der, "example.org", Some("spiffe://example.org/rust-server"))
            .unwrap(),
        "spiffe://example.org/rust-server"
    );
    assert!(matches!(
        verify_spiffe_certificate(&der, "example.org", Some("spiffe://example.org/other")),
        Err(SpiffeError::ValidationError(_))
    ));
    assert!(matches!(
        verify_spiffe_certificate(&der, "other.org", None),
        Err(SpiffeError::TrustDomainMismatch { .. })
    ));
    assert!(matches!(
        verify_spiffe_certificate(&[0x30, 0x00], "example.org", None),
        Err(SpiffeError::ValidationError(_))
    ));
}

#[test]
fn the_text_form_of_a_name_has_its_trust_domain() {
    for (domain, path) in [("example.org", "/service/web"), ("a", "/"), ("prod.example", "x/y")] {
        let id = spiffe_client::SpiffeId::new(domain, path).unwrap();
        assert!(validate_spiffe_id(&id.to_string(), id.trust_domain()).is_ok());
        assert!(validate_spiffe_id(&id.to_string(), "elsewhere.org").is_err());
    }
}

#[test]
fn a_mismatch_names_both_trust_domains() {
    let der = self_signed(vec![uri("spiffe://other.org/rust-server")]);
    for expected_id in [None, Some("spiffe://other.org/rust-server")] {
        match verify_spiffe_certificate(&der, "example.org", expected_id) {
            Err(SpiffeError::TrustDomainMismatch { expected, actual }) => {
                assert_eq!(expected, "example.org");
                assert_eq!(actual, "other.org");
            }
            other => panic!("unexpected: {:?}", other),
        }
    }
}
