use spiffe_client::error::Error;
use spiffe_client::spiffe_id::SpiffeId;

#[test]
fn test_spiffe_id_creation() {
    let id = SpiffeId::new("example.org", "/service/web").unwrap();
    assert_eq!(id.trust_domain(), "example.org");
    assert_eq!(id.path(), "/service/web");
    assert_eq!(id.to_string(), "spiffe://example.org/service/web");
}

#[test]
fn test_spiffe_id_parsing() {
    let id = SpiffeId::parse("spiffe://example.org/service/web").unwrap();
    assert_eq!(id.trust_domain(), "example.org");
    assert_eq!(id.path(), "/service/web");
}

#[test]
fn test_invalid_spiffe_id() {
    assert!(SpiffeId::parse("http://example.org/service").is_err());
    assert!(SpiffeId::parse("spiffe://").is_err());
    assert!(SpiffeId::parse("spiffe://example.org").is_err());
    assert!(SpiffeId::new("", "/service").is_err());
    assert!(SpiffeId::new("example.org", "").is_err());
}

#[test]
fn test_spiffe_id_validation() {
    let id = SpiffeId::new("example.org", "/service/web").unwrap();
    assert!(id.validate().is_ok());

    // A path with a `..` segment is kept as given and fails validation.
    let id = SpiffeId::new("example.org", "/../etc/passwd").unwrap();
    assert_eq!(id.trust_domain(), "example.org");
    assert_eq!(id.path(), "/../etc/passwd");
    assert!(id.validate().is_err());
}

#[test]
fn test_trust_domain_membership() {
    let id = SpiffeId::new("example.org", "/service/web").unwrap();
    assert!(id.is_member_of("example.org"));
    assert!(!id.is_member_of("other.org"));
}

#[test]
fn new_puts_a_slash_before_a_relative_path() {
    let id = SpiffeId::new("example.org", "service/web").unwrap();
    assert_eq!(id.path(), "/service/web");
    assert_eq!(id.to_string(), "spiffe://example.org/service/web");
}

#[test]
fn new_rejects_slash_and_colon_in_the_trust_domain() {
    assert!(matches!(SpiffeId::new("example.org/x", "/a"), Err(Error::InvalidSpiffeId(_))));
    assert!(matches!(SpiffeId::new("example.org:80", "/a"), Err(Error::InvalidSpiffeId(_))));
    assert!(matches!(SpiffeId::new("", "/a"), Err(Error::InvalidSpiffeId(_))));
    assert!(matches!(SpiffeId::new("example.org", ""), Err(Error::InvalidSpiffeId(_))));
}

#[test]
fn new_reports_what_the_url_parser_rejects() {
    // A space is no character of a host.
    assert!(matches!(SpiffeId::new("exa mple.org", "/a"), Err(Error::UrlError(_))));
}

#[test]
fn parse_tells_a_foreign_scheme_from_a_text_that_is_no_url() {
    assert!(matches!(SpiffeId::parse("http://example.org/x"), Err(Error::InvalidSpiffeId(_))));
    assert!(matches!(SpiffeId::parse("spiffe://example.org"), Err(Error::InvalidSpiffeId(_))));
    assert!(matches!(SpiffeId::parse("spiffe://example.org/"), Err(Error::InvalidSpiffeId(_))));
    assert!(matches!(SpiffeId::parse("not a url"), Err(Error::UrlError(_))));
}

#[test]
fn text_form_reads_back_as_the_same_name() {
    let pairs = [
        ("example.org", "/service/web"),
        ("example.org", "workload"),
        ("prod.example-corp.internal", "/ns/default/sa/api"),
    ];
    for (domain, path) in pairs {
        let id = SpiffeId::new(domain, path).unwrap();
        let back = SpiffeId::parse(&id.to_string()).unwrap();
        assert_eq!(back, id);
        assert_eq!(back.trust_domain(), domain);
        assert_eq!(back.to_string(), id.to_string());
    }
}

#[test]
fn a_trust_domain_with_a_question_mark_does_not_read_back() {
    // The URL parser takes what follows `?` for a query, so the text form
    // has no path left.
    let id = SpiffeId::new("a?b", "/x").unwrap();
    assert_eq!(id.to_string(), "spiffe://a?b/x");
    assert!(SpiffeId::parse(&id.to_string()).is_err());
}

#[test]
fn a_root_path_is_made_but_does_not_read_back() {
    let id = SpiffeId::new("example.org", "/").unwrap();
    assert!(id.validate().is_err());
    assert!(SpiffeId::parse(&id.to_string()).is_err());
}

#[test]
fn validate_goes_by_segments() {
    assert!(SpiffeId::new("example.org", "/a/../b").unwrap().validate().is_err());
    assert!(SpiffeId::new("example.org", "/a/..").unwrap().validate().is_err());
    assert!(SpiffeId::new("example.org", "/..").unwrap().validate().is_err());
    // Two dots inside a longer segment are no `..` segment.
    assert!(SpiffeId::new("example.org", "/a..b").unwrap().validate().is_ok());
    assert!(SpiffeId::new("example.org", "/...").unwrap().validate().is_ok());
}

#[test]
fn equality_goes_by_trust_domain_and_path() {
    let a = SpiffeId::new("example.org", "/a").unwrap();
    let b = SpiffeId::parse("spiffe://example.org/a").unwrap();
    let c = SpiffeId::new("example.org", "/c").unwrap();
    assert_eq!(a, b);
    assert_ne!(a, c);
    assert_eq!(a.clone(), a);
}

#[test]
fn as_url_gives_the_parts_of_the_text_form() {
    let id = SpiffeId::new("example.org", "/service/web").unwrap();
    let url = id.as_url().unwrap();
    assert_eq!(url.scheme, "spiffe");
    assert_eq!(url.host.as_deref(), Some("example.org"));
    assert_eq!(url.path, "/service/web");
    assert!(!url.cannot_be_a_base);
    assert_eq!(url.text, "spiffe://example.org/service/web");
}

#[test]
fn from_str_reads_a_name() {
    let id: SpiffeId = "spiffe://example.org/service/web".parse().unwrap();
    assert_eq!(id.path(), "/service/web");
}

#[test]
fn errors_carry_their_text() {
    assert_eq!(Error::invalid_spiffe_id("a").text(), "a");
    assert!(matches!(Error::tls_error("b"), Error::TlsError(m) if m == "b"));
    assert!(matches!(Error::agent_error("c"), Error::AgentError(m) if m == "c"));
    assert_eq!(Error::X509Error("d".to_string()).text(), "d");
    match SpiffeId::parse("not a url") {
        Err(e) => assert_eq!(e.text(), ""),
        Ok(_) => panic!("a text without a scheme is no name"),
    }
}

#[test]
fn an_error_of_no_other_kind_carries_its_text_too() {
    assert_eq!(Error::Other("anything else".to_string()).text(), "anything else");
    assert_eq!(Error::TrustBundleError("t".to_string()).text(), "t");
}

#[test]
fn from_str_fails_as_parse_does() {
    assert!(matches!("http://example.org/x".parse::<SpiffeId>(), Err(Error::InvalidSpiffeId(_))));
    assert!(matches!("spiffe://example.org".parse::<SpiffeId>(), Err(Error::InvalidSpiffeId(_))));
    assert!(matches!("not a url".parse::<SpiffeId>(), Err(Error::UrlError(_))));
    let read: SpiffeId = "spiffe://example.org/a/b".parse().unwrap();
    assert_eq!(read, SpiffeId::parse("spiffe://example.org/a/b").unwrap());
}

fn parsed(scheme: &str, host: Option<&str>, path: &str, cannot_be_a_base: bool) -> spiffe_client::uri::ParsedUrl {
    spiffe_client::uri::ParsedUrl {
        scheme: scheme.to_string(),
        host: host.map(|h| h.to_string()),
        path: path.to_string(),
        cannot_be_a_base,
        text: String::new(),
    }
}

#[test]
fn a_parsed_url_names_a_workload_by_host_and_path() {
    let id = SpiffeId::from_url(parsed("spiffe", Some("example.org"), "/service/web", false)).unwrap();
    assert_eq!(id.trust_domain(), "example.org");
    assert_eq!(id.path(), "/service/web");
    for url in [
        parsed("http", Some("example.org"), "/service/web", false),
        parsed("SPIFFE", Some("example.org"), "/service/web", false),
        parsed("spiffe", None, "/service/web", false),
        parsed("spiffe", Some(""), "/service/web", false),
        parsed("spiffe", Some("example.org"), "", false),
        parsed("spiffe", Some("example.org"), "/", false),
    ] {
        assert!(matches!(SpiffeId::from_url(url), Err(Error::InvalidSpiffeId(_))));
    }
    // Whether the URL has a hierarchy plays no part in reading a name.
    assert!(SpiffeId::from_url(parsed("spiffe", Some("a"), "/b", true)).is_ok());
    assert!(SpiffeId::from_url(parsed("spiffe", Some("a"), "//", false)).is_ok());
}

#[test]
fn new_goes_by_scheme_and_hierarchy_of_the_parsed_text() {
    let good = parsed("spiffe", Some("ignored"), "/ignored", false);
    let id = SpiffeId::new_with_url("example.org", "service/web", &good).unwrap();
    assert_eq!(id.trust_domain(), "example.org");
    assert_eq!(id.path(), "/service/web");
    assert_eq!(SpiffeId::new_with_url("example.org", "/x", &good).unwrap().path(), "/x");

    let foreign = parsed("https", Some("example.org"), "/x", false);
    assert!(matches!(
        SpiffeId::new_with_url("example.org", "/x", &foreign),
        Err(Error::InvalidSpiffeId(_))
    ));
    let flat = parsed("spiffe", None, "example.org", true);
    assert!(matches!(
        SpiffeId::new_with_url("example.org", "/x", &flat),
        Err(Error::InvalidSpiffeId(_))
    ));
    for (domain, path) in [("", "/x"), ("a/b", "/x"), ("a:b", "/x"), ("example.org", "")] {
        assert!(matches!(
            SpiffeId::new_with_url(domain, path, &good),
            Err(Error::InvalidSpiffeId(_))
        ));
    }
}
