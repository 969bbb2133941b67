use nexus_vpc::config::{
    ceil_log2, decimal_text, SchemeName, Tunables, UnvalidatedTunables, MAX_VPC_IPV4_SUBNET_PREFIX,
};
use nexus_vpc::datastore::DataStore;

#[test]
fn test_tunables_default() {
    assert_eq!(Tunables::default().max_vpc_ipv4_subnet_prefix, 26);
    assert_eq!(MAX_VPC_IPV4_SUBNET_PREFIX, 26);
}

#[test]
fn test_valid_ipv4_prefix_tunable() {
    for prefix in 8..=29 {
        assert!(Tunables::validate_ipv4_prefix(prefix).is_ok(), "{prefix}");
        let tunables =
            Tunables::try_from(UnvalidatedTunables { max_vpc_ipv4_subnet_prefix: prefix }).unwrap();
        assert_eq!(tunables, Tunables { max_vpc_ipv4_subnet_prefix: prefix });
    }
    for prefix in (0..8).chain(30..=255) {
        assert!(Tunables::validate_ipv4_prefix(prefix).is_err(), "{prefix}");
    }
}

#[test]
fn test_invalid_ipv4_prefix_tunable() {
    let error = Tunables::try_from(UnvalidatedTunables { max_vpc_ipv4_subnet_prefix: 100 })
        .expect_err("Expected failure");
    assert!(error
        .to_string()
        .starts_with(r#"invalid "max_vpc_ipv4_subnet_prefix": "IPv4 subnet prefix must"#,));
    assert_eq!(error.tunable(), "max_vpc_ipv4_subnet_prefix");
    assert_eq!(error.message(), "IPv4 subnet prefix must be in the range [0, 29], found: 100");
    assert_eq!(
        error.to_string(),
        "invalid \"max_vpc_ipv4_subnet_prefix\": \"IPv4 subnet prefix must be in the range [0, 29], found: 100\""
    );
    let error = Tunables::validate_ipv4_prefix(7).unwrap_err();
    assert_eq!(error.message(), "IPv4 subnet prefix must be in the range [0, 29], found: 7");
}

#[test]
fn test_decimal_and_ceil_log2() {
    for n in 0..=255u8 {
        assert_eq!(decimal_text(n), n.to_string());
    }
    let expected = [(0u8, 0u8), (1, 0), (2, 1), (3, 2), (4, 2), (5, 3), (6, 3), (8, 3), (9, 4), (128, 7), (129, 8), (255, 8)];
    for (n, bits) in expected {
        assert_eq!(ceil_log2(n), bits, "{n}");
    }
}

#[test]
fn test_authn_scheme_names() {
    assert_eq!(SchemeName::from_str("spoof"), Ok(SchemeName::Spoof));
    assert_eq!(SchemeName::from_str("session_cookie"), Ok(SchemeName::SessionCookie));
    assert_eq!(SchemeName::Spoof.to_string(), "spoof");
    assert_eq!(SchemeName::SessionCookie.to_string(), "session_cookie");
    assert_eq!(
        SchemeName::from_str("trust-me"),
        Err("unsupported authn scheme: \"trust-me\"".to_string())
    );
    assert_eq!(
        SchemeName::from_str("a\"b\n"),
        Err("unsupported authn scheme: \"a\\\"b\\n\"".to_string())
    );
    assert!(SchemeName::from_str("Spoof").is_err());
    assert!(SchemeName::from_str("").is_err());
}

#[test]
fn test_store_with_tunables() {
    assert!(DataStore::with_tunables(Tunables { max_vpc_ipv4_subnet_prefix: 27 }).is_ok());
    let error = DataStore::with_tunables(Tunables { max_vpc_ipv4_subnet_prefix: 30 }).err().unwrap();
    assert_eq!(error.message(), "IPv4 subnet prefix must be in the range [0, 29], found: 30");
}

#[test]
fn test_bad_authn_schemes() {
    let error = SchemeName::from_str("trust-me").expect_err("expected failure");
    assert!(error.starts_with("unsupported authn scheme: \"trust-me\""));
}
