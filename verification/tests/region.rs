use edge_router::auth::Authenticator;
use edge_router::config::RouterConfig;
use edge_router::error::ConfigError;
use edge_router::origin::{Origin, PriorityList};
use edge_router::region::{
    confirm_region, extract_region, region_char, ENDPOINT_PREFIX, ENDPOINT_SUFFIX, REGION_GROUP,
    REGION_PATTERN,
};
use edge_router::registry::{eu_central, us_east, us_west, LocationRegistry};

const WEST: Origin = Origin {
    backend_name: "us_west",
    bucket_name: "west-bucket",
    bucket_host: "s3.us-west-002.backblazeb2.com",
};

const EAST: Origin = Origin {
    backend_name: "us_east",
    bucket_name: "east-bucket",
    bucket_host: "s3.us-east-005.backblazeb2.com",
};

const EUROPE: Origin = Origin {
    backend_name: "eu_central",
    bucket_name: "eu-bucket",
    bucket_host: "s3.eu-central-003.backblazeb2.com",
};

const ELSEWHERE: Origin = Origin {
    backend_name: "elsewhere",
    bucket_name: "other-bucket",
    bucket_host: "storage.example.com",
};

#[test]
fn region_is_extracted_from_a_regional_endpoint() {
    assert_eq!(
        extract_region("s3.us-west-002.backblazeb2.com"),
        Some("us-west-002".to_string())
    );
    assert_eq!(
        extract_region("s3.eu-central-003.backblazeb2.com"),
        Some("eu-central-003".to_string())
    );
    assert_eq!(extract_region("s3.x.backblazeb2.com"), Some("x".to_string()));
    assert_eq!(extract_region("s3.-.backblazeb2.com"), Some("-".to_string()));
    assert_eq!(extract_region("s3.US-West-9.backblazeb2.com"), Some("US-West-9".to_string()));
    assert_eq!(extract_region("s3.s3.backblazeb2.com"), Some("s3".to_string()));
}

#[test]
fn hosts_outside_the_convention_name_no_region() {
    for host in [
        "",
        "example.com",
        "storage.example.com",
        "YOUR-US-ENDPOINT",
        "s3.backblazeb2.com",
        "s3..backblazeb2.com",
        "s3.us_west.backblazeb2.com",
        "s3.us.west.backblazeb2.com",
        "s3.us west.backblazeb2.com",
        "xs3.us-west-002.backblazeb2.com",
        " s3.us-west-002.backblazeb2.com",
        "s3.us-west-002.backblazeb2.com ",
        "s3.us-west-002.backblazeb2.com\n",
        "s3.us-west-002.backblazeb2.com.example.com",
        "S3.us-west-002.backblazeb2.com",
        "s3.us-west-002.BACKBLAZEB2.com",
        "s3-us-west-002.backblazeb2.com",
        "s3.us-west-002.backblazeb2xcom",
        "s3.us-west-002.backblazeb2.co",
        "s3.\u{e9}.backblazeb2.com",
        "s3.us-west-\u{660}.backblazeb2.com",
        "bucket.s3.us-west-002.backblazeb2.com",
    ] {
        assert_eq!(extract_region(host), None, "{:?}", host);
    }
}

#[test]
fn pattern_and_affixes_are_those_of_the_convention() {
    assert_eq!(REGION_PATTERN, r"^s3\.([[:alnum:]\-]+)\.backblazeb2\.com$");
    assert_eq!(REGION_GROUP, 1);
    assert_eq!(ENDPOINT_PREFIX, "s3.");
    assert_eq!(ENDPOINT_SUFFIX, ".backblazeb2.com");
}

#[test]
fn region_characters_are_ascii_letters_digits_and_hyphen() {
    for c in ['0', '5', '9', 'a', 'm', 'z', 'A', 'M', 'Z', '-'] {
        assert!(region_char(c), "{:?}", c);
    }
    for c in ['.', '_', ' ', '/', ':', '@', '[', '`', '{', '\n', '\u{e9}', '\u{660}', '\u{ff21}'] {
        assert!(!region_char(c), "{:?}", c);
    }
}

#[test]
fn a_candidate_is_confirmed_only_as_the_region_of_its_host() {
    let host = "s3.us-west-002.backblazeb2.com";
    assert_eq!(
        confirm_region(host, Some("us-west-002".to_string())),
        Some("us-west-002".to_string())
    );
    assert_eq!(confirm_region(host, None), None);
    assert_eq!(confirm_region(host, Some(host.to_string())), None);
    assert_eq!(confirm_region(host, Some("us-west-00".to_string())), None);
    assert_eq!(confirm_region(host, Some("us-west-0022".to_string())), None);
    assert_eq!(confirm_region(host, Some("us-east-002".to_string())), None);
    assert_eq!(confirm_region(host, Some("".to_string())), None);
    assert_eq!(confirm_region("s3..backblazeb2.com", Some("".to_string())), None);
    assert_eq!(confirm_region("s3.a.b.backblazeb2.com", Some("a.b".to_string())), None);
    assert_eq!(confirm_region("s3.a_b.backblazeb2.com", Some("a_b".to_string())), None);
    assert_eq!(confirm_region("", Some("x".to_string())), None);
    assert_eq!(confirm_region("s3.x.backblazeb2.co", Some("x".to_string())), None);
}

fn signing_registry(first: Origin, second: Origin, third: Origin) -> LocationRegistry {
    let fallback = PriorityList::new(WEST, EAST, EUROPE).unwrap();
    LocationRegistry::new(fallback, "SJC")
        .with("AMS", PriorityList::new(EUROPE, EAST, WEST).unwrap())
        .with("XXX", PriorityList::new(first, second, third).unwrap())
}

#[test]
fn signing_configuration_with_regional_endpoints_is_accepted() {
    let config = RouterConfig::new(signing_registry(EAST, WEST, EUROPE), Authenticator::Signing);
    assert!(config.is_ok());
    let config = config.unwrap();
    assert_eq!(config.authenticator_kind(), Authenticator::Signing);
    assert_eq!(config.default_location_code(), "SJC");
    assert_eq!(config.resolve("AMS").get(0), EUROPE);
    assert_eq!(config.resolve("nowhere").get(0), WEST);
}

#[test]
fn signing_configuration_with_another_host_is_refused() {
    for registry in [
        signing_registry(ELSEWHERE, WEST, EUROPE),
        signing_registry(EAST, ELSEWHERE, EUROPE),
        signing_registry(EAST, WEST, ELSEWHERE),
    ] {
        let refused = RouterConfig::new(registry, Authenticator::Signing);
        assert_eq!(refused.err(), Some(ConfigError::NonConformingHost(ELSEWHERE)));
    }
}

#[test]
fn signing_configuration_with_another_fallback_host_is_refused() {
    let fallback = PriorityList::new(WEST, ELSEWHERE, EUROPE).unwrap();
    let registry = LocationRegistry::new(fallback, "SJC")
        .with("AMS", PriorityList::new(EUROPE, EAST, WEST).unwrap());
    assert_eq!(
        RouterConfig::new(registry, Authenticator::Signing).err(),
        Some(ConfigError::NonConformingHost(ELSEWHERE))
    );
}

#[test]
fn compiled_placeholders_are_refused_for_signing() {
    let refused = RouterConfig::new(LocationRegistry::compiled(), Authenticator::Signing);
    assert_eq!(refused.err(), Some(ConfigError::NonConformingHost(us_west())));
    assert!(extract_region(us_west().bucket_host).is_none());
    assert!(extract_region(us_east().bucket_host).is_none());
    assert!(extract_region(eu_central().bucket_host).is_none());
}

#[test]
fn any_configuration_is_accepted_without_signing() {
    assert!(RouterConfig::new(LocationRegistry::compiled(), Authenticator::Disabled).is_ok());
    let config =
        RouterConfig::new(signing_registry(ELSEWHERE, WEST, EUROPE), Authenticator::Disabled)
            .unwrap();
    assert_eq!(config.authenticator_kind(), Authenticator::Disabled);
    assert_eq!(config.resolve("XXX").get(0), ELSEWHERE);
}
