use edge_router::error::ConfigError;
use edge_router::origin::{Origin, PriorityList};
use edge_router::registry::{eu_central, us_east, us_west, LocationRegistry, DEFAULT_LOCATION};

fn origins_of(list: &PriorityList) -> Vec<Origin> {
    vec![list.get(0), list.get(1), list.get(2)]
}

fn backends_of(list: &PriorityList) -> Vec<&'static str> {
    origins_of(list).iter().map(|origin| origin.backend_name).collect()
}

#[test]
fn compiled_origins_are_the_three_regions() {
    assert_eq!(
        eu_central(),
        Origin {
            backend_name: "eu_central",
            bucket_name: "YOUR-EU-BUCKET",
            bucket_host: "YOUR-EU-ENDPOINT",
        }
    );
    assert_eq!(
        us_west(),
        Origin {
            backend_name: "us_west",
            bucket_name: "YOUR-US-BUCKET",
            bucket_host: "YOUR-US-ENDPOINT",
        }
    );
    assert_eq!(
        us_east(),
        Origin {
            backend_name: "us_east",
            bucket_name: "YOUR-US-BUCKET",
            bucket_host: "YOUR-US-ENDPOINT",
        }
    );
}

#[test]
fn amsterdam_is_served_from_europe_first() {
    let registry = LocationRegistry::compiled();
    assert_eq!(
        origins_of(&registry.resolve("AMS")),
        vec![eu_central(), us_east(), us_west()]
    );
}

#[test]
fn auckland_is_served_from_the_west_first() {
    let registry = LocationRegistry::compiled();
    assert_eq!(
        origins_of(&registry.resolve("AKL")),
        vec![us_west(), eu_central(), us_east()]
    );
}

#[test]
fn eastern_locations_are_served_from_the_east_first() {
    let registry = LocationRegistry::compiled();
    for code in ["WDC", "IAD", "BWI", "DCA", "ATL", "FTY", "PDK", "BOG", "BOS"] {
        assert_eq!(
            origins_of(&registry.resolve(code)),
            vec![us_east(), us_west(), eu_central()],
            "{}",
            code
        );
    }
}

#[test]
fn compiled_registry_has_eleven_entries_in_order() {
    let registry = LocationRegistry::compiled();
    assert_eq!(registry.len(), 11);
    let codes: Vec<&str> = (0..registry.len()).map(|i| registry.entry(i).0).collect();
    assert_eq!(
        codes,
        vec!["AMS", "WDC", "IAD", "BWI", "DCA", "ATL", "FTY", "PDK", "AKL", "BOG", "BOS"]
    );
    assert_eq!(backends_of(&registry.entry(0).1), vec!["eu_central", "us_east", "us_west"]);
    assert_eq!(backends_of(&registry.entry(8).1), vec!["us_west", "eu_central", "us_east"]);
}

#[test]
fn unknown_codes_are_served_by_the_default_order() {
    let registry = LocationRegistry::compiled();
    for code in ["SJC", "XXX", "", "ams", "AMS ", "AM", "AMSX", "pop"] {
        assert_eq!(
            origins_of(&registry.resolve(code)),
            vec![us_west(), us_east(), eu_central()],
            "{:?}",
            code
        );
    }
    assert_eq!(
        origins_of(&registry.fallback_list()),
        vec![us_west(), us_east(), eu_central()]
    );
}

#[test]
fn compiled_default_location_is_san_jose() {
    assert_eq!(DEFAULT_LOCATION, "SJC");
    assert_eq!(LocationRegistry::compiled().default_location_code(), "SJC");
}

#[test]
fn empty_registry_serves_everything_by_the_fallback() {
    let fallback = PriorityList::new(us_east(), eu_central(), us_west()).unwrap();
    let registry = LocationRegistry::new(fallback, "LHR");
    assert_eq!(registry.len(), 0);
    assert_eq!(registry.default_location_code(), "LHR");
    assert_eq!(backends_of(&registry.resolve("AMS")), vec!["us_east", "eu_central", "us_west"]);
    assert_eq!(backends_of(&registry.resolve("LHR")), vec!["us_east", "eu_central", "us_west"]);
}

#[test]
fn later_entry_for_a_code_replaces_the_earlier_one() {
    let first = PriorityList::new(us_east(), eu_central(), us_west()).unwrap();
    let second = PriorityList::new(eu_central(), us_west(), us_east()).unwrap();
    let fallback = PriorityList::new(us_west(), us_east(), eu_central()).unwrap();
    let registry = LocationRegistry::new(fallback, "SJC")
        .with("LHR", first)
        .with("CDG", first)
        .with("LHR", second);
    assert_eq!(registry.len(), 3);
    assert_eq!(backends_of(&registry.resolve("LHR")), vec!["eu_central", "us_west", "us_east"]);
    assert_eq!(backends_of(&registry.resolve("CDG")), vec!["us_east", "eu_central", "us_west"]);
    assert_eq!(backends_of(&registry.resolve("FRA")), vec!["us_west", "us_east", "eu_central"]);
}

#[test]
fn priority_list_keeps_the_order_of_attempt() {
    let list = PriorityList::new(us_east(), eu_central(), us_west()).unwrap();
    assert_eq!(list.len(), 3);
    assert_eq!(list.get(0), us_east());
    assert_eq!(list.get(1), eu_central());
    assert_eq!(list.get(2), us_west());
}

#[test]
fn priority_list_refuses_an_origin_twice() {
    assert_eq!(
        PriorityList::new(us_east(), us_east(), us_west()),
        Err(ConfigError::DuplicateOrigin)
    );
    assert_eq!(
        PriorityList::new(us_east(), us_west(), us_east()),
        Err(ConfigError::DuplicateOrigin)
    );
    assert_eq!(
        PriorityList::new(us_west(), us_east(), us_east()),
        Err(ConfigError::DuplicateOrigin)
    );
    assert_eq!(
        PriorityList::new(eu_central(), eu_central(), eu_central()),
        Err(ConfigError::DuplicateOrigin)
    );
}

#[test]
fn origins_that_differ_in_one_text_are_distinct() {
    let base = Origin { backend_name: "a", bucket_name: "b", bucket_host: "c" };
    let other_backend = Origin { backend_name: "x", bucket_name: "b", bucket_host: "c" };
    let other_bucket = Origin { backend_name: "a", bucket_name: "x", bucket_host: "c" };
    let other_host = Origin { backend_name: "a", bucket_name: "b", bucket_host: "x" };
    assert!(base.same_as(&Origin { backend_name: "a", bucket_name: "b", bucket_host: "c" }));
    assert!(!base.same_as(&other_backend));
    assert!(!base.same_as(&other_bucket));
    assert!(!base.same_as(&other_host));
    assert!(PriorityList::new(base, other_backend, other_bucket).is_ok());
    assert!(PriorityList::new(base, other_bucket, other_host).is_ok());
    // The two compiled origins of the United States share bucket and host.
    assert!(!us_west().same_as(&us_east()));
}

#[test]
fn host_header_is_bucket_dot_host() {
    assert_eq!(us_west().host_header(), "YOUR-US-BUCKET.YOUR-US-ENDPOINT");
    assert_eq!(eu_central().host_header(), "YOUR-EU-BUCKET.YOUR-EU-ENDPOINT");
    let origin = Origin {
        backend_name: "us_west",
        bucket_name: "my-bucket",
        bucket_host: "s3.us-west-002.backblazeb2.com",
    };
    assert_eq!(origin.host_header(), "my-bucket.s3.us-west-002.backblazeb2.com");
    let bare = Origin { backend_name: "x", bucket_name: "", bucket_host: "" };
    assert_eq!(bare.host_header(), ".");
}
