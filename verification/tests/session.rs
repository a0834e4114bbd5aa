use mdns_resolve::{
    DiscoveryItem, ManySearch, ResolveError, SessionConfig, contains_host, matches_any,
    matches_host, requery_interval_millis, resolve_many, resolve_one,
};

fn s(text: &str) -> String {
    text.to_string()
}

fn named(hostname: &str) -> DiscoveryItem {
    DiscoveryItem::Decoded { hostname: Some(s(hostname)) }
}

#[test]
fn requery_interval_is_double_the_timeout() {
    assert!(requery_interval_millis(2000) == 4000);
    assert!(requery_interval_millis(1) == 2);
}

#[test]
fn requery_interval_at_the_largest_accepted_timeout() {
    let largest = u64::MAX / 2;
    assert!(requery_interval_millis(largest) == 2 * largest);
    assert!(requery_interval_millis(largest) > largest);
}

#[test]
fn session_config_doubles_the_timeout_and_keeps_the_identifiers() {
    let config = SessionConfig::new(vec![s("_test._tcp.local")], 2000).unwrap();
    assert!(config.timeout_millis == 2000);
    assert!(config.requery_millis == 4000);
    assert!(config.requery_millis > config.timeout_millis);
    assert!(config.service_identifiers == vec![s("_test._tcp.local")]);
}

#[test]
fn empty_identifier_set_is_rejected_before_listening() {
    let config = SessionConfig::new(Vec::new(), 2000);
    assert!(matches!(config, Err(ResolveError::EmptyServiceSet)));
    let one = resolve_one(Vec::new(), &s("foo.local"), 2000, &Vec::new());
    assert!(matches!(one, Err(ResolveError::EmptyServiceSet)));
    let many = resolve_many(Vec::new(), &vec![s("a.local")], 2000, &Vec::new());
    assert!(matches!(many, Err(ResolveError::EmptyServiceSet)));
}

#[test]
fn zero_timeout_is_rejected_before_listening() {
    let ids = vec![s("_test._tcp.local")];
    assert!(matches!(SessionConfig::new(ids.clone(), 0), Err(ResolveError::ZeroTimeout)));
    let one = resolve_one(ids.clone(), &s("foo.local"), 0, &Vec::new());
    assert!(matches!(one, Err(ResolveError::ZeroTimeout)));
    let many = resolve_many(ids, &vec![s("a.local")], 0, &Vec::new());
    assert!(matches!(many, Err(ResolveError::ZeroTimeout)));
}

#[test]
fn matching_is_exact_string_equality() {
    assert!(matches_host(&s("foo.local"), &named("foo.local")));
    assert!(!matches_host(&s("foo.local"), &named("Foo.local")));
    assert!(!matches_host(&s("foo.local"), &named("foo.loca")));
    assert!(!matches_host(&s("foo.local"), &DiscoveryItem::Decoded { hostname: None }));
    assert!(!matches_host(&s("foo.local"), &DiscoveryItem::Failed));
}

#[test]
fn membership_test_is_order_independent() {
    let hosts = vec![s("a.local"), s("b.local")];
    assert!(contains_host(&hosts, &s("a.local")));
    assert!(contains_host(&hosts, &s("b.local")));
    assert!(!contains_host(&hosts, &s("c.local")));
    assert!(matches_any(&hosts, &named("b.local")));
    assert!(!matches_any(&hosts, &named("B.local")));
    assert!(!matches_any(&hosts, &DiscoveryItem::Failed));
}

#[test]
fn many_search_counts_only_target_hostnames() {
    let mut search = ManySearch::new(vec![s("a.local"), s("b.local")]);
    assert!(!search.complete());
    assert!(!search.observe(&DiscoveryItem::Failed));
    assert!(!search.observe(&named("c.local")));
    assert!(!search.observe(&DiscoveryItem::Decoded { hostname: None }));
    assert!(search.observe(&named("a.local")));
    assert!(!search.complete());
    assert!(search.observe(&named("b.local")));
    assert!(search.complete());
}

#[test]
fn many_search_with_no_targets_is_complete_from_the_start() {
    let search = ManySearch::new(Vec::new());
    assert!(search.complete());
}
