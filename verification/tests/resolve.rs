use mdns_resolve::{DiscoveryItem, TimedItem, resolve_many, resolve_one, run_many, run_one};

fn s(text: &str) -> String {
    text.to_string()
}

fn announced(at_millis: u64, hostname: &str) -> TimedItem {
    TimedItem { at_millis, item: DiscoveryItem::Decoded { hostname: Some(s(hostname)) } }
}

fn anonymous(at_millis: u64) -> TimedItem {
    TimedItem { at_millis, item: DiscoveryItem::Decoded { hostname: None } }
}

fn failed(at_millis: u64) -> TimedItem {
    TimedItem { at_millis, item: DiscoveryItem::Failed }
}

fn service() -> Vec<String> {
    vec![s("_test._tcp.local")]
}

#[test]
fn one_returns_matching_result_without_waiting() {
    let events = vec![announced(100, "bar.local"), announced(300, "foo.local")];
    let run = resolve_one(service(), &s("foo.local"), 2000, &events).unwrap();
    assert!(run.found == Some(1));
    assert!(run.finished_at_millis == 300);
}

#[test]
fn one_times_out_when_nothing_matches() {
    let events = vec![
        announced(100, "bar.local"),
        anonymous(200),
        failed(700),
        announced(1500, "baz.local"),
    ];
    let run = resolve_one(service(), &s("foo.local"), 2000, &events).unwrap();
    assert!(run.found == None);
    assert!(run.finished_at_millis == 2000);
}

#[test]
fn one_matching_is_case_sensitive() {
    let events = vec![announced(100, "a")];
    let run = resolve_one(service(), &s("A"), 2000, &events).unwrap();
    assert!(run.found == None);
    assert!(run.finished_at_millis == 2000);
}

#[test]
fn one_ignores_results_from_the_deadline_on() {
    let events = vec![announced(2000, "foo.local"), announced(2300, "foo.local")];
    let run = run_one(&s("foo.local"), &events, 2000);
    assert!(run.found == None);
    assert!(run.finished_at_millis == 2000);
}

#[test]
fn one_returns_the_first_of_several_matches() {
    let events = vec![
        announced(100, "bar.local"),
        announced(200, "foo.local"),
        announced(400, "foo.local"),
    ];
    let run = run_one(&s("foo.local"), &events, 2000);
    assert!(run.found == Some(1));
    assert!(run.finished_at_millis == 200);
}

#[test]
fn many_returns_partial_accumulator_at_deadline() {
    let hosts = vec![s("a.local"), s("b.local")];
    let events = vec![
        announced(500, "c.local"),
        announced(1000, "a.local"),
        announced(2500, "b.local"),
    ];
    let run = resolve_many(service(), &hosts, 2000, &events).unwrap();
    assert!(run.found == vec![1]);
    assert!(run.finished_at_millis == 2000);
}

#[test]
fn many_with_empty_target_set_resolves_immediately() {
    let hosts: Vec<String> = Vec::new();
    let events = vec![announced(100, "a.local")];
    let run = resolve_many(service(), &hosts, 2000, &events).unwrap();
    assert!(run.found.is_empty());
    assert!(run.finished_at_millis == 0);
}

#[test]
fn many_completes_early_once_every_host_answers() {
    let hosts = vec![s("a.local"), s("b.local")];
    let events = vec![
        announced(100, "a.local"),
        announced(400, "b.local"),
        announced(800, "a.local"),
    ];
    let run = resolve_many(service(), &hosts, 2000, &events).unwrap();
    assert!(run.found == vec![0, 1]);
    assert!(run.finished_at_millis == 400);
}

#[test]
fn many_counts_repeated_announcements_toward_completion() {
    // The accumulator does not deduplicate: a host re-announcing itself
    // fills a second slot, so the search can complete without the other
    // host having appeared.
    let hosts = vec![s("a.local"), s("b.local")];
    let events = vec![announced(100, "a.local"), announced(200, "a.local")];
    let run = run_many(&hosts, &events, 2000);
    assert!(run.found == vec![0, 1]);
    assert!(run.finished_at_millis == 200);
}

#[test]
fn many_skips_failures_and_foreign_hostnames() {
    let hosts = vec![s("a.local"), s("b.local")];
    let events = vec![
        failed(50),
        anonymous(100),
        announced(200, "c.local"),
        announced(900, "a.local"),
        failed(1200),
    ];
    let run = run_many(&hosts, &events, 2000);
    assert!(run.found == vec![3]);
    assert!(run.finished_at_millis == 2000);
}

#[test]
fn one_with_a_silent_timeline_waits_out_the_deadline() {
    let run = run_one(&s("foo.local"), &Vec::new(), 1500);
    assert!(run.found == None);
    assert!(run.finished_at_millis == 1500);
}

#[test]
fn many_order_of_targets_does_not_matter_for_matching() {
    let hosts = vec![s("b.local"), s("a.local")];
    let events = vec![announced(100, "a.local"), announced(400, "b.local")];
    let run = run_many(&hosts, &events, 2000);
    assert!(run.found == vec![0, 1]);
    assert!(run.finished_at_millis == 400);
}
