//! Hostname matching: case-sensitive, exact string equality.

use vstd::prelude::*;
use crate::item::{DiscoveryItem, TimedItem, in_time, item_hostname};

verus! {

/// The views of a list of hostname strings.
pub open spec fn views_of(hosts: Seq<String>) -> Seq<Seq<char>> {
    hosts.map_values(|h: String| h@)
}

/// Whether an item is a decoded response advertising exactly `host`.
pub open spec fn matches_target(item: DiscoveryItem, host: Seq<char>) -> bool {
    item_hostname(item) == Some(host)
}

/// Whether an item is a decoded response advertising some hostname of
/// `targets`.  Membership is order-independent.
pub open spec fn matches_some_target(item: DiscoveryItem, targets: Seq<Seq<char>>) -> bool {
    match item_hostname(item) {
        Some(h) => targets.contains(h),
        None => false,
    }
}

/// A result that counts for a single-target search: arrived before the
/// deadline and advertises `host`.
pub open spec fn seen_match_one(e: TimedItem, host: Seq<char>, timeout_millis: u64) -> bool {
    in_time(e, timeout_millis) && matches_target(e.item, host)
}

/// A result that counts for a multi-target search: arrived before the
/// deadline and advertises a hostname of `targets`.
pub open spec fn seen_match_many(e: TimedItem, targets: Seq<Seq<char>>, timeout_millis: u64) -> bool {
    in_time(e, timeout_millis) && matches_some_target(e.item, targets)
}

/// Whether some result of the timeline advertises `host` before the
/// deadline: the condition under which a search for `host` can succeed.
pub open spec fn host_seen(host: Seq<char>, events: Seq<TimedItem>, timeout_millis: u64) -> bool {
    exists|j: int|
        0 <= j < events.len() && #[trigger] seen_match_one(events[j], host, timeout_millis)
}

/// Does this item advertise exactly `host`?  Matching is case-sensitive,
/// exact string equality; items without a hostname never match.
pub fn matches_host(host: &String, item: &DiscoveryItem) -> (r: bool)
    ensures
        r == matches_target(*item, host@),
{
    match item {
        DiscoveryItem::Decoded { hostname: Some(h) } => *h == *host,
        _ => false,
    }
}

/// Is `h` one of `hosts`?  Exact string equality against each entry.
pub fn contains_host(hosts: &Vec<String>, h: &String) -> (r: bool)
    ensures
        r == views_of(hosts@).contains(h@),
{
    let mut i: usize = 0;
    while i < hosts.len()
        invariant
            0 <= i <= hosts@.len(),
            forall|j: int| 0 <= j < i ==> views_of(hosts@)[j] != h@,
        decreases hosts@.len() - i,
    {
        if hosts[i] == *h {
            assert(views_of(hosts@)[i as int] == h@);
            return true;
        }
        i = i + 1;
    }
    false
}

/// Does this item advertise a hostname belonging to `hosts`?
pub fn matches_any(hosts: &Vec<String>, item: &DiscoveryItem) -> (r: bool)
    ensures
        r == matches_some_target(*item, views_of(hosts@)),
{
    match item {
        DiscoveryItem::Decoded { hostname: Some(h) } => contains_host(hosts, h),
        _ => false,
    }
}

} // verus!
