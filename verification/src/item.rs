//! The events a discovery session emits, and their arrival times.

use vstd::prelude::*;

verus! {

/// One unit of the discovery stream: a decoded announcement, possibly
/// carrying an advertised hostname, or a transport-level failure.
pub enum DiscoveryItem {
    /// A successfully decoded response; the hostname is absent when the
    /// announcement did not advertise one.
    Decoded { hostname: Option<String> },
    /// A result that failed to decode or to arrive.  Such failures are
    /// recovered locally by skipping the result; they never end a search.
    Failed,
}

/// A discovery item together with its arrival time, in milliseconds from the
/// moment the session started listening.
pub struct TimedItem {
    pub at_millis: u64,
    pub item: DiscoveryItem,
}

/// The hostname a discovery item advertises, if any.
pub open spec fn item_hostname(item: DiscoveryItem) -> Option<Seq<char>> {
    match item {
        DiscoveryItem::Decoded { hostname: Some(h) } => Some(h@),
        DiscoveryItem::Decoded { hostname: None } => None,
        DiscoveryItem::Failed => None,
    }
}

/// The advertised hostname of an item known to carry one (and the empty
/// string otherwise, a value never relied upon).
pub open spec fn hostname_of(item: DiscoveryItem) -> Seq<char> {
    match item {
        DiscoveryItem::Decoded { hostname: Some(h) } => h@,
        DiscoveryItem::Decoded { hostname: None } => Seq::empty(),
        DiscoveryItem::Failed => Seq::empty(),
    }
}

/// Whether a timed item arrived before the deadline.  A result emitted at or
/// after the deadline is never considered.
pub open spec fn in_time(e: TimedItem, timeout_millis: u64) -> bool {
    e.at_millis < timeout_millis
}

/// A timeline is chronological: arrival times never decrease along it.
pub open spec fn chronological(events: Seq<TimedItem>) -> bool {
    forall|a: int, b: int|
        0 <= a <= b < events.len() ==> #[trigger] events[a].at_millis <= #[trigger] events[b].at_millis
}

} // verus!
