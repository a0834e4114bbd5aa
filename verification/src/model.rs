//! The mathematical model of a search over a timed result sequence: which
//! results count, which match is found first, and what the accumulator of a
//! multi-target search holds.

use vstd::prelude::*;
use crate::item::{TimedItem, hostname_of};
use crate::matching::{seen_match_many, seen_match_one};

verus! {

/// The index of the first result among `events[..i]` that counts for a
/// single-target search on `host`, scanning in arrival order.
pub open spec fn first_match_upto(
    host: Seq<char>,
    events: Seq<TimedItem>,
    timeout_millis: u64,
    i: int,
) -> Option<int>
    decreases i,
{
    if i <= 0 {
        None
    } else if first_match_upto(host, events, timeout_millis, i - 1) is Some {
        first_match_upto(host, events, timeout_millis, i - 1)
    } else if seen_match_one(events[i - 1], host, timeout_millis) {
        Some(i - 1)
    } else {
        None
    }
}

/// The index of the first result of `events` that counts for a
/// single-target search on `host`; `None` when no result counts.
pub open spec fn first_match(host: Seq<char>, events: Seq<TimedItem>, timeout_millis: u64) -> Option<
    int,
> {
    first_match_upto(host, events, timeout_millis, events.len() as int)
}

/// The indices of the results among `events[..i]` that count for a
/// multi-target search on `targets`, in arrival order.
pub open spec fn matched_upto(
    targets: Seq<Seq<char>>,
    events: Seq<TimedItem>,
    timeout_millis: u64,
    i: int,
) -> Seq<int>
    decreases i,
{
    if i <= 0 {
        Seq::empty()
    } else if seen_match_many(events[i - 1], targets, timeout_millis) {
        matched_upto(targets, events, timeout_millis, i - 1).push(i - 1)
    } else {
        matched_upto(targets, events, timeout_millis, i - 1)
    }
}

/// The indices of all results of `events` that count for a multi-target
/// search on `targets`, in arrival order.
pub open spec fn matched_indices(
    targets: Seq<Seq<char>>,
    events: Seq<TimedItem>,
    timeout_millis: u64,
) -> Seq<int> {
    matched_upto(targets, events, timeout_millis, events.len() as int)
}

/// The hostnames advertised by the results among `events[..i]` that count
/// for a multi-target search, in arrival order: the model of the match
/// accumulator.
pub open spec fn matched_hostnames_upto(
    targets: Seq<Seq<char>>,
    events: Seq<TimedItem>,
    timeout_millis: u64,
    i: int,
) -> Seq<Seq<char>>
    decreases i,
{
    if i <= 0 {
        Seq::empty()
    } else if seen_match_many(events[i - 1], targets, timeout_millis) {
        matched_hostnames_upto(targets, events, timeout_millis, i - 1).push(
            hostname_of(events[i - 1].item),
        )
    } else {
        matched_hostnames_upto(targets, events, timeout_millis, i - 1)
    }
}

/// The hostnames of all results of `events` that count for a multi-target
/// search, in arrival order.
pub open spec fn matched_hostnames(
    targets: Seq<Seq<char>>,
    events: Seq<TimedItem>,
    timeout_millis: u64,
) -> Seq<Seq<char>> {
    matched_hostnames_upto(targets, events, timeout_millis, events.len() as int)
}

/// Once a prefix of the timeline holds a first match, every longer prefix
/// holds the same one.
pub proof fn lemma_first_match_stable(
    host: Seq<char>,
    events: Seq<TimedItem>,
    timeout_millis: u64,
    j: int,
    k: int,
)
    requires
        0 <= j <= k <= events.len(),
        first_match_upto(host, events, timeout_millis, j) is Some,
    ensures
        first_match_upto(host, events, timeout_millis, k) == first_match_upto(
            host,
            events,
            timeout_millis,
            j,
        ),
    decreases k - j,
{
    if j < k {
        lemma_first_match_stable(host, events, timeout_millis, j, k - 1);
    }
}

/// What the first-match index means: it points at a counting result, and no
/// earlier result counts; when it is absent, no result counts at all.
pub proof fn lemma_first_match_upto_props(
    host: Seq<char>,
    events: Seq<TimedItem>,
    timeout_millis: u64,
    i: int,
)
    requires
        0 <= i <= events.len(),
    ensures
        match first_match_upto(host, events, timeout_millis, i) {
            Some(j) => 0 <= j < i && seen_match_one(events[j], host, timeout_millis) && forall|
                t: int,
            |
                0 <= t < j ==> !#[trigger] seen_match_one(events[t], host, timeout_millis),
            None => forall|t: int|
                0 <= t < i ==> !#[trigger] seen_match_one(events[t], host, timeout_millis),
        },
    decreases i,
{
    if i > 0 {
        lemma_first_match_upto_props(host, events, timeout_millis, i - 1);
    }
}

/// A shorter prefix of the timeline yields a prefix of the matched indices.
pub proof fn lemma_matched_prefix(
    targets: Seq<Seq<char>>,
    events: Seq<TimedItem>,
    timeout_millis: u64,
    j: int,
    k: int,
)
    requires
        0 <= j <= k <= events.len(),
    ensures
        matched_upto(targets, events, timeout_millis, j).len() <= matched_upto(
            targets,
            events,
            timeout_millis,
            k,
        ).len(),
        forall|t: int|
            0 <= t < matched_upto(targets, events, timeout_millis, j).len()
                ==> #[trigger] matched_upto(targets, events, timeout_millis, k)[t] == matched_upto(
                targets,
                events,
                timeout_millis,
                j,
            )[t],
    decreases k - j,
{
    if j < k {
        lemma_matched_prefix(targets, events, timeout_millis, j, k - 1);
    }
}

/// What the matched indices mean: each points at a counting result, they
/// are strictly increasing, and every counting result is among them.
pub proof fn lemma_matched_upto_props(
    targets: Seq<Seq<char>>,
    events: Seq<TimedItem>,
    timeout_millis: u64,
    i: int,
)
    requires
        0 <= i <= events.len(),
    ensures
        ({
            let m = matched_upto(targets, events, timeout_millis, i);
            &&& forall|t: int|
                0 <= t < m.len() ==> 0 <= #[trigger] m[t] < i && seen_match_many(
                    events[m[t]],
                    targets,
                    timeout_millis,
                )
            &&& forall|t1: int, t2: int| 0 <= t1 < t2 < m.len() ==> m[t1] < m[t2]
            &&& forall|j: int|
                0 <= j < i && #[trigger] seen_match_many(events[j], targets, timeout_millis)
                    ==> m.contains(j)
        }),
    decreases i,
{
    if i > 0 {
        lemma_matched_upto_props(targets, events, timeout_millis, i - 1);
        let m0 = matched_upto(targets, events, timeout_millis, i - 1);
        let m = matched_upto(targets, events, timeout_millis, i);
        if seen_match_many(events[i - 1], targets, timeout_millis) {
            assert(m == m0.push(i - 1));
            assert(m[m0.len() as int] == i - 1);
            assert forall|j: int|
                0 <= j < i && #[trigger] seen_match_many(
                    events[j],
                    targets,
                    timeout_millis,
                ) implies m.contains(j) by {
                if j < i - 1 {
                    let t = choose|t: int| 0 <= t < m0.len() && m0[t] == j;
                    assert(m[t] == j);
                } else {
                    assert(m[m0.len() as int] == j);
                }
            }
        } else {
            assert(m == m0);
            assert forall|j: int|
                0 <= j < i && #[trigger] seen_match_many(
                    events[j],
                    targets,
                    timeout_millis,
                ) implies m.contains(j) by {
                assert(j != i - 1);
            }
        }
    }
}

/// The accumulated hostnames are exactly the hostnames of the matched
/// results, in match order.
pub proof fn lemma_matched_hostnames_pointwise(
    targets: Seq<Seq<char>>,
    events: Seq<TimedItem>,
    timeout_millis: u64,
    i: int,
)
    requires
        0 <= i <= events.len(),
    ensures
        matched_hostnames_upto(targets, events, timeout_millis, i).len() == matched_upto(
            targets,
            events,
            timeout_millis,
            i,
        ).len(),
        forall|t: int|
            0 <= t < matched_upto(targets, events, timeout_millis, i).len()
                ==> #[trigger] matched_hostnames_upto(targets, events, timeout_millis, i)[t]
                == hostname_of(events[matched_upto(targets, events, timeout_millis, i)[t]].item),
    decreases i,
{
    if i > 0 {
        lemma_matched_hostnames_pointwise(targets, events, timeout_millis, i - 1);
    }
}

} // verus!
