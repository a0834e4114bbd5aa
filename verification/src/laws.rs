//! The guarantees of the search, stated and proved over the model: what a
//! timeline with no match yields, how early a match returns, when a
//! multi-target search completes before its deadline, and why results
//! outside the target set can never matter.

use vstd::prelude::*;
use crate::item::{TimedItem, chronological, hostname_of, item_hostname};
use crate::matching::{host_seen, matches_some_target, matches_target, seen_match_many, seen_match_one};
use crate::model::{
    first_match,
    first_match_upto,
    lemma_first_match_upto_props,
    lemma_matched_hostnames_pointwise,
    lemma_matched_upto_props,
    matched_hostnames,
    matched_hostnames_upto,
    matched_indices,
};

verus! {

/// On a timeline where no result before the deadline advertises the
/// requested host, the single-target search finds nothing: by the search
/// contract it then returns `None`, and only once the deadline has
/// elapsed, never earlier.
pub proof fn lemma_one_no_match_waits_out_deadline(
    host: Seq<char>,
    events: Seq<TimedItem>,
    timeout_millis: u64,
)
    requires
        forall|j: int|
            0 <= j < events.len() ==> !#[trigger] seen_match_one(events[j], host, timeout_millis),
    ensures
        first_match(host, events, timeout_millis) is None,
{
    lemma_first_match_upto_props(host, events, timeout_millis, events.len() as int);
}

/// A result advertising the requested host before the deadline makes the
/// single-target search return a match without waiting out the remaining
/// budget: the match is the first counting result of the timeline, so on a
/// chronological timeline the search returns no later than the witness
/// arrived — strictly before the deadline.
pub proof fn lemma_one_match_returns_early(
    host: Seq<char>,
    events: Seq<TimedItem>,
    timeout_millis: u64,
    k: int,
)
    requires
        chronological(events),
        0 <= k < events.len(),
        seen_match_one(events[k], host, timeout_millis),
    ensures
        match first_match(host, events, timeout_millis) {
            Some(j) => {
                &&& 0 <= j <= k
                &&& seen_match_one(events[j], host, timeout_millis)
                &&& events[j].at_millis <= events[k].at_millis
                &&& events[j].at_millis < timeout_millis
            },
            None => false,
        },
{
    lemma_first_match_upto_props(host, events, timeout_millis, events.len() as int);
}

/// A multi-target search gathers enough matches to complete before its
/// deadline exactly when every requested host is advertised by some result
/// arriving before the deadline; this lemma and
/// `lemma_many_all_hosts_seen_completes` state the two directions.
/// Otherwise, by the search contract, the search returns at the deadline
/// with the subset that did match.  Both lemmas ask that the requested
/// hosts be pairwise distinct and that no two counting results advertise
/// the same hostname: the accumulator does not deduplicate, so a host
/// re-announcing itself counts again toward completion, and with such
/// repetitions the search could fill up without every host having
/// appeared.
pub proof fn lemma_many_complete_finds_every_host(
    targets: Seq<Seq<char>>,
    events: Seq<TimedItem>,
    timeout_millis: u64,
)
    requires
        forall|a: int, b: int| 0 <= a < b < targets.len() ==> targets[a] != targets[b],
        forall|a: int, b: int|
            0 <= a < b < events.len() && seen_match_many(
                #[trigger] events[a],
                targets,
                timeout_millis,
            ) && seen_match_many(#[trigger] events[b], targets, timeout_millis) ==> hostname_of(
                events[a].item,
            ) != hostname_of(events[b].item),
        matched_indices(targets, events, timeout_millis).len() >= targets.len(),
    ensures
        forall|h: int|
            0 <= h < targets.len() ==> #[trigger] host_seen(targets[h], events, timeout_millis),
{
    broadcast use vstd::seq_lib::seq_to_set_is_finite;

    let m = matched_indices(targets, events, timeout_millis);
    lemma_matched_upto_props(targets, events, timeout_millis, events.len() as int);
    lemma_matched_hostnames_pointwise(targets, events, timeout_millis, events.len() as int);
    let hseq = matched_hostnames(targets, events, timeout_millis);

    assert forall|t1: int, t2: int|
        0 <= t1 < t2 < hseq.len() implies hseq[t1] != hseq[t2] by {
        assert(m[t1] < m[t2]);
        assert(seen_match_many(events[m[t1]], targets, timeout_millis));
        assert(seen_match_many(events[m[t2]], targets, timeout_millis));
        assert(hseq[t1] == hostname_of(events[m[t1]].item));
        assert(hseq[t2] == hostname_of(events[m[t2]].item));
    }
    assert(hseq.no_duplicates());
    assert forall|t: int| 0 <= t < hseq.len() implies targets.to_set().contains(hseq[t]) by {
        assert(seen_match_many(events[m[t]], targets, timeout_millis));
        assert(hseq[t] == hostname_of(events[m[t]].item));
        assert(item_hostname(events[m[t]].item) == Some(hostname_of(events[m[t]].item)));
        assert(targets.contains(hseq[t]));
    }
    assert(hseq.to_set().subset_of(targets.to_set())) by {
        assert forall|x: Seq<char>|
            hseq.to_set().contains(x) implies targets.to_set().contains(x) by {
            let t = choose|t: int| 0 <= t < hseq.len() && hseq[t] == x;
            assert(targets.to_set().contains(hseq[t]));
        }
    }
    hseq.unique_seq_to_set();
    targets.lemma_cardinality_of_set();
    vstd::set_lib::lemma_len_subset(hseq.to_set(), targets.to_set());
    assert(hseq.to_set().len() == targets.to_set().len());
    vstd::set_lib::lemma_subset_equality(hseq.to_set(), targets.to_set());
    assert forall|h: int|
        0 <= h < targets.len() implies #[trigger] host_seen(targets[h], events, timeout_millis) by {
        assert(targets.contains(targets[h]));
        assert(hseq.to_set().contains(targets[h]));
        assert(hseq.contains(targets[h]));
        let t = choose|t: int| 0 <= t < hseq.len() && hseq[t] == targets[h];
        let j = m[t];
        assert(seen_match_many(events[j], targets, timeout_millis));
        assert(item_hostname(events[j].item) == Some(hostname_of(events[j].item)));
        assert(seen_match_one(events[j], targets[h], timeout_millis));
    }
}

/// The companion direction of `lemma_many_complete_finds_every_host`: once
/// every requested host has been advertised by some result before the
/// deadline, the accumulator has gathered at least as many matches as
/// there are hosts, so the search completes before the deadline rather
/// than waiting it out.
pub proof fn lemma_many_all_hosts_seen_completes(
    targets: Seq<Seq<char>>,
    events: Seq<TimedItem>,
    timeout_millis: u64,
)
    requires
        forall|a: int, b: int| 0 <= a < b < targets.len() ==> targets[a] != targets[b],
        forall|a: int, b: int|
            0 <= a < b < events.len() && seen_match_many(
                #[trigger] events[a],
                targets,
                timeout_millis,
            ) && seen_match_many(#[trigger] events[b], targets, timeout_millis) ==> hostname_of(
                events[a].item,
            ) != hostname_of(events[b].item),
        forall|h: int|
            0 <= h < targets.len() ==> #[trigger] host_seen(targets[h], events, timeout_millis),
    ensures
        matched_indices(targets, events, timeout_millis).len() >= targets.len(),
{
    broadcast use vstd::seq_lib::seq_to_set_is_finite;

    let m = matched_indices(targets, events, timeout_millis);
    let n = targets.len() as int;
    lemma_matched_upto_props(targets, events, timeout_millis, events.len() as int);
    lemma_matched_hostnames_pointwise(targets, events, timeout_millis, events.len() as int);
    let hseq = matched_hostnames(targets, events, timeout_millis);

    assert forall|t1: int, t2: int|
        0 <= t1 < t2 < hseq.len() implies hseq[t1] != hseq[t2] by {
        assert(m[t1] < m[t2]);
        assert(seen_match_many(events[m[t1]], targets, timeout_millis));
        assert(seen_match_many(events[m[t2]], targets, timeout_millis));
        assert(hseq[t1] == hostname_of(events[m[t1]].item));
        assert(hseq[t2] == hostname_of(events[m[t2]].item));
    }
    assert(hseq.no_duplicates());
    hseq.unique_seq_to_set();
    assert(targets.no_duplicates());
    targets.unique_seq_to_set();
    assert forall|x: Seq<char>|
        targets.to_set().contains(x) implies hseq.to_set().contains(x) by {
        let h = choose|h: int| 0 <= h < targets.len() && targets[h] == x;
        assert(targets[h] == x);
        assert(host_seen(targets[h], events, timeout_millis));
        let j = choose|j: int|
            0 <= j < events.len() && seen_match_one(events[j], targets[h], timeout_millis);
        assert(targets.contains(targets[h]));
        assert(seen_match_many(events[j], targets, timeout_millis));
        assert(m.contains(j));
        let t = choose|t: int| 0 <= t < m.len() && m[t] == j;
        assert(hseq[t] == hostname_of(events[m[t]].item));
        assert(hseq[t] == hostname_of(events[j].item));
        assert(item_hostname(events[j].item) == Some(hostname_of(events[j].item)));
        assert(hseq[t] == x);
        assert(hseq.contains(x));
    }
    assert(targets.to_set().subset_of(hseq.to_set()));
    vstd::set_lib::lemma_len_subset(targets.to_set(), hseq.to_set());
    assert(m.len() >= n);
}

/// A result with no hostname, or with a hostname outside the target set,
/// never affects the accumulator of a multi-target search: inserting such
/// a result anywhere in the timeline leaves the accumulated hostnames —
/// and with them the completion decision, which is their count — exactly
/// as they were.
pub proof fn lemma_irrelevant_result_ignored(
    targets: Seq<Seq<char>>,
    events: Seq<TimedItem>,
    timeout_millis: u64,
    p: int,
    e: TimedItem,
)
    requires
        0 <= p <= events.len(),
        !matches_some_target(e.item, targets),
    ensures
        matched_hostnames(targets, events.insert(p, e), timeout_millis) == matched_hostnames(
            targets,
            events,
            timeout_millis,
        ),
{
    lemma_insert_irrelevant_aux(targets, events, timeout_millis, p, e, events.len() as int);
}

proof fn lemma_insert_irrelevant_aux(
    targets: Seq<Seq<char>>,
    events: Seq<TimedItem>,
    timeout_millis: u64,
    p: int,
    e: TimedItem,
    i: int,
)
    requires
        0 <= p <= events.len(),
        !matches_some_target(e.item, targets),
        0 <= i <= events.len(),
    ensures
        i <= p ==> matched_hostnames_upto(targets, events.insert(p, e), timeout_millis, i)
            == matched_hostnames_upto(targets, events, timeout_millis, i),
        i >= p ==> matched_hostnames_upto(targets, events.insert(p, e), timeout_millis, i + 1)
            == matched_hostnames_upto(targets, events, timeout_millis, i),
    decreases i,
{
    let ins = events.insert(p, e);
    events.insert_ensures(p, e);
    if i == 0 {
        if p == 0 {
            assert(ins[0] == e);
            assert(!seen_match_many(ins[0], targets, timeout_millis));
            assert(matched_hostnames_upto(targets, ins, timeout_millis, 1)
                == matched_hostnames_upto(targets, ins, timeout_millis, 0));
        }
    } else {
        lemma_insert_irrelevant_aux(targets, events, timeout_millis, p, e, i - 1);
        if i <= p {
            assert(ins[i - 1] == events[i - 1]);
            assert(matched_hostnames_upto(targets, ins, timeout_millis, i)
                == matched_hostnames_upto(targets, events, timeout_millis, i));
        }
        if i == p {
            assert(ins[i] == e);
            assert(!seen_match_many(ins[i], targets, timeout_millis));
            assert(matched_hostnames_upto(targets, ins, timeout_millis, i + 1)
                == matched_hostnames_upto(targets, ins, timeout_millis, i));
        }
        if i > p {
            assert(ins[i] == events[i - 1]);
            assert(matched_hostnames_upto(targets, ins, timeout_millis, i)
                == matched_hostnames_upto(targets, events, timeout_millis, i - 1));
            if seen_match_many(events[i - 1], targets, timeout_millis) {
                assert(matched_hostnames_upto(targets, ins, timeout_millis, i + 1)
                    == matched_hostnames_upto(targets, ins, timeout_millis, i).push(
                    hostname_of(ins[i].item),
                ));
                assert(matched_hostnames_upto(targets, events, timeout_millis, i)
                    == matched_hostnames_upto(targets, events, timeout_millis, i - 1).push(
                    hostname_of(events[i - 1].item),
                ));
            } else {
                assert(matched_hostnames_upto(targets, ins, timeout_millis, i + 1)
                    == matched_hostnames_upto(targets, ins, timeout_millis, i));
                assert(matched_hostnames_upto(targets, events, timeout_millis, i)
                    == matched_hostnames_upto(targets, events, timeout_millis, i - 1));
            }
        }
    }
}

/// The index an insertion at position `p` shifts an existing match to.
pub open spec fn shifted_past(o: Option<int>, p: int) -> Option<int> {
    match o {
        None => None,
        Some(j) => if j < p {
            Some(j)
        } else {
            Some(j + 1)
        },
    }
}

/// The single-target search is equally indifferent to results that do not
/// advertise the requested host: inserting one anywhere in the timeline
/// yields the same outcome — no match, or the very same matching result at
/// its index shifted past the insertion point.
pub proof fn lemma_irrelevant_result_ignored_one(
    host: Seq<char>,
    events: Seq<TimedItem>,
    timeout_millis: u64,
    p: int,
    e: TimedItem,
)
    requires
        0 <= p <= events.len(),
        !matches_target(e.item, host),
    ensures
        first_match(host, events.insert(p, e), timeout_millis) == shifted_past(
            first_match(host, events, timeout_millis),
            p,
        ),
{
    lemma_insert_irrelevant_one_aux(host, events, timeout_millis, p, e, events.len() as int);
}

proof fn lemma_insert_irrelevant_one_aux(
    host: Seq<char>,
    events: Seq<TimedItem>,
    timeout_millis: u64,
    p: int,
    e: TimedItem,
    i: int,
)
    requires
        0 <= p <= events.len(),
        !matches_target(e.item, host),
        0 <= i <= events.len(),
    ensures
        i <= p ==> first_match_upto(host, events.insert(p, e), timeout_millis, i)
            == first_match_upto(host, events, timeout_millis, i),
        i >= p ==> first_match_upto(host, events.insert(p, e), timeout_millis, i + 1)
            == shifted_past(first_match_upto(host, events, timeout_millis, i), p),
    decreases i,
{
    let ins = events.insert(p, e);
    events.insert_ensures(p, e);
    lemma_first_match_upto_props(host, events, timeout_millis, i);
    if i == 0 {
        if p == 0 {
            assert(ins[0] == e);
            assert(!seen_match_one(ins[0], host, timeout_millis));
        }
    } else {
        lemma_insert_irrelevant_one_aux(host, events, timeout_millis, p, e, i - 1);
        if i <= p {
            assert(ins[i - 1] == events[i - 1]);
        }
        if i == p {
            assert(ins[i] == e);
            assert(!seen_match_one(ins[i], host, timeout_millis));
        }
        if i > p {
            assert(ins[i] == events[i - 1]);
        }
    }
}

} // verus!
