//! The search loops: consume a timed result sequence in arrival order,
//! return the first match (single target) or accumulate matches until every
//! requested host has answered (multiple targets), under a deadline.

use vstd::prelude::*;
use crate::item::{DiscoveryItem, TimedItem};
use crate::matching::{
    matches_any,
    matches_host,
    matches_some_target,
    seen_match_many,
    seen_match_one,
    views_of,
};
use crate::model::{
    first_match,
    first_match_upto,
    lemma_first_match_stable,
    lemma_first_match_upto_props,
    lemma_matched_prefix,
    matched_indices,
    matched_upto,
};
use crate::session::{ResolveError, SessionConfig};

verus! {

/// How a single-target search ended: the index of the result returned, or
/// no match by the deadline; and the moment, in milliseconds after
/// listening began, at which the search returned.
pub struct OneRun {
    pub found: Option<usize>,
    pub finished_at_millis: u64,
}

/// How a multi-target search ended: the indices of the results
/// accumulated, in arrival order, and the moment at which the search
/// returned.
pub struct ManyRun {
    pub found: Vec<usize>,
    pub finished_at_millis: u64,
}

/// What a completed single-target search guarantees: the result is the
/// first counting match of the timeline, returned at its arrival time;
/// or there is no counting match at all and the deadline was waited out.
pub open spec fn one_run_ok(
    r: OneRun,
    host: Seq<char>,
    events: Seq<TimedItem>,
    timeout_millis: u64,
) -> bool {
    match r.found {
        Some(k) => {
            &&& k < events.len()
            &&& first_match(host, events, timeout_millis) == Some(k as int)
            &&& seen_match_one(events[k as int], host, timeout_millis)
            &&& forall|t: int|
                0 <= t < k ==> !#[trigger] seen_match_one(events[t], host, timeout_millis)
            &&& r.finished_at_millis == events[k as int].at_millis
            &&& r.finished_at_millis < timeout_millis
        },
        None => {
            &&& first_match(host, events, timeout_millis) is None
            &&& forall|t: int|
                0 <= t < events.len() ==> !#[trigger] seen_match_one(
                    events[t],
                    host,
                    timeout_millis,
                )
            &&& r.finished_at_millis == timeout_millis
        },
    }
}

/// What a completed multi-target search guarantees.  With `m` the counting
/// matches of the whole timeline and `n` the number of requested hosts:
/// the accumulator holds the first `n` of `m` when at least `n` results
/// count, and all of `m` otherwise; it fills up exactly when enough
/// results count, and only then does the search return before the
/// deadline — at the arrival time of the match that filled it.
pub open spec fn many_run_ok(
    r: ManyRun,
    targets: Seq<Seq<char>>,
    events: Seq<TimedItem>,
    timeout_millis: u64,
) -> bool {
    let m = matched_indices(targets, events, timeout_millis);
    let n = targets.len() as int;
    &&& r.found@.len() == (if m.len() >= n {
        n
    } else {
        m.len() as int
    })
    &&& forall|t: int|
        0 <= t < r.found@.len() ==> (#[trigger] r.found@[t]) as int == m[t] && r.found@[t]
            < events.len()
    &&& (r.found@.len() == n) == (m.len() >= n)
    &&& r.finished_at_millis == (if m.len() < n {
        timeout_millis
    } else if n == 0 {
        0
    } else {
        events[m[n - 1]].at_millis
    })
}

/// The state of an in-progress multi-target search, fed one discovery
/// result at a time: the decision half of the listening loop, for a driver
/// that awaits the stream and the deadline.
pub struct ManySearch {
    hosts: Vec<String>,
    found_count: usize,
}

impl ManySearch {
    /// The hostnames being searched for.
    pub closed spec fn targets(&self) -> Seq<Seq<char>> {
        views_of(self.hosts@)
    }

    /// How many matches have been accumulated.
    pub closed spec fn found(&self) -> int {
        self.found_count as int
    }

    /// The accumulator never outgrows the target set.
    pub closed spec fn wf(&self) -> bool {
        self.found_count <= self.hosts@.len()
    }

    /// Begin a search for `hosts` with an empty accumulator.
    pub fn new(hosts: Vec<String>) -> (r: ManySearch)
        ensures
            r.targets() == views_of(hosts@),
            r.found() == 0,
            r.wf(),
    {
        ManySearch { hosts, found_count: 0 }
    }

    /// Has every requested host produced a match?  The driver stops
    /// listening as soon as this holds — immediately, for an empty target
    /// set.
    pub fn complete(&self) -> (r: bool)
        ensures
            r == (self.found() == self.targets().len()),
    {
        self.found_count == self.hosts.len()
    }

    /// Decide one discovery result: count it exactly when it advertises a
    /// hostname of the target set, telling the driver to keep the
    /// response.  Failed results and results with no or a foreign
    /// hostname leave the search unchanged.
    pub fn observe(&mut self, item: &DiscoveryItem) -> (take: bool)
        requires
            old(self).wf(),
            old(self).found() < old(self).targets().len(),
        ensures
            take == matches_some_target(*item, old(self).targets()),
            final(self).targets() == old(self).targets(),
            final(self).found() == old(self).found() + (if take {
                1int
            } else {
                0int
            }),
            final(self).wf(),
    {
        let n = self.hosts.len();
        if matches_any(&self.hosts, item) {
            assert(self.found_count < n);
            self.found_count = self.found_count + 1;
            true
        } else {
            false
        }
    }
}

/// Search the timeline for the first result advertising `host` before the
/// deadline and return its index, or report that the deadline passed with
/// no match.  Results without a hostname, with another hostname, or that
/// failed to decode are skipped; a result arriving at or after the
/// deadline is never considered.
pub fn run_one(host: &String, events: &Vec<TimedItem>, timeout_millis: u64) -> (r: OneRun)
    requires
        timeout_millis > 0,
    ensures
        one_run_ok(r, host@, events@, timeout_millis),
{
    let n = events.len();
    let mut i: usize = 0;
    while i < n
        invariant
            n == events@.len(),
            0 <= i <= n,
            timeout_millis > 0,
            first_match_upto(host@, events@, timeout_millis, i as int) is None,
        decreases n - i,
    {
        let e = &events[i];
        if e.at_millis < timeout_millis && matches_host(host, &e.item) {
            proof {
                assert(first_match_upto(host@, events@, timeout_millis, i as int + 1) == Some(
                    i as int,
                ));
                lemma_first_match_stable(
                    host@,
                    events@,
                    timeout_millis,
                    i as int + 1,
                    events@.len() as int,
                );
                lemma_first_match_upto_props(
                    host@,
                    events@,
                    timeout_millis,
                    events@.len() as int,
                );
            }
            return OneRun { found: Some(i), finished_at_millis: e.at_millis };
        }
        i = i + 1;
    }
    proof {
        lemma_first_match_upto_props(host@, events@, timeout_millis, events@.len() as int);
    }
    OneRun { found: None, finished_at_millis: timeout_millis }
}

/// Search the timeline for results advertising any of `hosts` before the
/// deadline, accumulating them in arrival order, and stop as soon as the
/// accumulator reaches the size of the target set — immediately, when the
/// target set is empty.  If fewer results count, the whole timeline is
/// consumed and the deadline waited out; the partial accumulator is still
/// returned, success and exhaustion being told apart only by its size.
pub fn run_many(hosts: &Vec<String>, events: &Vec<TimedItem>, timeout_millis: u64) -> (r: ManyRun)
    requires
        timeout_millis > 0,
    ensures
        many_run_ok(r, views_of(hosts@), events@, timeout_millis),
{
    let ghost targets: Seq<Seq<char>> = views_of(hosts@);
    let n = hosts.len();
    let mut found: Vec<usize> = Vec::new();
    if n == 0 {
        return ManyRun { found, finished_at_millis: 0 };
    }
    let len = events.len();
    let mut i: usize = 0;
    while i < len
        invariant
            len == events@.len(),
            n == hosts@.len(),
            targets == views_of(hosts@),
            0 < n,
            0 <= i <= len,
            timeout_millis > 0,
            found@.len() < n,
            found@.len() == matched_upto(targets, events@, timeout_millis, i as int).len(),
            forall|t: int|
                0 <= t < found@.len() ==> (#[trigger] found@[t]) as int == matched_upto(
                    targets,
                    events@,
                    timeout_millis,
                    i as int,
                )[t] && found@[t] < i,
        decreases len - i,
    {
        let e = &events[i];
        if e.at_millis < timeout_millis && matches_any(hosts, &e.item) {
            assert(seen_match_many(events@[i as int], targets, timeout_millis));
            found.push(i);
            assert(matched_upto(targets, events@, timeout_millis, i as int + 1) == matched_upto(
                targets,
                events@,
                timeout_millis,
                i as int,
            ).push(i as int));
            if found.len() == n {
                proof {
                    lemma_matched_prefix(
                        targets,
                        events@,
                        timeout_millis,
                        i as int + 1,
                        events@.len() as int,
                    );
                }
                return ManyRun { found, finished_at_millis: e.at_millis };
            }
        } else {
            assert(!seen_match_many(events@[i as int], targets, timeout_millis));
        }
        i = i + 1;
    }
    ManyRun { found, finished_at_millis: timeout_millis }
}

/// Resolve a single host: validate the request, open a session in
/// configuration `SessionConfig::new` would produce, and search the
/// session's timeline for the first result advertising `host`.  A
/// rejected request surfaces as the session-open error before any of the
/// time budget is consumed; once listening, the search never fails.
pub fn resolve_one(
    service_identifiers: Vec<String>,
    host: &String,
    timeout_millis: u64,
    events: &Vec<TimedItem>,
) -> (r: Result<OneRun, ResolveError>)
    requires
        timeout_millis <= u64::MAX / 2,
    ensures
        match r {
            Ok(run) => service_identifiers@.len() > 0 && timeout_millis > 0 && one_run_ok(
                run,
                host@,
                events@,
                timeout_millis,
            ),
            Err(ResolveError::EmptyServiceSet) => service_identifiers@.len() == 0,
            Err(ResolveError::ZeroTimeout) => service_identifiers@.len() > 0 && timeout_millis
                == 0,
        },
{
    match SessionConfig::new(service_identifiers, timeout_millis) {
        Ok(_) => Ok(run_one(host, events, timeout_millis)),
        Err(e) => Err(e),
    }
}

/// Resolve several hosts: validate the request, open a session as for
/// `resolve_one`, and accumulate matching results until every requested
/// host has answered or the deadline passes.  A partial accumulator is a
/// successful result; only a rejected request is an error.
pub fn resolve_many(
    service_identifiers: Vec<String>,
    hosts: &Vec<String>,
    timeout_millis: u64,
    events: &Vec<TimedItem>,
) -> (r: Result<ManyRun, ResolveError>)
    requires
        timeout_millis <= u64::MAX / 2,
    ensures
        match r {
            Ok(run) => service_identifiers@.len() > 0 && timeout_millis > 0 && many_run_ok(
                run,
                views_of(hosts@),
                events@,
                timeout_millis,
            ),
            Err(ResolveError::EmptyServiceSet) => service_identifiers@.len() == 0,
            Err(ResolveError::ZeroTimeout) => service_identifiers@.len() > 0 && timeout_millis
                == 0,
        },
{
    match SessionConfig::new(service_identifiers, timeout_millis) {
        Ok(_) => Ok(run_many(hosts, events, timeout_millis)),
        Err(e) => Err(e),
    }
}

} // verus!
