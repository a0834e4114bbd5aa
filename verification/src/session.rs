//! The parameters a discovery session is opened with, and the errors that
//! reject a resolution call before any session exists.

use vstd::prelude::*;

verus! {

/// Why a resolution call was rejected before a discovery session could be
/// opened.  These are the only errors a search surfaces: once listening has
/// begun, every abnormal condition is absorbed into the normal result shape.
#[derive(Clone, Copy, Debug, PartialEq, Eq, Structural)]
pub enum ResolveError {
    /// The set of service identifiers to query was empty.
    EmptyServiceSet,
    /// The time budget was zero.
    ZeroTimeout,
}

/// The re-query interval handed to a discovery session: double the caller's
/// timeout.  Keeping the interval strictly greater than the timeout makes
/// the session issue its query exactly once before the deadline can expire,
/// turning a periodic-query mechanism into a single-shot bounded search.
pub fn requery_interval_millis(timeout_millis: u64) -> (r: u64)
    requires
        0 < timeout_millis <= u64::MAX / 2,
    ensures
        r == 2 * timeout_millis,
        r > timeout_millis,
{
    2 * timeout_millis
}

/// Everything a discovery session is opened with: the service identifiers to
/// query, the caller's deadline, and the re-query interval derived from it.
pub struct SessionConfig {
    pub service_identifiers: Vec<String>,
    pub timeout_millis: u64,
    pub requery_millis: u64,
}

impl SessionConfig {
    /// A well-formed configuration: at least one service identifier, a
    /// positive time budget, and a re-query interval of exactly double the
    /// timeout.
    pub open spec fn wf(&self) -> bool {
        &&& self.service_identifiers@.len() > 0
        &&& 0 < self.timeout_millis
        &&& self.requery_millis == 2 * self.timeout_millis
    }

    /// The invariant the doubled interval exists for: a well-formed session
    /// re-queries strictly later than the caller's deadline, so exactly one
    /// query is issued within the search window.
    pub proof fn lemma_requery_exceeds_timeout(&self)
        requires
            self.wf(),
        ensures
            self.requery_millis > self.timeout_millis,
    {
    }

    /// Validate a resolution request and derive the session parameters.
    /// Succeeds exactly when the identifier set is non-empty and the timeout
    /// positive; each rejection names the first offending input.
    pub fn new(service_identifiers: Vec<String>, timeout_millis: u64) -> (r: Result<
        SessionConfig,
        ResolveError,
    >)
        requires
            timeout_millis <= u64::MAX / 2,
        ensures
            match r {
                Ok(c) => {
                    &&& service_identifiers@.len() > 0
                    &&& timeout_millis > 0
                    &&& c.service_identifiers@ == service_identifiers@
                    &&& c.timeout_millis == timeout_millis
                    &&& c.requery_millis == 2 * timeout_millis
                    &&& c.wf()
                },
                Err(ResolveError::EmptyServiceSet) => service_identifiers@.len() == 0,
                Err(ResolveError::ZeroTimeout) => service_identifiers@.len() > 0 && timeout_millis
                    == 0,
            },
    {
        if service_identifiers.len() == 0 {
            return Err(ResolveError::EmptyServiceSet);
        }
        if timeout_millis == 0 {
            return Err(ResolveError::ZeroTimeout);
        }
        let requery_millis = requery_interval_millis(timeout_millis);
        Ok(SessionConfig { service_identifiers, timeout_millis, requery_millis })
    }
}

} // verus!
