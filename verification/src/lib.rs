//! Resolution of hosts announced over a local-network discovery protocol.
//!
//! A discovery session produces an ongoing stream of results, each possibly
//! carrying an advertised hostname.  The logic here consumes such a stream:
//! it filters results by exact hostname equality, decides when enough
//! matches have been gathered, and enforces an overall deadline.  The
//! session itself (sockets, packet decoding, the async event loop) is an
//! external collaborator; an unverified shell drives it and feeds its events
//! to the verified decision functions of this crate.

pub mod item;
pub mod laws;
pub mod matching;
pub mod model;
pub mod search;
pub mod session;

pub use item::DiscoveryItem;
pub use item::TimedItem;
pub use matching::contains_host;
pub use matching::matches_any;
pub use matching::matches_host;
pub use search::ManyRun;
pub use search::ManySearch;
pub use search::OneRun;
pub use search::resolve_many;
pub use search::resolve_one;
pub use search::run_many;
pub use search::run_one;
pub use session::ResolveError;
pub use session::SessionConfig;
pub use session::requery_interval_millis;
