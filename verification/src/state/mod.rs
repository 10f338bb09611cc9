//! What the proxy records about each backend server, and its metrics.
pub mod metrics;

pub use self::metrics::{MetricCounts, RequestTimer};

use vstd::prelude::*;

verus! {

/// The lifecycle state of a backend server process.
#[derive(Debug, Clone, Copy, PartialEq, Eq, Structural)]
pub enum ServerState {
    Starting,
    Running,
    Stopping,
    Stopped,
    Failed,
}

} // verus!
