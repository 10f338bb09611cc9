//! Running backend servers: when a failed server is restarted, how a
//! server's state moves when it is started or stopped, and its health checks.
pub mod health;
pub mod lifecycle;

pub use self::health::HealthChecker;
pub use self::lifecycle::{FailureAction, ManagedServer, ServerManager};
