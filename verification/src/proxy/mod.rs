//! The proxy: routing, request handling and the proxy's own tools,
//! resources and prompts.
pub mod aggregate;
pub mod aggregator_tools;
pub mod cache_warmer;
pub mod content;
pub mod error;
pub mod handler;

pub mod messages;
pub mod naming;
pub mod prompts;
pub mod reports;
pub mod resources;
pub mod router;
pub mod schema;
pub mod server_tools;
pub mod tracing_tools;


pub use self::messages::{CallParams, ListParams, MCPError, MCPRequest, MCPResponse, ReadParams};
pub use self::router::RequestRouter;
pub use self::handler::RequestHandler;
