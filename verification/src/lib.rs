//! Builds the shared, read-only description of a connection to a remote
//! JSON-RPC node: the resolved endpoint, the identified provider and the two
//! concurrency controls that pace every worker using it.

pub mod args;
pub mod endpoint;
pub mod error;
pub mod rate_limiter;
pub mod semaphore;
pub mod source;

pub use args::Args;
pub use endpoint::parse_rpc_url;
pub use error::ParseError;
pub use rate_limiter::{build_rate_limiter, RateLimiter};
pub use semaphore::{build_semaphore, check_permits};
pub use source::{parse_source, Connection, Source};
