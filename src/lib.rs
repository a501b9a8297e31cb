//! Resource access layer of a client for a digital-signage management API:
//! credential resolution and request signing, the generic create / read /
//! update / delete primitives, playlist position allocation and the edge-app
//! manifest publishing workflow.

pub mod authentication;
pub mod codec;
pub mod commands;
pub mod tools;
pub mod mcp;

pub use authentication::{Authentication, AuthenticationError, Config};
pub use commands::CommandError;
