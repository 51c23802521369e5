//! Resolution of short-lived cloud credentials from an instance metadata
//! service, and the messages of the agent's HTTP endpoints.
pub mod credentials;
pub mod messages;
