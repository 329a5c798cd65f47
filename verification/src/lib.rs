//! Client-side engine for a tag-delimited, version-evolving trading-gateway
//! protocol: wire encoders whose field set depends on the negotiated server
//! version, and the subscription state machine that turns raw responses into
//! a typed, retryable, cancellable stream.

pub mod contracts;
pub mod encoders;
pub mod errors;
pub mod fields;
pub mod historical;
pub mod layout;
pub mod messages;
pub mod server_versions;
pub mod subscriptions;
pub mod timestamps;

pub use errors::Error;
pub use fields::ToField;
