//! Sans-I/O bindings for the Hue Bridge CLIP API.
//!
//! The crate holds the decisions of a bridge client: how a client handle is
//! configured and validated, how the bootstrap moves from an unchecked handle
//! to a registered one, which request each operation sends, and what each
//! reply means. It performs no network or file access itself: every operation
//! is split into a request to send and a function that interprets the reply,
//! so a caller can drive it from any transport.

pub mod api;
pub mod bootstrap;
pub mod error;
pub mod huebridge;
pub mod request;
pub mod version;

pub use api::resources::Bridge;
pub use api::resources::Light;
pub use error::BridgeError;
pub use huebridge::HueBridge;
