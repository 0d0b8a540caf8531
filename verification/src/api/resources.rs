//! The resources of the CLIP API that the client reads and writes.

pub mod bridge;
pub mod light;

pub use bridge::Bridge;
pub use light::Light;
