//! The CLIP API, by resource type.

pub mod resources;
