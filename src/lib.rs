//! Typed values of an image-generation API, and the verified logic that turns
//! a generation response into files under a directory.

pub mod naming;
pub mod resolve;
pub mod save;
pub mod types;
