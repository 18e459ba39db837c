//! What the request handlers decide.

pub mod community;
pub mod dev;
pub mod live;
pub mod static_assets;
