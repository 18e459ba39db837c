//! Handlers for development.

pub mod restart;
