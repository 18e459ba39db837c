//! Development helpers: the simulated users and the in-memory store.

pub mod db;
pub mod fake;
