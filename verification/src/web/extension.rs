//! Additions to each request.

pub mod request_id;
