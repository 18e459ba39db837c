//! Giving each request an identifier of its own.

use crate::uuid::RequestId;
use vstd::prelude::*;

verus! {

/// A service wrapped so that each request it sees carries a fresh
/// [`RequestId`].
#[derive(Debug, Clone)]
pub struct RequestIdService<S>(pub S);

impl<S> RequestIdService<S> {
    /// The identifier of the next request: a fresh one, made now.
    pub fn next_id(&self) -> (id: RequestId)
        ensures
            id.0.is_version_7(),
    {
        RequestId::new()
    }

    /// The service inside.
    pub fn into_inner(self) -> (inner: S)
        ensures
            inner == self.0,
    {
        self.0
    }
}

/// Wraps services in [`RequestIdService`].
#[derive(Debug, Clone, Copy)]
pub struct RequestIdLayer;

impl RequestIdLayer {
    /// The given service, wrapped.
    pub fn layer<S>(&self, s: S) -> (service: RequestIdService<S>)
        ensures
            service.0 == s,
    {
        RequestIdService(s)
    }
}

/// The identifier to trace a request under: its own where it carries one,
/// the default one where it does not.
pub fn trace_id(carried: Option<RequestId>) -> (id: RequestId)
    ensures
        id == match carried {
            Some(id) => id,
            None => RequestId(crate::uuid::Uuid(0)),
        },
{
    match carried {
        Some(id) => id,
        None => RequestId::default(),
    }
}

} // verus!
