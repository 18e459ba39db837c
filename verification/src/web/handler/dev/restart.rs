//! The stream that tells a page under development when the server has
//! gone away.

use crate::web::handler::live::{ConnectionGuard, ConnectionState};
use vstd::prelude::*;

verus! {

/// The name of the event sent at every heartbeat.
pub const HEARTBEAT_EVENT: &'static str = "restart heartbeat";

/// The seconds between two heartbeats.
pub const HEARTBEAT_SECS: u64 = 60;

/// What the stream does when it wakes up.
#[derive(Debug, Clone, Copy, PartialEq, Eq, Structural)]
pub enum RestartStep {
    /// Send a heartbeat.
    Heartbeat,
    /// The stream has just closed: record the closing and end the stream.
    Close(ConnectionGuard),
    /// The stream closed earlier: there is nothing to do.
    Closed,
}

/// One step of the stream: a closed stream does nothing; an open one closes
/// when the shutdown signal is up, and sends a heartbeat when it is not.
pub fn restart_step(state: &mut ConnectionState, shutdown: bool) -> (step: RestartStep)
    ensures
        *old(state) != ConnectionState::Open ==> step == RestartStep::Closed && *final(state)
            == *old(state),
        *old(state) == ConnectionState::Open && shutdown ==> step == RestartStep::Close(
            ConnectionGuard { closed_via_shutdown_signal: true },
        ) && *final(state) == ConnectionState::ClosedViaShutdown,
        *old(state) == ConnectionState::Open && !shutdown ==> step == RestartStep::Heartbeat
            && *final(state) == ConnectionState::Open,
{
    match *state {
        ConnectionState::Open => {
            if shutdown {
                *state = ConnectionState::ClosedViaShutdown;
                RestartStep::Close(ConnectionGuard { closed_via_shutdown_signal: true })
            } else {
                RestartStep::Heartbeat
            }
        },
        _ => RestartStep::Closed,
    }
}

} // verus!
