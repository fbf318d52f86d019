//! How far a front end has come in reaching the daemon.
//!
//! A front end starts out connecting. Each attempt to reach the daemon
//! either succeeds, after which the front end shows its pages, or fails,
//! after which it shows an error and tries again a moment later.

use vstd::prelude::*;

verus! {

/// Seconds between a failed attempt to reach the daemon and the next one.
pub const RECONNECT_DELAY_SECS: u64 = 1;

/// The state of a front end's link to the daemon.
#[derive(Clone, Copy, Debug, PartialEq, Eq, Structural)]
pub enum ConnectionState {
    /// The first attempt is still under way.
    Connecting,
    /// The daemon answered.
    Connected,
    /// The last attempt failed; another one is scheduled.
    Error,
}

/// The state after an attempt to reach the daemon, and the seconds to let
/// pass before the next attempt where there is to be one.
pub open spec fn after_attempt(reached: bool) -> (ConnectionState, Option<u64>) {
    if reached {
        (ConnectionState::Connected, None)
    } else {
        (ConnectionState::Error, Some(RECONNECT_DELAY_SECS))
    }
}

impl ConnectionState {
    /// Whether the daemon has answered.
    pub fn is_ok(&self) -> (ok: bool)
        ensures
            ok == (*self == ConnectionState::Connected),
    {
        matches!(self, ConnectionState::Connected)
    }

    /// Whether the first attempt is still under way.
    pub fn is_connecting(&self) -> (connecting: bool)
        ensures
            connecting == (*self == ConnectionState::Connecting),
    {
        matches!(self, ConnectionState::Connecting)
    }

    /// Whether the last attempt failed.
    pub fn is_error(&self) -> (failed: bool)
        ensures
            failed == (*self == ConnectionState::Error),
    {
        matches!(self, ConnectionState::Error)
    }

    /// The state of a front end that starts up.
    pub fn new() -> (state: ConnectionState)
        ensures
            state == ConnectionState::Connecting,
    {
        ConnectionState::Connecting
    }

    /// Takes in the outcome of an attempt to reach the daemon. Returns the
    /// seconds to let pass before the next attempt, or `None` where the
    /// daemon was reached and no further attempt is due.
    pub fn attempt_finished(&mut self, reached: bool) -> (retry_in: Option<u64>)
        ensures
            (*final(self), retry_in) == after_attempt(reached),
    {
        if reached {
            *self = ConnectionState::Connected;
            None
        } else {
            *self = ConnectionState::Error;
            Some(RECONNECT_DELAY_SECS)
        }
    }
}

} // verus!
