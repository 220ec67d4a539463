//! Decision tables of the Wi-Fi example's two loops.
//!
//! The connection task keeps the radio in step with the application mode
//! (set-up, operational, non-operational); the fetch loop retries an
//! HTTP request a bounded number of times. Both loops live outside the
//! verified crate: they observe the driver, call [`connection_step`] or
//! [`retry_decision`], perform the returned action, and wait as told.

use vstd::prelude::*;

verus! {

/// Application mode: set-up phase.
pub const MODE_SETUP: i8 = 1;

/// Application mode: the operational window is open.
pub const MODE_OPERATIONAL: i8 = 0;

/// Application mode: outside the operational window.
pub const MODE_NON_OPERATIONAL: i8 = -1;

/// How many times the fetch loop tries a request before giving up.
pub const MAX_RETRIES: u32 = 10;

/// How long the fetch loop sleeps between attempts, in milliseconds.
pub const RETRY_DELAY_MS: u64 = 10000;

/// What the connection task sees when it looks at the Wi-Fi driver.
#[derive(PartialEq, Eq, Structural, Clone, Copy, Debug)]
pub struct WifiObservation {
    /// The station is associated with the access point.
    pub connected: bool,
    /// The driver has been started.
    pub started: bool,
}

/// What the connection task does before its next look at the driver.
#[derive(PartialEq, Eq, Structural, Clone, Copy, Debug)]
pub enum ConnAction {
    /// Leave the radio alone and poll again after the wait.
    Maintain { wait_secs: u64 },
    /// Configure and start the driver, then connect, then wait.
    StartAndConnect { wait_secs: u64 },
    /// The driver already runs: connect, then wait.
    Connect { wait_secs: u64 },
    /// Stay connected but watch for a disconnection event, giving up the
    /// watch after the timeout.
    AwaitDisconnect { timeout_secs: u64 },
    /// Disconnect, stop the driver, and leave the connection loop for
    /// good.
    DisconnectAndStop,
    /// The driver runs but is not connected while the radio should be
    /// off: stop it, then wait.
    Stop { wait_secs: u64 },
    /// The radio is already off: just wait.
    Idle { wait_secs: u64 },
    /// The mode value is unknown: fall back to non-operational, then
    /// wait.
    ResetToNonOperational { wait_secs: u64 },
}

/// The connection task's decision table over the application mode and
/// the driver observation.
pub open spec fn connection_step_spec(mode: i8, connected: bool, started: bool) -> ConnAction {
    if mode == MODE_SETUP {
        if connected {
            ConnAction::Maintain { wait_secs: 2 }
        } else if started {
            ConnAction::Connect { wait_secs: 2 }
        } else {
            ConnAction::StartAndConnect { wait_secs: 2 }
        }
    } else if mode == MODE_OPERATIONAL {
        if connected {
            ConnAction::AwaitDisconnect { timeout_secs: 10 }
        } else if started {
            ConnAction::Connect { wait_secs: 5 }
        } else {
            ConnAction::StartAndConnect { wait_secs: 5 }
        }
    } else if mode == MODE_NON_OPERATIONAL {
        if connected {
            ConnAction::DisconnectAndStop
        } else if started {
            ConnAction::Stop { wait_secs: 5 }
        } else {
            ConnAction::Idle { wait_secs: 5 }
        }
    } else {
        ConnAction::ResetToNonOperational { wait_secs: 5 }
    }
}

/// Decide what the connection task does next, given the application
/// mode and what it observed of the driver.
pub fn connection_step(mode: i8, observation: WifiObservation) -> (action: ConnAction)
    ensures
        action == connection_step_spec(mode, observation.connected, observation.started),
{
    if mode == MODE_SETUP {
        if observation.connected {
            ConnAction::Maintain { wait_secs: 2 }
        } else if observation.started {
            ConnAction::Connect { wait_secs: 2 }
        } else {
            ConnAction::StartAndConnect { wait_secs: 2 }
        }
    } else if mode == MODE_OPERATIONAL {
        if observation.connected {
            ConnAction::AwaitDisconnect { timeout_secs: 10 }
        } else if observation.started {
            ConnAction::Connect { wait_secs: 5 }
        } else {
            ConnAction::StartAndConnect { wait_secs: 5 }
        }
    } else if mode == MODE_NON_OPERATIONAL {
        if observation.connected {
            ConnAction::DisconnectAndStop
        } else if observation.started {
            ConnAction::Stop { wait_secs: 5 }
        } else {
            ConnAction::Idle { wait_secs: 5 }
        }
    } else {
        ConnAction::ResetToNonOperational { wait_secs: 5 }
    }
}

/// How one fetch attempt ended, as far as the retry logic cares.
#[derive(PartialEq, Eq, Structural, Clone, Copy, Debug)]
pub enum RequestOutcome {
    /// The request could not even be built.
    BuildFailed,
    /// Sending the request failed.
    SendFailed,
    /// A response arrived; `ok` says whether its status was 200.
    GotStatus { ok: bool },
}

/// What the fetch loop does after an attempt.
#[derive(PartialEq, Eq, Structural, Clone, Copy, Debug)]
pub enum FetchStep {
    /// The response is good: read its body.
    ReadBody,
    /// Try again after the delay.
    RetryAfterDelay { delay_ms: u64 },
    /// The retry budget is spent: stop with no result.
    GiveUp,
}

/// The fetch loop's retry rule: a good status is read; anything else is
/// retried after [`RETRY_DELAY_MS`] until [`MAX_RETRIES`] attempts are
/// spent.
pub open spec fn retry_decision_spec(attempt: u32, outcome: RequestOutcome) -> FetchStep {
    match outcome {
        RequestOutcome::GotStatus { ok: true } => FetchStep::ReadBody,
        _ => if attempt >= MAX_RETRIES {
            FetchStep::GiveUp
        } else {
            FetchStep::RetryAfterDelay { delay_ms: RETRY_DELAY_MS }
        },
    }
}

/// Decide whether the fetch loop reads the body, retries, or gives up,
/// after attempt number `attempt` (counted from one) ended as `outcome`.
pub fn retry_decision(attempt: u32, outcome: RequestOutcome) -> (step: FetchStep)
    ensures
        step == retry_decision_spec(attempt, outcome),
{
    match outcome {
        RequestOutcome::GotStatus { ok: true } => FetchStep::ReadBody,
        _ => {
            if attempt >= MAX_RETRIES {
                FetchStep::GiveUp
            } else {
                FetchStep::RetryAfterDelay { delay_ms: RETRY_DELAY_MS }
            }
        },
    }
}

} // verus!
