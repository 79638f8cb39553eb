//! The decisions of the action commands (start, stop, restart, reboot,
//! delay) and the bounded loops that confirm them.
use vstd::prelude::*;
use crate::reply::{ConfirmAction, Reply};

verus! {

/// Attempts to confirm a start.
pub const START_CONFIRM_ATTEMPTS: u8 = 15;

/// Attempts to confirm a stop.
pub const STOP_CONFIRM_ATTEMPTS: u8 = 10;

/// Idle checks after a reboot before giving up.
pub const REBOOT_IDLE_ATTEMPTS: u8 = 20;

/// The delay of the low-delay mode, in milliseconds.
pub const LOW_DELAY_MS: u32 = 1000;

/// The delay of the high-resiliency mode, in milliseconds.
pub const HIGH_DELAY_MS: u32 = 5000;

/// What the unit reports of its video input.
#[derive(Debug, Clone, Copy, PartialEq, Eq, Structural)]
pub struct VideoState {
    /// A camera is detected.
    pub has_resolution: bool,
    /// Video is being sent.
    pub has_bitrate: bool,
}

/// The next move of a command.
#[derive(Debug, Clone, Copy, PartialEq, Eq, Structural)]
pub enum Step {
    /// Answer and stop here.
    Reply(Reply),
    /// Send the request to the unit.
    Issue,
}

/// Where a confirmation loop stands.
#[derive(Debug, Clone, Copy, PartialEq, Eq, Structural)]
pub enum ConfirmStatus {
    Pending,
    Succeeded,
    TimedOut,
}

/// Polls for the expected video state after an action, a bounded number of
/// times.
#[derive(Debug, Clone, Copy, PartialEq, Eq, Structural)]
pub struct ConfirmationPoller {
    pub max_attempts: u8,
    /// Whether a bitrate should be present once the action took effect.
    pub expected: bool,
    /// Polls so far that did not show the expected state.
    pub attempts: u8,
    pub action: ConfirmAction,
}

/// The start decision from the video state; `None` when it could not be
/// fetched.
pub open spec fn start_step(video: Option<VideoState>) -> Step {
    match video {
        None => Step::Reply(Reply::Offline),
        Some(v) => if !v.has_resolution {
            Step::Reply(Reply::NoCamera)
        } else if v.has_bitrate {
            Step::Reply(Reply::AlreadyStreaming)
        } else {
            Step::Issue
        },
    }
}

/// Decides a start: offline, no camera, already streaming, or go.
pub fn start_decision(video: Option<VideoState>) -> (r: Step)
    ensures
        r == start_step(video),
{
    match video {
        None => Step::Reply(Reply::Offline),
        Some(v) => {
            if !v.has_resolution {
                Step::Reply(Reply::NoCamera)
            } else if v.has_bitrate {
                Step::Reply(Reply::AlreadyStreaming)
            } else {
                Step::Issue
            }
        },
    }
}

/// Decides a stop: not streaming answers "already stopped" and the stop
/// request is never sent.
pub fn stop_decision(streaming: bool) -> (r: Step)
    ensures
        r == (if streaming { Step::Issue } else { Step::Reply(Reply::AlreadyStopped) }),
{
    if streaming {
        Step::Issue
    } else {
        Step::Reply(Reply::AlreadyStopped)
    }
}

/// Decides a restart: not streaming answers "not streaming"; otherwise the
/// restart is announced and goes ahead.
pub fn restart_decision(streaming: bool) -> (r: Step)
    ensures
        r == (if streaming { Step::Issue } else { Step::Reply(Reply::NotStreaming) }),
{
    if streaming {
        Step::Issue
    } else {
        Step::Reply(Reply::NotStreaming)
    }
}

/// The reply after a start or stop request, and the confirmation loop to run
/// when the unit accepted it.
pub fn after_request(action: ConfirmAction, accepted: bool) -> (r: (Reply, Option<
    ConfirmationPoller,
>))
    ensures
        !accepted ==> r == (Reply::RequestError, None::<ConfirmationPoller>),
        accepted && action == ConfirmAction::Start ==> r == (
            Reply::StartingStream,
            Some(ConfirmationPoller::spec_new(START_CONFIRM_ATTEMPTS, true, action)),
        ),
        accepted && action == ConfirmAction::Stop ==> r == (
            Reply::StoppingStream,
            Some(ConfirmationPoller::spec_new(STOP_CONFIRM_ATTEMPTS, false, action)),
        ),
{
    if !accepted {
        return (Reply::RequestError, None);
    }
    match action {
        ConfirmAction::Start => (
            Reply::StartingStream,
            Some(ConfirmationPoller::new(START_CONFIRM_ATTEMPTS, true, action)),
        ),
        ConfirmAction::Stop => (
            Reply::StoppingStream,
            Some(ConfirmationPoller::new(STOP_CONFIRM_ATTEMPTS, false, action)),
        ),
    }
}

impl ConfirmationPoller {
    /// A poller that has not polled yet.
    pub open spec fn spec_new(max_attempts: u8, expected: bool, action: ConfirmAction) -> Self {
        ConfirmationPoller { max_attempts, expected, attempts: 0, action }
    }

    /// A poller that has not polled yet.
    pub fn new(max_attempts: u8, expected: bool, action: ConfirmAction) -> (r: Self)
        ensures
            r == Self::spec_new(max_attempts, expected, action),
    {
        ConfirmationPoller { max_attempts, expected, attempts: 0, action }
    }

    /// The attempts never exceed the bound.
    pub open spec fn wf(&self) -> bool {
        self.attempts <= self.max_attempts
    }

    /// Whether the bound is used up, so that no poll is due any more.
    pub fn is_exhausted(&self) -> (r: bool)
        ensures
            r == (self.attempts == self.max_attempts),
    {
        self.attempts == self.max_attempts
    }

    /// Takes one poll: `Some(b)` where the video state was fetched and a
    /// bitrate was present exactly when `b`, `None` where the fetch failed.
    /// The expected state ends the loop with success; anything else uses up
    /// an attempt, and the last one ends the loop with a timeout.
    pub fn observe(&mut self, poll: Option<bool>) -> (r: ConfirmStatus)
        requires
            old(self).wf(),
            old(self).attempts < old(self).max_attempts,
        ensures
            final(self).wf(),
            final(self).max_attempts == old(self).max_attempts,
            final(self).expected == old(self).expected,
            final(self).action == old(self).action,
            poll == Some(old(self).expected) ==> r == ConfirmStatus::Succeeded && final(self).attempts == old(self).attempts,
            poll != Some(old(self).expected) ==> final(self).attempts == old(self).attempts + 1
                && r == (if final(self).attempts == final(self).max_attempts {
                ConfirmStatus::TimedOut
            } else {
                ConfirmStatus::Pending
            }),
    {
        match poll {
            Some(b) => {
                if b == self.expected {
                    return ConfirmStatus::Succeeded;
                }
            },
            None => {},
        }
        self.attempts = self.attempts + 1;
        if self.attempts == self.max_attempts {
            ConfirmStatus::TimedOut
        } else {
            ConfirmStatus::Pending
        }
    }

    /// The message that closes the loop: success or "took too long".
    pub fn final_reply(&self, status: ConfirmStatus) -> (r: Reply)
        ensures
            r == (if status == ConfirmStatus::Succeeded {
                Reply::ActionSucceeded(self.action)
            } else {
                Reply::ActionTooLong(self.action)
            }),
    {
        if status == ConfirmStatus::Succeeded {
            Reply::ActionSucceeded(self.action)
        } else {
            Reply::ActionTooLong(self.action)
        }
    }
}

/// Waits for the unit to come back idle after a reboot.
#[derive(Debug, Clone, Copy, PartialEq, Eq, Structural)]
pub struct RebootFlow {
    /// The unit was streaming when the reboot was asked for; the stream is
    /// started again afterwards.
    pub was_streaming: bool,
    /// Idle checks so far that found the unit busy.
    pub attempts: u8,
}

/// Where a reboot stands after an idle check.
#[derive(Debug, Clone, Copy, PartialEq, Eq, Structural)]
pub enum RebootStatus {
    /// Check again later.
    Waiting,
    /// The unit is idle again.
    Ready,
    /// The unit was busy at every allowed check.
    TooLong,
}

impl RebootFlow {
    /// A reboot that has not checked yet.
    pub fn new(was_streaming: bool) -> (r: Self)
        ensures
            r == (RebootFlow { was_streaming, attempts: 0 }),
    {
        RebootFlow { was_streaming, attempts: 0 }
    }

    /// Takes one idle check. Idle: ready. Busy: one attempt is used up, and
    /// the last one gives up.
    pub fn observe_idle(&mut self, idle: bool) -> (r: RebootStatus)
        requires
            old(self).attempts < REBOOT_IDLE_ATTEMPTS,
        ensures
            final(self).was_streaming == old(self).was_streaming,
            idle ==> r == RebootStatus::Ready && final(self).attempts == old(self).attempts,
            !idle ==> final(self).attempts == old(self).attempts + 1 && r == (if final(self).attempts == REBOOT_IDLE_ATTEMPTS {
                RebootStatus::TooLong
            } else {
                RebootStatus::Waiting
            }),
    {
        if idle {
            return RebootStatus::Ready;
        }
        self.attempts = self.attempts + 1;
        if self.attempts == REBOOT_IDLE_ATTEMPTS {
            RebootStatus::TooLong
        } else {
            RebootStatus::Waiting
        }
    }

    /// The reply once the loop ended: "too long" on a timeout; after a
    /// successful reboot nothing when the stream is to be started again,
    /// else "rebooted successfully".
    pub fn final_reply(&self, status: RebootStatus) -> (r: Option<Reply>)
        ensures
            status == RebootStatus::TooLong ==> r == Some(Reply::RebootTooLong),
            status != RebootStatus::TooLong && self.was_streaming ==> r == None::<Reply>,
            status != RebootStatus::TooLong && !self.was_streaming ==> r == Some(
                Reply::RebootSuccess,
            ),
    {
        match status {
            RebootStatus::TooLong => Some(Reply::RebootTooLong),
            _ => {
                if self.was_streaming {
                    None
                } else {
                    Some(Reply::RebootSuccess)
                }
            },
        }
    }
}

/// The delay to switch to, and the mode it names: low delay goes to high
/// resiliency, anything else to low delay.
pub fn next_delay(current_ms: u32) -> (r: (u32, Reply))
    ensures
        current_ms == LOW_DELAY_MS ==> r == (HIGH_DELAY_MS, Reply::HighDelay),
        current_ms != LOW_DELAY_MS ==> r == (LOW_DELAY_MS, Reply::LowDelay),
{
    if current_ms == LOW_DELAY_MS {
        (HIGH_DELAY_MS, Reply::HighDelay)
    } else {
        (LOW_DELAY_MS, Reply::LowDelay)
    }
}

} // verus!
