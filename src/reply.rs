//! The replies to chat commands, and their text.
use vstd::prelude::*;
use vstd::string::StringExecFns;

verus! {

/// An action whose effect is confirmed by polling.
#[derive(Debug, Clone, Copy, PartialEq, Eq, Structural)]
pub enum ConfirmAction {
    Start,
    Stop,
}

/// A fixed reply to a command.
#[derive(Debug, Clone, Copy, PartialEq, Eq, Structural)]
pub enum Reply {
    Offline,
    OnlineReady,
    NoCamera,
    AlreadyStreaming,
    RequestError,
    StartingStream,
    AlreadyStopped,
    StoppingStream,
    NotStreaming,
    StreamRestarting,
    Rebooting,
    RebootTooLong,
    RebootSuccess,
    HighDelay,
    LowDelay,
    ActionSucceeded(ConfirmAction),
    ActionTooLong(ConfirmAction),
}

/// The text of a reply.
pub open spec fn reply_text(r: Reply) -> Seq<char> {
    match r {
        Reply::Offline => "LiveU offline :("@,
        Reply::OnlineReady => "LiveU online and ready"@,
        Reply::NoCamera => "Camera not detected"@,
        Reply::AlreadyStreaming => "Already streaming"@,
        Reply::RequestError => "Something went wrong with the request"@,
        Reply::StartingStream => "Starting the stream"@,
        Reply::AlreadyStopped => "Stream already stopped"@,
        Reply::StoppingStream => "Stopping the stream"@,
        Reply::NotStreaming => "Not streaming"@,
        Reply::StreamRestarting => "Restarting the stream"@,
        Reply::Rebooting => "Rebooting the unit"@,
        Reply::RebootTooLong => "Reboot took too long, might not have worked"@,
        Reply::RebootSuccess => "Unit rebooted successfully"@,
        Reply::HighDelay => "Delay set to high resiliency"@,
        Reply::LowDelay => "Delay set to low delay"@,
        Reply::ActionSucceeded(ConfirmAction::Start) => "Stream started successfully"@,
        Reply::ActionSucceeded(ConfirmAction::Stop) => "Stream stopped successfully"@,
        Reply::ActionTooLong(ConfirmAction::Start) => "Stream starting took too long, might not have worked"@,
        Reply::ActionTooLong(ConfirmAction::Stop) => "Stream stopping took too long, might not have worked"@,
    }
}

impl Reply {
    /// The text sent to the channel.
    pub fn text(&self) -> (r: String)
        ensures
            r@ == reply_text(*self),
    {
        match self {
            Reply::Offline => String::from_str("LiveU offline :("),
            Reply::OnlineReady => String::from_str("LiveU online and ready"),
            Reply::NoCamera => String::from_str("Camera not detected"),
            Reply::AlreadyStreaming => String::from_str("Already streaming"),
            Reply::RequestError => String::from_str("Something went wrong with the request"),
            Reply::StartingStream => String::from_str("Starting the stream"),
            Reply::AlreadyStopped => String::from_str("Stream already stopped"),
            Reply::StoppingStream => String::from_str("Stopping the stream"),
            Reply::NotStreaming => String::from_str("Not streaming"),
            Reply::StreamRestarting => String::from_str("Restarting the stream"),
            Reply::Rebooting => String::from_str("Rebooting the unit"),
            Reply::RebootTooLong => String::from_str("Reboot took too long, might not have worked"),
            Reply::RebootSuccess => String::from_str("Unit rebooted successfully"),
            Reply::HighDelay => String::from_str("Delay set to high resiliency"),
            Reply::LowDelay => String::from_str("Delay set to low delay"),
            Reply::ActionSucceeded(ConfirmAction::Start) => String::from_str("Stream started successfully"),
            Reply::ActionSucceeded(ConfirmAction::Stop) => String::from_str("Stream stopped successfully"),
            Reply::ActionTooLong(ConfirmAction::Start) => String::from_str("Stream starting took too long, might not have worked"),
            Reply::ActionTooLong(ConfirmAction::Stop) => String::from_str("Stream stopping took too long, might not have worked"),
        }
    }
}

} // verus!
