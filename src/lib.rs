//! Telemetry synchronisation and chat-command logic for a bonding-unit
//! stats bot: modem diffing, battery transition detection, command routing
//! and the bounded confirmation loops of remote actions.
pub mod action;
pub mod battery;
pub mod command;
pub mod dispatch;
pub mod modem;
pub mod monitor;
pub mod notice;
pub mod reply;
pub mod report;
pub mod store;
pub mod text;
