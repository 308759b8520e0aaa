//! A validated desktop-notification builder.
//!
//! The library keeps a mutable draft of a notification's fields, offers
//! chainable setters with input validation of the integer-coded timeout and
//! urgency values, and on `show` hands the draft to notify-rust, the
//! delivery collaborator that talks to the notification server.

pub mod backend;
pub mod errors;
pub mod notification;
pub mod server_information;
pub mod timeout;
pub mod urgency;
