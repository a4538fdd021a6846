//! The progress side-channel of a sweep.
//!
//! A sweep reports a human-readable status line before each baud-rate change
//! and before each address attempt. The sink is a capability the caller
//! supplies; an implementation must swallow its own failures, and the scanner
//! never reacts to it.

use vstd::prelude::*;
use vstd::string::StringExecFns;
use crate::render::{dec_render, push_decimal};

verus! {

/// Receives human-readable status lines during a sweep. Implementations may
/// forward to a callback, a channel, or nothing at all; they must not fail
/// visibly, since the scanner ignores the sink's outcome by design.
pub trait ProgressSink {
    fn report(&mut self, message: &str);
}

/// A sink that discards every status line.
pub struct NoProgress {}

impl NoProgress {
    pub fn new() -> (sink: NoProgress) {
        NoProgress {}
    }
}

impl ProgressSink for NoProgress {
    fn report(&mut self, _message: &str) {
    }
}

/// A sink that keeps every status line, in order of arrival.
pub struct RecordingProgress {
    pub messages: Vec<String>,
}

impl RecordingProgress {
    pub fn new() -> (sink: RecordingProgress)
        ensures
            sink.messages@.len() == 0,
    {
        RecordingProgress { messages: Vec::new() }
    }
}

impl ProgressSink for RecordingProgress {
    fn report(&mut self, message: &str) {
        self.messages.push(message.to_owned());
    }
}

/// The status line announced before probing one address.
pub open spec fn address_message_spec(address: u8) -> Seq<char> {
    "Checking address "@ + dec_render(address as nat) + "..."@
}

/// The status line announced before switching to a baud rate.
pub open spec fn baud_message_spec(baud_rate: u32) -> Seq<char> {
    "Checking baud rate "@ + dec_render(baud_rate as nat) + "..."@
}

/// The status line announced before each address inside a full sweep, naming
/// the end of the range being walked.
pub open spec fn sweep_address_message_spec(address: u8, end_address: u8) -> Seq<char> {
    "  Address "@ + dec_render(address as nat) + "/"@ + dec_render(end_address as nat) + "..."@
}

/// Builds the status line announced before probing one address.
pub fn address_message(address: u8) -> (s: String)
    ensures
        s@ == address_message_spec(address),
{
    let mut s = "Checking address ".to_owned();
    push_decimal(&mut s, address as u32);
    s.append("...");
    s
}

/// Builds the status line announced before switching to a baud rate.
pub fn baud_message(baud_rate: u32) -> (s: String)
    ensures
        s@ == baud_message_spec(baud_rate),
{
    let mut s = "Checking baud rate ".to_owned();
    push_decimal(&mut s, baud_rate);
    s.append("...");
    s
}

/// Builds the status line announced before each address inside a full sweep.
pub fn sweep_address_message(address: u8, end_address: u8) -> (s: String)
    ensures
        s@ == sweep_address_message_spec(address, end_address),
{
    let mut s = "  Address ".to_owned();
    push_decimal(&mut s, address as u32);
    s.append("/");
    push_decimal(&mut s, end_address as u32);
    s.append("...");
    s
}

} // verus!
