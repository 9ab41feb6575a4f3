//! Operations on the radio's bus and lines that a multi-step run asks its
//! caller to perform, and what the caller reports back.
//!
//! A run (configuring the radio, sending a long payload) is a state machine:
//! each call of its `next` method takes the outcome of the previous operation
//! and returns the next operation, or the run's result.

use vstd::prelude::*;

verus! {

/// One operation for the caller to perform.
#[derive(Debug)]
pub enum BusOp {
    /// Transfer the bytes and report the bytes that came back, in a `Reply`.
    Transfer(Vec<u8>),
    /// Write the bytes, ignoring what comes back, and report `Done`.
    Write(Vec<u8>),
    /// Wait this many microseconds and report `Done`.
    Delay(u32),
    /// Read the frame-start line and report its level, in `FrameStart`.
    ReadFrameStart,
}

/// The outcome of the operation last asked for.
#[derive(Debug)]
pub enum BusEvent {
    /// Nothing has been performed yet: the run is starting.
    Start,
    /// The bytes a transfer returned.
    Reply(Vec<u8>),
    /// A write or a wait has completed.
    Done,
    /// The frame-start line is high (`true`) or low.
    FrameStart(bool),
}

/// What a run asks for next.
#[derive(Debug)]
pub enum Step<T> {
    Perform(BusOp),
    Finished(T),
}

/// The bytes a `Reply` carries; empty for other events.
pub open spec fn reply_of(event: BusEvent) -> Seq<u8> {
    match event {
        BusEvent::Reply(bytes) => bytes@,
        _ => Seq::empty(),
    }
}

/// The first byte of a reply, or 0 for an empty one.
pub open spec fn first_byte(reply: Seq<u8>) -> u8 {
    if reply.len() > 0 {
        reply[0]
    } else {
        0
    }
}

/// `step` asks for a transfer of exactly `bytes`.
pub open spec fn is_transfer<T>(step: Step<T>, bytes: Seq<u8>) -> bool {
    step matches Step::Perform(BusOp::Transfer(frame)) && frame@ == bytes
}

/// `step` asks for a write of exactly `bytes`.
pub open spec fn is_write<T>(step: Step<T>, bytes: Seq<u8>) -> bool {
    step matches Step::Perform(BusOp::Write(frame)) && frame@ == bytes
}

/// The reply bytes of an event, as a vector (empty for other events).
pub fn reply_bytes(event: BusEvent) -> (r: Vec<u8>)
    ensures
        r@ == reply_of(event),
{
    match event {
        BusEvent::Reply(bytes) => bytes,
        _ => Vec::new(),
    }
}

/// Computes `first_byte(reply@)`.
pub fn first_byte_of(reply: &Vec<u8>) -> (r: u8)
    ensures
        r == first_byte(reply@),
{
    if reply.len() > 0 {
        reply[0]
    } else {
        0
    }
}

} // verus!
