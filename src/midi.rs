//! Inbound frames: what the live-message parser makes of them, and the events
//! they carry.

use vstd::prelude::*;
use midly::live::LiveEvent;
use midly::MidiMessage;
use crate::error::{DispatchError, ProtocolError};
use crate::event::Event;

verus! {

/// Receives each inbound frame of the input connection, one at a time.
pub trait MidiMessageHandler {
    fn handle(&mut self, stamp: u64, data: &[u8]) -> Result<(), DispatchError>;
}

/// What a raw frame parses to, as far as dispatch is concerned.
#[derive(Debug, Clone, Copy, PartialEq, Eq, Structural)]
pub enum LiveFrame {
    /// Not a well-formed live message.
    Malformed,
    /// A well-formed system message.
    System,
    /// A program change with its program number.
    ProgramChange(u8),
    /// A control change with its controller number and value.
    Controller(u8, u8),
    /// Another channel message.
    OtherChannel,
}

/// The number of data bytes that a channel message with this status carries.
pub open spec fn channel_data_len(status: u8) -> int {
    if status / 16 == 0xC || status / 16 == 0xD {
        1
    } else {
        2
    }
}

/// How a raw frame parses: a status byte from 0x80 to 0xEF starts a channel
/// message whose data bytes must follow it, each under 0x80; 0xF0 to 0xF6 and
/// 0xF8 to 0xFF are system messages; any other first byte, or none, is malformed.
pub open spec fn live_frame_of(raw: Seq<u8>) -> LiveFrame {
    if raw.len() == 0 {
        LiveFrame::Malformed
    } else if 0x80 <= raw[0] <= 0xEF {
        let n = channel_data_len(raw[0]);
        if raw.len() <= n || raw[1] >= 0x80 || (n == 2 && raw[2] >= 0x80) {
            LiveFrame::Malformed
        } else if raw[0] / 16 == 0xC {
            LiveFrame::ProgramChange(raw[1])
        } else if raw[0] / 16 == 0xB {
            LiveFrame::Controller(raw[1], raw[2])
        } else {
            LiveFrame::OtherChannel
        }
    } else if raw[0] < 0x80 || raw[0] == 0xF7 {
        LiveFrame::Malformed
    } else {
        LiveFrame::System
    }
}

/// Relies on midly's `LiveEvent::parse`: it reads the status byte, takes the data bytes
/// that follow up to the first one of 0x80 or more, fails on a truncated channel
/// message and on a status under 0x80 or of 0xF7, and accepts every other system status.
#[verifier::external_body]
pub(crate) fn parse_live_frame(raw: &[u8]) -> (r: LiveFrame)
    ensures
        r == live_frame_of(raw@),
{
    match LiveEvent::parse(raw) {
        Ok(LiveEvent::Midi { message: MidiMessage::ProgramChange { program }, .. }) => {
            LiveFrame::ProgramChange(program.as_int())
        },
        Ok(LiveEvent::Midi { message: MidiMessage::Controller { controller, value }, .. }) => {
            LiveFrame::Controller(controller.as_int(), value.as_int())
        },
        Ok(LiveEvent::Midi { .. }) => LiveFrame::OtherChannel,
        Ok(_) => LiveFrame::System,
        Err(_) => LiveFrame::Malformed,
    }
}

/// The event a parsed frame carries: a control change's value takes no part.
pub open spec fn event_of_frame(f: LiveFrame) -> Result<Option<Event>, ProtocolError> {
    match f {
        LiveFrame::Malformed => Err(ProtocolError::Malformed),
        LiveFrame::ProgramChange(p) => Ok(Some(Event::PC(p))),
        LiveFrame::Controller(c, _) => Ok(Some(Event::CC(c))),
        _ => Ok(None),
    }
}

/// The event a parsed frame carries, if any.
pub fn decode_frame(f: LiveFrame) -> (r: Result<Option<Event>, ProtocolError>)
    ensures
        r == event_of_frame(f),
{
    match f {
        LiveFrame::Malformed => Err(ProtocolError::Malformed),
        LiveFrame::ProgramChange(p) => Ok(Some(Event::PC(p))),
        LiveFrame::Controller(c, _) => Ok(Some(Event::CC(c))),
        _ => Ok(None),
    }
}

/// The event a raw frame carries, if any.
pub fn decode(frame: &[u8]) -> (r: Result<Option<Event>, ProtocolError>)
    ensures
        r == event_of_frame(live_frame_of(frame@)),
{
    decode_frame(parse_live_frame(frame))
}

} // verus!
