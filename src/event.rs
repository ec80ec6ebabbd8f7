//! Trigger events and their textual form `"PC <n>"` / `"CC <n>"`.

use vstd::prelude::*;
use crate::error::ConfigError;
use crate::text::{chars_of, parse_seven_bit, seven_bit_of};

verus! {

/// An incoming trigger: a program change or a control change, by number.
#[derive(Debug, Clone, Copy, PartialEq, Eq, Hash, Structural)]
pub enum Event {
    PC(u8),
    CC(u8),
}

/// The event written as `"<TYPE> <value>"`, with `TYPE` one of `PC` and `CC`
/// and a 7-bit value of one to three digits.
pub open spec fn event_of(s: Seq<char>) -> Option<Event> {
    if s.len() >= 3 && s[2] == ' ' {
        match seven_bit_of(s.subrange(3, s.len() as int)) {
            Some(v) => if s[0] == 'P' && s[1] == 'C' {
                Some(Event::PC(v))
            } else if s[0] == 'C' && s[1] == 'C' {
                Some(Event::CC(v))
            } else {
                None
            },
            None => None,
        }
    } else {
        None
    }
}

/// The key under which an event is stored: distinct events have distinct keys.
pub open spec fn event_key(e: Event) -> u16 {
    match e {
        Event::PC(n) => n as u16,
        Event::CC(n) => (256 + n as u16) as u16,
    }
}

impl Event {
    pub fn key(&self) -> (r: u16)
        ensures
            r == event_key(*self),
    {
        match *self {
            Event::PC(n) => n as u16,
            Event::CC(n) => 256 + n as u16,
        }
    }

    /// Reads an event from its textual form.
    pub fn try_from(value: &str) -> (r: Result<Event, ConfigError>)
        ensures
            r == match event_of(value@) {
                Some(e) => Ok::<Event, ConfigError>(e),
                None => Err(ConfigError::InvalidEvent),
            },
    {
        let cs = chars_of(value);
        if cs.len() < 3 || cs[2] != ' ' {
            return Err(ConfigError::InvalidEvent);
        }
        let v = match parse_seven_bit(&cs, 3, cs.len()) {
            Some(v) => v,
            None => {
                return Err(ConfigError::InvalidEvent);
            },
        };
        if cs[0] == 'P' && cs[1] == 'C' {
            Ok(Event::PC(v))
        } else if cs[0] == 'C' && cs[1] == 'C' {
            Ok(Event::CC(v))
        } else {
            Err(ConfigError::InvalidEvent)
        }
    }
}

} // verus!
