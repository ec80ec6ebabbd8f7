//! Translates control-surface messages into composite actions: emulated key
//! strokes, forwarded control messages and preset changes on an amplifier
//! driven over a manufacturer-specific system exclusive protocol.

pub mod action;
pub mod error;
pub mod event;
pub mod handler;
pub mod katana;
pub mod midi;
pub mod table;
pub mod text;
