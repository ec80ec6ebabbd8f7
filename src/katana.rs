//! The amplifier's control channel: system exclusive framing, the 7-bit
//! checksum, and the edit-mode lifecycle as a state machine whose transitions
//! hand back the message that the transport must send.

use vstd::prelude::*;
use midi_msg::{ManufacturerID, MidiMsg, SystemExclusiveMsg};
use crate::error::ConfigError;
use crate::text::str_eq;

verus! {

/// The manufacturer tag of the amplifier's system exclusive messages.
pub const ROLAND_MANUFACTURER_ID: u8 = 0x41;

/// The named presets of the amplifier.
#[derive(Debug, Clone, Copy, PartialEq, Eq, Structural)]
pub enum Preset {
    Panel,
    A1,
    A2,
    A3,
    A4,
    B1,
    B2,
    B3,
    B4,
}

/// The numeric code of a preset in the protocol's payload.
pub open spec fn preset_code(p: Preset) -> u8 {
    match p {
        Preset::Panel => 0,
        Preset::A1 => 1,
        Preset::A2 => 2,
        Preset::A3 => 3,
        Preset::A4 => 4,
        Preset::B1 => 5,
        Preset::B2 => 6,
        Preset::B3 => 7,
        Preset::B4 => 8,
    }
}

impl From<Preset> for u8 {
    fn from(value: Preset) -> (r: u8)
        ensures
            r == preset_code(value),
    {
        match value {
            Preset::Panel => 0,
            Preset::A1 => 1,
            Preset::A2 => 2,
            Preset::A3 => 3,
            Preset::A4 => 4,
            Preset::B1 => 5,
            Preset::B2 => 6,
            Preset::B3 => 7,
            Preset::B4 => 8,
        }
    }
}

impl vstd::std_specs::convert::FromSpecImpl<Preset> for u8 {
    open spec fn obeys_from_spec() -> bool {
        true
    }

    open spec fn from_spec(v: Preset) -> u8 {
        preset_code(v)
    }
}

/// The preset named exactly `s`.
pub open spec fn preset_of(s: Seq<char>) -> Option<Preset> {
    if s == "Panel"@ {
        Some(Preset::Panel)
    } else if s == "A1"@ {
        Some(Preset::A1)
    } else if s == "A2"@ {
        Some(Preset::A2)
    } else if s == "A3"@ {
        Some(Preset::A3)
    } else if s == "A4"@ {
        Some(Preset::A4)
    } else if s == "B1"@ {
        Some(Preset::B1)
    } else if s == "B2"@ {
        Some(Preset::B2)
    } else if s == "B3"@ {
        Some(Preset::B3)
    } else if s == "B4"@ {
        Some(Preset::B4)
    } else {
        None
    }
}

impl Preset {
    /// The preset with the given name.
    pub fn try_from(name: &str) -> (r: Result<Preset, ConfigError>)
        ensures
            r == match preset_of(name@) {
                Some(p) => Ok::<Preset, ConfigError>(p),
                None => Err(ConfigError::InvalidDeviceCommand),
            },
    {
        if str_eq(name, "Panel") {
            Ok(Preset::Panel)
        } else if str_eq(name, "A1") {
            Ok(Preset::A1)
        } else if str_eq(name, "A2") {
            Ok(Preset::A2)
        } else if str_eq(name, "A3") {
            Ok(Preset::A3)
        } else if str_eq(name, "A4") {
            Ok(Preset::A4)
        } else if str_eq(name, "B1") {
            Ok(Preset::B1)
        } else if str_eq(name, "B2") {
            Ok(Preset::B2)
        } else if str_eq(name, "B3") {
            Ok(Preset::B3)
        } else if str_eq(name, "B4") {
            Ok(Preset::B4)
        } else {
            Err(ConfigError::InvalidDeviceCommand)
        }
    }
}

/// The sum of the bytes, as an unbounded number.
pub open spec fn byte_sum(s: Seq<u8>) -> nat
    decreases s.len(),
{
    if s.len() == 0 {
        0
    } else {
        byte_sum(s.drop_last()) + s.last() as nat
    }
}

/// The 7-bit value that brings the sum of the bytes to a multiple of 128.
pub open spec fn checksum_of(s: Seq<u8>) -> u8 {
    ((128 - byte_sum(s) % 128) % 128) as u8
}

pub open spec fn sysex_write_prefix() -> Seq<u8> {
    seq![0x00u8, 0x00u8, 0x00u8, 0x00u8, 0x33u8, 0x12u8]
}

pub open spec fn edit_mode_on() -> Seq<u8> {
    seq![0x7Fu8, 0x00u8, 0x00u8, 0x01u8, 0x01u8]
}

pub open spec fn edit_mode_off() -> Seq<u8> {
    seq![0x7Fu8, 0x00u8, 0x00u8, 0x01u8, 0x00u8]
}

/// The command bytes that select a preset.
pub open spec fn preset_command(p: Preset) -> Seq<u8> {
    seq![0x00u8, 0x01u8, 0x00u8, 0x00u8, 0x00u8, preset_code(p)]
}

/// The write prefix, the command bytes, then their checksum.
pub open spec fn sysex_payload(data: Seq<u8>) -> Seq<u8> {
    sysex_write_prefix() + data + seq![checksum_of(data)]
}

/// A byte limited to the 7-bit range, as the message encoder stores data bytes.
pub open spec fn cap7(b: u8) -> u8 {
    if b > 0x7F {
        0x7F
    } else {
        b
    }
}

/// A manufacturer-specific system exclusive message with a one-byte manufacturer tag.
pub open spec fn commercial_sysex_bytes(id: u8, data: Seq<u8>) -> Seq<u8> {
    seq![0xF0u8, if id > 0x7C { 0x7Cu8 } else { id }] + data.map_values(|b: u8| cap7(b)) + seq![
        0xF7u8,
    ]
}

/// The complete message that carries the given command bytes to the amplifier.
pub open spec fn sysex_message(data: Seq<u8>) -> Seq<u8> {
    commercial_sysex_bytes(0x41, sysex_payload(data))
}

/// Relies on midi-msg's `MidiMsg::to_midi` for `SystemExclusiveMsg::Commercial` with a
/// one-byte `ManufacturerID`: 0xF0, the tag capped at 0x7C, each data byte capped at 0x7F,
/// then 0xF7.
#[verifier::external_body]
fn commercial_sysex(id: u8, data: Vec<u8>) -> (r: Vec<u8>)
    ensures
        r@ == commercial_sysex_bytes(id, data@),
{
    let msg = SystemExclusiveMsg::Commercial { id: ManufacturerID(id, None), data };
    MidiMsg::SystemExclusive { msg }.to_midi()
}

/// The checksum of the command bytes: the 7-bit value that makes their sum,
/// with it, a multiple of 128.
pub fn calculate_checksum(data: &[u8]) -> (r: u8)
    ensures
        r == checksum_of(data@),
        r < 128,
{
    let mut acc: u8 = 0;
    let mut i: usize = 0;
    while i < data.len()
        invariant
            i <= data@.len(),
            acc == byte_sum(data@.take(i as int)) % 128,
        decreases data@.len() - i,
    {
        let ghost before = data@.take(i as int);
        acc = ((acc as u16 + data[i] as u16) % 128) as u8;
        i += 1;
        proof {
            assert(data@.take(i as int).drop_last() =~= before);
            vstd::arithmetic::div_mod::lemma_add_mod_noop_right(
                data@[i - 1] as int,
                byte_sum(before) as int,
                128,
            );
        }
    }
    assert(data@.take(data@.len() as int) =~= data@);
    (128 - acc) % 128
}

/// The write prefix, the command bytes and their checksum.
pub fn create_sysex_payload(data: &[u8]) -> (r: Vec<u8>)
    ensures
        r@ == sysex_payload(data@),
{
    let mut payload: Vec<u8> = vec![0x00, 0x00, 0x00, 0x00, 0x33, 0x12];
    let mut i: usize = 0;
    while i < data.len()
        invariant
            i <= data@.len(),
            payload@ == sysex_write_prefix() + data@.take(i as int),
        decreases data@.len() - i,
    {
        payload.push(data[i]);
        i += 1;
        assert(payload@ =~= sysex_write_prefix() + data@.take(i as int));
    }
    assert(data@.take(data@.len() as int) =~= data@);
    payload.push(calculate_checksum(data));
    payload
}

/// The complete message that carries the given command bytes to the amplifier.
pub fn create_sysex_message(data: &[u8]) -> (r: Vec<u8>)
    ensures
        r@ == sysex_message(data@),
{
    commercial_sysex(ROLAND_MANUFACTURER_ID, create_sysex_payload(data))
}

/// The stages of the channel's edit-mode lifecycle.
#[derive(Debug, Clone, Copy, PartialEq, Eq, Structural)]
pub enum EditState {
    Uninitialized,
    EditActive,
    Closed,
}

/// The messages issued in a session that selected the given presets, in order.
pub open spec fn session_messages(state: EditState, presets: Seq<Preset>) -> Seq<Seq<u8>> {
    match state {
        EditState::Uninitialized => Seq::empty(),
        EditState::EditActive => seq![sysex_message(edit_mode_on())] + presets.map_values(
            |p: Preset| sysex_message(preset_command(p)),
        ),
        EditState::Closed => seq![sysex_message(edit_mode_on())] + presets.map_values(
            |p: Preset| sysex_message(preset_command(p)),
        ) + seq![sysex_message(edit_mode_off())],
    }
}

/// The control channel of the amplifier. Each transition returns the message
/// that the transport must send; the channel records what it has issued.
pub struct KatanaControl {
    state: EditState,
    presets: Ghost<Seq<Preset>>,
}

impl KatanaControl {
    pub closed spec fn state(&self) -> EditState {
        self.state
    }

    /// The presets selected so far, in order.
    pub closed spec fn presets(&self) -> Seq<Preset> {
        self.presets@
    }

    /// Every message the channel has issued, in order.
    pub open spec fn issued(&self) -> Seq<Seq<u8>> {
        session_messages(self.state(), self.presets())
    }

    /// Opens the channel in edit mode, with the edit-mode entry message that the
    /// transport must send before the channel is used.
    pub fn new() -> (r: (KatanaControl, Vec<u8>))
        ensures
            r.0.state() == EditState::EditActive,
            r.0.presets() == Seq::<Preset>::empty(),
            r.1@ == sysex_message(edit_mode_on()),
            r.0.issued() == seq![r.1@],
    {
        let mut ctrl = KatanaControl { state: EditState::Uninitialized, presets: Ghost(Seq::empty()) };
        let msg = ctrl.enter_edit_mode();
        proof {
            assert(ctrl.issued() =~= seq![msg@]);
        }
        (ctrl, msg)
    }

    pub fn is_edit_active(&self) -> (r: bool)
        ensures
            r == (self.state() == EditState::EditActive),
    {
        self.state == EditState::EditActive
    }

    /// The message that selects `preset`; the channel stays in edit mode.
    pub fn change_preset(&mut self, preset: Preset) -> (r: Vec<u8>)
        requires
            old(self).state() == EditState::EditActive,
        ensures
            final(self).state() == EditState::EditActive,
            final(self).presets() == old(self).presets().push(preset),
            r@ == sysex_message(preset_command(preset)),
            final(self).issued() == old(self).issued().push(r@),
    {
        let payload: Vec<u8> = vec![0x00, 0x01, 0x00, 0x00, 0x00, preset.into()];
        let msg = create_sysex_message(payload.as_slice());
        let ghost before = self.presets@;
        self.presets = Ghost(self.presets@.push(preset));
        proof {
            assert(payload@ =~= preset_command(preset));
            assert(self.presets@.map_values(|p: Preset| sysex_message(preset_command(p)))
                =~= before.map_values(|p: Preset| sysex_message(preset_command(p))).push(msg@));
            assert(self.issued() =~= old(self).issued().push(msg@));
        }
        msg
    }

    fn enter_edit_mode(&mut self) -> (r: Vec<u8>)
        requires
            old(self).state() == EditState::Uninitialized,
        ensures
            final(self).state() == EditState::EditActive,
            final(self).presets() == old(self).presets(),
            r@ == sysex_message(edit_mode_on()),
    {
        let data: Vec<u8> = vec![0x7F, 0x00, 0x00, 0x01, 0x01];
        assert(data@ =~= edit_mode_on());
        self.state = EditState::EditActive;
        create_sysex_message(data.as_slice())
    }

    /// Closes the channel, with the edit-mode exit message that the transport
    /// must try to send once.
    pub fn exit_edit_mode(&mut self) -> (r: Vec<u8>)
        requires
            old(self).state() == EditState::EditActive,
        ensures
            final(self).state() == EditState::Closed,
            final(self).presets() == old(self).presets(),
            r@ == sysex_message(edit_mode_off()),
            final(self).issued() == old(self).issued().push(r@),
    {
        let data: Vec<u8> = vec![0x7F, 0x00, 0x00, 0x01, 0x00];
        assert(data@ =~= edit_mode_off());
        self.state = EditState::Closed;
        let msg = create_sysex_message(data.as_slice());
        proof {
            assert(self.issued() =~= old(self).issued().push(msg@));
        }
        msg
    }
}

/// The number of times `x` occurs in `s`.
pub open spec fn occurrences(s: Seq<Seq<u8>>, x: Seq<u8>) -> nat
    decreases s.len(),
{
    if s.len() == 0 {
        0
    } else {
        occurrences(s.drop_last(), x) + if s.last() == x {
            1nat
        } else {
            0nat
        }
    }
}

proof fn lemma_occurrences_concat(a: Seq<Seq<u8>>, b: Seq<Seq<u8>>, x: Seq<u8>)
    ensures
        occurrences(a + b, x) == occurrences(a, x) + occurrences(b, x),
    decreases b.len(),
{
    if b.len() == 0 {
        assert(a + b =~= a);
    } else {
        assert((a + b).drop_last() =~= a + b.drop_last());
        lemma_occurrences_concat(a, b.drop_last(), x);
    }
}

proof fn lemma_no_occurrence(s: Seq<Seq<u8>>, x: Seq<u8>)
    requires
        forall|i: int| 0 <= i < s.len() ==> s[i] != x,
    ensures
        occurrences(s, x) == 0,
    decreases s.len(),
{
    if s.len() > 0 {
        lemma_no_occurrence(s.drop_last(), x);
    }
}

proof fn lemma_sysex_message_len(data: Seq<u8>)
    ensures
        sysex_message(data).len() == data.len() + 10,
{
}

/// A checksum balances the bytes it was computed over: whatever their sum
/// modulo 128, that residue plus the checksum is a multiple of 128.
pub proof fn lemma_checksum_balances(b: Seq<u8>, s: int)
    requires
        byte_sum(b) % 128 == s,
    ensures
        (s + checksum_of(b)) % 128 == 0,
{
}

/// Over a whole session of the channel, however many presets were selected in
/// between, the edit-mode entry was issued exactly once, as the first message,
/// and the edit-mode exit exactly once, as the last.
pub proof fn lemma_edit_mode_bracketing(c: KatanaControl)
    requires
        c.state() == EditState::Closed,
    ensures
        occurrences(c.issued(), sysex_message(edit_mode_on())) == 1,
        occurrences(c.issued(), sysex_message(edit_mode_off())) == 1,
        c.issued()[0] == sysex_message(edit_mode_on()),
        c.issued().last() == sysex_message(edit_mode_off()),
{
    let on = sysex_message(edit_mode_on());
    let off = sysex_message(edit_mode_off());
    let mid = c.presets().map_values(|p: Preset| sysex_message(preset_command(p)));
    let first: Seq<Seq<u8>> = seq![on];
    let last: Seq<Seq<u8>> = seq![off];
    assert(c.issued() == first + mid + last);
    lemma_sysex_message_len(edit_mode_on());
    lemma_sysex_message_len(edit_mode_off());
    assert(on[12] == 0x01u8);
    assert(off[12] == 0x00u8);
    assert(on != off);
    assert forall|i: int| 0 <= i < mid.len() implies mid[i] != on && mid[i] != off by {
        lemma_sysex_message_len(preset_command(c.presets()[i]));
    }
    lemma_no_occurrence(mid, on);
    lemma_no_occurrence(mid, off);
    lemma_occurrences_concat(first, mid, on);
    lemma_occurrences_concat(first + mid, last, on);
    lemma_occurrences_concat(first, mid, off);
    lemma_occurrences_concat(first + mid, last, off);
    assert(occurrences(first, on) == 1 && occurrences(first, off) == 0) by {
        assert(first.drop_last().len() == 0);
        assert(occurrences(first.drop_last(), on) == 0);
        assert(occurrences(first.drop_last(), off) == 0);
        assert(first.last() == on);
    }
    assert(occurrences(last, on) == 0 && occurrences(last, off) == 1) by {
        assert(last.drop_last().len() == 0);
        assert(occurrences(last.drop_last(), on) == 0);
        assert(occurrences(last.drop_last(), off) == 0);
        assert(last.last() == off);
    }
}

} // verus!
