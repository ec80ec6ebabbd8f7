//! Composite actions and how they are read from mapping descriptors.

use vstd::prelude::*;
use midi_msg::{Channel, ChannelVoiceMsg, ControlChange, MidiMsg};
use crate::error::ConfigError;
use crate::katana::{preset_of, Preset};
use crate::text::{chars_of, find_char, first_index_of, parse_seven_bit, seven_bit_of};

verus! {

/// A message to emit again on the output channel.
#[derive(Debug, Clone, Copy, PartialEq, Eq, Structural)]
pub enum MidiAction {
    PC(u8),
    CC(u8, u8),
}

/// The output channel of forwarded messages, counted from zero.
pub const OUTPUT_CHANNEL: u8 = 0;

/// `"<controller>:<value>"`, both 7-bit numbers.
pub open spec fn cc_action_of(s: Seq<char>) -> Option<MidiAction> {
    let k = first_index_of(s, ':');
    if k < s.len() {
        match (seven_bit_of(s.subrange(0, k)), seven_bit_of(s.subrange(k + 1, s.len() as int))) {
            (Some(c), Some(v)) => Some(MidiAction::CC(c, v)),
            _ => None,
        }
    } else {
        None
    }
}

/// An outgoing message written as `"PC <program>"` or `"CC <controller>:<value>"`.
pub open spec fn midi_action_of(s: Seq<char>) -> Option<MidiAction> {
    if s.len() >= 3 && s[2] == ' ' {
        let rest = s.subrange(3, s.len() as int);
        if s[0] == 'P' && s[1] == 'C' {
            match seven_bit_of(rest) {
                Some(p) => Some(MidiAction::PC(p)),
                None => None,
            }
        } else if s[0] == 'C' && s[1] == 'C' {
            cc_action_of(rest)
        } else {
            None
        }
    } else {
        None
    }
}

/// The bytes of a channel message on the given channel, as the message encoder
/// writes them: a control number is capped at 119 and a value at 127.
pub open spec fn channel_message_bytes(a: MidiAction, channel: u8) -> Seq<u8> {
    match a {
        MidiAction::PC(p) => seq![(0xC0 + channel) as u8, if p > 127 { 127u8 } else { p }],
        MidiAction::CC(c, v) => seq![
            (0xB0 + channel) as u8,
            if c > 119 { 119u8 } else { c },
            if v > 127 { 127u8 } else { v },
        ],
    }
}

/// Relies on midi-msg's `MidiMsg::to_midi` for `ChannelVoiceMsg::ProgramChange`: the status
/// 0xC0 plus the channel, then the program capped at 127.
#[verifier::external_body]
fn program_change_bytes(channel: u8, program: u8) -> (r: Vec<u8>)
    requires
        channel < 16,
    ensures
        r@ == channel_message_bytes(MidiAction::PC(program), channel),
{
    let msg = ChannelVoiceMsg::ProgramChange { program };
    MidiMsg::ChannelVoice { channel: Channel::from_u8(channel), msg }.to_midi()
}

/// Relies on midi-msg's `MidiMsg::to_midi` for `ControlChange::CC`: the status 0xB0 plus
/// the channel, the control number capped at 119, then the value capped at 127.
#[verifier::external_body]
fn control_change_bytes(channel: u8, control: u8, value: u8) -> (r: Vec<u8>)
    requires
        channel < 16,
    ensures
        r@ == channel_message_bytes(MidiAction::CC(control, value), channel),
{
    let msg = ChannelVoiceMsg::ControlChange { control: ControlChange::CC { control, value } };
    MidiMsg::ChannelVoice { channel: Channel::from_u8(channel), msg }.to_midi()
}

fn parse_pc_action(s: &Vec<char>) -> (r: Option<MidiAction>)
    requires
        s@.len() >= 3,
    ensures
        r == match seven_bit_of(s@.subrange(3, s@.len() as int)) {
            Some(p) => Some(MidiAction::PC(p)),
            None => None,
        },
{
    match parse_seven_bit(s, 3, s.len()) {
        Some(p) => Some(MidiAction::PC(p)),
        None => None,
    }
}

fn parse_cc_action(s: &Vec<char>) -> (r: Option<MidiAction>)
    requires
        s@.len() >= 3,
    ensures
        r == cc_action_of(s@.subrange(3, s@.len() as int)),
{
    let ghost rest = s@.subrange(3, s@.len() as int);
    let k = find_char(s, 3, ':');
    if k >= s.len() - 3 {
        return None;
    }
    let colon = 3 + k;
    assert(rest.subrange(0, k as int) =~= s@.subrange(3, colon as int));
    assert(rest.subrange(k + 1, rest.len() as int) =~= s@.subrange(colon + 1, s@.len() as int));
    let c = parse_seven_bit(s, 3, colon);
    let v = parse_seven_bit(s, colon + 1, s.len());
    match (c, v) {
        (Some(c), Some(v)) => Some(MidiAction::CC(c, v)),
        _ => None,
    }
}

impl MidiAction {
    /// Reads an outgoing message from its textual form.
    pub fn try_from(value: &str) -> (r: Result<MidiAction, ConfigError>)
        ensures
            r == match midi_action_of(value@) {
                Some(a) => Ok::<MidiAction, ConfigError>(a),
                None => Err(ConfigError::InvalidOutgoingMessage),
            },
    {
        let cs = chars_of(value);
        if cs.len() < 3 || cs[2] != ' ' {
            return Err(ConfigError::InvalidOutgoingMessage);
        }
        let parsed = if cs[0] == 'P' && cs[1] == 'C' {
            parse_pc_action(&cs)
        } else if cs[0] == 'C' && cs[1] == 'C' {
            parse_cc_action(&cs)
        } else {
            None
        };
        match parsed {
            Some(a) => Ok(a),
            None => Err(ConfigError::InvalidOutgoingMessage),
        }
    }

    /// The bytes of the message on the output channel.
    pub fn to_midi(&self) -> (r: Vec<u8>)
        ensures
            r@ == channel_message_bytes(*self, OUTPUT_CHANNEL),
    {
        match *self {
            MidiAction::PC(p) => program_change_bytes(OUTPUT_CHANNEL, p),
            MidiAction::CC(c, v) => control_change_bytes(OUTPUT_CHANNEL, c, v),
        }
    }
}

/// The code of the key with the given name, in the key-code table of the
/// virtual keyboard's input layer.
pub uninterp spec fn key_code_of(name: Seq<char>) -> Option<u16>;

/// Relies on evdev's `FromStr` for `KeyCode`: a lookup of the exact name in its fixed
/// table of key names; the code is the `u16` that the `KeyCode` wraps.
#[verifier::external_body]
fn parse_key_code(name: &str) -> (r: Option<u16>)
    ensures
        r == key_code_of(name@),
{
    match <evdev::KeyCode as std::str::FromStr>::from_str(name) {
        Ok(k) => Some(k.code()),
        Err(_) => None,
    }
}

/// Each name read by `f`, in order, or `None` when one of them cannot be read.
pub open spec fn parse_all<T>(ss: Seq<Seq<char>>, f: spec_fn(Seq<char>) -> Option<T>) -> Option<
    Seq<T>,
>
    decreases ss.len(),
{
    if ss.len() == 0 {
        Some(Seq::empty())
    } else {
        match parse_all(ss.drop_last(), f) {
            Some(xs) => match f(ss.last()) {
                Some(x) => Some(xs.push(x)),
                None => None,
            },
            None => None,
        }
    }
}

proof fn lemma_parse_all_prefix_fails<T>(
    ss: Seq<Seq<char>>,
    k: int,
    f: spec_fn(Seq<char>) -> Option<T>,
)
    requires
        0 <= k <= ss.len(),
        parse_all(ss.take(k), f) is None,
    ensures
        parse_all(ss, f) is None,
    decreases ss.len(),
{
    if k == ss.len() {
        assert(ss.take(k) =~= ss);
    } else {
        assert(ss.drop_last().take(k) =~= ss.take(k));
        lemma_parse_all_prefix_fails(ss.drop_last(), k, f);
    }
}

proof fn lemma_parse_all_step<T>(ss: Seq<Seq<char>>, i: int, f: spec_fn(Seq<char>) -> Option<T>)
    requires
        0 <= i < ss.len(),
    ensures
        parse_all(ss.take(i + 1), f) == match parse_all(ss.take(i), f) {
            Some(xs) => match f(ss[i]) {
                Some(x) => Some(xs.push(x)),
                None => None,
            },
            None => None,
        },
{
    assert(ss.take(i + 1).drop_last() =~= ss.take(i));
}

pub open spec fn key_reader() -> spec_fn(Seq<char>) -> Option<u16> {
    |s: Seq<char>| key_code_of(s)
}

pub open spec fn midi_action_reader() -> spec_fn(Seq<char>) -> Option<MidiAction> {
    |s: Seq<char>| midi_action_of(s)
}

pub open spec fn preset_reader() -> spec_fn(Seq<char>) -> Option<Preset> {
    |s: Seq<char>| preset_of(s)
}

/// The texts of an optional list of names; a missing list has none.
pub open spec fn names_of(o: Option<Vec<String>>) -> Seq<Seq<char>> {
    match o {
        Some(v) => v@.map_values(|s: String| s@),
        None => Seq::empty(),
    }
}

/// What an action holds, as mathematical values.
pub struct ActionView {
    pub desc: Seq<char>,
    pub keys: Seq<u16>,
    pub midi: Seq<MidiAction>,
    pub device_commands: Seq<Preset>,
}

/// What to do when an event fires: press and release keys, forward messages,
/// select presets on the amplifier. Any of the lists may be empty.
pub struct Action {
    pub desc: String,
    pub keys: Vec<u16>,
    pub midi: Vec<MidiAction>,
    pub device_commands: Vec<Preset>,
}

impl View for Action {
    type V = ActionView;

    open spec fn view(&self) -> ActionView {
        ActionView {
            desc: self.desc@,
            keys: self.keys@,
            midi: self.midi@,
            device_commands: self.device_commands@,
        }
    }
}

/// A mapping descriptor as configuration gives it.
pub struct MidiKeyMapping {
    pub event: String,
    pub description: String,
    pub keys: Option<Vec<String>>,
    pub midi: Option<Vec<String>>,
    pub device_commands: Option<Vec<String>>,
}

/// The action of a descriptor whose key names resolved to `keys` (`None` when
/// one of them is unknown): keys are checked first, then outgoing messages,
/// then device commands.
pub open spec fn action_from_keys(m: MidiKeyMapping, keys: Option<Seq<u16>>) -> Result<
    ActionView,
    ConfigError,
> {
    match keys {
        None => Err(ConfigError::InvalidKey),
        Some(keys) => match parse_all(names_of(m.midi), midi_action_reader()) {
            None => Err(ConfigError::InvalidOutgoingMessage),
            Some(midi) => match parse_all(
                names_of(m.device_commands),
                preset_reader(),
            ) {
                None => Err(ConfigError::InvalidDeviceCommand),
                Some(device_commands) => Ok(
                    ActionView { desc: m.description@, keys, midi, device_commands },
                ),
            },
        },
    }
}

/// The action that a descriptor describes.
pub open spec fn action_of(m: MidiKeyMapping) -> Result<ActionView, ConfigError> {
    action_from_keys(m, parse_all(names_of(m.keys), key_reader()))
}

pub open spec fn result_view(r: Result<Action, ConfigError>) -> Result<ActionView, ConfigError> {
    match r {
        Ok(a) => Ok(a@),
        Err(e) => Err(e),
    }
}

/// The key codes of the named keys, in order, or `None` when a name is unknown.
pub fn parse_keys(names: &Option<Vec<String>>) -> (r: Option<Vec<u16>>)
    ensures
        match r {
            Some(v) => parse_all(names_of(*names), key_reader()) == Some(v@),
            None => parse_all(names_of(*names), key_reader()) is None,
        },
{
    let ghost f = key_reader();
    let ghost ss = names_of(*names);
    let mut out: Vec<u16> = Vec::new();
    match names {
        None => {
            assert(ss =~= Seq::<Seq<char>>::empty());
        },
        Some(v) => {
            let mut i: usize = 0;
            while i < v.len()
                invariant
                    ss == v@.map_values(|s: String| s@),
                    ss == names_of(*names),
                    f == key_reader(),
                    i <= v@.len(),
                    parse_all(ss.take(i as int), f) == Some(out@),
                decreases v@.len() - i,
            {
                proof {
                    lemma_parse_all_step(ss, i as int, f);
                    assert(ss[i as int] == v@[i as int]@);
                }
                let code = parse_key_code(v[i].as_str());
                match code {
                    Some(k) => out.push(k),
                    None => {
                        proof {
                            lemma_parse_all_prefix_fails(ss, i + 1, f);
                        }
                        return None;
                    },
                }
                i += 1;
            }
            assert(ss.take(i as int) =~= ss);
        },
    }
    Some(out)
}

fn parse_midi_actions(names: &Option<Vec<String>>) -> (r: Option<Vec<MidiAction>>)
    ensures
        match r {
            Some(v) => parse_all(names_of(*names), midi_action_reader()) == Some(
                v@,
            ),
            None => parse_all(names_of(*names), midi_action_reader()) is None,
        },
{
    let ghost f = midi_action_reader();
    let ghost ss = names_of(*names);
    let mut out: Vec<MidiAction> = Vec::new();
    match names {
        None => {
            assert(ss =~= Seq::<Seq<char>>::empty());
        },
        Some(v) => {
            let mut i: usize = 0;
            while i < v.len()
                invariant
                    ss == v@.map_values(|s: String| s@),
                    ss == names_of(*names),
                    f == midi_action_reader(),
                    i <= v@.len(),
                    parse_all(ss.take(i as int), f) == Some(out@),
                decreases v@.len() - i,
            {
                proof {
                    lemma_parse_all_step(ss, i as int, f);
                    assert(ss[i as int] == v@[i as int]@);
                }
                match MidiAction::try_from(v[i].as_str()) {
                    Ok(a) => out.push(a),
                    Err(_) => {
                        proof {
                            lemma_parse_all_prefix_fails(ss, i + 1, f);
                        }
                        return None;
                    },
                }
                i += 1;
            }
            assert(ss.take(i as int) =~= ss);
        },
    }
    Some(out)
}

fn parse_presets(names: &Option<Vec<String>>) -> (r: Option<Vec<Preset>>)
    ensures
        match r {
            Some(v) => parse_all(names_of(*names), preset_reader()) == Some(v@),
            None => parse_all(names_of(*names), preset_reader()) is None,
        },
{
    let ghost f = preset_reader();
    let ghost ss = names_of(*names);
    let mut out: Vec<Preset> = Vec::new();
    match names {
        None => {
            assert(ss =~= Seq::<Seq<char>>::empty());
        },
        Some(v) => {
            let mut i: usize = 0;
            while i < v.len()
                invariant
                    ss == v@.map_values(|s: String| s@),
                    ss == names_of(*names),
                    f == preset_reader(),
                    i <= v@.len(),
                    parse_all(ss.take(i as int), f) == Some(out@),
                decreases v@.len() - i,
            {
                proof {
                    lemma_parse_all_step(ss, i as int, f);
                    assert(ss[i as int] == v@[i as int]@);
                }
                match Preset::try_from(v[i].as_str()) {
                    Ok(p) => out.push(p),
                    Err(_) => {
                        proof {
                            lemma_parse_all_prefix_fails(ss, i + 1, f);
                        }
                        return None;
                    },
                }
                i += 1;
            }
            assert(ss.take(i as int) =~= ss);
        },
    }
    Some(out)
}

impl Action {
    /// The action of `value`, given the codes its key names resolved to
    /// (`None` when one of them is unknown).
    pub fn from_key_codes(value: &MidiKeyMapping, keys: Option<Vec<u16>>) -> (r: Result<
        Action,
        ConfigError,
    >)
        ensures
            result_view(r) == action_from_keys(
                *value,
                match keys {
                    Some(k) => Some(k@),
                    None => None,
                },
            ),
    {
        let keys = match keys {
            Some(k) => k,
            None => {
                return Err(ConfigError::InvalidKey);
            },
        };
        let midi = match parse_midi_actions(&value.midi) {
            Some(m) => m,
            None => {
                return Err(ConfigError::InvalidOutgoingMessage);
            },
        };
        let device_commands = match parse_presets(&value.device_commands) {
            Some(d) => d,
            None => {
                return Err(ConfigError::InvalidDeviceCommand);
            },
        };
        let desc = value.description.clone();
        Ok(Action { desc, keys, midi, device_commands })
    }

    /// The action that a mapping descriptor describes.
    pub fn try_from(value: &MidiKeyMapping) -> (r: Result<Action, ConfigError>)
        ensures
            result_view(r) == action_of(*value),
    {
        let keys = parse_keys(&value.keys);
        Action::from_key_codes(value, keys)
    }
}

} // verus!
