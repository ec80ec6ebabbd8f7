//! Dispatch: from an inbound frame, through the mapping table, to the work of
//! the three legs (keys, forwarded messages, device commands) in that order.

use vstd::prelude::*;
use crate::action::{channel_message_bytes, Action, ActionView, MidiAction, OUTPUT_CHANNEL};
use crate::error::DispatchError;
use crate::event::{event_key, Event};
use crate::katana::Preset;
use crate::midi::{event_of_frame, live_frame_of, parse_live_frame, LiveFrame};
use crate::table::MappingTable;

verus! {

/// One signal of the virtual keyboard.
#[derive(Debug, Clone, Copy, PartialEq, Eq, Structural)]
pub enum KeyStroke {
    Press(u16),
    Release(u16),
}

/// Presses in the listed order, then releases in the exact reverse order.
pub open spec fn key_strokes_of(keys: Seq<u16>) -> Seq<KeyStroke> {
    Seq::new(keys.len(), |i: int| KeyStroke::Press(keys[i])) + Seq::new(
        keys.len(),
        |i: int| KeyStroke::Release(keys[keys.len() - 1 - i]),
    )
}

/// The batch of key signals for a key list, submitted as one flush.
pub fn emit_keyboard_events(keys: &[u16]) -> (r: Vec<KeyStroke>)
    ensures
        r@ == key_strokes_of(keys@),
{
    let mut evts: Vec<KeyStroke> = Vec::new();
    let n = keys.len();
    let mut i: usize = 0;
    while i < n
        invariant
            n == keys@.len(),
            i <= n,
            evts@ == Seq::new(i as nat, |j: int| KeyStroke::Press(keys@[j])),
        decreases n - i,
    {
        evts.push(KeyStroke::Press(keys[i]));
        i += 1;
        assert(evts@ =~= Seq::new(i as nat, |j: int| KeyStroke::Press(keys@[j])));
    }
    let ghost presses = evts@;
    let mut j: usize = 0;
    while j < n
        invariant
            n == keys@.len(),
            j <= n,
            presses == Seq::new(n as nat, |k: int| KeyStroke::Press(keys@[k])),
            evts@ == presses + Seq::new(j as nat, |k: int| KeyStroke::Release(keys@[n - 1 - k])),
        decreases n - j,
    {
        evts.push(KeyStroke::Release(keys[n - 1 - j]));
        j += 1;
        assert(evts@ =~= presses + Seq::new(j as nat, |k: int| KeyStroke::Release(keys@[n - 1 - k])));
    }
    evts
}

/// The contents of each byte vector.
pub open spec fn byte_views(vs: Seq<Vec<u8>>) -> Seq<Seq<u8>> {
    vs.map_values(|v: Vec<u8>| v@)
}

/// The bytes of each forwarded message, in order.
pub open spec fn outgoing_bytes_of(acts: Seq<MidiAction>) -> Seq<Seq<u8>> {
    acts.map_values(|a: MidiAction| channel_message_bytes(a, OUTPUT_CHANNEL))
}

/// The bytes of each forwarded message, in order.
pub fn emit_midi_events(acts: &[MidiAction]) -> (r: Vec<Vec<u8>>)
    ensures
        byte_views(r@) == outgoing_bytes_of(acts@),
{
    let mut out: Vec<Vec<u8>> = Vec::new();
    let mut i: usize = 0;
    while i < acts.len()
        invariant
            i <= acts@.len(),
            byte_views(out@) == outgoing_bytes_of(acts@.take(i as int)),
        decreases acts@.len() - i,
    {
        let ghost before = out@;
        let bytes = acts[i].to_midi();
        let ghost b = bytes@;
        out.push(bytes);
        assert(byte_views(out@) =~= byte_views(before).push(b));
        assert(acts@.take(i + 1) =~= acts@.take(i as int).push(acts@[i as int]));
        assert(outgoing_bytes_of(acts@.take(i + 1)) =~= outgoing_bytes_of(acts@.take(i as int)).push(b));
        i += 1;
    }
    assert(acts@.take(acts@.len() as int) =~= acts@);
    out
}

/// Why a dispatch did nothing, or that it did its work.
#[derive(Debug, Clone, Copy, PartialEq, Eq, Structural)]
pub enum Notice {
    /// The action was run.
    Dispatched,
    /// A system message, which no mapping concerns.
    IgnoredFrame,
    /// A channel message of a kind that no mapping concerns.
    UnsupportedMessage,
    /// An event with no mapping.
    Unmapped,
}

/// The work of one dispatch, leg by leg, with the advisory signals it raised.
pub struct Plan {
    pub notice: Notice,
    pub keys: Vec<KeyStroke>,
    pub outgoing: Vec<Vec<u8>>,
    pub device_commands: Vec<Preset>,
    /// Messages were to be forwarded but no output is configured.
    pub output_missing: bool,
    /// Device commands were to be run but no device is connected.
    pub device_missing: bool,
}

pub struct PlanView {
    pub notice: Notice,
    pub keys: Seq<KeyStroke>,
    pub outgoing: Seq<Seq<u8>>,
    pub device_commands: Seq<Preset>,
    pub output_missing: bool,
    pub device_missing: bool,
}

impl View for Plan {
    type V = PlanView;

    open spec fn view(&self) -> PlanView {
        PlanView {
            notice: self.notice,
            keys: self.keys@,
            outgoing: byte_views(self.outgoing@),
            device_commands: self.device_commands@,
            output_missing: self.output_missing,
            device_missing: self.device_missing,
        }
    }
}

/// A dispatch with no side effect.
pub open spec fn idle_plan(notice: Notice) -> PlanView {
    PlanView {
        notice,
        keys: Seq::empty(),
        outgoing: Seq::empty(),
        device_commands: Seq::empty(),
        output_missing: false,
        device_missing: false,
    }
}

/// The work of an action, given which sinks exist.
pub open spec fn action_plan(a: ActionView, has_output: bool, has_device: bool) -> PlanView {
    PlanView {
        notice: Notice::Dispatched,
        keys: key_strokes_of(a.keys),
        outgoing: if has_output {
            outgoing_bytes_of(a.midi)
        } else {
            Seq::empty()
        },
        device_commands: if has_device {
            a.device_commands
        } else {
            Seq::empty()
        },
        output_missing: !has_output && a.midi.len() > 0,
        device_missing: !has_device && a.device_commands.len() > 0,
    }
}

/// The work of a dispatch on `event` against a table.
pub open spec fn event_plan(
    table: Map<u16, ActionView>,
    has_output: bool,
    has_device: bool,
    event: Event,
) -> PlanView {
    if table.contains_key(event_key(event)) {
        action_plan(table[event_key(event)], has_output, has_device)
    } else {
        idle_plan(Notice::Unmapped)
    }
}

/// The work of a dispatch on a parsed frame against a table.
pub open spec fn frame_plan(
    table: Map<u16, ActionView>,
    has_output: bool,
    has_device: bool,
    f: LiveFrame,
) -> Result<PlanView, DispatchError> {
    match event_of_frame(f) {
        Err(e) => Err(DispatchError::Protocol(e)),
        Ok(None) => Ok(
            idle_plan(
                if f == LiveFrame::System {
                    Notice::IgnoredFrame
                } else {
                    Notice::UnsupportedMessage
                },
            ),
        ),
        Ok(Some(e)) => Ok(event_plan(table, has_output, has_device, e)),
    }
}

/// A frame that carries an event with no mapping is dispatched successfully
/// and does nothing: no key, no forwarded message, no device command.
pub proof fn lemma_unmapped_frame_is_idle(
    table: Map<u16, ActionView>,
    has_output: bool,
    has_device: bool,
    f: LiveFrame,
    e: Event,
)
    requires
        event_of_frame(f) == Ok::<Option<Event>, crate::error::ProtocolError>(Some(e)),
        !table.contains_key(event_key(e)),
    ensures
        frame_plan(table, has_output, has_device, f) == Ok::<PlanView, DispatchError>(
            idle_plan(Notice::Unmapped),
        ),
        idle_plan(Notice::Unmapped).keys.len() == 0,
        idle_plan(Notice::Unmapped).outgoing.len() == 0,
        idle_plan(Notice::Unmapped).device_commands.len() == 0,
{
}

pub open spec fn plan_result_view(r: Result<Plan, DispatchError>) -> Result<PlanView, DispatchError> {
    match r {
        Ok(p) => Ok(p@),
        Err(e) => Err(e),
    }
}

/// The dispatcher: the mapping table and which of the optional sinks exist.
pub struct Handler {
    pub mappings: MappingTable,
    pub has_output: bool,
    pub has_device: bool,
}

impl Handler {
    fn idle(notice: Notice) -> (r: Plan)
        ensures
            r@ == idle_plan(notice),
    {
        let r = Plan {
            notice,
            keys: Vec::new(),
            outgoing: Vec::new(),
            device_commands: Vec::new(),
            output_missing: false,
            device_missing: false,
        };
        assert(r@.outgoing =~= Seq::<Seq<u8>>::empty());
        r
    }

    /// The work of a dispatch on `event`; an event with no mapping has none.
    pub fn dispatch_event(&self, event: &Event) -> (r: Plan)
        ensures
            r@ == event_plan(self.mappings@, self.has_output, self.has_device, *event),
            !self.mappings@.contains_key(event_key(*event)) ==> r@ == idle_plan(Notice::Unmapped),
    {
        let act: &Action = match self.mappings.get(event) {
            Some(a) => a,
            None => {
                return Handler::idle(Notice::Unmapped);
            },
        };
        let keys = emit_keyboard_events(act.keys.as_slice());
        let outgoing = if self.has_output {
            emit_midi_events(act.midi.as_slice())
        } else {
            Vec::new()
        };
        let device_commands = if self.has_device {
            act.device_commands.clone()
        } else {
            Vec::new()
        };
        let r = Plan {
            notice: Notice::Dispatched,
            keys,
            outgoing,
            device_commands,
            output_missing: !self.has_output && act.midi.len() > 0,
            device_missing: !self.has_device && act.device_commands.len() > 0,
        };
        proof {
            if !self.has_output {
                assert(r@.outgoing =~= Seq::<Seq<u8>>::empty());
            }
            assert(r@.device_commands =~= action_plan(act@, self.has_output, self.has_device).device_commands);
        }
        r
    }

    /// The work of a dispatch on a parsed frame.
    pub fn dispatch_frame(&self, f: LiveFrame) -> (r: Result<Plan, DispatchError>)
        ensures
            plan_result_view(r) == frame_plan(self.mappings@, self.has_output, self.has_device, f),
    {
        match f {
            LiveFrame::Malformed => Err(
                DispatchError::Protocol(crate::error::ProtocolError::Malformed),
            ),
            LiveFrame::System => Ok(Handler::idle(Notice::IgnoredFrame)),
            LiveFrame::OtherChannel => Ok(Handler::idle(Notice::UnsupportedMessage)),
            LiveFrame::ProgramChange(p) => Ok(self.dispatch_event(&Event::PC(p))),
            LiveFrame::Controller(c, _) => Ok(self.dispatch_event(&Event::CC(c))),
        }
    }

    /// The work of a dispatch on a raw inbound frame.
    pub fn dispatch(&self, frame: &[u8]) -> (r: Result<Plan, DispatchError>)
        ensures
            plan_result_view(r) == frame_plan(
                self.mappings@,
                self.has_output,
                self.has_device,
                live_frame_of(frame@),
            ),
    {
        self.dispatch_frame(parse_live_frame(frame))
    }
}

} // verus!
