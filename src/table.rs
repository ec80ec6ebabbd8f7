//! The mapping table from events to actions, and its construction from
//! configuration.

use vstd::prelude::*;
use std::collections::HashMap;
use crate::action::{action_of, Action, ActionView, MidiKeyMapping};
use crate::error::ConfigError;
use crate::event::{event_key, event_of, Event};

verus! {

broadcast use vstd::std_specs::hash::group_hash_axioms;

/// The configuration that the mapping table is built from.
pub struct Config {
    pub midi_input: String,
    pub midi_output: Option<String>,
    /// The output port of the amplifier's control channel, if one is used.
    pub device_output: Option<String>,
    pub mappings: Vec<MidiKeyMapping>,
}

/// The table that descriptors describe, read in order: the first invalid one
/// fails the whole table; a later descriptor for an event replaces an earlier one.
pub open spec fn table_of(ms: Seq<MidiKeyMapping>) -> Result<Map<u16, ActionView>, ConfigError>
    decreases ms.len(),
{
    if ms.len() == 0 {
        Ok(Map::empty())
    } else {
        match table_of(ms.drop_last()) {
            Err(e) => Err(e),
            Ok(t) => match event_of(ms.last().event@) {
                None => Err(ConfigError::InvalidEvent),
                Some(e) => match action_of(ms.last()) {
                    Err(x) => Err(x),
                    Ok(a) => Ok(t.insert(event_key(e), a)),
                },
            },
        }
    }
}

proof fn lemma_table_prefix_fails(ms: Seq<MidiKeyMapping>, k: int, x: ConfigError)
    requires
        0 <= k <= ms.len(),
        table_of(ms.take(k)) == Err::<Map<u16, ActionView>, ConfigError>(x),
    ensures
        table_of(ms) == Err::<Map<u16, ActionView>, ConfigError>(x),
    decreases ms.len(),
{
    if k == ms.len() {
        assert(ms.take(k) =~= ms);
    } else {
        assert(ms.drop_last().take(k) =~= ms.take(k));
        lemma_table_prefix_fails(ms.drop_last(), k, x);
    }
}

/// Associates events with actions, each event with at most one action.
pub struct MappingTable {
    map: HashMap<u16, Action>,
}

impl View for MappingTable {
    type V = Map<u16, ActionView>;

    closed spec fn view(&self) -> Map<u16, ActionView> {
        self.map@.map_values(|a: Action| a@)
    }
}

impl MappingTable {
    pub fn new() -> (r: MappingTable)
        ensures
            r@ == Map::<u16, ActionView>::empty(),
    {
        let r = MappingTable { map: HashMap::new() };
        assert(r@ =~= Map::<u16, ActionView>::empty());
        r
    }

    /// Associates `event` with `action`, replacing what it was associated with.
    pub fn insert(&mut self, event: Event, action: Action)
        ensures
            final(self)@ == old(self)@.insert(event_key(event), action@),
    {
        let ghost a = action@;
        self.map.insert(event.key(), action);
        assert(self@ =~= old(self)@.insert(event_key(event), a));
    }

    /// The action associated with `event`, if any.
    pub fn get(&self, event: &Event) -> (r: Option<&Action>)
        ensures
            match r {
                Some(a) => self@.contains_key(event_key(*event)) && a@ == self@[event_key(*event)],
                None => !self@.contains_key(event_key(*event)),
            },
    {
        let k = event.key();
        self.map.get(&k)
    }
}

/// Builds the mapping table from the configuration's descriptors.
pub fn get_mappings(config: &Config) -> (r: Result<MappingTable, ConfigError>)
    ensures
        match r {
            Ok(t) => table_of(config.mappings@) == Ok::<Map<u16, ActionView>, ConfigError>(t@),
            Err(x) => table_of(config.mappings@) == Err::<Map<u16, ActionView>, ConfigError>(x),
        },
{
    let ghost ms = config.mappings@;
    let mut mappings = MappingTable::new();
    let mut i: usize = 0;
    assert(ms.take(0) =~= Seq::<MidiKeyMapping>::empty());
    while i < config.mappings.len()
        invariant
            ms == config.mappings@,
            i <= ms.len(),
            table_of(ms.take(i as int)) == Ok::<Map<u16, ActionView>, ConfigError>(mappings@),
        decreases ms.len() - i,
    {
        let m = &config.mappings[i];
        proof {
            assert(ms.take(i + 1).drop_last() =~= ms.take(i as int));
            assert(ms.take(i + 1).last() == ms[i as int]);
        }
        let event = match Event::try_from(m.event.as_str()) {
            Ok(e) => e,
            Err(x) => {
                proof {
                    lemma_table_prefix_fails(ms, i + 1, x);
                }
                return Err(x);
            },
        };
        let action = match Action::try_from(m) {
            Ok(a) => a,
            Err(x) => {
                proof {
                    lemma_table_prefix_fails(ms, i + 1, x);
                }
                return Err(x);
            },
        };
        mappings.insert(event, action);
        i += 1;
    }
    assert(ms.take(ms.len() as int) =~= ms);
    Ok(mappings)
}

/// When two descriptors name the same event, the table they build holds that
/// event alone, with the second descriptor's action: the first is unreachable.
pub proof fn lemma_last_mapping_wins(first: MidiKeyMapping, second: MidiKeyMapping)
    requires
        event_of(first.event@) is Some,
        event_of(first.event@) == event_of(second.event@),
        action_of(first) is Ok,
        action_of(second) is Ok,
    ensures
        table_of(seq![first, second]) == Ok::<Map<u16, ActionView>, ConfigError>(
            Map::empty().insert(
                event_key(event_of(second.event@)->Some_0),
                action_of(second)->Ok_0,
            ),
        ),
{
    let ms = seq![first, second];
    let k = event_key(event_of(second.event@)->Some_0);
    assert(ms.drop_last() =~= seq![first]);
    assert(seq![first].drop_last() =~= Seq::<MidiKeyMapping>::empty());
    assert(seq![first].last() == first);
    assert(ms.last() == second);
    assert(table_of(Seq::<MidiKeyMapping>::empty()) == Ok::<Map<u16, ActionView>, ConfigError>(
        Map::empty(),
    ));
    assert(table_of(seq![first]) == Ok::<Map<u16, ActionView>, ConfigError>(
        Map::empty().insert(k, action_of(first)->Ok_0),
    ));
    assert(Map::<u16, ActionView>::empty().insert(k, action_of(first)->Ok_0).insert(
        k,
        action_of(second)->Ok_0,
    ) =~= Map::empty().insert(k, action_of(second)->Ok_0));
}

} // verus!
