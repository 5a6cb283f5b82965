use vstd::prelude::*;

verus! {

/// The event space of the CLAP core events.
pub const CORE_EVENT_SPACE_ID: u16 = 0;

pub const EVENT_NOTE_ON: u16 = 0;

pub const EVENT_NOTE_OFF: u16 = 1;

pub const EVENT_PARAM_VALUE: u16 = 5;

pub const EVENT_PARAM_MOD: u16 = 6;

/// The fields of an incoming CLAP event that decide what it becomes.
#[derive(Clone, Copy, Debug, PartialEq, Eq, Structural)]
pub struct ClapEventHeader {
    pub space_id: u16,
    pub event_type: u16,
    /// Sample offset within the block.
    pub time: u32,
    /// The parameter of a parameter event.
    pub param_id: u32,
}

/// What an incoming CLAP event becomes.
#[derive(Clone, Copy, Debug, PartialEq, Eq, Structural)]
pub enum ClapEventKind {
    NoteOn,
    NoteOff,
    ParameterValue { sample_offset: usize, id: u32 },
    ParameterModulation { sample_offset: usize, id: u32 },
}

/// Core note and parameter events are taken; all others are passed over.
pub open spec fn is_handled(header: ClapEventHeader) -> bool {
    header.space_id == CORE_EVENT_SPACE_ID && (header.event_type == EVENT_NOTE_ON
        || header.event_type == EVENT_NOTE_OFF || header.event_type == EVENT_PARAM_VALUE
        || header.event_type == EVENT_PARAM_MOD)
}

pub open spec fn is_parameter_header(header: ClapEventHeader) -> bool {
    header.event_type == EVENT_PARAM_VALUE || header.event_type == EVENT_PARAM_MOD
}

pub open spec fn kind_of(header: ClapEventHeader) -> ClapEventKind {
    if header.event_type == EVENT_NOTE_ON {
        ClapEventKind::NoteOn
    } else if header.event_type == EVENT_NOTE_OFF {
        ClapEventKind::NoteOff
    } else if header.event_type == EVENT_PARAM_VALUE {
        ClapEventKind::ParameterValue { sample_offset: header.time as usize, id: header.param_id }
    } else {
        ClapEventKind::ParameterModulation { sample_offset: header.time as usize, id: header.param_id }
    }
}

/// The first handled event at or after `from`.
pub open spec fn first_handled(headers: Seq<ClapEventHeader>, from: int) -> Option<int>
    decreases headers.len() - from,
{
    if from < 0 || from >= headers.len() {
        None
    } else if is_handled(headers[from]) {
        Some(from)
    } else {
        first_handled(headers, from + 1)
    }
}

/// Reads the host's input events of a block in order.
pub struct EventIterator {
    parameter_ids: Vec<u32>,
    events: Vec<ClapEventHeader>,
    index: u32,
}

impl EventIterator {
    pub closed spec fn parameter_ids(&self) -> Seq<u32> {
        self.parameter_ids@
    }

    pub closed spec fn events(&self) -> Seq<ClapEventHeader> {
        self.events@
    }

    /// How many events have been read.
    pub closed spec fn index(&self) -> int {
        self.index as int
    }

    /// `parameter_ids` are the plugin's parameters; events for others end the iteration.
    pub fn new(parameter_ids: Vec<u32>, events: Vec<ClapEventHeader>) -> (it: Self)
        requires
            events@.len() <= u32::MAX,
        ensures
            it.parameter_ids() == parameter_ids@,
            it.events() == events@,
            it.index() == 0,
    {
        EventIterator { parameter_ids, events, index: 0 }
    }

    fn knows_parameter(&self, id: u32) -> (known: bool)
        ensures
            known == self.parameter_ids().contains(id),
    {
        let mut i: usize = 0;
        while i < self.parameter_ids.len()
            invariant
                0 <= i <= self.parameter_ids@.len(),
                forall|j: int| 0 <= j < i ==> self.parameter_ids@[j] != id,
            decreases self.parameter_ids@.len() - i,
        {
            if self.parameter_ids[i] == id {
                return true;
            }
            i = i + 1;
        }
        false
    }

    /// The event index and kind of the next note or parameter event. A parameter event for
    /// a parameter the plugin does not have yields `None`, after which reading goes on
    /// behind it.
    pub fn next(&mut self) -> (item: Option<(u32, ClapEventKind)>)
        requires
            old(self).events().len() <= u32::MAX,
            old(self).index() <= old(self).events().len(),
        ensures
            final(self).parameter_ids() == old(self).parameter_ids(),
            final(self).events() == old(self).events(),
            final(self).index() <= final(self).events().len(),
            match first_handled(old(self).events(), old(self).index()) {
                Some(j) => {
                    &&& final(self).index() == j + 1
                    &&& if is_parameter_header(old(self).events()[j])
                        && !old(self).parameter_ids().contains(old(self).events()[j].param_id) {
                        item is None
                    } else {
                        item == Some((j as u32, kind_of(old(self).events()[j])))
                    }
                },
                None => item is None && final(self).index() == old(self).events().len(),
            },
    {
        let events_size = self.events.len() as u32;
        loop
            invariant
                self.parameter_ids() == old(self).parameter_ids(),
                self.events() == old(self).events(),
                events_size == self.events().len(),
                events_size <= u32::MAX,
                old(self).index() <= self.index() <= self.events().len(),
                first_handled(self.events(), self.index()) == first_handled(
                    old(self).events(),
                    old(self).index(),
                ),
            decreases self.events().len() - self.index(),
        {
            if self.index >= events_size {
                return None;
            }
            let j = self.index;
            let header = self.events[j as usize];
            self.index = j + 1;
            if header.space_id != CORE_EVENT_SPACE_ID {
                continue;
            }
            if header.event_type == EVENT_NOTE_ON {
                return Some((j, ClapEventKind::NoteOn));
            } else if header.event_type == EVENT_NOTE_OFF {
                return Some((j, ClapEventKind::NoteOff));
            } else if header.event_type == EVENT_PARAM_VALUE {
                if !self.knows_parameter(header.param_id) {
                    return None;
                }
                return Some(
                    (
                        j,
                        ClapEventKind::ParameterValue {
                            sample_offset: header.time as usize,
                            id: header.param_id,
                        },
                    ),
                );
            } else if header.event_type == EVENT_PARAM_MOD {
                if !self.knows_parameter(header.param_id) {
                    return None;
                }
                return Some(
                    (
                        j,
                        ClapEventKind::ParameterModulation {
                            sample_offset: header.time as usize,
                            id: header.param_id,
                        },
                    ),
                );
            }
        }
    }
}

} // verus!
