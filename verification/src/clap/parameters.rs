use vstd::prelude::*;

use crate::event::{Event, is_parameter_event, offset_of};
use crate::parameters::sorted_ids;

verus! {

/// The changes to one parameter that the editor has made and that are not yet reported:
/// a new value, a new modulation amount, and the start and end of a gesture.
#[derive(Clone, Copy, Debug)]
pub struct ParameterEventInfo<V> {
    pub value: Option<V>,
    pub modulation: Option<V>,
    pub change_started: bool,
    pub change_ended: bool,
}

/// Nothing is pending.
pub open spec fn is_cleared<V>(info: ParameterEventInfo<V>) -> bool {
    &&& info.value is None
    &&& info.modulation is None
    &&& !info.change_started
    &&& !info.change_ended
}

/// A value or a modulation amount is pending, each of which makes an event.
pub open spec fn has_event<V>(info: ParameterEventInfo<V>) -> bool {
    info.value is Some || info.modulation is Some
}

/// What is reported to the host about a parameter.
#[derive(Clone, Copy, Debug)]
pub enum HostMessage<V> {
    GestureBegin { id: u32 },
    Value { id: u32, value: V },
    GestureEnd { id: u32 },
}

/// The messages to the host for one parameter's pending changes: the gesture start, the
/// value, the gesture end, each if pending; nothing when there is no host queue to send to.
pub open spec fn gesture_messages<V>(
    id: u32,
    started: bool,
    value: Option<V>,
    ended: bool,
    send: bool,
) -> Seq<HostMessage<V>> {
    if !send {
        Seq::empty()
    } else {
        (if started {
            seq![HostMessage::GestureBegin { id }]
        } else {
            Seq::empty()
        }) + (match value {
            Some(v) => seq![HostMessage::Value { id, value: v }],
            None => Seq::empty(),
        }) + (if ended {
            seq![HostMessage::GestureEnd { id }]
        } else {
            Seq::empty()
        })
    }
}

/// The messages for the entries `from..to`, in order.
pub open spec fn messages_between<V>(
    entries: Seq<(u32, ParameterEventInfo<V>)>,
    from: int,
    to: int,
    send: bool,
) -> Seq<HostMessage<V>>
    decreases to - from,
{
    if to <= from {
        Seq::empty()
    } else {
        messages_between(entries, from, to - 1, send) + gesture_messages(
            entries[to - 1].0,
            entries[to - 1].1.change_started,
            entries[to - 1].1.value,
            entries[to - 1].1.change_ended,
            send,
        )
    }
}

/// The first entry at or after `from` with a value or modulation pending.
pub open spec fn first_with_event<V>(entries: Seq<(u32, ParameterEventInfo<V>)>, from: int) -> Option<
    int,
>
    decreases entries.len() - from,
{
    if from < 0 || from >= entries.len() {
        None
    } else if has_event(entries[from].1) {
        Some(from)
    } else {
        first_with_event(entries, from + 1)
    }
}

/// The event a parameter's pending changes make: its value, else its modulation.
pub open spec fn event_for<V>(id: u32, value: Option<V>, modulation: Option<V>) -> Option<Event<V>> {
    match value {
        Some(v) => Some(Event::ParameterValue { sample_offset: 0, id, value: v }),
        None => match modulation {
            Some(m) => Some(Event::ParameterModulation { sample_offset: 0, id, amount: m }),
            None => None,
        },
    }
}

pub open spec fn cleared_info<V>() -> ParameterEventInfo<V> {
    ParameterEventInfo { value: None, modulation: None, change_started: false, change_ended: false }
}

/// The changes the editor makes to each parameter, kept by parameter id until they are
/// reported to the processor and the host.
pub struct ParameterEventMap<V> {
    parameter_event_info: Vec<(u32, ParameterEventInfo<V>)>,
}

/// Ids strictly increasing: each parameter once, in id order.
pub open spec fn ids_increasing<V>(entries: Seq<(u32, ParameterEventInfo<V>)>) -> bool {
    forall|i: int, j: int| 0 <= i < j < entries.len() ==> entries[i].0 < entries[j].0
}

pub open spec fn entries_have_id<V>(entries: Seq<(u32, ParameterEventInfo<V>)>, id: u32) -> bool {
    exists|k: int| 0 <= k < entries.len() && #[trigger] entries[k].0 == id
}

impl<V: Copy> ParameterEventMap<V> {
    /// The parameters with their pending changes, in id order.
    pub closed spec fn entries(&self) -> Seq<(u32, ParameterEventInfo<V>)> {
        self.parameter_event_info@
    }

    pub open spec fn wf(&self) -> bool {
        ids_increasing(self.entries())
    }

    pub open spec fn has_id(&self, id: u32) -> bool {
        entries_have_id(self.entries(), id)
    }

    /// A map over the given parameter ids (each taken once), with nothing pending.
    pub fn new(ids: &[u32]) -> (map: Self)
        ensures
            map.wf(),
            forall|id: u32| map.has_id(id) <==> ids@.contains(id),
            forall|k: int| 0 <= k < map.entries().len() ==> is_cleared(#[trigger] map.entries()[k].1),
    {
        let sorted = sorted_ids(ids);
        let mut entries: Vec<(u32, ParameterEventInfo<V>)> = Vec::new();
        let mut i: usize = 0;
        while i < sorted.len()
            invariant
                0 <= i <= sorted@.len(),
                entries@.len() == i,
                forall|k: int| 0 <= k < i ==> (#[trigger] entries@[k]).0 == sorted@[k] && is_cleared(entries@[k].1),
            decreases sorted@.len() - i,
        {
            let info = ParameterEventInfo {
                value: None,
                modulation: None,
                change_started: false,
                change_ended: false,
            };
            entries.push((sorted[i], info));
            i = i + 1;
        }
        proof {
            assert forall|a: int, b: int| 0 <= a < b < entries@.len() implies entries@[a].0 < entries@[b].0 by {
                assert(entries@[a].0 == sorted@[a]);
                assert(entries@[b].0 == sorted@[b]);
            }
            assert forall|id: u32| entries_have_id(entries@, id) <==> ids@.contains(id) by {
                if entries_have_id(entries@, id) {
                    let k = choose|k: int| 0 <= k < entries@.len() && #[trigger] entries@[k].0 == id;
                    assert(sorted@[k] == id);
                }
                if sorted@.contains(id) {
                    let k = choose|k: int| 0 <= k < sorted@.len() && #[trigger] sorted@[k] == id;
                    assert(entries@[k].0 == id);
                }
            }
        }
        ParameterEventMap { parameter_event_info: entries }
    }
}

impl<V: Copy> ParameterEventMap<V> {
    /// Where a parameter's entry stands.
    fn position_of(&self, id: u32) -> (k: usize)
        requires
            self.has_id(id),
        ensures
            0 <= k < self.entries().len(),
            self.entries()[k as int].0 == id,
    {
        let mut k: usize = 0;
        while k < self.parameter_event_info.len()
            invariant
                0 <= k <= self.entries().len(),
                forall|j: int| 0 <= j < k ==> #[trigger] self.entries()[j].0 != id,
                self.has_id(id),
            decreases self.entries().len() - k,
        {
            if self.parameter_event_info[k].0 == id {
                return k;
            }
            k = k + 1;
        }
        proof {
            let j = choose|j: int| 0 <= j < self.entries().len() && #[trigger] self.entries()[j].0 == id;
            assert(self.entries()[j].0 != id);
        }
        0
    }

    /// The pending changes of a parameter of the map.
    pub fn parameter_event_info(&self, id: u32) -> (info: &ParameterEventInfo<V>)
        requires
            self.has_id(id),
        ensures
            exists|k: int|
                0 <= k < self.entries().len() && #[trigger] self.entries()[k].0 == id && *info
                    == self.entries()[k].1,
    {
        let k = self.position_of(id);
        &self.parameter_event_info[k].1
    }

    /// Replaces the pending changes of the entry at `k`.
    fn set_info(&mut self, k: usize, info: ParameterEventInfo<V>)
        requires
            0 <= k < old(self).entries().len(),
        ensures
            final(self).entries() == old(self).entries().update(
                k as int,
                (old(self).entries()[k as int].0, info),
            ),
    {
        let id = self.parameter_event_info[k].0;
        self.parameter_event_info.set(k, (id, info));
    }

    /// The editor starts a gesture on a parameter.
    pub fn start_parameter_change(&mut self, id: u32)
        requires
            old(self).has_id(id),
        ensures
            exists|k: int|
                0 <= k < old(self).entries().len() && #[trigger] old(self).entries()[k].0 == id
                    && final(self).entries() == old(self).entries().update(
                    k,
                    (id, ParameterEventInfo { change_started: true, ..old(self).entries()[k].1 }),
                ),
    {
        let k = self.position_of(id);
        let mut info = self.parameter_event_info[k].1;
        info.change_started = true;
        self.set_info(k, info);
    }

    /// The editor sets a parameter's normalized value; a later value replaces it.
    pub fn change_parameter_value(&mut self, id: u32, normalized: V)
        requires
            old(self).has_id(id),
        ensures
            exists|k: int|
                0 <= k < old(self).entries().len() && #[trigger] old(self).entries()[k].0 == id
                    && final(self).entries() == old(self).entries().update(
                    k,
                    (id, ParameterEventInfo { value: Some(normalized), ..old(self).entries()[k].1 }),
                ),
    {
        let k = self.position_of(id);
        let mut info = self.parameter_event_info[k].1;
        info.value = Some(normalized);
        self.set_info(k, info);
    }

    /// The editor sets a parameter's modulation amount; a later amount replaces it.
    pub fn change_parameter_modulation(&mut self, id: u32, normalized: V)
        requires
            old(self).has_id(id),
        ensures
            exists|k: int|
                0 <= k < old(self).entries().len() && #[trigger] old(self).entries()[k].0 == id
                    && final(self).entries() == old(self).entries().update(
                    k,
                    (id, ParameterEventInfo { modulation: Some(normalized), ..old(self).entries()[k].1 }),
                ),
    {
        let k = self.position_of(id);
        let mut info = self.parameter_event_info[k].1;
        info.modulation = Some(normalized);
        self.set_info(k, info);
    }

    /// The editor ends a gesture on a parameter.
    pub fn end_parameter_change(&mut self, id: u32)
        requires
            old(self).has_id(id),
        ensures
            exists|k: int|
                0 <= k < old(self).entries().len() && #[trigger] old(self).entries()[k].0 == id
                    && final(self).entries() == old(self).entries().update(
                    k,
                    (id, ParameterEventInfo { change_ended: true, ..old(self).entries()[k].1 }),
                ),
    {
        let k = self.position_of(id);
        let mut info = self.parameter_event_info[k].1;
        info.change_ended = true;
        self.set_info(k, info);
    }

    /// Starts reporting the pending changes; `send_to_host` says whether there is a host
    /// queue to report them to as well.
    pub fn iter_and_send(&self, send_to_host: bool) -> (it: ParameterEventMapIterator<V>)
        ensures
            it.position() == 0,
            it.send_to_host() == send_to_host,
            it.is_idle(),
    {
        ParameterEventMapIterator {
            position: 0,
            parameter_id: 0,
            start_change: false,
            end_change: false,
            value: None,
            modulation: None,
            send_to_host,
        }
    }
}

/// Reports the pending changes of a [`ParameterEventMap`] in id order: each value and
/// modulation becomes an event for the processor, and gesture starts, values and gesture
/// ends are reported to the host. Taking an entry's changes clears them in the map.
pub struct ParameterEventMapIterator<V> {
    position: usize,
    parameter_id: u32,
    start_change: bool,
    end_change: bool,
    value: Option<V>,
    modulation: Option<V>,
    send_to_host: bool,
}

impl<V: Copy> ParameterEventMapIterator<V> {
    /// How many entries of the map have been taken.
    pub closed spec fn position(&self) -> int {
        self.position as int
    }

    pub closed spec fn parameter_id(&self) -> u32 {
        self.parameter_id
    }

    pub closed spec fn start_change(&self) -> bool {
        self.start_change
    }

    pub closed spec fn end_change(&self) -> bool {
        self.end_change
    }

    pub closed spec fn value(&self) -> Option<V> {
        self.value
    }

    pub closed spec fn modulation(&self) -> Option<V> {
        self.modulation
    }

    pub closed spec fn send_to_host(&self) -> bool {
        self.send_to_host
    }

    /// Nothing taken from the current entry is left to report.
    pub open spec fn is_idle(&self) -> bool {
        &&& !self.start_change()
        &&& !self.end_change()
        &&& self.value() is None
        &&& self.modulation() is None
    }

    /// Reports what is left of the current entry: its messages to the host, and its event.
    fn flush(&mut self, host: &mut Vec<HostMessage<V>>) -> (event: Option<Event<V>>)
        ensures
            final(host)@ == old(host)@ + gesture_messages(
                old(self).parameter_id(),
                old(self).start_change(),
                old(self).value(),
                old(self).end_change(),
                old(self).send_to_host(),
            ),
            event == event_for(old(self).parameter_id(), old(self).value(), old(self).modulation()),
            final(self).position() == old(self).position(),
            final(self).parameter_id() == old(self).parameter_id(),
            final(self).send_to_host() == old(self).send_to_host(),
            !final(self).start_change(),
            !final(self).end_change(),
            final(self).value() is None,
            final(self).modulation() == if old(self).value() is Some {
                old(self).modulation()
            } else {
                None
            },
    {
        let id = self.parameter_id;
        let ghost h0 = host@;
        let started = self.start_change;
        self.start_change = false;
        if started && self.send_to_host {
            host.push(HostMessage::GestureBegin { id });
        }
        let ghost h1 = host@;
        let event = match self.value {
            Some(value) => {
                self.value = None;
                if self.send_to_host {
                    host.push(HostMessage::Value { id, value });
                }
                Some(Event::ParameterValue { sample_offset: 0, id, value })
            },
            None => match self.modulation {
                Some(amount) => {
                    self.modulation = None;
                    Some(Event::ParameterModulation { sample_offset: 0, id, amount })
                },
                None => None,
            },
        };
        let ghost h2 = host@;
        let ended = self.end_change;
        self.end_change = false;
        if ended && self.send_to_host {
            host.push(HostMessage::GestureEnd { id });
        }
        proof {
            let begin: Seq<HostMessage<V>> = if started {
                seq![HostMessage::GestureBegin { id }]
            } else {
                Seq::empty()
            };
            let val: Seq<HostMessage<V>> = match old(self).value() {
                Some(v) => seq![HostMessage::Value { id, value: v }],
                None => Seq::empty(),
            };
            let end: Seq<HostMessage<V>> = if ended {
                seq![HostMessage::GestureEnd { id }]
            } else {
                Seq::empty()
            };
            if self.send_to_host {
                assert(h1 == h0 + begin);
                assert(h2 == h1 + val);
                assert(host@ == h2 + end);
                assert(host@ == h0 + (begin + val + end));
            } else {
                assert(host@ == h0);
                assert(host@ == h0 + Seq::<HostMessage<V>>::empty());
            }
        }
        event
    }

    /// The next event for the processor. On the way, the messages for the entries taken
    /// are appended to `host`, and those entries are cleared in the map.
    pub fn next(&mut self, map: &mut ParameterEventMap<V>, host: &mut Vec<HostMessage<V>>) -> (event:
        Option<Event<V>>)
        requires
            old(map).wf(),
            0 <= old(self).position() <= old(map).entries().len(),
        ensures
            final(map).wf(),
            final(self).send_to_host() == old(self).send_to_host(),
            0 <= final(self).position() <= final(map).entries().len(),
            final(map).entries().len() == old(map).entries().len(),
            forall|k: int| 0 <= k < old(map).entries().len() ==> #[trigger] final(map).entries()[k].0
                == old(map).entries()[k].0,
            has_event(
                ParameterEventInfo {
                    value: old(self).value(),
                    modulation: old(self).modulation(),
                    change_started: false,
                    change_ended: false,
                },
            ) ==> {
                // What is left of the current entry is reported first.
                &&& final(host)@ == old(host)@ + gesture_messages(
                    old(self).parameter_id(),
                    old(self).start_change(),
                    old(self).value(),
                    old(self).end_change(),
                    old(self).send_to_host(),
                )
                &&& event == event_for(
                    old(self).parameter_id(),
                    old(self).value(),
                    old(self).modulation(),
                )
                &&& final(map).entries() == old(map).entries()
                &&& final(self).position() == old(self).position()
                &&& final(self).parameter_id() == old(self).parameter_id()
                &&& !final(self).start_change() && !final(self).end_change()
                &&& final(self).value() is None
                &&& final(self).modulation() == if old(self).value() is Some {
                    old(self).modulation()
                } else {
                    None
                }
            },
            !has_event(
                ParameterEventInfo {
                    value: old(self).value(),
                    modulation: old(self).modulation(),
                    change_started: false,
                    change_ended: false,
                },
            ) ==> {
                let entries = old(map).entries();
                let from = old(self).position();
                let prefix = gesture_messages(
                    old(self).parameter_id(),
                    old(self).start_change(),
                    None,
                    old(self).end_change(),
                    old(self).send_to_host(),
                );
                match first_with_event(entries, from) {
                    Some(k) => {
                        // Entries without a value or modulation only report their gestures; the
                        // first one with either gives the event.
                        &&& final(host)@ == old(host)@ + prefix + messages_between(
                            entries,
                            from,
                            k + 1,
                            old(self).send_to_host(),
                        )
                        &&& event == event_for(entries[k].0, entries[k].1.value, entries[k].1.modulation)
                        &&& forall|j: int|
                            0 <= j < entries.len() ==> #[trigger] final(map).entries()[j] == if from <= j
                                <= k {
                                (entries[j].0, cleared_info())
                            } else {
                                entries[j]
                            }
                        &&& final(self).position() == k + 1
                        &&& final(self).parameter_id() == entries[k].0
                        &&& !final(self).start_change() && !final(self).end_change()
                        &&& final(self).value() is None
                        &&& final(self).modulation() == if entries[k].1.value is Some {
                            entries[k].1.modulation
                        } else {
                            None
                        }
                    },
                    None => {
                        // The rest of the map is reported and cleared; nothing is left.
                        &&& final(host)@ == old(host)@ + prefix + messages_between(
                            entries,
                            from,
                            entries.len() as int,
                            old(self).send_to_host(),
                        )
                        &&& event is None
                        &&& forall|j: int|
                            0 <= j < entries.len() ==> #[trigger] final(map).entries()[j] == if from
                                <= j {
                                (entries[j].0, cleared_info())
                            } else {
                                entries[j]
                            }
                        &&& final(self).position() == entries.len()
                        &&& final(self).is_idle()
                    },
                }
            },
    {
        let ghost h0 = host@;
        let ghost entries = map.entries();
        let ghost from = self.position as int;
        let event = self.flush(host);
        if event.is_some() {
            return event;
        }
        let ghost h1 = host@;
        proof {
            lemma_first_with_event_facts(entries, from);
            assert(old(self).value() is None);
            assert(old(self).modulation() is None);
        }
        while self.position < map.parameter_event_info.len()
            invariant
                h0 == old(host)@,
                old(self).value() is None && old(self).modulation() is None,
                entries == old(map).entries(),
                from == old(self).position(),
                h1 == h0 + gesture_messages(
                    old(self).parameter_id(),
                    old(self).start_change(),
                    None,
                    old(self).end_change(),
                    old(self).send_to_host(),
                ),
                map.wf(),
                map.entries().len() == entries.len(),
                from <= self.position() <= entries.len(),
                self.send_to_host() == old(self).send_to_host(),
                self.is_idle(),
                host@ == h1 + messages_between(entries, from, self.position(), self.send_to_host()),
                forall|j: int| from <= j < self.position() ==> !has_event(#[trigger] entries[j].1),
                first_with_event(entries, from) == first_with_event(entries, self.position()),
                forall|j: int|
                    0 <= j < entries.len() ==> #[trigger] map.entries()[j] == if from <= j
                        < self.position() {
                        (entries[j].0, cleared_info())
                    } else {
                        entries[j]
                    },
                self.position() > from ==> self.parameter_id() == entries[self.position() - 1].0,
                self.position() == from ==> self.parameter_id() == old(self).parameter_id(),
                first_with_event(entries, from) matches Some(k) ==> from <= k < entries.len()
                    && has_event(entries[k].1),
                first_with_event(entries, from) is None ==> forall|j: int|
                    from <= j < entries.len() ==> !has_event(#[trigger] entries[j].1),
            decreases entries.len() - self.position(),
        {
            let k = self.position;
            let (id, info) = map.parameter_event_info[k];
            let cleared = ParameterEventInfo {
                value: None,
                modulation: None,
                change_started: false,
                change_ended: false,
            };
            map.set_info(k, cleared);
            self.parameter_id = id;
            self.start_change = info.change_started;
            self.end_change = info.change_ended;
            self.value = info.value;
            self.modulation = info.modulation;
            self.position = k + 1;
            let ghost h2 = host@;
            let event = self.flush(host);
            proof {
                assert(h2 == h1 + messages_between(entries, from, k as int, self.send_to_host()));
                assert(host@ == h1 + messages_between(entries, from, k + 1, self.send_to_host()));
                assert forall|a: int, b: int| 0 <= a < b < map.entries().len() implies map.entries()[a].0
                    < map.entries()[b].0 by {
                    assert(map.entries()[a].0 == entries[a].0);
                    assert(map.entries()[b].0 == entries[b].0);
                }
            }
            if event.is_some() {
                proof {
                    assert(first_with_event(entries, k as int) == Some(k as int));
                    assert(entries == old(map).entries());
                    assert(map.entries().len() == entries.len());
                    assert(h1 == h0 + gesture_messages(
                        old(self).parameter_id(),
                        old(self).start_change(),
                        None,
                        old(self).end_change(),
                        old(self).send_to_host(),
                    ));
                    assert(host@ == h0 + gesture_messages(
                        old(self).parameter_id(),
                        old(self).start_change(),
                        None,
                        old(self).end_change(),
                        old(self).send_to_host(),
                    ) + messages_between(entries, from, k + 1, self.send_to_host()));
                    assert(event == event_for(entries[k as int].0, entries[k as int].1.value, entries[k as int].1.modulation));
                    assert(self.modulation() == if entries[k as int].1.value is Some {
                            entries[k as int].1.modulation
                        } else {
                            None
                        });
                    assert forall|j: int| 0 <= j < entries.len() implies #[trigger] map.entries()[j] == if from <= j <= k {
                                (entries[j].0, cleared_info())
                            } else {
                                entries[j]
                            } by {}
                }
                return event;
            }
            proof {
                assert(!has_event(entries[k as int].1));
                assert(first_with_event(entries, k as int) == first_with_event(entries, k + 1));
            }
        }
        proof {
            assert(host@ == h0 + gesture_messages(
                old(self).parameter_id(),
                old(self).start_change(),
                None,
                old(self).end_change(),
                old(self).send_to_host(),
            ) + messages_between(entries, from, entries.len() as int, self.send_to_host()));
        }
        None
    }
}

pub proof fn lemma_first_with_event_facts<V>(entries: Seq<(u32, ParameterEventInfo<V>)>, from: int)
    requires
        0 <= from,
    ensures
        first_with_event(entries, from) matches Some(k) ==> {
            &&& from <= k < entries.len()
            &&& has_event(entries[k].1)
            &&& forall|j: int| from <= j < k ==> !has_event(#[trigger] entries[j].1)
        },
        first_with_event(entries, from) is None ==> forall|j: int|
            from <= j < entries.len() ==> !has_event(#[trigger] entries[j].1),
    decreases entries.len() - from,
{
    if from >= entries.len() {
    } else if has_event(entries[from].1) {
    } else {
        lemma_first_with_event_facts(entries, from + 1);
    }
}

/// The events one parameter's pending changes make for the processor: its value, then
/// its modulation, each if pending.
pub open spec fn entry_events<V>(id: u32, info: ParameterEventInfo<V>) -> Seq<Event<V>> {
    (match info.value {
        Some(v) => seq![Event::ParameterValue { sample_offset: 0, id, value: v }],
        None => Seq::empty(),
    }) + (match info.modulation {
        Some(m) => seq![Event::ParameterModulation { sample_offset: 0, id, amount: m }],
        None => Seq::empty(),
    })
}

/// The events of the first `n` entries, in order.
pub open spec fn events_upto<V>(entries: Seq<(u32, ParameterEventInfo<V>)>, n: int) -> Seq<Event<V>>
    decreases n,
{
    if n <= 0 {
        Seq::empty()
    } else {
        events_upto(entries, n - 1) + entry_events(entries[n - 1].0, entries[n - 1].1)
    }
}

/// The events for the processor that a parameter's pending modulation still makes.
pub open spec fn leftover_events<V>(id: u32, modulation: Option<V>) -> Seq<Event<V>> {
    match modulation {
        Some(m) => seq![Event::ParameterModulation { sample_offset: 0, id, amount: m }],
        None => Seq::empty(),
    }
}

proof fn lemma_messages_same_entries<V>(
    a: Seq<(u32, ParameterEventInfo<V>)>,
    b: Seq<(u32, ParameterEventInfo<V>)>,
    from: int,
    to: int,
    send: bool,
)
    requires
        0 <= from,
        to <= a.len(),
        to <= b.len(),
        forall|j: int| from <= j < to ==> #[trigger] a[j] == b[j],
    ensures
        messages_between(a, from, to, send) == messages_between(b, from, to, send),
    decreases to - from,
{
    if to > from {
        lemma_messages_same_entries(a, b, from, to - 1, send);
        assert(a[to - 1] == b[to - 1]);
    }
}

proof fn lemma_messages_concat<V>(entries: Seq<(u32, ParameterEventInfo<V>)>, a: int, b: int, send: bool)
    requires
        0 <= a <= b,
    ensures
        messages_between(entries, 0, a, send) + messages_between(entries, a, b, send)
            == messages_between(entries, 0, b, send),
    decreases b - a,
{
    if b > a {
        lemma_messages_concat(entries, a, b - 1, send);
        let m = gesture_messages(
            entries[b - 1].0,
            entries[b - 1].1.change_started,
            entries[b - 1].1.value,
            entries[b - 1].1.change_ended,
            send,
        );
        assert(messages_between(entries, 0, a, send) + (messages_between(entries, a, b - 1, send) + m)
            == (messages_between(entries, 0, a, send) + messages_between(entries, a, b - 1, send)) + m);
    } else {
        assert(messages_between(entries, a, b, send) == Seq::<HostMessage<V>>::empty());
        assert(messages_between(entries, 0, a, send) + Seq::<HostMessage<V>>::empty()
            == messages_between(entries, 0, a, send));
    }
}

proof fn lemma_first_with_event_same<V>(
    a: Seq<(u32, ParameterEventInfo<V>)>,
    b: Seq<(u32, ParameterEventInfo<V>)>,
    from: int,
)
    requires
        0 <= from,
        a.len() == b.len(),
        forall|j: int| from <= j < a.len() ==> #[trigger] a[j] == b[j],
    ensures
        first_with_event(a, from) == first_with_event(b, from),
    decreases a.len() - from,
{
    if from < a.len() {
        assert(a[from] == b[from]);
        lemma_first_with_event_same(a, b, from + 1);
    }
}

proof fn lemma_no_events_between<V>(entries: Seq<(u32, ParameterEventInfo<V>)>, a: int, b: int)
    requires
        0 <= a <= b <= entries.len(),
        forall|j: int| a <= j < b ==> !has_event(#[trigger] entries[j].1),
    ensures
        events_upto(entries, b) == events_upto(entries, a),
    decreases b - a,
{
    if b > a {
        lemma_no_events_between(entries, a, b - 1);
        assert(!has_event(entries[b - 1].1));
        assert(entry_events(entries[b - 1].0, entries[b - 1].1) == Seq::<Event<V>>::empty());
        assert(events_upto(entries, b - 1) + Seq::<Event<V>>::empty() == events_upto(entries, b - 1));
    }
}

impl<V: Copy> ParameterEventMap<V> {
    /// Reports every pending change and clears it: the processor's events come in id
    /// order, each parameter's value before its modulation, and the host is sent each
    /// parameter's gesture start, value and gesture end. This is how a block takes the
    /// editor's changes.
    pub fn report_changes(&mut self, send_to_host: bool) -> (reported: (Vec<Event<V>>, Vec<HostMessage<V>>))
        requires
            old(self).wf(),
        ensures
            final(self).wf(),
            reported.0@ == events_upto(old(self).entries(), old(self).entries().len() as int),
            reported.1@ == messages_between(
                old(self).entries(),
                0,
                old(self).entries().len() as int,
                send_to_host,
            ),
            final(self).entries().len() == old(self).entries().len(),
            forall|j: int|
                0 <= j < old(self).entries().len() ==> #[trigger] final(self).entries()[j] == (
                old(self).entries()[j].0,
                cleared_info::<V>(),
            ),
    {
        let ghost entries = self.entries();
        let ghost n = entries.len() as int;
        let mut it = self.iter_and_send(send_to_host);
        let mut events: Vec<Event<V>> = Vec::new();
        let mut host: Vec<HostMessage<V>> = Vec::new();
        loop
            invariant_except_break
                n == entries.len(),
                self.wf(),
                self.entries().len() == n,
                0 <= it.position() <= n,
                it.send_to_host() == send_to_host,
                !it.start_change(),
                !it.end_change(),
                it.value() is None,
                it.position() == 0 ==> it.modulation() is None,
                it.position() > 0 ==> it.parameter_id() == entries[it.position() - 1].0,
                forall|j: int|
                    0 <= j < n ==> #[trigger] self.entries()[j] == if j < it.position() {
                        (entries[j].0, cleared_info::<V>())
                    } else {
                        entries[j]
                    },
                host@ == messages_between(entries, 0, it.position(), send_to_host),
                events@ + leftover_events(it.parameter_id(), it.modulation()) == events_upto(
                    entries,
                    it.position(),
                ),
            ensures
                self.wf(),
                self.entries().len() == n,
                forall|j: int|
                    0 <= j < n ==> #[trigger] self.entries()[j] == (entries[j].0, cleared_info::<V>()),
                host@ == messages_between(entries, 0, n, send_to_host),
                events@ == events_upto(entries, n),
            decreases (n - it.position()) * 2 + if it.modulation() is Some {
                1int
            } else {
                0int
            },
        {
            let ghost pos = it.position();
            let ghost cur = self.entries();
            let ghost h0 = host@;
            let ghost leftover = it.modulation();
            let ghost id0 = it.parameter_id();
            proof {
                assert(gesture_messages(id0, false, None::<V>, false, send_to_host) =~= Seq::<
                    HostMessage<V>,
                >::empty());
                assert forall|j: int| pos <= j < n implies #[trigger] cur[j] == entries[j] by {}
                lemma_first_with_event_same(cur, entries, pos);
                lemma_first_with_event_facts(entries, pos);
            }
            let next = it.next(self, &mut host);
            match next {
                Some(event) => {
                    proof {
                        if leftover is Some {
                            assert(host@ =~= h0);
                        } else {
                            let k = first_with_event(entries, pos).unwrap();
                            assert(it.position() == k + 1);
                            lemma_messages_same_entries(cur, entries, pos, k + 1, send_to_host);
                            lemma_messages_concat(entries, pos, k + 1, send_to_host);
                            assert(host@ =~= h0 + messages_between(entries, pos, k + 1, send_to_host));
                            lemma_no_events_between(entries, pos, k);
                            assert(events_upto(entries, k + 1) == events_upto(entries, k) + entry_events(
                                entries[k].0,
                                entries[k].1,
                            ));
                        }
                    }
                    let ghost before = events@;
                    events.push(event);
                    proof {
                        if leftover is Some {
                            assert(events@ + leftover_events(it.parameter_id(), it.modulation()) =~= before
                                + leftover_events(id0, leftover));
                        } else {
                            let k = it.position() - 1;
                            assert(before == events_upto(entries, pos)) by {
                                assert(before + Seq::<Event<V>>::empty() == before);
                            }
                            assert(events@ + leftover_events(it.parameter_id(), it.modulation())
                                =~= events_upto(entries, k) + entry_events(entries[k].0, entries[k].1));
                        }
                    }
                },
                None => {
                    proof {
                        lemma_messages_same_entries(cur, entries, pos, n, send_to_host);
                        lemma_messages_concat(entries, pos, n, send_to_host);
                        assert(host@ =~= h0 + messages_between(entries, pos, n, send_to_host));
                        lemma_no_events_between(entries, pos, n);
                        assert(events@ + Seq::<Event<V>>::empty() == events@);
                    }
                    break;
                },
            }
        }
        (events, host)
    }
}

/// A map whose changes were all reported has nothing more to report: a second report
/// right after the first gives no event and no message.
pub proof fn lemma_cleared_map_reports_nothing<V>(entries: Seq<(u32, ParameterEventInfo<V>)>, n: int, send: bool)
    requires
        0 <= n <= entries.len(),
        forall|j: int| 0 <= j < entries.len() ==> #[trigger] entries[j].1 == cleared_info::<V>(),
    ensures
        events_upto(entries, n) == Seq::<Event<V>>::empty(),
        messages_between(entries, 0, n, send) == Seq::<HostMessage<V>>::empty(),
    decreases n,
{
    if n > 0 {
        lemma_cleared_map_reports_nothing(entries, n - 1, send);
        assert(entries[n - 1].1 == cleared_info::<V>());
        assert(entry_events(entries[n - 1].0, entries[n - 1].1) =~= Seq::<Event<V>>::empty());
        assert(gesture_messages(entries[n - 1].0, false, None::<V>, false, send) =~= Seq::<
            HostMessage<V>,
        >::empty());
        assert(events_upto(entries, n) =~= Seq::<Event<V>>::empty());
        assert(messages_between(entries, 0, n, send) =~= Seq::<HostMessage<V>>::empty());
    }
}

/// A value the editor set and that is still pending is among the events of the next
/// report, for its parameter.
pub proof fn lemma_pending_value_reported<V>(entries: Seq<(u32, ParameterEventInfo<V>)>, n: int, k: int, value: V)
    requires
        0 <= k < n <= entries.len(),
        entries[k].1.value == Some(value),
    ensures
        events_upto(entries, n).contains(Event::ParameterValue { sample_offset: 0, id: entries[k].0, value }),
    decreases n,
{
    let target = Event::ParameterValue { sample_offset: 0, id: entries[k].0, value };
    if k == n - 1 {
        let before = events_upto(entries, n - 1);
        let own = entry_events(entries[k].0, entries[k].1);
        assert(own[0] == target);
        assert(events_upto(entries, n)[before.len() as int] == target);
    } else {
        lemma_pending_value_reported(entries, n - 1, k, value);
        let before = events_upto(entries, n - 1);
        let j = choose|j: int| 0 <= j < before.len() && before[j] == target;
        assert(events_upto(entries, n)[j] == target);
    }
}


/// The parameter an event of a report is for.
pub open spec fn reported_id<V>(event: Event<V>) -> u32 {
    match event {
        Event::ParameterValue { id, .. } => id,
        Event::ParameterModulation { id, .. } => id,
        _ => 0,
    }
}

/// One of the first `n` entries is for parameter `id`.
pub open spec fn id_among<V>(entries: Seq<(u32, ParameterEventInfo<V>)>, n: int, id: u32) -> bool {
    exists|k: int| 0 <= k < n && #[trigger] entries[k].0 == id
}

/// A report lists its events by parameter id: each is a parameter event at sample offset
/// 0 for a parameter of the map, and of two events the later is for a higher id, or for
/// the same parameter, the first being its value and the second its modulation. So each
/// parameter has at most one value and one modulation in a report, the value first.
pub proof fn lemma_report_in_id_order<V>(entries: Seq<(u32, ParameterEventInfo<V>)>, n: int)
    requires
        ids_increasing(entries),
        0 <= n <= entries.len(),
    ensures
        forall|i: int|
            0 <= i < events_upto(entries, n).len() ==> {
                &&& is_parameter_event(#[trigger] events_upto(entries, n)[i])
                &&& offset_of(events_upto(entries, n)[i]) == 0
                &&& id_among(entries, n, reported_id(events_upto(entries, n)[i]))
            },
        forall|i: int, j: int|
            0 <= i < j < events_upto(entries, n).len() ==> {
                ||| reported_id(#[trigger] events_upto(entries, n)[i]) < reported_id(
                    #[trigger] events_upto(entries, n)[j],
                )
                ||| {
                    &&& reported_id(events_upto(entries, n)[i]) == reported_id(
                        events_upto(entries, n)[j],
                    )
                    &&& events_upto(entries, n)[i] is ParameterValue
                    &&& events_upto(entries, n)[j] is ParameterModulation
                }
            },
    decreases n,
{
    if n > 0 {
        lemma_report_in_id_order(entries, n - 1);
        let prev = events_upto(entries, n - 1);
        let id = entries[n - 1].0;
        let tail = entry_events(id, entries[n - 1].1);
        let all = events_upto(entries, n);
        assert(all == prev + tail);
        assert forall|t: int| 0 <= t < tail.len() implies {
            &&& is_parameter_event(#[trigger] tail[t])
            &&& offset_of(tail[t]) == 0
            &&& reported_id(tail[t]) == id
        } by {}
        assert(tail.len() == 2 ==> tail[0] is ParameterValue && tail[1] is ParameterModulation);
        assert forall|i: int| 0 <= i < all.len() implies {
            &&& is_parameter_event(#[trigger] all[i])
            &&& offset_of(all[i]) == 0
            &&& id_among(entries, n, reported_id(all[i]))
        } by {
            if i < prev.len() {
                assert(all[i] == prev[i]);
                let k = choose|k: int| 0 <= k < n - 1 && #[trigger] entries[k].0 == reported_id(prev[i]);
                assert(entries[k].0 == reported_id(all[i]));
            } else {
                assert(all[i] == tail[i - prev.len()]);
                assert(entries[n - 1].0 == reported_id(all[i]));
            }
        }
        assert forall|i: int, j: int| 0 <= i < j < all.len() implies {
            ||| reported_id(#[trigger] all[i]) < reported_id(#[trigger] all[j])
            ||| {
                &&& reported_id(all[i]) == reported_id(all[j])
                &&& all[i] is ParameterValue
                &&& all[j] is ParameterModulation
            }
        } by {
            if j < prev.len() {
                assert(all[i] == prev[i]);
                assert(all[j] == prev[j]);
            } else if i < prev.len() {
                assert(all[i] == prev[i]);
                assert(all[j] == tail[j - prev.len()]);
                let k = choose|k: int| 0 <= k < n - 1 && #[trigger] entries[k].0 == reported_id(prev[i]);
                assert(entries[k].0 < id);
            } else {
                assert(all[i] == tail[i - prev.len()]);
                assert(all[j] == tail[j - prev.len()]);
            }
        }
    }
}

} // verus!
