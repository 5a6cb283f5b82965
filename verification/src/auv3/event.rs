use vstd::prelude::*;
use crate::event::Event;
use super::render_event::AURenderEventType;

verus! {

/// A render event of the host's list, with the fields a parameter event carries. For
/// other kinds of event `parameter_address` and `value` are not read.
#[derive(Clone, Copy, Debug)]
pub struct RenderEvent<V> {
    pub event_sample_time: i64,
    pub event_type: AURenderEventType,
    pub parameter_address: u64,
    pub value: V,
}

/// A parameter event (immediate or ramped) whose address, taken as a parameter id,
/// names one of the plugin's parameters. Hosts under test send addresses that name none.
pub open spec fn is_readable<V>(event: RenderEvent<V>, parameter_ids: Seq<u32>) -> bool {
    (event.event_type == AURenderEventType::AURenderEventParameter || event.event_type
        == AURenderEventType::AURenderEventParameterRamp) && parameter_ids.contains(
        event.parameter_address as u32,
    )
}

/// The first readable event at or after `from`.
pub open spec fn first_readable<V>(events: Seq<RenderEvent<V>>, parameter_ids: Seq<u32>, from: int) -> Option<int>
    decreases events.len() - from,
{
    if from < 0 || from >= events.len() {
        None
    } else if is_readable(events[from], parameter_ids) {
        Some(from)
    } else {
        first_readable(events, parameter_ids, from + 1)
    }
}

/// The sample offset of an event: its sample time, with times before the block taken as
/// the block's start.
pub open spec fn render_offset(event_sample_time: i64) -> usize {
    (if event_sample_time < 0 {
        0
    } else {
        event_sample_time
    }) as usize
}

/// The parameter change a readable render event stands for.
pub open spec fn parameter_event_of<V>(event: RenderEvent<V>) -> Event<V> {
    Event::ParameterValue {
        sample_offset: render_offset(event.event_sample_time),
        id: event.parameter_address as u32,
        value: event.value,
    }
}

/// Reads the parameter changes out of a block's render events, in order.
pub struct EventIterator<V> {
    events: Vec<RenderEvent<V>>,
    parameter_ids: Vec<u32>,
    index: usize,
}

impl<V: Copy> EventIterator<V> {
    pub closed spec fn events(&self) -> Seq<RenderEvent<V>> {
        self.events@
    }

    pub closed spec fn parameter_ids(&self) -> Seq<u32> {
        self.parameter_ids@
    }

    /// How many render events have been read.
    pub closed spec fn index(&self) -> int {
        self.index as int
    }

    pub fn new(events: Vec<RenderEvent<V>>, parameter_ids: Vec<u32>) -> (it: Self)
        ensures
            it.events() == events@,
            it.parameter_ids() == parameter_ids@,
            it.index() == 0,
    {
        EventIterator { events, parameter_ids, index: 0 }
    }

    fn knows_parameter(&self, id: u32) -> (known: bool)
        ensures
            known == self.parameter_ids().contains(id),
    {
        let mut i: usize = 0;
        while i < self.parameter_ids.len()
            invariant
                0 <= i <= self.parameter_ids@.len(),
                forall|j: int| 0 <= j < i ==> self.parameter_ids@[j] != id,
            decreases self.parameter_ids@.len() - i,
        {
            if self.parameter_ids[i] == id {
                return true;
            }
            i = i + 1;
        }
        false
    }

    /// The next parameter change, skipping events of other kinds and events for unknown
    /// parameters; `None` once the list is read to its end.
    pub fn next(&mut self) -> (event: Option<Event<V>>)
        requires
            old(self).index() <= old(self).events().len(),
        ensures
            final(self).events() == old(self).events(),
            final(self).parameter_ids() == old(self).parameter_ids(),
            match first_readable(old(self).events(), old(self).parameter_ids(), old(self).index()) {
                Some(j) => {
                    &&& final(self).index() == j + 1
                    &&& event == Some(parameter_event_of(old(self).events()[j]))
                },
                None => {
                    &&& final(self).index() == old(self).events().len()
                    &&& event is None
                },
            },
    {
        let ghost start = self.index as int;
        while self.index < self.events.len()
            invariant
                start <= self.index <= self.events@.len(),
                self.events@ == old(self).events@,
                self.parameter_ids@ == old(self).parameter_ids@,
                start == old(self).index(),
                first_readable(self.events@, self.parameter_ids@, start)
                    == first_readable(self.events@, self.parameter_ids@, self.index as int),
            decreases self.events@.len() - self.index,
        {
            let event = self.events[self.index];
            self.index = self.index + 1;
            if event.event_type.is_parameter() {
                let id = event.parameter_address as u32;
                if self.knows_parameter(id) {
                    let sample_offset = if event.event_sample_time < 0 {
                        0
                    } else {
                        event.event_sample_time
                    };
                    return Some(
                        Event::ParameterValue {
                            sample_offset: sample_offset as usize,
                            id,
                            value: event.value,
                        },
                    );
                }
            }
        }
        None
    }
}

/// The parameter changes among the first `n` render events, in order.
pub open spec fn readable_upto<V>(events: Seq<RenderEvent<V>>, parameter_ids: Seq<u32>, n: int) -> Seq<Event<V>>
    decreases n,
{
    if n <= 0 {
        Seq::empty()
    } else {
        readable_upto(events, parameter_ids, n - 1) + if is_readable(events[n - 1], parameter_ids) {
            seq![parameter_event_of(events[n - 1])]
        } else {
            Seq::empty()
        }
    }
}

proof fn lemma_first_readable_facts<V>(events: Seq<RenderEvent<V>>, parameter_ids: Seq<u32>, from: int)
    requires
        0 <= from,
    ensures
        first_readable(events, parameter_ids, from) matches Some(j) ==> {
            &&& from <= j < events.len()
            &&& is_readable(events[j], parameter_ids)
            &&& forall|k: int| from <= k < j ==> !is_readable(#[trigger] events[k], parameter_ids)
        },
        first_readable(events, parameter_ids, from) is None ==> forall|k: int|
            from <= k < events.len() ==> !is_readable(#[trigger] events[k], parameter_ids),
    decreases events.len() - from,
{
    if from < events.len() && !is_readable(events[from], parameter_ids) {
        lemma_first_readable_facts(events, parameter_ids, from + 1);
    }
}

proof fn lemma_nothing_readable_between<V>(events: Seq<RenderEvent<V>>, parameter_ids: Seq<u32>, a: int, b: int)
    requires
        0 <= a <= b <= events.len(),
        forall|k: int| a <= k < b ==> !is_readable(#[trigger] events[k], parameter_ids),
    ensures
        readable_upto(events, parameter_ids, b) == readable_upto(events, parameter_ids, a),
    decreases b - a,
{
    if b > a {
        lemma_nothing_readable_between(events, parameter_ids, a, b - 1);
        assert(!is_readable(events[b - 1], parameter_ids));
        assert(readable_upto(events, parameter_ids, b - 1) + Seq::<Event<V>>::empty() == readable_upto(
            events,
            parameter_ids,
            b - 1,
        ));
    }
}

/// The parameter changes a block's render events make, read to the end: exactly the
/// parameter events (immediate or ramped) for known parameters, in list order, each at
/// its sample time clamped to the block's start; every other event is passed over.
pub fn render_parameter_events<V: Copy>(events: Vec<RenderEvent<V>>, parameter_ids: Vec<u32>) -> (changes: Vec<Event<V>>)
    ensures
        changes@ == readable_upto(events@, parameter_ids@, events@.len() as int),
{
    let ghost all = events@;
    let ghost ids = parameter_ids@;
    let mut it = EventIterator::new(events, parameter_ids);
    let mut changes: Vec<Event<V>> = Vec::new();
    loop
        invariant_except_break
            it.events() == all,
            it.parameter_ids() == ids,
            0 <= it.index() <= all.len(),
            changes@ == readable_upto(all, ids, it.index()),
        ensures
            changes@ == readable_upto(all, ids, all.len() as int),
        decreases all.len() - it.index(),
    {
        let ghost from = it.index();
        proof {
            lemma_first_readable_facts(all, ids, from);
        }
        match it.next() {
            Some(event) => {
                proof {
                    let j = first_readable(all, ids, from).unwrap();
                    lemma_nothing_readable_between(all, ids, from, j);
                }
                changes.push(event);
            },
            None => {
                proof {
                    lemma_nothing_readable_between(all, ids, from, all.len() as int);
                }
                break;
            },
        }
    }
    changes
}

} // verus!
