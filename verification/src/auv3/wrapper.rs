use vstd::prelude::*;
use crate::event::Event;
use crate::parameters::has_duplicate_ids;
use crate::process::{ProcessMode, ProcessState, ProcessorConfig};
use super::block::{activation_config, tail_length_samples, tail_samples_of};
use super::event::{EventIterator, RenderEvent};
use super::parameters::{entry_ids, ParameterEntry, ParameterTable, ValueForwarding, ZERO_VALUE};

verus! {

/// How many events can wait for the processor.
pub const MAX_QUEUED_EVENTS: usize = 10240;

/// The state of an Audio Unit that its calls decide on: the parameter table, the events
/// waiting for the processor (values the host set, state that was loaded), the tail
/// last reported, whether there is a processor and an editor, and whether the editor is
/// sending a change to the host just now.
pub struct Auv3State<V> {
    table: ParameterTable,
    queue: Vec<Event<V>>,
    tail_samples: usize,
    has_processor: bool,
    has_editor: bool,
    sending_from_editor: bool,
}

impl<V: Copy> Auv3State<V> {
    pub closed spec fn table(&self) -> ParameterTable {
        self.table
    }

    /// The events waiting for the processor, oldest first.
    pub closed spec fn queue(&self) -> Seq<Event<V>> {
        self.queue@
    }

    /// The tail in samples after the last processed block (0 before any); the host is
    /// told it in seconds.
    pub closed spec fn tail(&self) -> usize {
        self.tail_samples
    }

    pub closed spec fn has_processor(&self) -> bool {
        self.has_processor
    }

    pub closed spec fn has_editor(&self) -> bool {
        self.has_editor
    }

    pub closed spec fn sending_from_editor(&self) -> bool {
        self.sending_from_editor
    }

    pub open spec fn wf(&self) -> bool {
        &&& self.table().wf()
        &&& self.queue().len() <= MAX_QUEUED_EVENTS
    }

    /// A new Audio Unit for a plugin with these parameters (distinct ids): every value at
    /// 0.0, no events waiting, no tail, no processor, no editor.
    pub fn new(entries: Vec<ParameterEntry>) -> (state: Self)
        requires
            !has_duplicate_ids(entry_ids(entries@)),
        ensures
            state.wf(),
            state.table().entries() == entries@,
            state.table().values() == Seq::new(entries@.len(), |i: int| ZERO_VALUE),
            state.queue() == Seq::<Event<V>>::empty(),
            state.tail() == 0,
            !state.has_processor(),
            !state.has_editor(),
            !state.sending_from_editor(),
    {
        Auv3State {
            table: ParameterTable::new(entries),
            queue: Vec::new(),
            tail_samples: 0,
            has_processor: false,
            has_editor: false,
            sending_from_editor: false,
        }
    }

    pub fn table_ref(&self) -> (table: &ParameterTable)
        ensures
            *table == self.table(),
    {
        &self.table
    }

    /// The tail in samples after the last processed block.
    pub fn tail_length(&self) -> (tail: usize)
        ensures
            tail == self.tail(),
    {
        self.tail_samples
    }

    /// Activation creates a processor for the host's sample rate and largest block.
    pub fn activate<R>(&mut self, sample_rate: R, max_block_size: u64) -> (config: ProcessorConfig<R>)
        ensures
            config.sample_rate == sample_rate,
            config.min_block_size == 0,
            config.max_block_size == max_block_size as usize,
            config.process_mode == ProcessMode::Realtime,
            final(self).has_processor(),
            final(self).table() == old(self).table(),
            final(self).queue() == old(self).queue(),
            final(self).tail() == old(self).tail(),
            final(self).has_editor() == old(self).has_editor(),
            final(self).sending_from_editor() == old(self).sending_from_editor(),
    {
        self.has_processor = true;
        activation_config(sample_rate, max_block_size)
    }

    /// Deactivation drops the processor.
    pub fn deactivate(&mut self)
        ensures
            !final(self).has_processor(),
            final(self).table() == old(self).table(),
            final(self).queue() == old(self).queue(),
            final(self).tail() == old(self).tail(),
            final(self).has_editor() == old(self).has_editor(),
            final(self).sending_from_editor() == old(self).sending_from_editor(),
    {
        self.has_processor = false;
    }

    /// The host sets a parameter's value (`value`, the bits of the host's float;
    /// `normalized`, that value divided by the parameter's multiplier). For a known
    /// parameter the value is kept and the normalized value is queued for the processor;
    /// the plugin is told too unless the change comes from its own editor. An unknown
    /// address changes nothing.
    pub fn set_parameter_value(&mut self, address: u64, value: u32, normalized: V) -> (forwarding: Option<ValueForwarding>)
        requires
            old(self).wf(),
            old(self).queue().len() < MAX_QUEUED_EVENTS,
        ensures
            final(self).wf(),
            final(self).table().entries() == old(self).table().entries(),
            !old(self).table().ids().contains(address as u32) ==> {
                &&& forwarding is None
                &&& final(self).table().values() == old(self).table().values()
                &&& final(self).queue() == old(self).queue()
            },
            forall|i: int|
                0 <= i < old(self).table().entries().len() && #[trigger] old(self).table().entries()[i].id
                    == address as u32 ==> {
                    &&& final(self).table().values() == old(self).table().values().update(i, value)
                    &&& forwarding == Some(
                        ValueForwarding {
                            id: address as u32,
                            multiplier: super::parameters::multiplier_of(
                                old(self).table().entries()[i].steps,
                            ),
                            notify_plugin: !old(self).sending_from_editor(),
                        },
                    )
                    &&& final(self).queue() == old(self).queue().push(
                        Event::ParameterValue { sample_offset: 0, id: address as u32, value: normalized },
                    )
                },
            final(self).tail() == old(self).tail(),
            final(self).has_processor() == old(self).has_processor(),
            final(self).has_editor() == old(self).has_editor(),
            final(self).sending_from_editor() == old(self).sending_from_editor(),
    {
        let forwarding = self.table.set_parameter_value(address, value, self.sending_from_editor);
        match forwarding {
            Some(f) => {
                self.queue.push(Event::ParameterValue { sample_offset: 0, id: f.id, value: normalized });
            },
            None => {},
        }
        forwarding
    }

    /// Queues events for the processor in order, such as every parameter's value after
    /// a state was loaded.
    pub fn queue_events(&mut self, events: Vec<Event<V>>)
        requires
            old(self).wf(),
            old(self).queue().len() + events@.len() <= MAX_QUEUED_EVENTS,
        ensures
            final(self).wf(),
            final(self).queue() == old(self).queue() + events@,
            final(self).table() == old(self).table(),
            final(self).tail() == old(self).tail(),
            final(self).has_processor() == old(self).has_processor(),
            final(self).has_editor() == old(self).has_editor(),
            final(self).sending_from_editor() == old(self).sending_from_editor(),
    {
        let mut i: usize = 0;
        while i < events.len()
            invariant
                0 <= i <= events@.len(),
                self.queue@ == old(self).queue@ + events@.subrange(0, i as int),
                self.table == old(self).table,
                self.tail_samples == old(self).tail_samples,
                self.has_processor == old(self).has_processor,
                self.has_editor == old(self).has_editor,
                self.sending_from_editor == old(self).sending_from_editor,
            decreases events@.len() - i,
        {
            proof {
                assert(events@.subrange(0, i + 1) == events@.subrange(0, i as int).push(events@[i as int]));
            }
            self.queue.push(events[i]);
            i = i + 1;
        }
        proof {
            assert(events@.subrange(0, events@.len() as int) == events@);
        }
    }

    /// The editor starts or stops sending a change to the host; while it sends, values
    /// the host sets back are not echoed to the plugin.
    pub fn set_sending_from_editor(&mut self, sending: bool)
        ensures
            final(self).sending_from_editor() == sending,
            final(self).table() == old(self).table(),
            final(self).queue() == old(self).queue(),
            final(self).tail() == old(self).tail(),
            final(self).has_processor() == old(self).has_processor(),
            final(self).has_editor() == old(self).has_editor(),
    {
        self.sending_from_editor = sending;
    }

    /// The editor is created; there can be only one.
    pub fn create_editor(&mut self)
        requires
            !old(self).has_editor(),
        ensures
            final(self).has_editor(),
            final(self).table() == old(self).table(),
            final(self).queue() == old(self).queue(),
            final(self).tail() == old(self).tail(),
            final(self).has_processor() == old(self).has_processor(),
            final(self).sending_from_editor() == old(self).sending_from_editor(),
    {
        self.has_editor = true;
    }

    /// The events of a render call, as the processor takes them: first the events queued
    /// since the last block, oldest first (the queue is then empty), then the parameter
    /// changes among the host's render events, read by the returned iterator.
    pub fn start_block(&mut self, render_events: Vec<RenderEvent<V>>) -> (events: (Vec<Event<V>>, EventIterator<V>))
        requires
            old(self).has_processor(),
        ensures
            events.0@ == old(self).queue(),
            final(self).queue() == Seq::<Event<V>>::empty(),
            events.1.events() == render_events@,
            events.1.parameter_ids() == old(self).table().ids(),
            events.1.index() == 0,
            final(self).table() == old(self).table(),
            final(self).tail() == old(self).tail(),
            final(self).has_processor() == old(self).has_processor(),
            final(self).has_editor() == old(self).has_editor(),
            final(self).sending_from_editor() == old(self).sending_from_editor(),
    {
        let mut queued: Vec<Event<V>> = Vec::new();
        std::mem::swap(&mut queued, &mut self.queue);
        let ids = self.table.parameter_ids();
        (queued, EventIterator::new(render_events, ids))
    }

    /// Takes in the processor's report after a block: the tail to tell the host.
    pub fn finish_block(&mut self, state: ProcessState) -> (tail: usize)
        ensures
            tail == tail_samples_of(state),
            final(self).tail() == tail,
            final(self).table() == old(self).table(),
            final(self).queue() == old(self).queue(),
            final(self).has_processor() == old(self).has_processor(),
            final(self).has_editor() == old(self).has_editor(),
            final(self).sending_from_editor() == old(self).sending_from_editor(),
    {
        self.tail_samples = tail_length_samples(state);
        self.tail_samples
    }
}

} // verus!
