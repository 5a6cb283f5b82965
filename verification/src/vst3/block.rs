use vstd::prelude::*;
use crate::event::Event;
use super::component::SAMPLE_32;

verus! {

/// What the plugin reads of a host's process call before processing.
#[derive(Clone, Copy, Debug)]
pub struct ProcessRequest {
    pub inputs_present: bool,
    pub outputs_present: bool,
    pub num_inputs: i32,
    pub num_outputs: i32,
    pub num_samples: i32,
    pub symbolic_sample_size: i32,
    pub main_input_channels: i32,
    pub main_output_channels: i32,
    /// The plugin has an auxiliary input and the host activated it.
    pub aux_active: bool,
    /// Whether some output channel is not the input channel it pairs with.
    pub out_of_place: bool,
}

/// A call without buffers or samples only delivers events.
pub open spec fn is_event_only(request: ProcessRequest) -> bool {
    !request.inputs_present || !request.outputs_present || request.num_inputs == 0
        || request.num_samples == 0
}

/// What a call with audio must bring: a main input and output of the same width, and
/// both inputs when the auxiliary input is active.
pub open spec fn well_formed_audio(request: ProcessRequest) -> bool {
    &&& request.num_inputs >= 1
    &&& request.num_outputs >= 1
    &&& request.main_input_channels == request.main_output_channels
    &&& request.aux_active ==> request.num_inputs == 2
}

/// What happens to a process call.
#[derive(Clone, Copy, Debug, PartialEq, Eq, Structural)]
pub enum Vst3Block {
    /// The call fails.
    Refuse,
    /// The processor is being set up or torn down: the output (if any) is silenced and
    /// the call succeeds.
    Silence { fill_output: bool },
    /// Only the events are processed (see [`block_events`]), the processor is not asked
    /// for audio and no buffer is written, and the call succeeds.
    EventsOnly,
    /// The input is copied to the output where they differ, and the block is processed.
    Process { copy_input: bool, with_aux: bool },
}

pub open spec fn block_plan(request: ProcessRequest, processor_busy: bool, has_processor: bool) -> Vst3Block {
    let events_only = is_event_only(request);
    if !events_only && request.symbolic_sample_size != SAMPLE_32 {
        Vst3Block::Refuse
    } else if processor_busy {
        Vst3Block::Silence { fill_output: !events_only }
    } else if !has_processor {
        Vst3Block::Refuse
    } else if events_only {
        Vst3Block::EventsOnly
    } else {
        Vst3Block::Process { copy_input: request.out_of_place, with_aux: request.aux_active }
    }
}

/// Decides what happens to a process call: audio in a sample size other than 32-bit
/// float is refused; a call while the processor is locked for setup gives silence; a
/// call with no processor is refused; a call without audio only delivers events.
pub fn plan_block(request: ProcessRequest, processor_busy: bool, has_processor: bool) -> (block: Vst3Block)
    requires
        !is_event_only(request) && request.symbolic_sample_size == SAMPLE_32 ==> well_formed_audio(
            request,
        ),
    ensures
        block == block_plan(request, processor_busy, has_processor),
        block matches Vst3Block::Process { copy_input, with_aux } ==> copy_input == request.out_of_place
            && with_aux == request.aux_active,
{
    let events_only = !request.inputs_present || !request.outputs_present || request.num_inputs
        == 0 || request.num_samples == 0;
    if !events_only && request.symbolic_sample_size != SAMPLE_32 {
        Vst3Block::Refuse
    } else if processor_busy {
        Vst3Block::Silence { fill_output: !events_only }
    } else if !has_processor {
        Vst3Block::Refuse
    } else if events_only {
        Vst3Block::EventsOnly
    } else {
        Vst3Block::Process { copy_input: request.out_of_place, with_aux: request.aux_active }
    }
}

/// A call with audio is processed only in 32-bit float, whatever else holds.
pub proof fn lemma_processed_audio_is_32_bit(request: ProcessRequest, processor_busy: bool, has_processor: bool)
    requires
        block_plan(request, processor_busy, has_processor) is Process,
    ensures
        request.symbolic_sample_size == SAMPLE_32,
        !is_event_only(request),
        !processor_busy,
        has_processor,
{
}

/// A call with audio in 32-bit float, while the processor is ready, is processed, and
/// processing takes the request's buffers as they are: the input is copied to the output
/// exactly when some output channel is not its input channel, and the auxiliary
/// (sidechain) input goes to the processor exactly when the host activated it.
pub proof fn lemma_processing_follows_request(request: ProcessRequest, processor_busy: bool, has_processor: bool)
    ensures
        request.inputs_present && request.outputs_present && request.num_inputs != 0
            && request.num_samples != 0 && request.symbolic_sample_size == SAMPLE_32 && !processor_busy
            && has_processor ==> block_plan(request, processor_busy, has_processor) is Process,
        block_plan(request, processor_busy, has_processor) matches Vst3Block::Process { copy_input, with_aux } ==> {
            &&& copy_input == request.out_of_place
            &&& with_aux == request.aux_active
        },
{
}

/// The events a process call hands the processor, whether it processes audio or only
/// events: the host's note events first, then the parameter changes, each once and in
/// its own order.
pub fn block_events<V: Copy>(notes: Vec<Event<V>>, changes: Vec<Event<V>>) -> (events: Vec<Event<V>>)
    ensures
        events@ == notes@ + changes@,
{
    let mut events = notes;
    let ghost start = events@;
    let mut i: usize = 0;
    while i < changes.len()
        invariant
            0 <= i <= changes@.len(),
            events@ == start + changes@.subrange(0, i as int),
        decreases changes@.len() - i,
    {
        proof {
            assert(changes@.subrange(0, i + 1) == changes@.subrange(0, i as int).push(changes@[i as int]));
        }
        events.push(changes[i]);
        i = i + 1;
    }
    proof {
        assert(changes@.subrange(0, changes@.len() as int) == changes@);
    }
    events
}

} // verus!
