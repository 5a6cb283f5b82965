use vstd::prelude::*;
use crate::format::{HostInfo, PluginFormat};
use crate::process::{ProcessMode, ProcessState, ProcessorConfig};

verus! {

/// What happens to a render call.
#[derive(Clone, Copy, Debug, PartialEq, Eq, Structural)]
pub enum Auv3Block {
    /// Without both an input and an output, only the events are processed.
    EventsOnly,
    /// The input is copied to the output where they differ, and the block is processed,
    /// with the auxiliary input where the host passed one.
    Process { copy_input: bool, with_aux: bool },
}

/// Decides what happens to a render call. A signal counts as present only when all its
/// channel pointers are. Audio Units are rendered in stereo.
pub fn plan_block(channels: u32, input_present: bool, output_present: bool, aux_present: bool, out_of_place: bool) -> (block: Auv3Block)
    requires
        channels == 2,
    ensures
        block == if input_present && output_present {
            Auv3Block::Process { copy_input: out_of_place, with_aux: aux_present }
        } else {
            Auv3Block::EventsOnly
        },
{
    if input_present && output_present {
        Auv3Block::Process { copy_input: out_of_place, with_aux: aux_present }
    } else {
        Auv3Block::EventsOnly
    }
}

/// The tail in samples that a processor's report stands for: none after an error or
/// normal output, the tail itself, or as long as can be said to keep the plugin alive.
pub open spec fn tail_samples_of(state: ProcessState) -> usize {
    match state {
        ProcessState::Error => 0,
        ProcessState::Normal => 0,
        ProcessState::Tail(t) => t,
        ProcessState::KeepAlive => usize::MAX,
    }
}

/// The tail length in samples after a processed block (the host is told it in seconds).
pub fn tail_length_samples(state: ProcessState) -> (tail: usize)
    ensures
        tail == tail_samples_of(state),
{
    match state {
        ProcessState::Error => 0,
        ProcessState::Normal => 0,
        ProcessState::Tail(t) => t,
        ProcessState::KeepAlive => usize::MAX,
    }
}

/// The processor an activated Audio Unit creates: for the host's sample rate and largest
/// block, with no smallest block, in real time.
pub fn activation_config<R>(sample_rate: R, max_block_size: u64) -> (config: ProcessorConfig<R>)
    ensures
        config.sample_rate == sample_rate,
        config.min_block_size == 0,
        config.max_block_size == max_block_size as usize,
        config.process_mode == ProcessMode::Realtime,
{
    ProcessorConfig {
        sample_rate,
        min_block_size: 0,
        max_block_size: max_block_size as usize,
        process_mode: ProcessMode::Realtime,
    }
}

/// What an Audio Unit host tells the plugin about itself: its format, not its name.
pub fn auv3_host_info() -> (info: HostInfo)
    ensures
        info.name is None,
        info.format == PluginFormat::Auv3,
{
    HostInfo { name: None, format: PluginFormat::Auv3 }
}

} // verus!
