use vstd::prelude::*;

verus! {

/// Whether audio is rendered in real time or offline (faster or slower than real time).
#[derive(Clone, Copy, Debug, PartialEq, Eq, Structural)]
pub enum ProcessMode {
    Realtime,
    Offline,
}

impl ProcessMode {
    /// Real time is the mode a processor starts in.
    pub fn default_mode() -> (mode: ProcessMode)
        ensures
            mode == ProcessMode::Realtime,
    {
        ProcessMode::Realtime
    }
}

/// What a processor reports after processing a block.
#[derive(Clone, Copy, Debug, PartialEq, Eq, Structural)]
pub enum ProcessState {
    Error,
    Normal,
    /// Output continues for this many samples after the input has gone silent.
    Tail(usize),
    /// Keep processing even without input.
    KeepAlive,
}


/// What a processor is created with. `R` is the type of the sample rate.
#[derive(Clone, Copy, Debug)]
pub struct ProcessorConfig<R> {
    pub sample_rate: R,
    pub min_block_size: usize,
    pub max_block_size: usize,
    pub process_mode: ProcessMode,
}

} // verus!
