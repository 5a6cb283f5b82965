use vstd::prelude::*;
use crate::vst3::subcategories::Subcategory;

verus! {

/// What a plugin declares to be loaded as a VST3 plugin.
pub trait Vst3Plugin {
    const CLASS_ID: u128;
    const SUBCATEGORIES: &'static [Subcategory];
    const EMAIL: Option<&'static str> = None;
}

/// What a plugin declares to be loaded as a CLAP plugin.
pub trait ClapPlugin {
    const CLAP_ID: &'static str;
    const MANUAL_URL: Option<&'static str> = None;
    const SUPPORT_URL: Option<&'static str> = None;
    const DESCRIPTION: Option<&'static str> = None;
}

/// What a plugin declares to be loaded as an Audio Unit.
pub trait Auv3Plugin {
    const AUV3_ID: &'static str;
}

/// What a plugin declares to run on its own.
pub trait StandalonePlugin {
    /// The events a block can hold without allocating.
    const EVENT_QUEUE_LEN: usize = 1024;
    /// The largest block the processor is given.
    const MAX_BLOCK_SIZE: usize = 4096;
}

} // verus!
