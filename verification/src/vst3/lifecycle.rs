use vstd::prelude::*;
use crate::format::{HostInfo, PluginFormat};
use crate::process::{ProcessMode, ProcessorConfig};
use crate::text::{decode_utf16, utf16_decoded};
use super::component::{DIRECTION_INPUT, MEDIA_AUDIO};
use super::error::{Error, RESULT_OK};

verus! {

/// The units of a NUL-terminated UTF-16 buffer before its first NUL (all of them if it
/// has none).
pub open spec fn before_nul(units: Seq<u16>) -> Seq<u16> {
    if exists|i: int| 0 <= i < units.len() && units[i] == 0 {
        units.subrange(0, choose|i: int| 0 <= i < units.len() && units[i] == 0 && forall|j: int| 0 <= j < i ==> units[j] != 0)
    } else {
        units
    }
}

fn text_before_nul(units: &[u16]) -> (text: Vec<u16>)
    ensures
        text@ == before_nul(units@),
{
    let mut text: Vec<u16> = Vec::new();
    let mut i: usize = 0;
    while i < units.len()
        invariant
            0 <= i <= units@.len(),
            text@ == units@.subrange(0, i as int),
            forall|j: int| 0 <= j < i ==> units@[j] != 0,
        decreases units@.len() - i,
    {
        if units[i] == 0 {
            proof {
                let k = choose|k: int| 0 <= k < units@.len() && units@[k] == 0 && forall|j: int| 0 <= j < k ==> units@[j] != 0;
                assert(k == i) by {
                    if k < i {
                        assert(units@[k] != 0);
                    }
                    if k > i {
                        assert(units@[i as int] != 0);
                    }
                }
            }
            return text;
        }
        text.push(units[i]);
        i = i + 1;
    }
    proof {
        assert(units@.subrange(0, units@.len() as int) == units@);
    }
    text
}

/// The host's name as it gave it (a NUL-terminated UTF-16 buffer), if it gave one that
/// decodes.
pub fn host_name(get_name_result: i32, buffer: &[u16]) -> (name: Option<String>)
    ensures
        get_name_result != RESULT_OK ==> name is None,
        get_name_result == RESULT_OK ==> match name {
            Some(n) => utf16_decoded(before_nul(buffer@)) == Some(n@),
            None => utf16_decoded(before_nul(buffer@)) is None,
        },
{
    if get_name_result != RESULT_OK {
        return None;
    }
    let text = text_before_nul(buffer);
    decode_utf16(text.as_slice())
}

/// What a VST3 host tells the plugin about itself.
pub fn vst3_host_info(name: Option<String>) -> (info: HostInfo)
    ensures
        info.name == name,
        info.format == PluginFormat::Vst3,
{
    HostInfo { name, format: PluginFormat::Vst3 }
}

/// The processor a host's processing setup asks for: at its sample rate, in blocks up to
/// its largest, with no smallest block, in the component's process mode.
pub fn setup_config<R>(sample_rate: R, max_samples_per_block: i32, process_mode: ProcessMode) -> (config: ProcessorConfig<R>)
    ensures
        config.sample_rate == sample_rate,
        config.min_block_size == 0,
        config.max_block_size == max_samples_per_block as usize,
        config.process_mode == process_mode,
{
    ProcessorConfig {
        sample_rate,
        min_block_size: 0,
        max_block_size: max_samples_per_block as usize,
        process_mode,
    }
}

/// A processing setup needs an initialized plugin.
pub fn check_setup(has_plugin: bool) -> (checked: Result<(), Error>)
    ensures
        checked == if has_plugin {
            Ok::<(), Error>(())
        } else {
            Err(Error::ResultFalse)
        },
{
    if has_plugin {
        Ok(())
    } else {
        Err(Error::ResultFalse)
    }
}

/// Whether the host switches the auxiliary input (the second audio input of a plugin
/// that has one): then to the requested state. Other buses keep their state.
pub fn aux_activation(has_aux_input: bool, media_type: i32, direction: i32, index: i32, state: u8) -> (aux_active: Option<bool>)
    ensures
        aux_active == if has_aux_input && media_type == MEDIA_AUDIO && direction == DIRECTION_INPUT
            && index == 1 {
            Some(state != 0)
        } else {
            None::<bool>
        },
{
    if has_aux_input && media_type == MEDIA_AUDIO && direction == DIRECTION_INPUT && index == 1 {
        Some(state != 0)
    } else {
        None
    }
}

/// Processing switched on or off: returns whether processing is on, and whether the
/// processor (if there is one) is reset, which it is when processing stops.
pub fn set_processing(state: u8, has_processor: bool) -> (switched: (bool, bool))
    ensures
        switched == (state != 0, has_processor && state == 0),
{
    let processing = state != 0;
    (processing, has_processor && !processing)
}

/// The result of restoring or saving the plugin's state: it needs an initialized plugin
/// and a stream, and fails with the plugin's own failure.
pub fn state_transfer_result(has_plugin: bool, has_stream: bool, plugin_succeeded: bool) -> (result: Result<(), Error>)
    ensures
        result == if has_plugin && has_stream && plugin_succeeded {
            Ok::<(), Error>(())
        } else {
            Err(Error::ResultFalse)
        },
{
    if has_plugin && has_stream && plugin_succeeded {
        Ok(())
    } else {
        Err(Error::ResultFalse)
    }
}

} // verus!
