use vstd::prelude::*;
use crate::process::ProcessMode;
use crate::format::Platform;

verus! {

pub const AUDIO_PORT_IS_MAIN: u32 = 1;

pub const AUDIO_PORT_REQUIRES_COMMON_SAMPLE_SIZE: u32 = 8;

/// The id that pairs with no port.
pub const INVALID_ID: u32 = 0xFFFF_FFFF;

pub const NOTE_DIALECT_CLAP: u32 = 1;

pub const PARAM_IS_STEPPED: u32 = 1;

pub const PARAM_IS_BYPASS: u32 = 16;

pub const PARAM_IS_AUTOMATABLE: u32 = 32;

pub const PARAM_IS_MODULATABLE: u32 = 1024;

pub const RENDER_REALTIME: i32 = 0;

pub const RENDER_OFFLINE: i32 = 1;

/// The extensions a plugin instance offers to its host.
#[derive(Clone, Copy, Debug, PartialEq, Eq, Structural)]
pub enum Extension {
    AudioPorts,
    Gui,
    Latency,
    NotePorts,
    Params,
    Render,
    State,
    Tail,
    TimerSupport,
}

/// The extension a host asks for by this id, if the plugin offers it.
pub open spec fn extension_of(id: Seq<char>) -> Option<Extension> {
    if id == "clap.audio-ports"@ {
        Some(Extension::AudioPorts)
    } else if id == "clap.gui"@ {
        Some(Extension::Gui)
    } else if id == "clap.latency"@ {
        Some(Extension::Latency)
    } else if id == "clap.note-ports"@ {
        Some(Extension::NotePorts)
    } else if id == "clap.params"@ {
        Some(Extension::Params)
    } else if id == "clap.render"@ {
        Some(Extension::Render)
    } else if id == "clap.state"@ {
        Some(Extension::State)
    } else if id == "clap.tail"@ {
        Some(Extension::Tail)
    } else if id == "clap.timer-support"@ {
        Some(Extension::TimerSupport)
    } else {
        None
    }
}

/// The CLAP id of each extension, as the CLAP headers name them.
pub open spec fn clap_id(extension: Extension) -> Seq<char> {
    match extension {
        Extension::AudioPorts => "clap.audio-ports"@,
        Extension::Gui => "clap.gui"@,
        Extension::Latency => "clap.latency"@,
        Extension::NotePorts => "clap.note-ports"@,
        Extension::Params => "clap.params"@,
        Extension::Render => "clap.render"@,
        Extension::State => "clap.state"@,
        Extension::Tail => "clap.tail"@,
        Extension::TimerSupport => "clap.timer-support"@,
    }
}

/// Every extension the plugin implements is found by its CLAP id, and an id that finds
/// an extension is that extension's id.
pub proof fn lemma_extensions_found_by_clap_id(extension: Extension, id: Seq<char>)
    ensures
        extension_of(clap_id(extension)) == Some(extension),
        extension_of(id) matches Some(e) ==> id == clap_id(e),
{
    reveal_strlit("clap.audio-ports");
    reveal_strlit("clap.gui");
    reveal_strlit("clap.latency");
    reveal_strlit("clap.note-ports");
    reveal_strlit("clap.params");
    reveal_strlit("clap.render");
    reveal_strlit("clap.state");
    reveal_strlit("clap.tail");
    reveal_strlit("clap.timer-support");
    assert("clap.audio-ports"@.len() == 16);
    assert("clap.gui"@.len() == 8);
    assert("clap.latency"@.len() == 12);
    assert("clap.note-ports"@.len() == 15);
    assert("clap.params"@.len() == 11);
    assert("clap.render"@.len() == 11);
    assert("clap.state"@.len() == 10);
    assert("clap.tail"@.len() == 9);
    assert("clap.timer-support"@.len() == 18);
    assert("clap.render"@[5] != "clap.params"@[5]);
}

/// The extension a host asks for by id; `None` for any id the plugin does not offer.
pub fn extension_for(id: &str) -> (extension: Option<Extension>)
    ensures
        extension == extension_of(id@),
{
    let id = id.to_owned();
    if id == String::from_str("clap.audio-ports") {
        Some(Extension::AudioPorts)
    } else if id == String::from_str("clap.gui") {
        Some(Extension::Gui)
    } else if id == String::from_str("clap.latency") {
        Some(Extension::Latency)
    } else if id == String::from_str("clap.note-ports") {
        Some(Extension::NotePorts)
    } else if id == String::from_str("clap.params") {
        Some(Extension::Params)
    } else if id == String::from_str("clap.render") {
        Some(Extension::Render)
    } else if id == String::from_str("clap.state") {
        Some(Extension::State)
    } else if id == String::from_str("clap.tail") {
        Some(Extension::Tail)
    } else if id == String::from_str("clap.timer-support") {
        Some(Extension::TimerSupport)
    } else {
        None
    }
}

/// The number of audio ports on one side: two inputs (main and auxiliary) for a plugin
/// with an auxiliary input, one port otherwise.
pub fn audio_port_count(is_input: bool, has_aux_input: bool) -> (count: u32)
    ensures
        count == if is_input && has_aux_input {
            2u32
        } else {
            1u32
        },
{
    if is_input && has_aux_input {
        2
    } else {
        1
    }
}

/// How an audio port is described to the host.
#[derive(Clone, Debug)]
pub struct AudioPortInfo {
    pub id: u32,
    pub channel_count: u32,
    pub flags: u32,
    pub in_place_pair: u32,
    pub name: String,
}

/// Whether a port index names a port on that side: the main port (index 0), or the
/// auxiliary input (index 1) of a plugin that has one.
pub open spec fn is_audio_port(index: u32, is_input: bool, has_aux_input: bool) -> bool {
    index == 0 || (index == 1 && is_input && has_aux_input)
}

/// The description of an audio port, `None` (the request fails) for an index that names
/// no port. The main port (index 0) is stereo, processes in place with its counterpart
/// and needs a common sample size; the auxiliary input (index 1) is stereo with no pair.
pub fn audio_port_info(index: u32, is_input: bool, has_aux_input: bool) -> (info: Option<AudioPortInfo>)
    ensures
        !is_audio_port(index, is_input, has_aux_input) ==> info is None,
        is_audio_port(index, is_input, has_aux_input) ==> (info matches Some(p) && {
            &&& p.id == index
            &&& p.channel_count == 2
            &&& index == 0 ==> {
                &&& p.flags == AUDIO_PORT_IS_MAIN | AUDIO_PORT_REQUIRES_COMMON_SAMPLE_SIZE
                &&& p.in_place_pair == 0
                &&& p.name@ == "Main"@
            }
            &&& index == 1 ==> {
                &&& p.flags == 0
                &&& p.in_place_pair == INVALID_ID
                &&& p.name@ == "Aux"@
            }
        }),
{
    if index == 0 {
        Some(
            AudioPortInfo {
                id: index,
                channel_count: 2,
                flags: AUDIO_PORT_IS_MAIN | AUDIO_PORT_REQUIRES_COMMON_SAMPLE_SIZE,
                in_place_pair: 0,
                name: String::from_str("Main"),
            },
        )
    } else if index == 1 && is_input && has_aux_input {
        Some(
            AudioPortInfo {
                id: index,
                channel_count: 2,
                flags: 0,
                in_place_pair: INVALID_ID,
                name: String::from_str("Aux"),
            },
        )
    } else {
        None
    }
}

/// The number of note ports on one side: one where the plugin takes (or sends) notes.
pub fn note_port_count(is_input: bool, has_note_input: bool, has_note_output: bool) -> (count: u32)
    ensures
        count == if (is_input && has_note_input) || (!is_input && has_note_output) {
            1u32
        } else {
            0u32
        },
{
    if is_input && has_note_input {
        1
    } else if !is_input && has_note_output {
        1
    } else {
        0
    }
}

/// How a note port is described to the host.
#[derive(Clone, Debug)]
pub struct NotePortInfo {
    pub id: u32,
    pub supported_dialects: u32,
    pub preferred_dialect: u32,
    pub name: String,
}

/// A note port speaks CLAP's own note dialect.
pub fn note_port_info(index: u32) -> (info: NotePortInfo)
    ensures
        info.id == index,
        info.supported_dialects == NOTE_DIALECT_CLAP,
        info.preferred_dialect == NOTE_DIALECT_CLAP,
        info.name@ == "Main"@,
{
    NotePortInfo {
        id: index,
        supported_dialects: NOTE_DIALECT_CLAP,
        preferred_dialect: NOTE_DIALECT_CLAP,
        name: String::from_str("Main"),
    }
}

/// The process mode a render mode sets; `None` (the request is refused) for an unknown
/// mode.
pub fn process_mode_for_render(mode: i32) -> (process_mode: Option<ProcessMode>)
    ensures
        process_mode == if mode == RENDER_REALTIME {
            Some(ProcessMode::Realtime)
        } else if mode == RENDER_OFFLINE {
            Some(ProcessMode::Offline)
        } else {
            None::<ProcessMode>
        },
{
    if mode == RENDER_REALTIME {
        Some(ProcessMode::Realtime)
    } else if mode == RENDER_OFFLINE {
        Some(ProcessMode::Offline)
    } else {
        None
    }
}

/// The flags of a parameter: every parameter can be automated and modulated; the bypass
/// parameter says so, and a parameter with steps is stepped.
pub open spec fn param_flags(is_bypass: bool, steps: u32) -> u32 {
    (PARAM_IS_AUTOMATABLE | PARAM_IS_MODULATABLE) | (if is_bypass {
        PARAM_IS_BYPASS
    } else {
        0u32
    }) | (if steps > 0 {
        PARAM_IS_STEPPED
    } else {
        0u32
    })
}

/// A parameter's range as the host sees it runs from 0 to its number of steps, or to 1
/// for a continuous parameter.
pub open spec fn param_max_value(steps: u32) -> u32 {
    if steps > 0 {
        steps
    } else {
        1
    }
}

/// How a parameter is described to the host, but for its default value.
#[derive(Clone, Debug)]
pub struct ClapParameterInfo {
    pub id: u32,
    pub flags: u32,
    pub min_value: u32,
    pub max_value: u32,
    pub name: String,
    pub module: String,
}

pub fn parameter_info(id: u32, is_bypass: bool, steps: u32, name: &String, path: &String) -> (info: ClapParameterInfo)
    ensures
        info.id == id,
        info.flags == param_flags(is_bypass, steps),
        info.min_value == 0,
        info.max_value == param_max_value(steps),
        info.name@ == name@,
        info.module@ == path@,
{
    let bypass_flag: u32 = if is_bypass {
        PARAM_IS_BYPASS
    } else {
        0
    };
    let stepped_flag: u32 = if steps > 0 {
        PARAM_IS_STEPPED
    } else {
        0
    };
    let flags: u32 = (PARAM_IS_AUTOMATABLE | PARAM_IS_MODULATABLE) | bypass_flag | stepped_flag;
    let max_value: u32 = if steps > 0 {
        steps
    } else {
        1
    };
    ClapParameterInfo {
        id,
        flags,
        min_value: 0,
        max_value,
        name: name.clone(),
        module: path.clone(),
    }
}

/// The host learns of parameters by index in the order of their ids.
pub fn parameter_at(sorted_ids: &[u32], index: u32) -> (id: Option<u32>)
    ensures
        id == if index < sorted_ids@.len() {
            Some(sorted_ids@[index as int])
        } else {
            None::<u32>
        },
{
    if (index as usize) < sorted_ids.len() {
        Some(sorted_ids[index as usize])
    } else {
        None
    }
}

/// The window API the plugin's editor embeds in on each platform.
pub open spec fn window_api_name(platform: Platform) -> Option<Seq<char>> {
    match platform {
        Platform::Windows => Some("win32"@),
        Platform::MacOs => Some("cocoa"@),
        Platform::Linux => Some("x11"@),
        Platform::Other => None,
    }
}

/// Editors are embedded (never floating) in a window of the platform's API.
pub fn is_gui_api_supported(api: &str, is_floating: bool, platform: Platform) -> (supported: bool)
    ensures
        supported == (!is_floating && window_api_name(platform) == Some(api@)),
{
    if is_floating {
        return false;
    }
    let api = api.to_owned();
    match platform {
        Platform::Windows => api == String::from_str("win32"),
        Platform::MacOs => api == String::from_str("cocoa"),
        Platform::Linux => api == String::from_str("x11"),
        Platform::Other => false,
    }
}

/// What creating the editor does: a floating editor is refused; otherwise the editor is
/// created, and on Linux, where the host drives the editor's frames, a frame timer is
/// registered if the host supports timers.
#[derive(Clone, Copy, Debug, PartialEq, Eq, Structural)]
pub struct GuiCreation {
    pub created: bool,
    pub register_timer: bool,
}

pub fn gui_creation(is_floating: bool, platform: Platform, host_has_timer_support: bool) -> (creation: GuiCreation)
    ensures
        creation == (GuiCreation {
            created: !is_floating,
            register_timer: !is_floating && platform == Platform::Linux && host_has_timer_support,
        }),
{
    if is_floating {
        return GuiCreation { created: false, register_timer: false };
    }
    let linux = match platform {
        Platform::Linux => true,
        _ => false,
    };
    GuiCreation { created: true, register_timer: linux && host_has_timer_support }
}

/// Whether destroying the editor unregisters its frame timer: on Linux, when a timer was
/// registered and the host supports timers.
pub fn unregisters_timer(platform: Platform, timer_id: Option<u32>, host_has_timer_support: bool) -> (unregister: bool)
    ensures
        unregister == (platform == Platform::Linux && timer_id is Some && host_has_timer_support),
{
    match platform {
        Platform::Linux => timer_id.is_some() && host_has_timer_support,
        _ => false,
    }
}

} // verus!
