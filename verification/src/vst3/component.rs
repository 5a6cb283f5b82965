use vstd::prelude::*;

use crate::parameters::{find_group, group_position, ParameterGroup};
use crate::process::{ProcessMode, ProcessState};
use crate::vst3::error::Error;
use crate::vst3::note_expressions::MIDI_CHANNEL_COUNT;

verus! {

/// The speaker arrangement of a stereo bus.
pub const STEREO: u64 = 3;

pub const MEDIA_AUDIO: i32 = 0;

pub const MEDIA_EVENT: i32 = 1;

pub const DIRECTION_INPUT: i32 = 0;

pub const DIRECTION_OUTPUT: i32 = 1;

pub const BUS_TYPE_MAIN: i32 = 0;

pub const BUS_TYPE_AUX: i32 = 1;

pub const BUS_DEFAULT_ACTIVE: u32 = 1;

pub const SAMPLE_32: i32 = 0;

pub const IO_MODE_SIMPLE: i32 = 0;

pub const IO_MODE_ADVANCED: i32 = 1;

pub const IO_MODE_OFFLINE_PROCESSING: i32 = 2;

pub const CTRL_AFTER_TOUCH: i16 = 128;

pub const CTRL_PITCH_BEND: i16 = 129;

pub const CTRL_PROGRAM_CHANGE: i16 = 130;

pub const MIDI_CONTROLLER_COUNT: i16 = 128;

pub const PARAMETER_CAN_AUTOMATE: i32 = 1;

pub const PARAMETER_IS_HIDDEN: i32 = 16;

pub const PARAMETER_IS_BYPASS: i32 = 65536;

pub const NO_TAIL: u32 = 0;

pub const INFINITE_TAIL: u32 = 0xFFFF_FFFF;

pub const NO_PROGRAM_LIST_ID: i32 = -1;

pub const ROOT_UNIT_ID: i32 = 0;

pub const FIRST_UNIT_ID: i32 = 1;

/// The process context a plugin needs: continuous time, project time, bar position,
/// cycle, tempo, time signature and transport state.
pub const PROCESS_CONTEXT_REQUIREMENTS: u32 = 2 | 4 | 8 | 16 | 64 | 128 | 1024;

/// One stereo main input (and a stereo aux input for a plugin with one), one stereo output.
pub open spec fn arrangements_supported(has_aux_input: bool, inputs: Seq<u64>, outputs: Seq<u64>) -> bool {
    &&& inputs.len() == if has_aux_input {
        2int
    } else {
        1int
    }
    &&& outputs.len() == 1
    &&& inputs[0] == STEREO
    &&& has_aux_input ==> inputs[1] == STEREO
    &&& outputs[0] == STEREO
}

/// Checks the bus arrangements a host proposes: one stereo main input (and a stereo aux
/// input for a plugin with one), one stereo output. `None` stands for a missing list.
pub fn set_bus_arrangements(has_aux_input: bool, inputs: Option<&[u64]>, outputs: Option<&[u64]>) -> (result:
    Result<(), Error>)
    ensures
        inputs is None || outputs is None ==> result == Err::<(), Error>(Error::InvalidArgument),
        inputs is Some && outputs is Some ==> result == if arrangements_supported(
            has_aux_input,
            inputs.unwrap()@,
            outputs.unwrap()@,
        ) {
            Ok::<(), Error>(())
        } else {
            Err(Error::ResultFalse)
        },
{
    let (inputs, outputs) = match (inputs, outputs) {
        (Some(inputs), Some(outputs)) => (inputs, outputs),
        _ => {
            return Err(Error::InvalidArgument);
        },
    };
    let expected_inputs: usize = if has_aux_input {
        2
    } else {
        1
    };
    if inputs.len() != expected_inputs {
        return Err(Error::ResultFalse);
    }
    if outputs.len() != 1 {
        return Err(Error::ResultFalse);
    }
    if inputs[0] != STEREO {
        return Err(Error::ResultFalse);
    }
    if has_aux_input && inputs[1] != STEREO {
        return Err(Error::ResultFalse);
    }
    if outputs[0] != STEREO {
        return Err(Error::ResultFalse);
    }
    Ok(())
}

/// Only 32-bit float samples are processed.
pub fn can_process_sample_size(symbolic_sample_size: i32) -> (result: Result<(), Error>)
    ensures
        result == if symbolic_sample_size == SAMPLE_32 {
            Ok::<(), Error>(())
        } else {
            Err(Error::ResultFalse)
        },
{
    if symbolic_sample_size == SAMPLE_32 {
        Ok(())
    } else {
        Err(Error::ResultFalse)
    }
}

/// The process mode for a host's I/O mode: simple and advanced are real time.
pub fn process_mode_for_io_mode(mode: i32) -> (process_mode: Result<ProcessMode, Error>)
    ensures
        process_mode == if mode == IO_MODE_SIMPLE || mode == IO_MODE_ADVANCED {
            Ok::<ProcessMode, Error>(ProcessMode::Realtime)
        } else if mode == IO_MODE_OFFLINE_PROCESSING {
            Ok(ProcessMode::Offline)
        } else {
            Err(Error::InvalidArgument)
        },
{
    if mode == IO_MODE_SIMPLE || mode == IO_MODE_ADVANCED {
        Ok(ProcessMode::Realtime)
    } else if mode == IO_MODE_OFFLINE_PROCESSING {
        Ok(ProcessMode::Offline)
    } else {
        Err(Error::InvalidArgument)
    }
}

/// How many buses of a media type and direction a plugin has.
pub open spec fn bus_count_of(
    media_type: i32,
    direction: i32,
    has_aux_input: bool,
    has_note_input: bool,
    has_note_output: bool,
) -> i32 {
    if media_type == MEDIA_AUDIO {
        if direction == DIRECTION_INPUT && has_aux_input {
            2
        } else {
            1
        }
    } else if media_type == MEDIA_EVENT {
        if direction == DIRECTION_INPUT {
            if has_note_input {
                1
            } else {
                0
            }
        } else {
            if has_note_output {
                1
            } else {
                0
            }
        }
    } else {
        0
    }
}

pub fn bus_count(
    media_type: i32,
    direction: i32,
    has_aux_input: bool,
    has_note_input: bool,
    has_note_output: bool,
) -> (count: i32)
    ensures
        count == bus_count_of(media_type, direction, has_aux_input, has_note_input, has_note_output),
{
    let is_input = direction == DIRECTION_INPUT;
    if media_type == MEDIA_AUDIO {
        if is_input && has_aux_input {
            2
        } else {
            1
        }
    } else if media_type == MEDIA_EVENT {
        if is_input {
            if has_note_input {
                1
            } else {
                0
            }
        } else {
            if has_note_output {
                1
            } else {
                0
            }
        }
    } else {
        0
    }
}

/// A bus as the host sees it.
#[derive(Clone, Copy, Debug)]
pub struct BusInfo {
    pub media_type: i32,
    pub direction: i32,
    pub channel_count: i32,
    pub name: &'static str,
    pub bus_type: i32,
    pub flags: u32,
}

/// The description of bus `index`: bus 0 is the main bus, any other the aux bus; audio
/// buses are stereo and note buses have the 16 MIDI channels. An index at or past the
/// bus count, or a media type other than audio and events, is an invalid argument.
pub fn bus_info(
    media_type: i32,
    direction: i32,
    index: i32,
    has_aux_input: bool,
    has_note_input: bool,
    has_note_output: bool,
) -> (info: Result<BusInfo, Error>)
    ensures
        index >= bus_count_of(media_type, direction, has_aux_input, has_note_input, has_note_output)
            || (media_type != MEDIA_AUDIO && media_type != MEDIA_EVENT) ==> info == Err::<
            BusInfo,
            Error,
        >(Error::InvalidArgument),
        index < bus_count_of(media_type, direction, has_aux_input, has_note_input, has_note_output)
            && (media_type == MEDIA_AUDIO || media_type == MEDIA_EVENT) ==> (info matches Ok(b) && {
            &&& b.media_type == media_type
            &&& b.direction == direction
            &&& b.flags == BUS_DEFAULT_ACTIVE
            &&& b.name@ == if index == 0 {
                "Main"@
            } else {
                "Aux"@
            }
            &&& b.bus_type == if index == 0 {
                BUS_TYPE_MAIN
            } else {
                BUS_TYPE_AUX
            }
            &&& b.channel_count == if media_type == MEDIA_AUDIO {
                2i32
            } else {
                16i32
            }
        }),
{
    if index >= bus_count(media_type, direction, has_aux_input, has_note_input, has_note_output) {
        return Err(Error::InvalidArgument);
    }
    let (name, bus_type) = if index == 0 {
        ("Main", BUS_TYPE_MAIN)
    } else {
        ("Aux", BUS_TYPE_AUX)
    };
    let channel_count: i32 = if media_type == MEDIA_AUDIO {
        2
    } else if media_type == MEDIA_EVENT {
        16
    } else {
        return Err(Error::InvalidArgument);
    };
    Ok(BusInfo { media_type, direction, channel_count, name, bus_type, flags: BUS_DEFAULT_ACTIVE })
}

/// The MIDI messages that reach a plugin through reserved parameters.
#[derive(Clone, Copy, Debug, PartialEq, Eq, Structural)]
pub enum MidiParameter {
    PitchBend { channel: u8 },
    ChannelPressure { channel: u8 },
    ProgramChange { channel: u8 },
    ControlChange { channel: u8, controller: u8 },
}

/// The MIDI message a host's controller number stands for on a channel of bus 0. Another
/// bus, or a controller number with no message here, is refused (`ResultFalse`); a
/// channel outside the MIDI channels is an invalid argument.
pub fn midi_controller_assignment(bus_index: i32, channel: i16, midi_controller_number: i16) -> (parameter:
    Result<MidiParameter, Error>)
    ensures
        bus_index != 0 ==> parameter == Err::<MidiParameter, Error>(Error::ResultFalse),
        bus_index == 0 && !(0 <= channel < MIDI_CHANNEL_COUNT) ==> parameter == Err::<
            MidiParameter,
            Error,
        >(Error::InvalidArgument),
        bus_index == 0 && 0 <= channel < MIDI_CHANNEL_COUNT ==> parameter == if midi_controller_number
            == CTRL_PITCH_BEND {
            Ok::<MidiParameter, Error>(MidiParameter::PitchBend { channel: channel as u8 })
        } else if midi_controller_number == CTRL_AFTER_TOUCH {
            Ok(MidiParameter::ChannelPressure { channel: channel as u8 })
        } else if midi_controller_number == CTRL_PROGRAM_CHANGE {
            Ok(MidiParameter::ProgramChange { channel: channel as u8 })
        } else if 0 <= midi_controller_number < MIDI_CONTROLLER_COUNT {
            Ok(
                MidiParameter::ControlChange {
                    channel: channel as u8,
                    controller: midi_controller_number as u8,
                },
            )
        } else {
            Err(Error::ResultFalse)
        },
{
    if bus_index != 0 {
        return Err(Error::ResultFalse);
    }
    if !(0 <= channel && channel < MIDI_CHANNEL_COUNT) {
        return Err(Error::InvalidArgument);
    }
    let channel = channel as u8;
    if midi_controller_number == CTRL_PITCH_BEND {
        Ok(MidiParameter::PitchBend { channel })
    } else if midi_controller_number == CTRL_AFTER_TOUCH {
        Ok(MidiParameter::ChannelPressure { channel })
    } else if midi_controller_number == CTRL_PROGRAM_CHANGE {
        Ok(MidiParameter::ProgramChange { channel })
    } else if 0 <= midi_controller_number && midi_controller_number < MIDI_CONTROLLER_COUNT {
        Ok(MidiParameter::ControlChange { channel, controller: midi_controller_number as u8 })
    } else {
        Err(Error::ResultFalse)
    }
}

/// The flags of a parameter: the bypass parameter is automatable and marked as bypass, a
/// hidden one only hidden, any other automatable.
pub fn parameter_flags(is_bypass: bool, visible: bool) -> (flags: i32)
    ensures
        flags == if is_bypass {
            PARAMETER_IS_BYPASS | PARAMETER_CAN_AUTOMATE
        } else if !visible {
            PARAMETER_IS_HIDDEN
        } else {
            PARAMETER_CAN_AUTOMATE
        },
{
    if is_bypass {
        PARAMETER_IS_BYPASS | PARAMETER_CAN_AUTOMATE
    } else if !visible {
        PARAMETER_IS_HIDDEN
    } else {
        PARAMETER_CAN_AUTOMATE
    }
}

/// The unit (parameter group) of a parameter with this group path: the root unit for an
/// empty path, else the unit after the root that stands for the group.
pub fn parameter_group_id(groups: &[ParameterGroup], parameter_path: &String) -> (unit_id: i32)
    requires
        groups@.len() < i32::MAX,
        parameter_path@.len() > 0 ==> group_position(groups@, parameter_path@) is Some,
    ensures
        parameter_path@.len() == 0 ==> unit_id == ROOT_UNIT_ID,
        parameter_path@.len() > 0 ==> unit_id == FIRST_UNIT_ID + group_position(
            groups@,
            parameter_path@,
        ).unwrap(),
{
    if parameter_path.unicode_len() == 0 {
        return ROOT_UNIT_ID;
    }
    match find_group(groups, parameter_path) {
        Some(position) => FIRST_UNIT_ID + position as i32,
        None => ROOT_UNIT_ID,
    }
}

/// How many units a plugin has: the root unit and one per parameter group.
pub fn unit_count(groups: &[ParameterGroup]) -> (count: i32)
    requires
        groups@.len() < i32::MAX,
    ensures
        count == groups@.len() + 1,
{
    groups.len() as i32 + 1
}

/// A unit as the host sees it.
#[derive(Clone, Debug)]
pub struct UnitInfo {
    pub id: i32,
    pub program_list_id: i32,
    pub parent_unit_id: i32,
    pub name: String,
}

/// The unit at `unit_index`: the root unit first, then one unit per group, whose parent
/// is the unit of its parent group, or the root. An index out of range is an invalid
/// argument.
pub fn unit_info(groups: &[ParameterGroup], unit_index: i32) -> (info: Result<UnitInfo, Error>)
    requires
        groups@.len() < i32::MAX,
        forall|i: int|
            0 <= i < groups@.len() && (#[trigger] groups@[i]).parent is Some ==> group_position(
                groups@,
                groups@[i].parent.unwrap()@,
            ) is Some,
    ensures
        unit_index < 0 || unit_index > groups@.len() ==> (info matches Err(e) && e
            == Error::InvalidArgument),
        unit_index == ROOT_UNIT_ID ==> (info matches Ok(u) && u.id == ROOT_UNIT_ID && u.program_list_id
            == NO_PROGRAM_LIST_ID && u.parent_unit_id == -1 && u.name@ == "Root"@),
        0 < unit_index <= groups@.len() ==> (info matches Ok(u) && {
            let group = groups@[unit_index - FIRST_UNIT_ID];
            &&& u.id == unit_index
            &&& u.program_list_id == NO_PROGRAM_LIST_ID
            &&& u.name@ == group.name@
            &&& u.parent_unit_id == match group.parent {
                Some(parent) => FIRST_UNIT_ID + group_position(groups@, parent@).unwrap(),
                None => ROOT_UNIT_ID as int,
            }
        }),
{
    let unit_count = groups.len() + 1;
    if unit_index < 0 {
        return Err(Error::InvalidArgument);
    }
    if unit_index as usize >= unit_count {
        return Err(Error::InvalidArgument);
    }
    if unit_index == ROOT_UNIT_ID {
        return Ok(
            UnitInfo {
                id: unit_index,
                program_list_id: NO_PROGRAM_LIST_ID,
                parent_unit_id: -1,
                name: String::from_str("Root"),
            },
        );
    }
    let group = &groups[(unit_index - FIRST_UNIT_ID) as usize];
    let parent_unit_id = match &group.parent {
        Some(parent) => match find_group(groups, parent) {
            Some(position) => FIRST_UNIT_ID + position as i32,
            None => ROOT_UNIT_ID,
        },
        None => ROOT_UNIT_ID,
    };
    Ok(
        UnitInfo {
            id: unit_index,
            program_list_id: NO_PROGRAM_LIST_ID,
            parent_unit_id,
            name: group.name.clone(),
        },
    )
}

/// The tail a host is told after a block, or `None` for a processing error (the block
/// fails): none for normal output or a zero tail, the tail's length (kept to 32 bits),
/// or an infinite tail to keep the plugin alive.
pub fn tail_samples(state: ProcessState) -> (tail: Option<u32>)
    ensures
        tail == match state {
            ProcessState::Error => None,
            ProcessState::Normal => Some(NO_TAIL),
            ProcessState::Tail(t) => Some(
                if t == 0 {
                    NO_TAIL
                } else {
                    t as u32
                },
            ),
            ProcessState::KeepAlive => Some(INFINITE_TAIL),
        },
{
    match state {
        ProcessState::Error => None,
        ProcessState::Normal => Some(NO_TAIL),
        ProcessState::Tail(t) => {
            if t == 0 {
                Some(NO_TAIL)
            } else {
                Some(t as u32)
            }
        },
        ProcessState::KeepAlive => Some(INFINITE_TAIL),
    }
}

} // verus!
