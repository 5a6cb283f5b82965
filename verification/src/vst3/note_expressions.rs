use vstd::prelude::*;

use crate::text::{decode_utf16, utf16_decoded};
use crate::vst3::error::Error;

verus! {

pub const VOLUME_TYPE_ID: u32 = 0;

pub const PAN_TYPE_ID: u32 = 1;

pub const TUNING_TYPE_ID: u32 = 2;

pub const VIBRATO_TYPE_ID: u32 = 3;

pub const EXPRESSION_TYPE_ID: u32 = 4;

pub const BRIGHTNESS_TYPE_ID: u32 = 5;

/// The type id that maps a physical control to no note expression.
pub const INVALID_TYPE_ID: u32 = 0xFFFF_FFFF;

/// Physical controls of an MPE-style controller: horizontal and vertical movement, pressure.
pub const PUI_X_MOVEMENT: u32 = 0;

pub const PUI_Y_MOVEMENT: u32 = 1;

pub const PUI_PRESSURE: u32 = 2;

/// The number of MIDI channels of a note bus.
pub const MIDI_CHANNEL_COUNT: i16 = 16;

/// The per-note expressions a plugin takes.
#[derive(Clone, Copy, Debug, PartialEq, Eq, Structural)]
pub struct NoteExpressions {
    pub volume: bool,
    pub pan: bool,
    pub tuning: bool,
    pub vibrato: bool,
    pub expression: bool,
    pub brightness: bool,
}

/// How a note expression's normalized value reads to users, which decides its default,
/// its display and its parsing: volume in dB (default 0 dB), pan in percent (default
/// center), tuning in semitones (default none), or the plain normalized value (default 0).
#[derive(Clone, Copy, Debug, PartialEq, Eq, Structural)]
pub enum ValueKind {
    Volume,
    Pan,
    Tuning,
    Plain,
}

/// A standard VST3 note expression as the plugin describes it to the host.
#[derive(Clone, Copy, Debug)]
pub struct NoteExpressionDescriptor {
    pub type_id: u32,
    pub title: &'static str,
    pub short_title: &'static str,
    pub units: &'static str,
    pub value_kind: ValueKind,
}

/// The standard type ids in the order the host sees them.
pub open spec fn standard_type_ids() -> Seq<u32> {
    seq![
        VOLUME_TYPE_ID,
        PAN_TYPE_ID,
        TUNING_TYPE_ID,
        VIBRATO_TYPE_ID,
        EXPRESSION_TYPE_ID,
        BRIGHTNESS_TYPE_ID,
    ]
}

/// Whether the plugin takes the expression with this type id.
pub open spec fn is_enabled(note_expressions: NoteExpressions, type_id: u32) -> bool {
    if type_id == VOLUME_TYPE_ID {
        note_expressions.volume
    } else if type_id == PAN_TYPE_ID {
        note_expressions.pan
    } else if type_id == TUNING_TYPE_ID {
        note_expressions.tuning
    } else if type_id == VIBRATO_TYPE_ID {
        note_expressions.vibrato
    } else if type_id == EXPRESSION_TYPE_ID {
        note_expressions.expression
    } else if type_id == BRIGHTNESS_TYPE_ID {
        note_expressions.brightness
    } else {
        false
    }
}

/// The type ids of the enabled expressions, in the order the host sees them.
pub open spec fn enabled_type_ids(note_expressions: NoteExpressions) -> Seq<u32> {
    standard_type_ids().filter(|type_id: u32| is_enabled(note_expressions, type_id))
}

/// What a descriptor says, by type id: title, short title, units and value kind.
pub open spec fn describes(descriptor: NoteExpressionDescriptor, type_id: u32) -> bool {
    &&& descriptor.type_id == type_id
    &&& if type_id == VOLUME_TYPE_ID {
        descriptor.title@ == "Volume"@ && descriptor.short_title@ == "Volume"@ && descriptor.units@
            == "dB"@ && descriptor.value_kind == ValueKind::Volume
    } else if type_id == PAN_TYPE_ID {
        descriptor.title@ == "Panning"@ && descriptor.short_title@ == "Panning"@
            && descriptor.units@ == "%"@ && descriptor.value_kind == ValueKind::Pan
    } else if type_id == TUNING_TYPE_ID {
        descriptor.title@ == "Tuning"@ && descriptor.short_title@ == "Tuning"@
            && descriptor.units@ == "st"@ && descriptor.value_kind == ValueKind::Tuning
    } else if type_id == VIBRATO_TYPE_ID {
        descriptor.title@ == "Vibrato"@ && descriptor.short_title@ == "Vibrato"@
            && descriptor.units@ == ""@ && descriptor.value_kind == ValueKind::Plain
    } else if type_id == EXPRESSION_TYPE_ID {
        descriptor.title@ == "Expression"@ && descriptor.short_title@ == "Expression"@
            && descriptor.units@ == ""@ && descriptor.value_kind == ValueKind::Plain
    } else {
        descriptor.title@ == "Brightness"@ && descriptor.short_title@ == "Brightness"@
            && descriptor.units@ == ""@ && descriptor.value_kind == ValueKind::Plain
    }
}

impl NoteExpressions {
    pub fn volume(&self) -> (b: bool)
        ensures
            b == self.volume,
    {
        self.volume
    }

    pub fn pan(&self) -> (b: bool)
        ensures
            b == self.pan,
    {
        self.pan
    }

    pub fn tuning(&self) -> (b: bool)
        ensures
            b == self.tuning,
    {
        self.tuning
    }

    pub fn vibrato(&self) -> (b: bool)
        ensures
            b == self.vibrato,
    {
        self.vibrato
    }

    pub fn expression(&self) -> (b: bool)
        ensures
            b == self.expression,
    {
        self.expression
    }

    pub fn brightness(&self) -> (b: bool)
        ensures
            b == self.brightness,
    {
        self.brightness
    }

    fn enables(&self, type_id: u32) -> (b: bool)
        ensures
            b == is_enabled(*self, type_id),
    {
        if type_id == VOLUME_TYPE_ID {
            self.volume
        } else if type_id == PAN_TYPE_ID {
            self.pan
        } else if type_id == TUNING_TYPE_ID {
            self.tuning
        } else if type_id == VIBRATO_TYPE_ID {
            self.vibrato
        } else if type_id == EXPRESSION_TYPE_ID {
            self.expression
        } else if type_id == BRIGHTNESS_TYPE_ID {
            self.brightness
        } else {
            false
        }
    }
}

/// The descriptor of a standard type id.
fn standard_descriptor(type_id: u32) -> (descriptor: NoteExpressionDescriptor)
    requires
        type_id <= BRIGHTNESS_TYPE_ID,
    ensures
        describes(descriptor, type_id),
{
    if type_id == VOLUME_TYPE_ID {
        NoteExpressionDescriptor {
            type_id,
            title: "Volume",
            short_title: "Volume",
            units: "dB",
            value_kind: ValueKind::Volume,
        }
    } else if type_id == PAN_TYPE_ID {
        NoteExpressionDescriptor {
            type_id,
            title: "Panning",
            short_title: "Panning",
            units: "%",
            value_kind: ValueKind::Pan,
        }
    } else if type_id == TUNING_TYPE_ID {
        NoteExpressionDescriptor {
            type_id,
            title: "Tuning",
            short_title: "Tuning",
            units: "st",
            value_kind: ValueKind::Tuning,
        }
    } else if type_id == VIBRATO_TYPE_ID {
        NoteExpressionDescriptor {
            type_id,
            title: "Vibrato",
            short_title: "Vibrato",
            units: "",
            value_kind: ValueKind::Plain,
        }
    } else if type_id == EXPRESSION_TYPE_ID {
        NoteExpressionDescriptor {
            type_id,
            title: "Expression",
            short_title: "Expression",
            units: "",
            value_kind: ValueKind::Plain,
        }
    } else {
        NoteExpressionDescriptor {
            type_id,
            title: "Brightness",
            short_title: "Brightness",
            units: "",
            value_kind: ValueKind::Plain,
        }
    }
}

impl NoteExpressionDescriptor {
    /// The enabled expressions, in the order the host sees them.
    pub fn enabled_expressions(note_expressions: NoteExpressions) -> (descriptors: Vec<Self>)
        ensures
            descriptors@.len() == enabled_type_ids(note_expressions).len(),
            forall|i: int|
                0 <= i < descriptors@.len() ==> describes(
                    #[trigger] descriptors@[i],
                    enabled_type_ids(note_expressions)[i],
                ),
    {
        let mut descriptors: Vec<Self> = Vec::new();
        let mut type_id: u32 = 0;
        while type_id <= BRIGHTNESS_TYPE_ID
            invariant
                0 <= type_id <= BRIGHTNESS_TYPE_ID + 1,
                descriptors@.len() == standard_type_ids().subrange(0, type_id as int).filter(
                    |t: u32| is_enabled(note_expressions, t),
                ).len(),
                forall|i: int|
                    0 <= i < descriptors@.len() ==> describes(
                        #[trigger] descriptors@[i],
                        standard_type_ids().subrange(0, type_id as int).filter(
                            |t: u32| is_enabled(note_expressions, t),
                        )[i],
                    ),
            decreases BRIGHTNESS_TYPE_ID + 1 - type_id,
        {
            proof {
                let prefix = standard_type_ids().subrange(0, type_id as int);
                let next = standard_type_ids().subrange(0, type_id + 1);
                assert(next == prefix.push(type_id));
                assert(next.drop_last() == prefix);
                reveal_with_fuel(Seq::filter, 1);
            }
            if note_expressions.enables(type_id) {
                descriptors.push(standard_descriptor(type_id));
            }
            type_id = type_id + 1;
        }
        proof {
            assert(standard_type_ids().subrange(0, 6) == standard_type_ids());
        }
        descriptors
    }

    /// The descriptor of an expression the plugin takes, by type id.
    pub fn find(note_expressions: NoteExpressions, type_id: u32) -> (descriptor: Option<Self>)
        ensures
            is_enabled(note_expressions, type_id) ==> (descriptor matches Some(d) && describes(
                d,
                type_id,
            )),
            !is_enabled(note_expressions, type_id) ==> descriptor is None,
    {
        if note_expressions.enables(type_id) {
            Some(standard_descriptor(type_id))
        } else {
            None
        }
    }
}

/// A note-expression request addresses the note bus (bus 0) of a plugin with note input,
/// on one of its MIDI channels.
pub open spec fn addresses_note_channel(has_note_input: bool, bus_index: i32, channel: i16) -> bool {
    has_note_input && bus_index == 0 && 0 <= channel < MIDI_CHANNEL_COUNT
}

fn is_note_channel(has_note_input: bool, bus_index: i32, channel: i16) -> (b: bool)
    ensures
        b == addresses_note_channel(has_note_input, bus_index, channel),
{
    has_note_input && bus_index == 0 && 0 <= channel && channel < MIDI_CHANNEL_COUNT
}

/// How many note expressions a channel has: the enabled ones, on a valid note channel.
pub fn note_expression_count(
    has_note_input: bool,
    bus_index: i32,
    channel: i16,
    note_expressions: NoteExpressions,
) -> (count: i32)
    ensures
        count == if addresses_note_channel(has_note_input, bus_index, channel) {
            enabled_type_ids(note_expressions).len() as i32
        } else {
            0
        },
{
    if !is_note_channel(has_note_input, bus_index, channel) {
        return 0;
    }
    let descriptors = NoteExpressionDescriptor::enabled_expressions(note_expressions);
    proof {
        lemma_enabled_type_ids_len(note_expressions);
    }
    descriptors.len() as i32
}

/// Each standard note expression is offered exactly when the plugin's own flag for it is
/// set: volume, panning, tuning, vibrato, expression and brightness by their type ids, in
/// that order of ids; no other type id is ever offered.
pub proof fn lemma_offered_by_own_flag(ne: NoteExpressions, type_id: u32)
    ensures
        enabled_type_ids(ne).contains(VOLUME_TYPE_ID) <==> ne.volume,
        enabled_type_ids(ne).contains(PAN_TYPE_ID) <==> ne.pan,
        enabled_type_ids(ne).contains(TUNING_TYPE_ID) <==> ne.tuning,
        enabled_type_ids(ne).contains(VIBRATO_TYPE_ID) <==> ne.vibrato,
        enabled_type_ids(ne).contains(EXPRESSION_TYPE_ID) <==> ne.expression,
        enabled_type_ids(ne).contains(BRIGHTNESS_TYPE_ID) <==> ne.brightness,
        type_id > BRIGHTNESS_TYPE_ID ==> !enabled_type_ids(ne).contains(type_id),
{
    broadcast use vstd::seq_lib::group_filter_ensures;

    let pred = |t: u32| is_enabled(ne, t);
    let ids = standard_type_ids();
    assert(ids[0] == VOLUME_TYPE_ID);
    assert(ids[1] == PAN_TYPE_ID);
    assert(ids[2] == TUNING_TYPE_ID);
    assert(ids[3] == VIBRATO_TYPE_ID);
    assert(ids[4] == EXPRESSION_TYPE_ID);
    assert(ids[5] == BRIGHTNESS_TYPE_ID);
    assert(ids.contains(VOLUME_TYPE_ID));
    assert(ids.contains(PAN_TYPE_ID));
    assert(ids.contains(TUNING_TYPE_ID));
    assert(ids.contains(VIBRATO_TYPE_ID));
    assert(ids.contains(EXPRESSION_TYPE_ID));
    assert(ids.contains(BRIGHTNESS_TYPE_ID));
    if type_id > BRIGHTNESS_TYPE_ID && enabled_type_ids(ne).contains(type_id) {
        assert(pred(type_id));
    }
}

pub proof fn lemma_enabled_type_ids_len(note_expressions: NoteExpressions)
    ensures
        enabled_type_ids(note_expressions).len() <= 6,
{
    standard_type_ids().lemma_filter_len(|t: u32| is_enabled(note_expressions, t));
}

/// The description of a note expression that a host asks for, without the value range
/// fields (0 to 1, the default given by `value_kind`).
#[derive(Clone, Copy, Debug)]
pub struct NoteExpressionTypeInfo {
    pub type_id: u32,
    pub unit_id: i32,
    pub associated_parameter_id: u32,
    pub flags: i32,
    pub step_count: i32,
    pub title: &'static str,
    pub short_title: &'static str,
    pub units: &'static str,
    pub value_kind: ValueKind,
}

/// The type info a descriptor fills in: no unit, no associated parameter, no flags, continuous.
pub open spec fn type_info_of(descriptor: NoteExpressionDescriptor) -> NoteExpressionTypeInfo {
    NoteExpressionTypeInfo {
        type_id: descriptor.type_id,
        unit_id: -1i32,
        associated_parameter_id: u32::MAX,
        flags: 0i32,
        step_count: 0i32,
        title: descriptor.title,
        short_title: descriptor.short_title,
        units: descriptor.units,
        value_kind: descriptor.value_kind,
    }
}

impl NoteExpressionDescriptor {
    /// The host's note expression type info for this descriptor.
    pub fn fill_type_info(&self) -> (info: NoteExpressionTypeInfo)
        ensures
            info == type_info_of(*self),
    {
        NoteExpressionTypeInfo {
            type_id: self.type_id,
            unit_id: -1,
            associated_parameter_id: u32::MAX,
            flags: 0,
            step_count: 0,
            title: self.title,
            short_title: self.short_title,
            units: self.units,
            value_kind: self.value_kind,
        }
    }
}

/// The type info of the expression at `index` among a channel's enabled ones. A request off
/// the note channels, without a place for the answer (`has_info`), or with an index out of
/// range is an invalid argument.
pub fn note_expression_info(
    has_note_input: bool,
    bus_index: i32,
    channel: i16,
    note_expression_index: i32,
    has_info: bool,
    note_expressions: NoteExpressions,
) -> (info: Result<NoteExpressionTypeInfo, Error>)
    ensures
        !addresses_note_channel(has_note_input, bus_index, channel) || !has_info
            || note_expression_index < 0 || note_expression_index >= enabled_type_ids(
            note_expressions,
        ).len() ==> info == Err::<NoteExpressionTypeInfo, Error>(Error::InvalidArgument),
        addresses_note_channel(has_note_input, bus_index, channel) && has_info && 0
            <= note_expression_index < enabled_type_ids(note_expressions).len() ==> (info matches Ok(
            i,
        ) && exists|d: NoteExpressionDescriptor|
            describes(d, enabled_type_ids(note_expressions)[note_expression_index as int]) && i
                == type_info_of(d)),
{
    if !is_note_channel(has_note_input, bus_index, channel) || !has_info {
        return Err(Error::InvalidArgument);
    }
    if note_expression_index < 0 {
        return Err(Error::InvalidArgument);
    }
    let index = note_expression_index as usize;
    let descriptors = NoteExpressionDescriptor::enabled_expressions(note_expressions);
    if index >= descriptors.len() {
        return Err(Error::InvalidArgument);
    }
    let info = descriptors[index].fill_type_info();
    proof {
        let d = descriptors@[index as int];
        assert(describes(d, enabled_type_ids(note_expressions)[note_expression_index as int]));
    }
    Ok(info)
}

/// The descriptor for showing a value of the expression `id` as text: only an expression
/// the plugin takes resolves, on a note channel and with a place for the text.
pub fn note_expression_for_display(
    has_note_input: bool,
    bus_index: i32,
    channel: i16,
    id: u32,
    has_string: bool,
    note_expressions: NoteExpressions,
) -> (descriptor: Result<NoteExpressionDescriptor, Error>)
    ensures
        addresses_note_channel(has_note_input, bus_index, channel) && has_string && is_enabled(
            note_expressions,
            id,
        ) ==> (descriptor matches Ok(d) && describes(d, id)),
        !(addresses_note_channel(has_note_input, bus_index, channel) && has_string && is_enabled(
            note_expressions,
            id,
        )) ==> descriptor == Err::<NoteExpressionDescriptor, Error>(Error::InvalidArgument),
{
    if !is_note_channel(has_note_input, bus_index, channel) || !has_string {
        return Err(Error::InvalidArgument);
    }
    match NoteExpressionDescriptor::find(note_expressions, id) {
        Some(descriptor) => Ok(descriptor),
        None => Err(Error::InvalidArgument),
    }
}

/// The descriptor and decoded text for reading a value of the expression `id` from the
/// host's UTF-16 text. Besides the checks for display, text that is not valid UTF-16 is
/// an invalid argument; `text` is `None` where the host passed none.
pub fn note_expression_for_text(
    has_note_input: bool,
    bus_index: i32,
    channel: i16,
    id: u32,
    text: Option<&[u16]>,
    has_value: bool,
    note_expressions: NoteExpressions,
) -> (request: Result<(NoteExpressionDescriptor, String), Error>)
    ensures
        match request {
            Ok((d, s)) => {
                &&& addresses_note_channel(has_note_input, bus_index, channel)
                &&& has_value
                &&& is_enabled(note_expressions, id)
                &&& describes(d, id)
                &&& text matches Some(units) && utf16_decoded(units@) == Some(s@)
            },
            Err(e) => {
                &&& e == Error::InvalidArgument
                &&& !addresses_note_channel(has_note_input, bus_index, channel) || !has_value
                    || !is_enabled(note_expressions, id) || text is None || utf16_decoded(
                    text.unwrap()@,
                ) is None
            },
        },
{
    if !is_note_channel(has_note_input, bus_index, channel) || !has_value {
        return Err(Error::InvalidArgument);
    }
    let units = match text {
        Some(units) => units,
        None => {
            return Err(Error::InvalidArgument);
        },
    };
    let descriptor = match NoteExpressionDescriptor::find(note_expressions, id) {
        Some(descriptor) => descriptor,
        None => {
            return Err(Error::InvalidArgument);
        },
    };
    match decode_utf16(units) {
        Some(decoded) => Ok((descriptor, decoded)),
        None => Err(Error::InvalidArgument),
    }
}

/// The note expression a physical control drives: horizontal movement the tuning,
/// vertical movement the brightness, each if the plugin takes it; pressure, which comes as
/// poly pressure events, and any other control none.
pub open spec fn physical_ui_target(physical_ui_type_id: u32, note_expressions: NoteExpressions) -> u32 {
    if physical_ui_type_id == PUI_X_MOVEMENT && note_expressions.tuning {
        TUNING_TYPE_ID
    } else if physical_ui_type_id == PUI_Y_MOVEMENT && note_expressions.brightness {
        BRIGHTNESS_TYPE_ID
    } else {
        INVALID_TYPE_ID
    }
}

/// The note expression for each physical control of a host's mapping list, on a note
/// channel; `list` is `None` where the host passed none.
pub fn physical_ui_mapping(
    has_note_input: bool,
    bus_index: i32,
    channel: i16,
    list: Option<&[u32]>,
    note_expressions: NoteExpressions,
) -> (mapping: Result<Vec<u32>, Error>)
    ensures
        !addresses_note_channel(has_note_input, bus_index, channel) || list is None ==> mapping
            == Err::<Vec<u32>, Error>(Error::InvalidArgument),
        addresses_note_channel(has_note_input, bus_index, channel) && list is Some ==> (mapping matches Ok(
            targets,
        ) && targets@.len() == list.unwrap()@.len() && forall|i: int|
            0 <= i < targets@.len() ==> #[trigger] targets@[i] == physical_ui_target(
                list.unwrap()@[i],
                note_expressions,
            )),
{
    if !is_note_channel(has_note_input, bus_index, channel) {
        return Err(Error::InvalidArgument);
    }
    let list = match list {
        Some(list) => list,
        None => {
            return Err(Error::InvalidArgument);
        },
    };
    let mut targets: Vec<u32> = Vec::new();
    let mut i: usize = 0;
    while i < list.len()
        invariant
            0 <= i <= list@.len(),
            targets@.len() == i,
            forall|j: int|
                0 <= j < i ==> #[trigger] targets@[j] == physical_ui_target(list@[j], note_expressions),
        decreases list@.len() - i,
    {
        let ui_type = list[i];
        let target = if ui_type == PUI_X_MOVEMENT {
            if note_expressions.tuning() {
                TUNING_TYPE_ID
            } else {
                INVALID_TYPE_ID
            }
        } else if ui_type == PUI_Y_MOVEMENT {
            if note_expressions.brightness() {
                BRIGHTNESS_TYPE_ID
            } else {
                INVALID_TYPE_ID
            }
        } else if ui_type == PUI_PRESSURE {
            INVALID_TYPE_ID
        } else {
            INVALID_TYPE_ID
        };
        targets.push(target);
        i = i + 1;
    }
    Ok(targets)
}

} // verus!
