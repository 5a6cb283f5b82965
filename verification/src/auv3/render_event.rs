use vstd::prelude::*;

verus! {

/// The kinds of render events an Audio Unit host passes with a block.
#[derive(Clone, Copy, Debug, PartialEq, Eq, Structural)]
pub enum AURenderEventType {
    AURenderEventParameter,
    AURenderEventParameterRamp,
    AURenderEventMIDI,
    AURenderEventMIDISysEx,
    AURenderEventMIDIEventList,
}

/// The byte by which the host tags each kind of render event.
pub open spec fn render_event_code(event_type: AURenderEventType) -> u8 {
    match event_type {
        AURenderEventType::AURenderEventParameter => 1,
        AURenderEventType::AURenderEventParameterRamp => 2,
        AURenderEventType::AURenderEventMIDI => 8,
        AURenderEventType::AURenderEventMIDISysEx => 9,
        AURenderEventType::AURenderEventMIDIEventList => 10,
    }
}

/// The kind of render event a tag byte stands for, if any.
pub open spec fn render_event_type_of(code: u8) -> Option<AURenderEventType> {
    if code == 1 {
        Some(AURenderEventType::AURenderEventParameter)
    } else if code == 2 {
        Some(AURenderEventType::AURenderEventParameterRamp)
    } else if code == 8 {
        Some(AURenderEventType::AURenderEventMIDI)
    } else if code == 9 {
        Some(AURenderEventType::AURenderEventMIDISysEx)
    } else if code == 10 {
        Some(AURenderEventType::AURenderEventMIDIEventList)
    } else {
        None
    }
}

impl AURenderEventType {
    /// The tag byte of this kind of event.
    pub fn code(&self) -> (code: u8)
        ensures
            code == render_event_code(*self),
    {
        match self {
            AURenderEventType::AURenderEventParameter => 1,
            AURenderEventType::AURenderEventParameterRamp => 2,
            AURenderEventType::AURenderEventMIDI => 8,
            AURenderEventType::AURenderEventMIDISysEx => 9,
            AURenderEventType::AURenderEventMIDIEventList => 10,
        }
    }

    /// The kind of event a tag byte stands for; `None` for a byte that tags none.
    pub fn from_code(code: u8) -> (event_type: Option<AURenderEventType>)
        ensures
            event_type == render_event_type_of(code),
    {
        if code == 1 {
            Some(AURenderEventType::AURenderEventParameter)
        } else if code == 2 {
            Some(AURenderEventType::AURenderEventParameterRamp)
        } else if code == 8 {
            Some(AURenderEventType::AURenderEventMIDI)
        } else if code == 9 {
            Some(AURenderEventType::AURenderEventMIDISysEx)
        } else if code == 10 {
            Some(AURenderEventType::AURenderEventMIDIEventList)
        } else {
            None
        }
    }

    /// Parameter changes, immediate or ramped, are the render events a plugin reads.
    pub fn is_parameter(&self) -> (parameter: bool)
        ensures
            parameter == (*self == AURenderEventType::AURenderEventParameter || *self
                == AURenderEventType::AURenderEventParameterRamp),
    {
        match self {
            AURenderEventType::AURenderEventParameter => true,
            AURenderEventType::AURenderEventParameterRamp => true,
            _ => false,
        }
    }
}

/// Each kind of render event has its own tag, and a tag gives back the kind it was made
/// from; a byte is a tag exactly when it is the tag of some kind.
pub proof fn lemma_render_event_code_round_trip(event_type: AURenderEventType, code: u8)
    ensures
        render_event_type_of(render_event_code(event_type)) == Some(event_type),
        render_event_type_of(code) matches Some(t) ==> render_event_code(t) == code,
{
}

/// The MIDI protocol version of a MIDI event list.
#[derive(Clone, Copy, Debug, PartialEq, Eq, Structural)]
pub enum MIDIProtocolId {
    Protocol1_0,
    Protocol2_0,
}

/// The number by which the host names a MIDI protocol.
pub open spec fn protocol_code(protocol: MIDIProtocolId) -> i32 {
    match protocol {
        MIDIProtocolId::Protocol1_0 => 1,
        MIDIProtocolId::Protocol2_0 => 2,
    }
}

impl MIDIProtocolId {
    pub fn code(&self) -> (code: i32)
        ensures
            code == protocol_code(*self),
    {
        match self {
            MIDIProtocolId::Protocol1_0 => 1,
            MIDIProtocolId::Protocol2_0 => 2,
        }
    }

    /// The protocol a number names; `None` for any other number.
    pub fn from_code(code: i32) -> (protocol: Option<MIDIProtocolId>)
        ensures
            protocol matches Some(p) ==> protocol_code(p) == code,
            protocol is None ==> code != 1 && code != 2,
    {
        if code == 1 {
            Some(MIDIProtocolId::Protocol1_0)
        } else if code == 2 {
            Some(MIDIProtocolId::Protocol2_0)
        } else {
            None
        }
    }
}

/// One packet of a MIDI event list: a time stamp and up to 64 words of universal MIDI packets.
pub struct MIDIEventPacket {
    pub time_stamp: u64,
    pub word_count: u32,
    pub words: [u32; 64],
}

/// A MIDI event list as a render event carries it, with its first packet inline.
pub struct MIDIEventList {
    pub protocol: MIDIProtocolId,
    pub num_packets: u32,
    pub packet: [MIDIEventPacket; 1],
}

} // verus!
