use vstd::prelude::*;

verus! {

/// A MIDI message a standalone plugin acts on, with its raw 7-bit quantities; velocity
/// and bend are scaled to the plugin's units where the message becomes an event.
#[derive(Clone, Copy, Debug, PartialEq, Eq, Structural)]
pub enum MidiMessage {
    NoteOn { channel: i16, key: i16, velocity: u8 },
    NoteOff { channel: i16, key: i16, velocity: u8 },
    /// The bend relative to the centre, from -8192 up.
    PitchBend { channel: i16, bend: i16 },
}

pub open spec fn status_of(first: u8) -> u8 {
    first & 0xF0
}

pub open spec fn channel_of(first: u8) -> i16 {
    (first & 0x0F) as i16
}

/// The bend of a pitch-bend message: its two data bytes joined (the second above the
/// first by 7 bits), less the centre.
pub open spec fn bend_of(lsb: u8, msb: u8) -> int {
    (((msb as u16) << 7u16) | (lsb as u16)) as int - 8192
}

/// The message a run of MIDI bytes stands for. A note-on with velocity 0 is a note-off;
/// a note-off without a velocity byte has velocity 0. Anything else is ignored.
pub open spec fn midi_message_of(data: Seq<u8>) -> Option<MidiMessage> {
    if data.len() < 2 {
        None
    } else {
        let status = status_of(data[0]);
        let channel = channel_of(data[0]);
        let key = data[1] as i16;
        let velocity: u8 = if data.len() >= 3 {
            data[2]
        } else {
            0
        };
        if status == 0x90 && data.len() >= 3 && data[2] > 0 {
            Some(MidiMessage::NoteOn { channel, key, velocity })
        } else if status == 0x80 || status == 0x90 {
            Some(MidiMessage::NoteOff { channel, key, velocity })
        } else if status == 0xE0 && data.len() >= 3 {
            Some(MidiMessage::PitchBend { channel, bend: bend_of(data[1], data[2]) as i16 })
        } else {
            None
        }
    }
}

/// Note messages read back as what they encode: a note-on with a velocity is that note
/// on, a note-on with velocity 0 and a note-off are that note off, each on the channel of
/// the status byte's low nibble.
pub proof fn lemma_note_messages_read_back(channel: u8, key: u8, velocity: u8)
    requires
        channel < 16,
        key < 128,
        velocity < 128,
    ensures
        velocity > 0 ==> midi_message_of(seq![0x90u8 | channel, key, velocity]) == Some(
            MidiMessage::NoteOn { channel: channel as i16, key: key as i16, velocity },
        ),
        midi_message_of(seq![0x90u8 | channel, key, 0u8]) == Some(
            MidiMessage::NoteOff { channel: channel as i16, key: key as i16, velocity: 0 },
        ),
        midi_message_of(seq![0x80u8 | channel, key, velocity]) == Some(
            MidiMessage::NoteOff { channel: channel as i16, key: key as i16, velocity },
        ),
        midi_message_of(seq![0x80u8 | channel, key]) == Some(
            MidiMessage::NoteOff { channel: channel as i16, key: key as i16, velocity: 0 },
        ),
{
    assert((0x90u8 | channel) & 0xF0 == 0x90 && (0x90u8 | channel) & 0x0F == channel) by (bit_vector)
        requires
            channel < 16,
    ;
    assert((0x80u8 | channel) & 0xF0 == 0x80 && (0x80u8 | channel) & 0x0F == channel) by (bit_vector)
        requires
            channel < 16,
    ;
}

/// A pitch-bend message reads back as its 14-bit value, the second data byte the high
/// seven bits, less the centre 8192.
pub proof fn lemma_pitch_bend_reads_back(channel: u8, lsb: u8, msb: u8)
    requires
        channel < 16,
        lsb < 128,
        msb < 128,
    ensures
        midi_message_of(seq![0xE0u8 | channel, lsb, msb]) == Some(
            MidiMessage::PitchBend { channel: channel as i16, bend: (msb * 128 + lsb - 8192) as i16 },
        ),
{
    assert((0xE0u8 | channel) & 0xF0 == 0xE0 && (0xE0u8 | channel) & 0x0F == channel) by (bit_vector)
        requires
            channel < 16,
    ;
    assert((((msb as u16) << 7u16) | (lsb as u16)) == msb * 128 + lsb) by (bit_vector)
        requires
            lsb < 128,
            msb < 128,
    ;
}

/// Reads a MIDI message from an input port's bytes.
pub fn parse_midi(data: &[u8]) -> (message: Option<MidiMessage>)
    ensures
        message == midi_message_of(data@),
{
    if data.len() < 2 {
        return None;
    }
    let first = data[0];
    let status: u8 = first & 0xF0;
    let channel: i16 = (first & 0x0F) as i16;
    let key: i16 = data[1] as i16;
    let velocity: u8 = if data.len() >= 3 {
        data[2]
    } else {
        0
    };
    if status == 0x90 && data.len() >= 3 && data[2] > 0 {
        Some(MidiMessage::NoteOn { channel, key, velocity })
    } else if status == 0x80 || status == 0x90 {
        Some(MidiMessage::NoteOff { channel, key, velocity })
    } else if status == 0xE0 && data.len() >= 3 {
        let lsb: u8 = data[1];
        let msb: u8 = data[2];
        let joined: u16 = ((msb as u16) << 7u16) | (lsb as u16);
        assert(joined <= 0x7FFF) by (bit_vector)
            requires
                joined == ((msb as u16) << 7u16) | (lsb as u16),
        ;
        let bend: i16 = (joined as i16) - 8192;
        Some(MidiMessage::PitchBend { channel, bend })
    } else {
        None
    }
}

} // verus!
