use vstd::prelude::*;

verus! {

/// Status byte of a MIDI note-off message.
pub const NOTE_OFF_STATUS: u8 = 0x80;

/// Status byte of a MIDI note-on message.
pub const NOTE_ON_STATUS: u8 = 0x90;

/// What a three-byte MIDI message asks of the engine.
#[derive(Clone, Copy, Debug, PartialEq, Eq, Structural)]
pub enum MidiCommand {
    NoteOn(u8),
    NoteOff(u8),
    Ignore,
}

/// The command carried by a message, as a pure function of its bytes.
pub open spec fn command_of(data: [u8; 3]) -> MidiCommand {
    if data[0] == NOTE_OFF_STATUS {
        MidiCommand::NoteOff(data[1])
    } else if data[0] == NOTE_ON_STATUS {
        MidiCommand::NoteOn(data[1])
    } else {
        MidiCommand::Ignore
    }
}

/// Decodes a three-byte MIDI message: note-off and note-on carry the note
/// number of the first data byte; every other status byte is ignored.
pub fn decode_midi(data: [u8; 3]) -> (r: MidiCommand)
    ensures
        r == command_of(data),
{
    let status = data[0];
    if status == NOTE_OFF_STATUS {
        MidiCommand::NoteOff(data[1])
    } else if status == NOTE_ON_STATUS {
        MidiCommand::NoteOn(data[1])
    } else {
        MidiCommand::Ignore
    }
}

} // verus!
