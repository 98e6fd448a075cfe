//! Decoding of three-byte channel-voice messages into note events.
use vstd::prelude::*;

verus! {

/// Status nibble of a note-on message.
pub const NOTE_ON: u8 = 0x9;

/// Status nibble of a note-off message.
pub const NOTE_OFF: u8 = 0x8;

/// A decoded note event: a key pressed with some intensity, or released.
#[derive(Clone, Copy, Debug, PartialEq, Eq, Structural)]
pub enum NoteEvent {
    On { channel: u8, note: u8, velocity: u8 },
    Off { channel: u8, note: u8 },
}

/// The event a raw message stands for. Messages shorter than three bytes and
/// statuses other than note-on / note-off stand for nothing; a note-on with
/// velocity zero is a note-off.
pub open spec fn decode_spec(msg: Seq<u8>) -> Option<NoteEvent> {
    if msg.len() < 3 {
        None
    } else {
        let status = msg[0] / 16;
        let channel = msg[0] % 16;
        if status == NOTE_ON && msg[2] > 0 {
            Some(NoteEvent::On { channel: channel as u8, note: msg[1], velocity: msg[2] })
        } else if status == NOTE_ON || status == NOTE_OFF {
            Some(NoteEvent::Off { channel: channel as u8, note: msg[1] })
        } else {
            None
        }
    }
}

/// Decodes one raw message as delivered by an input driver.
pub fn decode(message: &[u8]) -> (r: Option<NoteEvent>)
    ensures
        r == decode_spec(message@),
{
    if message.len() < 3 {
        return None;
    }
    let status = message[0] / 16;
    let channel = message[0] % 16;
    let note = message[1];
    let velocity = message[2];
    if status == NOTE_ON && velocity > 0 {
        Some(NoteEvent::On { channel, note, velocity })
    } else if status == NOTE_ON || status == NOTE_OFF {
        Some(NoteEvent::Off { channel, note })
    } else {
        None
    }
}

/// A message shorter than three bytes yields no event, whatever its bytes.
pub proof fn lemma_short_message_yields_nothing(msg: Seq<u8>)
    requires
        msg.len() < 3,
    ensures
        decode_spec(msg) is None,
{
}

/// On any channel, a note-on with velocity zero decodes to the same event as a
/// note-off for that note with any velocity: the release of the note.
pub proof fn lemma_silent_note_on_is_note_off(channel: u8, note: u8, velocity: u8)
    requires
        channel < 16,
    ensures
        decode_spec(seq![(0x90 + channel) as u8, note, 0u8]) == decode_spec(
            seq![(0x80 + channel) as u8, note, velocity],
        ),
        decode_spec(seq![(0x90 + channel) as u8, note, 0u8]) == Some(
            NoteEvent::Off { channel, note },
        ),
{
}

} // verus!
