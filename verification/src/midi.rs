//! MIDI input: port selection, byte-stream decoding and the connection
//! queue.
//!
//! The decoder classifies every raw message totally: any byte sequence maps
//! to a named event variant or to `MidiEvent::Invalid`, never to a failure
//! that could halt the reading thread.  Port selection turns the count of
//! available input ports and an optional requested index into a choice or a
//! fatal, user-facing error.

use vstd::prelude::*;

use crate::dispatch::Message;

verus! {

/// A MIDI channel.  The sixteen valid channels are numbered 1-based for
/// scripts; `Invalid` is an out-of-band marker reported as `-1`, kept
/// distinct from the numeric range on purpose.
#[derive(Clone, Copy, Debug, PartialEq, Eq, Structural)]
pub enum Channel {
    Ch1,
    Ch2,
    Ch3,
    Ch4,
    Ch5,
    Ch6,
    Ch7,
    Ch8,
    Ch9,
    Ch10,
    Ch11,
    Ch12,
    Ch13,
    Ch14,
    Ch15,
    Ch16,
    Invalid,
}

/// The channel a wire channel number (0-15) stands for; anything larger
/// is the invalid marker.
pub open spec fn spec_channel_of(v: u8) -> Channel {
    if v == 0 {
        Channel::Ch1
    } else if v == 1 {
        Channel::Ch2
    } else if v == 2 {
        Channel::Ch3
    } else if v == 3 {
        Channel::Ch4
    } else if v == 4 {
        Channel::Ch5
    } else if v == 5 {
        Channel::Ch6
    } else if v == 6 {
        Channel::Ch7
    } else if v == 7 {
        Channel::Ch8
    } else if v == 8 {
        Channel::Ch9
    } else if v == 9 {
        Channel::Ch10
    } else if v == 10 {
        Channel::Ch11
    } else if v == 11 {
        Channel::Ch12
    } else if v == 12 {
        Channel::Ch13
    } else if v == 13 {
        Channel::Ch14
    } else if v == 14 {
        Channel::Ch15
    } else if v == 15 {
        Channel::Ch16
    } else {
        Channel::Invalid
    }
}

/// Classify a wire channel number.
pub fn channel_of(v: u8) -> (ch: Channel)
    ensures
        ch == spec_channel_of(v),
{
    if v == 0 {
        Channel::Ch1
    } else if v == 1 {
        Channel::Ch2
    } else if v == 2 {
        Channel::Ch3
    } else if v == 3 {
        Channel::Ch4
    } else if v == 4 {
        Channel::Ch5
    } else if v == 5 {
        Channel::Ch6
    } else if v == 6 {
        Channel::Ch7
    } else if v == 7 {
        Channel::Ch8
    } else if v == 8 {
        Channel::Ch9
    } else if v == 9 {
        Channel::Ch10
    } else if v == 10 {
        Channel::Ch11
    } else if v == 11 {
        Channel::Ch12
    } else if v == 12 {
        Channel::Ch13
    } else if v == 13 {
        Channel::Ch14
    } else if v == 14 {
        Channel::Ch15
    } else if v == 15 {
        Channel::Ch16
    } else {
        Channel::Invalid
    }
}

/// The 1-based number a channel is shown to scripts as, `-1` for the
/// invalid marker.
pub open spec fn spec_channel_num(ch: Channel) -> i8 {
    match ch {
        Channel::Ch1 => 1,
        Channel::Ch2 => 2,
        Channel::Ch3 => 3,
        Channel::Ch4 => 4,
        Channel::Ch5 => 5,
        Channel::Ch6 => 6,
        Channel::Ch7 => 7,
        Channel::Ch8 => 8,
        Channel::Ch9 => 9,
        Channel::Ch10 => 10,
        Channel::Ch11 => 11,
        Channel::Ch12 => 12,
        Channel::Ch13 => 13,
        Channel::Ch14 => 14,
        Channel::Ch15 => 15,
        Channel::Ch16 => 16,
        Channel::Invalid => -1i8,
    }
}

/// Normalize a channel to its 1-based script-facing number; the invalid
/// marker maps to the out-of-band value `-1`.
pub fn midi_channel_to_num(ch: &Channel) -> (n: i8)
    ensures
        n == spec_channel_num(*ch),
{
    match ch {
        Channel::Ch1 => 1,
        Channel::Ch2 => 2,
        Channel::Ch3 => 3,
        Channel::Ch4 => 4,
        Channel::Ch5 => 5,
        Channel::Ch6 => 6,
        Channel::Ch7 => 7,
        Channel::Ch8 => 8,
        Channel::Ch9 => 9,
        Channel::Ch10 => 10,
        Channel::Ch11 => 11,
        Channel::Ch12 => 12,
        Channel::Ch13 => 13,
        Channel::Ch14 => 14,
        Channel::Ch15 => 15,
        Channel::Ch16 => 16,
        Channel::Invalid => -1,
    }
}

/// A decoded MIDI message.  Malformed or unsupported byte sequences are
/// classified as `Invalid` rather than rejected, so decoding is total.
#[derive(Clone, Copy, Debug, PartialEq, Eq, Structural)]
pub enum MidiEvent {
    NoteOn { channel: Channel, key: u8, vel: u8 },
    NoteOff { channel: Channel, key: u8, vel: u8 },
    ControlChange { channel: Channel, control: u8, value: u8 },
    ProgramChange { channel: Channel, program: u8 },
    PitchBend { channel: Channel, value: u16 },
    Invalid,
}

/// Total classification of a raw MIDI message.  A message shorter than
/// three bytes, a system message (status `0xF0` and above), a data-only
/// sequence (first byte under `0x80`) and the pressure families are all
/// `Invalid`; the five supported families carry their channel (low nibble
/// of the status byte) and data bytes.  The two 7-bit halves of a pitch
/// bend combine into one 14-bit value.
pub open spec fn spec_decode(d: Seq<u8>) -> MidiEvent {
    if d.len() < 3 {
        MidiEvent::Invalid
    } else {
        let family = d[0] / 16;
        let channel = spec_channel_of((d[0] % 16) as u8);
        if family == 8 {
            MidiEvent::NoteOff { channel, key: d[1], vel: d[2] }
        } else if family == 9 {
            MidiEvent::NoteOn { channel, key: d[1], vel: d[2] }
        } else if family == 11 {
            MidiEvent::ControlChange { channel, control: d[1], value: d[2] }
        } else if family == 12 {
            MidiEvent::ProgramChange { channel, program: d[1] }
        } else if family == 14 {
            MidiEvent::PitchBend {
                channel,
                value: (128 * (d[2] % 128) + d[1] % 128) as u16,
            }
        } else {
            MidiEvent::Invalid
        }
    }
}

/// Decode one raw MIDI message into its classified event.  Total: every
/// byte sequence yields a `MidiEvent`, `Invalid` included, so a malformed
/// message can never fail the reading thread.
pub fn decode_midi(data: &[u8]) -> (e: MidiEvent)
    ensures
        e == spec_decode(data@),
{
    if data.len() < 3 {
        return MidiEvent::Invalid;
    }
    let status = data[0];
    let family = status / 16;
    let channel = channel_of(status % 16);
    if family == 8 {
        MidiEvent::NoteOff { channel, key: data[1], vel: data[2] }
    } else if family == 9 {
        MidiEvent::NoteOn { channel, key: data[1], vel: data[2] }
    } else if family == 11 {
        MidiEvent::ControlChange { channel, control: data[1], value: data[2] }
    } else if family == 12 {
        MidiEvent::ProgramChange { channel, program: data[1] }
    } else if family == 14 {
        let lsb = data[1] % 128;
        let msb = data[2] % 128;
        MidiEvent::PitchBend { channel, value: 128 * (msb as u16) + (lsb as u16) }
    } else {
        MidiEvent::Invalid
    }
}

/// A decoded event never carries a combined pitch-bend value outside the
/// 14-bit range, and whatever variant comes back, its channel is never
/// the invalid marker: that marker can only be made by hand.
pub proof fn lemma_decode_well_formed(d: Seq<u8>)
    ensures
        spec_decode(d) matches MidiEvent::PitchBend { value, .. } ==> value < 16384,
        !(spec_decode(d) matches MidiEvent::NoteOn { channel, .. } && channel is Invalid),
        !(spec_decode(d) matches MidiEvent::NoteOff { channel, .. } && channel is Invalid),
        !(spec_decode(d) matches MidiEvent::ControlChange { channel, .. } && channel is Invalid),
        !(spec_decode(d) matches MidiEvent::ProgramChange { channel, .. } && channel is Invalid),
        !(spec_decode(d) matches MidiEvent::PitchBend { channel, .. } && channel is Invalid),
{
}

/// Why opening the MIDI input failed.
#[derive(Clone, Copy, Debug, PartialEq, Eq, Structural)]
pub enum MidiError {
    /// The system has no MIDI input port at all.
    NoPorts,
    /// Several ports exist and the caller named none.
    PortUnspecified,
    /// The requested port index is not among the available ports.
    PortOutOfRange,
}

impl MidiError {
    /// User-facing description of the error.
    pub fn message(&self) -> (m: &'static str)
        ensures
            self is NoPorts ==> m@ == "No ports on system."@,
            self is PortUnspecified ==> m@ == "Several ports on system; pass a port index."@,
            self is PortOutOfRange ==> m@ == "No port with that index on system."@,
    {
        match self {
            MidiError::NoPorts => "No ports on system.",
            MidiError::PortUnspecified => "Several ports on system; pass a port index.",
            MidiError::PortOutOfRange => "No port with that index on system.",
        }
    }
}

/// Which input port an open call picks: none exists is a fatal error,
/// exactly one auto-selects, several require the caller's explicit,
/// in-range index.
pub open spec fn spec_select_port(port_count: usize, requested: Option<usize>) -> Result<
    usize,
    MidiError,
> {
    if port_count == 0 {
        Err(MidiError::NoPorts)
    } else if port_count == 1 {
        Ok(0)
    } else {
        match requested {
            None => Err(MidiError::PortUnspecified),
            Some(i) => if i < port_count {
                Ok(i)
            } else {
                Err(MidiError::PortOutOfRange)
            },
        }
    }
}

/// The MIDI input subsystem: the single-producer, single-consumer queue
/// carrying decoded events from the reading thread to the consumer that
/// owns the script runtime.  At most one live connection feeds it; the
/// caller owns the connection handle and replaces it on a new open.
pub struct Midi {
    /// Messages sent by the producer and not yet received, oldest first.
    pending: Vec<Message>,
}

impl Midi {
    /// What the queue holds, oldest first.
    pub closed spec fn view(&self) -> Seq<Message> {
        self.pending@
    }

    /// A fresh subsystem with an empty queue.
    pub fn new() -> (m: Midi)
        ensures
            m@ == Seq::<Message>::empty(),
    {
        Midi { pending: Vec::new() }
    }

    /// Pick the input port for an open call.  Fails exactly when no port
    /// exists, or several do and `requested` names none or one out of
    /// range.
    pub fn select_port(port_count: usize, requested: Option<usize>) -> (r: Result<
        usize,
        MidiError,
    >)
        ensures
            r == spec_select_port(port_count, requested),
    {
        if port_count == 0 {
            Err(MidiError::NoPorts)
        } else if port_count == 1 {
            Ok(0)
        } else {
            match requested {
                None => Err(MidiError::PortUnspecified),
                Some(i) => if i < port_count {
                    Ok(i)
                } else {
                    Err(MidiError::PortOutOfRange)
                },
            }
        }
    }

    /// How many messages are pending.
    pub fn queue_len(&self) -> (n: usize)
        ensures
            n == self@.len(),
    {
        self.pending.len()
    }

    /// Producer side: append one message to the back of the queue.
    pub fn send(&mut self, m: Message)
        ensures
            final(self)@ == old(self)@.push(m),
    {
        self.pending.push(m);
    }

    /// Consumer side: take the oldest message, if any.  Returns `None`
    /// exactly when the queue is empty, else the first message in send
    /// order, which the queue loses.
    pub fn recv(&mut self) -> (r: Option<Message>)
        ensures
            old(self)@.len() == 0 ==> r is None && final(self)@ == old(self)@,
            old(self)@.len() > 0 ==> r == Some(old(self)@[0]) && final(self)@ == old(
                self,
            )@.drop_first(),
    {
        if self.pending.len() == 0 {
            None
        } else {
            let m = self.pending.remove(0);
            proof {
                assert(self.pending@ =~= old(self)@.drop_first());
            }
            Some(m)
        }
    }
}

} // verus!
