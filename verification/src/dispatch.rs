//! Delivery of decoded MIDI events to the script-registered handler.
//!
//! The consumer thread takes messages from the connection queue in send
//! order and, for each one, either discards it (no handler registered, or
//! the event is the invalid classification) or builds the structured record
//! the handler sees.  Delivery is synchronous and single-consumer, so
//! records reach the handler in exactly the order the decoder produced the
//! events: no reordering, no coalescing, no drops.

use vstd::prelude::*;
use vstd::seq_lib::group_seq_properties;

use crate::midi::Midi;
use crate::midi::MidiEvent;
use crate::midi::spec_channel_num;

verus! {

/// A message carried from a producer thread to the consumer.  Only MIDI
/// events travel today, but the type is open for extension.
#[derive(Clone, Copy, Debug, PartialEq, Eq, Structural)]
pub enum Message {
    Midi(MidiEvent),
}

/// The structured record a handler invocation receives, one shape per
/// event kind.  The channel is the 1-based script-facing number.
#[derive(Clone, Copy, Debug, PartialEq, Eq, Structural)]
pub enum MidiRecord {
    NoteOn { channel: i8, key: u8, vel: u8 },
    NoteOff { channel: i8, key: u8, vel: u8 },
    ControlChange { channel: i8, control: u8, value: u8 },
    ProgramChange { channel: i8, program: u8 },
    PitchBend { channel: i8, value: u16 },
}

impl MidiRecord {
    /// The value of the record's `event` field: the stable name of the
    /// event kind.
    pub fn event_name(&self) -> (r: &'static str)
        ensures
            self is NoteOn ==> r@ == "note_on"@,
            self is NoteOff ==> r@ == "note_off"@,
            self is ControlChange ==> r@ == "control_change"@,
            self is ProgramChange ==> r@ == "program_change"@,
            self is PitchBend ==> r@ == "pitch_bend"@,
    {
        match self {
            MidiRecord::NoteOn { .. } => "note_on",
            MidiRecord::NoteOff { .. } => "note_off",
            MidiRecord::ControlChange { .. } => "control_change",
            MidiRecord::ProgramChange { .. } => "program_change",
            MidiRecord::PitchBend { .. } => "pitch_bend",
        }
    }
}

/// The record a decoded event turns into, `None` for the invalid
/// classification, which is filtered out before any handler sees it.
pub open spec fn spec_record(e: MidiEvent) -> Option<MidiRecord> {
    match e {
        MidiEvent::NoteOn { channel, key, vel } => Some(
            MidiRecord::NoteOn { channel: spec_channel_num(channel), key, vel },
        ),
        MidiEvent::NoteOff { channel, key, vel } => Some(
            MidiRecord::NoteOff { channel: spec_channel_num(channel), key, vel },
        ),
        MidiEvent::ControlChange { channel, control, value } => Some(
            MidiRecord::ControlChange { channel: spec_channel_num(channel), control, value },
        ),
        MidiEvent::ProgramChange { channel, program } => Some(
            MidiRecord::ProgramChange { channel: spec_channel_num(channel), program },
        ),
        MidiEvent::PitchBend { channel, value } => Some(
            MidiRecord::PitchBend { channel: spec_channel_num(channel), value },
        ),
        MidiEvent::Invalid => None,
    }
}

/// Build the handler record for one decoded event; `None` exactly for the
/// invalid classification.
pub fn to_record(e: &MidiEvent) -> (r: Option<MidiRecord>)
    ensures
        r == spec_record(*e),
{
    match e {
        MidiEvent::NoteOn { channel, key, vel } => Some(
            MidiRecord::NoteOn {
                channel: crate::midi::midi_channel_to_num(channel),
                key: *key,
                vel: *vel,
            },
        ),
        MidiEvent::NoteOff { channel, key, vel } => Some(
            MidiRecord::NoteOff {
                channel: crate::midi::midi_channel_to_num(channel),
                key: *key,
                vel: *vel,
            },
        ),
        MidiEvent::ControlChange { channel, control, value } => Some(
            MidiRecord::ControlChange {
                channel: crate::midi::midi_channel_to_num(channel),
                control: *control,
                value: *value,
            },
        ),
        MidiEvent::ProgramChange { channel, program } => Some(
            MidiRecord::ProgramChange {
                channel: crate::midi::midi_channel_to_num(channel),
                program: *program,
            },
        ),
        MidiEvent::PitchBend { channel, value } => Some(
            MidiRecord::PitchBend {
                channel: crate::midi::midi_channel_to_num(channel),
                value: *value,
            },
        ),
        MidiEvent::Invalid => None,
    }
}

/// The event a message carries.
pub open spec fn spec_event_of(m: Message) -> MidiEvent {
    match m {
        Message::Midi(e) => e,
    }
}

/// What one consumer step does with a message: with no handler registered
/// every event is discarded silently, which is not an error; with one,
/// the invalid classification is discarded and every other event becomes
/// its record.
pub open spec fn spec_dispatch(m: Message, handler_present: bool) -> Option<MidiRecord> {
    if handler_present {
        spec_record(spec_event_of(m))
    } else {
        None
    }
}

/// One consumer step: the record to hand to the handler, or `None` when
/// the message is discarded.
pub fn dispatch_message(m: &Message, handler_present: bool) -> (r: Option<MidiRecord>)
    ensures
        r == spec_dispatch(*m, handler_present),
{
    if !handler_present {
        return None;
    }
    match m {
        Message::Midi(e) => to_record(e),
    }
}

/// The consumer step as a function of the message, for a fixed handler
/// state.
pub open spec fn dispatch_fn(handler_present: bool) -> spec_fn(Message) -> Option<MidiRecord> {
    |m: Message| spec_dispatch(m, handler_present)
}

/// The records a whole queue of messages produces, in send order.
pub open spec fn spec_queue_records(ms: Seq<Message>, handler_present: bool) -> Seq<MidiRecord> {
    ms.filter_map(dispatch_fn(handler_present))
}

/// Run the consumer over everything pending: every message is taken from
/// the queue in send order and dispatched; the records of the messages a
/// handler would see come back in that same order, and the queue is left
/// empty.  With no handler registered everything is consumed and
/// discarded, without error.
pub fn drain_records(midi: &mut Midi, handler_present: bool) -> (out: Vec<MidiRecord>)
    ensures
        final(midi)@ == Seq::<Message>::empty(),
        out@ == spec_queue_records(old(midi)@, handler_present),
{
    let ghost q0: Seq<Message> = midi@;
    let ghost f = dispatch_fn(handler_present);
    let mut out: Vec<MidiRecord> = Vec::new();
    let ghost mut i: int = 0;
    while midi.queue_len() != 0
        invariant
            0 <= i <= q0.len(),
            midi@ == q0.subrange(i, q0.len() as int),
            out@ == q0.take(i).filter_map(f),
            f == dispatch_fn(handler_present),
        decreases q0.len() - i,
    {
        let r = midi.recv();
        let m = r.unwrap();
        proof {
            assert(m == q0[i]);
            q0.lemma_filter_map_take_succ(f, i);
            assert(midi@ =~= q0.subrange(i + 1, q0.len() as int));
        }
        let rec = dispatch_message(&m, handler_present);
        match rec {
            Some(rec) => {
                out.push(rec);
                proof {
                    assert(out@ =~= q0.take(i + 1).filter_map(f));
                }
            },
            None => {
                proof {
                    assert(out@ =~= q0.take(i + 1).filter_map(f));
                }
            },
        }
        proof {
            i = i + 1;
        }
    }
    proof {
        assert(q0.take(i) =~= q0);
        assert(out@ == spec_queue_records(q0, handler_present));
    }
    out
}

/// Dispatch order law: for any sequence of messages the producer sends,
/// the records the consumer observes are exactly those of the non-invalid
/// events, in the same order, with no gaps and no duplicates.  In
/// particular, for a sequence of dispatchable events the consumer sees one
/// record per event, position by position.
pub proof fn lemma_dispatch_order(ms: Seq<Message>, handler_present: bool)
    ensures
        !handler_present ==> spec_queue_records(ms, handler_present) == Seq::<MidiRecord>::empty(),
        (forall|k: int|
            0 <= k < ms.len() ==> !(spec_event_of(#[trigger] ms[k]) is Invalid)) && handler_present
            ==> spec_queue_records(ms, handler_present).len() == ms.len() && (forall|k: int|
            0 <= k < ms.len() ==> spec_record(spec_event_of(#[trigger] ms[k])) == Some(
                spec_queue_records(ms, handler_present)[k],
            )),
    decreases ms.len(),
{
    broadcast use group_seq_properties;

    let f = dispatch_fn(handler_present);
    if ms.len() == 0 {
        assert(ms.filter_map(f) =~= Seq::<MidiRecord>::empty());
    } else {
        let rest = ms.drop_last();
        lemma_dispatch_order(rest, handler_present);
        if !handler_present {
            assert(ms.filter_map(f) =~= rest.filter_map(f));
        } else if forall|k: int|
            0 <= k < ms.len() ==> !(spec_event_of(#[trigger] ms[k]) is Invalid) {
            assert forall|k: int|
                0 <= k < rest.len() implies !(spec_event_of(#[trigger] rest[k]) is Invalid) by {
                assert(rest[k] == ms[k]);
            }
            let e = spec_event_of(ms.last());
            assert(ms.last() == ms[ms.len() - 1]);
            assert(!(e is Invalid));
            let records = spec_queue_records(ms, handler_present);
            let rec = spec_record(e)->Some_0;
            assert(f(ms.last()) == Some(rec));
            assert(records == rest.filter_map(f) + seq![rec]);
            assert(records.len() == ms.len());
            assert forall|k: int|
                0 <= k < ms.len() implies spec_record(spec_event_of(#[trigger] ms[k])) == Some(
                records[k],
            ) by {
                if k < ms.len() - 1 {
                    assert(rest[k] == ms[k]);
                    assert(records[k] == rest.filter_map(f)[k]);
                } else {
                    assert(records[k] == rec);
                }
            }
        }
    }
}

/// Delivery distributes over batches: dispatching two stretches of the
/// stream one after the other yields the concatenation of their records,
/// so timing of the producer never reorders what the consumer observes.
pub proof fn lemma_dispatch_concat(a: Seq<Message>, b: Seq<Message>, handler_present: bool)
    ensures
        spec_queue_records(a + b, handler_present) == spec_queue_records(a, handler_present)
            + spec_queue_records(b, handler_present),
    decreases b.len(),
{
    broadcast use group_seq_properties;

    let f = dispatch_fn(handler_present);
    if b.len() == 0 {
        assert(a + b =~= a);
        assert(spec_queue_records(b, handler_present) =~= Seq::<MidiRecord>::empty());
    } else {
        lemma_dispatch_concat(a, b.drop_last(), handler_present);
        assert((a + b).drop_last() =~= a + b.drop_last());
        assert((a + b).last() == b.last());
    }
}

} // verus!
