//! Encoding of button and axis changes into low-level event records.
//!
//! Every change is encoded as exactly two records in fixed order: the state
//! change itself, then a synchronization marker telling the kernel that the
//! preceding change forms one atomic report.  The caller writes both records
//! to the device with a single write while holding the device lock, so no
//! other record can interleave between them.

use vstd::prelude::*;

use crate::registry::AbsAxis;
use crate::registry::Key;
use crate::registry::spec_axis_code;
use crate::registry::spec_key_code;

verus! {

/// Event type of a synchronization record (`EV_SYN`).
pub const EV_SYN: u16 = 0;

/// Event type of a key state change (`EV_KEY`).
pub const EV_KEY: u16 = 1;

/// Event type of an absolute axis change (`EV_ABS`).
pub const EV_ABS: u16 = 3;

/// Synchronization code closing one atomic report (`SYN_REPORT`).
pub const SYN_REPORT: u16 = 0;

/// One low-level input record: the wire form of a state change or a
/// synchronization marker, minus the timestamp the kernel fills in.
#[derive(Clone, Copy, Debug, PartialEq, Eq, Structural)]
pub struct EventRecord {
    /// Event type: `EV_KEY`, `EV_ABS` or `EV_SYN`.
    pub kind: u16,
    /// Key or axis wire code, or the synchronization code.
    pub code: u16,
    /// New state: 1/0 for keys, the scaled position for axes, 0 for sync.
    pub value: i32,
}

/// The synchronization marker that ends every report.
pub open spec fn spec_sync_record() -> EventRecord {
    EventRecord { kind: EV_SYN, code: SYN_REPORT, value: 0 }
}

/// The state-change record of a key event.
pub open spec fn spec_key_record(key: Key, pressed: bool) -> EventRecord {
    EventRecord {
        kind: EV_KEY,
        code: spec_key_code(key),
        value: if pressed {
            1
        } else {
            0
        },
    }
}

/// The state-change record of an axis event.
pub open spec fn spec_axis_record(axis: AbsAxis, value: i32) -> EventRecord {
    EventRecord { kind: EV_ABS, code: spec_axis_code(axis), value }
}

/// Encode a button state change: exactly two records, the key change
/// first and the synchronization marker last.  An `Unknown` key is passed
/// through and encodes its sentinel code unchanged; rejecting it is left
/// to the kernel interface by design.
pub fn encode_button(key: Key, pressed: bool) -> (evs: Vec<EventRecord>)
    ensures
        evs@.len() == 2,
        evs@[0] == spec_key_record(key, pressed),
        evs@[1] == spec_sync_record(),
{
    let state: i32 = if pressed {
        1
    } else {
        0
    };
    let mut evs: Vec<EventRecord> = Vec::new();
    evs.push(EventRecord { kind: EV_KEY, code: key.code(), value: state });
    evs.push(EventRecord { kind: EV_SYN, code: SYN_REPORT, value: 0 });
    evs
}

/// Encode an axis change to an already-scaled device value: exactly two
/// records, the axis change first and the synchronization marker last.
/// The caller scales the script's normalized position to the calibration
/// range before calling; out-of-range values are passed through.
pub fn encode_axis(axis: AbsAxis, value: i32) -> (evs: Vec<EventRecord>)
    ensures
        evs@.len() == 2,
        evs@[0] == spec_axis_record(axis, value),
        evs@[1] == spec_sync_record(),
{
    let mut evs: Vec<EventRecord> = Vec::new();
    evs.push(EventRecord { kind: EV_ABS, code: axis.code(), value });
    evs.push(EventRecord { kind: EV_SYN, code: SYN_REPORT, value: 0 });
    evs
}

} // verus!
