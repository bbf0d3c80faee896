//! The virtual device: identity, capability set, calibration, and the
//! one-time creation step.
//!
//! The descriptor declares the fixed capability set (the eleven buttons and
//! eight axes the registry enumerates) with per-axis calibration, and the
//! device identity: a known vendor/product pair by default, or an override
//! in `"VVVV:PPPP"` hexadecimal form.  A malformed override is a fatal
//! input error surfaced synchronously.  The caller performs the actual
//! kernel registration with the descriptor and owns the resulting handle
//! for the life of the process.

use vstd::prelude::*;

use crate::encode::EventRecord;
use crate::encode::encode_axis;
use crate::encode::encode_button;
use crate::encode::spec_axis_record;
use crate::encode::spec_key_record;
use crate::encode::spec_sync_record;
use crate::registry::AbsAxis;
use crate::registry::Key;
use crate::registry::i32_to_absaxis;
use crate::registry::i32_to_key;
use crate::registry::spec_i32_to_absaxis;
use crate::registry::spec_i32_to_key;
use vstd::string::StringSliceAdditionalSpecFns;

verus! {

/// Default vendor id of the virtual controller's identity.
pub const DEFAULT_VENDOR: u16 = 0x045e;

/// Default product id of the virtual controller's identity.
pub const DEFAULT_PRODUCT: u16 = 0x0b12;

/// Bus type the device reports (`BUS_USB`).
pub const BUS_USB: u16 = 3;

/// The display name the device registers under.
pub fn device_name() -> (n: &'static str)
    ensures
        n@ == "handcake Virtual Controller"@,
{
    "handcake Virtual Controller"
}

/// ASCII colon, the separator of an identity override.
pub const COLON: u8 = 58;

/// Whether a byte is an ASCII hexadecimal digit.
pub open spec fn spec_is_hex_digit(b: u8) -> bool {
    (48 <= b <= 57) || (97 <= b <= 102) || (65 <= b <= 70)
}

/// Value of an ASCII hexadecimal digit.
pub open spec fn spec_hex_digit_val(b: u8) -> int {
    if 48 <= b <= 57 {
        b - 48
    } else if 97 <= b <= 102 {
        b - 87
    } else if 65 <= b <= 70 {
        b - 55
    } else {
        0
    }
}

/// Value of a big-endian string of hexadecimal digits.
pub open spec fn spec_hex_value(s: Seq<u8>) -> int
    decreases s.len(),
{
    if s.len() == 0 {
        0
    } else {
        16 * spec_hex_value(s.drop_last()) + spec_hex_digit_val(s.last())
    }
}

/// Whether a byte string is one to four hexadecimal digits, the accepted
/// form of each half of an identity override.
pub open spec fn spec_is_hex_field(s: Seq<u8>) -> bool {
    1 <= s.len() <= 4 && (forall|k: int| 0 <= k < s.len() ==> spec_is_hex_digit(#[trigger] s[k]))
}

/// A hexadecimal field of up to four digits stays within `u16`.
pub proof fn lemma_hex_value_bound(s: Seq<u8>)
    ensures
        0 <= spec_hex_value(s),
        s.len() <= 1 ==> spec_hex_value(s) < 0x10,
        s.len() <= 2 ==> spec_hex_value(s) < 0x100,
        s.len() <= 3 ==> spec_hex_value(s) < 0x1000,
        s.len() <= 4 ==> spec_hex_value(s) < 0x10000,
    decreases s.len(),
{
    if s.len() > 0 {
        lemma_hex_value_bound(s.drop_last());
    }
}

/// Position of the first colon in a byte string, `-1` when there is none.
pub open spec fn spec_find_colon(s: Seq<u8>) -> int
    decreases s.len(),
{
    if s.len() == 0 {
        -1
    } else if s[0] == COLON {
        0
    } else {
        let r = spec_find_colon(s.drop_first());
        if r == -1 {
            -1
        } else {
            r + 1
        }
    }
}

/// The first colon is where the first colon is: a position with a colon
/// and none before it pins `spec_find_colon` down.
proof fn lemma_find_colon_at(s: Seq<u8>, i: int)
    requires
        0 <= i < s.len(),
        s[i] == COLON,
        forall|j: int| 0 <= j < i ==> #[trigger] s[j] != COLON,
    ensures
        spec_find_colon(s) == i,
    decreases i,
{
    if i > 0 {
        lemma_find_colon_at(s.drop_first(), i - 1);
    }
}

/// A byte string without a colon makes `spec_find_colon` report none.
proof fn lemma_find_colon_none(s: Seq<u8>)
    requires
        forall|j: int| 0 <= j < s.len() ==> #[trigger] s[j] != COLON,
    ensures
        spec_find_colon(s) == -1,
    decreases s.len(),
{
    if s.len() > 0 {
        lemma_find_colon_none(s.drop_first());
    }
}

/// The vendor/product pair an identity override denotes: the string must
/// split at its first colon into two fields of one to four hexadecimal
/// digits.  Anything else — no colon, an empty or overlong field, a
/// non-hexadecimal byte (a second colon included) — denotes nothing.
pub open spec fn spec_parse_id(s: Seq<u8>) -> Option<(u16, u16)> {
    let p = spec_find_colon(s);
    if p < 0 {
        None
    } else {
        let left = s.take(p);
        let right = s.subrange(p + 1, s.len() as int);
        if spec_is_hex_field(left) && spec_is_hex_field(right) {
            Some((spec_hex_value(left) as u16, spec_hex_value(right) as u16))
        } else {
            None
        }
    }
}

/// Parse a run of one to four hexadecimal digits out of `s` between the
/// given positions; `None` exactly when that slice is not such a field.
fn parse_hex_field(s: &[u8], from: usize, to: usize) -> (r: Option<u16>)
    requires
        from <= to <= s@.len(),
    ensures
        spec_is_hex_field(s@.subrange(from as int, to as int)) ==> r == Some(
            spec_hex_value(s@.subrange(from as int, to as int)) as u16,
        ),
        !spec_is_hex_field(s@.subrange(from as int, to as int)) ==> r is None,
{
    let ghost t = s@.subrange(from as int, to as int);
    let len = to - from;
    if len < 1 || len > 4 {
        return None;
    }
    let mut acc: u16 = 0;
    let mut k: usize = 0;
    while k < len
        invariant
            0 <= k <= len,
            len == to - from,
            from <= to <= s@.len(),
            t == s@.subrange(from as int, to as int),
            1 <= len <= 4,
            forall|j: int| 0 <= j < k ==> spec_is_hex_digit(#[trigger] t[j]),
            acc == spec_hex_value(t.take(k as int)),
        decreases len - k,
    {
        let b = s[from + k];
        proof {
            assert(b == t[k as int]);
            lemma_hex_value_bound(t.take(k as int));
            assert(acc < 0x1000);
        }
        let v: u16 = if 48 <= b && b <= 57 {
            (b - 48) as u16
        } else if 97 <= b && b <= 102 {
            (b - 87) as u16
        } else if 65 <= b && b <= 70 {
            (b - 55) as u16
        } else {
            return None;
        };
        proof {
            assert(t.take(k + 1).drop_last() =~= t.take(k as int));
            assert(t.take(k + 1).last() == t[k as int]);
        }
        acc = 16 * acc + v;
        k = k + 1;
    }
    proof {
        assert(t.take(len as int) =~= t);
    }
    Some(acc)
}

/// Parse an identity override of the form `"VVVV:PPPP"`: the vendor and
/// product ids as one to four hexadecimal digits each, split at the first
/// colon.  `None` exactly when the bytes are not of that form.
pub fn parse_device_id(s: &[u8]) -> (r: Option<(u16, u16)>)
    ensures
        r == spec_parse_id(s@),
{
    let n = s.len();
    let mut p: usize = 0;
    while p < n && s[p] != COLON
        invariant
            0 <= p <= n,
            n == s@.len(),
            forall|j: int| 0 <= j < p ==> #[trigger] s@[j] != COLON,
        decreases n - p,
    {
        p = p + 1;
    }
    if p == n {
        proof {
            lemma_find_colon_none(s@);
        }
        return None;
    }
    proof {
        lemma_find_colon_at(s@, p as int);
    }
    let vendor = parse_hex_field(s, 0, p);
    let product = parse_hex_field(s, p + 1, n);
    proof {
        assert(s@.take(p as int) =~= s@.subrange(0, p as int));
    }
    match (vendor, product) {
        (Some(v), Some(pr)) => Some((v, pr)),
        _ => None,
    }
}

/// Per-axis calibration: how raw integer values map to physical travel.
#[derive(Clone, Copy, Debug, PartialEq, Eq, Structural)]
pub struct AbsCalibration {
    /// Initial value of the axis.
    pub value: i32,
    /// Smallest raw value.
    pub minimum: i32,
    /// Largest raw value.
    pub maximum: i32,
    /// Noise filter width.
    pub fuzz: i32,
    /// Deadzone around the centre.
    pub flat: i32,
    /// Units per millimetre.
    pub resolution: i32,
}

/// One axis the device declares, with its calibration.
#[derive(Clone, Copy, Debug, PartialEq, Eq, Structural)]
pub struct AxisSetup {
    pub axis: AbsAxis,
    pub info: AbsCalibration,
}

/// The calibration every declared axis uses: full signed 16-bit travel,
/// no deadzone, no fuzz.  Sticks, d-pad and triggers share the encoding
/// and differ only in semantic role.
pub open spec fn spec_calibration() -> AbsCalibration {
    AbsCalibration { value: 0, minimum: -32767i32, maximum: 32767, fuzz: 0, flat: 0, resolution: 10 }
}

/// The eleven buttons the device declares, in declaration order.
pub open spec fn spec_button_caps() -> Seq<Key> {
    seq![
        Key::ButtonSouth,
        Key::ButtonEast,
        Key::ButtonNorth,
        Key::ButtonWest,
        Key::ButtonStart,
        Key::ButtonSelect,
        Key::ButtonTL,
        Key::ButtonTR,
        Key::ButtonThumbl,
        Key::ButtonThumbr,
        Key::ButtonMode,
    ]
}

/// The eight axes the device declares, in declaration order.
pub open spec fn spec_axis_caps() -> Seq<AbsAxis> {
    seq![
        AbsAxis::X,
        AbsAxis::Y,
        AbsAxis::RX,
        AbsAxis::RY,
        AbsAxis::Hat2Y,
        AbsAxis::Hat2X,
        AbsAxis::Hat0X,
        AbsAxis::Hat0Y,
    ]
}

/// Identity and declared capabilities of the virtual device, fixed at
/// creation time.  The kernel handle made from it is a singleton the
/// process owns for its lifetime.
#[derive(Clone, Debug)]
pub struct DeviceDescriptor {
    /// Bus type of the reported identity.
    pub bus_type: u16,
    /// Vendor id of the reported identity.
    pub vendor: u16,
    /// Product id of the reported identity.
    pub product: u16,
    /// Version of the reported identity.
    pub version: u16,
    /// Every button the device supports.
    pub keys: Vec<Key>,
    /// Every axis the device supports, with calibration.
    pub axes: Vec<AxisSetup>,
}

/// A descriptor declares the fixed capability set with the standard
/// calibration and the given identity.
pub open spec fn spec_descriptor_ok(d: DeviceDescriptor, vendor: u16, product: u16) -> bool {
    &&& d.bus_type == BUS_USB
    &&& d.vendor == vendor
    &&& d.product == product
    &&& d.version == 0
    &&& d.keys@ == spec_button_caps()
    &&& d.axes@ == spec_axis_caps().map_values(
        |a: AbsAxis| AxisSetup { axis: a, info: spec_calibration() },
    )
}

/// Why building the device failed.
#[derive(Clone, Copy, Debug, PartialEq, Eq, Structural)]
pub enum GamepadError {
    /// The device was already created; the kernel resource is
    /// single-creation and a second call is erroneous.
    AlreadyCreated,
    /// The identity override is not of the `"VVVV:PPPP"` hexadecimal
    /// form.
    BadIdentity,
}

impl GamepadError {
    /// User-facing description of the error.
    pub fn message(&self) -> (m: &'static str)
        ensures
            self is AlreadyCreated ==> m@ == "Device was already created."@,
            self is BadIdentity ==> m@
                == "Device identity must be of the form vendor:product, in hex."@,
    {
        match self {
            GamepadError::AlreadyCreated => "Device was already created.",
            GamepadError::BadIdentity => "Device identity must be of the form vendor:product, in hex.",
        }
    }
}

/// The virtual gamepad: builds its descriptor exactly once and encodes
/// button and axis changes for the created device.  The caller keeps the
/// kernel handle and serializes all writes on one lock.
#[derive(Clone, Copy, Debug, PartialEq, Eq, Structural)]
pub struct Gamepad {
    /// Whether the one-time creation step has happened.
    pub created: bool,
}

impl Gamepad {
    /// A gamepad whose device is not yet created.
    pub fn new() -> (g: Gamepad)
        ensures
            !g.created,
    {
        Gamepad { created: false }
    }

    /// Build the device descriptor, at most once.  With no override the
    /// identity is the default vendor/product pair; with one, the pair
    /// the override denotes.  Fails on a second call, and on a malformed
    /// override, in both cases without creating anything.
    pub fn create(&mut self, id: Option<&str>) -> (r: Result<DeviceDescriptor, GamepadError>)
        ensures
            old(self).created ==> r == Err::<DeviceDescriptor, GamepadError>(
                GamepadError::AlreadyCreated,
            ),
            !old(self).created ==> match id {
                None => r matches Ok(d) && spec_descriptor_ok(d, DEFAULT_VENDOR, DEFAULT_PRODUCT),
                Some(st) => match spec_parse_id(st.spec_bytes()) {
                    Some((v, p)) => r matches Ok(d) && spec_descriptor_ok(d, v, p),
                    None => r == Err::<DeviceDescriptor, GamepadError>(GamepadError::BadIdentity),
                },
            },
            final(self).created == (old(self).created || r is Ok),
    {
        if self.created {
            return Err(GamepadError::AlreadyCreated);
        }
        let mut vendor: u16 = DEFAULT_VENDOR;
        let mut product: u16 = DEFAULT_PRODUCT;
        match id {
            None => {},
            Some(st) => {
                match parse_device_id(st.as_bytes()) {
                    Some((v, p)) => {
                        vendor = v;
                        product = p;
                    },
                    None => {
                        return Err(GamepadError::BadIdentity);
                    },
                }
            },
        }
        let mut keys: Vec<Key> = Vec::new();
        keys.push(Key::ButtonSouth);
        keys.push(Key::ButtonEast);
        keys.push(Key::ButtonNorth);
        keys.push(Key::ButtonWest);
        keys.push(Key::ButtonStart);
        keys.push(Key::ButtonSelect);
        keys.push(Key::ButtonTL);
        keys.push(Key::ButtonTR);
        keys.push(Key::ButtonThumbl);
        keys.push(Key::ButtonThumbr);
        keys.push(Key::ButtonMode);
        proof {
            assert(keys@ =~= spec_button_caps());
        }
        let cal = AbsCalibration {
            value: 0,
            minimum: -32767,
            maximum: 32767,
            fuzz: 0,
            flat: 0,
            resolution: 10,
        };
        let mut axes: Vec<AxisSetup> = Vec::new();
        axes.push(AxisSetup { axis: AbsAxis::X, info: cal });
        axes.push(AxisSetup { axis: AbsAxis::Y, info: cal });
        axes.push(AxisSetup { axis: AbsAxis::RX, info: cal });
        axes.push(AxisSetup { axis: AbsAxis::RY, info: cal });
        axes.push(AxisSetup { axis: AbsAxis::Hat2Y, info: cal });
        axes.push(AxisSetup { axis: AbsAxis::Hat2X, info: cal });
        axes.push(AxisSetup { axis: AbsAxis::Hat0X, info: cal });
        axes.push(AxisSetup { axis: AbsAxis::Hat0Y, info: cal });
        proof {
            assert(axes@ =~= spec_axis_caps().map_values(
                |a: AbsAxis| AxisSetup { axis: a, info: spec_calibration() },
            ));
        }
        self.created = true;
        Ok(
            DeviceDescriptor {
                bus_type: BUS_USB,
                vendor,
                product,
                version: 0,
                keys,
                axes,
            },
        )
    }

    /// Encode a button change for the created device: the state-change
    /// record for the classified code, then the synchronization marker.
    /// An unrecognised code classifies as the `Unknown` sentinel, which
    /// is passed through unchanged.
    pub fn button(&self, code: i32, pressed: bool) -> (evs: Vec<EventRecord>)
        requires
            self.created,
        ensures
            evs@.len() == 2,
            evs@[0] == spec_key_record(spec_i32_to_key(code), pressed),
            evs@[1] == spec_sync_record(),
    {
        encode_button(i32_to_key(code), pressed)
    }

    /// Encode an axis change for the created device, from a value already
    /// scaled to the calibration range: the state-change record for the
    /// classified code, then the synchronization marker.
    pub fn axis(&self, code: i32, value: i32) -> (evs: Vec<EventRecord>)
        requires
            self.created,
        ensures
            evs@.len() == 2,
            evs@[0] == spec_axis_record(spec_i32_to_absaxis(code), value),
            evs@[1] == spec_sync_record(),
    {
        encode_axis(i32_to_absaxis(code), value)
    }
}

} // verus!
