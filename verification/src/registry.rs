//! Symbolic gamepad identifiers and their wire-level codes.
//!
//! Scripts refer to buttons and axes by symbolic names; every name maps to
//! exactly one wire code (several names may alias the same code, e.g. the
//! Xbox, PlayStation and generic spellings of the south button).  The reverse
//! direction, from a runtime-supplied integer back to an internal identifier,
//! fails soft: an unrecognised code yields a sentinel instead of an error.

use vstd::prelude::*;

verus! {

/// A button the virtual controller supports, plus a fail-soft sentinel for
/// wire codes that name no supported button.
#[derive(Clone, Copy, Debug, PartialEq, Eq, Structural)]
pub enum Key {
    ButtonSouth,
    ButtonEast,
    ButtonWest,
    ButtonNorth,
    ButtonStart,
    ButtonSelect,
    ButtonMode,
    ButtonTL,
    ButtonTR,
    ButtonThumbl,
    ButtonThumbr,
    Unknown,
}

/// An absolute axis the virtual controller supports, plus a reserved
/// sentinel for wire codes that name no supported axis.
#[derive(Clone, Copy, Debug, PartialEq, Eq, Structural)]
pub enum AbsAxis {
    X,
    Y,
    RX,
    RY,
    Hat0X,
    Hat0Y,
    Hat2X,
    Hat2Y,
    Reserved,
}

/// The evdev `KEY_*`/`BTN_*` code of a key, `KEY_UNKNOWN` for the sentinel.
pub open spec fn spec_key_code(k: Key) -> u16 {
    match k {
        Key::ButtonSouth => 0x130,
        Key::ButtonEast => 0x131,
        Key::ButtonWest => 0x134,
        Key::ButtonNorth => 0x133,
        Key::ButtonStart => 0x13b,
        Key::ButtonSelect => 0x13a,
        Key::ButtonMode => 0x13c,
        Key::ButtonTL => 0x136,
        Key::ButtonTR => 0x137,
        Key::ButtonThumbl => 0x13d,
        Key::ButtonThumbr => 0x13e,
        Key::Unknown => 240,
    }
}

/// The evdev `ABS_*` code of an axis, `ABS_RESERVED` for the sentinel.
pub open spec fn spec_axis_code(a: AbsAxis) -> u16 {
    match a {
        AbsAxis::X => 0x00,
        AbsAxis::Y => 0x01,
        AbsAxis::RX => 0x03,
        AbsAxis::RY => 0x04,
        AbsAxis::Hat0X => 0x10,
        AbsAxis::Hat0Y => 0x11,
        AbsAxis::Hat2X => 0x14,
        AbsAxis::Hat2Y => 0x15,
        AbsAxis::Reserved => 0x2e,
    }
}

impl Key {
    /// Wire code of this key.
    pub fn code(&self) -> (c: u16)
        ensures
            c == spec_key_code(*self),
    {
        match self {
            Key::ButtonSouth => 0x130,
            Key::ButtonEast => 0x131,
            Key::ButtonWest => 0x134,
            Key::ButtonNorth => 0x133,
            Key::ButtonStart => 0x13b,
            Key::ButtonSelect => 0x13a,
            Key::ButtonMode => 0x13c,
            Key::ButtonTL => 0x136,
            Key::ButtonTR => 0x137,
            Key::ButtonThumbl => 0x13d,
            Key::ButtonThumbr => 0x13e,
            Key::Unknown => 240,
        }
    }
}

impl AbsAxis {
    /// Wire code of this axis.
    pub fn code(&self) -> (c: u16)
        ensures
            c == spec_axis_code(*self),
    {
        match self {
            AbsAxis::X => 0x00,
            AbsAxis::Y => 0x01,
            AbsAxis::RX => 0x03,
            AbsAxis::RY => 0x04,
            AbsAxis::Hat0X => 0x10,
            AbsAxis::Hat0Y => 0x11,
            AbsAxis::Hat2X => 0x14,
            AbsAxis::Hat2Y => 0x15,
            AbsAxis::Reserved => 0x2e,
        }
    }
}

/// Symbolic button names exposed to scripts: the Xbox, PlayStation and
/// generic spellings.  Many names alias one wire code, never the reverse.
#[derive(Clone, Copy, Debug, PartialEq, Eq, Structural)]
pub enum ButtonName {
    BtnA,
    BtnB,
    BtnX,
    BtnY,
    BtnMenu,
    BtnStart,
    BtnView,
    BtnSelect,
    BtnMode,
    BtnXbox,
    BtnLb,
    BtnRb,
    BtnLs,
    BtnRs,
    BtnCross,
    BtnCircle,
    BtnSquare,
    BtnTriangle,
    BtnOptions,
    BtnShare,
    BtnPs,
    BtnL1,
    BtnR1,
    BtnL3,
    BtnR3,
    BtnSouth,
    BtnEast,
    BtnWest,
    BtnNorth,
    BtnLbumper,
    BtnRbumper,
    BtnLthumb,
    BtnRthumb,
}

/// Symbolic axis names exposed to scripts.
#[derive(Clone, Copy, Debug, PartialEq, Eq, Structural)]
pub enum AxisName {
    AxisLstickX,
    AxisLstickY,
    AxisRstickX,
    AxisRstickY,
    AxisLtrigger,
    AxisRtrigger,
    AxisDpadX,
    AxisDpadY,
}

/// The key each symbolic button name stands for.
pub open spec fn spec_button_key(n: ButtonName) -> Key {
    match n {
        ButtonName::BtnA => Key::ButtonSouth,
        ButtonName::BtnB => Key::ButtonEast,
        ButtonName::BtnX => Key::ButtonWest,
        ButtonName::BtnY => Key::ButtonNorth,
        ButtonName::BtnMenu => Key::ButtonStart,
        ButtonName::BtnStart => Key::ButtonStart,
        ButtonName::BtnView => Key::ButtonSelect,
        ButtonName::BtnSelect => Key::ButtonSelect,
        ButtonName::BtnMode => Key::ButtonMode,
        ButtonName::BtnXbox => Key::ButtonMode,
        ButtonName::BtnLb => Key::ButtonTL,
        ButtonName::BtnRb => Key::ButtonTR,
        ButtonName::BtnLs => Key::ButtonThumbl,
        ButtonName::BtnRs => Key::ButtonThumbr,
        ButtonName::BtnCross => Key::ButtonSouth,
        ButtonName::BtnCircle => Key::ButtonEast,
        ButtonName::BtnSquare => Key::ButtonWest,
        ButtonName::BtnTriangle => Key::ButtonNorth,
        ButtonName::BtnOptions => Key::ButtonStart,
        ButtonName::BtnShare => Key::ButtonSelect,
        ButtonName::BtnPs => Key::ButtonMode,
        ButtonName::BtnL1 => Key::ButtonTL,
        ButtonName::BtnR1 => Key::ButtonTR,
        ButtonName::BtnL3 => Key::ButtonThumbl,
        ButtonName::BtnR3 => Key::ButtonThumbr,
        ButtonName::BtnSouth => Key::ButtonSouth,
        ButtonName::BtnEast => Key::ButtonEast,
        ButtonName::BtnWest => Key::ButtonWest,
        ButtonName::BtnNorth => Key::ButtonNorth,
        ButtonName::BtnLbumper => Key::ButtonTL,
        ButtonName::BtnRbumper => Key::ButtonTR,
        ButtonName::BtnLthumb => Key::ButtonThumbl,
        ButtonName::BtnRthumb => Key::ButtonThumbr,
    }
}

/// The axis each symbolic axis name stands for.
pub open spec fn spec_axis_of_name(n: AxisName) -> AbsAxis {
    match n {
        AxisName::AxisLstickX => AbsAxis::X,
        AxisName::AxisLstickY => AbsAxis::Y,
        AxisName::AxisRstickX => AbsAxis::RX,
        AxisName::AxisRstickY => AbsAxis::RY,
        AxisName::AxisLtrigger => AbsAxis::Hat2Y,
        AxisName::AxisRtrigger => AbsAxis::Hat2X,
        AxisName::AxisDpadX => AbsAxis::Hat0X,
        AxisName::AxisDpadY => AbsAxis::Hat0Y,
    }
}

/// Wire code a symbolic button name resolves to, as handed to scripts.
pub open spec fn spec_button_symbol_code(n: ButtonName) -> i32 {
    spec_key_code(spec_button_key(n)) as i32
}

/// Wire code a symbolic axis name resolves to, as handed to scripts.
pub open spec fn spec_axis_symbol_code(n: AxisName) -> i32 {
    spec_axis_code(spec_axis_of_name(n)) as i32
}

/// Static table lookup from a symbolic button name to its wire code.
pub fn button_symbol_to_code(n: ButtonName) -> (c: i32)
    ensures
        c == spec_button_symbol_code(n),
{
    let k = button_key(n);
    k.code() as i32
}

/// Static table lookup from a symbolic axis name to its wire code.
pub fn axis_symbol_to_code(n: AxisName) -> (c: i32)
    ensures
        c == spec_axis_symbol_code(n),
{
    let a = axis_of_name(n);
    a.code() as i32
}

/// Key a symbolic button name stands for.
fn button_key(n: ButtonName) -> (k: Key)
    ensures
        k == spec_button_key(n),
{
    match n {
        ButtonName::BtnA => Key::ButtonSouth,
        ButtonName::BtnB => Key::ButtonEast,
        ButtonName::BtnX => Key::ButtonWest,
        ButtonName::BtnY => Key::ButtonNorth,
        ButtonName::BtnMenu => Key::ButtonStart,
        ButtonName::BtnStart => Key::ButtonStart,
        ButtonName::BtnView => Key::ButtonSelect,
        ButtonName::BtnSelect => Key::ButtonSelect,
        ButtonName::BtnMode => Key::ButtonMode,
        ButtonName::BtnXbox => Key::ButtonMode,
        ButtonName::BtnLb => Key::ButtonTL,
        ButtonName::BtnRb => Key::ButtonTR,
        ButtonName::BtnLs => Key::ButtonThumbl,
        ButtonName::BtnRs => Key::ButtonThumbr,
        ButtonName::BtnCross => Key::ButtonSouth,
        ButtonName::BtnCircle => Key::ButtonEast,
        ButtonName::BtnSquare => Key::ButtonWest,
        ButtonName::BtnTriangle => Key::ButtonNorth,
        ButtonName::BtnOptions => Key::ButtonStart,
        ButtonName::BtnShare => Key::ButtonSelect,
        ButtonName::BtnPs => Key::ButtonMode,
        ButtonName::BtnL1 => Key::ButtonTL,
        ButtonName::BtnR1 => Key::ButtonTR,
        ButtonName::BtnL3 => Key::ButtonThumbl,
        ButtonName::BtnR3 => Key::ButtonThumbr,
        ButtonName::BtnSouth => Key::ButtonSouth,
        ButtonName::BtnEast => Key::ButtonEast,
        ButtonName::BtnWest => Key::ButtonWest,
        ButtonName::BtnNorth => Key::ButtonNorth,
        ButtonName::BtnLbumper => Key::ButtonTL,
        ButtonName::BtnRbumper => Key::ButtonTR,
        ButtonName::BtnLthumb => Key::ButtonThumbl,
        ButtonName::BtnRthumb => Key::ButtonThumbr,
    }
}

/// Axis a symbolic axis name stands for.
fn axis_of_name(n: AxisName) -> (a: AbsAxis)
    ensures
        a == spec_axis_of_name(n),
{
    match n {
        AxisName::AxisLstickX => AbsAxis::X,
        AxisName::AxisLstickY => AbsAxis::Y,
        AxisName::AxisRstickX => AbsAxis::RX,
        AxisName::AxisRstickY => AbsAxis::RY,
        AxisName::AxisLtrigger => AbsAxis::Hat2Y,
        AxisName::AxisRtrigger => AbsAxis::Hat2X,
        AxisName::AxisDpadX => AbsAxis::Hat0X,
        AxisName::AxisDpadY => AbsAxis::Hat0Y,
    }
}

/// Fail-soft reverse lookup from a wire code to a key.
pub open spec fn spec_i32_to_key(a: i32) -> Key {
    if a == 0x130 {
        Key::ButtonSouth
    } else if a == 0x131 {
        Key::ButtonEast
    } else if a == 0x134 {
        Key::ButtonWest
    } else if a == 0x133 {
        Key::ButtonNorth
    } else if a == 0x13b {
        Key::ButtonStart
    } else if a == 0x13a {
        Key::ButtonSelect
    } else if a == 0x13c {
        Key::ButtonMode
    } else if a == 0x136 {
        Key::ButtonTL
    } else if a == 0x137 {
        Key::ButtonTR
    } else if a == 0x13d {
        Key::ButtonThumbl
    } else if a == 0x13e {
        Key::ButtonThumbr
    } else {
        Key::Unknown
    }
}

/// Fail-soft reverse lookup from a wire code to an axis.
pub open spec fn spec_i32_to_absaxis(a: i32) -> AbsAxis {
    if a == 0x00 {
        AbsAxis::X
    } else if a == 0x01 {
        AbsAxis::Y
    } else if a == 0x03 {
        AbsAxis::RX
    } else if a == 0x04 {
        AbsAxis::RY
    } else if a == 0x11 {
        AbsAxis::Hat0Y
    } else if a == 0x10 {
        AbsAxis::Hat0X
    } else if a == 0x15 {
        AbsAxis::Hat2Y
    } else if a == 0x14 {
        AbsAxis::Hat2X
    } else {
        AbsAxis::Reserved
    }
}

/// Classify a runtime-supplied wire code as a key.  Unrecognised codes
/// yield `Key::Unknown` rather than an error: the integer comes straight
/// from script code and is not statically validated.
pub fn i32_to_key(a: i32) -> (k: Key)
    ensures
        k == spec_i32_to_key(a),
{
    if a == 0x130 {
        Key::ButtonSouth
    } else if a == 0x131 {
        Key::ButtonEast
    } else if a == 0x134 {
        Key::ButtonWest
    } else if a == 0x133 {
        Key::ButtonNorth
    } else if a == 0x13b {
        Key::ButtonStart
    } else if a == 0x13a {
        Key::ButtonSelect
    } else if a == 0x13c {
        Key::ButtonMode
    } else if a == 0x136 {
        Key::ButtonTL
    } else if a == 0x137 {
        Key::ButtonTR
    } else if a == 0x13d {
        Key::ButtonThumbl
    } else if a == 0x13e {
        Key::ButtonThumbr
    } else {
        Key::Unknown
    }
}

/// Classify a runtime-supplied wire code as an axis, `AbsAxis::Reserved`
/// for unrecognised codes.
pub fn i32_to_absaxis(a: i32) -> (x: AbsAxis)
    ensures
        x == spec_i32_to_absaxis(a),
{
    if a == 0x00 {
        AbsAxis::X
    } else if a == 0x01 {
        AbsAxis::Y
    } else if a == 0x03 {
        AbsAxis::RX
    } else if a == 0x04 {
        AbsAxis::RY
    } else if a == 0x11 {
        AbsAxis::Hat0Y
    } else if a == 0x10 {
        AbsAxis::Hat0X
    } else if a == 0x15 {
        AbsAxis::Hat2Y
    } else if a == 0x14 {
        AbsAxis::Hat2X
    } else {
        AbsAxis::Reserved
    }
}

/// Registry round trip: resolving any symbolic button name to its wire
/// code and classifying that code again recovers a key with the same
/// code, and never the fail-soft sentinel.
pub proof fn lemma_button_round_trip(n: ButtonName)
    ensures
        spec_key_code(spec_i32_to_key(spec_button_symbol_code(n))) == spec_button_symbol_code(n),
        spec_i32_to_key(spec_button_symbol_code(n)) != Key::Unknown,
{
}

/// Aliasing is many-to-one, never one-to-many: two symbolic button names
/// that stand for the same key resolve to the same wire code (each name,
/// being a function argument, already maps to exactly one code).
pub proof fn lemma_aliases_share_code(a: ButtonName, b: ButtonName)
    requires
        spec_button_key(a) == spec_button_key(b),
    ensures
        spec_button_symbol_code(a) == spec_button_symbol_code(b),
{
}

/// Registry round trip for axes: resolving any symbolic axis name to its
/// wire code and classifying that code again recovers an axis with the
/// same code, and never the reserved sentinel.
pub proof fn lemma_axis_round_trip(n: AxisName)
    ensures
        spec_axis_code(spec_i32_to_absaxis(spec_axis_symbol_code(n))) == spec_axis_symbol_code(n),
        spec_i32_to_absaxis(spec_axis_symbol_code(n)) != AbsAxis::Reserved,
{
}

} // verus!
