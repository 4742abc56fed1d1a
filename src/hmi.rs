//! Human input and LED feedback: input events, LED names, and the decisions
//! taken on readings of the controls and on LED animation requests.
use vstd::prelude::*;

pub mod ledring;
pub mod leds;

verus! {

/// A button edge.
#[derive(Clone, Copy, Debug, PartialEq, Eq, Structural)]
pub enum Edge {
    Activate,
    Deactivate,
}

/// An event of the physical controls; values are 7-bit.
#[derive(Clone, Copy, Debug, PartialEq, Eq, Structural)]
pub enum InputEvent {
    ButtonA(Edge),
    ButtonB(Edge),
    ButtonC(Edge),
    ButtonD(Edge),
    ButtonE(Edge),
    ButtonF(Edge),
    ExpressionPedalA(u8),
    ExpressionPedalB(u8),
    VolButton(Edge),
    Vol(u8),
    GainButton(Edge),
    Gain(u8),
}

/// A colour.
#[derive(Clone, Copy, Debug, PartialEq, Eq, Structural)]
pub struct Rgb {
    pub r: u8,
    pub g: u8,
    pub b: u8,
}

/// No light.
#[verifier::allow_in_spec]
pub fn dark() -> Rgb
    returns
        (Rgb { r: 0x00, g: 0x00, b: 0x00 }),
{
    Rgb { r: 0x00, g: 0x00, b: 0x00 }
}

#[verifier::allow_in_spec]
pub fn white() -> Rgb
    returns
        (Rgb { r: 0xFF, g: 0xFF, b: 0xFF }),
{
    Rgb { r: 0xFF, g: 0xFF, b: 0xFF }
}

#[verifier::allow_in_spec]
pub fn red() -> Rgb
    returns
        (Rgb { r: 0xFF, g: 0x00, b: 0x00 }),
{
    Rgb { r: 0xFF, g: 0x00, b: 0x00 }
}

#[verifier::allow_in_spec]
pub fn yellow() -> Rgb
    returns
        (Rgb { r: 0xFF, g: 0xFF, b: 0x00 }),
{
    Rgb { r: 0xFF, g: 0xFF, b: 0x00 }
}

#[verifier::allow_in_spec]
pub fn green() -> Rgb
    returns
        (Rgb { r: 0x00, g: 0x80, b: 0x00 }),
{
    Rgb { r: 0x00, g: 0x80, b: 0x00 }
}

#[verifier::allow_in_spec]
pub fn blue() -> Rgb
    returns
        (Rgb { r: 0x00, g: 0x00, b: 0xFF }),
{
    Rgb { r: 0x00, g: 0x00, b: 0xFF }
}

#[verifier::allow_in_spec]
pub fn dark_red() -> Rgb
    returns
        (Rgb { r: 0x8B, g: 0x00, b: 0x00 }),
{
    Rgb { r: 0x8B, g: 0x00, b: 0x00 }
}

#[verifier::allow_in_spec]
pub fn orange_red() -> Rgb
    returns
        (Rgb { r: 0xFF, g: 0x45, b: 0x00 }),
{
    Rgb { r: 0xFF, g: 0x45, b: 0x00 }
}

#[verifier::allow_in_spec]
pub fn sea_green() -> Rgb
    returns
        (Rgb { r: 0x2E, g: 0x8B, b: 0x57 }),
{
    Rgb { r: 0x2E, g: 0x8B, b: 0x57 }
}

#[verifier::allow_in_spec]
pub fn dark_green() -> Rgb
    returns
        (Rgb { r: 0x00, g: 0x64, b: 0x00 }),
{
    Rgb { r: 0x00, g: 0x64, b: 0x00 }
}

#[verifier::allow_in_spec]
pub fn cyan() -> Rgb
    returns
        (Rgb { r: 0x00, g: 0xFF, b: 0xFF }),
{
    Rgb { r: 0x00, g: 0xFF, b: 0xFF }
}

#[verifier::allow_in_spec]
pub fn dark_blue() -> Rgb
    returns
        (Rgb { r: 0x00, g: 0x00, b: 0x8B }),
{
    Rgb { r: 0x00, g: 0x00, b: 0x8B }
}

#[verifier::allow_in_spec]
pub fn violet() -> Rgb
    returns
        (Rgb { r: 0xEE, g: 0x82, b: 0xEE }),
{
    Rgb { r: 0xEE, g: 0x82, b: 0xEE }
}

/// A turn of a rotary encoder.
#[derive(Clone, Copy, Debug, PartialEq, Eq, Structural)]
pub enum Turn {
    Clockwise,
    Anticlockwise,
    Still,
}

/// The value after a turn: clockwise counts up to 127, anticlockwise down to
/// 1; every turn reports the value, limited to seven bits.
pub open spec fn rotary_next(value: u8, turn: Turn) -> (u8, Option<u8>) {
    match turn {
        Turn::Clockwise => {
            let v = if value < 127 { (value + 1) as u8 } else { value };
            (v, Some(seven(v)))
        },
        Turn::Anticlockwise => {
            let v = if value > 1 { (value - 1) as u8 } else { value };
            (v, Some(seven(v)))
        },
        Turn::Still => (value, None),
    }
}

/// The value after a turn of a rotary encoder, and the value to report.
pub fn rotary_update(value: u8, turn: Turn) -> (r: (u8, Option<u8>))
    ensures
        r == rotary_next(value, turn),
{
    match turn {
        Turn::Clockwise => {
            let v = if value < 127 {
                value + 1
            } else {
                value
            };
            (v, Some(seven_bits(v)))
        },
        Turn::Anticlockwise => {
            let v = if value > 1 {
                value - 1
            } else {
                value
            };
            (v, Some(seven_bits(v)))
        },
        Turn::Still => (value, None),
    }
}

/// A byte limited to seven bits.
fn seven_bits(v: u8) -> (r: u8)
    ensures
        r == seven(v),
{
    if v > 127 {
        127
    } else {
        v
    }
}

/// Smallest change of an expression pedal that is reported.
pub const PEDAL_THRESHOLD: u8 = 3;

/// The pedal position after a new moving average of its 12-bit readings: the
/// average scaled down by 32 (and cut to a byte) is taken, and reported, only
/// when it is more than 2 away from the current position.
pub open spec fn pedal_next(current: u8, average: u16) -> (u8, Option<u8>) {
    let new = (average / 32 % 256) as u8;
    let diff = if current >= new { current - new } else { new - current };
    if diff >= PEDAL_THRESHOLD {
        (new, Some(seven(new)))
    } else {
        (current, None)
    }
}

/// A byte limited to seven bits.
pub open spec fn seven(v: u8) -> u8 {
    if v > 127 {
        127
    } else {
        v
    }
}

/// The pedal position after a new moving average, and the value to report.
pub fn expression_pedal_update(current: u8, average: u16) -> (r: (u8, Option<u8>))
    ensures
        r == pedal_next(current, average),
{
    let new = ((average >> 5) & 0xFF) as u8;
    assert(((average >> 5) & 0xFF) == average / 32 % 256) by (bit_vector);
    let diff = if current >= new {
        current - new
    } else {
        new - current
    };
    if diff >= PEDAL_THRESHOLD {
        (new, Some(seven_bits(new)))
    } else {
        (current, None)
    }
}

/// Readings skipped between two pedal readings.
pub const PEDAL_SAMPLE_REDUCTION: u8 = 25;

/// The sample counter after a tick, and whether the pedals are read now:
/// they are read once the counter passes [`PEDAL_SAMPLE_REDUCTION`], every
/// 26th tick when counting from 0.
pub fn pedal_sample_due(counter: u8) -> (r: (u8, bool))
    requires
        counter < 255,
    ensures
        counter < PEDAL_SAMPLE_REDUCTION ==> r == ((counter + 1) as u8, false),
        counter >= PEDAL_SAMPLE_REDUCTION ==> r == (0u8, true),
{
    let next = counter + 1;
    if next <= PEDAL_SAMPLE_REDUCTION {
        (next, false)
    } else {
        (0, true)
    }
}

} // verus!
