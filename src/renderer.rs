//! Rendering responses (and, for a host, requests) into SysEx messages.
use vstd::prelude::*;

use crate::codec::{all_fit, encode_value, encode_values, fits, max_value, value_width, width, ValueSize};
use crate::protocol::{
    Amount, FirmwareVersion, HardwareUid, MessageStatus, Response, SpecialResponse,
};
use crate::wire::{
    part_byte, response_bytes, response_fits, special_response_code,
    special_values, uid_values, version_values, MANUFACTURER_ID_0, MANUFACTURER_ID_1,
    MANUFACTURER_ID_2, MAX_MESSAGE_LEN, SYSEX_END, SYSEX_START,
};

verus! {

/// Why a response could not be rendered.
#[derive(Clone, Copy, Debug, PartialEq, Eq, Structural)]
pub enum RenderError {
    /// A field does not fit the value width.
    ValueOutOfRange,
    /// The message would be longer than [`MAX_MESSAGE_LEN`].
    BufferFull,
}

/// Renders messages at a fixed value width.
#[derive(Clone, Copy, Debug)]
pub struct Renderer {
    pub value_size: ValueSize,
}

/// Whether every value fits the width.
fn values_fit(vs: &[u16], w: ValueSize) -> (r: bool)
    ensures
        r == all_fit(vs@, w),
{
    let max: u16 = match w {
        ValueSize::OneByte => 127,
        ValueSize::TwoBytes => 16383,
    };
    let mut k: usize = 0;
    while k < vs.len()
        invariant
            k <= vs.len(),
            max as int == max_value(w),
            forall|j: int| 0 <= j < k ==> fits(#[trigger] vs@[j] as int, w),
        decreases vs.len() - k,
    {
        if vs[k] > max {
            return false;
        }
        k += 1;
    }
    true
}

/// A firmware version as three values.
fn version_values_of(v: FirmwareVersion, out: &mut Vec<u16>)
    ensures
        final(out)@ == old(out)@ + version_values(v),
{
    out.push(v.major as u16);
    out.push(v.minor as u16);
    out.push(v.revision as u16);
    assert(final(out)@ =~= old(out)@ + version_values(v));
}

/// A hardware id as its four bytes, most significant first.
fn uid_values_of(u: HardwareUid, out: &mut Vec<u16>)
    ensures
        final(out)@ == old(out)@ + uid_values(u),
{
    out.push((u.0 / 0x1000000) as u16);
    out.push((u.0 / 0x10000 % 0x100) as u16);
    out.push((u.0 / 0x100 % 0x100) as u16);
    out.push((u.0 % 0x100) as u16);
    assert(final(out)@ =~= old(out)@ + uid_values(u));
}

/// The values that a special response carries.
fn special_values_of(sr: SpecialResponse, w: ValueSize) -> (r: Vec<u16>)
    ensures
        r@ == special_values(sr, w),
{
    let mut out: Vec<u16> = Vec::new();
    match sr {
        SpecialResponse::Handshake => {},
        SpecialResponse::ValueSize => out.push(value_width(w) as u16),
        SpecialResponse::ValuesPerMessage(n) => out.push(n),
        SpecialResponse::FirmwareVersion(v) => version_values_of(v, &mut out),
        SpecialResponse::HardwareUID(u) => uid_values_of(u, &mut out),
        SpecialResponse::FirmwareVersionAndHardwareUUID(v, u) => {
            version_values_of(v, &mut out);
            uid_values_of(u, &mut out);
        },
        SpecialResponse::BootloaderSupport(b) => out.push(if b { 1 } else { 0 }),
        SpecialResponse::NrOfSupportedPresets(n) => out.push(n),
        SpecialResponse::NrOfSupportedComponents(c) => {
            out.push(c.buttons);
            out.push(c.encoders);
            out.push(c.analog);
            out.push(c.leds);
            out.push(c.touchscreen_buttons);
        },
    }
    assert(out@ =~= special_values(sr, w));
    out
}

/// The opcode of a special response.
fn special_response_opcode(sr: SpecialResponse) -> (r: u8)
    ensures
        r == special_response_code(sr),
{
    match sr {
        SpecialResponse::Handshake => 0x01,
        SpecialResponse::ValueSize => 0x02,
        SpecialResponse::ValuesPerMessage(_) => 0x03,
        SpecialResponse::HardwareUID(_) => 0x42,
        SpecialResponse::FirmwareVersionAndHardwareUUID(_, _) => 0x43,
        SpecialResponse::NrOfSupportedComponents(_) => 0x4D,
        SpecialResponse::NrOfSupportedPresets(_) => 0x50,
        SpecialResponse::BootloaderSupport(_) => 0x51,
        SpecialResponse::FirmwareVersion(_) => 0x56,
    }
}

/// The start of a message: header, status and part.
fn frame_start(status: u8, part: u8) -> (r: Vec<u8>)
    ensures
        r@ == seq![SYSEX_START, MANUFACTURER_ID_0, MANUFACTURER_ID_1, MANUFACTURER_ID_2, status, part],
{
    let mut out: Vec<u8> = Vec::new();
    out.push(SYSEX_START);
    out.push(MANUFACTURER_ID_0);
    out.push(MANUFACTURER_ID_1);
    out.push(MANUFACTURER_ID_2);
    out.push(status);
    out.push(part);
    assert(out@ =~= seq![SYSEX_START, MANUFACTURER_ID_0, MANUFACTURER_ID_1, MANUFACTURER_ID_2, status, part]);
    out
}

/// The amount byte of a configuration message.
fn amount_byte(a: Amount) -> (r: u8)
    ensures
        r == crate::wire::amount_code(a),
{
    match a {
        Amount::Single => 0,
        Amount::All(_) => 1,
    }
}

/// The part byte of a configuration message.
fn part_of(a: Amount) -> (r: u8)
    ensures
        r == part_byte(a),
{
    match a {
        Amount::Single => 0,
        Amount::All(p) => p,
    }
}

impl Renderer {
    /// A renderer for the given value width.
    pub fn new(value_size: ValueSize) -> (r: Renderer)
        ensures
            r.value_size == value_size,
    {
        Renderer { value_size }
    }

    /// Renders a response with the given status. Fails, rather than
    /// truncating, when a field does not fit the value width or the message
    /// would not fit [`MAX_MESSAGE_LEN`] bytes.
    pub fn render(&self, response: &Response, status: MessageStatus) -> (r: Result<Vec<u8>, RenderError>)
        ensures
            match r {
                Ok(buf) => {
                    &&& response_fits(response@, self.value_size)
                    &&& buf@ == response_bytes(response@, status, self.value_size)
                    &&& buf@.len() <= MAX_MESSAGE_LEN
                },
                Err(RenderError::ValueOutOfRange) => !response_fits(response@, self.value_size),
                Err(RenderError::BufferFull) => {
                    &&& response_fits(response@, self.value_size)
                    &&& response_bytes(response@, status, self.value_size).len() > MAX_MESSAGE_LEN
                },
            },
    {
        let w = self.value_size;
        let wd = value_width(w);
        let ghost expected = response_bytes(response@, status, w);
        match response {
            Response::Special(sr) => {
                let vs = special_values_of(*sr, w);
                if !values_fit(vs.as_slice(), w) {
                    return Err(RenderError::ValueOutOfRange);
                }
                let n = vs.len();
                if n > MAX_MESSAGE_LEN || 8 + n * wd > MAX_MESSAGE_LEN {
                    proof {
                        assert(expected.len() == 8 + n * width(w));
                    }
                    return Err(RenderError::BufferFull);
                }
                let mut out = frame_start(status.code(), 0);
                out.push(special_response_opcode(*sr));
                encode_values(vs.as_slice(), w, &mut out);
                out.push(SYSEX_END);
                proof {
                    assert(out@ =~= expected);
                }
                Ok(out)
            },
            Response::Configuration(wish, amount, block, vs) => {
                let (bc, sc, index) = block.address();
                let part = part_of(*amount);
                let max: u16 = match w {
                    ValueSize::OneByte => 127,
                    ValueSize::TwoBytes => 16383,
                };
                if part >= 128 || sc >= 128 || index > max || !values_fit(vs.as_slice(), w) {
                    return Err(RenderError::ValueOutOfRange);
                }
                let n = vs.len();
                if n > MAX_MESSAGE_LEN || 11 + wd + n * wd > MAX_MESSAGE_LEN {
                    proof {
                        assert(expected.len() == 11 + width(w) + n * width(w));
                    }
                    return Err(RenderError::BufferFull);
                }
                let mut out = frame_start(status.code(), part);
                out.push(wish.code());
                out.push(amount_byte(*amount));
                out.push(bc);
                out.push(sc);
                encode_value(index, w, &mut out);
                encode_values(vs.as_slice(), w, &mut out);
                out.push(SYSEX_END);
                proof {
                    assert(out@ =~= expected);
                }
                Ok(out)
            },
        }
    }
}

} // verus!
