//! Parsing SysEx messages into requests (and, for a host, responses).
use vstd::prelude::*;

use crate::codec::{decode_value, decode_values_in, value_at, value_readable, value_width, width, ValueSize};
use crate::protocol::{
    Amount, Block, FirmwareVersion, HardwareUid, MessageStatus, NrOfSupportedComponents,
    ParseError, Request, Response, SpecialRequest, SpecialResponse, Wish,
};
use crate::wire::{
    amount_from, frame_body, frame_ok, is_config_body, parse_config, parse_request_spec,
    parse_response_spec, special_response_from, uid_from, version_from,
    MANUFACTURER_ID_0, MANUFACTURER_ID_1, MANUFACTURER_ID_2, SYSEX_END, SYSEX_START,
};

verus! {

/// Parses messages at a fixed value width.
#[derive(Clone, Copy, Debug)]
pub struct Parser {
    pub value_size: ValueSize,
}

/// Whether header and end byte are in place.
fn frame_check(b: &[u8]) -> (r: bool)
    ensures
        r == frame_ok(b@),
{
    b.len() >= 7 && b[0] == SYSEX_START && b[1] == MANUFACTURER_ID_0 && b[2] == MANUFACTURER_ID_1
        && b[3] == MANUFACTURER_ID_2 && b[b.len() - 1] == SYSEX_END
}

/// The amount given by the amount and part bytes, if any.
fn amount_from_bytes(code: u8, part: u8) -> (r: Option<Amount>)
    ensures
        r == amount_from(code, part),
{
    if code == 0 && part == 0 {
        Some(Amount::Single)
    } else if code == 1 && part < 128 {
        Some(Amount::All(part))
    } else {
        None
    }
}

/// Parses the configuration body of a framed message.
fn parse_config_body(b: &[u8], w: ValueSize) -> (r: Option<(Wish, Amount, Block, Vec<u16>)>)
    requires
        frame_ok(b@),
        is_config_body(frame_body(b@), w),
    ensures
        match r {
            Some((wish, amount, block, vs)) => parse_config(b@[5], frame_body(b@), w) == Some(
                (wish, amount, block, vs@),
            ),
            None => parse_config(b@[5], frame_body(b@), w) is None,
        },
{
    let ghost body = frame_body(b@);
    assert(forall|k: int| 0 <= k < body.len() ==> body[k] == b@[6 + k]);
    let wd = value_width(w);
    let wish = match Wish::from_code(b[6]) {
        Some(wish) => wish,
        None => return None,
    };
    let amount = match amount_from_bytes(b[7], b[5]) {
        Some(amount) => amount,
        None => return None,
    };
    let index = match decode_value(b, 10, w) {
        Some(index) => index,
        None => {
            proof {
                let j = choose|j: int| 10 <= j < 10 + width(w) && !crate::codec::is_data_byte(#[trigger] b@[j]);
                assert(body[j - 6] == b@[j]);
            }
            return None;
        },
    };
    proof {
        assert(value_readable(body, 4, w));
        assert(value_at(body, 4, w) == index);
    }
    let block = match Block::from_address(b[8], b[9], index) {
        Some(block) => block,
        None => return None,
    };
    let end = b.len() - 1;
    let vs = decode_values_in(b, 10 + wd, end, w);
    proof {
        assert(body.subrange(4 + width(w), body.len() as int) =~= b@.subrange(
            10 + width(w),
            end as int,
        ));
    }
    match vs {
        Some(vs) => Some((wish, amount, block, vs)),
        None => None,
    }
}

/// A firmware version from three values, if each fits a byte.
fn version_from_values(vs: &[u16]) -> (r: Option<FirmwareVersion>)
    ensures
        r == version_from(vs@),
{
    if vs.len() == 3 && vs[0] < 256 && vs[1] < 256 && vs[2] < 256 {
        Some(FirmwareVersion { major: vs[0] as u8, minor: vs[1] as u8, revision: vs[2] as u8 })
    } else {
        None
    }
}

/// A hardware id from four byte values, most significant first.
fn uid_from_values(vs: &[u16]) -> (r: Option<HardwareUid>)
    ensures
        r == uid_from(vs@),
{
    if vs.len() == 4 && vs[0] < 256 && vs[1] < 256 && vs[2] < 256 && vs[3] < 256 {
        Some(
            HardwareUid(
                vs[0] as u32 * 0x1000000 + vs[1] as u32 * 0x10000 + vs[2] as u32 * 0x100
                    + vs[3] as u32,
            ),
        )
    } else {
        None
    }
}

/// The special response with the given opcode and values, if any.
fn special_response_from_values(op: u8, vs: &[u16], w: ValueSize) -> (r: Option<SpecialResponse>)
    ensures
        r == special_response_from(op, vs@, w),
{
    let n = vs.len();
    if op == 0x01 && n == 0 {
        Some(SpecialResponse::Handshake)
    } else if op == 0x02 && n == 1 && vs[0] == value_width(w) as u16 {
        Some(SpecialResponse::ValueSize)
    } else if op == 0x03 && n == 1 {
        Some(SpecialResponse::ValuesPerMessage(vs[0]))
    } else if op == 0x42 && uid_from_values(vs).is_some() {
        match uid_from_values(vs) {
            Some(u) => Some(SpecialResponse::HardwareUID(u)),
            None => None,
        }
    } else if op == 0x43 && n == 7 {
        let version = version_from_values(&vs[0..3]);
        let uid = uid_from_values(&vs[3..7]);
        match (version, uid) {
            (Some(v), Some(u)) => Some(SpecialResponse::FirmwareVersionAndHardwareUUID(v, u)),
            _ => None,
        }
    } else if op == 0x4D && n == 5 {
        Some(
            SpecialResponse::NrOfSupportedComponents(
                NrOfSupportedComponents {
                    buttons: vs[0],
                    encoders: vs[1],
                    analog: vs[2],
                    leds: vs[3],
                    touchscreen_buttons: vs[4],
                },
            ),
        )
    } else if op == 0x50 && n == 1 {
        Some(SpecialResponse::NrOfSupportedPresets(vs[0]))
    } else if op == 0x51 && n == 1 && vs[0] <= 1 {
        Some(SpecialResponse::BootloaderSupport(vs[0] == 1))
    } else if op == 0x56 {
        match version_from_values(vs) {
            Some(v) => Some(SpecialResponse::FirmwareVersion(v)),
            None => None,
        }
    } else {
        None
    }
}

impl Parser {
    /// A parser for the given value width.
    pub fn new(value_size: ValueSize) -> (r: Parser)
        ensures
            r.value_size == value_size,
    {
        Parser { value_size }
    }

    /// Parses one complete SysEx message, start and end bytes included, into
    /// a request.
    pub fn parse(&self, b: &[u8]) -> (r: Result<Request, ParseError>)
        ensures
            match r {
                Ok(q) => parse_request_spec(b@, self.value_size) == Ok::<_, ParseError>(q@),
                Err(e) => parse_request_spec(b@, self.value_size) == Err::<
                    crate::protocol::RequestView,
                    _,
                >(e),
            },
    {
        let w = self.value_size;
        if !frame_check(b) {
            return Err(ParseError::Malformed);
        }
        if b[4] != MessageStatus::Request.code() {
            return Err(ParseError::StatusError(MessageStatus::StatusError));
        }
        let ghost body = frame_body(b@);
        let wd = value_width(w);
        let body_len = b.len() - 7;
        proof {
            assert(body.len() == body_len);
            assert(body_len > 0 ==> body[0] == b@[6]);
        }
        if body_len >= 4 + wd && b[6] <= 2 {
            match parse_config_body(b, w) {
                Some((wish, amount, block, vs)) => Ok(Request::Configuration(wish, amount, block, vs)),
                None => Err(ParseError::Malformed),
            }
        } else if body_len == 1 && b[5] == 0 {
            match SpecialRequest::from_code(b[6]) {
                Some(sq) => Ok(Request::Special(sq)),
                None => Err(ParseError::Malformed),
            }
        } else {
            Err(ParseError::Malformed)
        }
    }

    /// Parses one complete SysEx message sent by the device into the
    /// response it carries and its status.
    pub fn parse_response(&self, b: &[u8]) -> (r: Result<(Response, MessageStatus), ParseError>)
        ensures
            match r {
                Ok((res, s)) => parse_response_spec(b@, self.value_size) == Ok::<_, ParseError>(
                    (res@, s),
                ),
                Err(e) => parse_response_spec(b@, self.value_size) == Err::<
                    (crate::protocol::ResponseView, MessageStatus),
                    _,
                >(e),
            },
    {
        let w = self.value_size;
        if !frame_check(b) {
            return Err(ParseError::Malformed);
        }
        let status = match MessageStatus::from_code(b[4]) {
            Some(s) => s,
            None => return Err(ParseError::Malformed),
        };
        let ghost body = frame_body(b@);
        let wd = value_width(w);
        let body_len = b.len() - 7;
        proof {
            assert(body.len() == body_len);
            assert(body_len > 0 ==> body[0] == b@[6]);
        }
        if body_len >= 4 + wd && b[6] <= 2 {
            match parse_config_body(b, w) {
                Some((wish, amount, block, vs)) => Ok(
                    (Response::Configuration(wish, amount, block, vs), status),
                ),
                None => Err(ParseError::Malformed),
            }
        } else if body_len >= 1 && b[5] == 0 {
            let end = b.len() - 1;
            let vs = decode_values_in(b, 7, end, w);
            proof {
                assert(body.subrange(1, body.len() as int) =~= b@.subrange(7, end as int));
            }
            match vs {
                None => Err(ParseError::Malformed),
                Some(vs) => match special_response_from_values(b[6], vs.as_slice(), w) {
                    Some(sr) => Ok((Response::Special(sr), status)),
                    None => Err(ParseError::Malformed),
                },
            }
        } else {
            Err(ParseError::Malformed)
        }
    }
}

} // verus!
