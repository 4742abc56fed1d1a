//! The byte layout of protocol messages, and what parsing a message means.
//!
//! Every message is `F0 00 53 43 <status> <part> <body> F7`. A special
//! message's body is its opcode followed by its values; a configuration
//! message's body is `<wish> <amount> <block> <section> <index> <values>`,
//! where the index and the values take one or two bytes each.
use vstd::prelude::*;

use crate::codec::{
    all_fit, decode_values, fits, value_at, value_bytes, value_readable, values_bytes,
    width, ValueSize,
};
use crate::protocol::{
    block_code, block_from_address, block_index, section_code, special_request_from_code,
    status_code, status_from_code, wish_code, wish_from_code, Amount, Block, FirmwareVersion,
    HardwareUid, MessageStatus, NrOfSupportedComponents, ParseError, RequestView, ResponseView,
    SpecialResponse, Wish,
};

verus! {

/// First byte of every SysEx message.
pub const SYSEX_START: u8 = 0xF0;

/// Last byte of every SysEx message.
pub const SYSEX_END: u8 = 0xF7;

/// Manufacturer id bytes that follow the start byte.
pub const MANUFACTURER_ID_0: u8 = 0x00;

pub const MANUFACTURER_ID_1: u8 = 0x53;

pub const MANUFACTURER_ID_2: u8 = 0x43;

/// Size of the largest message that is sent.
pub const MAX_MESSAGE_LEN: usize = 64;

/// A whole message: header, status, part, body and end byte.
pub open spec fn frame(status: u8, part: u8, body: Seq<u8>) -> Seq<u8> {
    seq![SYSEX_START, MANUFACTURER_ID_0, MANUFACTURER_ID_1, MANUFACTURER_ID_2, status, part] + body
        + seq![SYSEX_END]
}

/// The amount byte of a configuration message.
pub open spec fn amount_code(a: Amount) -> u8 {
    match a {
        Amount::Single => 0,
        Amount::All(_) => 1,
    }
}

/// The part byte of a configuration message.
pub open spec fn part_byte(a: Amount) -> u8 {
    match a {
        Amount::Single => 0,
        Amount::All(p) => p,
    }
}

/// The body of a configuration message.
pub open spec fn config_body(
    wish: Wish,
    amount: Amount,
    block: Block,
    values: Seq<u16>,
    w: ValueSize,
) -> Seq<u8> {
    seq![wish_code(wish), amount_code(amount), block_code(block), section_code(block)]
        + value_bytes(block_index(block), w) + values_bytes(values, w)
}

/// The opcode of a special response: that of the request it answers.
pub open spec fn special_response_code(sr: SpecialResponse) -> u8 {
    match sr {
        SpecialResponse::Handshake => 0x01,
        SpecialResponse::ValueSize => 0x02,
        SpecialResponse::ValuesPerMessage(_) => 0x03,
        SpecialResponse::HardwareUID(_) => 0x42,
        SpecialResponse::FirmwareVersionAndHardwareUUID(_, _) => 0x43,
        SpecialResponse::NrOfSupportedComponents(_) => 0x4D,
        SpecialResponse::NrOfSupportedPresets(_) => 0x50,
        SpecialResponse::BootloaderSupport(_) => 0x51,
        SpecialResponse::FirmwareVersion(_) => 0x56,
    }
}

/// A firmware version as three values.
pub open spec fn version_values(v: FirmwareVersion) -> Seq<u16> {
    seq![v.major as u16, v.minor as u16, v.revision as u16]
}

/// A hardware id as its four bytes, most significant first.
pub open spec fn uid_values(u: HardwareUid) -> Seq<u16> {
    seq![
        (u.0 / 0x1000000) as u16,
        (u.0 / 0x10000 % 0x100) as u16,
        (u.0 / 0x100 % 0x100) as u16,
        (u.0 % 0x100) as u16,
    ]
}

/// The code of a value width, as sent in answer to `ValueSize`.
pub open spec fn value_size_code(w: ValueSize) -> u16 {
    width(w) as u16
}

/// The values that a special response carries.
pub open spec fn special_values(sr: SpecialResponse, w: ValueSize) -> Seq<u16> {
    match sr {
        SpecialResponse::Handshake => seq![],
        SpecialResponse::ValueSize => seq![value_size_code(w)],
        SpecialResponse::ValuesPerMessage(n) => seq![n],
        SpecialResponse::FirmwareVersion(v) => version_values(v),
        SpecialResponse::HardwareUID(u) => uid_values(u),
        SpecialResponse::FirmwareVersionAndHardwareUUID(v, u) => version_values(v) + uid_values(u),
        SpecialResponse::BootloaderSupport(b) => seq![if b { 1u16 } else { 0u16 }],
        SpecialResponse::NrOfSupportedPresets(n) => seq![n],
        SpecialResponse::NrOfSupportedComponents(c) => seq![
            c.buttons,
            c.encoders,
            c.analog,
            c.leds,
            c.touchscreen_buttons,
        ],
    }
}

/// The bytes of a rendered response with the given status.
pub open spec fn response_bytes(r: ResponseView, s: MessageStatus, w: ValueSize) -> Seq<u8> {
    match r {
        ResponseView::Special(sr) => frame(
            status_code(s),
            0,
            seq![special_response_code(sr)] + values_bytes(special_values(sr, w), w),
        ),
        ResponseView::Configuration(wish, amount, block, vs) => frame(
            status_code(s),
            part_byte(amount),
            config_body(wish, amount, block, vs, w),
        ),
    }
}

/// The bytes of a request.
pub open spec fn request_bytes(q: RequestView, w: ValueSize) -> Seq<u8> {
    match q {
        RequestView::Special(sq) => frame(
            status_code(MessageStatus::Request),
            0,
            seq![crate::protocol::special_request_code(sq)],
        ),
        RequestView::Configuration(wish, amount, block, vs) => frame(
            status_code(MessageStatus::Request),
            part_byte(amount),
            config_body(wish, amount, block, vs, w),
        ),
    }
}

/// Whether the address, part and values of a configuration message can be
/// carried at the given width.
pub open spec fn config_fits(amount: Amount, block: Block, vs: Seq<u16>, w: ValueSize) -> bool {
    &&& part_byte(amount) < 128
    &&& section_code(block) < 128
    &&& fits(block_index(block) as int, w)
    &&& all_fit(vs, w)
}

/// Whether every field of a response can be carried at the given width.
pub open spec fn response_fits(r: ResponseView, w: ValueSize) -> bool {
    match r {
        ResponseView::Special(sr) => all_fit(special_values(sr, w), w),
        ResponseView::Configuration(_, amount, block, vs) => config_fits(amount, block, vs, w),
    }
}

/// Whether every field of a request can be carried at the given width.
pub open spec fn request_fits(q: RequestView, w: ValueSize) -> bool {
    match q {
        RequestView::Special(_) => true,
        RequestView::Configuration(_, amount, block, vs) => config_fits(amount, block, vs, w),
    }
}

/// Header and end byte are in place.
pub open spec fn frame_ok(b: Seq<u8>) -> bool {
    &&& b.len() >= 7
    &&& b[0] == SYSEX_START
    &&& b[1] == MANUFACTURER_ID_0
    &&& b[2] == MANUFACTURER_ID_1
    &&& b[3] == MANUFACTURER_ID_2
    &&& b[b.len() - 1] == SYSEX_END
}

/// What lies between the part byte and the end byte.
pub open spec fn frame_body(b: Seq<u8>) -> Seq<u8> {
    b.subrange(6, b.len() - 1)
}

/// Whether a body is read as a configuration message: long enough for an
/// address, and starting with a wish. Every other body is special.
pub open spec fn is_config_body(body: Seq<u8>, w: ValueSize) -> bool {
    body.len() >= 4 + width(w) && body[0] <= 2
}

/// The amount given by the amount and part bytes, if any.
pub open spec fn amount_from(code: u8, part: u8) -> Option<Amount> {
    if code == 0 && part == 0 {
        Some(Amount::Single)
    } else if code == 1 && part < 128 {
        Some(Amount::All(part))
    } else {
        None
    }
}

/// The content of a configuration body, if it is well formed.
pub open spec fn parse_config(part: u8, body: Seq<u8>, w: ValueSize) -> Option<
    (Wish, Amount, Block, Seq<u16>),
> {
    match wish_from_code(body[0]) {
        None => None,
        Some(wish) => match amount_from(body[1], part) {
            None => None,
            Some(amount) => {
                if !value_readable(body, 4, w) {
                    None
                } else {
                    match block_from_address(body[2], body[3], value_at(body, 4, w)) {
                        None => None,
                        Some(block) => match decode_values(
                            body.subrange(4 + width(w), body.len() as int),
                            w,
                        ) {
                            None => None,
                            Some(vs) => Some((wish, amount, block, vs)),
                        },
                    }
                }
            },
        },
    }
}

/// What parsing a request gives: a framed message whose status is not
/// `Request` is a status error; anything else that is not exactly the bytes
/// of a request is malformed.
pub open spec fn parse_request_spec(b: Seq<u8>, w: ValueSize) -> Result<RequestView, ParseError> {
    if !frame_ok(b) {
        Err(ParseError::Malformed)
    } else if b[4] != status_code(MessageStatus::Request) {
        Err(ParseError::StatusError(MessageStatus::StatusError))
    } else {
        let body = frame_body(b);
        if is_config_body(body, w) {
            match parse_config(b[5], body, w) {
                Some((wish, amount, block, vs)) => Ok(
                    RequestView::Configuration(wish, amount, block, vs),
                ),
                None => Err(ParseError::Malformed),
            }
        } else if body.len() == 1 && b[5] == 0 {
            match special_request_from_code(body[0]) {
                Some(sq) => Ok(RequestView::Special(sq)),
                None => Err(ParseError::Malformed),
            }
        } else {
            Err(ParseError::Malformed)
        }
    }
}

/// A firmware version from three values, if each fits a byte.
pub open spec fn version_from(vs: Seq<u16>) -> Option<FirmwareVersion> {
    if vs.len() == 3 && vs[0] < 256 && vs[1] < 256 && vs[2] < 256 {
        Some(FirmwareVersion { major: vs[0] as u8, minor: vs[1] as u8, revision: vs[2] as u8 })
    } else {
        None
    }
}

/// A hardware id from four byte values, most significant first.
pub open spec fn uid_from(vs: Seq<u16>) -> Option<HardwareUid> {
    if vs.len() == 4 && vs[0] < 256 && vs[1] < 256 && vs[2] < 256 && vs[3] < 256 {
        Some(
            HardwareUid(
                (vs[0] * 0x1000000 + vs[1] * 0x10000 + vs[2] * 0x100 + vs[3]) as u32,
            ),
        )
    } else {
        None
    }
}

/// The special response with the given opcode and values, if any.
pub open spec fn special_response_from(op: u8, vs: Seq<u16>, w: ValueSize) -> Option<
    SpecialResponse,
> {
    if op == 0x01 && vs.len() == 0 {
        Some(SpecialResponse::Handshake)
    } else if op == 0x02 && vs.len() == 1 && vs[0] == value_size_code(w) {
        Some(SpecialResponse::ValueSize)
    } else if op == 0x03 && vs.len() == 1 {
        Some(SpecialResponse::ValuesPerMessage(vs[0]))
    } else if op == 0x42 && uid_from(vs) is Some {
        Some(SpecialResponse::HardwareUID(uid_from(vs)->Some_0))
    } else if op == 0x43 && vs.len() == 7 && version_from(vs.subrange(0, 3)) is Some && uid_from(
        vs.subrange(3, 7),
    ) is Some {
        Some(
            SpecialResponse::FirmwareVersionAndHardwareUUID(
                version_from(vs.subrange(0, 3))->Some_0,
                uid_from(vs.subrange(3, 7))->Some_0,
            ),
        )
    } else if op == 0x4D && vs.len() == 5 {
        Some(
            SpecialResponse::NrOfSupportedComponents(
                NrOfSupportedComponents {
                    buttons: vs[0],
                    encoders: vs[1],
                    analog: vs[2],
                    leds: vs[3],
                    touchscreen_buttons: vs[4],
                },
            ),
        )
    } else if op == 0x50 && vs.len() == 1 {
        Some(SpecialResponse::NrOfSupportedPresets(vs[0]))
    } else if op == 0x51 && vs.len() == 1 && vs[0] <= 1 {
        Some(SpecialResponse::BootloaderSupport(vs[0] == 1))
    } else if op == 0x56 && version_from(vs) is Some {
        Some(SpecialResponse::FirmwareVersion(version_from(vs)->Some_0))
    } else {
        None
    }
}

/// What parsing a response gives: its content and status, or `Malformed`.
pub open spec fn parse_response_spec(b: Seq<u8>, w: ValueSize) -> Result<
    (ResponseView, MessageStatus),
    ParseError,
> {
    if !frame_ok(b) {
        Err(ParseError::Malformed)
    } else {
        match status_from_code(b[4]) {
            None => Err(ParseError::Malformed),
            Some(s) => {
                let body = frame_body(b);
                if is_config_body(body, w) {
                    match parse_config(b[5], body, w) {
                        Some((wish, amount, block, vs)) => Ok(
                            (ResponseView::Configuration(wish, amount, block, vs), s),
                        ),
                        None => Err(ParseError::Malformed),
                    }
                } else if body.len() >= 1 && b[5] == 0 {
                    match decode_values(body.subrange(1, body.len() as int), w) {
                        None => Err(ParseError::Malformed),
                        Some(vs) => match special_response_from(body[0], vs, w) {
                            Some(sr) => Ok((ResponseView::Special(sr), s)),
                            None => Err(ParseError::Malformed),
                        },
                    }
                } else {
                    Err(ParseError::Malformed)
                }
            },
        }
    }
}

/// A hardware id reads back from its four byte values.
pub proof fn lemma_uid_round_trip(u: HardwareUid)
    ensures
        uid_from(uid_values(u)) == Some(u),
{
    let x = u.0;
    let vs = uid_values(u);
    assert(x / 0x1000000 < 256);
    assert(x == (x / 0x1000000) * 0x1000000 + (x / 0x10000 % 0x100) * 0x10000 + (x / 0x100 % 0x100)
        * 0x100 + x % 0x100) by (nonlinear_arith);
}

/// The frame of a message reads back: header, status, part and body.
pub proof fn lemma_frame(status: u8, part: u8, body: Seq<u8>)
    ensures
        frame_ok(frame(status, part, body)),
        frame(status, part, body)[4] == status,
        frame(status, part, body)[5] == part,
        frame_body(frame(status, part, body)) == body,
{
    let b = frame(status, part, body);
    assert(frame_body(b) =~= body);
}

/// A configuration body whose fields fit reads back.
pub proof fn lemma_config_round_trip(
    wish: Wish,
    amount: Amount,
    block: Block,
    vs: Seq<u16>,
    w: ValueSize,
)
    requires
        config_fits(amount, block, vs, w),
    ensures
        is_config_body(config_body(wish, amount, block, vs, w), w),
        parse_config(part_byte(amount), config_body(wish, amount, block, vs, w), w) == Some(
            (wish, amount, block, vs),
        ),
{
    let body = config_body(wish, amount, block, vs, w);
    let index = block_index(block);
    let ib = value_bytes(index, w);
    assert(body.subrange(4 + width(w), body.len() as int) =~= values_bytes(vs, w));
    crate::codec::lemma_values_round_trip(vs, w);
    assert(forall|k: int| 0 <= k < width(w) ==> body[4 + k] == ib[k]);
    assert(value_readable(body, 4, w));
    assert(value_at(body, 4, w) == index);
    crate::protocol::lemma_block_address_round_trip(block);
}

/// Rendering a response whose fields fit the value width, then parsing the
/// bytes, gives back the response and its status, at either width.
pub proof fn lemma_response_round_trip(r: ResponseView, s: MessageStatus, w: ValueSize)
    requires
        response_fits(r, w),
    ensures
        parse_response_spec(response_bytes(r, s, w), w) == Ok::<_, ParseError>((r, s)),
{
    let b = response_bytes(r, s, w);
    match r {
        ResponseView::Special(sr) => {
            let vs = special_values(sr, w);
            let body = seq![special_response_code(sr)] + values_bytes(vs, w);
            lemma_frame(status_code(s), 0, body);
            assert(body.subrange(1, body.len() as int) =~= values_bytes(vs, w));
            crate::codec::lemma_values_round_trip(vs, w);
            assert(vs.len() <= 1 || special_response_code(sr) > 2);
            match sr {
                SpecialResponse::HardwareUID(u) => {
                    lemma_uid_round_trip(u);
                },
                SpecialResponse::FirmwareVersionAndHardwareUUID(v, u) => {
                    lemma_uid_round_trip(u);
                    assert(vs.subrange(0, 3) =~= version_values(v));
                    assert(vs.subrange(3, 7) =~= uid_values(u));
                },
                _ => {},
            }
        },
        ResponseView::Configuration(wish, amount, block, vs) => {
            let body = config_body(wish, amount, block, vs, w);
            lemma_frame(status_code(s), part_byte(amount), body);
            lemma_config_round_trip(wish, amount, block, vs, w);
        },
    }
}

/// A well-formed configuration body is exactly the body of what it parses to.
pub proof fn lemma_config_canonical(part: u8, body: Seq<u8>, w: ValueSize)
    requires
        is_config_body(body, w),
        parse_config(part, body, w) is Some,
    ensures
        ({
            let (wish, amount, block, vs) = parse_config(part, body, w)->Some_0;
            &&& config_fits(amount, block, vs, w)
            &&& part_byte(amount) == part
            &&& config_body(wish, amount, block, vs, w) == body
        }),
{
    let (wish, amount, block, vs) = parse_config(part, body, w)->Some_0;
    let wd = width(w);
    let rest = body.subrange(4 + wd, body.len() as int);
    crate::codec::lemma_values_canonical(rest, w);
    let index = value_at(body, 4, w);
    let ib = value_bytes(index, w);
    match w {
        ValueSize::OneByte => {
            assert(crate::codec::is_data_byte(body[4]));
        },
        ValueSize::TwoBytes => {
            assert(crate::codec::is_data_byte(body[4]));
            assert(crate::codec::is_data_byte(body[5]));
            assert(ib[0] == body[4]);
            assert(ib[1] == body[5]);
        },
    }
    assert(config_body(wish, amount, block, vs, w) =~= body);
}

/// Every request that parses is exactly the bytes of the request it parses
/// to, and its fields fit the value width: the parser accepts only the
/// bytes that a request renders to.
pub proof fn lemma_parse_request_canonical(b: Seq<u8>, w: ValueSize)
    requires
        parse_request_spec(b, w) is Ok,
    ensures
        request_fits(parse_request_spec(b, w)->Ok_0, w),
        request_bytes(parse_request_spec(b, w)->Ok_0, w) == b,
{
    let body = frame_body(b);
    assert(b =~= frame(b[4], b[5], body));
    if is_config_body(body, w) {
        lemma_config_canonical(b[5], body, w);
    } else {
        assert(body =~= seq![body[0]]);
    }
}

/// Parsing the bytes of a request whose fields fit the value width gives
/// back the request, at either width.
pub proof fn lemma_request_round_trip(q: RequestView, w: ValueSize)
    requires
        request_fits(q, w),
    ensures
        parse_request_spec(request_bytes(q, w), w) == Ok::<_, ParseError>(q),
{
    match q {
        RequestView::Special(sq) => {
            lemma_frame(status_code(MessageStatus::Request), 0, seq![crate::protocol::special_request_code(sq)]);
        },
        RequestView::Configuration(wish, amount, block, vs) => {
            let body = config_body(wish, amount, block, vs, w);
            lemma_frame(status_code(MessageStatus::Request), part_byte(amount), body);
            lemma_config_round_trip(wish, amount, block, vs, w);
        },
    }
}

/// A message parses to a request exactly when it is the bytes of that
/// request and the request's fields fit the value width.
pub proof fn lemma_parse_request_exact(b: Seq<u8>, q: RequestView, w: ValueSize)
    ensures
        parse_request_spec(b, w) == Ok::<_, ParseError>(q) <==> (request_fits(q, w) && b
            == request_bytes(q, w)),
{
    if parse_request_spec(b, w) == Ok::<_, ParseError>(q) {
        lemma_parse_request_canonical(b, w);
    }
    if request_fits(q, w) && b == request_bytes(q, w) {
        lemma_request_round_trip(q, w);
    }
}

} // verus!
