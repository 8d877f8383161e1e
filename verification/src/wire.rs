//! The mathematical model of the wire format.
//!
//! Everything the parser and the builder promise is stated over the spec
//! functions of this module: the encoding of the header, of the
//! delta-compressed options and of the payload marker, the single-pass
//! validation walk that parsing performs, the extraction of (number, value)
//! pairs that option iteration performs, and the big-endian integer
//! conventions for option values.

use vstd::prelude::*;

use crate::codes::MessageType;
use crate::codes::Version;
use crate::error::CoapParseError;

verus! {

/// Number of extension bytes that follow a header nibble of the given value.
pub open spec fn ext_len(nib: int) -> int {
    if nib == 13 {
        1
    } else if nib == 14 {
        2
    } else {
        0
    }
}

/// The nibble under which a delta or length value is encoded:
/// the value itself up to 12, 13 for one extension byte, 14 for two.
pub open spec fn ext_nibble(v: int) -> int {
    if v < 13 {
        v
    } else if v < 269 {
        13
    } else {
        14
    }
}

/// The extension bytes written after the header byte for a delta or
/// length value: none up to 12, one byte offset by 13 up to 268, two
/// big-endian bytes offset by 269 beyond that.
pub open spec fn ext_bytes(v: int) -> Seq<u8> {
    if v < 13 {
        seq![]
    } else if v < 269 {
        seq![(v - 13) as u8]
    } else {
        seq![((v - 269) / 256) as u8, ((v - 269) % 256) as u8]
    }
}

/// The delta or length value denoted by nibble `nib` with its extension
/// bytes standing at `data[pos ..]`.
pub open spec fn ext_value(data: Seq<u8>, pos: int, nib: int) -> int {
    if nib < 13 {
        nib
    } else if nib == 13 {
        data[pos] + 13
    } else {
        256 * (data[pos] as int) + data[pos + 1] + 269
    }
}

/// The greatest delta or length value the format can carry:
/// two extension bytes offset by 269.
pub open spec fn ext_max() -> int {
    65535int + 269
}

/// The wire encoding of one option: header byte, delta extension bytes,
/// length extension bytes, then the value.
pub open spec fn enc_opt(delta: int, value: Seq<u8>) -> Seq<u8> {
    seq![(ext_nibble(delta) * 16 + ext_nibble(value.len() as int)) as u8] + ext_bytes(delta)
        + ext_bytes(value.len() as int) + value
}

/// The wire encoding of a sequence of (number, value) options, each
/// encoded as its delta against the number before it (`prev` before the
/// first).
pub open spec fn enc_opts(prev: int, opts: Seq<(u16, Seq<u8>)>) -> Seq<u8>
    decreases opts.len(),
{
    if opts.len() == 0 {
        seq![]
    } else {
        enc_opt(opts[0].0 - prev, opts[0].1) + enc_opts(opts[0].0 as int, opts.drop_first())
    }
}

/// The 4-byte message header: version and type and token length packed
/// into byte 0, the code, then the message id big-endian.
pub open spec fn header_bytes(kind: MessageType, tkl: int, code: u8, mid: u16) -> Seq<u8> {
    seq![
        (64 + 16 * (kind.bits_spec() as int) + tkl) as u8,
        code,
        (mid / 256) as u8,
        (mid % 256) as u8,
    ]
}

/// The trailing payload region: nothing, or the 0xFF marker followed by
/// the payload bytes.
pub open spec fn payload_bytes(payload: Option<Seq<u8>>) -> Seq<u8> {
    match payload {
        Some(p) => seq![255u8] + p,
        None => seq![],
    }
}

/// The complete wire encoding of a message.
pub open spec fn enc_msg(
    kind: MessageType,
    code: u8,
    mid: u16,
    token: Seq<u8>,
    opts: Seq<(u16, Seq<u8>)>,
    payload: Option<Seq<u8>>,
) -> Seq<u8> {
    header_bytes(kind, token.len() as int, code, mid) + token + enc_opts(0, opts)
        + payload_bytes(payload)
}

/// The validation walk over the options region that parsing performs,
/// starting at `off`. On success it yields the end of the options region
/// and the start of the payload, if a payload marker was found; otherwise
/// the error that the walk ran into.
pub open spec fn scan_from(buf: Seq<u8>, off: int) -> Result<(int, Option<int>), CoapParseError>
    decreases buf.len() - off,
{
    if off >= buf.len() {
        Ok((off, None))
    } else if buf[off] == 255 {
        if off + 1 >= buf.len() {
            Err(CoapParseError::PayloadMarkerWithoutPayload)
        } else {
            Ok((off, Some(off + 1)))
        }
    } else {
        let d = buf[off] as int / 16;
        let l = buf[off] as int % 16;
        if d == 15 {
            Err(CoapParseError::InvalidOptionDelta)
        } else if l == 15 {
            Err(CoapParseError::InvalidOptionLength)
        } else if off + 1 + ext_len(d) + ext_len(l) > buf.len() {
            Err(CoapParseError::MessageTooShort)
        } else {
            let vlen = ext_value(buf, off + 1 + ext_len(d), l);
            if off + 1 + ext_len(d) + ext_len(l) + vlen > buf.len() {
                Err(CoapParseError::MessageTooShort)
            } else {
                scan_from(buf, off + 1 + ext_len(d) + ext_len(l) + vlen)
            }
        }
    }
}

/// The (number, value) pairs denoted by the options region `data` from
/// offset `off` on, when the number before `off` is `prev`. The walk is
/// fused: it ends quietly at the first malformed or truncated option, and
/// when a cumulative number would leave the 16-bit option-number space.
pub open spec fn opts_from(data: Seq<u8>, off: int, prev: int) -> Seq<(u16, Seq<u8>)>
    decreases data.len() - off,
{
    if off < 0 || off >= data.len() {
        seq![]
    } else {
        let d = data[off] as int / 16;
        let l = data[off] as int % 16;
        if d == 15 || l == 15 {
            seq![]
        } else if off + 1 + ext_len(d) + ext_len(l) > data.len() {
            seq![]
        } else {
            let delta = ext_value(data, off + 1, d);
            let vlen = ext_value(data, off + 1 + ext_len(d), l);
            let vstart = off + 1 + ext_len(d) + ext_len(l);
            if prev + delta > 65535 {
                seq![]
            } else if vstart + vlen > data.len() {
                seq![]
            } else {
                seq![(((prev + delta) as u16), data.subrange(vstart, vstart + vlen))] + opts_from(
                    data,
                    vstart + vlen,
                    prev + delta,
                )
            }
        }
    }
}

/// A sequence of (number, value) options the builder can write after the
/// number `prev`: numbers non-decreasing from `prev` on, and every value
/// short enough for a two-byte length extension.
pub open spec fn opts_wf(prev: int, opts: Seq<(u16, Seq<u8>)>) -> bool
    decreases opts.len(),
{
    opts.len() == 0 || {
        &&& opts[0].0 >= prev
        &&& opts[0].1.len() <= ext_max()
        &&& opts_wf(opts[0].0 as int, opts.drop_first())
    }
}

/// A decoded message, abstracted to mathematical values: what parsing a
/// buffer yields when it succeeds.
pub ghost struct AbsMessage {
    /// Protocol version; parsing only succeeds on version 1.
    pub version: Version,
    /// The message type from the 2-bit field of byte 0.
    pub kind: MessageType,
    /// The 8-bit code from byte 1.
    pub code: u8,
    /// The big-endian message id from bytes 2 and 3.
    pub message_id: u16,
    /// The token bytes that follow the header.
    pub token: Seq<u8>,
    /// The raw bytes of the options region, between token and payload
    /// marker; its (number, value) pairs are `opts_from(options_data, 0, 0)`.
    pub options_data: Seq<u8>,
    /// The payload bytes after the 0xFF marker, if a marker was present.
    pub payload: Option<Seq<u8>>,
}

/// What parsing a buffer returns: the decoded message, or the first error
/// of the single validation pass, with every check in wire order.
pub open spec fn parse_spec(buf: Seq<u8>) -> Result<AbsMessage, CoapParseError> {
    if buf.len() < 4 {
        Err(CoapParseError::MessageTooShort)
    } else if buf[0] as int / 64 != 1 {
        Err(CoapParseError::UnknownVersion((buf[0] as int / 64) as u8))
    } else if buf[0] as int % 16 > 8 {
        Err(CoapParseError::InvalidTokenLength((buf[0] as int % 16) as usize))
    } else {
        let tkl = buf[0] as int % 16;
        let code = buf[1];
        if buf.len() < 4 + tkl {
            Err(CoapParseError::MessageTooShort)
        } else if code == 0 && buf.len() > 4 + tkl {
            Err(CoapParseError::EmptyMessageWithData)
        } else {
            match scan_from(buf, 4 + tkl) {
                Err(e) => Err(e),
                Ok((end, pstart)) => Ok(
                    AbsMessage {
                        version: Version::V1,
                        kind: MessageType::from_bits_spec(((buf[0] as int / 16) % 4) as u8),
                        code,
                        message_id: (256 * (buf[2] as int) + buf[3]) as u16,
                        token: buf.subrange(4, 4 + tkl),
                        options_data: buf.subrange(4 + tkl, end),
                        payload: match pstart {
                            Some(s) => Some(buf.subrange(s, buf.len() as int)),
                            None => None,
                        },
                    },
                ),
            }
        }
    }
}

/// The unsigned integer denoted by a big-endian byte sequence; the empty
/// sequence denotes zero.
pub open spec fn be_uint(s: Seq<u8>) -> int
    decreases s.len(),
{
    if s.len() == 0 {
        0
    } else {
        256 * be_uint(s.drop_last()) + s.last()
    }
}

/// The minimal big-endian encoding of an unsigned integer: no leading
/// zero bytes, and zero itself encoded as no bytes at all.
pub open spec fn min_bytes(v: int) -> Seq<u8>
    decreases v,
{
    if v <= 0 {
        seq![]
    } else {
        min_bytes(v / 256) + seq![(v % 256) as u8]
    }
}

} // verus!
