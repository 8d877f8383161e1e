//! Parsing a byte buffer into a structured message.
//!
//! Parsing is a single validation pass; its outcome, success or the first
//! error in wire order, equals `wire::parse_spec` of the buffer. Options are
//! not decoded eagerly: the message carries the raw options region, and a
//! restartable iterator re-walks it, reconstructing absolute option numbers
//! by cumulative delta summation.

use vstd::prelude::*;
use vstd::slice::slice_subrange;
use vstd::slice::slice_to_vec;
use vstd::string::StringSliceAdditionalSpecFns;

use crate::codes::MessageType;
use crate::codes::OptionNumber;
use crate::codes::Version;
use crate::error::CoapParseError;
use crate::wire::AbsMessage;
use crate::wire::be_uint;
use crate::wire::opts_from;
use crate::wire::parse_spec;
use crate::wire::scan_from;

verus! {

/// Parsed CoAP message representation.
#[derive(Debug)]
pub struct Message {
    /// CoAP protocol version.
    pub version: Version,
    /// Message type (Confirmable, Non-confirmable, Acknowledgement, Reset).
    pub message_type: MessageType,
    /// Token bytes for request/response matching.
    pub token: Vec<u8>,
    /// Message code (method for requests, response code for responses).
    pub code: u8,
    /// Message ID for duplicate detection and message correlation.
    pub message_id: u16,
    /// The options of the message, kept as their raw wire region.
    pub options: CoapOptions,
    /// Optional payload data.
    pub payload: Option<Vec<u8>>,
}

/// The options of a message: the raw bytes of the options region,
/// walked on demand by [`OptionIterator`].
#[derive(Debug)]
pub struct CoapOptions {
    data: Vec<u8>,
}

/// A single decoded CoAP option.
#[derive(Debug)]
pub struct CoapOption {
    /// Option number.
    pub number: OptionNumber,
    /// Option value bytes.
    pub value: Vec<u8>,
}

/// Iterator over the options region; each fresh iterator starts at the
/// region's beginning. The walk is fused: once it meets malformed or
/// truncated data it yields nothing, permanently.
#[derive(Debug)]
pub struct OptionIterator {
    data: Vec<u8>,
    offset: usize,
    current_option_number: u16,
}

impl Message {
    /// The message abstracted to mathematical values.
    pub open spec fn abs(self) -> AbsMessage {
        AbsMessage {
            version: self.version,
            kind: self.message_type,
            code: self.code,
            message_id: self.message_id,
            token: self.token@,
            options_data: self.options.bytes(),
            payload: match self.payload {
                Some(p) => Some(p@),
                None => None,
            },
        }
    }

    /// Parse a CoAP message from a byte buffer.
    pub fn parse(buffer: &[u8]) -> (r: Result<Message, CoapParseError>)
        ensures
            match r {
                Ok(m) => parse_spec(buffer@) == Ok::<AbsMessage, CoapParseError>(m.abs()),
                Err(e) => parse_spec(buffer@) == Err::<AbsMessage, CoapParseError>(e),
            },
    {
        if buffer.len() < 4 {
            return Err(CoapParseError::MessageTooShort);
        }
        let b0 = buffer[0];

        let version_raw = b0 / 64;
        if version_raw != 1 {
            return Err(CoapParseError::UnknownVersion(version_raw));
        }

        let kind_raw = (b0 / 16) % 4;
        let message_type = if kind_raw == 0 {
            MessageType::Confirmable
        } else if kind_raw == 1 {
            MessageType::NonConfirmable
        } else if kind_raw == 2 {
            MessageType::Acknowledgement
        } else {
            MessageType::Reset
        };

        let token_len = (b0 % 16) as usize;
        if token_len > 8 {
            return Err(CoapParseError::InvalidTokenLength(token_len));
        }

        let code = buffer[1];
        let message_id: u16 = 256 * (buffer[2] as u16) + (buffer[3] as u16);

        if buffer.len() < 4 + token_len {
            return Err(CoapParseError::MessageTooShort);
        }
        let token = slice_to_vec(slice_subrange(buffer, 4, 4 + token_len));

        if code == 0 && buffer.len() > 4 + token_len {
            return Err(CoapParseError::EmptyMessageWithData);
        }

        match scan_options(buffer, 4 + token_len) {
            Err(e) => Err(e),
            Ok((end, payload_start)) => {
                let options = CoapOptions {
                    data: slice_to_vec(slice_subrange(buffer, 4 + token_len, end)),
                };
                let payload = match payload_start {
                    Some(s) => Some(slice_to_vec(slice_subrange(buffer, s, buffer.len()))),
                    None => None,
                };
                Ok(
                    Message {
                        version: Version::V1,
                        message_type,
                        token,
                        code,
                        message_id,
                        options,
                        payload,
                    },
                )
            },
        }
    }

    /// Extract the class portion of the code (upper 3 bits).
    pub fn code_class(&self) -> (r: u8)
        ensures
            r == self.code / 32,
    {
        self.code / 32
    }

    /// Extract the detail portion of the code (lower 5 bits).
    pub fn code_detail(&self) -> (r: u8)
        ensures
            r == self.code % 32,
    {
        self.code % 32
    }

    /// Check if this message is a request (class 0, nonzero detail).
    pub fn is_request(&self) -> (r: bool)
        ensures
            r == (self.code / 32 == 0 && self.code % 32 != 0),
    {
        self.code / 32 == 0 && self.code % 32 != 0
    }

    /// Check if this message is a response (class 2, 4 or 5).
    pub fn is_response(&self) -> (r: bool)
        ensures
            r == (self.code / 32 == 2 || self.code / 32 == 4 || self.code / 32 == 5),
    {
        let class = self.code / 32;
        class == 2 || class == 4 || class == 5
    }

    /// Check if this message is empty (code 0.00).
    pub fn is_empty(&self) -> (r: bool)
        ensures
            r == (self.code == 0),
    {
        self.code == 0
    }
}

/// Walks the buffer from `start`, one option at a time, validating each
/// and looking for the payload marker; the outcome equals `scan_from`.
fn scan_options(buffer: &[u8], start: usize) -> (r: Result<(usize, Option<usize>), CoapParseError>)
    requires
        start <= buffer@.len(),
    ensures
        ({
            let s = scan_from(buffer@, start as int);
            match r {
                Ok((end, payload_start)) => {
                    &&& s == Ok::<(int, Option<int>), CoapParseError>(
                        (
                            end as int,
                            match payload_start {
                                Some(p) => Some(p as int),
                                None => None,
                            },
                        ),
                    )
                    &&& start <= end <= buffer@.len()
                    &&& match payload_start {
                        Some(p) => p == end + 1 && p < buffer@.len(),
                        None => end == buffer@.len(),
                    }
                },
                Err(e) => s == Err::<(int, Option<int>), CoapParseError>(e),
            }
        }),
{
    let mut offset = start;
    loop
        invariant
            start <= offset <= buffer@.len(),
            scan_from(buffer@, start as int) == scan_from(buffer@, offset as int),
        decreases buffer@.len() - offset,
    {
        if offset >= buffer.len() {
            return Ok((offset, None));
        }
        let b = buffer[offset];
        if b == 255 {
            if offset + 1 >= buffer.len() {
                return Err(CoapParseError::PayloadMarkerWithoutPayload);
            }
            return Ok((offset, Some(offset + 1)));
        }

        let d = b / 16;
        let l = b % 16;
        if d == 15 {
            return Err(CoapParseError::InvalidOptionDelta);
        }
        if l == 15 {
            return Err(CoapParseError::InvalidOptionLength);
        }

        let dext: usize = if d == 13 {
            1
        } else if d == 14 {
            2
        } else {
            0
        };
        let lext: usize = if l == 13 {
            1
        } else if l == 14 {
            2
        } else {
            0
        };
        if dext + lext > buffer.len() - offset - 1 {
            return Err(CoapParseError::MessageTooShort);
        }

        let vlen: usize = if l == 13 {
            buffer[offset + 1 + dext] as usize + 13
        } else if l == 14 {
            256 * (buffer[offset + 1 + dext] as usize) + (buffer[offset + 2 + dext] as usize) + 269
        } else {
            l as usize
        };
        if vlen > buffer.len() - offset - 1 - dext - lext {
            return Err(CoapParseError::MessageTooShort);
        }

        offset = offset + 1 + dext + lext + vlen;
    }
}

impl CoapOptions {
    /// The raw bytes of the options region.
    pub closed spec fn bytes(self) -> Seq<u8> {
        self.data@
    }

    /// The (number, value) pairs the region denotes.
    pub open spec fn pairs(self) -> Seq<(u16, Seq<u8>)> {
        opts_from(self.bytes(), 0, 0)
    }

    /// Begin a fresh walk over the options, from the region's beginning.
    pub fn iter(&self) -> (it: OptionIterator)
        ensures
            it.remaining() == self.pairs(),
    {
        OptionIterator {
            data: slice_to_vec(self.data.as_slice()),
            offset: 0,
            current_option_number: 0,
        }
    }
}

impl OptionIterator {
    /// The (number, value) pairs this iterator has yet to yield.
    pub closed spec fn remaining(self) -> Seq<(u16, Seq<u8>)> {
        opts_from(self.data@, self.offset as int, self.current_option_number as int)
    }

    /// Decode the option at the current offset and advance past it, or
    /// yield nothing, permanently, at the region's end or at the first
    /// malformed or truncated option.
    pub fn next(&mut self) -> (r: Option<CoapOption>)
        ensures
            match r {
                Some(o) => {
                    &&& old(self).remaining().len() > 0
                    &&& o.number == OptionNumber::from_raw_spec(old(self).remaining()[0].0)
                    &&& o.value@ == old(self).remaining()[0].1
                    &&& final(self).remaining() == old(self).remaining().drop_first()
                },
                None => {
                    &&& old(self).remaining().len() == 0
                    &&& final(self).remaining().len() == 0
                },
            },
    {
        if self.offset >= self.data.len() {
            return None;
        }
        let b = self.data[self.offset];
        let d = b / 16;
        let l = b % 16;
        if d == 15 || l == 15 {
            self.offset = self.data.len();
            return None;
        }

        let dext: usize = if d == 13 {
            1
        } else if d == 14 {
            2
        } else {
            0
        };
        let lext: usize = if l == 13 {
            1
        } else if l == 14 {
            2
        } else {
            0
        };
        if dext + lext > self.data.len() - self.offset - 1 {
            self.offset = self.data.len();
            return None;
        }

        let delta: u32 = if d == 13 {
            self.data[self.offset + 1] as u32 + 13
        } else if d == 14 {
            256 * (self.data[self.offset + 1] as u32) + (self.data[self.offset + 2] as u32) + 269
        } else {
            d as u32
        };
        let vlen: usize = if l == 13 {
            self.data[self.offset + 1 + dext] as usize + 13
        } else if l == 14 {
            256 * (self.data[self.offset + 1 + dext] as usize) + (self.data[self.offset + 2
                + dext] as usize) + 269
        } else {
            l as usize
        };

        let number: u32 = self.current_option_number as u32 + delta;
        if number > 65535 {
            self.offset = self.data.len();
            return None;
        }

        let vstart = self.offset + 1 + dext + lext;
        if vlen > self.data.len() - vstart {
            self.offset = self.data.len();
            return None;
        }

        let value = slice_to_vec(slice_subrange(self.data.as_slice(), vstart, vstart + vlen));
        self.offset = vstart + vlen;
        self.current_option_number = number as u16;
        Some(CoapOption { number: OptionNumber::from_raw(number as u16), value })
    }
}

impl CoapOption {
    /// Interpret the option value as a big-endian unsigned integer; values
    /// longer than 8 bytes are not interpretable, and no bytes denote zero.
    pub fn as_uint(&self) -> (r: Option<u64>)
        ensures
            r is Some <==> self.value@.len() <= 8,
            r matches Some(v) ==> v == be_uint(self.value@),
    {
        if self.value.len() > 8 {
            return None;
        }
        let n = self.value.len();
        let mut acc: u64 = 0;
        let mut i: usize = 0;
        while i < n
            invariant
                n == self.value@.len() <= 8,
                i <= n,
                acc == be_uint(self.value@.subrange(0, i as int)),
            decreases n - i,
        {
            proof {
                lemma_be_uint_bound(self.value@.subrange(0, i as int));
                lemma_pow256_small(i as nat);
                assert(self.value@.subrange(0, (i + 1) as int).drop_last() =~= self.value@.subrange(
                    0,
                    i as int,
                ));
                assert(self.value@.subrange(0, (i + 1) as int).last() == self.value@[i as int]);
            }
            acc = acc * 256 + (self.value[i] as u64);
            i = i + 1;
        }
        proof {
            assert(self.value@.subrange(0, n as int) =~= self.value@);
        }
        Some(acc)
    }

    /// Interpret the option value as a UTF-8 string.
    pub fn as_str(&self) -> (r: Result<&str, core::str::Utf8Error>)
        ensures
            r is Ok <==> vstd::utf8::valid_utf8(self.value@),
            r matches Ok(s) ==> s.spec_bytes() == self.value@,
    {
        bytes_as_str(self.value.as_slice())
    }

    /// Check if this option is critical.
    pub fn is_critical(&self) -> (r: bool)
        ensures
            r == (self.number.raw_spec() % 2 == 1),
    {
        self.number.is_critical()
    }

    /// Check if this option is unsafe to forward.
    pub fn is_unsafe(&self) -> (r: bool)
        ensures
            r == ((self.number.raw_spec() / 2) % 2 == 1),
    {
        self.number.is_unsafe()
    }

    /// Check if this option should not be part of the cache key.
    pub fn is_no_cache_key(&self) -> (r: bool)
        ensures
            r == ((self.number.raw_spec() / 2) % 16 == 14),
    {
        self.number.is_no_cache_key()
    }
}

/// The type of the error that std reports for invalid UTF-8.
#[verifier::external_type_specification]
#[verifier::external_body]
pub struct ExUtf8Error(core::str::Utf8Error);

/// Relies on core::str::from_utf8: it returns Ok exactly when the bytes
/// are valid UTF-8, and the returned str then views those same bytes.
#[verifier::external_body]
fn bytes_as_str(v: &[u8]) -> (r: Result<&str, core::str::Utf8Error>)
    ensures
        r is Ok <==> vstd::utf8::valid_utf8(v@),
        r matches Ok(s) ==> s.spec_bytes() == v@,
{
    core::str::from_utf8(v)
}

/// The value of a big-endian byte sequence is below 256 to the power of
/// its length.
pub proof fn lemma_be_uint_bound(s: Seq<u8>)
    ensures
        0 <= be_uint(s) < vstd::arithmetic::power::pow(256, s.len()),
    decreases s.len(),
{
    vstd::arithmetic::power::lemma_pow_positive(256, s.len());
    if s.len() > 0 {
        lemma_be_uint_bound(s.drop_last());
        assert(vstd::arithmetic::power::pow(256, s.len()) == 256 * vstd::arithmetic::power::pow(
            256,
            (s.len() - 1) as nat,
        )) by {
            reveal(vstd::arithmetic::power::pow);
        }
        assert(256 * be_uint(s.drop_last()) + s.last() < 256 * vstd::arithmetic::power::pow(
            256,
            (s.len() - 1) as nat,
        )) by (nonlinear_arith)
            requires
                0 <= be_uint(s.drop_last()) < vstd::arithmetic::power::pow(
                    256,
                    (s.len() - 1) as nat,
                ),
                0 <= s.last() < 256,
        ;
    }
}

/// 256 to any power up to 7 is at most 2 to the 56th.
proof fn lemma_pow256_small(i: nat)
    requires
        i <= 7,
    ensures
        vstd::arithmetic::power::pow(256, i) <= 0x100_0000_0000_0000,
{
    vstd::arithmetic::power::lemma_pow_increases(256, i, 7);
    assert(vstd::arithmetic::power::pow(256, 7) == 0x100_0000_0000_0000) by {
        reveal_with_fuel(vstd::arithmetic::power::pow, 8);
    }
}

} // verus!
