//! Building a message into a caller-supplied buffer.
//!
//! The builder is a strict linear state machine: each operation consumes the
//! builder and returns one bound to the next state, so an out-of-order call
//! is a compile-time error. Every write states exactly which bytes it puts
//! where, in the terms of the `wire` model, and every capacity check happens
//! before any byte of the field is written.

use core::marker::PhantomData;

use vstd::prelude::*;
use vstd::string::StringSliceAdditionalSpecFns;

use crate::codes::MessageType;
use crate::codes::OptionNumber;
use crate::codes::RequestCode;
use crate::codes::ResponseCode;
use crate::error::CoapBuildError;
use crate::wire::enc_opt;
use crate::wire::ext_bytes;
use crate::wire::ext_max;
use crate::wire::min_bytes;

verus! {

/// State for receiving the buffer.
pub struct NeedsBuffer;

/// State for constructing the header.
pub struct NeedsHeader;

/// State for adding the message ID.
pub struct NeedsMessageId;

/// State for adding the token and setting the token length.
pub struct NeedsToken;

/// State for adding options and/or payload.
pub struct NeedsPayload;

/// State for completing the packet.
pub struct Complete;

/// Builder for CoAP messages. The type parameter brands the construction
/// state; each operation consumes the builder and returns the next state.
#[verifier::reject_recursive_types(State)]
pub struct MessageBuilder<State> {
    buffer: Vec<u8>,
    offset: usize,
    last_option_number: u16,
    state: PhantomData<State>,
}

impl<State> MessageBuilder<State> {
    /// The whole output buffer, written prefix and untouched rest alike.
    pub closed spec fn bytes(self) -> Seq<u8> {
        self.buffer@
    }

    /// The write cursor: how many bytes of the buffer are the message so far.
    pub closed spec fn wpos(self) -> int {
        self.offset as int
    }

    /// The number of the last option written, zero before the first.
    pub closed spec fn last_num(self) -> u16 {
        self.last_option_number
    }
}

impl MessageBuilder<NeedsBuffer> {
    /// Create a new message builder taking ownership of the given buffer,
    /// which must be at least 4 bytes long.
    pub fn new(buffer: Vec<u8>) -> (r: Result<MessageBuilder<NeedsHeader>, CoapBuildError>)
        ensures
            match r {
                Ok(b) => {
                    &&& buffer@.len() >= 4
                    &&& b.bytes() == buffer@
                    &&& b.ready()
                },
                Err(CoapBuildError::BufferTooSmall) => buffer@.len() < 4,
                Err(_) => false,
            },
    {
        if buffer.len() < 4 {
            return Err(CoapBuildError::BufferTooSmall);
        }
        Ok(MessageBuilder { buffer, offset: 0, last_option_number: 0, state: PhantomData })
    }
}

impl MessageBuilder<NeedsHeader> {
    /// The builder is fresh: nothing written, cursor at the start.
    pub open spec fn ready(self) -> bool {
        &&& self.bytes().len() >= 4
        &&& self.wpos() == 0
        &&& self.last_num() == 0
    }

    /// Write the header byte (version, type, token length left zero for
    /// now) and the code byte.
    pub fn header(self, msg_type: MessageType, code: u8) -> (r: MessageBuilder<NeedsMessageId>)
        requires
            self.ready(),
        ensures
            r.bytes().len() == self.bytes().len(),
            r.bytes()[0] == 64 + 16 * (msg_type.bits_spec() as int),
            r.bytes()[1] == code,
            forall|i: int| 2 <= i < self.bytes().len() ==> r.bytes()[i] == self.bytes()[i],
            r.ready(),
    {
        let mut buffer = self.buffer;
        let bits = msg_type.bits();
        buffer[0] = 64 + 16 * bits;
        buffer[1] = code;
        proof {
            let b: int = msg_type.bits_spec() as int;
            assert((64 + 16 * b) % 16 == 0) by (nonlinear_arith)
                requires
                    0 <= b <= 3,
            ;
        }
        MessageBuilder { buffer, offset: 2, last_option_number: 0, state: PhantomData }
    }

    /// Convenience method for constructing a request packet.
    pub fn request(self, msg_type: MessageType, code: RequestCode) -> (r: MessageBuilder<
        NeedsMessageId,
    >)
        requires
            self.ready(),
        ensures
            r.bytes().len() == self.bytes().len(),
            r.bytes()[0] == 64 + 16 * (msg_type.bits_spec() as int),
            r.bytes()[1] == code.as_u8_spec(),
            forall|i: int| 2 <= i < self.bytes().len() ==> r.bytes()[i] == self.bytes()[i],
            r.ready(),
    {
        let c = code.as_u8();
        self.header(msg_type, c)
    }

    /// Convenience method for constructing a response packet.
    pub fn response(self, msg_type: MessageType, code: ResponseCode) -> (r: MessageBuilder<
        NeedsMessageId,
    >)
        requires
            self.ready(),
        ensures
            r.bytes().len() == self.bytes().len(),
            r.bytes()[0] == 64 + 16 * (msg_type.bits_spec() as int),
            r.bytes()[1] == code.as_u8_spec(),
            forall|i: int| 2 <= i < self.bytes().len() ==> r.bytes()[i] == self.bytes()[i],
            r.ready(),
    {
        let c = code.as_u8();
        self.header(msg_type, c)
    }

    /// Convenience method for constructing an empty packet (code 0.00).
    pub fn empty(self, msg_type: MessageType) -> (r: MessageBuilder<NeedsMessageId>)
        requires
            self.ready(),
        ensures
            r.bytes().len() == self.bytes().len(),
            r.bytes()[0] == 64 + 16 * (msg_type.bits_spec() as int),
            r.bytes()[1] == 0,
            forall|i: int| 2 <= i < self.bytes().len() ==> r.bytes()[i] == self.bytes()[i],
            r.ready(),
    {
        self.header(msg_type, 0)
    }

    /// Convenience method for constructing a ping request: an empty
    /// Confirmable message.
    pub fn ping(self) -> (r: MessageBuilder<NeedsMessageId>)
        requires
            self.ready(),
        ensures
            r.bytes().len() == self.bytes().len(),
            r.bytes()[0] == 64,
            r.bytes()[1] == 0,
            forall|i: int| 2 <= i < self.bytes().len() ==> r.bytes()[i] == self.bytes()[i],
            r.ready(),
    {
        self.header(MessageType::Confirmable, 0)
    }
}

impl MessageBuilder<NeedsMessageId> {
    /// Header and code are written; the cursor stands at byte 2, and the
    /// token-length nibble of byte 0 is still zero.
    pub open spec fn ready(self) -> bool {
        &&& self.bytes().len() >= 4
        &&& self.wpos() == 2
        &&& self.last_num() == 0
        &&& self.bytes()[0] % 16 == 0
    }

    /// Write the message ID, big-endian, into bytes 2 and 3.
    pub fn message_id(self, id: u16) -> (r: MessageBuilder<NeedsToken>)
        requires
            self.ready(),
        ensures
            r.bytes().len() == self.bytes().len(),
            r.bytes()[0] == self.bytes()[0],
            r.bytes()[1] == self.bytes()[1],
            r.bytes()[2] == id / 256,
            r.bytes()[3] == id % 256,
            forall|i: int| 4 <= i < self.bytes().len() ==> r.bytes()[i] == self.bytes()[i],
            r.ready(),
    {
        let mut buffer = self.buffer;
        buffer[2] = (id / 256) as u8;
        buffer[3] = (id % 256) as u8;
        MessageBuilder { buffer, offset: 4, last_option_number: 0, state: PhantomData }
    }
}

impl MessageBuilder<NeedsToken> {
    /// The 4-byte header is written; the cursor stands at byte 4, and the
    /// token-length nibble of byte 0 is still zero.
    pub open spec fn ready(self) -> bool {
        &&& self.bytes().len() >= 4
        &&& self.wpos() == 4
        &&& self.last_num() == 0
        &&& self.bytes()[0] % 16 == 0
    }

    /// Add a token of between 0 and 8 bytes, recording its length in the
    /// low nibble of byte 0.
    pub fn token(self, token: &[u8]) -> (r: Result<MessageBuilder<NeedsPayload>, CoapBuildError>)
        requires
            self.ready(),
        ensures
            match r {
                Ok(b) => {
                    &&& token@.len() <= 8
                    &&& 4 + token@.len() <= self.bytes().len()
                    &&& b.bytes().len() == self.bytes().len()
                    &&& b.bytes()[0] == self.bytes()[0] + token@.len()
                    &&& forall|i: int| 1 <= i < 4 ==> b.bytes()[i] == self.bytes()[i]
                    &&& b.bytes().subrange(4, 4 + token@.len() as int) == token@
                    &&& forall|i: int|
                        4 + token@.len() <= i < self.bytes().len() ==> b.bytes()[i]
                            == self.bytes()[i]
                    &&& b.wpos() == 4 + token@.len()
                    &&& b.last_num() == 0
                    &&& b.ready()
                },
                Err(CoapBuildError::TokenTooLong(n)) => n == token@.len() && token@.len() > 8,
                Err(CoapBuildError::BufferTooSmall) => token@.len() <= 8 && 4 + token@.len()
                    > self.bytes().len(),
                Err(_) => false,
            },
    {
        let token_len = token.len();
        if token_len > 8 {
            return Err(CoapBuildError::TokenTooLong(token_len));
        }
        if token_len > self.buffer.len() - 4 {
            return Err(CoapBuildError::BufferTooSmall);
        }

        let mut buffer = self.buffer;
        proof {
            let b0: int = buffer@[0] as int;
            assert(b0 <= 240) by (nonlinear_arith)
                requires
                    0 <= b0 <= 255,
                    b0 % 16 == 0,
            ;
        }
        let b0 = buffer[0];
        buffer[0] = b0 + token_len as u8;
        write_bytes(&mut buffer, 4, token);
        Ok(
            MessageBuilder {
                buffer,
                offset: 4 + token_len,
                last_option_number: 0,
                state: PhantomData,
            },
        )
    }

    /// Skip adding a token: a no-op transition, the token-length nibble
    /// stays zero.
    pub fn no_token(self) -> (r: Result<MessageBuilder<NeedsPayload>, CoapBuildError>)
        requires
            self.ready(),
        ensures
            match r {
                Ok(b) => {
                    &&& b.bytes() == self.bytes()
                    &&& b.wpos() == 4
                    &&& b.last_num() == 0
                    &&& b.ready()
                },
                Err(_) => false,
            },
    {
        Ok(
            MessageBuilder {
                buffer: self.buffer,
                offset: self.offset,
                last_option_number: self.last_option_number,
                state: PhantomData,
            },
        )
    }
}

impl MessageBuilder<NeedsPayload> {
    /// Header, message id and token are written; options may follow.
    pub open spec fn ready(self) -> bool {
        &&& self.bytes().len() >= 4
        &&& 4 <= self.wpos() <= self.bytes().len()
    }

    /// Add an option. Option numbers must be supplied in non-decreasing
    /// order across successive calls; the option is written as its delta
    /// against the previous option's number.
    #[verifier::rlimit(100)]
    pub fn option(self, number: OptionNumber, value: &[u8]) -> (r: Result<
        MessageBuilder<NeedsPayload>,
        CoapBuildError,
    >)
        requires
            self.ready(),
            value@.len() <= ext_max(),
        ensures
            match r {
                Ok(b) => {
                    &&& number.raw_spec() >= self.last_num()
                    &&& self.wpos() + enc_opt(
                        number.raw_spec() - self.last_num(),
                        value@,
                    ).len() <= self.bytes().len()
                    &&& b.bytes().len() == self.bytes().len()
                    &&& forall|i: int| 0 <= i < self.wpos() ==> b.bytes()[i] == self.bytes()[i]
                    &&& b.bytes().subrange(self.wpos(), b.wpos()) == enc_opt(
                        number.raw_spec() - self.last_num(),
                        value@,
                    )
                    &&& forall|i: int|
                        b.wpos() <= i < self.bytes().len() ==> b.bytes()[i] == self.bytes()[i]
                    &&& b.wpos() == self.wpos() + enc_opt(
                        number.raw_spec() - self.last_num(),
                        value@,
                    ).len()
                    &&& b.last_num() == number.raw_spec()
                    &&& b.ready()
                },
                Err(CoapBuildError::OptionNumberOutOfOrder) => number.raw_spec() < self.last_num(),
                Err(CoapBuildError::BufferTooSmall) => {
                    &&& number.raw_spec() >= self.last_num()
                    &&& self.wpos() + enc_opt(number.raw_spec() - self.last_num(), value@).len()
                        > self.bytes().len()
                },
                Err(_) => false,
            },
    {
        let num = number.to_raw();
        if num < self.last_option_number {
            return Err(CoapBuildError::OptionNumberOutOfOrder);
        }
        let delta = num - self.last_option_number;

        let dnib: u8 = if delta < 13 {
            delta as u8
        } else if delta < 269 {
            13
        } else {
            14
        };
        let dext: usize = if delta < 13 {
            0
        } else if delta < 269 {
            1
        } else {
            2
        };
        let vlen = value.len();
        let lnib: u8 = if vlen < 13 {
            vlen as u8
        } else if vlen < 269 {
            13
        } else {
            14
        };
        let lext: usize = if vlen < 13 {
            0
        } else if vlen < 269 {
            1
        } else {
            2
        };

        proof {
            assert(enc_opt(delta as int, value@).len() == 1 + dext + lext + vlen);
        }
        if 1 + dext + lext > self.buffer.len() - self.offset || vlen > self.buffer.len()
            - self.offset - 1 - dext - lext {
            return Err(CoapBuildError::BufferTooSmall);
        }

        let mut buffer = self.buffer;
        let off = self.offset;
        buffer[off] = dnib * 16 + lnib;
        let mut pos = off + 1;
        if delta >= 269 {
            let e = delta - 269;
            buffer[pos] = (e / 256) as u8;
            buffer[pos + 1] = (e % 256) as u8;
            pos = pos + 2;
        } else if delta >= 13 {
            buffer[pos] = (delta - 13) as u8;
            pos = pos + 1;
        }
        if vlen >= 269 {
            let e = vlen - 269;
            buffer[pos] = (e / 256) as u8;
            buffer[pos + 1] = (e % 256) as u8;
            pos = pos + 2;
        } else if vlen >= 13 {
            buffer[pos] = (vlen - 13) as u8;
            pos = pos + 1;
        }
        write_bytes(&mut buffer, pos, value);
        let end = pos + vlen;

        proof {
            let eo = enc_opt(delta as int, value@);
            assert forall|i: int| 0 <= i < eo.len() implies buffer@[off + i] == eo[i] by {
                crate::laws::lemma_enc_opt_index(delta as int, value@, i);
                if i == 0 {
                } else if i < 1 + dext {
                    assert(eo[i] == ext_bytes(delta as int)[i - 1]);
                } else if i < 1 + dext + lext {
                    assert(eo[i] == ext_bytes(vlen as int)[i - 1 - dext]);
                } else {
                    assert(eo[i] == value@[i - 1 - dext - lext]);
                    assert(buffer@[off + i] == buffer@.subrange(
                        pos as int,
                        pos + vlen,
                    )[i - 1 - dext - lext]);
                }
            }
            assert(buffer@.subrange(off as int, off + eo.len()) =~= eo);
        }

        Ok(
            MessageBuilder {
                buffer,
                offset: end,
                last_option_number: num,
                state: PhantomData,
            },
        )
    }

    /// Add an option with a UTF-8 string value: its raw bytes are the
    /// option value.
    pub fn option_string(self, number: OptionNumber, value: &str) -> (r: Result<
        MessageBuilder<NeedsPayload>,
        CoapBuildError,
    >)
        requires
            self.ready(),
            value.spec_bytes().len() <= ext_max(),
        ensures
            match r {
                Ok(b) => {
                    &&& number.raw_spec() >= self.last_num()
                    &&& self.wpos() + enc_opt(
                        number.raw_spec() - self.last_num(),
                        value.spec_bytes(),
                    ).len() <= self.bytes().len()
                    &&& b.bytes().len() == self.bytes().len()
                    &&& forall|i: int| 0 <= i < self.wpos() ==> b.bytes()[i] == self.bytes()[i]
                    &&& b.bytes().subrange(self.wpos(), b.wpos()) == enc_opt(
                        number.raw_spec() - self.last_num(),
                        value.spec_bytes(),
                    )
                    &&& forall|i: int|
                        b.wpos() <= i < self.bytes().len() ==> b.bytes()[i] == self.bytes()[i]
                    &&& b.wpos() == self.wpos() + enc_opt(
                        number.raw_spec() - self.last_num(),
                        value.spec_bytes(),
                    ).len()
                    &&& b.last_num() == number.raw_spec()
                    &&& b.ready()
                },
                Err(CoapBuildError::OptionNumberOutOfOrder) => number.raw_spec() < self.last_num(),
                Err(CoapBuildError::BufferTooSmall) => {
                    &&& number.raw_spec() >= self.last_num()
                    &&& self.wpos() + enc_opt(
                        number.raw_spec() - self.last_num(),
                        value.spec_bytes(),
                    ).len() > self.bytes().len()
                },
                Err(_) => false,
            },
    {
        self.option(number, value.as_bytes())
    }

    /// Add an option with an unsigned integer value, encoded minimally:
    /// big-endian with no leading zero bytes, zero itself as no bytes.
    pub fn option_uint(self, number: OptionNumber, value: u64) -> (r: Result<
        MessageBuilder<NeedsPayload>,
        CoapBuildError,
    >)
        requires
            self.ready(),
        ensures
            match r {
                Ok(b) => {
                    &&& number.raw_spec() >= self.last_num()
                    &&& self.wpos() + enc_opt(
                        number.raw_spec() - self.last_num(),
                        min_bytes(value as int),
                    ).len() <= self.bytes().len()
                    &&& b.bytes().len() == self.bytes().len()
                    &&& forall|i: int| 0 <= i < self.wpos() ==> b.bytes()[i] == self.bytes()[i]
                    &&& b.bytes().subrange(self.wpos(), b.wpos()) == enc_opt(
                        number.raw_spec() - self.last_num(),
                        min_bytes(value as int),
                    )
                    &&& forall|i: int|
                        b.wpos() <= i < self.bytes().len() ==> b.bytes()[i] == self.bytes()[i]
                    &&& b.wpos() == self.wpos() + enc_opt(
                        number.raw_spec() - self.last_num(),
                        min_bytes(value as int),
                    ).len()
                    &&& b.last_num() == number.raw_spec()
                    &&& b.ready()
                },
                Err(CoapBuildError::OptionNumberOutOfOrder) => number.raw_spec() < self.last_num(),
                Err(CoapBuildError::BufferTooSmall) => {
                    &&& number.raw_spec() >= self.last_num()
                    &&& self.wpos() + enc_opt(
                        number.raw_spec() - self.last_num(),
                        min_bytes(value as int),
                    ).len() > self.bytes().len()
                },
                Err(_) => false,
            },
    {
        let bytes = uint_to_minimal_bytes(value);
        proof {
            lemma_min_bytes_len_u64(value as int);
        }
        self.option(number, bytes.as_slice())
    }

    /// Add a payload: the 0xFF marker, then the payload bytes, which must
    /// not be empty.
    pub fn payload(self, payload: &[u8]) -> (r: Result<MessageBuilder<Complete>, CoapBuildError>)
        requires
            self.ready(),
        ensures
            match r {
                Ok(b) => {
                    &&& payload@.len() > 0
                    &&& self.wpos() + 1 + payload@.len() <= self.bytes().len()
                    &&& b.bytes().len() == self.bytes().len()
                    &&& forall|i: int| 0 <= i < self.wpos() ==> b.bytes()[i] == self.bytes()[i]
                    &&& b.bytes()[self.wpos()] == 255
                    &&& b.bytes().subrange(self.wpos() + 1, self.wpos() + 1 + payload@.len() as int)
                        == payload@
                    &&& forall|i: int|
                        self.wpos() + 1 + payload@.len() <= i < self.bytes().len() ==> b.bytes()[i]
                            == self.bytes()[i]
                    &&& b.wpos() == self.wpos() + 1 + payload@.len()
                    &&& b.ready()
                },
                Err(CoapBuildError::PayloadMarkerWithoutPayload) => payload@.len() == 0,
                Err(CoapBuildError::BufferTooSmall) => payload@.len() > 0 && self.wpos() + 1
                    + payload@.len() > self.bytes().len(),
                Err(_) => false,
            },
    {
        if payload.len() == 0 {
            return Err(CoapBuildError::PayloadMarkerWithoutPayload);
        }
        if self.offset >= self.buffer.len() || payload.len() > self.buffer.len() - self.offset
            - 1 {
            return Err(CoapBuildError::BufferTooSmall);
        }

        let mut buffer = self.buffer;
        buffer[self.offset] = 255;
        write_bytes(&mut buffer, self.offset + 1, payload);
        Ok(
            MessageBuilder {
                buffer,
                offset: self.offset + 1 + payload.len(),
                last_option_number: self.last_option_number,
                state: PhantomData,
            },
        )
    }

    /// Skip adding a payload: a no-op transition to the complete state.
    pub fn no_payload(self) -> (r: MessageBuilder<Complete>)
        requires
            self.ready(),
        ensures
            r.bytes() == self.bytes(),
            r.wpos() == self.wpos(),
            r.ready(),
    {
        MessageBuilder {
            buffer: self.buffer,
            offset: self.offset,
            last_option_number: self.last_option_number,
            state: PhantomData,
        }
    }
}

impl MessageBuilder<Complete> {
    /// The message is complete up to the cursor.
    pub open spec fn ready(self) -> bool {
        &&& 4 <= self.wpos() <= self.bytes().len()
    }

    /// Build the packet: the written prefix of the buffer.
    pub fn build(self) -> (r: Vec<u8>)
        requires
            self.ready(),
        ensures
            r@ == self.bytes().subrange(0, self.wpos()),
    {
        let mut buffer = self.buffer;
        buffer.truncate(self.offset);
        buffer
    }

    /// Returns the length of the packet.
    pub fn len(&self) -> (r: usize)
        ensures
            r == self.wpos(),
    {
        self.offset
    }
}

/// Converts an unsigned integer to its minimal big-endian byte
/// representation: no leading zero bytes, and zero as no bytes at all
/// (RFC 7252 3.2).
pub fn uint_to_minimal_bytes(value: u64) -> (r: Vec<u8>)
    ensures
        r@ == min_bytes(value as int),
{
    let mut v = value;
    let mut out: Vec<u8> = Vec::new();
    while v > 0
        invariant
            min_bytes(value as int) == min_bytes(v as int) + out@,
        decreases v,
    {
        let ghost out0 = out@;
        let ghost v0 = v as int;
        out.insert(0, (v % 256) as u8);
        proof {
            assert(out@ =~= seq![(v0 % 256) as u8] + out0);
            assert(min_bytes(v0) =~= min_bytes(v0 / 256) + seq![(v0 % 256) as u8]);
            assert(min_bytes(v0 / 256) + (seq![(v0 % 256) as u8] + out0) =~= (min_bytes(v0 / 256)
                + seq![(v0 % 256) as u8]) + out0);
        }
        v = v / 256;
    }
    proof {
        assert(min_bytes(value as int) =~= out@);
    }
    out
}

/// Copies `src` into `buf` starting at `at`, leaving every other byte as
/// it was.
fn write_bytes(buf: &mut Vec<u8>, at: usize, src: &[u8])
    requires
        at + src@.len() <= old(buf)@.len(),
    ensures
        final(buf)@.len() == old(buf)@.len(),
        final(buf)@.subrange(at as int, at + src@.len() as int) == src@,
        forall|i: int| 0 <= i < at ==> final(buf)@[i] == old(buf)@[i],
        forall|i: int| at + src@.len() <= i < old(buf)@.len() ==> final(buf)@[i] == old(buf)@[i],
{
    let ghost buf0 = buf@;
    let n = src.len();
    let cap = buf.len();
    let mut i: usize = 0;
    while i < n
        invariant
            n == src@.len(),
            at + n <= cap == buf@.len(),
            buf@.len() == buf0.len(),
            i <= n,
            forall|j: int| 0 <= j < i ==> buf@[at + j] == src@[j],
            forall|j: int| 0 <= j < at ==> buf@[j] == buf0[j],
            forall|j: int| at + n <= j < buf0.len() ==> buf@[j] == buf0[j],
        decreases n - i,
    {
        let b = src[i];
        buf[at + i] = b;
        i = i + 1;
    }
    proof {
        assert(buf@.subrange(at as int, at + n as int) =~= src@);
    }
}

/// The minimal encoding of a value below 256 to the `k` has at most `k`
/// bytes.
proof fn lemma_min_bytes_len(v: int, k: nat)
    requires
        0 <= v < vstd::arithmetic::power::pow(256, k),
    ensures
        min_bytes(v).len() <= k,
    decreases k,
{
    if v > 0 {
        assert(k > 0) by {
            if k == 0 {
                assert(vstd::arithmetic::power::pow(256, 0) == 1) by {
                    reveal(vstd::arithmetic::power::pow);
                }
            }
        }
        assert(vstd::arithmetic::power::pow(256, k) == 256 * vstd::arithmetic::power::pow(
            256,
            (k - 1) as nat,
        )) by {
            reveal(vstd::arithmetic::power::pow);
        }
        assert(v / 256 < vstd::arithmetic::power::pow(256, (k - 1) as nat)) by (nonlinear_arith)
            requires
                0 <= v < 256 * vstd::arithmetic::power::pow(256, (k - 1) as nat),
        ;
        lemma_min_bytes_len(v / 256, (k - 1) as nat);
    }
}

/// The minimal encoding of a 64-bit value has at most 8 bytes.
pub proof fn lemma_min_bytes_len_u64(v: int)
    requires
        0 <= v < 0x1_0000_0000_0000_0000,
    ensures
        min_bytes(v).len() <= 8,
{
    assert(vstd::arithmetic::power::pow(256, 8) == 0x1_0000_0000_0000_0000) by {
        reveal_with_fuel(vstd::arithmetic::power::pow, 9);
    }
    lemma_min_bytes_len(v, 8);
}

} // verus!
