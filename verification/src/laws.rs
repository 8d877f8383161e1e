//! The laws of the codec, proved once and for all: the boundaries of the
//! extension encodings, the round trip of the minimal integer encoding, and
//! the round trip of a whole built message through the parser.

use vstd::prelude::*;

use crate::codes::MessageType;
use crate::codes::Version;
use crate::error::CoapParseError;
use crate::wire::AbsMessage;
use crate::wire::be_uint;
use crate::wire::enc_msg;
use crate::wire::enc_opt;
use crate::wire::enc_opts;
use crate::wire::ext_bytes;
use crate::wire::ext_len;
use crate::wire::ext_max;
use crate::wire::ext_nibble;
use crate::wire::ext_value;
use crate::wire::min_bytes;
use crate::wire::opts_from;
use crate::wire::opts_wf;
use crate::wire::parse_spec;
use crate::wire::payload_bytes;
use crate::wire::scan_from;

verus! {

/// A delta or length of at most 12 is carried in the nibble itself; 13
/// through 268 switch to the one-byte extension, offset by 13; 269 and
/// beyond switch to the two-byte extension, offset by 269.
pub proof fn lemma_extension_thresholds(v: int)
    requires
        0 <= v <= ext_max(),
    ensures
        v <= 12 ==> ext_nibble(v) == v && ext_bytes(v).len() == 0,
        13 <= v <= 268 ==> ext_nibble(v) == 13 && ext_bytes(v).len() == 1 && ext_bytes(v)[0] == v
            - 13,
        269 <= v ==> ext_nibble(v) == 14 && ext_bytes(v).len() == 2 && 256 * (ext_bytes(
            v,
        )[0] as int) + ext_bytes(v)[1] == v - 269,
{
    if 269 <= v {
        vstd::arithmetic::div_mod::lemma_fundamental_div_mod(v - 269, 256);
        assert(0 <= (v - 269) / 256 < 256) by (nonlinear_arith)
            requires
                0 <= v - 269 <= 65535,
        ;
    }
}

/// Decoding the minimal big-endian encoding of an unsigned integer gives
/// the integer back; zero is encoded as no bytes at all.
pub proof fn lemma_minimal_uint_round_trip(v: u64)
    ensures
        be_uint(min_bytes(v as int)) == v,
        v == 0 ==> min_bytes(v as int) == Seq::<u8>::empty(),
{
    lemma_min_bytes_be(v as int);
    assert(min_bytes(0) =~= Seq::<u8>::empty());
}

/// Decoding the minimal encoding of any nonnegative integer gives it back.
proof fn lemma_min_bytes_be(v: int)
    requires
        v >= 0,
    ensures
        be_uint(min_bytes(v)) == v,
    decreases v,
{
    if v > 0 {
        lemma_min_bytes_be(v / 256);
        let s = min_bytes(v);
        assert(s == min_bytes(v / 256) + seq![(v % 256) as u8]);
        assert(s.drop_last() =~= min_bytes(v / 256));
        assert(s.last() == (v % 256) as u8);
        vstd::arithmetic::div_mod::lemma_fundamental_div_mod(v, 256);
    }
}

/// The header byte of one option packs the two nibbles losslessly, and is
/// never the payload marker.
proof fn lemma_header_byte(delta: int, vlen: int)
    requires
        0 <= delta <= ext_max(),
        0 <= vlen <= ext_max(),
    ensures
        ({
            let h = (ext_nibble(delta) * 16 + ext_nibble(vlen)) as u8;
            &&& h as int == ext_nibble(delta) * 16 + ext_nibble(vlen)
            &&& h as int / 16 == ext_nibble(delta)
            &&& h as int % 16 == ext_nibble(vlen)
            &&& h != 255
        }),
{
    let a = ext_nibble(delta);
    let b = ext_nibble(vlen);
    assert(0 <= a <= 14 && 0 <= b <= 14);
    assert((a * 16 + b) / 16 == a && (a * 16 + b) % 16 == b) by (nonlinear_arith)
        requires
            0 <= a <= 14 && 0 <= b <= 14,
    ;
}

/// The nibble of a value announces exactly as many extension bytes as its
/// encoding has.
proof fn lemma_ext_len(v: int)
    requires
        0 <= v <= ext_max(),
    ensures
        ext_len(ext_nibble(v)) == ext_bytes(v).len(),
        0 <= ext_nibble(v) <= 14,
{
}

/// Indexing into the wire encoding of one option: the header byte, then
/// the delta extension bytes, then the length extension bytes, then the
/// value.
pub(crate) proof fn lemma_enc_opt_index(delta: int, value: Seq<u8>, i: int)
    requires
        0 <= i < enc_opt(delta, value).len(),
    ensures
        enc_opt(delta, value).len() == 1 + ext_bytes(delta).len() + ext_bytes(
            value.len() as int,
        ).len() + value.len(),
        i == 0 ==> enc_opt(delta, value)[i] == (ext_nibble(delta) * 16 + ext_nibble(
            value.len() as int,
        )) as u8,
        0 < i < 1 + ext_bytes(delta).len() ==> enc_opt(delta, value)[i] == ext_bytes(delta)[i - 1],
        1 + ext_bytes(delta).len() <= i < 1 + ext_bytes(delta).len() + ext_bytes(
            value.len() as int,
        ).len() ==> enc_opt(delta, value)[i] == ext_bytes(value.len() as int)[i - 1 - ext_bytes(
            delta,
        ).len()],
        1 + ext_bytes(delta).len() + ext_bytes(value.len() as int).len() <= i ==> enc_opt(
            delta,
            value,
        )[i] == value[i - 1 - ext_bytes(delta).len() - ext_bytes(value.len() as int).len()],
{
}

/// Reading back the extension bytes of a value under its nibble gives the
/// value.
proof fn lemma_ext_decode(data: Seq<u8>, pos: int, v: int)
    requires
        0 <= v <= ext_max(),
        0 <= pos,
        pos + ext_bytes(v).len() <= data.len(),
        data.subrange(pos, pos + ext_bytes(v).len() as int) == ext_bytes(v),
    ensures
        ext_value(data, pos, ext_nibble(v)) == v,
{
    if v < 13 {
    } else if v < 269 {
        assert(data[pos] == data.subrange(pos, pos + 1)[0]);
    } else {
        assert(data[pos] == data.subrange(pos, pos + 2)[0]);
        assert(data[pos + 1] == data.subrange(pos, pos + 2)[1]);
        vstd::arithmetic::div_mod::lemma_fundamental_div_mod(v - 269, 256);
        assert(0 <= (v - 269) / 256 < 256) by (nonlinear_arith)
            requires
                0 <= v - 269 <= 65535,
        ;
    }
}

/// The validation walk accepts an encoded options region followed by an
/// encoded payload region, finds the region boundary, and finds the
/// payload start exactly when a payload is there.
proof fn lemma_scan_enc(buf: Seq<u8>, off: int, prev: int, opts: Seq<(u16, Seq<u8>)>, tail: Seq<u8>)
    requires
        0 <= off <= buf.len(),
        0 <= prev <= 65535,
        opts_wf(prev, opts),
        buf.subrange(off, buf.len() as int) == enc_opts(prev, opts) + tail,
        tail.len() == 0 || (tail[0] == 255 && tail.len() >= 2),
    ensures
        scan_from(buf, off) == if tail.len() == 0 {
            Ok::<(int, Option<int>), CoapParseError>((off + enc_opts(prev, opts).len(), None))
        } else {
            Ok::<(int, Option<int>), CoapParseError>(
                (off + enc_opts(prev, opts).len(), Some(off + enc_opts(prev, opts).len() + 1)),
            )
        },
    decreases opts.len(),
{
    if opts.len() == 0 {
        assert(enc_opts(prev, opts) =~= Seq::<u8>::empty());
        assert(buf.len() - off == tail.len());
        if tail.len() == 0 {
        } else {
            assert(buf[off] == buf.subrange(off, buf.len() as int)[0]);
        }
    } else {
        let n0 = opts[0].0 as int;
        let v0 = opts[0].1;
        let delta = n0 - prev;
        let vlen = v0.len() as int;
        let eo = enc_opt(delta, v0);
        let rest = enc_opts(n0, opts.drop_first());
        let e = enc_opts(prev, opts);
        assert(e == eo + rest);
        let dlen = ext_bytes(delta).len() as int;
        let llen = ext_bytes(vlen).len() as int;
        lemma_header_byte(delta, vlen);
        lemma_ext_len(delta);
        lemma_ext_len(vlen);
        let step = 1 + dlen + llen + vlen;
        assert(eo.len() == step) by {
            lemma_enc_opt_index(delta, v0, 0);
        }
        assert(buf.len() - off == e.len() + tail.len()) by {
            assert(buf.subrange(off, buf.len() as int).len() == buf.len() - off);
            assert((e + tail).len() == e.len() + tail.len());
        }
        assert(e.len() == eo.len() + rest.len());

        assert forall|i: int| 0 <= i < eo.len() implies buf[off + i] == eo[i] by {
            assert(buf[off + i] == buf.subrange(off, buf.len() as int)[i]);
            assert((e + tail)[i] == e[i]);
            assert((eo + rest)[i] == eo[i]);
        }

        let h = (ext_nibble(delta) * 16 + ext_nibble(vlen)) as u8;
        assert(buf[off] == h) by {
            lemma_enc_opt_index(delta, v0, 0);
        }
        let d = buf[off] as int / 16;
        let l = buf[off] as int % 16;
        assert(d == ext_nibble(delta) && l == ext_nibble(vlen));
        assert(ext_len(d) == dlen && ext_len(l) == llen);
        assert(off + step <= buf.len());

        assert(buf.subrange(off + 1 + dlen, off + 1 + dlen + llen) =~= ext_bytes(vlen)) by {
            assert forall|j: int| 0 <= j < llen implies buf[off + 1 + dlen + j] == ext_bytes(
                vlen,
            )[j] by {
                lemma_enc_opt_index(delta, v0, 1 + dlen + j);
            }
        }
        lemma_ext_decode(buf, off + 1 + dlen, vlen);
        assert(ext_value(buf, off + 1 + dlen, l) == vlen);

        assert(scan_from(buf, off) == scan_from(buf, off + step));

        assert(buf.subrange(off + step, buf.len() as int) =~= rest + tail) by {
            assert forall|k: int| 0 <= k < buf.len() - off - step implies buf[off + step + k] == (
            rest + tail)[k] by {
                assert(buf[off + step + k] == buf.subrange(off, buf.len() as int)[step + k]);
                assert((e + tail)[step + k] == if step + k < e.len() {
                    e[step + k]
                } else {
                    tail[step + k - e.len()]
                });
                if step + k < e.len() {
                    assert(e[step + k] == rest[k]);
                } else {
                    assert(rest.len() == e.len() - step);
                }
            }
        }
        lemma_scan_enc(buf, off + step, n0, opts.drop_first(), tail);
        assert(e.len() == step + rest.len());
    }
}

/// Extracting (number, value) pairs from an encoded options region gives
/// back exactly the options that were encoded.
proof fn lemma_opts_from_enc(data: Seq<u8>, off: int, prev: int, opts: Seq<(u16, Seq<u8>)>)
    requires
        0 <= off <= data.len(),
        0 <= prev <= 65535,
        opts_wf(prev, opts),
        data.subrange(off, data.len() as int) == enc_opts(prev, opts),
    ensures
        opts_from(data, off, prev) == opts,
    decreases opts.len(),
{
    if opts.len() == 0 {
        assert(enc_opts(prev, opts) =~= Seq::<u8>::empty());
        assert(off == data.len());
        assert(opts_from(data, off, prev) =~= opts);
    } else {
        let n0 = opts[0].0 as int;
        let v0 = opts[0].1;
        let delta = n0 - prev;
        let vlen = v0.len() as int;
        let eo = enc_opt(delta, v0);
        let rest = enc_opts(n0, opts.drop_first());
        let e = enc_opts(prev, opts);
        assert(e == eo + rest);
        let dlen = ext_bytes(delta).len() as int;
        let llen = ext_bytes(vlen).len() as int;
        lemma_header_byte(delta, vlen);
        lemma_ext_len(delta);
        lemma_ext_len(vlen);
        let step = 1 + dlen + llen + vlen;
        assert(eo.len() == step) by {
            lemma_enc_opt_index(delta, v0, 0);
        }
        assert(data.len() - off == e.len());

        assert forall|i: int| 0 <= i < eo.len() implies data[off + i] == eo[i] by {
            assert(data[off + i] == data.subrange(off, data.len() as int)[i]);
            assert((eo + rest)[i] == eo[i]);
        }

        let h = (ext_nibble(delta) * 16 + ext_nibble(vlen)) as u8;
        assert(data[off] == h) by {
            lemma_enc_opt_index(delta, v0, 0);
        }
        let d = data[off] as int / 16;
        let l = data[off] as int % 16;
        assert(d == ext_nibble(delta) && l == ext_nibble(vlen));
        assert(ext_len(d) == dlen && ext_len(l) == llen);
        assert(off + step <= data.len());

        assert(data.subrange(off + 1, off + 1 + dlen) =~= ext_bytes(delta)) by {
            assert forall|j: int| 0 <= j < dlen implies data[off + 1 + j] == ext_bytes(
                delta,
            )[j] by {
                lemma_enc_opt_index(delta, v0, 1 + j);
            }
        }
        lemma_ext_decode(data, off + 1, delta);
        assert(ext_value(data, off + 1, d) == delta);

        assert(data.subrange(off + 1 + dlen, off + 1 + dlen + llen) =~= ext_bytes(vlen)) by {
            assert forall|j: int| 0 <= j < llen implies data[off + 1 + dlen + j] == ext_bytes(
                vlen,
            )[j] by {
                lemma_enc_opt_index(delta, v0, 1 + dlen + j);
            }
        }
        lemma_ext_decode(data, off + 1 + dlen, vlen);
        assert(ext_value(data, off + 1 + dlen, l) == vlen);

        let vstart = off + 1 + dlen + llen;
        assert(data.subrange(vstart, vstart + vlen) =~= v0) by {
            assert forall|j: int| 0 <= j < vlen implies data[vstart + j] == v0[j] by {
                lemma_enc_opt_index(delta, v0, 1 + dlen + llen + j);
            }
        }

        assert(data.subrange(off + step, data.len() as int) =~= rest) by {
            assert forall|k: int| 0 <= k < data.len() - off - step implies data[off + step + k]
                == rest[k] by {
                assert(data[off + step + k] == data.subrange(off, data.len() as int)[step + k]);
                assert((eo + rest)[step + k] == rest[k]);
            }
        }
        lemma_opts_from_enc(data, off + step, n0, opts.drop_first());

        assert(prev + delta == n0 && n0 <= 65535);
        assert(opts_from(data, off, prev) == seq![((n0 as u16), data.subrange(vstart, vstart
            + vlen))] + opts_from(data, off + step, n0));
        assert(seq![((n0 as u16), v0)] + opts.drop_first() =~= opts);
    }
}

/// Round trip: a message encoded by the wire model parses back to exactly
/// its fields, and its options region denotes exactly its options. This is
/// what the builder writes, so any message the builder completes, the
/// parser accepts and returns unchanged. An empty code (0.00) tolerates no
/// options and no payload: with any of those the encoding is rejected as
/// an empty message with data, so those inputs stand outside this law.
pub proof fn lemma_round_trip(
    kind: MessageType,
    code: u8,
    message_id: u16,
    token: Seq<u8>,
    opts: Seq<(u16, Seq<u8>)>,
    payload: Option<Seq<u8>>,
)
    requires
        token.len() <= 8,
        opts_wf(0, opts),
        payload matches Some(p) ==> p.len() > 0,
        code == 0 ==> opts.len() == 0 && payload is None,
    ensures
        parse_spec(enc_msg(kind, code, message_id, token, opts, payload)) == Ok::<
            AbsMessage,
            CoapParseError,
        >(
            AbsMessage {
                version: Version::V1,
                kind,
                code,
                message_id,
                token,
                options_data: enc_opts(0, opts),
                payload,
            },
        ),
        opts_from(enc_opts(0, opts), 0, 0) == opts,
{
    let tkl = token.len() as int;
    let e = enc_opts(0, opts);
    let p = payload_bytes(payload);
    let buf = enc_msg(kind, code, message_id, token, opts, payload);
    let bits = kind.bits_spec() as int;
    let b0 = (64 + 16 * bits + tkl) as u8;

    assert(0 <= bits <= 3);
    assert(64 + 16 * bits + tkl <= 120);
    assert(buf.len() == 4 + tkl + e.len() + p.len());

    assert(buf[0] == b0 && buf[1] == code && buf[2] == (message_id / 256) as u8 && buf[3] == (
    message_id % 256) as u8) by {
        let hdr = crate::wire::header_bytes(kind, tkl, code, message_id);
        assert(hdr.len() == 4);
        assert(buf[0] == hdr[0] && buf[1] == hdr[1] && buf[2] == hdr[2] && buf[3] == hdr[3]);
    }

    assert(b0 as int / 64 == 1 && (b0 as int / 16) % 4 == bits && b0 as int % 16 == tkl)
        by (nonlinear_arith)
        requires
            0 <= bits <= 3,
            0 <= tkl <= 8,
            b0 == 64 + 16 * bits + tkl,
    ;
    assert(MessageType::from_bits_spec(bits as u8) == kind);

    assert(256 * ((message_id / 256) as u8) as int + (message_id % 256) as u8 == message_id);

    assert(buf.subrange(4, 4 + tkl) =~= token) by {
        assert forall|i: int| 0 <= i < tkl implies buf[4 + i] == token[i] by {
            let hdr = crate::wire::header_bytes(kind, tkl, code, message_id);
            assert((hdr + token)[4 + i] == token[i]);
            assert(((hdr + token) + e)[4 + i] == (hdr + token)[4 + i]);
        }
    }

    if code == 0 {
        assert(e =~= Seq::<u8>::empty());
        assert(p =~= Seq::<u8>::empty());
        assert(buf.len() == 4 + tkl);
    }

    assert(buf.subrange(4 + tkl, buf.len() as int) =~= e + p) by {
        assert forall|k: int| 0 <= k < e.len() + p.len() implies buf[4 + tkl + k] == (e + p)[k] by {
            let hdr = crate::wire::header_bytes(kind, tkl, code, message_id);
            let ht = hdr + token;
            assert(buf == (ht + e) + p);
            assert(ht.len() == 4 + tkl);
            if k < e.len() {
                assert((ht + e)[4 + tkl + k] == e[k]);
                assert(((ht + e) + p)[4 + tkl + k] == (ht + e)[4 + tkl + k]);
            } else {
                assert(((ht + e) + p)[4 + tkl + k] == p[k - e.len()]);
            }
        }
    }

    match payload {
        None => {
            assert(p.len() == 0);
            lemma_scan_enc(buf, 4 + tkl, 0, opts, p);
        },
        Some(pl) => {
            assert(p[0] == 255 && p.len() >= 2);
            lemma_scan_enc(buf, 4 + tkl, 0, opts, p);
        },
    }

    let end = 4 + tkl + e.len() as int;
    assert(buf.subrange(4 + tkl, end) =~= e) by {
        assert forall|k: int| 0 <= k < e.len() implies buf[4 + tkl + k] == e[k] by {
            assert(buf[4 + tkl + k] == buf.subrange(4 + tkl, buf.len() as int)[k]);
            assert((e + p)[k] == e[k]);
        }
    }

    match payload {
        None => {
        },
        Some(pl) => {
            assert(buf.subrange(end + 1, buf.len() as int) =~= pl) by {
                assert forall|k: int| 0 <= k < pl.len() implies buf[end + 1 + k] == pl[k] by {
                    assert(buf[end + 1 + k] == buf.subrange(4 + tkl, buf.len() as int)[e.len() + 1
                        + k]);
                    assert((e + p)[e.len() + 1 + k] == p[1 + k]);
                    assert((seq![255u8] + pl)[1 + k] == pl[k]);
                }
            }
        },
    }

    assert(e.subrange(0, e.len() as int) =~= e);
    lemma_opts_from_enc(e, 0, 0, opts);
}

} // verus!
