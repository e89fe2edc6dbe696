//! Primitive binary encodings and the length-prefixed frame.
//!
//! Every wire value is built from four primitives: single bytes, 32- and
//! 64-bit little-endian integers, length-prefixed byte strings and
//! length-prefixed UTF-8 text.  A frame is a 32-bit little-endian length
//! prefix followed by that many body bytes, capped at `FRAME_CAP`.
//!
//! Serialisers are spec functions over sequences; parsers are spec functions
//! from a byte sequence to the parsed value and the remaining suffix.  Each
//! primitive comes with a round-trip lemma, and the executable encoders and
//! decoders are proved against the spec functions.

use vstd::prelude::*;

use vstd::bytes::*;
use vstd::slice::*;
use vstd::utf8::*;

verus! {

/// The safety cap on a frame body: 16 MiB.
pub const FRAME_CAP: usize = 16777216;

// ---------------------------------------------------------------- spec: ser
pub open spec fn ser_u8(x: u8) -> Seq<u8> {
    seq![x]
}

pub open spec fn ser_u32(x: u32) -> Seq<u8> {
    spec_u32_to_le_bytes(x)
}

pub open spec fn ser_u64(x: u64) -> Seq<u8> {
    spec_u64_to_le_bytes(x)
}

pub open spec fn ser_bytes(b: Seq<u8>) -> Seq<u8>
    recommends
        b.len() <= u64::MAX,
{
    ser_u64(b.len() as u64) + b
}

pub open spec fn ser_string(s: Seq<char>) -> Seq<u8>
    recommends
        encode_utf8(s).len() <= u64::MAX,
{
    ser_bytes(encode_utf8(s))
}

// -------------------------------------------------------------- spec: parse
pub open spec fn parse_u8(b: Seq<u8>) -> Option<(u8, Seq<u8>)> {
    if b.len() >= 1 {
        Some((b[0], b.skip(1)))
    } else {
        None
    }
}

pub open spec fn parse_u32(b: Seq<u8>) -> Option<(u32, Seq<u8>)> {
    if b.len() >= 4 {
        Some((spec_u32_from_le_bytes(b.subrange(0, 4)), b.skip(4)))
    } else {
        None
    }
}

pub open spec fn parse_u64(b: Seq<u8>) -> Option<(u64, Seq<u8>)> {
    if b.len() >= 8 {
        Some((spec_u64_from_le_bytes(b.subrange(0, 8)), b.skip(8)))
    } else {
        None
    }
}

pub open spec fn parse_bytes(b: Seq<u8>) -> Option<(Seq<u8>, Seq<u8>)> {
    match parse_u64(b) {
        None => None,
        Some((n, r)) => if n <= r.len() {
            Some((r.subrange(0, n as int), r.skip(n as int)))
        } else {
            None
        },
    }
}

pub open spec fn parse_string(b: Seq<u8>) -> Option<(Seq<char>, Seq<u8>)> {
    match parse_bytes(b) {
        None => None,
        Some((d, r)) => if valid_utf8(d) {
            Some((decode_utf8(d), r))
        } else {
            None
        },
    }
}

// ------------------------------------------------------- round-trip lemmas
pub proof fn lemma_parse_ser_u8(x: u8, rest: Seq<u8>)
    ensures
        parse_u8(ser_u8(x) + rest) == Some((x, rest)),
{
    assert((ser_u8(x) + rest).skip(1) =~= rest);
    assert((ser_u8(x) + rest)[0] == x);
}

pub proof fn lemma_parse_ser_u32(x: u32, rest: Seq<u8>)
    ensures
        parse_u32(ser_u32(x) + rest) == Some((x, rest)),
        ser_u32(x).len() == 4,
{
    lemma_auto_spec_u32_to_from_le_bytes();
    assert((ser_u32(x) + rest).subrange(0, 4) =~= ser_u32(x));
    assert((ser_u32(x) + rest).skip(4) =~= rest);
}

pub proof fn lemma_parse_ser_u64(x: u64, rest: Seq<u8>)
    ensures
        parse_u64(ser_u64(x) + rest) == Some((x, rest)),
        ser_u64(x).len() == 8,
{
    lemma_auto_spec_u64_to_from_le_bytes();
    assert((ser_u64(x) + rest).subrange(0, 8) =~= ser_u64(x));
    assert((ser_u64(x) + rest).skip(8) =~= rest);
}

pub proof fn lemma_parse_ser_bytes(d: Seq<u8>, rest: Seq<u8>)
    requires
        d.len() <= u64::MAX,
    ensures
        parse_bytes(ser_bytes(d) + rest) == Some((d, rest)),
{
    lemma_parse_ser_u64(d.len() as u64, d + rest);
    assert(ser_bytes(d) + rest =~= ser_u64(d.len() as u64) + (d + rest));
    assert((d + rest).subrange(0, d.len() as int) =~= d);
    assert((d + rest).skip(d.len() as int) =~= rest);
}

pub proof fn lemma_parse_ser_string(s: Seq<char>, rest: Seq<u8>)
    requires
        encode_utf8(s).len() <= u64::MAX,
    ensures
        parse_string(ser_string(s) + rest) == Some((s, rest)),
{
    lemma_parse_ser_bytes(encode_utf8(s), rest);
    encode_utf8_valid_utf8(s);
    encode_utf8_decode_utf8(s);
}

// ------------------------------------------------------------------ frames
pub open spec fn ser_frame(body: Seq<u8>) -> Seq<u8>
    recommends
        body.len() <= FRAME_CAP,
{
    ser_u32(body.len() as u32) + body
}

pub open spec fn parse_frame(b: Seq<u8>) -> Option<(Seq<u8>, Seq<u8>)> {
    match parse_u32(b) {
        None => None,
        Some((n, r)) => if n <= FRAME_CAP && n <= r.len() {
            Some((r.subrange(0, n as int), r.skip(n as int)))
        } else {
            None
        },
    }
}

pub proof fn lemma_parse_ser_frame(body: Seq<u8>, rest: Seq<u8>)
    requires
        body.len() <= FRAME_CAP,
    ensures
        parse_frame(ser_frame(body) + rest) == Some((body, rest)),
        ser_frame(body).len() == 4 + body.len(),
{
    lemma_parse_ser_u32(body.len() as u32, body + rest);
    assert(ser_frame(body) + rest =~= ser_u32(body.len() as u32) + (body + rest));
    assert((body + rest).subrange(0, body.len() as int) =~= body);
    assert((body + rest).skip(body.len() as int) =~= rest);
}

/// The concatenation of one frame per body.
pub open spec fn ser_frames(bodies: Seq<Seq<u8>>) -> Seq<u8>
    decreases bodies.len(),
{
    if bodies.len() == 0 {
        Seq::empty()
    } else {
        ser_frame(bodies[0]) + ser_frames(bodies.drop_first())
    }
}

/// Splits a byte stream into its frame bodies; `None` on a short or oversize
/// frame.  An empty stream is a clean end.
pub open spec fn parse_frames(b: Seq<u8>) -> Option<Seq<Seq<u8>>>
    decreases b.len(),
{
    if b.len() == 0 {
        Some(Seq::empty())
    } else {
        match parse_frame(b) {
            None => None,
            Some((body, r)) => if r.len() < b.len() {
                match parse_frames(r) {
                    None => None,
                    Some(tail) => Some(seq![body] + tail),
                }
            } else {
                None
            },
        }
    }
}

/// A stream of frames decodes back to its bodies, in order, with no residue.
pub proof fn lemma_parse_ser_frames(bodies: Seq<Seq<u8>>)
    requires
        forall|i: int| 0 <= i < bodies.len() ==> #[trigger] bodies[i].len() <= FRAME_CAP,
    ensures
        parse_frames(ser_frames(bodies)) == Some(bodies),
    decreases bodies.len(),
{
    if bodies.len() == 0 {
    } else {
        let body = bodies[0];
        let tailb = ser_frames(bodies.drop_first());
        lemma_parse_ser_frame(body, tailb);
        lemma_parse_ser_frames(bodies.drop_first());
        assert(seq![body] + bodies.drop_first() =~= bodies);
    }
}

// ------------------------------------------------------------ exec encoders
/// Appends a byte slice.
pub fn push_bytes(out: &mut Vec<u8>, b: &[u8])
    ensures
        final(out)@ == old(out)@ + b@,
{
    let mut i: usize = 0;
    while i < b.len()
        invariant
            i <= b@.len(),
            out@ == old(out)@ + b@.subrange(0, i as int),
        decreases b@.len() - i,
    {
        out.push(*slice_index_get(b, i));
        i = i + 1;
        proof {
            assert(out@ =~= old(out)@ + b@.subrange(0, i as int));
        }
    }
    proof {
        assert(out@ =~= old(out)@ + b@);
    }
}

pub fn enc_u8(out: &mut Vec<u8>, x: u8)
    ensures
        final(out)@ == old(out)@ + ser_u8(x),
{
    out.push(x);
    proof {
        assert(out@ =~= old(out)@ + ser_u8(x));
    }
}

pub fn enc_u32(out: &mut Vec<u8>, x: u32)
    ensures
        final(out)@ == old(out)@ + ser_u32(x),
{
    let mut b = u32_to_le_bytes(x);
    out.append(&mut b);
}

pub fn enc_u64(out: &mut Vec<u8>, x: u64)
    ensures
        final(out)@ == old(out)@ + ser_u64(x),
{
    let mut b = u64_to_le_bytes(x);
    out.append(&mut b);
}

pub fn enc_bytes(out: &mut Vec<u8>, b: &[u8])
    ensures
        final(out)@ == old(out)@ + ser_bytes(b@),
{
    enc_u64(out, b.len() as u64);
    push_bytes(out, b);
    proof {
        assert(out@ =~= old(out)@ + ser_bytes(b@));
    }
}

pub fn enc_str(out: &mut Vec<u8>, s: &str)
    ensures
        final(out)@ == old(out)@ + ser_string(s@),
{
    let bs = s.as_bytes();
    enc_bytes(out, bs);
}

// ------------------------------------------------------------ exec decoders
/// Relies on std's `String::from_utf8`: `Ok` exactly on UTF-8 input, and the
/// returned string's UTF-8 encoding is the input itself.
#[verifier::external_body]
fn string_from_utf8(v: Vec<u8>) -> (r: Option<String>)
    ensures
        r is Some <==> valid_utf8(v@),
        r matches Some(s) ==> encode_utf8(s@) == v@,
{
    String::from_utf8(v).ok()
}

pub fn dec_u8(b: &[u8], pos: usize) -> (r: Option<(u8, usize)>)
    requires
        pos <= b@.len(),
    ensures
        r is None ==> parse_u8(b@.skip(pos as int)) is None,
        r matches Some((x, p)) ==> pos < p <= b@.len() && parse_u8(b@.skip(pos as int)) == Some(
            (x, b@.skip(p as int)),
        ),
{
    if pos < b.len() {
        let x = *slice_index_get(b, pos);
        proof {
            assert(b@.skip(pos as int)[0] == b@[pos as int]);
            assert(b@.skip(pos as int).skip(1) =~= b@.skip(pos as int + 1));
        }
        Some((x, pos + 1))
    } else {
        None
    }
}

pub fn dec_u32(b: &[u8], pos: usize) -> (r: Option<(u32, usize)>)
    requires
        pos <= b@.len(),
    ensures
        r is None ==> parse_u32(b@.skip(pos as int)) is None,
        r matches Some((x, p)) ==> pos < p <= b@.len() && parse_u32(b@.skip(pos as int)) == Some(
            (x, b@.skip(p as int)),
        ),
{
    if b.len() - pos >= 4 {
        let s = slice_subrange(b, pos, pos + 4);
        let x = u32_from_le_bytes(s);
        proof {
            assert(b@.skip(pos as int).subrange(0, 4) =~= b@.subrange(pos as int, pos as int + 4));
            assert(b@.skip(pos as int).skip(4) =~= b@.skip(pos as int + 4));
        }
        Some((x, pos + 4))
    } else {
        None
    }
}

pub fn dec_u64(b: &[u8], pos: usize) -> (r: Option<(u64, usize)>)
    requires
        pos <= b@.len(),
    ensures
        r is None ==> parse_u64(b@.skip(pos as int)) is None,
        r matches Some((x, p)) ==> pos < p <= b@.len() && parse_u64(b@.skip(pos as int)) == Some(
            (x, b@.skip(p as int)),
        ),
{
    if b.len() - pos >= 8 {
        let s = slice_subrange(b, pos, pos + 8);
        let x = u64_from_le_bytes(s);
        proof {
            assert(b@.skip(pos as int).subrange(0, 8) =~= b@.subrange(pos as int, pos as int + 8));
            assert(b@.skip(pos as int).skip(8) =~= b@.skip(pos as int + 8));
        }
        Some((x, pos + 8))
    } else {
        None
    }
}

pub fn dec_bytes(b: &[u8], pos: usize) -> (r: Option<(Vec<u8>, usize)>)
    requires
        pos <= b@.len(),
    ensures
        r is None ==> parse_bytes(b@.skip(pos as int)) is None,
        r matches Some((v, p)) ==> pos < p <= b@.len() && parse_bytes(b@.skip(pos as int)) == Some(
            (v@, b@.skip(p as int)),
        ),
{
    match dec_u64(b, pos) {
        None => None,
        Some((n, p)) => {
            let rem = b.len() - p;
            if n <= rem as u64 {
                let end = p + (n as usize);
                let s = slice_subrange(b, p, end);
                let v = slice_to_vec(s);
                proof {
                    assert(b@.skip(p as int).len() == rem);
                    assert(b@.skip(p as int).subrange(0, n as int) =~= b@.subrange(
                        p as int,
                        end as int,
                    ));
                    assert(b@.skip(p as int).skip(n as int) =~= b@.skip(end as int));
                }
                Some((v, end))
            } else {
                proof {
                    assert(b@.skip(p as int).len() == rem);
                }
                None
            }
        },
    }
}

pub fn dec_string(b: &[u8], pos: usize) -> (r: Option<(String, usize)>)
    requires
        pos <= b@.len(),
    ensures
        r is None ==> parse_string(b@.skip(pos as int)) is None,
        r matches Some((s, p)) ==> pos < p <= b@.len() && parse_string(b@.skip(pos as int))
            == Some((s@, b@.skip(p as int))),
{
    match dec_bytes(b, pos) {
        None => None,
        Some((v, p)) => {
            match string_from_utf8(v) {
                None => None,
                Some(s) => {
                    proof {
                        encode_utf8_decode_utf8(s@);
                    }
                    Some((s, p))
                },
            }
        },
    }
}


/// Wraps a body in a frame: a 32-bit little-endian length prefix, then the
/// body.  Fails exactly when the body is over the cap.
pub fn encode_frame(body: &Vec<u8>) -> (r: Option<Vec<u8>>)
    ensures
        r is Some <==> body@.len() <= FRAME_CAP,
        r matches Some(f) ==> f@ == ser_frame(body@),
{
    if body.len() <= FRAME_CAP {
        let mut out: Vec<u8> = Vec::new();
        enc_u32(&mut out, body.len() as u32);
        push_bytes(&mut out, body.as_slice());
        Some(out)
    } else {
        None
    }
}

/// Reads one frame: the checked length prefix, then that many body bytes.
pub fn dec_frame(b: &[u8], pos: usize) -> (r: Option<(Vec<u8>, usize)>)
    requires
        pos <= b@.len(),
    ensures
        r is None ==> parse_frame(b@.skip(pos as int)) is None,
        r matches Some((body, p)) ==> pos < p <= b@.len() && parse_frame(b@.skip(pos as int))
            == Some((body@, b@.skip(p as int))),
{
    match dec_u32(b, pos) {
        None => None,
        Some((n, p)) => {
            let rem = b.len() - p;
            if n as usize <= FRAME_CAP && n as u64 <= rem as u64 {
                let end = p + (n as usize);
                let s = slice_subrange(b, p, end);
                let v = slice_to_vec(s);
                proof {
                    assert(b@.skip(p as int).len() == rem);
                    assert(b@.skip(p as int).subrange(0, n as int) =~= b@.subrange(
                        p as int,
                        end as int,
                    ));
                    assert(b@.skip(p as int).skip(n as int) =~= b@.skip(end as int));
                }
                Some((v, end))
            } else {
                proof {
                    assert(b@.skip(p as int).len() == rem);
                }
                None
            }
        },
    }
}

/// The body length a frame header announces, where it is within the cap.
pub fn frame_body_len(prefix: &[u8]) -> (r: Option<usize>)
    requires
        prefix@.len() == 4,
    ensures
        r is Some <==> spec_u32_from_le_bytes(prefix@) <= FRAME_CAP,
        r matches Some(n) ==> n == spec_u32_from_le_bytes(prefix@),
{
    let n = u32_from_le_bytes(prefix);
    if n as usize <= FRAME_CAP {
        Some(n as usize)
    } else {
        None
    }
}


} // verus!
