//! Whole messages on the wire: one frame per message, streams of frames.
//!
//! These functions tie the frame layer to the message bodies and carry the
//! framing round-trip: a message encodes into one frame and decodes back to
//! itself, and a stream of encoded messages decodes in order with no
//! residual bytes.

use vstd::prelude::*;

use crate::codec::dec_frame;
use crate::codec::encode_frame;
use crate::codec::parse_frame;
use crate::codec::ser_frame;
use crate::codec::FRAME_CAP;
use crate::messages::C2sView;
use crate::messages::ClientToServerMessage;
use crate::messages::S2cView;
use crate::messages::ServerToClientMessage;
use crate::wire::dec_c2s;
use crate::wire::dec_s2c;
use crate::wire::encode_c2s;
use crate::wire::encode_s2c;
use crate::wire::fits_c2s;
use crate::wire::fits_s2c;
use crate::codec::lemma_parse_ser_frame;
use crate::wire::lemma_rt_c2s;
use crate::wire::lemma_rt_s2c;
use crate::wire::parse_c2s;
use crate::wire::parse_s2c;
use crate::wire::ser_c2s;
use crate::wire::ser_s2c;

verus! {

// ------------------------------------------------------------ single frame
/// A whole message body parses to the message with nothing left over.
pub open spec fn parse_c2s_exact(b: Seq<u8>) -> Option<C2sView> {
    match parse_c2s(b) {
        None => None,
        Some((m, r)) => if r.len() == 0 {
            Some(m)
        } else {
            None
        },
    }
}

pub open spec fn parse_s2c_exact(b: Seq<u8>) -> Option<S2cView> {
    match parse_s2c(b) {
        None => None,
        Some((m, r)) => if r.len() == 0 {
            Some(m)
        } else {
            None
        },
    }
}

/// Round-trip of one client-to-server message body: decoding an encoded
/// message gives the message back, with no residual bytes.
pub proof fn lemma_c2s_round_trip(m: C2sView)
    requires
        fits_c2s(m),
    ensures
        parse_c2s_exact(ser_c2s(m)) == Some(m),
{
    lemma_rt_c2s(m, Seq::empty());
    assert(ser_c2s(m) + Seq::<u8>::empty() =~= ser_c2s(m));
}

/// Round-trip of one server-to-client message body.
pub proof fn lemma_s2c_round_trip(m: S2cView)
    requires
        fits_s2c(m),
    ensures
        parse_s2c_exact(ser_s2c(m)) == Some(m),
{
    lemma_rt_s2c(m, Seq::empty());
    assert(ser_s2c(m) + Seq::<u8>::empty() =~= ser_s2c(m));
}

// ---------------------------------------------------------------- streams
/// The wire form of a sequence of client-to-server messages: one frame each,
/// in order.
pub open spec fn ser_c2s_stream(ms: Seq<C2sView>) -> Seq<u8>
    decreases ms.len(),
{
    if ms.len() == 0 {
        Seq::empty()
    } else {
        ser_frame(ser_c2s(ms[0])) + ser_c2s_stream(ms.drop_first())
    }
}

pub open spec fn ser_s2c_stream(ms: Seq<S2cView>) -> Seq<u8>
    decreases ms.len(),
{
    if ms.len() == 0 {
        Seq::empty()
    } else {
        ser_frame(ser_s2c(ms[0])) + ser_s2c_stream(ms.drop_first())
    }
}

/// Splits a byte stream into frames and decodes each body as one message.
/// An empty stream is a clean end; anything else that does not parse, a
/// short frame, an oversize frame, or residue inside a frame is an error.
pub open spec fn parse_c2s_stream(b: Seq<u8>) -> Option<Seq<C2sView>>
    decreases b.len(),
{
    if b.len() == 0 {
        Some(Seq::empty())
    } else {
        match parse_frame(b) {
            None => None,
            Some((body, r)) => if r.len() < b.len() {
                match parse_c2s_exact(body) {
                    None => None,
                    Some(m) => match parse_c2s_stream(r) {
                        None => None,
                        Some(tail) => Some(seq![m] + tail),
                    },
                }
            } else {
                None
            },
        }
    }
}

pub open spec fn parse_s2c_stream(b: Seq<u8>) -> Option<Seq<S2cView>>
    decreases b.len(),
{
    if b.len() == 0 {
        Some(Seq::empty())
    } else {
        match parse_frame(b) {
            None => None,
            Some((body, r)) => if r.len() < b.len() {
                match parse_s2c_exact(body) {
                    None => None,
                    Some(m) => match parse_s2c_stream(r) {
                        None => None,
                        Some(tail) => Some(seq![m] + tail),
                    },
                }
            } else {
                None
            },
        }
    }
}

/// A stream of encoded client-to-server messages decodes in order with no
/// residual bytes.
pub proof fn lemma_c2s_stream_round_trip(ms: Seq<C2sView>)
    requires
        forall|i: int| 0 <= i < ms.len() ==> #[trigger] fits_c2s(ms[i]),
        forall|i: int| 0 <= i < ms.len() ==> #[trigger] ser_c2s(ms[i]).len() <= FRAME_CAP,
    ensures
        parse_c2s_stream(ser_c2s_stream(ms)) == Some(ms),
    decreases ms.len(),
{
    if ms.len() == 0 {
    } else {
        let body = ser_c2s(ms[0]);
        let tailb = ser_c2s_stream(ms.drop_first());
        assert(fits_c2s(ms[0]));
        assert(ser_c2s(ms[0]).len() <= FRAME_CAP);
        lemma_parse_ser_frame(body, tailb);
        lemma_c2s_round_trip(ms[0]);
        lemma_c2s_stream_round_trip(ms.drop_first());
        assert(seq![ms[0]] + ms.drop_first() =~= ms);
    }
}

/// A stream of encoded server-to-client messages decodes in order with no
/// residual bytes.
pub proof fn lemma_s2c_stream_round_trip(ms: Seq<S2cView>)
    requires
        forall|i: int| 0 <= i < ms.len() ==> #[trigger] fits_s2c(ms[i]),
        forall|i: int| 0 <= i < ms.len() ==> #[trigger] ser_s2c(ms[i]).len() <= FRAME_CAP,
    ensures
        parse_s2c_stream(ser_s2c_stream(ms)) == Some(ms),
    decreases ms.len(),
{
    if ms.len() == 0 {
    } else {
        let body = ser_s2c(ms[0]);
        let tailb = ser_s2c_stream(ms.drop_first());
        assert(fits_s2c(ms[0]));
        assert(ser_s2c(ms[0]).len() <= FRAME_CAP);
        lemma_parse_ser_frame(body, tailb);
        lemma_s2c_round_trip(ms[0]);
        lemma_s2c_stream_round_trip(ms.drop_first());
        assert(seq![ms[0]] + ms.drop_first() =~= ms);
    }
}

// ------------------------------------------------------------------- exec
/// Encodes one client-to-server message as a frame, or fails where the body
/// would be over the cap.
pub fn encode_c2s_frame(m: &ClientToServerMessage) -> (r: Option<Vec<u8>>)
    ensures
        r is Some <==> ser_c2s(m@).len() <= FRAME_CAP,
        r matches Some(f) ==> f@ == ser_frame(ser_c2s(m@)),
{
    let body = encode_c2s(m);
    encode_frame(&body)
}

/// Encodes one server-to-client message as a frame, or fails where the body
/// would be over the cap.
pub fn encode_s2c_frame(m: &ServerToClientMessage) -> (r: Option<Vec<u8>>)
    ensures
        r is Some <==> ser_s2c(m@).len() <= FRAME_CAP,
        r matches Some(f) ==> f@ == ser_frame(ser_s2c(m@)),
{
    let body = encode_s2c(m);
    encode_frame(&body)
}

/// Decodes one whole client-to-server message body, rejecting residue.
pub fn decode_c2s_exact(b: &[u8]) -> (r: Option<ClientToServerMessage>)
    ensures
        r is None ==> parse_c2s_exact(b@) is None,
        r matches Some(m) ==> parse_c2s_exact(b@) == Some(m@),
{
    proof {
        assert(b@.skip(0) =~= b@);
    }
    match dec_c2s(b, 0) {
        None => None,
        Some((m, p)) => {
            if p == b.len() {
                proof {
                    assert(b@.skip(p as int).len() == 0);
                }
                Some(m)
            } else {
                proof {
                    assert(b@.skip(p as int).len() > 0);
                }
                None
            }
        },
    }
}

/// Decodes one whole server-to-client message body, rejecting residue.
pub fn decode_s2c_exact(b: &[u8]) -> (r: Option<ServerToClientMessage>)
    ensures
        r is None ==> parse_s2c_exact(b@) is None,
        r matches Some(m) ==> parse_s2c_exact(b@) == Some(m@),
{
    proof {
        assert(b@.skip(0) =~= b@);
    }
    match dec_s2c(b, 0) {
        None => None,
        Some((m, p)) => {
            if p == b.len() {
                proof {
                    assert(b@.skip(p as int).len() == 0);
                }
                Some(m)
            } else {
                proof {
                    assert(b@.skip(p as int).len() > 0);
                }
                None
            }
        },
    }
}

/// The views of a sequence of messages.
pub open spec fn c2s_views(v: Seq<ClientToServerMessage>) -> Seq<C2sView> {
    v.map_values(|m: ClientToServerMessage| m@)
}

pub open spec fn s2c_views(v: Seq<ServerToClientMessage>) -> Seq<S2cView> {
    v.map_values(|m: ServerToClientMessage| m@)
}

/// Decodes a whole byte stream as framed client-to-server messages.
pub fn decode_c2s_stream(b: &[u8]) -> (r: Option<Vec<ClientToServerMessage>>)
    ensures
        r is None ==> parse_c2s_stream(b@) is None,
        r matches Some(v) ==> parse_c2s_stream(b@) == Some(c2s_views(v@)),
{
    let mut acc: Vec<ClientToServerMessage> = Vec::new();
    let mut pos: usize = 0;
    proof {
        assert(b@.skip(0) =~= b@);
        assert(c2s_views(acc@) =~= Seq::<C2sView>::empty());
    }
    loop
        invariant
            pos <= b@.len(),
            parse_c2s_stream(b@) == match parse_c2s_stream(b@.skip(pos as int)) {
                None => None::<Seq<C2sView>>,
                Some(tail) => Some(c2s_views(acc@) + tail),
            },
        decreases b@.len() - pos,
    {
        if pos == b.len() {
            proof {
                assert(b@.skip(pos as int).len() == 0);
                assert(c2s_views(acc@) + Seq::<C2sView>::empty() =~= c2s_views(acc@));
            }
            return Some(acc);
        }
        proof {
            assert(b@.skip(pos as int).len() > 0);
        }
        match dec_frame(b, pos) {
            None => {
                return None;
            },
            Some((body, p2)) => {
                proof {
                    assert(b@.skip(p2 as int).len() < b@.skip(pos as int).len());
                }
                match decode_c2s_exact(body.as_slice()) {
                    None => {
                        return None;
                    },
                    Some(m) => {
                        let ghost prev = c2s_views(acc@);
                        acc.push(m);
                        proof {
                            assert(c2s_views(acc@) =~= prev.push(m@));
                            assert forall|tail: Seq<C2sView>|
                                prev + (seq![m@] + tail) =~= c2s_views(acc@) + tail by {
                            }
                        }
                        pos = p2;
                    },
                }
            },
        }
    }
}

/// Decodes a whole byte stream as framed server-to-client messages.
pub fn decode_s2c_stream(b: &[u8]) -> (r: Option<Vec<ServerToClientMessage>>)
    ensures
        r is None ==> parse_s2c_stream(b@) is None,
        r matches Some(v) ==> parse_s2c_stream(b@) == Some(s2c_views(v@)),
{
    let mut acc: Vec<ServerToClientMessage> = Vec::new();
    let mut pos: usize = 0;
    proof {
        assert(b@.skip(0) =~= b@);
        assert(s2c_views(acc@) =~= Seq::<S2cView>::empty());
    }
    loop
        invariant
            pos <= b@.len(),
            parse_s2c_stream(b@) == match parse_s2c_stream(b@.skip(pos as int)) {
                None => None::<Seq<S2cView>>,
                Some(tail) => Some(s2c_views(acc@) + tail),
            },
        decreases b@.len() - pos,
    {
        if pos == b.len() {
            proof {
                assert(b@.skip(pos as int).len() == 0);
                assert(s2c_views(acc@) + Seq::<S2cView>::empty() =~= s2c_views(acc@));
            }
            return Some(acc);
        }
        proof {
            assert(b@.skip(pos as int).len() > 0);
        }
        match dec_frame(b, pos) {
            None => {
                return None;
            },
            Some((body, p2)) => {
                proof {
                    assert(b@.skip(p2 as int).len() < b@.skip(pos as int).len());
                }
                match decode_s2c_exact(body.as_slice()) {
                    None => {
                        return None;
                    },
                    Some(m) => {
                        let ghost prev = s2c_views(acc@);
                        acc.push(m);
                        proof {
                            assert(s2c_views(acc@) =~= prev.push(m@));
                            assert forall|tail: Seq<S2cView>|
                                prev + (seq![m@] + tail) =~= s2c_views(acc@) + tail by {
                            }
                        }
                        pos = p2;
                    },
                }
            },
        }
    }
}

} // verus!
