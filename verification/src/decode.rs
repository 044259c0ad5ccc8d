//! A conformant decoder for the wire protocol.
//!
//! The parsers here accept exactly the canonical encoding that
//! [`crate::wire`] produces: fields in their fixed order, every field
//! present, each message filling its envelope exactly. Decoding an encoded
//! frame gives back every field unchanged; the round-trip lemmas at the end
//! state that for the format as a whole.

use crate::varint::{lemma_varint_roundtrip, read_varint, varint_bytes, varint_parse};
use crate::wire::{
    bool_val, chunk_position_bytes, envelope_bytes, frame_bytes, i32_val, key_bytes, len_field,
    message_bytes, packed_u64s, push_all, varint_field, variant_field, ChunkPosition, FrameView,
    ServerToProxy,
};
use vstd::prelude::*;
use vstd::slice::slice_subrange;

verus! {

/// A successful varint parse consumes at least one byte and no more than
/// the input.
pub proof fn lemma_varint_parse_consumed(b: Seq<u8>)
    ensures
        varint_parse(b) matches Some((v, c)) ==> 1 <= c <= b.len(),
    decreases b.len(),
{
    if b.len() == 0 {
    } else if b[0] < 128 {
    } else {
        lemma_varint_parse_consumed(b.skip(1));
    }
}

/// Parses a numeric field with the given field number: the value and the
/// bytes consumed.
pub open spec fn parse_varint_field(field: nat, b: Seq<u8>) -> Option<(nat, nat)> {
    match varint_parse(b) {
        Some((k, kc)) => {
            if k == field * 8 {
                match varint_parse(b.skip(kc as int)) {
                    Some((v, vc)) => Some((v, (kc + vc) as nat)),
                    None => None,
                }
            } else {
                None
            }
        },
        None => None,
    }
}

/// Parses a byte-payload field with the given field number: the payload and
/// the bytes consumed.
pub open spec fn parse_len_field(field: nat, b: Seq<u8>) -> Option<(Seq<u8>, nat)> {
    match varint_parse(b) {
        Some((k, kc)) => {
            if k == field * 8 + 2 {
                match varint_parse(b.skip(kc as int)) {
                    Some((n, nc)) => {
                        if b.len() >= kc + nc + n {
                            Some(
                                (
                                    b.skip((kc + nc) as int).take(n as int),
                                    (kc + nc + n) as nat,
                                ),
                            )
                        } else {
                            None
                        }
                    },
                    None => None,
                }
            } else {
                None
            }
        },
        None => None,
    }
}

/// Parses a run of packed varints filling `b` exactly.
pub open spec fn parse_packed_u64s(b: Seq<u8>) -> Option<Seq<u64>>
    decreases b.len(),
    via parse_packed_u64s_decreases
{
    if b.len() == 0 {
        Some(Seq::empty())
    } else {
        match varint_parse(b) {
            Some((v, c)) => {
                if v <= u64::MAX {
                    match parse_packed_u64s(b.skip(c as int)) {
                        Some(vs) => Some(seq![v as u64] + vs),
                        None => None,
                    }
                } else {
                    None
                }
            },
            None => None,
        }
    }
}

#[via_fn]
proof fn parse_packed_u64s_decreases(b: Seq<u8>) {
    lemma_varint_parse_consumed(b);
}

/// Parses the center coordinate sub-message, which must fill `b` exactly.
pub open spec fn parse_chunk_position(b: Seq<u8>) -> Option<(i32, i32)> {
    match parse_varint_field(1, b) {
        Some((x, c1)) => {
            match parse_varint_field(2, b.skip(c1 as int)) {
                Some((z, c2)) => {
                    if x <= u32::MAX && z <= u32::MAX && c1 + c2 == b.len() {
                        Some(((x as u32) as i32, (z as u32) as i32))
                    } else {
                        None
                    }
                },
                None => None,
            }
        },
        None => None,
    }
}

/// Parses the message body of the variant selected by `field`, which must
/// fill `b` exactly.
pub open spec fn parse_message(field: nat, b: Seq<u8>) -> Option<FrameView> {
    if field == 1 {
        match parse_len_field(1, b) {
            Some((data, c1)) => match parse_varint_field(2, b.skip(c1 as int)) {
                Some((stream, c2)) => match parse_varint_field(3, b.skip((c1 + c2) as int)) {
                    Some((order, c3)) => {
                        if stream <= u64::MAX && order <= u64::MAX && c1 + c2 + c3 == b.len() {
                            Some(
                                FrameView::Unicast {
                                    data,
                                    stream: stream as u64,
                                    order: order as u64,
                                },
                            )
                        } else {
                            None
                        }
                    },
                    None => None,
                },
                None => None,
            },
            None => None,
        }
    } else if field == 2 {
        match parse_len_field(1, b) {
            Some((data, c1)) => match parse_len_field(2, b.skip(c1 as int)) {
                Some((packed, c2)) => match parse_packed_u64s(packed) {
                    Some(streams) => {
                        if c1 + c2 == b.len() {
                            Some(FrameView::Multicast { data, stream: streams })
                        } else {
                            None
                        }
                    },
                    None => None,
                },
                None => None,
            },
            None => None,
        }
    } else if field == 3 {
        match parse_len_field(1, b) {
            Some((data, c1)) => match parse_varint_field(2, b.skip(c1 as int)) {
                Some((opt, c2)) => match parse_varint_field(3, b.skip((c1 + c2) as int)) {
                    Some((exclude, c3)) => {
                        if opt <= 1 && exclude <= u64::MAX && c1 + c2 + c3 == b.len() {
                            Some(
                                FrameView::BroadcastGlobal {
                                    data,
                                    optional: opt == 1,
                                    exclude: exclude as u64,
                                },
                            )
                        } else {
                            None
                        }
                    },
                    None => None,
                },
                None => None,
            },
            None => None,
        }
    } else if field == 4 {
        match parse_len_field(1, b) {
            Some((data, c1)) => match parse_varint_field(2, b.skip(c1 as int)) {
                Some((radius, c2)) => match parse_len_field(3, b.skip((c1 + c2) as int)) {
                    Some((pos_bytes, c3)) => match parse_chunk_position(pos_bytes) {
                        Some((x, z)) => match parse_varint_field(
                            4,
                            b.skip((c1 + c2 + c3) as int),
                        ) {
                            Some((opt, c4)) => match parse_varint_field(
                                5,
                                b.skip((c1 + c2 + c3 + c4) as int),
                            ) {
                                Some((exclude, c5)) => {
                                    if radius <= u32::MAX && opt <= 1 && exclude <= u64::MAX && c1
                                        + c2 + c3 + c4 + c5 == b.len() {
                                        Some(
                                            FrameView::BroadcastLocal {
                                                data,
                                                taxicab_radius: radius as u32,
                                                center_x: x,
                                                center_z: z,
                                                optional: opt == 1,
                                                exclude: exclude as u64,
                                            },
                                        )
                                    } else {
                                        None
                                    }
                                },
                                None => None,
                            },
                            None => None,
                        },
                        None => None,
                    },
                    None => None,
                },
                None => None,
            },
            None => None,
        }
    } else {
        match parse_varint_field(1, b) {
            Some((stream, c1)) => {
                if stream <= u64::MAX && c1 == b.len() {
                    Some(FrameView::SetReceiveBroadcasts { stream: stream as u64 })
                } else {
                    None
                }
            },
            None => None,
        }
    }
}

/// Parses the envelope, which must fill `b` exactly: reads the variant key
/// and hands the delimited message body to [`parse_message`].
pub open spec fn parse_envelope(b: Seq<u8>) -> Option<FrameView> {
    match varint_parse(b) {
        Some((k, kc)) => {
            if k % 8 == 2 && 1 <= k / 8 <= 5 {
                match varint_parse(b.skip(kc as int)) {
                    Some((n, nc)) => {
                        if b.len() == kc + nc + n {
                            parse_message(k / 8, b.skip((kc + nc) as int))
                        } else {
                            None
                        }
                    },
                    None => None,
                }
            } else {
                None
            }
        },
        None => None,
    }
}

/// A numeric field parses back to the value it was encoded from.
pub proof fn lemma_parse_varint_field(field: nat, v: nat, rest: Seq<u8>)
    ensures
        parse_varint_field(field, varint_field(field, v) + rest) == Some(
            (v, varint_field(field, v).len()),
        ),
{
    let kb = key_bytes(field, 0);
    let vb = varint_bytes(v);
    let b = varint_field(field, v) + rest;
    assert(b =~= kb + (vb + rest));
    lemma_varint_roundtrip(field * 8, vb + rest);
    assert(b.skip(kb.len() as int) =~= vb + rest);
    lemma_varint_roundtrip(v, rest);
}

/// A byte-payload field parses back to the payload it was encoded from.
pub proof fn lemma_parse_len_field(field: nat, payload: Seq<u8>, rest: Seq<u8>)
    ensures
        parse_len_field(field, len_field(field, payload) + rest) == Some(
            (payload, len_field(field, payload).len()),
        ),
{
    let kb = key_bytes(field, 2);
    let nb = varint_bytes(payload.len());
    let b = len_field(field, payload) + rest;
    assert(b =~= kb + (nb + (payload + rest)));
    lemma_varint_roundtrip(field * 8 + 2, nb + (payload + rest));
    assert(b.skip(kb.len() as int) =~= nb + (payload + rest));
    lemma_varint_roundtrip(payload.len(), payload + rest);
    assert(b.skip((kb.len() + nb.len()) as int).take(payload.len() as int) =~= payload);
}

/// A packed stream list parses back to the values it was encoded from.
pub proof fn lemma_parse_packed_u64s(vs: Seq<u64>)
    ensures
        parse_packed_u64s(packed_u64s(vs)) == Some(vs),
    decreases vs.len(),
{
    if vs.len() == 0 {
        assert(parse_packed_u64s(packed_u64s(vs)) == Some(Seq::<u64>::empty()));
        assert(Seq::<u64>::empty() =~= vs);
    } else {
        let head = varint_bytes(vs[0] as nat);
        let tail = packed_u64s(vs.skip(1));
        let b = packed_u64s(vs);
        assert(b =~= head + tail);
        lemma_varint_roundtrip(vs[0] as nat, tail);
        assert(b.skip(head.len() as int) =~= tail);
        lemma_parse_packed_u64s(vs.skip(1));
        assert(b.len() > 0) by {
            crate::varint::lemma_varint_bytes_len(vs[0] as nat);
        }
        assert(seq![vs[0]] + vs.skip(1) =~= vs);
    }
}

/// The center coordinate parses back to the pair it was encoded from.
pub proof fn lemma_parse_chunk_position(x: i32, z: i32)
    ensures
        parse_chunk_position(chunk_position_bytes(x, z)) == Some((x, z)),
{
    let f1 = varint_field(1, i32_val(x));
    let f2 = varint_field(2, i32_val(z));
    let b = chunk_position_bytes(x, z);
    assert(b =~= f1 + f2);
    lemma_parse_varint_field(1, i32_val(x), f2);
    assert(b.skip(f1.len() as int) =~= f2 + Seq::<u8>::empty());
    assert(f2 + Seq::<u8>::empty() =~= f2);
    lemma_parse_varint_field(2, i32_val(z), Seq::empty());
    assert((i32_val(x) as u32) as i32 == x) by (bit_vector);
    assert((i32_val(z) as u32) as i32 == z) by (bit_vector);
}

/// A unicast message body parses back to its fields.
#[verifier::rlimit(60)]
#[verifier::spinoff_prover]
proof fn lemma_parse_message_unicast(data: Seq<u8>, stream: u64, order: u64)
    ensures
        parse_message(1, message_bytes(FrameView::Unicast { data, stream, order })) == Some(
            FrameView::Unicast { data, stream, order },
        ),
{
    let b = message_bytes(FrameView::Unicast { data, stream, order });
    let p1 = len_field(1, data);
    let p2 = varint_field(2, stream as nat);
    let p3 = varint_field(3, order as nat);
    assert(b =~= p1 + (p2 + p3));
    lemma_parse_len_field(1, data, p2 + p3);
    assert(b.skip(p1.len() as int) =~= p2 + p3);
    lemma_parse_varint_field(2, stream as nat, p3);
    assert(b.skip((p1.len() + p2.len()) as int) =~= p3 + Seq::<u8>::empty());
    assert(p3 + Seq::<u8>::empty() =~= p3);
    lemma_parse_varint_field(3, order as nat, Seq::empty());
}

/// A multicast message body parses back to its fields.
#[verifier::rlimit(60)]
#[verifier::spinoff_prover]
proof fn lemma_parse_message_multicast(data: Seq<u8>, stream: Seq<u64>)
    ensures
        parse_message(2, message_bytes(FrameView::Multicast { data, stream })) == Some(
            FrameView::Multicast { data, stream },
        ),
{
    let b = message_bytes(FrameView::Multicast { data, stream });
    let p1 = len_field(1, data);
    let p2 = len_field(2, packed_u64s(stream));
    assert(b =~= p1 + p2);
    lemma_parse_len_field(1, data, p2);
    assert(b.skip(p1.len() as int) =~= p2 + Seq::<u8>::empty());
    assert(p2 + Seq::<u8>::empty() =~= p2);
    lemma_parse_len_field(2, packed_u64s(stream), Seq::empty());
    lemma_parse_packed_u64s(stream);
}

/// A global-broadcast message body parses back to its fields.
#[verifier::rlimit(60)]
#[verifier::spinoff_prover]
proof fn lemma_parse_message_broadcast_global(data: Seq<u8>, optional: bool, exclude: u64)
    ensures
        parse_message(3, message_bytes(FrameView::BroadcastGlobal { data, optional, exclude }))
            == Some(FrameView::BroadcastGlobal { data, optional, exclude }),
{
    let b = message_bytes(FrameView::BroadcastGlobal { data, optional, exclude });
    let p1 = len_field(1, data);
    let p2 = varint_field(2, bool_val(optional));
    let p3 = varint_field(3, exclude as nat);
    assert(b =~= p1 + (p2 + p3));
    lemma_parse_len_field(1, data, p2 + p3);
    assert(b.skip(p1.len() as int) =~= p2 + p3);
    lemma_parse_varint_field(2, bool_val(optional), p3);
    assert(b.skip((p1.len() + p2.len()) as int) =~= p3 + Seq::<u8>::empty());
    assert(p3 + Seq::<u8>::empty() =~= p3);
    lemma_parse_varint_field(3, exclude as nat, Seq::empty());
}

/// A local-broadcast message body parses back to its fields.
#[verifier::rlimit(100)]
#[verifier::spinoff_prover]
proof fn lemma_parse_message_broadcast_local(
    data: Seq<u8>,
    taxicab_radius: u32,
    center_x: i32,
    center_z: i32,
    optional: bool,
    exclude: u64,
)
    ensures
        parse_message(
            4,
            message_bytes(
                FrameView::BroadcastLocal {
                    data,
                    taxicab_radius,
                    center_x,
                    center_z,
                    optional,
                    exclude,
                },
            ),
        ) == Some(
            FrameView::BroadcastLocal {
                data,
                taxicab_radius,
                center_x,
                center_z,
                optional,
                exclude,
            },
        ),
{
    let b = message_bytes(
        FrameView::BroadcastLocal { data, taxicab_radius, center_x, center_z, optional, exclude },
    );
    let p1 = len_field(1, data);
    let p2 = varint_field(2, taxicab_radius as nat);
    let pos = chunk_position_bytes(center_x, center_z);
    let p3 = len_field(3, pos);
    let p4 = varint_field(4, bool_val(optional));
    let p5 = varint_field(5, exclude as nat);
    assert(b =~= p1 + (p2 + (p3 + (p4 + p5))));
    lemma_parse_len_field(1, data, p2 + (p3 + (p4 + p5)));
    assert(b.skip(p1.len() as int) =~= p2 + (p3 + (p4 + p5)));
    lemma_parse_varint_field(2, taxicab_radius as nat, p3 + (p4 + p5));
    assert(b.skip((p1.len() + p2.len()) as int) =~= p3 + (p4 + p5));
    lemma_parse_len_field(3, pos, p4 + p5);
    lemma_parse_chunk_position(center_x, center_z);
    assert(b.skip((p1.len() + p2.len() + p3.len()) as int) =~= p4 + p5);
    lemma_parse_varint_field(4, bool_val(optional), p5);
    assert(b.skip((p1.len() + p2.len() + p3.len() + p4.len()) as int) =~= p5
        + Seq::<u8>::empty());
    assert(p5 + Seq::<u8>::empty() =~= p5);
    lemma_parse_varint_field(5, exclude as nat, Seq::empty());
}

/// A subscribe message body parses back to its field.
#[verifier::rlimit(60)]
#[verifier::spinoff_prover]
proof fn lemma_parse_message_set_receive(stream: u64)
    ensures
        parse_message(5, message_bytes(FrameView::SetReceiveBroadcasts { stream })) == Some(
            FrameView::SetReceiveBroadcasts { stream },
        ),
{
    let b = message_bytes(FrameView::SetReceiveBroadcasts { stream });
    let p1 = varint_field(1, stream as nat);
    assert(b =~= p1 + Seq::<u8>::empty());
    assert(p1 + Seq::<u8>::empty() =~= p1);
    lemma_parse_varint_field(1, stream as nat, Seq::empty());
}

/// A message body parses back to the frame it was encoded from.
#[verifier::rlimit(60)]
#[verifier::spinoff_prover]
pub proof fn lemma_parse_message(f: FrameView)
    ensures
        parse_message(variant_field(f), message_bytes(f)) == Some(f),
{
    match f {
        FrameView::Unicast { data, stream, order } => {
            lemma_parse_message_unicast(data, stream, order);
        },
        FrameView::Multicast { data, stream } => {
            lemma_parse_message_multicast(data, stream);
        },
        FrameView::BroadcastGlobal { data, optional, exclude } => {
            lemma_parse_message_broadcast_global(data, optional, exclude);
        },
        FrameView::BroadcastLocal { data, taxicab_radius, center_x, center_z, optional, exclude } => {
            lemma_parse_message_broadcast_local(
                data,
                taxicab_radius,
                center_x,
                center_z,
                optional,
                exclude,
            );
        },
        FrameView::SetReceiveBroadcasts { stream } => {
            lemma_parse_message_set_receive(stream);
        },
    }
}

/// An envelope parses back to the frame it was encoded from.
#[verifier::rlimit(60)]
#[verifier::spinoff_prover]
pub proof fn lemma_parse_envelope(f: FrameView)
    ensures
        parse_envelope(envelope_bytes(f)) == Some(f),
{
    let variant = variant_field(f);
    let msg = message_bytes(f);
    let kb = key_bytes(variant, 2);
    let nb = varint_bytes(msg.len());
    let b = envelope_bytes(f);
    assert(b =~= kb + (nb + (msg + Seq::<u8>::empty())));
    assert(msg + Seq::<u8>::empty() =~= msg);
    lemma_varint_roundtrip(variant * 8 + 2, nb + msg);
    assert(b =~= kb + (nb + msg));
    assert(b.skip(kb.len() as int) =~= nb + msg);
    lemma_varint_roundtrip(msg.len(), msg);
    assert(b.skip((kb.len() + nb.len()) as int) =~= msg);
    lemma_parse_message(f);
}

/// Round trip: parsing an encoded frame, with anything behind it, gives
/// back the frame with every field exactly as it was, and consumes exactly
/// the encoding.
#[verifier::rlimit(60)]
#[verifier::spinoff_prover]
pub proof fn lemma_frame_roundtrip(f: FrameView, rest: Seq<u8>)
    ensures
        parse_frame(frame_bytes(f) + rest) == Some((f, frame_bytes(f).len())),
{
    let env = envelope_bytes(f);
    let nb = varint_bytes(env.len());
    let b = frame_bytes(f) + rest;
    assert(b =~= nb + (env + rest));
    lemma_varint_roundtrip(env.len(), env + rest);
    assert(b.skip(nb.len() as int).take(env.len() as int) =~= env);
    lemma_parse_envelope(f);
}

/// Parses one length-delimited frame from the front of `b`: the frame and
/// the bytes consumed.
pub open spec fn parse_frame(b: Seq<u8>) -> Option<(FrameView, nat)> {
    match varint_parse(b) {
        Some((n, nc)) => {
            if b.len() >= nc + n {
                match parse_envelope(b.skip(nc as int).take(n as int)) {
                    Some(f) => Some((f, (nc + n) as nat)),
                    None => None,
                }
            } else {
                None
            }
        },
        None => None,
    }
}


/// Copies a byte slice into a fresh vector.
pub(crate) fn copy_bytes(s: &[u8]) -> (r: Vec<u8>)
    ensures
        r@ == s@,
{
    let mut v: Vec<u8> = Vec::new();
    push_all(&mut v, s);
    v
}

/// Reads a numeric field with the given field number at `pos`.
fn read_varint_field(buf: &[u8], pos: usize, field: u64) -> (r: Option<(u64, usize)>)
    requires
        pos <= buf@.len(),
        field <= 5,
    ensures
        match r {
            Some((v, c)) => {
                &&& parse_varint_field(field as nat, buf@.skip(pos as int)) == Some(
                    (v as nat, c as nat),
                )
                &&& 1 <= c
                &&& pos + c <= buf@.len()
            },
            None => {
                match parse_varint_field(field as nat, buf@.skip(pos as int)) {
                    Some((v, c)) => v > u64::MAX,
                    None => true,
                }
            },
        },
{
    let total: usize = buf.len();
    assert(buf@.len() == total);
    let ghost b = buf@.skip(pos as int);
    match read_varint(buf, pos) {
        Some((k, kc)) => {
            if k == field * 8 {
                proof {
                    assert(b.skip(kc as int) =~= buf@.skip(pos + kc));
                }
                match read_varint(buf, pos + kc) {
                    Some((v, vc)) => Some((v, kc + vc)),
                    None => None,
                }
            } else {
                None
            }
        },
        None => None,
    }
}

/// Reads a byte-payload field with the given field number at `pos`; returns
/// where the payload lies in `buf` and how long it is.
fn read_len_field(buf: &[u8], pos: usize, field: u64) -> (r: Option<(usize, usize)>)
    requires
        pos <= buf@.len(),
        field <= 5,
    ensures
        match r {
            Some((start, len)) => {
                &&& pos < start
                &&& start + len <= buf@.len()
                &&& parse_len_field(field as nat, buf@.skip(pos as int)) == Some(
                    (buf@.subrange(start as int, start + len), (start - pos + len) as nat),
                )
            },
            None => parse_len_field(field as nat, buf@.skip(pos as int)) is None,
        },
{
    let total: usize = buf.len();
    assert(buf@.len() == total);
    let ghost b = buf@.skip(pos as int);
    match read_varint(buf, pos) {
        Some((k, kc)) => {
            if k == field * 8 + 2 {
                proof {
                    assert(b.skip(kc as int) =~= buf@.skip(pos + kc));
                }
                match read_varint(buf, pos + kc) {
                    Some((n, nc)) => {
                        if n <= (buf.len() - (pos + kc + nc)) as u64 {
                            let start = pos + kc + nc;
                            let len = n as usize;
                            proof {
                                assert(b.skip((kc + nc) as int).take(n as int) =~= buf@.subrange(
                                    start as int,
                                    start + len,
                                ));
                            }
                            Some((start, len))
                        } else {
                            None
                        }
                    },
                    None => None,
                }
            } else {
                None
            }
        },
        None => None,
    }
}

/// Decodes a packed run of stream ids filling `buf` exactly.
fn decode_packed_u64s(buf: &[u8]) -> (r: Option<Vec<u64>>)
    ensures
        match r {
            Some(vs) => parse_packed_u64s(buf@) == Some(vs@),
            None => parse_packed_u64s(buf@) is None,
        },
{
    let mut acc: Vec<u64> = Vec::new();
    let mut pos: usize = 0;
    assert(buf@.skip(0) =~= buf@);
    loop
        invariant
            pos <= buf@.len(),
            match parse_packed_u64s(buf@.skip(pos as int)) {
                Some(vs) => parse_packed_u64s(buf@) == Some(acc@ + vs),
                None => parse_packed_u64s(buf@) is None,
            },
        decreases buf@.len() - pos,
    {
        if pos == buf.len() {
            assert(buf@.skip(pos as int).len() == 0);
            assert(acc@ + Seq::<u64>::empty() =~= acc@);
            return Some(acc);
        }
        let ghost tail = buf@.skip(pos as int);
        match read_varint(buf, pos) {
            Some((v, c)) => {
                proof {
                    assert(tail.skip(c as int) =~= buf@.skip(pos + c));
                }
                let ghost prev = acc@;
                acc.push(v);
                proof {
                    match parse_packed_u64s(buf@.skip(pos + c)) {
                        Some(vs) => {
                            assert(parse_packed_u64s(tail) == Some(seq![v] + vs));
                            assert(prev + (seq![v] + vs) =~= acc@ + vs);
                        },
                        None => {},
                    }
                }
                pos = pos + c;
            },
            None => {
                return None;
            },
        }
    }
}

/// Decodes the center coordinate sub-message filling `buf` exactly.
fn decode_chunk_position(buf: &[u8]) -> (r: Option<ChunkPosition>)
    ensures
        match r {
            Some(p) => parse_chunk_position(buf@) == Some((p.x, p.z)),
            None => parse_chunk_position(buf@) is None,
        },
{
    let total: usize = buf.len();
    assert(buf@.len() == total);
    assert(buf@.skip(0) =~= buf@);
    match read_varint_field(buf, 0, 1) {
        Some((x, c1)) => {
            match read_varint_field(buf, c1, 2) {
                Some((z, c2)) => {
                    if x <= u32::MAX as u64 && z <= u32::MAX as u64 && c1 + c2 == buf.len() {
                        Some(ChunkPosition { x: x as u32 as i32, z: z as u32 as i32 })
                    } else {
                        None
                    }
                },
                None => None,
            }
        },
        None => None,
    }
}

/// Decodes the message body of the variant selected by `field`, which must
/// fill `msg` exactly.
#[verifier::rlimit(100)]
#[verifier::spinoff_prover]
fn decode_message(field: u64, msg: &[u8]) -> (r: Option<ServerToProxy>)
    requires
        1 <= field <= 5,
    ensures
        match r {
            Some(frame) => parse_message(field as nat, msg@) == Some(frame@),
            None => parse_message(field as nat, msg@) is None,
        },
{
    let total: usize = msg.len();
    assert(msg@.len() == total);
    assert(msg@.skip(0) =~= msg@);
    if field == 1 {
        match read_len_field(msg, 0, 1) {
            Some((s1, l1)) => {
                let c1 = s1 + l1;
                match read_varint_field(msg, c1, 2) {
                    Some((stream, c2)) => {
                        match read_varint_field(msg, c1 + c2, 3) {
                            Some((order, c3)) => {
                                if c1 + c2 + c3 == msg.len() {
                                    let data = copy_bytes(slice_subrange(msg, s1, s1 + l1));
                                    Some(ServerToProxy::Unicast { data, stream, order })
                                } else {
                                    None
                                }
                            },
                            None => None,
                        }
                    },
                    None => None,
                }
            },
            None => None,
        }
    } else if field == 2 {
        match read_len_field(msg, 0, 1) {
            Some((s1, l1)) => {
                let c1 = s1 + l1;
                match read_len_field(msg, c1, 2) {
                    Some((s2, l2)) => {
                        let c2 = (s2 - c1) + l2;
                        match decode_packed_u64s(slice_subrange(msg, s2, s2 + l2)) {
                            Some(streams) => {
                                if c1 + c2 == msg.len() {
                                    let data = copy_bytes(slice_subrange(msg, s1, s1 + l1));
                                    Some(ServerToProxy::Multicast { data, stream: streams })
                                } else {
                                    None
                                }
                            },
                            None => None,
                        }
                    },
                    None => None,
                }
            },
            None => None,
        }
    } else if field == 3 {
        match read_len_field(msg, 0, 1) {
            Some((s1, l1)) => {
                let c1 = s1 + l1;
                match read_varint_field(msg, c1, 2) {
                    Some((opt, c2)) => {
                        match read_varint_field(msg, c1 + c2, 3) {
                            Some((exclude, c3)) => {
                                if opt <= 1 && c1 + c2 + c3 == msg.len() {
                                    let data = copy_bytes(slice_subrange(msg, s1, s1 + l1));
                                    Some(
                                        ServerToProxy::BroadcastGlobal {
                                            data,
                                            optional: opt == 1,
                                            exclude,
                                        },
                                    )
                                } else {
                                    None
                                }
                            },
                            None => None,
                        }
                    },
                    None => None,
                }
            },
            None => None,
        }
    } else if field == 4 {
        match read_len_field(msg, 0, 1) {
            Some((s1, l1)) => {
                let c1 = s1 + l1;
                match read_varint_field(msg, c1, 2) {
                    Some((radius, c2)) => {
                        match read_len_field(msg, c1 + c2, 3) {
                            Some((s3, l3)) => {
                                let c3 = (s3 - (c1 + c2)) + l3;
                                match decode_chunk_position(slice_subrange(msg, s3, s3 + l3)) {
                                    Some(center) => {
                                        match read_varint_field(msg, c1 + c2 + c3, 4) {
                                            Some((opt, c4)) => {
                                                match read_varint_field(
                                                    msg,
                                                    c1 + c2 + c3 + c4,
                                                    5,
                                                ) {
                                                    Some((exclude, c5)) => {
                                                        if radius <= u32::MAX as u64 && opt <= 1
                                                            && c1 + c2 + c3 + c4 + c5
                                                            == msg.len() {
                                                            let data = copy_bytes(
                                                                slice_subrange(msg, s1, s1 + l1),
                                                            );
                                                            Some(
                                                                ServerToProxy::BroadcastLocal {
                                                                    data,
                                                                    taxicab_radius: radius as u32,
                                                                    center,
                                                                    optional: opt == 1,
                                                                    exclude,
                                                                },
                                                            )
                                                        } else {
                                                            None
                                                        }
                                                    },
                                                    None => None,
                                                }
                                            },
                                            None => None,
                                        }
                                    },
                                    None => None,
                                }
                            },
                            None => None,
                        }
                    },
                    None => None,
                }
            },
            None => None,
        }
    } else {
        match read_varint_field(msg, 0, 1) {
            Some((stream, c1)) => {
                if c1 == msg.len() {
                    Some(ServerToProxy::SetReceiveBroadcasts { stream })
                } else {
                    None
                }
            },
            None => None,
        }
    }
}

/// Decodes the envelope filling `env` exactly.
fn decode_envelope(env: &[u8]) -> (r: Option<ServerToProxy>)
    ensures
        match r {
            Some(frame) => parse_envelope(env@) == Some(frame@),
            None => parse_envelope(env@) is None,
        },
{
    let total: usize = env.len();
    assert(env@.len() == total);
    match read_varint(env, 0) {
        Some((k, kc)) => {
            assert(env@.skip(0) =~= env@);
            if k % 8 == 2 && 1 <= k / 8 && k / 8 <= 5 {
                proof {
                    assert(env@.skip(0).skip(kc as int) =~= env@.skip(kc as int));
                }
                match read_varint(env, kc) {
                    Some((m, mc)) => {
                        if m == (env.len() - (kc + mc)) as u64 {
                            let msg = slice_subrange(env, kc + mc, env.len());
                            proof {
                                assert(msg@ =~= env@.skip((kc + mc) as int));
                            }
                            decode_message(k / 8, msg)
                        } else {
                            None
                        }
                    },
                    None => None,
                }
            } else {
                None
            }
        },
        None => {
            assert(env@.skip(0) =~= env@);
            None
        },
    }
}

/// Decodes one length-delimited frame from `buf` at `pos`: the frame and
/// the count of bytes consumed.
pub fn decode_length_delimited(buf: &[u8], pos: usize) -> (r: Option<(ServerToProxy, usize)>)
    requires
        pos <= buf@.len(),
    ensures
        match r {
            Some((frame, c)) => {
                &&& parse_frame(buf@.skip(pos as int)) == Some((frame@, c as nat))
                &&& 1 <= c
                &&& pos + c <= buf@.len()
            },
            None => parse_frame(buf@.skip(pos as int)) is None,
        },
{
    let total: usize = buf.len();
    assert(buf@.len() == total);
    let ghost b = buf@.skip(pos as int);
    match read_varint(buf, pos) {
        Some((n, nc)) => {
            if n <= (buf.len() - (pos + nc)) as u64 {
                let start = pos + nc;
                let env = slice_subrange(buf, start, start + n as usize);
                proof {
                    assert(env@ =~= b.skip(nc as int).take(n as int));
                }
                match decode_envelope(env) {
                    Some(frame) => Some((frame, nc + n as usize)),
                    None => None,
                }
            } else {
                None
            }
        },
        None => None,
    }
}

} // verus!

