//! The length-delimited wire protocol spoken to the downstream proxy.
//!
//! Every outbound intent is one frame: a varint length prefix followed by an
//! envelope that holds exactly one of the five message variants. Messages
//! are encoded field by field in a fixed order; numeric fields are varints,
//! byte payloads and sub-messages are length-prefixed, and the multicast
//! stream list is a length-prefixed run of packed varints.

use crate::varint::{varint_bytes, write_varint};
use vstd::prelude::*;

verus! {

/// A chunk-column coordinate; the center of a local broadcast.
#[derive(Clone, Copy, Debug, PartialEq, Eq, Structural)]
pub struct ChunkPosition {
    pub x: i32,
    pub z: i32,
}

impl ChunkPosition {
    pub fn new(x: i32, z: i32) -> (r: Self)
        ensures
            r.x == x,
            r.z == z,
    {
        ChunkPosition { x, z }
    }
}

/// One outbound intent, as the proxy sees it.
#[derive(Debug)]
#[allow(inconsistent_fields)]
pub enum ServerToProxy {
    /// Deliver `data` to one stream, in `order` position for that stream.
    Unicast { data: Vec<u8>, stream: u64, order: u64 },
    /// Deliver `data` to every listed stream; the list is taken as given.
    Multicast { data: Vec<u8>, stream: Vec<u64> },
    /// Deliver `data` to every subscribed stream but `exclude` (0: none).
    BroadcastGlobal { data: Vec<u8>, optional: bool, exclude: u64 },
    /// Deliver `data` to subscribed streams within a Chebyshev radius of
    /// `center`, but `exclude` (0: none).
    BroadcastLocal {
        data: Vec<u8>,
        taxicab_radius: u32,
        center: ChunkPosition,
        optional: bool,
        exclude: u64,
    },
    /// Start including this stream in broadcast fan-out.
    SetReceiveBroadcasts { stream: u64 },
}

/// The mathematical value of a frame.
#[verifier::ext_equal]
#[allow(inconsistent_fields)]
pub enum FrameView {
    Unicast { data: Seq<u8>, stream: u64, order: u64 },
    Multicast { data: Seq<u8>, stream: Seq<u64> },
    BroadcastGlobal { data: Seq<u8>, optional: bool, exclude: u64 },
    BroadcastLocal {
        data: Seq<u8>,
        taxicab_radius: u32,
        center_x: i32,
        center_z: i32,
        optional: bool,
        exclude: u64,
    },
    SetReceiveBroadcasts { stream: u64 },
}

impl View for ServerToProxy {
    type V = FrameView;

    open spec fn view(&self) -> FrameView {
        match self {
            ServerToProxy::Unicast { data, stream, order } => FrameView::Unicast {
                data: data@,
                stream: *stream,
                order: *order,
            },
            ServerToProxy::Multicast { data, stream } => FrameView::Multicast {
                data: data@,
                stream: stream@,
            },
            ServerToProxy::BroadcastGlobal { data, optional, exclude } => {
                FrameView::BroadcastGlobal { data: data@, optional: *optional, exclude: *exclude }
            },
            ServerToProxy::BroadcastLocal { data, taxicab_radius, center, optional, exclude } => {
                FrameView::BroadcastLocal {
                    data: data@,
                    taxicab_radius: *taxicab_radius,
                    center_x: center.x,
                    center_z: center.z,
                    optional: *optional,
                    exclude: *exclude,
                }
            },
            ServerToProxy::SetReceiveBroadcasts { stream } => FrameView::SetReceiveBroadcasts {
                stream: *stream,
            },
        }
    }
}

/// The key that introduces a field: field number and wire kind in one varint.
pub open spec fn key_bytes(field: nat, wire: nat) -> Seq<u8> {
    varint_bytes(field * 8 + wire)
}

/// A numeric field: key, then the value as a varint.
pub open spec fn varint_field(field: nat, v: nat) -> Seq<u8> {
    key_bytes(field, 0) + varint_bytes(v)
}

/// A byte-payload field: key, byte count, then the bytes.
pub open spec fn len_field(field: nat, payload: Seq<u8>) -> Seq<u8> {
    key_bytes(field, 2) + varint_bytes(payload.len()) + payload
}

/// A run of packed varints, one per listed stream.
pub open spec fn packed_u64s(vs: Seq<u64>) -> Seq<u8>
    decreases vs.len(),
{
    if vs.len() == 0 {
        Seq::empty()
    } else {
        varint_bytes(vs[0] as nat) + packed_u64s(vs.skip(1))
    }
}

/// A bool on the wire: one varint, zero or one.
pub open spec fn bool_val(b: bool) -> nat {
    if b {
        1
    } else {
        0
    }
}

/// A 32-bit signed value on the wire: its two's-complement bits, zero-extended.
pub open spec fn i32_val(x: i32) -> nat {
    (x as u32) as nat
}

/// The field number that selects a variant inside the envelope.
pub open spec fn variant_field(f: FrameView) -> nat {
    match f {
        FrameView::Unicast { .. } => 1,
        FrameView::Multicast { .. } => 2,
        FrameView::BroadcastGlobal { .. } => 3,
        FrameView::BroadcastLocal { .. } => 4,
        FrameView::SetReceiveBroadcasts { .. } => 5,
    }
}

/// The body of a frame's message, field by field.
pub open spec fn message_bytes(f: FrameView) -> Seq<u8> {
    match f {
        FrameView::Unicast { data, stream, order } => len_field(1, data) + varint_field(
            2,
            stream as nat,
        ) + varint_field(3, order as nat),
        FrameView::Multicast { data, stream } => len_field(1, data) + len_field(
            2,
            packed_u64s(stream),
        ),
        FrameView::BroadcastGlobal { data, optional, exclude } => len_field(1, data)
            + varint_field(2, bool_val(optional)) + varint_field(3, exclude as nat),
        FrameView::BroadcastLocal { data, taxicab_radius, center_x, center_z, optional, exclude } => {
            len_field(1, data) + varint_field(2, taxicab_radius as nat) + len_field(
                3,
                chunk_position_bytes(center_x, center_z),
            ) + varint_field(4, bool_val(optional)) + varint_field(5, exclude as nat)
        },
        FrameView::SetReceiveBroadcasts { stream } => varint_field(1, stream as nat),
    }
}

/// The encoded center coordinate, a sub-message of two numeric fields.
pub open spec fn chunk_position_bytes(x: i32, z: i32) -> Seq<u8> {
    varint_field(1, i32_val(x)) + varint_field(2, i32_val(z))
}

/// The envelope: one length-prefixed field holding the message.
pub open spec fn envelope_bytes(f: FrameView) -> Seq<u8> {
    len_field(variant_field(f), message_bytes(f))
}

/// A whole frame on the wire: the envelope behind its own length prefix.
pub open spec fn frame_bytes(f: FrameView) -> Seq<u8> {
    varint_bytes(envelope_bytes(f).len()) + envelope_bytes(f)
}

/// Appends every byte of `data` to `out`.
pub fn push_all(out: &mut Vec<u8>, data: &[u8])
    ensures
        final(out)@ == old(out)@ + data@,
{
    let mut i: usize = 0;
    while i < data.len()
        invariant
            i <= data@.len(),
            out@ == old(out)@ + data@.take(i as int),
        decreases data@.len() - i,
    {
        out.push(data[i]);
        assert(out@ =~= old(out)@ + data@.take(i as int) + seq![data@[i as int]]);
        assert(out@ =~= old(out)@ + data@.take(i + 1));
        i = i + 1;
    }
    assert(out@ =~= old(out)@ + data@);
}

/// Appends the key of field `field` with wire kind `wire`.
fn write_key(out: &mut Vec<u8>, field: u64, wire: u64)
    requires
        field <= 5,
        wire <= 2,
    ensures
        final(out)@ == old(out)@ + key_bytes(field as nat, wire as nat),
{
    write_varint(out, field * 8 + wire);
}

/// Appends a numeric field.
fn write_varint_field(out: &mut Vec<u8>, field: u64, v: u64)
    requires
        field <= 5,
    ensures
        final(out)@ == old(out)@ + varint_field(field as nat, v as nat),
{
    write_key(out, field, 0);
    write_varint(out, v);
    assert(final(out)@ =~= old(out)@ + varint_field(field as nat, v as nat));
}

/// Appends a byte-payload field.
fn write_len_field(out: &mut Vec<u8>, field: u64, payload: &[u8])
    requires
        field <= 5,
    ensures
        final(out)@ == old(out)@ + len_field(field as nat, payload@),
{
    write_key(out, field, 2);
    write_varint(out, payload.len() as u64);
    push_all(out, payload);
    assert(final(out)@ =~= old(out)@ + len_field(field as nat, payload@));
}

/// Appends the packed stream list.
fn write_packed_u64s(out: &mut Vec<u8>, vs: &[u64])
    ensures
        final(out)@ == old(out)@ + packed_u64s(vs@),
{
    let mut i: usize = 0;
    assert(vs@.skip(0) =~= vs@);
    while i < vs.len()
        invariant
            i <= vs@.len(),
            out@ + packed_u64s(vs@.skip(i as int)) == old(out)@ + packed_u64s(vs@),
        decreases vs@.len() - i,
    {
        let ghost pre = out@;
        write_varint(out, vs[i]);
        proof {
            assert(vs@.skip(i as int).skip(1) =~= vs@.skip(i + 1));
            assert(packed_u64s(vs@.skip(i as int)) =~= varint_bytes(vs@[i as int] as nat)
                + packed_u64s(vs@.skip(i + 1)));
            assert(out@ + packed_u64s(vs@.skip(i + 1)) =~= pre + packed_u64s(vs@.skip(i as int)));
        }
        i = i + 1;
    }
    assert(vs@.skip(vs@.len() as int) =~= Seq::<u64>::empty());
    assert(out@ =~= old(out)@ + packed_u64s(vs@));
}

/// Appends the message body of `frame`.
fn write_message(frame: &ServerToProxy, out: &mut Vec<u8>)
    ensures
        final(out)@ == old(out)@ + message_bytes(frame@),
{
    match frame {
        ServerToProxy::Unicast { data, stream, order } => {
            write_len_field(out, 1, data.as_slice());
            write_varint_field(out, 2, *stream);
            write_varint_field(out, 3, *order);
            assert(final(out)@ =~= old(out)@ + message_bytes(frame@));
        },
        ServerToProxy::Multicast { data, stream } => {
            write_len_field(out, 1, data.as_slice());
            let mut packed: Vec<u8> = Vec::new();
            write_packed_u64s(&mut packed, stream.as_slice());
            write_len_field(out, 2, packed.as_slice());
            assert(final(out)@ =~= old(out)@ + message_bytes(frame@));
        },
        ServerToProxy::BroadcastGlobal { data, optional, exclude } => {
            write_len_field(out, 1, data.as_slice());
            write_varint_field(out, 2, if *optional { 1 } else { 0 });
            write_varint_field(out, 3, *exclude);
            assert(final(out)@ =~= old(out)@ + message_bytes(frame@));
        },
        ServerToProxy::BroadcastLocal { data, taxicab_radius, center, optional, exclude } => {
            write_len_field(out, 1, data.as_slice());
            write_varint_field(out, 2, *taxicab_radius as u64);
            let mut pos: Vec<u8> = Vec::new();
            write_varint_field(&mut pos, 1, center.x as u32 as u64);
            write_varint_field(&mut pos, 2, center.z as u32 as u64);
            assert(pos@ =~= chunk_position_bytes(center.x, center.z));
            write_len_field(out, 3, pos.as_slice());
            write_varint_field(out, 4, if *optional { 1 } else { 0 });
            write_varint_field(out, 5, *exclude);
            assert(final(out)@ =~= old(out)@ + message_bytes(frame@));
        },
        ServerToProxy::SetReceiveBroadcasts { stream } => {
            write_varint_field(out, 1, *stream);
        },
    }
}

/// Appends one whole frame — length prefix, envelope, message — to `out`.
///
/// Exactly one complete frame becomes visible in `out`; nothing partial is
/// ever left behind.
pub fn encode_length_delimited(frame: &ServerToProxy, out: &mut Vec<u8>)
    ensures
        final(out)@ == old(out)@ + frame_bytes(frame@),
{
    let mut msg: Vec<u8> = Vec::new();
    write_message(frame, &mut msg);
    let field: u64 = match frame {
        ServerToProxy::Unicast { .. } => 1,
        ServerToProxy::Multicast { .. } => 2,
        ServerToProxy::BroadcastGlobal { .. } => 3,
        ServerToProxy::BroadcastLocal { .. } => 4,
        ServerToProxy::SetReceiveBroadcasts { .. } => 5,
    };
    let mut env: Vec<u8> = Vec::new();
    write_key(&mut env, field, 2);
    write_varint(&mut env, msg.len() as u64);
    push_all(&mut env, msg.as_slice());
    assert(env@ =~= envelope_bytes(frame@));
    write_varint(out, env.len() as u64);
    push_all(out, env.as_slice());
    assert(final(out)@ =~= old(out)@ + frame_bytes(frame@));
}

} // verus!
