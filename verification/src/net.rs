//! Packet composition and fan-out: stream identities, the per-worker
//! outbound frame buffer, and the [`Compose`] facade with its builders.
//!
//! Worker threads are modelled explicitly: every pool is a vector with one
//! entry per worker, and each call names the worker whose entry it uses.
//! A worker only ever touches its own entry, so concurrent workers never
//! contend; the tick-boundary drain runs alone, by scheduling discipline.

use crate::decode::copy_bytes;
use crate::deflate::{new_compressor, zlib_inflate_of};
use crate::encoder::{
    append_packet_without_compression, compressed_frame, compresses, plain_frame,
    uncompressed_frame, PacketEncoder, SendError,
};
use crate::wire::{encode_length_delimited, frame_bytes, ChunkPosition, FrameView, ServerToProxy};
use crate::Scratches;
use vstd::prelude::*;

pub use crate::encoder::MAX_PACKET_SIZE;

verus! {

/// The game protocol version this library targets.
pub const PROTOCOL_VERSION: i32 = 763;

/// The stringified name of the game version this library targets.
pub const MINECRAFT_VERSION: &'static str = "1.20.1";

/// The delivery-order counter after one more unicast: one higher, wrapping
/// at the 64-bit boundary.
pub open spec fn wrap_inc(order: u64) -> u64 {
    if order == u64::MAX {
        0
    } else {
        (order + 1) as u64
    }
}

/// A reference to a network stream: the transport's stream id plus the
/// delivery-order counter that keeps this stream's packets in order.
#[derive(Debug)]
pub struct NetworkStreamRef {
    /// Unique identifier for the network stream, assigned by the transport.
    stream_id: u64,
    /// Starts at 0 and advances by one for every unicast frame issued for
    /// this stream, wrapping at the 64-bit boundary. The proxy delivers
    /// this stream's packets in this order.
    packet_order: u64,
}

impl NetworkStreamRef {
    /// The stream id.
    pub closed spec fn id(&self) -> u64 {
        self.stream_id
    }

    /// The delivery-order counter: the order the next unicast will carry.
    pub closed spec fn order(&self) -> u64 {
        self.packet_order
    }

    /// A fresh stream identity with its counter at zero.
    pub fn new(stream_id: u64) -> (r: Self)
        ensures
            r.id() == stream_id,
            r.order() == 0,
    {
        NetworkStreamRef { stream_id, packet_order: 0 }
    }

    /// The stream id, for handing frames to the transport.
    pub fn stream_id(&self) -> (r: u64)
        ensures
            r == self.id(),
    {
        self.stream_id
    }

    /// Reads the counter and advances it by one, wrapping.
    fn fetch_inc(&mut self) -> (r: u64)
        ensures
            r == old(self).order(),
            final(self).order() == wrap_inc(old(self).order()),
            final(self).id() == old(self).id(),
    {
        let r = self.packet_order;
        self.packet_order = if r == u64::MAX {
            0
        } else {
            r + 1
        };
        r
    }
}

/// The counter of a fresh stream after `n` unicasts.
pub open spec fn counter_after(start: u64, n: nat) -> u64
    decreases n,
{
    if n == 0 {
        start
    } else {
        wrap_inc(counter_after(start, (n - 1) as nat))
    }
}

/// Per-stream ordering: starting from a fresh stream, the `i`-th unicast
/// (counting from zero) finds the counter at `i` and so carries order `i`;
/// over `n` sequential calls the observed orders are exactly 0, 1, …, n−1.
pub proof fn lemma_unicast_orders(n: nat, i: nat)
    requires
        i < n,
        n <= u64::MAX,
    ensures
        counter_after(0, i) == i,
    decreases i,
{
    if i > 0 {
        lemma_unicast_orders(n, (i - 1) as nat);
    }
}

/// The per-worker outbound frame buffer: one growable byte sequence per
/// worker, holding zero or more complete frames. Its view is the sequence
/// of per-worker buffer contents.
pub struct IoBuf {
    buffers: Vec<Vec<u8>>,
}

impl View for IoBuf {
    type V = Seq<Seq<u8>>;

    closed spec fn view(&self) -> Seq<Seq<u8>> {
        self.buffers.deep_view()
    }
}

/// What a drain leaves behind and hands out: the buffers as they were, and
/// one empty buffer per worker for the next tick.
pub open spec fn drain_model(s: Seq<Seq<u8>>) -> (Seq<Seq<u8>>, Seq<Seq<u8>>) {
    (s, Seq::new(s.len(), |i: int| Seq::<u8>::empty()))
}

/// Drain is idempotent: with no appends in between, a second drain hands
/// out buffers with nothing in them.
pub proof fn lemma_drain_idempotent(s: Seq<Seq<u8>>)
    ensures
        forall|i: int|
            0 <= i < drain_model(drain_model(s).1).0.len() ==> #[trigger] drain_model(
                drain_model(s).1,
            ).0[i].len() == 0,
{
}

impl IoBuf {
    /// An empty buffer for each of `workers` workers.
    pub fn new(workers: usize) -> (r: Self)
        ensures
            r@.len() == workers,
            forall|i: int| 0 <= i < workers ==> #[trigger] r@[i].len() == 0,
    {
        let mut buffers: Vec<Vec<u8>> = Vec::new();
        while buffers.len() < workers
            invariant
                buffers@.len() <= workers,
                forall|i: int| 0 <= i < buffers@.len() ==> #[trigger] buffers@[i]@.len() == 0,
            decreases workers - buffers@.len(),
        {
            buffers.push(Vec::new());
        }
        let r = IoBuf { buffers };
        assert(forall|i: int| 0 <= i < workers ==> #[trigger] r@[i].len() == 0);
        r
    }

    /// How many workers this buffer serves.
    pub fn worker_count(&self) -> (r: usize)
        ensures
            r == self@.len(),
    {
        self.buffers.len()
    }

    /// Appends one complete frame to this worker's buffer; no other
    /// worker's buffer changes.
    fn append_frame(&mut self, frame: &ServerToProxy, worker: usize)
        requires
            worker < old(self)@.len(),
        ensures
            final(self)@ == old(self)@.update(
                worker as int,
                old(self)@[worker as int] + frame_bytes(frame@),
            ),
    {
        let buf = &mut self.buffers[worker];
        encode_length_delimited(frame, buf);
        assert(final(self)@ =~~= old(self)@.update(
            worker as int,
            old(self)@[worker as int] + frame_bytes(frame@),
        ));
    }

    /// Appends one unicast frame carrying `data` for `stream`, reading the
    /// stream's delivery order and advancing it by one.
    pub fn unicast_raw(&mut self, data: Vec<u8>, stream: &mut NetworkStreamRef, worker: usize)
        requires
            worker < old(self)@.len(),
        ensures
            final(self)@ == old(self)@.update(
                worker as int,
                old(self)@[worker as int] + frame_bytes(
                    FrameView::Unicast {
                        data: data@,
                        stream: old(stream).id(),
                        order: old(stream).order(),
                    },
                ),
            ),
            final(stream).id() == old(stream).id(),
            final(stream).order() == wrap_inc(old(stream).order()),
    {
        let order = stream.fetch_inc();
        let frame = ServerToProxy::Unicast { data, stream: stream.stream_id(), order };
        self.append_frame(&frame, worker);
    }

    /// Appends one multicast frame carrying `data` for the listed streams,
    /// duplicates and the empty list included.
    pub fn multicast_raw(&mut self, data: Vec<u8>, streams: &[u64], worker: usize)
        requires
            worker < old(self)@.len(),
        ensures
            final(self)@ == old(self)@.update(
                worker as int,
                old(self)@[worker as int] + frame_bytes(
                    FrameView::Multicast { data: data@, stream: streams@ },
                ),
            ),
    {
        let frame = ServerToProxy::Multicast { data, stream: copy_u64s(streams) };
        self.append_frame(&frame, worker);
    }

    /// Appends one global broadcast frame carrying `data`, excluding at
    /// most one stream (0: none).
    pub fn broadcast_raw(&mut self, data: Vec<u8>, optional: bool, exclude: u64, worker: usize)
        requires
            worker < old(self)@.len(),
        ensures
            final(self)@ == old(self)@.update(
                worker as int,
                old(self)@[worker as int] + frame_bytes(
                    FrameView::BroadcastGlobal { data: data@, optional, exclude },
                ),
            ),
    {
        let frame = ServerToProxy::BroadcastGlobal { data, optional, exclude };
        self.append_frame(&frame, worker);
    }

    /// Appends one local broadcast frame carrying `data` for the square
    /// region of Chebyshev radius `radius` around `center`.
    pub fn broadcast_local_raw(
        &mut self,
        data: Vec<u8>,
        center: ChunkPosition,
        radius: u32,
        optional: bool,
        exclude: u64,
        worker: usize,
    )
        requires
            worker < old(self)@.len(),
        ensures
            final(self)@ == old(self)@.update(
                worker as int,
                old(self)@[worker as int] + frame_bytes(
                    FrameView::BroadcastLocal {
                        data: data@,
                        taxicab_radius: radius,
                        center_x: center.x,
                        center_z: center.z,
                        optional,
                        exclude,
                    },
                ),
            ),
    {
        let frame = ServerToProxy::BroadcastLocal {
            data,
            taxicab_radius: radius,
            center,
            optional,
            exclude,
        };
        self.append_frame(&frame, worker);
    }

    /// Appends the one-way declaration that subscribes `stream` to
    /// broadcast fan-out.
    pub fn set_receive_broadcasts(&mut self, stream: &NetworkStreamRef, worker: usize)
        requires
            worker < old(self)@.len(),
        ensures
            final(self)@ == old(self)@.update(
                worker as int,
                old(self)@[worker as int] + frame_bytes(
                    FrameView::SetReceiveBroadcasts { stream: stream.id() },
                ),
            ),
    {
        let frame = ServerToProxy::SetReceiveBroadcasts { stream: stream.stream_id() };
        self.append_frame(&frame, worker);
    }

    /// The drain: hands out every worker's accumulated bytes and leaves
    /// each worker an empty buffer. Must run at a tick boundary, never
    /// overlapping producers; the scheduler provides that discipline.
    pub fn split(&mut self) -> (r: Vec<Vec<u8>>)
        ensures
            r.deep_view() == drain_model(old(self)@).0,
            final(self)@ == drain_model(old(self)@).1,
    {
        let mut out: Vec<Vec<u8>> = Vec::new();
        let n = self.buffers.len();
        let mut i: usize = 0;
        while i < n
            invariant
                i <= n,
                n == self.buffers@.len(),
                out@.len() == i,
                forall|j: int| 0 <= j < i ==> #[trigger] out@[j]@ == old(self)@[j],
                forall|j: int| 0 <= j < i ==> #[trigger] self.buffers@[j]@.len() == 0,
                forall|j: int| i <= j < n ==> #[trigger] self.buffers@[j]@ == old(self)@[j],
            decreases n - i,
        {
            let mut taken: Vec<u8> = Vec::new();
            core::mem::swap(&mut self.buffers[i], &mut taken);
            out.push(taken);
            i = i + 1;
        }
        assert(out.deep_view() =~~= drain_model(old(self)@).0);
        assert(self@ =~~= drain_model(old(self)@).1);
        out
    }
}

/// Copies a slice of stream ids into a fresh vector.
fn copy_u64s(s: &[u64]) -> (r: Vec<u64>)
    ensures
        r@ == s@,
{
    let mut v: Vec<u64> = Vec::new();
    let mut i: usize = 0;
    while i < s.len()
        invariant
            i <= s@.len(),
            v@ == s@.take(i as int),
        decreases s@.len() - i,
    {
        v.push(s[i]);
        assert(v@ =~= s@.take(i + 1));
        i = i + 1;
    }
    assert(v@ =~= s@);
    v
}


/// The relation between a packet's serialized bytes and the payload the
/// encoder stages for it: the compressed frame of some zlib stream of the
/// data when the packet reaches the threshold, the zero-marked raw frame
/// otherwise.
pub open spec fn packet_payload(threshold: i32, data: Seq<u8>, payload: Seq<u8>) -> bool {
    if compresses(threshold, data.len()) {
        exists|z: Seq<u8>|
            #![auto]
            {
                &&& zlib_inflate_of(z) == Some(data)
                &&& payload == compressed_frame(data.len(), z)
            }
    } else {
        payload == uncompressed_frame(data)
    }
}

/// Whatever the facade stages for a packet — compressed or raw — a
/// conformant receiver decodes it back to the byte-identical serialized
/// packet.
pub proof fn lemma_payload_decodes(threshold: i32, data: Seq<u8>, payload: Seq<u8>)
    requires
        packet_payload(threshold, data, payload),
        data.len() <= usize::MAX,
    ensures
        crate::encoder::spec_decode_packet(payload) == Some(data),
{
    if compresses(threshold, data.len()) {
        let z = choose|z: Seq<u8>|
            #![auto]
            {
                &&& zlib_inflate_of(z) == Some(data)
                &&& payload == compressed_frame(data.len(), z)
            };
        crate::encoder::lemma_compressed_frame_decodes(data, z);
    } else {
        crate::encoder::lemma_uncompressed_frame_decodes(data);
    }
}

/// The stream ids behind a list of stream identities, in order.
pub open spec fn stream_ids(s: Seq<NetworkStreamRef>) -> Seq<u64> {
    s.map_values(|x: NetworkStreamRef| x.id())
}

/// The compressor pool: one stateful compressor per worker, all at the
/// level fixed when the pool was built.
pub struct Compressors {
    items: Vec<libdeflater::Compressor>,
    level: libdeflater::CompressionLvl,
}

impl Compressors {
    /// How many workers this pool serves.
    pub closed spec fn worker_count(&self) -> nat {
        self.items@.len()
    }

    /// A pool with one compressor per worker at the given level.
    pub fn new(level: libdeflater::CompressionLvl, workers: usize) -> (r: Self)
        ensures
            r.worker_count() == workers,
    {
        let mut items: Vec<libdeflater::Compressor> = Vec::new();
        while items.len() < workers
            invariant
                items@.len() <= workers,
            decreases workers - items@.len(),
        {
            items.push(new_compressor(level));
        }
        Compressors { items, level }
    }
}

/// Global server configuration as this layer reads it. Immutable after
/// construction; safely read from any worker.
pub struct Global {
    /// Minimum serialized packet size at which compression is applied;
    /// negative turns compression off.
    pub compression_threshold: i32,
}

impl Global {
    /// Configuration with the given compression threshold.
    pub fn new(compression_threshold: i32) -> (r: Self)
        ensures
            r.compression_threshold == compression_threshold,
    {
        Global { compression_threshold }
    }
}

/// The composition facade: owns the compressor pool, the scratch pool, the
/// configuration snapshot and the outbound frame buffer, and exposes the
/// unicast, multicast and broadcast operations.
pub struct Compose {
    compressor: Compressors,
    scratch: Scratches,
    global: Global,
    io_buf: IoBuf,
}

impl Compose {
    /// How many workers this facade serves.
    pub closed spec fn worker_count(&self) -> nat {
        self.io_buf@.len()
    }

    /// Every pool has one entry per worker.
    pub closed spec fn wf(&self) -> bool {
        &&& self.compressor.worker_count() == self.io_buf@.len()
        &&& self.scratch.worker_count() == self.io_buf@.len()
    }

    /// The configured compression threshold.
    pub closed spec fn threshold(&self) -> i32 {
        self.global.compression_threshold
    }

    /// The per-worker outbound buffer contents.
    pub closed spec fn io(&self) -> Seq<Seq<u8>> {
        self.io_buf@
    }

    /// Assembles the facade from its pools, which must all serve the same
    /// workers. Built once at startup, in pool order: compressors, scratch,
    /// configuration, outbound buffer.
    pub fn new(compressor: Compressors, scratch: Scratches, global: Global, io_buf: IoBuf) -> (r:
        Self)
        requires
            compressor.worker_count() == io_buf@.len(),
            scratch.worker_count() == io_buf@.len(),
        ensures
            r.wf(),
            r.threshold() == global.compression_threshold,
            r.io() == io_buf@,
            r.worker_count() == io_buf@.len(),
    {
        Compose { compressor, scratch, global, io_buf }
    }

    /// Builds the facade with fresh pools for `workers` workers; refused
    /// only when `level` is not a level the codec accepts.
    pub fn with_workers(threshold: i32, level: i32, workers: usize) -> (r: Option<Self>)
        ensures
            r is Some <==> 0 <= level <= 12,
            match r {
                Some(c) => {
                    &&& c.wf()
                    &&& c.threshold() == threshold
                    &&& c.worker_count() == workers
                    &&& c.io().len() == workers
                    &&& forall|i: int| 0 <= i < workers ==> #[trigger] c.io()[i].len() == 0
                },
                None => true,
            },
    {
        match crate::deflate::new_compression_level(level) {
            Some(lvl) => {
                let compressor = Compressors::new(lvl, workers);
                let scratch = Scratches::new(workers);
                let io_buf = IoBuf::new(workers);
                let global = Global::new(threshold);
                Some(Compose::new(compressor, scratch, global, io_buf))
            },
            None => None,
        }
    }

    /// The configuration snapshot.
    pub fn global(&self) -> (r: &Global)
        ensures
            r.compression_threshold == self.threshold(),
    {
        &self.global
    }

    /// The configuration snapshot, for reconfiguration between ticks; the
    /// threshold must not move while workers are producing.
    pub fn global_mut(&mut self) -> (r: &mut Global)
        ensures
            r.compression_threshold == old(self).threshold(),
            final(self).threshold() == final(r).compression_threshold,
            final(self).io() == old(self).io(),
            final(self).worker_count() == old(self).worker_count(),
            old(self).wf() ==> final(self).wf(),
    {
        &mut self.global
    }

    /// The outbound frame buffer, for the coordinating drain.
    pub fn io_buf_mut(&mut self) -> (r: &mut IoBuf)
        ensures
            r@ == old(self).io(),
            final(self).io() == final(r)@,
            final(self).threshold() == old(self).threshold(),
            old(self).wf() && final(r)@.len() == old(self).worker_count() ==> final(self).wf()
                && final(self).worker_count() == old(self).worker_count(),
    {
        &mut self.io_buf
    }

    /// The outbound frame buffer.
    pub fn io_buf(&self) -> (r: &IoBuf)
        ensures
            r@ == self.io(),
    {
        &self.io_buf
    }

    /// How many workers this facade serves.
    pub fn workers(&self) -> (r: usize)
        ensures
            r == self.worker_count(),
    {
        self.io_buf.worker_count()
    }

    /// A packet encoder at the configured threshold.
    pub fn encoder(&self) -> (r: PacketEncoder)
        ensures
            r.threshold == self.threshold(),
    {
        PacketEncoder::new(self.global.compression_threshold)
    }

    /// Stages one packet in this worker's scratch buffer and returns its
    /// on-wire payload. The buffers are untouched; the scratch is left
    /// overwritable whether or not encoding succeeded.
    fn encode_packet(&mut self, packet: &[u8], worker: usize) -> (r: Result<Vec<u8>, SendError>)
        requires
            old(self).wf(),
            worker < old(self).worker_count(),
        ensures
            final(self).wf(),
            final(self).worker_count() == old(self).worker_count(),
            final(self).threshold() == old(self).threshold(),
            final(self).io() == old(self).io(),
            match r {
                Ok(payload) => {
                    &&& packet_payload(old(self).threshold(), packet@, payload@)
                    &&& packet@.len() <= MAX_PACKET_SIZE
                },
                Err(e) => {
                    &&& (e is PacketTooLarge ==> packet@.len() > MAX_PACKET_SIZE)
                    &&& (e is CompressionFailed ==> compresses(
                        old(self).threshold(),
                        packet@.len(),
                    ))
                },
            },
            packet@.len() <= MAX_PACKET_SIZE && !compresses(old(self).threshold(), packet@.len())
                ==> r is Ok,
    {
        let enc = PacketEncoder::new(self.global.compression_threshold);
        let sc = &mut self.scratch.items[worker];
        sc.buffer.clear();
        let co = &mut self.compressor.items[worker];
        match enc.append_packet(packet, &mut sc.buffer, co) {
            Ok(()) => {
                proof {
                    if compresses(enc.threshold, packet@.len()) {
                        let z = choose|z: Seq<u8>|
                            #![auto]
                            {
                                &&& zlib_inflate_of(z) == Some(packet@)
                                &&& sc.buffer@ == Seq::<u8>::empty() + compressed_frame(
                                    packet@.len(),
                                    z,
                                )
                            };
                        assert(Seq::<u8>::empty() + compressed_frame(packet@.len(), z)
                            =~= compressed_frame(packet@.len(), z));
                    } else {
                        assert(Seq::<u8>::empty() + uncompressed_frame(packet@)
                            =~= uncompressed_frame(packet@));
                    }
                }
                Ok(copy_bytes(sc.buffer.as_slice()))
            },
            Err(e) => Err(e),
        }
    }

    /// Sends one packet to one stream: encodes it, appends exactly one
    /// unicast frame to this worker's buffer carrying the stream's current
    /// delivery order, and advances the counter by one. On failure nothing
    /// is appended and the counter does not move.
    pub fn unicast(&mut self, packet: &[u8], stream: &mut NetworkStreamRef, worker: usize) -> (r:
        Result<(), SendError>)
        requires
            old(self).wf(),
            worker < old(self).worker_count(),
        ensures
            final(self).wf(),
            final(self).worker_count() == old(self).worker_count(),
            final(self).threshold() == old(self).threshold(),
            match r {
                Ok(()) => {
                    &&& exists|payload: Seq<u8>|
                        #![auto]
                        {
                            &&& packet_payload(old(self).threshold(), packet@, payload)
                            &&& final(self).io() == old(self).io().update(
                                worker as int,
                                old(self).io()[worker as int] + frame_bytes(
                                    FrameView::Unicast {
                                        data: payload,
                                        stream: old(stream).id(),
                                        order: old(stream).order(),
                                    },
                                ),
                            )
                        }
                    &&& final(stream).id() == old(stream).id()
                    &&& final(stream).order() == wrap_inc(old(stream).order())
                    &&& packet@.len() <= MAX_PACKET_SIZE
                },
                Err(e) => {
                    &&& final(self).io() == old(self).io()
                    &&& *final(stream) == *old(stream)
                    &&& (e is PacketTooLarge ==> packet@.len() > MAX_PACKET_SIZE)
                    &&& (e is CompressionFailed ==> compresses(
                        old(self).threshold(),
                        packet@.len(),
                    ))
                },
            },
            packet@.len() <= MAX_PACKET_SIZE && !compresses(old(self).threshold(), packet@.len())
                ==> r is Ok,
    {
        match self.encode_packet(packet, worker) {
            Ok(payload) => {
                self.io_buf.unicast_raw(payload, stream, worker);
                Ok(())
            },
            Err(e) => Err(e),
        }
    }

    /// Sends one packet to one stream without compression: the frame
    /// carries the packet behind its bare length, whatever the threshold.
    pub fn unicast_no_compression(
        &mut self,
        packet: &[u8],
        stream: &mut NetworkStreamRef,
        worker: usize,
    ) -> (r: Result<(), SendError>)
        requires
            old(self).wf(),
            worker < old(self).worker_count(),
        ensures
            final(self).wf(),
            final(self).worker_count() == old(self).worker_count(),
            final(self).threshold() == old(self).threshold(),
            r is Ok <==> packet@.len() <= MAX_PACKET_SIZE,
            match r {
                Ok(()) => {
                    &&& final(self).io() == old(self).io().update(
                        worker as int,
                        old(self).io()[worker as int] + frame_bytes(
                            FrameView::Unicast {
                                data: plain_frame(packet@),
                                stream: old(stream).id(),
                                order: old(stream).order(),
                            },
                        ),
                    )
                    &&& final(stream).id() == old(stream).id()
                    &&& final(stream).order() == wrap_inc(old(stream).order())
                },
                Err(e) => {
                    &&& final(self).io() == old(self).io()
                    &&& *final(stream) == *old(stream)
                    &&& e is PacketTooLarge
                },
            },
    {
        let mut payload: Vec<u8> = Vec::new();
        match append_packet_without_compression(packet, &mut payload) {
            Ok(()) => {
                self.io_buf.unicast_raw(payload, stream, worker);
                Ok(())
            },
            Err(e) => Err(e),
        }
    }

    /// Sends one packet to the listed streams: encodes the payload once and
    /// appends exactly one multicast frame naming every listed id, in
    /// order, duplicates kept and the empty list accepted.
    pub fn multicast(
        &mut self,
        packet: &[u8],
        streams: &[NetworkStreamRef],
        worker: usize,
    ) -> (r: Result<(), SendError>)
        requires
            old(self).wf(),
            worker < old(self).worker_count(),
        ensures
            final(self).wf(),
            final(self).worker_count() == old(self).worker_count(),
            final(self).threshold() == old(self).threshold(),
            match r {
                Ok(()) => exists|payload: Seq<u8>|
                    #![auto]
                    {
                        &&& packet_payload(old(self).threshold(), packet@, payload)
                        &&& final(self).io() == old(self).io().update(
                            worker as int,
                            old(self).io()[worker as int] + frame_bytes(
                                FrameView::Multicast {
                                    data: payload,
                                    stream: stream_ids(streams@),
                                },
                            ),
                        )
                    },
                Err(e) => {
                    &&& final(self).io() == old(self).io()
                    &&& (e is PacketTooLarge ==> packet@.len() > MAX_PACKET_SIZE)
                    &&& (e is CompressionFailed ==> compresses(
                        old(self).threshold(),
                        packet@.len(),
                    ))
                },
            },
            packet@.len() <= MAX_PACKET_SIZE && !compresses(old(self).threshold(), packet@.len())
                ==> r is Ok,
    {
        let mut ids: Vec<u64> = Vec::new();
        let mut i: usize = 0;
        while i < streams.len()
            invariant
                i <= streams@.len(),
                ids@ == stream_ids(streams@.take(i as int)),
            decreases streams@.len() - i,
        {
            let s = &streams[i];
            ids.push(s.stream_id());
            assert(ids@ =~= stream_ids(streams@.take(i + 1)));
            i = i + 1;
        }
        assert(ids@ =~= stream_ids(streams@));
        match self.encode_packet(packet, worker) {
            Ok(payload) => {
                self.io_buf.multicast_raw(payload, ids.as_slice(), worker);
                Ok(())
            },
            Err(e) => Err(e),
        }
    }

    /// Begins a global broadcast of one packet: droppable off, no
    /// exclusion. Finished by [`Broadcast::send`].
    pub fn broadcast(&self, packet: &[u8]) -> (b: Broadcast)
        ensures
            b.data@ == packet@,
            b.optional == false,
            b.exclude == 0,
    {
        Broadcast { data: copy_bytes(packet), optional: false, exclude: 0 }
    }

    /// Begins a local broadcast of one packet around `center`: radius
    /// zero, droppable off, no exclusion. Finished by
    /// [`BroadcastLocal::send`].
    pub fn broadcast_local(&self, packet: &[u8], center: ChunkPosition) -> (b: BroadcastLocal)
        ensures
            b.data@ == packet@,
            b.radius == 0,
            b.center == center,
            b.optional == false,
            b.exclude == 0,
    {
        BroadcastLocal { data: copy_bytes(packet), radius: 0, center, optional: false, exclude: 0 }
    }

    /// Subscribes `stream` to broadcast fan-out: appends exactly one
    /// declaration frame to this worker's buffer.
    pub fn set_receive_broadcasts(&mut self, stream: &NetworkStreamRef, worker: usize)
        requires
            old(self).wf(),
            worker < old(self).worker_count(),
        ensures
            final(self).wf(),
            final(self).worker_count() == old(self).worker_count(),
            final(self).threshold() == old(self).threshold(),
            final(self).io() == old(self).io().update(
                worker as int,
                old(self).io()[worker as int] + frame_bytes(
                    FrameView::SetReceiveBroadcasts { stream: stream.id() },
                ),
            ),
    {
        self.io_buf.set_receive_broadcasts(stream, worker);
    }

    /// The tick-boundary drain: hands out every worker's accumulated bytes
    /// and leaves every buffer empty. Must never overlap producer calls;
    /// the scheduler provides that discipline.
    pub fn split(&mut self) -> (r: Vec<Vec<u8>>)
        requires
            old(self).wf(),
        ensures
            final(self).wf(),
            final(self).worker_count() == old(self).worker_count(),
            final(self).threshold() == old(self).threshold(),
            r.deep_view() == drain_model(old(self).io()).0,
            final(self).io() == drain_model(old(self).io()).1,
    {
        self.io_buf.split()
    }
}

/// A global broadcast being built: the packet, whether the transport may
/// drop it, and at most one excluded stream (0: none; 0 is never a real
/// connection id).
#[must_use]
pub struct Broadcast {
    /// The serialized packet to broadcast.
    pub data: Vec<u8>,
    /// Whether the transport may drop this frame under backpressure.
    pub optional: bool,
    /// The one stream the transport must not deliver to; 0 for none.
    pub exclude: u64,
}

impl Broadcast {
    /// Marks the frame droppable under backpressure.
    pub fn optional(self) -> (r: Self)
        ensures
            r.data@ == self.data@,
            r.optional == true,
            r.exclude == self.exclude,
    {
        Broadcast { optional: true, ..self }
    }

    /// Excludes one stream from the broadcast. Supports exactly one
    /// exclusion: a second call replaces the first.
    pub fn exclude(self, stream: &NetworkStreamRef) -> (r: Self)
        ensures
            r.data@ == self.data@,
            r.optional == self.optional,
            r.exclude == stream.id(),
    {
        Broadcast { exclude: stream.stream_id(), ..self }
    }

    /// Encodes the packet and appends exactly one global broadcast frame,
    /// with this builder's droppable mark and exclusion, to the worker's
    /// buffer. On failure nothing is appended.
    pub fn send(self, compose: &mut Compose, worker: usize) -> (r: Result<(), SendError>)
        requires
            old(compose).wf(),
            worker < old(compose).worker_count(),
        ensures
            final(compose).wf(),
            final(compose).worker_count() == old(compose).worker_count(),
            final(compose).threshold() == old(compose).threshold(),
            match r {
                Ok(()) => exists|payload: Seq<u8>|
                    #![auto]
                    {
                        &&& packet_payload(old(compose).threshold(), self.data@, payload)
                        &&& final(compose).io() == old(compose).io().update(
                            worker as int,
                            old(compose).io()[worker as int] + frame_bytes(
                                FrameView::BroadcastGlobal {
                                    data: payload,
                                    optional: self.optional,
                                    exclude: self.exclude,
                                },
                            ),
                        )
                    },
                Err(e) => {
                    &&& final(compose).io() == old(compose).io()
                    &&& (e is PacketTooLarge ==> self.data@.len() > MAX_PACKET_SIZE)
                    &&& (e is CompressionFailed ==> compresses(
                        old(compose).threshold(),
                        self.data@.len(),
                    ))
                },
            },
            self.data@.len() <= MAX_PACKET_SIZE && !compresses(
                old(compose).threshold(),
                self.data@.len(),
            ) ==> r is Ok,
    {
        match compose.encode_packet(self.data.as_slice(), worker) {
            Ok(payload) => {
                compose.io_buf.broadcast_raw(payload, self.optional, self.exclude, worker);
                Ok(())
            },
            Err(e) => Err(e),
        }
    }
}

/// A local broadcast being built: the packet, the mandatory center, the
/// Chebyshev radius, the droppable mark and at most one excluded stream.
#[must_use]
pub struct BroadcastLocal {
    /// The serialized packet to broadcast.
    pub data: Vec<u8>,
    /// Chebyshev radius of the square region around the center.
    pub radius: u32,
    /// The chunk-column coordinate the region is centered on.
    pub center: ChunkPosition,
    /// Whether the transport may drop this frame under backpressure.
    pub optional: bool,
    /// The one stream the transport must not deliver to; 0 for none.
    pub exclude: u64,
}

impl BroadcastLocal {
    /// Sets the Chebyshev radius of the broadcast region.
    pub fn radius(self, radius: u32) -> (r: Self)
        ensures
            r.data@ == self.data@,
            r.radius == radius,
            r.center == self.center,
            r.optional == self.optional,
            r.exclude == self.exclude,
    {
        BroadcastLocal { radius, ..self }
    }

    /// Marks the frame droppable under backpressure.
    pub fn optional(self) -> (r: Self)
        ensures
            r.data@ == self.data@,
            r.radius == self.radius,
            r.center == self.center,
            r.optional == true,
            r.exclude == self.exclude,
    {
        BroadcastLocal { optional: true, ..self }
    }

    /// Excludes one stream from the broadcast. Supports exactly one
    /// exclusion: a second call replaces the first.
    pub fn exclude(self, stream: &NetworkStreamRef) -> (r: Self)
        ensures
            r.data@ == self.data@,
            r.radius == self.radius,
            r.center == self.center,
            r.optional == self.optional,
            r.exclude == stream.id(),
    {
        BroadcastLocal { exclude: stream.stream_id(), ..self }
    }

    /// Encodes the packet and appends exactly one local broadcast frame,
    /// with this builder's center, radius, droppable mark and exclusion,
    /// to the worker's buffer; no other worker's buffer changes. On
    /// failure nothing is appended.
    pub fn send(self, compose: &mut Compose, worker: usize) -> (r: Result<(), SendError>)
        requires
            old(compose).wf(),
            worker < old(compose).worker_count(),
        ensures
            final(compose).wf(),
            final(compose).worker_count() == old(compose).worker_count(),
            final(compose).threshold() == old(compose).threshold(),
            match r {
                Ok(()) => exists|payload: Seq<u8>|
                    #![auto]
                    {
                        &&& packet_payload(old(compose).threshold(), self.data@, payload)
                        &&& final(compose).io() == old(compose).io().update(
                            worker as int,
                            old(compose).io()[worker as int] + frame_bytes(
                                FrameView::BroadcastLocal {
                                    data: payload,
                                    taxicab_radius: self.radius,
                                    center_x: self.center.x,
                                    center_z: self.center.z,
                                    optional: self.optional,
                                    exclude: self.exclude,
                                },
                            ),
                        )
                    },
                Err(e) => {
                    &&& final(compose).io() == old(compose).io()
                    &&& (e is PacketTooLarge ==> self.data@.len() > MAX_PACKET_SIZE)
                    &&& (e is CompressionFailed ==> compresses(
                        old(compose).threshold(),
                        self.data@.len(),
                    ))
                },
            },
            self.data@.len() <= MAX_PACKET_SIZE && !compresses(
                old(compose).threshold(),
                self.data@.len(),
            ) ==> r is Ok,
    {
        match compose.encode_packet(self.data.as_slice(), worker) {
            Ok(payload) => {
                compose.io_buf.broadcast_local_raw(
                    payload,
                    self.center,
                    self.radius,
                    self.optional,
                    self.exclude,
                    worker,
                );
                Ok(())
            },
            Err(e) => Err(e),
        }
    }
}

} // verus!

