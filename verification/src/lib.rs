//! Outbound packet composition and fan-out for a tick-based game server.
//!
//! The crate stages serialized game packets, optionally compresses them,
//! wraps them in length-delimited wire frames that describe the intended
//! fan-out (unicast, multicast, global or local broadcast), and buffers the
//! frames per worker until a tick-boundary drain hands them to the transport.

use vstd::prelude::*;

pub mod bitmap;
pub mod decode;
pub mod deflate;
pub mod encoder;
pub mod event;
pub mod inventory;
pub mod mojang;
pub mod net;
pub mod section;
pub mod varint;
pub mod wire;

verus! {

/// A reusable per-worker staging buffer: encode scratch memory that is
/// cleared and overwritten between packets, never shrunk eagerly.
pub struct Scratch {
    pub(crate) buffer: Vec<u8>,
}

impl View for Scratch {
    type V = Seq<u8>;

    closed spec fn view(&self) -> Seq<u8> {
        self.buffer@
    }
}

impl Scratch {
    /// An empty scratch buffer.
    pub fn new() -> (r: Self)
        ensures
            r@.len() == 0,
    {
        Scratch { buffer: Vec::new() }
    }
}

/// The scratch pool: one staging buffer per worker.
pub struct Scratches {
    pub(crate) items: Vec<Scratch>,
}

impl Scratches {
    /// How many workers this pool serves.
    pub closed spec fn worker_count(&self) -> nat {
        self.items@.len()
    }

    /// A pool with one scratch buffer per worker.
    pub fn new(workers: usize) -> (r: Self)
        ensures
            r.worker_count() == workers,
    {
        let mut items: Vec<Scratch> = Vec::new();
        while items.len() < workers
            invariant
                items@.len() <= workers,
            decreases workers - items@.len(),
        {
            items.push(Scratch::new());
        }
        Scratches { items }
    }
}

} // verus!
