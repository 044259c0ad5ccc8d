//! The packet encoder: length-prefixing and conditional compression.
//!
//! A serialized packet becomes one on-wire payload in the game protocol's
//! frame convention. With compression configured, the frame is a total
//! length, then the uncompressed data length — zero meaning "not
//! compressed" — then either the raw bytes or a zlib stream. Without it,
//! the frame is just the data behind its length.

use crate::decode::copy_bytes;
use crate::deflate::{zlib_compress_vec, zlib_decompress_vec, zlib_inflate_of};
use crate::varint::{
    lemma_varint_bytes_len_u64, lemma_varint_roundtrip, read_varint, varint_bytes, varint_parse,
    write_varint,
};
use crate::wire::push_all;
use vstd::prelude::*;
use vstd::slice::slice_subrange;

verus! {

/// The most bytes one packet may occupy on the wire.
pub const MAX_PACKET_SIZE: usize = 0x20_0000;

/// Why a send failed. Nothing is appended when one of these is returned.
#[derive(Clone, Copy, Debug, PartialEq, Eq, Structural)]
pub enum SendError {
    /// The serialized packet exceeds [`MAX_PACKET_SIZE`].
    PacketTooLarge,
    /// The codec refused the data; the output is untouched.
    CompressionFailed,
}

/// Whether a packet of `len` serialized bytes is compressed under
/// `threshold`: compression is configured (not negative), the packet has
/// reached the threshold, and there is something to compress.
pub open spec fn compresses(threshold: i32, len: nat) -> bool {
    threshold >= 0 && len >= threshold && len > 0
}

/// The frame of an uncompressed packet under a configured threshold: the
/// data behind a zero marker, behind the total length.
pub open spec fn uncompressed_frame(data: Seq<u8>) -> Seq<u8> {
    varint_bytes(data.len() + 1) + seq![0u8] + data
}

/// The frame of a compressed packet: the zlib stream `z` behind the
/// declared uncompressed length, behind the total length.
pub open spec fn compressed_frame(dlen: nat, z: Seq<u8>) -> Seq<u8> {
    varint_bytes(varint_bytes(dlen).len() + z.len()) + varint_bytes(dlen) + z
}

/// The frame of a packet when no compression is configured at all: the
/// data behind its length.
pub open spec fn plain_frame(data: Seq<u8>) -> Seq<u8> {
    varint_bytes(data.len()) + data
}

/// What a conformant receiver makes of a frame in the compressed
/// convention: the serialized packet bytes, or nothing for a damaged frame.
pub open spec fn spec_decode_packet(frame: Seq<u8>) -> Option<Seq<u8>> {
    match varint_parse(frame) {
        Some((plen, pc)) => {
            if frame.len() == pc + plen {
                match varint_parse(frame.skip(pc as int)) {
                    Some((dlen, dc)) => {
                        let body = frame.skip((pc + dc) as int);
                        if dlen == 0 {
                            Some(body)
                        } else if dlen <= usize::MAX {
                            match zlib_inflate_of(body) {
                                Some(v) => {
                                    if v.len() == dlen {
                                        Some(v)
                                    } else {
                                        None
                                    }
                                },
                                None => None,
                            }
                        } else {
                            None
                        }
                    },
                    None => None,
                }
            } else {
                None
            }
        },
        None => None,
    }
}

/// What a conformant receiver makes of a frame in the plain convention.
pub open spec fn spec_decode_plain_packet(frame: Seq<u8>) -> Option<Seq<u8>> {
    match varint_parse(frame) {
        Some((n, nc)) => {
            if frame.len() == nc + n {
                Some(frame.skip(nc as int))
            } else {
                None
            }
        },
        None => None,
    }
}

/// A packet kept uncompressed — any packet below the threshold — frames to
/// bytes that decode back to the byte-identical serialized packet.
pub proof fn lemma_uncompressed_frame_decodes(data: Seq<u8>)
    ensures
        spec_decode_packet(uncompressed_frame(data)) == Some(data),
{
    let f = uncompressed_frame(data);
    let marker = seq![0u8] + data;
    assert(f =~= varint_bytes(data.len() + 1) + marker);
    lemma_varint_roundtrip(data.len() + 1, marker);
    let pc = varint_bytes(data.len() + 1).len();
    assert(f.skip(pc as int) =~= marker);
    assert(marker[0] == 0);
    assert(varint_parse(marker) == Some((0 as nat, 1 as nat)));
    assert(f.skip((pc + 1) as int) =~= data);
}

/// A packet at or above the threshold frames to a compressed form whose
/// declared length is the uncompressed size, and decompressing it gives
/// byte-identical bytes to the uncompressed serialization.
pub proof fn lemma_compressed_frame_decodes(data: Seq<u8>, z: Seq<u8>)
    requires
        zlib_inflate_of(z) == Some(data),
        1 <= data.len() <= usize::MAX,
    ensures
        spec_decode_packet(compressed_frame(data.len(), z)) == Some(data),
{
    let dl = varint_bytes(data.len());
    let f = compressed_frame(data.len(), z);
    assert(f =~= varint_bytes(dl.len() + z.len()) + (dl + z));
    lemma_varint_roundtrip(dl.len() + z.len(), dl + z);
    let pc = varint_bytes(dl.len() + z.len()).len();
    assert(f.skip(pc as int) =~= dl + z);
    lemma_varint_roundtrip(data.len(), z);
    assert(f.skip((pc + dl.len()) as int) =~= z);
}

/// A packet framed without compression decodes back to the byte-identical
/// serialized packet.
pub proof fn lemma_plain_frame_decodes(data: Seq<u8>)
    ensures
        spec_decode_plain_packet(plain_frame(data)) == Some(data),
{
    lemma_varint_roundtrip(data.len(), data);
    assert(plain_frame(data) =~= varint_bytes(data.len()) + data);
    let nc = varint_bytes(data.len()).len();
    assert(plain_frame(data).skip(nc as int) =~= data);
}

/// Serializes packets into on-wire frames under one compression threshold.
pub struct PacketEncoder {
    /// Minimum serialized size, in bytes, at which compression is applied;
    /// negative turns compression off.
    pub threshold: i32,
}

impl PacketEncoder {
    /// An encoder with the given compression threshold.
    pub fn new(threshold: i32) -> (r: Self)
        ensures
            r.threshold == threshold,
    {
        PacketEncoder { threshold }
    }

    /// The configured compression threshold.
    pub fn compression_threshold(&self) -> (r: i32)
        ensures
            r == self.threshold,
    {
        self.threshold
    }

    /// Appends the frame of `data` to `out`: compressed through
    /// `compressor` when `data` has reached the threshold, raw behind a
    /// zero marker otherwise. On failure `out` is untouched.
    pub fn append_packet(
        &self,
        data: &[u8],
        out: &mut Vec<u8>,
        compressor: &mut libdeflater::Compressor,
    ) -> (r: Result<(), SendError>)
        ensures
            match r {
                Ok(()) => {
                    &&& data@.len() <= MAX_PACKET_SIZE
                    &&& if compresses(self.threshold, data@.len()) {
                        exists|z: Seq<u8>|
                            #![auto]
                            {
                                &&& zlib_inflate_of(z) == Some(data@)
                                &&& final(out)@ == old(out)@ + compressed_frame(data@.len(), z)
                            }
                    } else {
                        final(out)@ == old(out)@ + uncompressed_frame(data@)
                    }
                },
                Err(e) => {
                    &&& final(out)@ == old(out)@
                    &&& e is PacketTooLarge ==> data@.len() > MAX_PACKET_SIZE
                    &&& e is CompressionFailed ==> compresses(self.threshold, data@.len())
                },
            },
            data@.len() <= MAX_PACKET_SIZE && !compresses(self.threshold, data@.len()) ==> r is Ok,
    {
        let len = data.len();
        if len > MAX_PACKET_SIZE {
            return Err(SendError::PacketTooLarge);
        }
        if self.threshold >= 0 && len > 0 && len >= self.threshold as usize {
            match zlib_compress_vec(compressor, data) {
                Some(z) => {
                    let zlen = z.len();
                    if zlen > usize::MAX - 11 {
                        return Err(SendError::CompressionFailed);
                    }
                    let mut dl: Vec<u8> = Vec::new();
                    write_varint(&mut dl, len as u64);
                    proof {
                        lemma_varint_bytes_len_u64(len as nat);
                    }
                    write_varint(out, (dl.len() + zlen) as u64);
                    push_all(out, dl.as_slice());
                    push_all(out, z.as_slice());
                    assert(final(out)@ =~= old(out)@ + compressed_frame(data@.len(), z@));
                    Ok(())
                },
                None => Err(SendError::CompressionFailed),
            }
        } else {
            write_varint(out, (len + 1) as u64);
            out.push(0);
            push_all(out, data);
            assert(final(out)@ =~= old(out)@ + uncompressed_frame(data@));
            Ok(())
        }
    }
}

/// Appends the plain frame of `data` to `out`, bypassing the compressor
/// entirely. On failure `out` is untouched.
pub fn append_packet_without_compression(data: &[u8], out: &mut Vec<u8>) -> (r: Result<
    (),
    SendError,
>)
    ensures
        r is Ok <==> data@.len() <= MAX_PACKET_SIZE,
        r matches Ok(()) ==> final(out)@ == old(out)@ + plain_frame(data@),
        r is Err ==> final(out)@ == old(out)@ && r == Err::<(), SendError>(
            SendError::PacketTooLarge,
        ),
{
    let len = data.len();
    if len > MAX_PACKET_SIZE {
        return Err(SendError::PacketTooLarge);
    }
    write_varint(out, len as u64);
    push_all(out, data);
    assert(final(out)@ =~= old(out)@ + plain_frame(data@));
    Ok(())
}

/// Decodes one frame of the compressed convention, decompressing a marked
/// body through the codec: a conformant receiver's view of the frame.
pub fn decode_packet_frame(frame: &[u8]) -> (r: Option<Vec<u8>>)
    ensures
        match r {
            Some(v) => spec_decode_packet(frame@) == Some(v@),
            None => spec_decode_packet(frame@) is None,
        },
{
    let total = frame.len();
    assert(frame@.len() == total);
    assert(frame@.skip(0) =~= frame@);
    match read_varint(frame, 0) {
        Some((plen, pc)) => {
            if plen == (total - pc) as u64 {
                match read_varint(frame, pc) {
                    Some((dlen, dc)) => {
                        let body = slice_subrange(frame, pc + dc, total);
                        proof {
                            assert(body@ =~= frame@.skip((pc + dc) as int));
                        }
                        if dlen == 0 {
                            Some(copy_bytes(body))
                        } else if dlen <= usize::MAX as u64 {
                            zlib_decompress_vec(body, dlen as usize)
                        } else {
                            None
                        }
                    },
                    None => None,
                }
            } else {
                None
            }
        },
        None => None,
    }
}

/// Decodes one frame of the plain convention.
pub fn decode_plain_packet_frame(frame: &[u8]) -> (r: Option<Vec<u8>>)
    ensures
        match r {
            Some(v) => spec_decode_plain_packet(frame@) == Some(v@),
            None => spec_decode_plain_packet(frame@) is None,
        },
{
    let total = frame.len();
    assert(frame@.len() == total);
    assert(frame@.skip(0) =~= frame@);
    match read_varint(frame, 0) {
        Some((n, nc)) => {
            if n == (total - nc) as u64 {
                let body = slice_subrange(frame, nc, total);
                proof {
                    assert(body@ =~= frame@.skip(nc as int));
                }
                Some(copy_bytes(body))
            } else {
                None
            }
        },
        None => None,
    }
}

} // verus!
