//! Trusted boundary to the `libdeflater` codec.
//!
//! Compression and decompression are done by libdeflate; this module
//! declares the types involved and wraps the calls the library makes. The
//! meaning of a zlib stream is captured by one name, [`zlib_inflate_of`]:
//! what decompressing the stream yields, a function of the bytes alone.

use vstd::prelude::*;

verus! {

#[verifier::external_type_specification]
#[verifier::external_body]
pub struct ExCompressor(libdeflater::Compressor);

#[verifier::external_type_specification]
#[verifier::external_body]
pub struct ExCompressionLvl(libdeflater::CompressionLvl);

/// What decompressing `b` as a zlib stream yields: the original bytes for
/// a well-formed stream, nothing otherwise. Decompression is a pure
/// function of the stream, so the name is sound.
pub uninterp spec fn zlib_inflate_of(b: Seq<u8>) -> Option<Seq<u8>>;

/// Relies on libdeflater's CompressionLvl::new: levels 0 through 12 are
/// accepted, every other value refused.
#[verifier::external_body]
pub fn new_compression_level(level: i32) -> (r: Option<libdeflater::CompressionLvl>)
    ensures
        r is Some <==> 0 <= level <= 12,
{
    libdeflater::CompressionLvl::new(level).ok()
}

/// Relies on libdeflater's Compressor::new: a fresh stateful compressor at
/// the given level.
#[verifier::external_body]
pub fn new_compressor(level: libdeflater::CompressionLvl) -> libdeflater::Compressor {
    libdeflater::Compressor::new(level)
}

/// Relies on libdeflater's Compressor::zlib_compress, sized by its
/// zlib_compress_bound: the zlib stream it produces decompresses back to
/// exactly the input.
#[verifier::external_body]
pub fn zlib_compress_vec(c: &mut libdeflater::Compressor, data: &[u8]) -> (r: Option<Vec<u8>>)
    ensures
        r matches Some(v) ==> zlib_inflate_of(v@) == Some(data@),
{
    let bound = c.zlib_compress_bound(data.len());
    let mut out = Vec::new();
    out.resize(bound, 0u8);
    match c.zlib_compress(data, &mut out) {
        Ok(n) => {
            out.truncate(n);
            Some(out)
        },
        Err(_) => None,
    }
}

/// Relies on libdeflater's Decompressor::zlib_decompress, on a fresh
/// Decompressor::new: succeeds exactly when `data` is a well-formed zlib
/// stream whose decompressed form has length `expected_len`, and then
/// returns that form.
#[verifier::external_body]
pub fn zlib_decompress_vec(data: &[u8], expected_len: usize) -> (r: Option<Vec<u8>>)
    ensures
        r matches Some(v) ==> {
            &&& zlib_inflate_of(data@) == Some(v@)
            &&& v@.len() == expected_len
        },
        r is None ==> !match zlib_inflate_of(data@) {
            Some(v) => v.len() == expected_len,
            None => false,
        },
{
    let mut d = libdeflater::Decompressor::new();
    let mut out = Vec::new();
    out.resize(expected_len, 0u8);
    match d.zlib_decompress(data, &mut out) {
        Ok(n) if n == expected_len => Some(out),
        _ => None,
    }
}

} // verus!
