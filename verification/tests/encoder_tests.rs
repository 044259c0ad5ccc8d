use hyperion_core::deflate::{new_compression_level, new_compressor};
use hyperion_core::encoder::{
    append_packet_without_compression, decode_packet_frame, decode_plain_packet_frame,
    PacketEncoder, SendError, MAX_PACKET_SIZE,
};
use hyperion_core::varint::read_varint;

#[test]
fn below_threshold_frame_is_uncompressed_and_decodes_back() {
    let encoder = PacketEncoder::new(10);
    let mut compressor = new_compressor(new_compression_level(6).unwrap());
    let data = [1u8, 2, 3, 4];
    let mut out = Vec::new();
    encoder.append_packet(&data, &mut out, &mut compressor).unwrap();
    // total length 5, zero marker meaning "not compressed", then the bytes
    assert_eq!(out, vec![5, 0, 1, 2, 3, 4]);
    let decoded = decode_packet_frame(&out).expect("conformant frame");
    assert_eq!(decoded, data.to_vec());
}

#[test]
fn at_threshold_frame_is_compressed_and_decompresses_back() {
    let encoder = PacketEncoder::new(16);
    let mut compressor = new_compressor(new_compression_level(6).unwrap());
    let data = vec![7u8; 64];
    let mut out = Vec::new();
    encoder.append_packet(&data, &mut out, &mut compressor).unwrap();

    // the declared uncompressed length follows the total length and is
    // nonzero: the frame is flagged compressed
    let (_total, used) = read_varint(&out, 0).unwrap();
    let (declared, _) = read_varint(&out, used).unwrap();
    assert_eq!(declared, 64);

    let decoded = decode_packet_frame(&out).expect("conformant frame");
    assert_eq!(decoded, data);
}

#[test]
fn zero_threshold_compresses_any_nonempty_packet() {
    let encoder = PacketEncoder::new(0);
    let mut compressor = new_compressor(new_compression_level(6).unwrap());
    let data = vec![3u8, 1, 4, 1, 5, 9, 2, 6];
    let mut out = Vec::new();
    encoder.append_packet(&data, &mut out, &mut compressor).unwrap();
    let (_total, used) = read_varint(&out, 0).unwrap();
    let (declared, _) = read_varint(&out, used).unwrap();
    assert_eq!(declared, 8);
    assert_eq!(decode_packet_frame(&out).unwrap(), data);
}

#[test]
fn disabled_threshold_keeps_packets_raw() {
    let encoder = PacketEncoder::new(-1);
    let mut compressor = new_compressor(new_compression_level(6).unwrap());
    let data = vec![9u8; 300];
    let mut out = Vec::new();
    encoder.append_packet(&data, &mut out, &mut compressor).unwrap();
    let (_total, used) = read_varint(&out, 0).unwrap();
    let (declared, _) = read_varint(&out, used).unwrap();
    assert_eq!(declared, 0);
    assert_eq!(decode_packet_frame(&out).unwrap(), data);
}

#[test]
fn plain_frame_bypasses_the_compressor() {
    let data = [1u8, 2, 3, 4];
    let mut out = Vec::new();
    append_packet_without_compression(&data, &mut out).unwrap();
    assert_eq!(out, vec![4, 1, 2, 3, 4]);
    assert_eq!(decode_plain_packet_frame(&out).unwrap(), data.to_vec());
}

#[test]
fn oversized_packets_are_rejected_without_output() {
    let encoder = PacketEncoder::new(-1);
    let mut compressor = new_compressor(new_compression_level(6).unwrap());
    let data = vec![0u8; MAX_PACKET_SIZE + 1];
    let mut out = Vec::new();
    assert_eq!(
        encoder.append_packet(&data, &mut out, &mut compressor),
        Err(SendError::PacketTooLarge)
    );
    assert!(out.is_empty());
    assert_eq!(
        append_packet_without_compression(&data, &mut out),
        Err(SendError::PacketTooLarge)
    );
    assert!(out.is_empty());
}

#[test]
fn compression_levels_outside_the_codec_range_are_refused() {
    assert!(new_compression_level(0).is_some());
    assert!(new_compression_level(12).is_some());
    assert!(new_compression_level(13).is_none());
    assert!(new_compression_level(-1).is_none());
}
