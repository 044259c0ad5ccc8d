use hyperion_core::decode::decode_length_delimited;
use hyperion_core::varint::{read_varint, write_varint};
use hyperion_core::wire::{encode_length_delimited, ChunkPosition, ServerToProxy};

#[test]
fn varint_small_values_are_single_bytes() {
    let mut out = Vec::new();
    write_varint(&mut out, 0);
    write_varint(&mut out, 1);
    write_varint(&mut out, 127);
    assert_eq!(out, vec![0u8, 1, 127]);
}

#[test]
fn varint_multi_byte_encoding() {
    let mut out = Vec::new();
    write_varint(&mut out, 300);
    assert_eq!(out, vec![0xACu8, 0x02]);

    let mut big = Vec::new();
    write_varint(&mut big, u64::MAX);
    assert_eq!(big.len(), 10);
}

#[test]
fn varint_round_trip() {
    for value in [0u64, 1, 127, 128, 300, 65535, 1 << 21, u64::MAX] {
        let mut out = Vec::new();
        write_varint(&mut out, value);
        let (read, used) = read_varint(&out, 0).expect("value encoded by write_varint");
        assert_eq!(read, value);
        assert_eq!(used, out.len());
    }
}

#[test]
fn varint_rejects_truncated_input() {
    assert_eq!(read_varint(&[0x80], 0), None);
    assert_eq!(read_varint(&[], 0), None);
}

#[test]
fn unicast_frame_exact_bytes() {
    let frame = ServerToProxy::Unicast { data: vec![0xAA, 0xBB], stream: 7, order: 3 };
    let mut out = Vec::new();
    encode_length_delimited(&frame, &mut out);
    // message: data field (0x0A, len 2, bytes), stream field (0x10, 7),
    // order field (0x18, 3); envelope: field 1 key 0x0A, message length 8;
    // frame: envelope length 10 in front.
    assert_eq!(out, vec![10, 0x0A, 8, 0x0A, 2, 0xAA, 0xBB, 0x10, 7, 0x18, 3]);
}

#[test]
fn set_receive_broadcasts_frame_exact_bytes() {
    let frame = ServerToProxy::SetReceiveBroadcasts { stream: 9 };
    let mut out = Vec::new();
    encode_length_delimited(&frame, &mut out);
    assert_eq!(out, vec![4, 0x2A, 2, 0x08, 9]);
}

fn round_trip(frame: &ServerToProxy) -> ServerToProxy {
    let mut out = Vec::new();
    encode_length_delimited(frame, &mut out);
    let (decoded, used) = decode_length_delimited(&out, 0).expect("round trip decodes");
    assert_eq!(used, out.len());
    decoded
}

#[test]
fn round_trip_unicast() {
    let decoded = round_trip(&ServerToProxy::Unicast {
        data: vec![1, 2, 3, 200],
        stream: u64::MAX,
        order: 42,
    });
    match decoded {
        ServerToProxy::Unicast { data, stream, order } => {
            assert_eq!(data, vec![1, 2, 3, 200]);
            assert_eq!(stream, u64::MAX);
            assert_eq!(order, 42);
        }
        _ => panic!("wrong variant"),
    }
}

#[test]
fn round_trip_multicast() {
    let decoded = round_trip(&ServerToProxy::Multicast {
        data: vec![9],
        stream: vec![1, 1, 300, u64::MAX, 0],
    });
    match decoded {
        ServerToProxy::Multicast { data, stream } => {
            assert_eq!(data, vec![9]);
            assert_eq!(stream, vec![1, 1, 300, u64::MAX, 0]);
        }
        _ => panic!("wrong variant"),
    }
}

#[test]
fn round_trip_multicast_empty_list() {
    let decoded = round_trip(&ServerToProxy::Multicast { data: vec![], stream: vec![] });
    match decoded {
        ServerToProxy::Multicast { data, stream } => {
            assert!(data.is_empty());
            assert!(stream.is_empty());
        }
        _ => panic!("wrong variant"),
    }
}

#[test]
fn round_trip_broadcast_global() {
    let decoded = round_trip(&ServerToProxy::BroadcastGlobal {
        data: vec![5, 6],
        optional: true,
        exclude: 12345,
    });
    match decoded {
        ServerToProxy::BroadcastGlobal { data, optional, exclude } => {
            assert_eq!(data, vec![5, 6]);
            assert!(optional);
            assert_eq!(exclude, 12345);
        }
        _ => panic!("wrong variant"),
    }
}

#[test]
fn round_trip_broadcast_local() {
    let decoded = round_trip(&ServerToProxy::BroadcastLocal {
        data: vec![1],
        taxicab_radius: 300,
        center: ChunkPosition::new(-17, 42),
        optional: false,
        exclude: 0,
    });
    match decoded {
        ServerToProxy::BroadcastLocal { data, taxicab_radius, center, optional, exclude } => {
            assert_eq!(data, vec![1]);
            assert_eq!(taxicab_radius, 300);
            assert_eq!(center, ChunkPosition::new(-17, 42));
            assert!(!optional);
            assert_eq!(exclude, 0);
        }
        _ => panic!("wrong variant"),
    }
}

#[test]
fn round_trip_set_receive_broadcasts() {
    let decoded = round_trip(&ServerToProxy::SetReceiveBroadcasts { stream: 77 });
    match decoded {
        ServerToProxy::SetReceiveBroadcasts { stream } => assert_eq!(stream, 77),
        _ => panic!("wrong variant"),
    }
}

#[test]
fn decode_rejects_garbage() {
    assert!(decode_length_delimited(&[0xFF], 0).is_none());
    assert!(decode_length_delimited(&[3, 1, 2, 3], 0).is_none());
}
