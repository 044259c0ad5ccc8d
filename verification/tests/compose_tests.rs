use hyperion_core::decode::decode_length_delimited;
use hyperion_core::encoder::decode_packet_frame;
use hyperion_core::net::{Compose, NetworkStreamRef};
use hyperion_core::wire::{ChunkPosition, ServerToProxy};

fn decode_all(buf: &[u8]) -> Vec<ServerToProxy> {
    let mut frames = Vec::new();
    let mut pos = 0;
    while pos < buf.len() {
        let (frame, used) = decode_length_delimited(buf, pos).expect("complete frames");
        frames.push(frame);
        pos += used;
    }
    frames
}

#[test]
fn unicast_orders_count_up_from_zero() {
    let mut compose = Compose::with_workers(-1, 6, 1).unwrap();
    let mut stream = NetworkStreamRef::new(5);
    for _ in 0..5 {
        compose.unicast(&[1, 2, 3], &mut stream, 0).unwrap();
    }
    let bufs = compose.split();
    let frames = decode_all(&bufs[0]);
    assert_eq!(frames.len(), 5);
    for (i, frame) in frames.iter().enumerate() {
        match frame {
            ServerToProxy::Unicast { data, stream, order } => {
                assert_eq!(*stream, 5);
                assert_eq!(*order, i as u64);
                // threshold disabled: the payload is the zero-marked raw frame
                assert_eq!(data, &vec![4, 0, 1, 2, 3]);
            }
            _ => panic!("expected unicast frames"),
        }
    }
}

#[test]
fn broadcast_with_exclusion_yields_one_global_frame() {
    let mut compose = Compose::with_workers(-1, 6, 1).unwrap();
    let s = NetworkStreamRef::new(11);
    let builder = compose.broadcast(&[42]).exclude(&s);
    builder.send(&mut compose, 0).unwrap();
    let bufs = compose.split();
    let frames = decode_all(&bufs[0]);
    assert_eq!(frames.len(), 1);
    match &frames[0] {
        ServerToProxy::BroadcastGlobal { data, optional, exclude } => {
            assert_eq!(*exclude, 11);
            assert!(!*optional);
            assert_eq!(data, &vec![2, 0, 42]);
        }
        _ => panic!("expected a global broadcast frame"),
    }
}

#[test]
fn broadcast_optional_mark_is_carried() {
    let mut compose = Compose::with_workers(-1, 6, 1).unwrap();
    let builder = compose.broadcast(&[1]).optional();
    builder.send(&mut compose, 0).unwrap();
    let bufs = compose.split();
    match &decode_all(&bufs[0])[..] {
        [ServerToProxy::BroadcastGlobal { optional, exclude, .. }] => {
            assert!(*optional);
            assert_eq!(*exclude, 0);
        }
        _ => panic!("expected one global broadcast frame"),
    }
}

#[test]
fn broadcast_local_carries_radius_and_center_into_its_own_buffer() {
    let mut compose = Compose::with_workers(-1, 6, 2).unwrap();
    let center = ChunkPosition::new(3, -4);
    let builder = compose.broadcast_local(&[9], center).radius(5);
    builder.send(&mut compose, 1).unwrap();
    let bufs = compose.split();
    assert!(bufs[0].is_empty(), "other workers' buffers stay untouched");
    let frames = decode_all(&bufs[1]);
    assert_eq!(frames.len(), 1);
    match &frames[0] {
        ServerToProxy::BroadcastLocal { taxicab_radius, center: c, optional, exclude, .. } => {
            assert_eq!(*taxicab_radius, 5);
            assert_eq!(*c, center);
            assert!(!*optional);
            assert_eq!(*exclude, 0);
        }
        _ => panic!("expected a local broadcast frame"),
    }
}

#[test]
fn multicast_accepts_an_empty_target_list() {
    let mut compose = Compose::with_workers(-1, 6, 1).unwrap();
    compose.multicast(&[8], &[], 0).unwrap();
    let bufs = compose.split();
    let frames = decode_all(&bufs[0]);
    assert_eq!(frames.len(), 1);
    match &frames[0] {
        ServerToProxy::Multicast { stream, .. } => assert!(stream.is_empty()),
        _ => panic!("expected a multicast frame"),
    }
}

#[test]
fn multicast_extracts_ids_in_order_with_duplicates() {
    let mut compose = Compose::with_workers(-1, 6, 1).unwrap();
    let targets = [
        NetworkStreamRef::new(3),
        NetworkStreamRef::new(1),
        NetworkStreamRef::new(3),
    ];
    compose.multicast(&[8], &targets, 0).unwrap();
    let bufs = compose.split();
    match &decode_all(&bufs[0])[..] {
        [ServerToProxy::Multicast { stream, .. }] => assert_eq!(stream, &vec![3, 1, 3]),
        _ => panic!("expected one multicast frame"),
    }
}

#[test]
fn drain_is_idempotent() {
    let mut compose = Compose::with_workers(-1, 6, 2).unwrap();
    let mut stream = NetworkStreamRef::new(1);
    compose.unicast(&[1], &mut stream, 0).unwrap();
    let first = compose.split();
    assert!(!first[0].is_empty());
    let second = compose.split();
    assert_eq!(second.len(), 2);
    assert!(second.iter().all(|b| b.is_empty()));
}

#[test]
fn unicast_no_compression_carries_the_plain_frame() {
    let mut compose = Compose::with_workers(0, 6, 1).unwrap();
    let mut stream = NetworkStreamRef::new(2);
    compose.unicast_no_compression(&[1, 2, 3, 4], &mut stream, 0).unwrap();
    let bufs = compose.split();
    match &decode_all(&bufs[0])[..] {
        [ServerToProxy::Unicast { data, order, .. }] => {
            assert_eq!(data, &vec![4, 1, 2, 3, 4]);
            assert_eq!(*order, 0);
        }
        _ => panic!("expected one unicast frame"),
    }
}

#[test]
fn compressed_unicast_payload_decompresses_to_the_packet() {
    let mut compose = Compose::with_workers(0, 6, 1).unwrap();
    let mut stream = NetworkStreamRef::new(2);
    let packet = vec![13u8; 100];
    compose.unicast(&packet, &mut stream, 0).unwrap();
    let bufs = compose.split();
    match &decode_all(&bufs[0])[..] {
        [ServerToProxy::Unicast { data, .. }] => {
            assert_eq!(decode_packet_frame(data).unwrap(), packet);
        }
        _ => panic!("expected one unicast frame"),
    }
}

#[test]
fn set_receive_broadcasts_emits_the_declaration() {
    let mut compose = Compose::with_workers(-1, 6, 1).unwrap();
    let stream = NetworkStreamRef::new(21);
    compose.set_receive_broadcasts(&stream, 0);
    let bufs = compose.split();
    match &decode_all(&bufs[0])[..] {
        [ServerToProxy::SetReceiveBroadcasts { stream }] => assert_eq!(*stream, 21),
        _ => panic!("expected one subscription frame"),
    }
}

#[test]
fn codec_refuses_levels_it_does_not_have() {
    assert!(Compose::with_workers(-1, 13, 1).is_none());
    assert!(Compose::with_workers(-1, 6, 1).is_some());
}

#[test]
fn fresh_streams_start_at_order_zero() {
    let stream = NetworkStreamRef::new(77);
    assert_eq!(stream.stream_id(), 77);
}

#[test]
fn protocol_constants() {
    assert_eq!(hyperion_core::net::PROTOCOL_VERSION, 763);
    assert_eq!(hyperion_core::net::MINECRAFT_VERSION, "1.20.1");
    assert_eq!(hyperion_core::net::MAX_PACKET_SIZE, 2097152);
}

#[test]
fn configuration_and_buffer_accessors() {
    let mut compose = Compose::with_workers(100, 6, 1).unwrap();
    assert_eq!(compose.global().compression_threshold, 100);
    compose.global_mut().compression_threshold = -1;
    assert_eq!(compose.global().compression_threshold, -1);
    assert_eq!(compose.io_buf().worker_count(), 1);
    let bufs = compose.io_buf_mut().split();
    assert_eq!(bufs.len(), 1);
}
