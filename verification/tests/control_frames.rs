use libwifi::frame::components::MacAddress;
use libwifi::frame::{BlockAckInfo, BlockAckMode, Frame};
use libwifi::{parse_frame, Addresses, Error};

#[test]
fn control_frames_test_rts() {
    let payload = [
        180, 0, // FrameControl
        158, 0, // Duration
        116, 66, 127, 77, 29, 45, // First Address
        20, 125, 218, 170, 84, 81, // Second Address
    ];

    let frame = parse_frame(&payload, false).expect("Payload should be valid");
    println!("{frame:?}");
    assert!(matches!(frame, Frame::Rts(_)));
    if let Frame::Rts(rts) = &frame {
        assert_eq!(rts.destination, MacAddress([0x74, 0x42, 0x7f, 0x4d, 0x1d, 0x2d]));
        assert_eq!(rts.source, MacAddress([0x14, 0x7d, 0xda, 0xaa, 0x54, 0x51]));
        assert_eq!(rts.duration, [158, 0]);
    }
    assert_eq!(frame.dest().to_string(), "74:42:7f:4d:1d:2d");
    assert_eq!(frame.src().unwrap().to_string(), "14:7d:da:aa:54:51");
    assert!(frame.bssid().is_none());
}

#[test]
fn control_frames_test_cts() {
    let payload = [
        196, 0, // FrameControl
        246, 14, // Duration
        224, 62, 68, 8, 195, 239, // First Address
    ];

    let frame = parse_frame(&payload, false).expect("Payload should be valid");
    println!("{frame:?}");
    assert!(matches!(frame, Frame::Cts(_)));
    assert_eq!(frame.dest(), &MacAddress([224, 62, 68, 8, 195, 239]));
    assert!(frame.src().is_none());
    assert!(frame.bssid().is_none());
}

#[test]
fn control_frames_test_ack() {
    let payload = [
        212, 0, // FrameControl
        0, 0, // Duration
        104, 217, 60, 214, 195, 239, // First Address
    ];

    let frame = parse_frame(&payload, false).expect("Payload should be valid");
    println!("{frame:?}");
    assert!(matches!(frame, Frame::Ack(_)));
    assert_eq!(frame.dest().to_string(), "68:d9:3c:d6:c3:ef");
    assert!(frame.src().is_none());
}

#[test]
fn test_single_tid_compressed_block_ack_request() {
    let payload = [
        132, 0, // FrameControl
        58, 1, // Duration
        192, 238, 251, 75, 207, 58, // First Address
        24, 29, 234, 198, 62, 190, // Second Address
        4, 0, // BlockAckRequest Control
        160, 15, // Starting sequence number of the single TID
    ];

    let frame = parse_frame(&payload, false).expect("Payload should be valid");
    println!("{frame:?}");
    assert!(matches!(frame, Frame::BlockAckRequest(_)));

    if let Frame::BlockAckRequest(inner) = frame {
        assert!(matches!(inner.mode, BlockAckMode::CompressedBlockAck));
    } else {
        panic!("invalid frame type");
    }
}

#[test]
fn test_single_tid_compressed_block_ack_request_detailed() {
    let payload = [
        132, 0, // FrameControl
        58, 1, // Duration
        192, 238, 251, 75, 207, 58, // First Address
        24, 29, 234, 198, 62, 190, // Second Address
        4, 0x10, // BlockAckRequest Control with TID=1
        160, 15, // Starting sequence number of the single TID
    ];

    let frame = parse_frame(&payload, false).expect("Payload should be valid");
    println!("{frame:?}");
    assert!(matches!(frame, Frame::BlockAckRequest(_)));

    if let Frame::BlockAckRequest(inner) = frame {
        assert!(matches!(inner.mode, BlockAckMode::CompressedBlockAck));
        assert!(inner.requested_tids.len() == 1);
        let (tid, seq) = inner.requested_tids.first().unwrap();
        assert!(*tid == 1);
        assert!(seq.fragment_number == 0);
        assert!(seq.sequence_number == 250);
    } else {
        panic!("invalid frame type");
    }
}

#[test]
fn test_compressed_bitmap_block_ack() {
    let payload = [
        148, 0, // FrameControl
        0, 0, // Duration
        192, 238, 251, 75, 207, 58, // First Address
        248, 50, 228, 173, 71, 184, // Second Address
        5, 0, // BlockAck Control
        144, 4, // BlockAck starting sequence control
        1, 0, 0, 0, 0, 0, 0, 0, // BlockAck Bitmap
    ];

    let frame = parse_frame(&payload, false).expect("Payload should be valid");
    println!("{frame:?}");
    assert!(matches!(frame, Frame::BlockAck(_)));

    if let Frame::BlockAck(inner) = frame {
        assert!(matches!(inner.mode, BlockAckMode::CompressedBlockAck));
    } else {
        panic!("invalid frame type");
    }
}

#[test]
fn test_compressed_bitmap_block_ack_detailed() {
    let payload = [
        148, 0, // FrameControl
        0, 0, // Duration
        192, 238, 251, 75, 207, 58, // First Address
        248, 50, 228, 173, 71, 184, // Second Address
        5, 0x10, // BlockAck Control with tid=1
        144, 4, // BlockAck starting sequence control, seqnr 73, fragment 0
        0x3f, 0, 0, 0, 0, 0, 0, 0, // BlockAck Bitmap, ACK first 6 frames
    ];

    let frame = parse_frame(&payload, false).expect("Payload should be valid");
    println!("{frame:?}");
    assert!(matches!(frame, Frame::BlockAck(_)));

    if let Frame::BlockAck(inner) = frame {
        assert!(matches!(inner.mode, BlockAckMode::CompressedBlockAck));
        assert!(inner.policy); // immediate ack is set

        if let BlockAckInfo::Compressed(acks) = inner.acks {
            assert!(acks.len() == 1);

            let (tid, start_seq, bitmap) = acks.first().unwrap();
            assert!(*tid == 1);
            assert!(start_seq.fragment_number == 0);
            assert!(start_seq.sequence_number == 73);

            let mut acked: Vec<u16> = Vec::new();
            for i in 0..64 {
                if (bitmap & (1 << i)) > 0 {
                    acked.push(start_seq.sequence_number + i);
                }
            }
            assert!(acked == vec![73, 74, 75, 76, 77, 78]);
        } else {
            panic!("BlockAckInfo had wrong type");
        }
    } else {
        panic!("invalid frame type");
    }
}

#[test]
fn control_frames_test_block_ack_request() {
    let payload = [
        132, 0, // FrameControl
        58, 1, // Duration
        192, 238, 251, 75, 207, 58, // First Address
        24, 29, 234, 198, 62, 190, // Second Address
        4, 0, 160, 15, // FCS
    ];
    // With the last four bytes set aside as the frame check sequence, the frame ends
    // before its control field.
    match parse_frame(&payload, true) {
        Err(Error::Incomplete(expected, remaining)) => {
            assert_eq!(expected, 16);
            assert_eq!(remaining, 14);
        }
        other => panic!("unexpected result {other:?}"),
    }
}

#[test]
fn control_frames_test_block_ack() {
    let payload = [
        148, 0, // FrameControl
        0, 0, // Duration
        192, 238, 251, 75, 207, 58, // First Address
        248, 50, 228, 173, 71, 184, // Second Address
        5, 0, 144, 4, 1, 0, 0, 0, 0, 0, 0, 0,
    ];
    let frame = parse_frame(&payload, false).expect("Payload should be valid");
    if let Frame::BlockAck(inner) = frame {
        assert!(inner.policy);
        assert_eq!(inner.source, MacAddress([248, 50, 228, 173, 71, 184]));
        assert_eq!(inner.destination, MacAddress([192, 238, 251, 75, 207, 58]));
        if let BlockAckInfo::Compressed(acks) = inner.acks {
            assert_eq!(acks.len(), 1);
            assert_eq!(acks[0].0, 0);
            assert_eq!(acks[0].1.sequence_number, 73);
            assert_eq!(acks[0].2, 1);
        } else {
            panic!("BlockAckInfo had wrong type");
        }
    } else {
        panic!("invalid frame type");
    }
}

#[test]
fn multi_tid_block_ack_request_reads_every_entry() {
    let payload = [
        132, 0, 0, 0, 1, 2, 3, 4, 5, 6, 7, 8, 9, 10, 11, 12, // header
        6, 0x10, // multi-TID, compressed, two entries
        0, 0x30, 0x21, 0x43, // TID 3, fragment 1, sequence 0x432
        0, 0x70, 0xf0, 0xff, // TID 7, fragment 0, sequence 0xfff
    ];
    let frame = parse_frame(&payload, false).expect("Payload should be valid");
    if let Frame::BlockAckRequest(inner) = &frame {
        assert_eq!(inner.mode, BlockAckMode::MultiTidBlockAck);
        assert!(!inner.policy);
        assert_eq!(inner.requested_tids.len(), 2);
        assert_eq!(inner.requested_tids[0].0, 3);
        assert_eq!(inner.requested_tids[0].1.fragment_number, 1);
        assert_eq!(inner.requested_tids[0].1.sequence_number, 0x432);
        assert_eq!(inner.requested_tids[1].0, 7);
        assert_eq!(inner.requested_tids[1].1.sequence_number, 0xfff);
    } else {
        panic!("invalid frame type");
    }
    assert_eq!(frame.encode(), payload.to_vec());
}

#[test]
fn multi_tid_block_ack_request_needs_all_entries() {
    let payload = [
        132, 0, 0, 0, 1, 2, 3, 4, 5, 6, 7, 8, 9, 10, 11, 12, 6, 0x10, 0, 0x30, 0x21, 0x43,
    ];
    assert!(matches!(parse_frame(&payload, false), Err(Error::Incomplete(8, 4))));
}

#[test]
fn reserved_block_ack_mode_has_no_entries() {
    let payload = [132, 0, 0, 0, 1, 2, 3, 4, 5, 6, 7, 8, 9, 10, 11, 12, 2, 0, 9, 9];
    let frame = parse_frame(&payload, false).expect("Payload should be valid");
    if let Frame::BlockAckRequest(inner) = frame {
        assert_eq!(inner.mode, BlockAckMode::Reserved);
        assert!(inner.requested_tids.is_empty());
    } else {
        panic!("invalid frame type");
    }
}

#[test]
fn basic_block_ack_carries_128_bytes_of_bitmap() {
    let mut payload = vec![148, 0, 0, 0, 1, 2, 3, 4, 5, 6, 7, 8, 9, 10, 11, 12, 0, 0x20, 0x10, 0];
    for i in 0..128u8 {
        payload.push(i);
    }
    let frame = parse_frame(&payload, false).expect("Payload should be valid");
    if let Frame::BlockAck(inner) = &frame {
        assert_eq!(inner.mode, BlockAckMode::BasicBlockAck);
        if let BlockAckInfo::Basic(acks) = &inner.acks {
            assert_eq!(acks.len(), 1);
            assert_eq!(acks[0].0, 2);
            assert_eq!(acks[0].1.sequence_number, 1);
            assert_eq!(acks[0].2[0], 0);
            assert_eq!(acks[0].2[127], 127);
        } else {
            panic!("BlockAckInfo had wrong type");
        }
    } else {
        panic!("invalid frame type");
    }
    assert_eq!(frame.encode(), payload);
    payload.pop();
    assert!(matches!(parse_frame(&payload, false), Err(Error::Incomplete(130, 129))));
}

#[test]
fn control_frames_round_trip() {
    let frames: Vec<Vec<u8>> = vec![
        vec![180, 0, 158, 0, 116, 66, 127, 77, 29, 45, 20, 125, 218, 170, 84, 81],
        vec![196, 0, 246, 14, 224, 62, 68, 8, 195, 239],
        vec![212, 0, 0, 0, 104, 217, 60, 214, 195, 239],
        vec![
            132, 0, 58, 1, 192, 238, 251, 75, 207, 58, 24, 29, 234, 198, 62, 190, 4, 0x10, 160, 15,
        ],
        vec![
            148, 0, 0, 0, 192, 238, 251, 75, 207, 58, 248, 50, 228, 173, 71, 184, 5, 0x10, 144, 4,
            0x3f, 0, 0, 0, 0, 0, 0, 0,
        ],
    ];
    for bytes in frames {
        let frame = parse_frame(&bytes, false).expect("Payload should be valid");
        assert_eq!(frame.encode(), bytes);
    }
}
