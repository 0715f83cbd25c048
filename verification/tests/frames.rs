use libwifi::frame::components::{FrameControl, MacAddress, SequenceControl};
use libwifi::frame::Frame;
use libwifi::parsers::{
    parse_data_header, parse_frame_control, parse_mac, parse_management_header,
    parse_sequence_control,
};
use libwifi::{
    parse_frame, parse_frame_body, Addresses, Error, FrameProtocolVersion, FrameSubType,
    FrameType,
};

#[test]
fn empty_input_is_incomplete() {
    assert!(matches!(parse_frame(&[], false), Err(Error::Incomplete(2, 0))));
    assert!(matches!(parse_frame(&[], true), Err(Error::Incomplete(4, 0))));
    assert!(matches!(parse_frame(&[1, 2, 3], true), Err(Error::Incomplete(4, 3))));
    assert!(matches!(parse_frame(&[212, 0, 0, 0], true), Err(Error::Incomplete(2, 0))));
    assert!(matches!(parse_frame(&[212], false), Err(Error::Incomplete(2, 1))));
}

#[test]
fn ack_without_addresses_is_incomplete() {
    assert!(matches!(parse_frame(&[0xd4, 0x00], false), Err(Error::Incomplete(8, 0))));
    assert!(matches!(
        parse_frame(&[0xd4, 0x00, 0, 0, 1, 2, 3, 4, 5], false),
        Err(Error::Incomplete(8, 7))
    ));
}

#[test]
fn frame_check_sequence_is_set_aside() {
    let payload = [212, 0, 0, 0, 104, 217, 60, 214, 195, 239, 0xde, 0xad, 0xbe, 0xef];
    let frame = parse_frame(&payload, true).expect("Payload should be valid");
    assert!(matches!(frame, Frame::Ack(_)));
    assert_eq!(frame.encode(), payload[..10].to_vec());
}

#[test]
fn unhandled_subtypes_carry_the_bytes() {
    // A PS-Poll: control frame, subtype 10.
    match parse_frame(&[0xa4, 0x00, 1, 2, 3], false) {
        Err(Error::UnhandledFrameSubtype(frame_control, bytes)) => {
            assert_eq!(frame_control.frame_type, FrameType::Control);
            assert_eq!(frame_control.frame_subtype, FrameSubType::PsPoll);
            assert_eq!(bytes, vec![1, 2, 3]);
        }
        other => panic!("unexpected result {other:?}"),
    }
    // An extension frame.
    match parse_frame(&[0x0c, 0x00], false) {
        Err(Error::UnhandledFrameSubtype(frame_control, bytes)) => {
            assert_eq!(frame_control.frame_type, FrameType::Extension);
            assert_eq!(frame_control.frame_subtype, FrameSubType::DMGBeacon);
            assert!(bytes.is_empty());
        }
        other => panic!("unexpected result {other:?}"),
    }
}

#[test]
fn every_first_byte_decodes_and_encodes_back() {
    for first in 0..=255u8 {
        let input = [first, 0xa5, 9];
        let (rest, frame_control) = parse_frame_control(&input).unwrap();
        assert_eq!(rest, &[9]);
        assert_eq!(frame_control.flags, 0xa5);
        assert_eq!(frame_control.encode(), [first, 0xa5]);
        assert_eq!(frame_control.frame_type.code(), (first >> 2) & 3);
        assert_eq!(frame_control.frame_subtype.code(), first >> 4);
        assert_eq!(frame_control.protocol_version.code(), first & 3);
    }
}

#[test]
fn frame_control_tables() {
    let subtype = |byte: u8| parse_frame_control(&[byte, 0]).unwrap().1.frame_subtype;
    assert_eq!(subtype(0x80), FrameSubType::Beacon);
    assert_eq!(subtype(0x70), FrameSubType::Reserved(7));
    assert_eq!(subtype(0xf0), FrameSubType::Reserved(15));
    assert_eq!(subtype(0x04), FrameSubType::Reserved(0));
    assert_eq!(subtype(0x24), FrameSubType::Trigger);
    assert_eq!(subtype(0xd8), FrameSubType::Reserved(13));
    assert_eq!(subtype(0xe8), FrameSubType::QosCfPoll);
    assert_eq!(subtype(0x1c), FrameSubType::S1GBeacon);
    assert_eq!(subtype(0x2c), FrameSubType::Reserved(2));
    assert_eq!(subtype(0xd0), FrameSubType::Action);
    let version = |byte: u8| parse_frame_control(&[byte, 0]).unwrap().1.protocol_version;
    assert_eq!(version(0x80), FrameProtocolVersion::PV0);
    assert_eq!(version(0x83), FrameProtocolVersion::Unknown(3));
    assert!(FrameSubType::QosNull.is_qos());
    assert!(FrameSubType::QosCfAckCfPoll.is_qos());
    assert!(!FrameSubType::Data.is_qos());
    assert!(!FrameSubType::Reserved(13).is_qos());
    assert!(!FrameSubType::Beacon.is_qos());
}

#[test]
fn frame_control_flags() {
    let (_, frame_control) = parse_frame_control(&[0x08, 0b1010_0101]).unwrap();
    assert!(frame_control.to_ds());
    assert!(!frame_control.from_ds());
    assert!(frame_control.more_fragments());
    assert!(!frame_control.retry());
    assert!(!frame_control.power_mgmt());
    assert!(frame_control.more_data());
    assert!(!frame_control.protected());
    assert!(frame_control.order());
    assert!(matches!(parse_frame_control(&[8]), Err(Error::Incomplete(2, 1))));
}

#[test]
fn sequence_control_is_within_range() {
    for b0 in [0u8, 1, 0x0f, 0x10, 0xa0, 0xff] {
        for b1 in [0u8, 1, 0x0f, 0x80, 0xff] {
            let input = [b0, b1, 7];
            let (rest, sequence_control) = parse_sequence_control(&input).unwrap();
            assert_eq!(rest, &[7]);
            assert!(sequence_control.fragment_number <= 15);
            assert!(sequence_control.sequence_number <= 4095);
            assert_eq!(sequence_control.encode(), [b0, b1]);
        }
    }
    let (_, sequence_control) = parse_sequence_control(&[0xa3, 0x0f]).unwrap();
    assert_eq!(sequence_control, SequenceControl { fragment_number: 3, sequence_number: 250 });
    assert!(matches!(parse_sequence_control(&[1]), Err(Error::Incomplete(2, 1))));
}

#[test]
fn mac_from_bytes() {
    let (rest, mac) = parse_mac(&[1, 2, 3, 4, 5, 6, 7]).unwrap();
    assert_eq!(mac, MacAddress([1, 2, 3, 4, 5, 6]));
    assert_eq!(rest, &[7]);
    assert!(matches!(parse_mac(&[1, 2, 3, 4, 5]), Err(Error::Incomplete(6, 5))));
}

fn control_of(first: u8, flags: u8) -> FrameControl {
    parse_frame_control(&[first, flags]).unwrap().1
}

#[test]
fn management_header_and_its_addresses() {
    let bytes = [
        0x3a, 0x01, 1, 1, 1, 1, 1, 1, 2, 2, 2, 2, 2, 2, 3, 3, 3, 3, 3, 3, 0x21, 0x43, 0xee,
    ];
    let a1 = MacAddress([1; 6]);
    let a2 = MacAddress([2; 6]);
    let a3 = MacAddress([3; 6]);
    let (rest, header) = parse_management_header(control_of(0x80, 0), &bytes).unwrap();
    assert_eq!(rest, &[0xee]);
    assert_eq!(header.duration, [0x3a, 0x01]);
    assert_eq!(header.sequence_control.fragment_number, 1);
    assert_eq!(header.sequence_control.sequence_number, 0x432);
    assert_eq!((header.src(), header.dest(), header.bssid()), (Some(&a2), &a1, Some(&a3)));
    let mut encoded = vec![0x80, 0];
    encoded.extend_from_slice(&bytes[..22]);
    assert_eq!(header.encode(), encoded);
    let (_, header) = parse_management_header(control_of(0x80, 2), &bytes).unwrap();
    assert_eq!((header.src(), header.dest(), header.bssid()), (Some(&a3), &a1, Some(&a2)));
    let (_, header) = parse_management_header(control_of(0x80, 1), &bytes).unwrap();
    assert_eq!((header.src(), header.dest(), header.bssid()), (Some(&a2), &a3, Some(&a1)));
    let (_, header) = parse_management_header(control_of(0x80, 3), &bytes).unwrap();
    assert_eq!((header.src(), header.dest(), header.bssid()), (Some(&a3), &a3, Some(&a1)));
    assert!(matches!(
        parse_management_header(control_of(0x80, 0), &bytes[..21]),
        Err(Error::Incomplete(22, 21))
    ));
}

#[test]
fn data_header_with_fourth_address_and_qos() {
    let bytes = [
        0, 0, 1, 1, 1, 1, 1, 1, 2, 2, 2, 2, 2, 2, 3, 3, 3, 3, 3, 3, 0x10, 0x00, // fixed part
        4, 4, 4, 4, 4, 4, // fourth address
        0x05, 0x00, // QoS
        0xaa, 0xbb,
    ];
    let a1 = MacAddress([1; 6]);
    let a2 = MacAddress([2; 6]);
    let a3 = MacAddress([3; 6]);
    let a4 = MacAddress([4; 6]);
    // QoS data between access points: both flags set.
    let (rest, header) = parse_data_header(control_of(0x88, 3), &bytes).unwrap();
    assert_eq!(rest, &[0xaa, 0xbb]);
    assert_eq!(header.address_4, Some(a4));
    assert_eq!(header.qos, Some([5, 0]));
    assert_eq!((header.src(), header.dest(), header.bssid()), (Some(&a4), &a3, None));
    assert_eq!(header.sa(), Some(a4));
    assert_eq!(header.da(), a3);
    assert_eq!(header.ra(), a1);
    assert_eq!(header.ta(), a2);
    let mut encoded = vec![0x88, 3];
    encoded.extend_from_slice(&bytes[..30]);
    assert_eq!(header.encode(), encoded);
    // Plain data between access points: the fourth address, no QoS.
    let (rest, header) = parse_data_header(control_of(0x08, 3), &bytes).unwrap();
    assert_eq!(rest, &[5, 0, 0xaa, 0xbb]);
    assert_eq!(header.qos, None);
    // QoS data from a station: no fourth address, QoS right after the sequence control.
    let (rest, header) = parse_data_header(control_of(0x88, 1), &bytes).unwrap();
    assert_eq!(header.address_4, None);
    assert_eq!(header.qos, Some([4, 4]));
    assert_eq!(rest.len(), 8);
    assert_eq!((header.src(), header.dest(), header.bssid()), (Some(&a2), &a3, Some(&a1)));
    // From the distribution system, and within one network.
    let (_, header) = parse_data_header(control_of(0x08, 2), &bytes).unwrap();
    assert_eq!((header.src(), header.dest(), header.bssid()), (Some(&a3), &a1, Some(&a2)));
    let (_, header) = parse_data_header(control_of(0x08, 0), &bytes).unwrap();
    assert_eq!((header.src(), header.dest(), header.bssid()), (Some(&a2), &a1, Some(&a3)));
    assert!(matches!(
        parse_data_header(control_of(0x88, 3), &bytes[..21]),
        Err(Error::Incomplete(22, 21))
    ));
    assert!(matches!(
        parse_data_header(control_of(0x88, 3), &bytes[..27]),
        Err(Error::Incomplete(6, 5))
    ));
    assert!(matches!(
        parse_data_header(control_of(0x88, 3), &bytes[..29]),
        Err(Error::Incomplete(2, 1))
    ));
    assert!(matches!(
        parse_data_header(control_of(0x88, 0), &bytes[..23]),
        Err(Error::Incomplete(2, 1))
    ));
}

fn management(first: u8, body: &[u8]) -> Vec<u8> {
    let mut bytes = vec![
        first, 0, 0, 0, 1, 1, 1, 1, 1, 1, 2, 2, 2, 2, 2, 2, 3, 3, 3, 3, 3, 3, 0x10, 0x00,
    ];
    bytes.extend_from_slice(body);
    bytes
}

#[test]
fn management_bodies() {
    let elements = [0, 2, b'h', b'i'];
    let mut body = vec![0x64, 0, 0x11, 0x04];
    body.extend_from_slice(&elements);
    match parse_frame(&management(0x00, &body), false).unwrap() {
        Frame::AssociationRequest(request) => {
            assert_eq!(request.beacon_interval, 100);
            assert_eq!(request.capability_info, 0x0411);
            assert_eq!(request.station_info.ssid(), "hi");
        }
        other => panic!("unexpected frame {other:?}"),
    }
    match parse_frame(&management(0x20, &body), false).unwrap() {
        Frame::ReassociationRequest(request) => {
            assert_eq!(request.beacon_interval, 100);
            assert_eq!(request.capability_info, 0x0411);
        }
        other => panic!("unexpected frame {other:?}"),
    }
    let mut body = vec![0x11, 0x04, 0, 0, 0x02, 0xc0];
    body.extend_from_slice(&elements);
    match parse_frame(&management(0x10, &body), false).unwrap() {
        Frame::AssociationResponse(response) => {
            assert_eq!(response.capability_info, 0x0411);
            assert_eq!(response.status_code, 0);
            assert_eq!(response.association_id, 0xc002);
            assert_eq!(response.station_info.ssid(), "hi");
        }
        other => panic!("unexpected frame {other:?}"),
    }
    assert!(matches!(
        parse_frame(&management(0x30, &body), false).unwrap(),
        Frame::ReassociationResponse(_)
    ));
    match parse_frame(&management(0xa0, &[7, 0]), false).unwrap() {
        Frame::Disassociation(disassociation) => assert_eq!(disassociation.reason_code, 7),
        other => panic!("unexpected frame {other:?}"),
    }
    match parse_frame(&management(0xd0, &[4, 1, 2, 3]), false).unwrap() {
        Frame::Action(action) => {
            assert_eq!(action.category, 4);
            assert_eq!(action.body, vec![1, 2, 3]);
        }
        other => panic!("unexpected frame {other:?}"),
    }
    assert!(matches!(
        parse_frame(&management(0xe0, &[4]), false).unwrap(),
        Frame::ActionNoAck(_)
    ));
    assert!(matches!(
        parse_frame(&management(0xd0, &[]), false),
        Err(Error::Incomplete(1, 0))
    ));
    assert!(matches!(
        parse_frame(&management(0xc0, &[3]), false),
        Err(Error::Incomplete(2, 1))
    ));
    assert!(matches!(
        parse_frame(&management(0x80, &[0; 11]), false),
        Err(Error::Incomplete(12, 11))
    ));
    assert!(matches!(
        parse_frame(&management(0xb0, &[0; 5]), false),
        Err(Error::Incomplete(6, 5))
    ));
    assert!(matches!(
        parse_frame(&management(0x40, &[0, 9, 1, 2]), false),
        Err(Error::Failure(_, _))
    ));
}

#[test]
fn frames_round_trip() {
    let elements = [0, 2, b'h', b'i', 1, 2, 0x82, 0x0c, 3, 1, 6, 42, 2, 1, 2];
    let mut beacon = vec![1, 2, 3, 4, 5, 6, 7, 8, 0x64, 0, 0x11, 0x04];
    beacon.extend_from_slice(&elements);
    let mut response = vec![0x11, 0x04, 0, 0, 0x02, 0xc0];
    response.extend_from_slice(&elements);
    let frames = vec![
        management(0x80, &beacon),
        management(0x50, &beacon),
        management(0x40, &elements),
        management(0x00, &beacon[8..]),
        management(0x20, &beacon[8..]),
        management(0x10, &response),
        management(0x30, &response),
        management(0xb0, &response),
        management(0xb0, &response[..6]),
        management(0xc0, &[3, 0]),
        management(0xa0, &[7, 0]),
        management(0xd0, &[4, 1, 2, 3]),
        management(0xe0, &[4]),
        management(0x08, &[9, 9, 9]),
        management(0x48, &[]),
        management(0x88, &[1, 0, 9, 9]),
        management(0xc8, &[1, 0]),
    ];
    for bytes in frames {
        let frame = parse_frame(&bytes, false).expect("Payload should be valid");
        assert_eq!(frame.encode(), bytes);
        let again = parse_frame(&frame.encode(), false).expect("Payload should be valid");
        assert_eq!(format!("{frame:?}"), format!("{again:?}"));
    }
}

#[test]
fn parse_frame_takes_any_bytes() {
    // A walk over short inputs of every first byte: the decoder answers each of them.
    let mut state: u32 = 0x2545_f491;
    for first in 0..=255u8 {
        for length in 0..48usize {
            let mut input = vec![first];
            for _ in 0..length {
                state = state.wrapping_mul(1_664_525).wrapping_add(1_013_904_223);
                input.push((state >> 24) as u8);
            }
            let _ = parse_frame(&input, false);
            let _ = parse_frame(&input, true);
        }
    }
}

#[test]
fn body_decoder_is_chosen_by_type_and_subtype() {
    let ack = [0, 0, 104, 217, 60, 214, 195, 239];
    let frame_control = control_of(0xd4, 0);
    assert!(matches!(parse_frame_body(frame_control, &ack), Ok(Frame::Ack(_))));
    // The subtype of an ACK under another type has no decoder.
    let mismatched = FrameControl { frame_type: FrameType::Data, ..frame_control };
    match parse_frame_body(mismatched, &ack) {
        Err(Error::UnhandledFrameSubtype(control, bytes)) => {
            assert_eq!(control, mismatched);
            assert_eq!(bytes, ack.to_vec());
        }
        other => panic!("unexpected result {other:?}"),
    }
}

#[test]
fn every_decoded_frame_has_its_addresses() {
    let frames: Vec<(Vec<u8>, bool, bool)> = vec![
        (management(0x80, &[0; 12]), true, true),
        (management(0x08, &[]), true, true),
        (vec![180, 0, 158, 0, 116, 66, 127, 77, 29, 45, 20, 125, 218, 170, 84, 81], true, false),
        (vec![196, 0, 246, 14, 224, 62, 68, 8, 195, 239], false, false),
        (vec![212, 0, 0, 0, 104, 217, 60, 214, 195, 239], false, false),
    ];
    for (bytes, has_source, has_network) in frames {
        let frame = parse_frame(&bytes, false).expect("Payload should be valid");
        let _ = frame.dest();
        assert_eq!(frame.src().is_some(), has_source);
        assert_eq!(frame.bssid().is_some(), has_network);
    }
    // A data frame between access points has a source, the fourth address, and no network.
    let mut wds = management(0x08, &[4, 4, 4, 4, 4, 4]);
    wds[1] = 3;
    let frame = parse_frame(&wds, false).expect("Payload should be valid");
    assert_eq!(frame.src(), Some(&MacAddress([4; 6])));
    assert!(frame.bssid().is_none());
}
