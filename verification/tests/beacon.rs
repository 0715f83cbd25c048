use libwifi::frame::components::{
    MacAddress, RsnAkmSuite, RsnCipherSuite, WpsSetupState,
};
use libwifi::frame::{BlockAckMode, Frame};
use libwifi::{parse_frame, Addresses, FrameSubType, FrameType};

fn beacon_payload() -> Vec<u8> {
    vec![
        // Header
        128, 0, // FrameControl
        0, 0, // Duration id
        255, 255, 255, 255, 255, 255, // First address
        248, 50, 228, 173, 71, 184, // Second address
        248, 50, 228, 173, 71, 184, // Third address
        96, 119, // SequencControl
        // Data start
        151, 161, 39, 206, 165, 0, 0, 0, // timestamp
        100, 0, // interval
        17, 4, // capability
        0, 15, 77, 121, 32, 102, 97, 99, 101, 32, 119, 104, 101, 110, 32, 73, 80, // SSID
        1, 8, 130, 132, 139, 150, 36, 48, 72, 108, // Supported rates
        3, 1, 9, 5, 4, 0, 3, 1, 0, 42, 1, 4, 47, 1, 4, 48, 20, 1, 0, 0, 15, 172, 4, 1, 0, 0, 15,
        172, 4, 1, 0, 0, 15, 172, 2, 12, 0, 50, 4, 12, 18, 24, 96, 45, 26, 189, 25, 23, 255, 255,
        255, 0, 0, 0, 0, 0, 0, 0, 0, 0, 0, 0, 0, 0, 0, 0, 0, 0, 0, 0, 0, 61, 22, 9, 8, 4, 0, 0, 0,
        0, 0, 0, 0, 0, 0, 0, 0, 0, 0, 0, 0, 0, 0, 0, 0, 74, 14, 20, 0, 10, 0, 44, 1, 200, 0, 20, 0,
        5, 0, 25, 0, 127, 8, 1, 0, 0, 0, 0, 0, 0, 64, 221, 49, 0, 80, 242, 4, 16, 74, 0, 1, 16, 16,
        68, 0, 1, 2, 16, 71, 0, 16, 190, 15, 245, 213, 137, 177, 64, 140, 203, 243, 77, 29, 90,
        130, 118, 247, 16, 60, 0, 1, 3, 16, 73, 0, 6, 0, 55, 42, 0, 1, 32, 221, 9, 0, 16, 24, 2, 5,
        0, 28, 0, 0, 221, 24, 0, 80, 242, 2, 1, 1, 132, 0, 3, 164, 0, 0, 39, 164, 0, 0, 66, 67, 94,
        0, 98, 50, 47, 0,
    ]
}

#[test]
fn test_beacon() {
    let payload = beacon_payload();

    let frame = parse_frame(&payload, false).expect("Payload should be valid");
    println!("{:?}", frame);
    if let Frame::Beacon(beacon) = frame {
        assert!(matches!(beacon.header.frame_control.frame_type, FrameType::Management));
        assert!(matches!(beacon.header.frame_control.frame_subtype, FrameSubType::Beacon));
        assert_eq!("My face when IP", beacon.station_info.ssid.unwrap());
    } else {
        panic!("invalid frame type");
    }
}

#[test]
fn beacon_elements_in_detail() {
    let frame = parse_frame(&beacon_payload(), false).expect("Payload should be valid");
    assert!(frame.dest().is_broadcast());
    assert_eq!(frame.src().unwrap(), &MacAddress([248, 50, 228, 173, 71, 184]));
    assert_eq!(frame.bssid().unwrap(), &MacAddress([248, 50, 228, 173, 71, 184]));
    let beacon = match frame {
        Frame::Beacon(beacon) => beacon,
        _ => panic!("invalid frame type"),
    };
    assert_eq!(beacon.timestamp, 0xa5_ce27_a197);
    assert_eq!(beacon.beacon_interval, 100);
    assert_eq!(beacon.capability_info, 0x0411);
    assert_eq!(beacon.header.sequence_control.fragment_number, 0);
    assert_eq!(beacon.header.sequence_control.sequence_number, 0x776);
    let info = &beacon.station_info;
    assert_eq!(info.ssid(), "My face when IP");
    assert_eq!(info.ssid_length, Some(15));
    assert_eq!(info.channel(), Some(9));
    assert_eq!(info.ds_parameter_set, Some(9));
    assert_eq!(info.tim, Some(vec![0, 3, 1, 0]));
    let rates: Vec<(bool, f32)> =
        info.supported_rates.iter().map(|r| (r.mandatory, r.rate as f32 / 2.0)).collect();
    assert_eq!(
        rates,
        vec![
            (true, 1.0),
            (true, 2.0),
            (true, 5.5),
            (true, 11.0),
            (false, 18.0),
            (false, 24.0),
            (false, 36.0),
            (false, 54.0)
        ]
    );
    assert_eq!(info.supported_rates[2].kbps(), 5500);
    let extended: Vec<u8> =
        info.extended_supported_rates.as_ref().unwrap().iter().map(|r| r.rate).collect();
    assert_eq!(extended, vec![12, 18, 24, 96]);
    let ht = info.ht_capabilities.unwrap();
    assert!(ht.ldpc_coding_capability);
    assert!(!ht.supported_channel_width);
    assert_eq!(ht.sm_power_save, 3);
    assert!(ht.green_field);
    assert!(ht.short_gi_20_mhz);
    assert!(!ht.short_gi_40_mhz);
    assert!(ht.tx_stbc);
    assert_eq!(ht.rx_stbc, 1);
    assert!(!ht.delayed_block_ack);
    assert!(ht.max_amsdu_length);
    assert!(ht.dsss_support);
    assert!(!ht.psmp_support);
    assert!(!ht.forty_mhz_intolerant);
    assert!(!ht.l_sig_tx_op_protection);
    let ht_info = info.ht_information.as_ref().unwrap();
    assert_eq!(ht_info.primary_channel, 9);
    assert_eq!(ht_info.secondary_channel_offset, 0);
    assert!(!ht_info.supported_channel_width);
    assert_eq!(ht_info.other_data.len(), 20);
    let caps = info.extended_capabilities.unwrap();
    assert!(caps.bss_coexistence_management_support);
    assert!(caps.operating_mode_notification);
    assert!(!caps.glk);
    assert_eq!(caps.max_number_of_msdus_in_amsdu, 0);
    let wps = info.wps_info.as_ref().unwrap();
    assert_eq!(wps.setup_state, WpsSetupState::NotConfigured);
    assert_eq!(wps.manufacturer, "");
    assert!(info.wpa_info.is_none());
    assert_eq!(info.vendor_specific.len(), 2);
    assert_eq!(info.vendor_specific[0].oui, [0, 16, 24]);
    assert_eq!(info.vendor_specific[0].oui_type, 2);
    assert_eq!(info.vendor_specific[0].length, 9);
    assert_eq!(info.vendor_specific[0].data, vec![5, 0, 28, 0, 0]);
    assert_eq!(info.vendor_specific[1].oui, [0, 80, 242]);
    assert_eq!(info.vendor_specific[1].oui_type, 2);
    let residual: Vec<u8> = info.data.iter().map(|e| e.0).collect();
    assert_eq!(residual, vec![42, 47, 74]);
    assert_eq!(info.data[0].1, vec![4]);
}

#[test]
fn test_probe_request() {
    let payload = [
        // Header
        64, 0, // FrameControl
        0, 0, // Duration id
        255, 255, 255, 255, 255, 255, // First address
        192, 238, 251, 75, 207, 58, // Second address
        255, 255, 255, 255, 255, 255, // Thrid address
        48, 89, // Sequence Control
        // Data start
        0, 0, 1, 4, 2, 4, 11, 22, 50, 8, 12, 18, 24, 36, 48, 72, 96, 108, 221, 7, 0, 80, 242, 8, 0,
        36, 0, 3, 1, 9, 45, 26, 111, 1, 31, 255, 0, 0, 0, 0, 0, 0, 0, 0, 0, 0, 0, 0, 0, 0, 0, 0, 0,
        0, 0, 0, 0, 0, 191, 12, 178, 97, 128, 51, 254, 255, 134, 1, 254, 255, 134, 1,
    ];

    let frame = parse_frame(&payload, false).expect("Payload should be valid");
    println!("{:?}", frame);
    if let Frame::ProbeRequest(request) = frame {
        assert!(matches!(request.header.frame_control.frame_type, FrameType::Management));
        assert!(matches!(
            request.header.frame_control.frame_subtype,
            FrameSubType::ProbeRequest
        ));
        // The wildcard name has an empty body and is passed over.
        assert_eq!(request.station_info.ssid, None);
        assert_eq!(request.station_info.ssid(), "");
        assert_eq!(request.station_info.essid(), None);
        assert_eq!(request.station_info.supported_rates.len(), 4);
        assert_eq!(
            request.station_info.vht_capabilities,
            Some(vec![178, 97, 128, 51, 254, 255, 134, 1, 254, 255, 134, 1])
        );
        assert_eq!(request.station_info.vendor_specific.len(), 1);
        assert_eq!(request.station_info.vendor_specific[0].oui_type, 8);
    } else {
        panic!("invalid frame type");
    }
}

fn probe_response_payload() -> Vec<u8> {
    vec![
        // Header
        80, 0, // FrameControl
        58, 1, // Duration id
        192, 238, 251, 75, 207, 58, // First address
        248, 50, 228, 173, 71, 184, // Second address
        248, 50, 228, 173, 71, 184, // Third address
        144, 1, // SequenceControl
        129, 106, 187, 25, 166, 0, 0, 0, // Timesetamp
        100, 0, //  beacon interval
        17, 4, // capability info
        0, 15, 77, 121, 32, 102, 97, 99, 101, 32, 119, 104, 101, 110, 32, 73, 80, // SSID
        1, 8, 130, 132, 139, 150, 36, 48, 72, 108, 3, 1, 9, 42, 1, 4, 47, 1, 4, 48, 20, 1, 0, 0,
        15, 172, 4, 1, 0, 0, 15, 172, 4, 1, 0, 0, 15, 172, 2, 12, 0, 50, 4, 12, 18, 24, 96, 45, 26,
        189, 25, 23, 255, 255, 255, 0, 0, 0, 0, 0, 0, 0, 0, 0, 0, 0, 0, 0, 0, 0, 0, 0, 0, 0, 0, 61,
        22, 9, 8, 4, 0, 0, 0, 0, 0, 0, 0, 0, 0, 0, 0, 0, 0, 0, 0, 0, 0, 0, 0, 74, 14, 20, 0, 10, 0,
        44, 1, 200, 0, 20, 0, 5, 0, 25, 0, 127, 8, 1, 0, 0, 0, 0, 0, 0, 64, 221, 172, 0, 80, 242,
        4, 16, 74, 0, 1, 16, 16, 68, 0, 1, 2, 16, 59, 0, 1, 3, 16, 71, 0, 16, 190, 15, 245, 213,
        137, 177, 64, 140, 203, 243, 77, 29, 90, 130, 118, 247, 16, 33, 0, 21, 65, 83, 85, 83, 84,
        101, 75, 32, 67, 111, 109, 112, 117, 116, 101, 114, 32, 73, 110, 99, 46, 16, 35, 0, 28, 87,
        105, 45, 70, 105, 32, 80, 114, 111, 116, 101, 99, 116, 101, 100, 32, 83, 101, 116, 117,
        112, 32, 82, 111, 117, 116, 101, 114, 16, 36, 0, 7, 82, 84, 45, 78, 54, 54, 85, 16, 66, 0,
        17, 102, 56, 58, 51, 50, 58, 101, 52, 58, 97, 100, 58, 52, 55, 58, 98, 56, 16, 84, 0, 8, 0,
        6, 0, 80, 242, 4, 0, 1, 16, 17, 0, 7, 82, 84, 45, 78, 54, 54, 85, 16, 8, 0, 2, 32, 8, 16,
        60, 0, 1, 3, 16, 73, 0, 6, 0, 55, 42, 0, 1, 32, 221, 9, 0, 16, 24, 2, 5, 0, 28, 0, 0, 221,
        24, 0, 80, 242, 2, 1, 1, 132, 0, 3, 164, 0, 0, 39, 164, 0, 0, 66, 67, 94, 0, 98, 50, 47, 0,
    ]
}

#[test]
fn test_probe_response() {
    let payload = probe_response_payload();

    let frame = parse_frame(&payload, false).expect("Payload should be valid");
    println!("{:?}", frame);
    if let Frame::ProbeResponse(response) = frame {
        assert!(matches!(response.header.frame_control.frame_type, FrameType::Management));
        assert!(matches!(
            response.header.frame_control.frame_subtype,
            FrameSubType::ProbeResponse
        ));
        assert_eq!("My face when IP", response.station_info.ssid.unwrap());
    } else {
        panic!("invalid frame type");
    }
}

#[test]
fn probe_response_security_and_setup() {
    let frame = parse_frame(&probe_response_payload(), false).expect("Payload should be valid");
    let response = match frame {
        Frame::ProbeResponse(response) => response,
        _ => panic!("invalid frame type"),
    };
    let info = &response.station_info;
    assert!(info.rsn_information.is_some());
    let rsn = info.rsn_information.as_ref().unwrap();
    assert_eq!(rsn.version, 1);
    assert_eq!(rsn.group_cipher_suite, RsnCipherSuite::CCMP);
    assert_eq!(rsn.pairwise_cipher_suites, vec![RsnCipherSuite::CCMP]);
    assert!(rsn.akm_suites.contains(&RsnAkmSuite::PSK));
    assert_eq!(rsn.akm_suites.len(), 1);
    // The capabilities word is 0x000c: both replay counters bits 2 and 3, nothing else.
    assert!(!rsn.mfp_capable);
    assert!(!rsn.mfp_required);
    assert!(!rsn.pre_auth);
    assert_eq!(rsn.ptksa_replay_counter, 3);
    assert_eq!(rsn.gtksa_replay_counter, 0);
    let wps = info.wps_info.as_ref().unwrap();
    assert_eq!(wps.manufacturer, "ASUSTeK Computer Inc.");
    assert_eq!(wps.model, "Wi-Fi Protected Setup Router");
    assert_eq!(wps.model_number, "RT-N66U");
    assert_eq!(wps.serial_number, "f8:32:e4:ad:47:b8");
    assert_eq!(wps.primary_device_type, "Access Point");
    assert_eq!(wps.device_name, "RT-N66U");
    assert_eq!(wps.setup_state, WpsSetupState::NotConfigured);
    assert_eq!(info.channel(), Some(9));
}

#[test]
fn test_authentication() {
    let payload = [
        176, 0, // FrameControl
        58, 1, // Duration id
        248, 50, 228, 173, 71, 184, // First Address
        192, 238, 251, 75, 207, 58, // Second Address
        248, 50, 228, 173, 71, 184, 0, 147, 0, 0, 1, 0, 0, 0,
    ];
    let frame = parse_frame(&payload, false).expect("Payload should be valid");
    if let Frame::Authentication(authentication) = frame {
        assert_eq!(authentication.auth_algorithm, 0);
        assert_eq!(authentication.auth_seq, 1);
        assert_eq!(authentication.status_code, 0);
        assert_eq!(authentication.header.sequence_control.sequence_number, 0x930);
        assert!(authentication.station_info.ssid.is_none());
        assert!(authentication.station_info.data.is_empty());
    } else {
        panic!("invalid frame type");
    }
}

#[test]
fn test_deauthentication() {
    let payload = [
        192, 0, // FrameControl
        58, 1, // Duration id
        248, 50, 228, 173, 71, 184, // First Address
        192, 238, 251, 75, 207, 58, // Second Address
        248, 50, 228, 173, 71, 184, 224, 146, 3, 0,
    ];
    let frame = parse_frame(&payload, false).expect("Payload should be valid");
    assert_eq!(frame.encode(), payload.to_vec());
    if let Frame::Deauthentication(deauthentication) = frame {
        assert_eq!(deauthentication.reason_code, 3);
        assert_eq!(deauthentication.header.address_2, MacAddress([192, 238, 251, 75, 207, 58]));
    } else {
        panic!("invalid frame type");
    }
}

#[test]
fn test_null_data() {
    let payload = [
        72, 17, 60, 0, 156, 128, 223, 131, 16, 180, 252, 25, 16, 16, 128, 171, 156, 128, 223, 131,
        16, 180, 128, 43,
    ];
    let frame = parse_frame(&payload, false).expect("Payload should be valid");
    assert!(matches!(frame, Frame::NullData(_)));
    // The frame goes to the distribution system: the first address names the network.
    assert_eq!(frame.bssid().unwrap(), &MacAddress([156, 128, 223, 131, 16, 180]));
    assert_eq!(frame.src().unwrap(), &MacAddress([252, 25, 16, 16, 128, 171]));
    assert_eq!(frame.dest(), &MacAddress([156, 128, 223, 131, 16, 180]));
    assert_eq!(frame.encode(), payload.to_vec());
}

#[test]
fn test_qos_null_data() {
    let payload = [
        200, 1, // FrameControl
        58, 1, // Duration id
        248, 50, 228, 173, 71, 184, // First Address
        192, 238, 251, 75, 207, 58, // Second Address
        248, 50, 228, 173, 71, 184, // Third Address
        80, 106, 0, 0,
    ];
    let frame = parse_frame(&payload, false).expect("Payload should be valid");
    if let Frame::QosNull(qos_null) = &frame {
        assert_eq!(qos_null.header.qos, Some([0, 0]));
        assert_eq!(qos_null.header.address_4, None);
        assert_eq!(qos_null.header.sequence_control.sequence_number, 0x6a5);
    } else {
        panic!("invalid frame type");
    }
    assert_eq!(frame.encode(), payload.to_vec());
}

#[test]
fn test_data() {
    let payload = [
        8, 98, 0, 0, 51, 51, 255, 75, 207, 58, 248, 50, 228, 173, 71, 184, 192, 238, 251, 75, 207,
        58, 80, 2, 90, 7, 0, 96, 0, 0, 0, 0, 239, 46, 109, 235, 61, 58, 89, 37, 181, 238, 23, 98,
        108, 29, 99, 170, 28, 132, 136, 248, 109, 194, 64, 139, 35, 219, 22, 195, 40, 100, 32, 6,
        7, 230, 5, 102, 8, 116, 33, 165, 132, 177, 44, 2, 247, 88, 213, 77, 12, 122, 49, 105, 29,
        74, 55, 207, 160, 46, 181, 65, 63, 123, 109, 117, 156, 77, 0, 65, 14, 72, 91, 169, 153, 0,
        55, 68, 180, 178, 230, 66,
    ];
    let frame = parse_frame(&payload, false).expect("Payload should be valid");
    // The frame comes from the distribution system.
    assert!(frame.dest().is_ipv6_multicast());
    assert_eq!(frame.bssid().unwrap(), &MacAddress([248, 50, 228, 173, 71, 184]));
    assert_eq!(frame.src().unwrap(), &MacAddress([192, 238, 251, 75, 207, 58]));
    assert_eq!(frame.encode(), payload.to_vec());
    if let Frame::Data(data) = frame {
        assert!(data.header.frame_control.from_ds());
        assert!(!data.header.frame_control.to_ds());
        assert!(data.header.frame_control.protected());
        assert!(data.header.frame_control.more_data());
        assert!(!data.header.frame_control.retry());
        assert_eq!(data.data.len(), payload.len() - 24);
        assert_eq!(data.data[0], 90);
        assert_eq!(data.header.da(), MacAddress([51, 51, 255, 75, 207, 58]));
        assert_eq!(data.header.sa(), Some(MacAddress([192, 238, 251, 75, 207, 58])));
        assert_eq!(data.header.ra(), MacAddress([51, 51, 255, 75, 207, 58]));
        assert_eq!(data.header.ta(), MacAddress([248, 50, 228, 173, 71, 184]));
    } else {
        panic!("invalid frame type");
    }
}

#[test]
fn beacon_test_rts() {
    let payload = [180, 0, 158, 0, 116, 66, 127, 77, 29, 45, 20, 125, 218, 170, 84, 81];
    let frame = parse_frame(&payload, false).expect("Payload should be valid");
    assert!(matches!(frame, Frame::Rts(_)));
}

#[test]
fn beacon_test_cts() {
    // 2B FrameControl + 2B Duration + 6B Address1 (Missing CRC)
    let payload = [196, 0, 246, 14, 224, 62, 68, 8, 195, 239];
    let frame = parse_frame(&payload, false).expect("Payload should be valid");
    assert!(matches!(frame, Frame::Cts(_)));
}

#[test]
fn beacon_test_ack() {
    // 2b FrameControl + 2B Duration + 6B Address1 (Missing CRC)
    let payload = [212, 0, 0, 0, 104, 217, 60, 214, 195, 239];
    let frame = parse_frame(&payload, false).expect("Payload should be valid");
    assert!(matches!(frame, Frame::Ack(_)));
}

#[test]
fn beacon_test_block_ack_request() {
    // 2B FrameControl + 2B Duration + 6B Address1 + 6B Address2 + 4B CRC
    let payload = [
        132, 0, 58, 1, 192, 238, 251, 75, 207, 58, 24, 29, 234, 198, 62, 190, 4, 0, 160, 15,
    ];
    let frame = parse_frame(&payload, false).expect("Payload should be valid");
    if let Frame::BlockAckRequest(request) = frame {
        assert_eq!(request.mode, BlockAckMode::CompressedBlockAck);
        assert!(!request.policy);
        assert_eq!(request.requested_tids.len(), 1);
        assert_eq!(request.requested_tids[0].0, 0);
        assert_eq!(request.requested_tids[0].1.sequence_number, 250);
    } else {
        panic!("invalid frame type");
    }
}

#[test]
fn beacon_test_block_ack() {
    let payload = [
        148, 0, 0, 0, 192, 238, 251, 75, 207, 58, 248, 50, 228, 173, 71, 184, 5, 0, 144, 4, 1, 0,
        0, 0, 0, 0, 0, 0,
    ];
    let frame = parse_frame(&payload, false).expect("Payload should be valid");
    assert!(matches!(frame, Frame::BlockAck(_)));
}

#[test]
fn decoded_frames_come_back_from_their_own_bytes() {
    for payload in [beacon_payload(), probe_response_payload()] {
        let frame = parse_frame(&payload, false).expect("Payload should be valid");
        let bytes = frame.encode();
        let again = parse_frame(&bytes, false).expect("Payload should be valid");
        assert_eq!(format!("{frame:?}"), format!("{again:?}"));
        assert_eq!(again.encode(), bytes);
    }
}
