use libwifi::frame::components::{
    Category, ChannelSwitchAnnouncment, ChannelSwitchMode, Computers, ExtendedCapabilities,
    HTCapabilities, HTInformation, MultipleBSSID, NetworkInfrastructure, RsnAkmSuite,
    RsnCipherSuite, RsnInformation, StationInfo, Storage, SupportedRate, VendorSpecificInfo,
    WpaAkmSuite, WpaCipherSuite, WpaInformation, WpsInformation, WpsSetupState,
};
use libwifi::frame::components::wps::{bytes_to_category, category_from_codes, find_device_type};
use libwifi::parsers::components::extended_capabilities::parse_extended_capabilities;
use libwifi::parsers::components::security::{
    parse_akm_suite, parse_cipher_suite, parse_group_cipher_suite, parse_pairwise_cipher_suite,
    parse_wpa_akm_suite,
};
use libwifi::parsers::components::station_info::{
    parse_ht_information, parse_multiple_bssid, parse_supported_rates,
};
use libwifi::parsers::components::wps::{parse_string_from_bytes, parse_wps_information};
use libwifi::parsers::{
    parse_channel_switch, parse_ht_capabilities, parse_rsn_information, parse_station_info,
    parse_wpa_information,
};
use libwifi::Error;

fn no_capabilities() -> ExtendedCapabilities {
    parse_extended_capabilities(&[0]).unwrap()
}

#[test]
fn extended_capabilities_of_trailing_zero_bytes_are_all_clear() {
    let short = parse_extended_capabilities(&[0]).unwrap();
    let long = parse_extended_capabilities(&[0, 0, 0, 0, 0, 0, 0, 0, 0, 0, 0, 0]).unwrap();
    let longer = parse_extended_capabilities(&[0; 40]).unwrap();
    assert_eq!(short, long);
    assert_eq!(short, longer);
    assert!(!short.bss_coexistence_management_support);
    assert!(!short.twt_parameters_range_support);
    assert_eq!(short.service_interval_granularity, 0);
    assert_eq!(short.max_number_of_msdus_in_amsdu, 0);
    assert!(short.encode().is_empty());
}

#[test]
fn extended_capabilities_refuses_an_empty_body() {
    assert_eq!(parse_extended_capabilities(&[]), Err("Extended capabilities is empty"));
}

#[test]
fn extended_capabilities_reads_each_bit_at_its_place() {
    let caps = parse_extended_capabilities(&[0b0100_0101, 0x80]).unwrap();
    assert!(caps.bss_coexistence_management_support); // bit 0
    assert!(!caps.glk); // bit 1
    assert!(caps.extended_channel_switching); // bit 2
    assert!(caps.s_psmp_capability); // bit 6
    assert!(!caps.event); // bit 7
    assert!(caps.geospatial_location); // bit 15
    assert!(!caps.civic_location); // bit 14

    // Bits 41 to 43 hold the service interval granularity, bits 63 and 64 the number of
    // MSDUs, bit 89 the last flag.
    let mut bytes = [0u8; 12];
    bytes[5] = 0b0000_1010; // bits 41 and 43
    bytes[7] = 0b1000_0000; // bit 63
    bytes[8] = 0b0000_0001; // bit 64
    bytes[11] = 0b0000_0010; // bit 89
    let caps = parse_extended_capabilities(&bytes).unwrap();
    assert_eq!(caps.service_interval_granularity, 5);
    assert_eq!(caps.max_number_of_msdus_in_amsdu, 3);
    assert!(caps.twt_parameters_range_support);
    assert!(!caps.reject_unadmitted_frame);
    assert!(!caps.identifier_location);
    assert_eq!(caps.encode(), bytes.to_vec());
}

#[test]
fn extended_capabilities_ignore_reserved_bits_and_bits_beyond_90() {
    let mut bytes = [0u8; 13];
    bytes[0] = 0b0010_0000; // bit 5, reserved
    bytes[11] = 0b1111_1100; // bits 90 to 95
    bytes[12] = 0xff;
    let caps = parse_extended_capabilities(&bytes).unwrap();
    assert_eq!(caps, no_capabilities());
}

#[test]
fn extended_capabilities_encode_strips_trailing_clear_bits() {
    let mut caps = no_capabilities();
    caps.glk = true;
    assert_eq!(caps.encode(), vec![0b0000_0010]);
    caps.diagnostics = true; // bit 8
    assert_eq!(caps.encode(), vec![0b0000_0010, 0b0000_0001]);
    caps.service_interval_granularity = 7;
    assert_eq!(caps.encode(), vec![0b0000_0010, 0b0000_0001, 0, 0, 0, 0b0000_1110]);
    assert_eq!(parse_extended_capabilities(&caps.encode()), Ok(caps));
}

#[test]
fn rsn_information_reads_suites_and_capabilities() {
    let body = [
        1, 0, // version
        0x00, 0x0f, 0xac, 0x04, // group cipher
        2, 0, // two pairwise ciphers
        0x00, 0x0f, 0xac, 0x04, 0x00, 0x0f, 0xac, 0x02, //
        2, 0, // two key management suites
        0x00, 0x0f, 0xac, 0x02, 0x00, 0x0f, 0xac, 0x08, //
        0b1101_0110, 0b0110_0011,
    ];
    let rsn = parse_rsn_information(&body).unwrap();
    assert_eq!(rsn.version, 1);
    assert_eq!(rsn.group_cipher_suite, RsnCipherSuite::CCMP);
    assert_eq!(rsn.pairwise_cipher_suites, vec![RsnCipherSuite::CCMP, RsnCipherSuite::TKIP]);
    assert_eq!(rsn.akm_suites, vec![RsnAkmSuite::PSK, RsnAkmSuite::SAE]);
    assert!(!rsn.pre_auth);
    assert!(rsn.no_pairwise);
    assert_eq!(rsn.ptksa_replay_counter, 1);
    assert_eq!(rsn.gtksa_replay_counter, 1);
    assert!(rsn.mfp_required);
    assert!(rsn.mfp_capable);
    assert!(rsn.joint_multi_band_rsna);
    assert!(rsn.peerkey_enabled);
    assert!(rsn.extended_key_id);
    assert!(rsn.ocvc);
    assert_eq!(rsn.capabilities(), 0x63d6);
    assert_eq!(rsn.encode(), body.to_vec());
}

#[test]
fn rsn_information_mfp_capable_is_bit_7() {
    let mut body =
        vec![1, 0, 0, 0x0f, 0xac, 4, 1, 0, 0, 0x0f, 0xac, 4, 1, 0, 0, 0x0f, 0xac, 2, 0x80, 0];
    let rsn = parse_rsn_information(&body).unwrap();
    assert!(rsn.mfp_capable);
    assert!(!rsn.mfp_required);
    body[18] = 0x40;
    let rsn = parse_rsn_information(&body).unwrap();
    assert!(!rsn.mfp_capable);
    assert!(rsn.mfp_required);
}

#[test]
fn rsn_information_numbers_are_little_endian() {
    // 256 pairwise ciphers are announced, and not there.
    let body = [1, 0, 0, 0x0f, 0xac, 4, 0, 1, 0, 0x0f, 0xac, 4, 0, 0];
    assert_eq!(
        parse_rsn_information(&body).err(),
        Some("Pairwise cipher suite data field too short")
    );
    // Version 256 is not version 1.
    let body = [0, 1, 0, 0x0f, 0xac, 4, 0, 0, 0, 0, 0, 0];
    assert_eq!(parse_rsn_information(&body).err(), Some("Unsupported RSN version"));
}

#[test]
fn rsn_information_errors() {
    assert_eq!(parse_rsn_information(&[1, 0, 0]).err(), Some("RSN Information data too short"));
    assert_eq!(
        parse_rsn_information(&[2, 0, 0, 0x0f, 0xac, 4, 0, 0, 0, 0]).err(),
        Some("Unsupported RSN version")
    );
    assert_eq!(
        parse_rsn_information(&[1, 0, 0, 0x0f, 0xac, 4, 1, 0, 0, 0x0f]).err(),
        Some("Pairwise cipher suite data field too short")
    );
    assert_eq!(
        parse_rsn_information(&[1, 0, 0, 0x0f, 0xac, 4, 1, 0, 0, 0x0f, 0xac, 4, 9]).err(),
        Some("Data field to short")
    );
    assert_eq!(
        parse_rsn_information(&[1, 0, 0, 0x0f, 0xac, 4, 0, 0, 1, 0, 0, 0x0f]).err(),
        Some("AKM suite data field too short")
    );
    assert_eq!(
        parse_rsn_information(&[1, 0, 0, 0x0f, 0xac, 4, 0, 0, 1, 0, 0, 0x0f, 0xac, 2, 0]).err(),
        Some("RSN Information data too short for RSN Capabilities")
    );
}

#[test]
fn suites_by_selector() {
    assert_eq!(parse_group_cipher_suite(&[0, 0x0f, 0xac, 0]), RsnCipherSuite::NoCipher);
    assert_eq!(parse_group_cipher_suite(&[0, 0x0f, 0xac, 1]), RsnCipherSuite::WEP);
    assert_eq!(parse_pairwise_cipher_suite(&[0, 0x0f, 0xac, 3]), RsnCipherSuite::WRAP);
    assert_eq!(parse_pairwise_cipher_suite(&[0, 0x0f, 0xac, 5]), RsnCipherSuite::WEP104);
    assert_eq!(
        parse_group_cipher_suite(&[0, 0x0f, 0xac, 6]),
        RsnCipherSuite::Unknown(vec![0, 0x0f, 0xac, 6])
    );
    assert_eq!(
        parse_group_cipher_suite(&[0, 0x50, 0xf2, 4]),
        RsnCipherSuite::Unknown(vec![0, 0x50, 0xf2, 4])
    );
    assert_eq!(parse_akm_suite(&[0, 0x0f, 0xac, 1]), RsnAkmSuite::EAP);
    assert_eq!(parse_akm_suite(&[0, 0x0f, 0xac, 3]), RsnAkmSuite::EAPFT);
    assert_eq!(parse_akm_suite(&[0, 0x0f, 0xac, 4]), RsnAkmSuite::PSKFT);
    assert_eq!(parse_akm_suite(&[0, 0x0f, 0xac, 5]), RsnAkmSuite::EAP256);
    assert_eq!(parse_akm_suite(&[0, 0x0f, 0xac, 6]), RsnAkmSuite::PSK256);
    assert_eq!(parse_akm_suite(&[0, 0x0f, 0xac, 11]), RsnAkmSuite::SUITEBEAP256);
    assert_eq!(parse_akm_suite(&[0, 0x0f, 0xac, 7]), RsnAkmSuite::Unknown(vec![0, 0x0f, 0xac, 7]));
    assert_eq!(parse_cipher_suite(&[0, 0x50, 0xf2, 1]), WpaCipherSuite::Wep40);
    assert_eq!(parse_cipher_suite(&[0, 0x50, 0xf2, 5]), WpaCipherSuite::Wep104);
    assert_eq!(parse_cipher_suite(&[0, 0x50, 0xf2, 2]), WpaCipherSuite::Tkip);
    assert_eq!(parse_cipher_suite(&[0, 0x50, 0xf2, 4]), WpaCipherSuite::Ccmp);
    assert_eq!(parse_cipher_suite(&[1, 2, 3]), WpaCipherSuite::Unknown(vec![1, 2, 3]));
    assert_eq!(parse_wpa_akm_suite(&[0, 0x50, 0xf2, 1]), WpaAkmSuite::Psk);
    assert_eq!(parse_wpa_akm_suite(&[0, 0x50, 0xf2, 2]), WpaAkmSuite::Eap);
    assert_eq!(
        parse_wpa_akm_suite(&[0, 0x50, 0xf2, 3]),
        WpaAkmSuite::Unknown(vec![0, 0x50, 0xf2, 3])
    );
    for suite in [
        RsnCipherSuite::NoCipher,
        RsnCipherSuite::WEP,
        RsnCipherSuite::TKIP,
        RsnCipherSuite::WRAP,
        RsnCipherSuite::CCMP,
        RsnCipherSuite::WEP104,
        RsnCipherSuite::Unknown(vec![9, 8, 7, 6]),
    ] {
        assert_eq!(parse_group_cipher_suite(&suite.encode()), suite);
    }
    assert_eq!(RsnAkmSuite::SAE.encode(), vec![0, 0x0f, 0xac, 8]);
    assert_eq!(WpaCipherSuite::Tkip.encode(), vec![0, 0x50, 0xf2, 2]);
    assert_eq!(WpaAkmSuite::Eap.encode(), vec![0, 0x50, 0xf2, 2]);
}

#[test]
fn wpa_information_round_trip_and_errors() {
    let body = [
        1, 0, 0, 0x50, 0xf2, 2, 2, 0, 0, 0x50, 0xf2, 2, 0, 0x50, 0xf2, 4, 1, 0, 0, 0x50, 0xf2, 2,
    ];
    let wpa = parse_wpa_information(&body).unwrap();
    assert_eq!(wpa.version, 1);
    assert_eq!(wpa.multicast_cipher_suite, WpaCipherSuite::Tkip);
    assert_eq!(wpa.unicast_cipher_suites, vec![WpaCipherSuite::Tkip, WpaCipherSuite::Ccmp]);
    assert_eq!(wpa.akm_suites, vec![WpaAkmSuite::Eap]);
    assert_eq!(wpa.encode(), body.to_vec());
    assert_eq!(parse_wpa_information(&body[..9]).err(), Some("WPA Information data too short"));
    assert_eq!(
        parse_wpa_information(&[2, 0, 0, 0x50, 0xf2, 2, 0, 0, 0, 0]).err(),
        Some("Unsupported WPA version")
    );
    assert_eq!(
        parse_wpa_information(&body[..15]).err(),
        Some("WPA Information data too short for unicast cipher suites")
    );
    assert_eq!(
        parse_wpa_information(&body[..17]).err(),
        Some("WPA Information data too short for AKM suite count")
    );
    assert_eq!(
        parse_wpa_information(&body[..21]).err(),
        Some("WPA Information data too short for AKM suites")
    );
}

#[test]
fn wps_information_reads_known_elements() {
    let body = [
        0x10, 0x57, 0, 1, 2, // setup state: configured
        0x10, 0x21, 0, 4, b'A', b'c', b'm', b'e', // manufacturer
        0x10, 0x4a, 0, 1, 0x10, // an element that is not kept
        0x10, 0x54, 0, 8, 0, 1, 0, 0x50, 0xf2, 4, 0, 5, // a notebook
        0x10, 0x11, 0, 3, 0xe2, 0x82, 0xac, // device name: a euro sign
    ];
    let wps = parse_wps_information(&body).unwrap();
    assert_eq!(wps.setup_state, WpsSetupState::Configured);
    assert_eq!(wps.manufacturer, "Acme");
    assert_eq!(wps.primary_device_type, "Notebook");
    assert_eq!(wps.device_name, "\u{20ac}");
    assert_eq!(wps.model, "");
}

#[test]
fn wps_information_errors() {
    assert_eq!(parse_wps_information(&[0x10, 0x57, 0]).err(), Some("Invalid WPS data length"));
    assert_eq!(
        parse_wps_information(&[0x10, 0x57, 0, 2, 1]).err(),
        Some("Invalid WPS data length for element")
    );
    assert_eq!(
        parse_wps_information(&[0x10, 0x57, 0, 1, 3]).err(),
        Some("Invalid WPS Setup State")
    );
    assert_eq!(parse_wps_information(&[0x10, 0x57, 0, 0]).err(), Some("Invalid WPS Setup State"));
    assert_eq!(
        parse_wps_information(&[0x10, 0x23, 0, 2, 0xc3, 0x28]).err(),
        Some("Invalid UTF-8 string")
    );
    assert!(parse_wps_information(&[]).is_ok());
}

#[test]
fn wps_primary_device_type_rules() {
    // Under eight bytes the name is cleared.
    let wps = parse_wps_information(&[
        0x10, 0x54, 0, 8, 0, 6, 0, 0x50, 0xf2, 4, 0, 2, 0x10, 0x54, 0, 2, 0, 6,
    ])
    .unwrap();
    assert_eq!(wps.primary_device_type, "");
    // With another prefix the name stays.
    let wps = parse_wps_information(&[
        0x10, 0x54, 0, 8, 0, 6, 0, 0x50, 0xf2, 4, 0, 2, 0x10, 0x54, 0, 8, 0, 6, 1, 2, 3, 4, 0, 2,
    ])
    .unwrap();
    assert_eq!(wps.primary_device_type, "Router");
    // A subcategory without a name gives an empty name.
    let wps =
        parse_wps_information(&[0x10, 0x54, 0, 8, 0, 6, 0, 0x50, 0xf2, 4, 0, 9]).unwrap();
    assert_eq!(wps.primary_device_type, "");
}

#[test]
fn string_from_bytes_is_strict() {
    assert_eq!(parse_string_from_bytes(b"RT-N66U"), Ok(String::from("RT-N66U")));
    assert_eq!(parse_string_from_bytes(&[0xff, 0x41]), Err("Invalid UTF-8 string"));
}

#[test]
fn categories_by_code() {
    assert_eq!(bytes_to_category(&[0, 1], &[0, 1]), Some(Category::Computer(Computers::PC)));
    assert_eq!(
        bytes_to_category(&[0, 1], &[0, 10]),
        Some(Category::Computer(Computers::Ultrabook))
    );
    assert_eq!(bytes_to_category(&[0, 1], &[0, 11]), None);
    assert_eq!(bytes_to_category(&[0, 5], &[7, 7]), Some(Category::Storage(Storage::NAS)));
    assert_eq!(
        bytes_to_category(&[0, 6], &[0, 1]),
        Some(Category::NetworkInfrastructure(NetworkInfrastructure::AP))
    );
    assert_eq!(bytes_to_category(&[0, 13], &[0, 1]), None);
    assert_eq!(bytes_to_category(&[1, 1], &[0, 1]), None);
    assert_eq!(bytes_to_category(&[0, 1, 0], &[0, 1]), None);
    assert_eq!(bytes_to_category(&[0, 1], &[1]), None);
    assert_eq!(Category::Computer(Computers::MID).label(), "Mobile Internet Device");
    assert_eq!(Category::Others.label(), "Others");
    assert_eq!(NetworkInfrastructure::Switch.label(), "Network Switch");
    assert_eq!(WpsSetupState::NotConfigured.label(), "Not Configured");
    assert_eq!(WpsSetupState::Configured.code(), 2);
}

#[test]
fn wps_update_with_takes_what_is_announced() {
    let mut ours = WpsInformation::default();
    ours.manufacturer = String::from("Acme");
    ours.model = String::from("One");
    let mut theirs = WpsInformation::default();
    theirs.setup_state = WpsSetupState::Configured;
    theirs.model = String::from("Two");
    theirs.device_name = String::from("router");
    ours.update_with(&theirs);
    assert_eq!(ours.setup_state, WpsSetupState::Configured);
    assert_eq!(ours.manufacturer, "Acme");
    assert_eq!(ours.model, "Two");
    assert_eq!(ours.device_name, "router");
    assert_eq!(ours.serial_number, "");
    let blank = WpsInformation::default();
    ours.update_with(&blank);
    assert_eq!(ours.setup_state, WpsSetupState::Configured);
    assert_eq!(ours.model, "Two");
}

#[test]
fn supported_rates_by_byte() {
    let rates = parse_supported_rates(&[0x82, 0x0b, 0xff, 0x00]);
    assert_eq!(
        rates,
        vec![
            SupportedRate { mandatory: true, rate: 2 },
            SupportedRate { mandatory: false, rate: 11 },
            SupportedRate { mandatory: true, rate: 127 },
            SupportedRate { mandatory: false, rate: 0 },
        ]
    );
    assert_eq!(rates[1].rate as f32 / 2.0, 5.5);
    assert_eq!(rates[1].kbps(), 5500);
    assert_eq!(rates[0].encode(), 0x82);
    assert_eq!(rates[2].encode(), 0xff);
    assert_eq!(SupportedRate { mandatory: false, rate: 200 }.encode(), 72);
}

#[test]
fn ht_capabilities_by_bit() {
    assert_eq!(parse_ht_capabilities(&[1]), None);
    let caps = parse_ht_capabilities(&[0b0100_1110, 0b1000_0110, 9]).unwrap();
    assert!(!caps.ldpc_coding_capability);
    assert!(caps.supported_channel_width);
    assert_eq!(caps.sm_power_save, 3);
    assert!(!caps.green_field);
    assert!(!caps.short_gi_20_mhz);
    assert!(caps.short_gi_40_mhz);
    assert!(!caps.tx_stbc);
    assert_eq!(caps.rx_stbc, 2);
    assert!(caps.delayed_block_ack);
    assert!(!caps.max_amsdu_length);
    assert!(!caps.dsss_support);
    assert!(!caps.psmp_support);
    assert!(!caps.forty_mhz_intolerant);
    assert!(caps.l_sig_tx_op_protection);
    assert_eq!(caps.to_word(), 0x864e);
    assert_eq!(caps.encode(), vec![0x4e, 0x86]);
    let all = parse_ht_capabilities(&[0xff, 0xff]).unwrap();
    assert_eq!(
        all,
        HTCapabilities {
            ldpc_coding_capability: true,
            supported_channel_width: true,
            sm_power_save: 3,
            green_field: true,
            short_gi_20_mhz: true,
            short_gi_40_mhz: true,
            tx_stbc: true,
            rx_stbc: 3,
            delayed_block_ack: true,
            max_amsdu_length: true,
            dsss_support: true,
            psmp_support: true,
            forty_mhz_intolerant: true,
            l_sig_tx_op_protection: true,
        }
    );
}

#[test]
fn ht_information_and_multiple_bssid() {
    assert_eq!(parse_ht_information(&[9]).err(), Some("HT Information data too short"));
    let info: HTInformation = parse_ht_information(&[9, 0b1111_0110, 7, 8]).unwrap();
    assert_eq!(info.primary_channel, 9);
    assert_eq!(info.secondary_channel_offset, 2);
    assert!(info.supported_channel_width);
    assert_eq!(info.other_data, vec![7, 8]);
    assert_eq!(info.encode(), vec![9, 0b0000_0110, 7, 8]);
    assert_eq!(parse_multiple_bssid(&[]).err(), Some("Multiple BSSID data too short"));
    let multiple: MultipleBSSID = parse_multiple_bssid(&[3, 1, 2]).unwrap();
    assert_eq!(multiple.max_bssid_indicator, 3);
    assert_eq!(multiple.other_data, vec![1, 2]);
    assert_eq!(multiple.encode(), vec![3, 1, 2]);
}

#[test]
fn channel_switch_by_byte() {
    assert_eq!(parse_channel_switch(&[1, 6]), None);
    assert_eq!(
        parse_channel_switch(&[1, 6, 3, 9]),
        Some(ChannelSwitchAnnouncment { mode: ChannelSwitchMode::Restrict, new_channel: 6, count: 3 })
    );
    assert_eq!(parse_channel_switch(&[2, 6, 3]).unwrap().mode, ChannelSwitchMode::Unrestricted);
    assert_eq!(ChannelSwitchMode::from_u8(0), ChannelSwitchMode::Unrestricted);
    assert_eq!(ChannelSwitchMode::from_u8(1), ChannelSwitchMode::Restrict);
    assert_eq!(ChannelSwitchMode::from_u8(255), ChannelSwitchMode::Unrestricted);
    let switch =
        ChannelSwitchAnnouncment { mode: ChannelSwitchMode::Restrict, new_channel: 11, count: 2 };
    assert_eq!(switch.encode(), vec![1, 11, 2]);
}

#[test]
fn station_info_walk_ends_under_four_bytes() {
    let (rest, info) = parse_station_info(&[]).unwrap();
    assert!(rest.is_empty());
    assert!(info.ssid.is_none());
    // A single element of three bytes is left unread.
    let (rest, info) = parse_station_info(&[3, 1, 9]).unwrap();
    assert_eq!(rest, &[3, 1, 9]);
    assert_eq!(info.ds_parameter_set, None);
    // With exactly four bytes left the walk goes on.
    let (rest, info) = parse_station_info(&[0, 2, b'h', b'i', 5, 2, 1, 2]).unwrap();
    assert!(rest.is_empty());
    assert_eq!(info.ssid(), "hi");
    assert_eq!(info.tim, Some(vec![1, 2]));
    let (rest, info) = parse_station_info(&[0, 2, b'h', b'i', 3, 1, 9]).unwrap();
    assert_eq!(rest, &[3, 1, 9]);
    assert_eq!(info.ds_parameter_set, None);
    let (rest, info) = parse_station_info(&[3, 1, 9, 0, 2, b'h', b'i']).unwrap();
    assert!(rest.is_empty());
    assert_eq!(info.channel(), Some(9));
}

#[test]
fn station_info_element_longer_than_the_input() {
    match parse_station_info(&[0, 5, b'a', b'b']) {
        Err(Error::Failure(context, bytes)) => {
            assert_eq!(context, "information element length exceeds remaining input");
            assert_eq!(bytes, vec![b'a', b'b']);
        }
        other => panic!("unexpected result {other:?}"),
    }
}

#[test]
fn station_info_refuses_a_broken_wpa_element() {
    let input = [221, 6, 0x00, 0x50, 0xf2, 1, 2, 0, 0, 2, b'h', b'i'];
    match parse_station_info(&input) {
        Err(Error::Failure(context, bytes)) => {
            assert_eq!(context, "vendor element is not valid WPA information");
            assert_eq!(bytes, vec![0, 2, b'h', b'i']);
        }
        other => panic!("unexpected result {other:?}"),
    }
}

#[test]
fn station_info_soft_failures_leave_the_field() {
    // An RSN element of version 2, a short HT information, a short channel switch.
    let input = [48, 4, 2, 0, 0, 0, 61, 1, 9, 37, 2, 1, 6, 5, 2, 1, 2];
    let (_, info) = parse_station_info(&input).unwrap();
    assert!(info.rsn_information.is_none());
    assert!(info.ht_information.is_none());
    assert!(info.channel_switch.is_none());
    assert_eq!(info.tim, Some(vec![1, 2]));
}

#[test]
fn station_info_vendor_elements() {
    let input = [
        221, 3, 1, 2, 3, // too short to hold a prefix and a type: passed over
        221, 5, 0x00, 0x50, 0xf2, 2, 7, // kept as it came
        221, 26, 0x00, 0x50, 0xf2, 1, // WPA
        1, 0, 0, 0x50, 0xf2, 2, 1, 0, 0, 0x50, 0xf2, 2, 1, 0, 0, 0x50, 0xf2, 2, 0, 0, 0, 0, //
        221, 9, 0x00, 0x50, 0xf2, 4, 0x10, 0x57, 0, 1, 2, // WPS
        221, 6, 0x00, 0x50, 0xf2, 4, 0xff, 0xff, // WPS that is refused
    ];
    let (rest, info) = parse_station_info(&input).unwrap();
    assert!(rest.is_empty());
    assert_eq!(info.vendor_specific.len(), 1);
    let kept: &VendorSpecificInfo = &info.vendor_specific[0];
    assert_eq!(kept.element_id, 221);
    assert_eq!(kept.length, 5);
    assert_eq!(kept.oui, [0, 0x50, 0xf2]);
    assert_eq!(kept.oui_type, 2);
    assert_eq!(kept.data, vec![7]);
    assert_eq!(kept.encode(), vec![221, 5, 0x00, 0x50, 0xf2, 2, 7]);
    let wpa: &WpaInformation = info.wpa_info().unwrap();
    assert_eq!(wpa.multicast_cipher_suite, WpaCipherSuite::Tkip);
    assert_eq!(wpa.akm_suites, vec![WpaAkmSuite::Eap]);
    // The last WPS element was refused, so nothing is held.
    assert!(info.wps_info.is_none());
}

#[test]
fn station_info_other_elements() {
    let input = [
        6, 2, 0x34, 0x12, // IBSS parameters
        7, 3, b'D', b'E', b' ', // country
        32, 1, 3, // power constraint
        255, 2, 35, 1, // HE capabilities
        255, 2, 36, 1, // another extended element: passed over
        0, 3, 0xff, b'a', b'b', // a name that is not valid UTF-8
        2, 2, 9, 9, // unknown
        2, 1, 8, // unknown, again
        71, 2, 4, 5, // multiple BSSID
    ];
    let (_, info) = parse_station_info(&input).unwrap();
    assert_eq!(info.ibss_parameter_set, Some(0x1234));
    assert_eq!(info.country_info, Some(vec![b'D', b'E', b' ']));
    assert_eq!(info.power_constraint, Some(3));
    assert_eq!(info.he_capabilities, Some(vec![35, 1]));
    assert_eq!(info.ssid, Some(String::from("\u{fffd}ab")));
    assert_eq!(info.ssid_length, Some(3));
    assert_eq!(info.data, vec![(2, vec![9, 9]), (2, vec![8])]);
    assert_eq!(info.multiple_bssid.as_ref().unwrap().max_bssid_indicator, 4);
}

#[test]
fn station_info_hidden_names() {
    let mut info = StationInfo::default();
    assert_eq!(info.ssid(), "");
    assert_eq!(info.essid(), None);
    info.ssid = Some(String::new());
    assert_eq!(info.ssid(), "<hidden>");
    assert_eq!(info.essid(), Some(String::from("<hidden>")));
    info.ssid_length = Some(0);
    assert_eq!(info.ssid(), "<hidden>");
    info.ssid_length = Some(12);
    assert_eq!(info.ssid(), "<hidden: 12>");
    info.ssid_length = Some(7);
    assert_eq!(info.essid(), Some(String::from("<hidden: 7>")));
    info.ssid = Some(String::from("home"));
    assert_eq!(info.ssid(), "home");
    assert_eq!(info.essid(), Some(String::from("home")));
}

#[test]
fn station_info_channel_falls_back_to_ht_information() {
    let mut info = StationInfo::default();
    assert_eq!(info.channel(), None);
    info.ht_information = Some(parse_ht_information(&[36, 0]).unwrap());
    assert_eq!(info.channel(), Some(36));
    info.ds_parameter_set = Some(1);
    assert_eq!(info.channel(), Some(1));
}

#[test]
fn station_info_encode_in_order() {
    let mut info = StationInfo::default();
    info.data.push((2, vec![1, 2]));
    info.ssid = Some(String::from("ab"));
    info.supported_rates = vec![SupportedRate { mandatory: true, rate: 2 }];
    info.ds_parameter_set = Some(6);
    info.rsn_information = Some(RsnInformation {
        version: 1,
        group_cipher_suite: RsnCipherSuite::CCMP,
        pairwise_cipher_suites: vec![],
        akm_suites: vec![RsnAkmSuite::PSK],
        pre_auth: false,
        no_pairwise: false,
        ptksa_replay_counter: 0,
        gtksa_replay_counter: 2,
        mfp_required: false,
        mfp_capable: true,
        joint_multi_band_rsna: false,
        peerkey_enabled: false,
        extended_key_id: false,
        ocvc: false,
    });
    info.wpa_info = Some(parse_wpa_information(&[1, 0, 0, 0x50, 0xf2, 2, 0, 0, 0, 0]).unwrap());
    info.channel_switch = parse_channel_switch(&[1, 6, 3]);
    let bytes = info.encode();
    assert_eq!(
        bytes,
        vec![
            0, 2, b'a', b'b', // name
            1, 1, 0x82, // rates
            3, 1, 6, // channel
            48, 16, 1, 0, 0, 0x0f, 0xac, 4, 0, 0, 1, 0, 0, 0x0f, 0xac, 2, 0xa0, 0, // RSN
            221, 14, 0, 0x50, 0xf2, 1, 1, 0, 0, 0x50, 0xf2, 2, 0, 0, 0, 0, // WPA
            37, 3, 1, 6, 3, // channel switch
            2, 2, 1, 2, // residual
        ]
    );
    let (rest, again) = parse_station_info(&bytes).unwrap();
    assert!(rest.is_empty());
    assert_eq!(again.encode(), bytes);
    assert_eq!(again.ssid_length, Some(2));
}

#[test]
fn station_info_refused_body_clears_what_was_held() {
    let good = [48, 12, 1, 0, 0, 0x0f, 0xac, 4, 0, 0, 0, 0, 0, 0];
    let (_, info) = parse_station_info(&good).unwrap();
    assert!(info.rsn_information.is_some());
    let mut twice = good.to_vec();
    twice.extend_from_slice(&[48, 4, 2, 0, 0, 0]);
    let (_, info) = parse_station_info(&twice).unwrap();
    assert!(info.rsn_information.is_none());
    let (_, info) = parse_station_info(&[61, 2, 9, 0, 61, 1, 9, 5, 2, 0, 0]).unwrap();
    assert!(info.ht_information.is_none());
    let (_, info) = parse_station_info(&[37, 3, 1, 6, 3, 37, 2, 1, 6]).unwrap();
    assert!(info.channel_switch.is_none());
}

#[test]
fn station_info_walk_ends_on_large_inputs() {
    // 65536 bytes of elements with empty bodies, then of elements of every length.
    let zeros = vec![0u8; 65536];
    let (rest, info) = parse_station_info(&zeros).unwrap();
    assert!(rest.len() < 4);
    assert!(info.ssid.is_none());
    let mut input = Vec::new();
    let mut length: u8 = 0;
    while input.len() < 65536 {
        input.push(200);
        input.push(length);
        for _ in 0..length {
            input.push(0xaa);
        }
        length = length.wrapping_add(1);
    }
    input.truncate(65536);
    match parse_station_info(&input) {
        Ok((rest, info)) => {
            assert!(rest.len() < 4);
            assert!(info.data.len() > 255);
        }
        Err(Error::Failure(context, _)) => {
            assert_eq!(context, "information element length exceeds remaining input");
        }
        Err(other) => panic!("unexpected error {other:?}"),
    }
}

#[test]
fn wps_information_encode_writes_what_is_announced() {
    let mut wps = WpsInformation::default();
    assert_eq!(wps.encode(), vec![0x10, 0x57, 0, 1, 1]);
    wps.setup_state = WpsSetupState::Configured;
    wps.manufacturer = String::from("Acme");
    wps.primary_device_type = String::from("Notebook");
    wps.device_name = String::from("\u{20ac}");
    let bytes = wps.encode();
    assert_eq!(
        bytes,
        vec![
            0x10, 0x57, 0, 1, 2, // setup state
            0x10, 0x21, 0, 4, b'A', b'c', b'm', b'e', // manufacturer
            0x10, 0x54, 0, 8, 0, 1, 0, 0x50, 0xf2, 4, 0, 5, // a notebook
            0x10, 0x11, 0, 3, 0xe2, 0x82, 0xac, // device name
        ]
    );
    let again = parse_wps_information(&bytes).unwrap();
    assert_eq!(again.setup_state, WpsSetupState::Configured);
    assert_eq!(again.manufacturer, "Acme");
    assert_eq!(again.primary_device_type, "Notebook");
    assert_eq!(again.device_name, "\u{20ac}");
    assert_eq!(again.encode(), bytes);
    // A device type that the table does not hold is not written.
    wps.primary_device_type = String::from("Toaster");
    assert_eq!(wps.encode().len(), bytes.len() - 12);
}

#[test]
fn device_types_by_name() {
    assert_eq!(find_device_type("PC"), Some((1, 1)));
    assert_eq!(find_device_type("Ultrabook"), Some((1, 10)));
    assert_eq!(find_device_type("NAS"), Some((5, 1)));
    assert_eq!(find_device_type("Access Point"), Some((6, 1)));
    assert_eq!(find_device_type("Media Kiosk"), Some((12, 2)));
    assert_eq!(find_device_type(""), None);
    assert_eq!(find_device_type("pc"), None);
    assert_eq!(find_device_type("Others"), None);
    for value in 1..=12u16 {
        for subvalue in 1..=10u16 {
            if let Some(category) = category_from_codes(value, subvalue) {
                let found = find_device_type(category.label()).unwrap();
                assert_eq!(category_from_codes(found.0, found.1), Some(category));
            }
        }
    }
    assert_eq!(category_from_codes(0, 1), None);
    assert_eq!(category_from_codes(13, 1), None);
}

#[test]
fn station_info_encode_writes_wps_as_a_vendor_element() {
    let mut info = StationInfo::default();
    let mut wps = WpsInformation::default();
    wps.model = String::from("X1");
    info.wps_info = Some(wps);
    let bytes = info.encode();
    assert_eq!(
        bytes,
        vec![221, 15, 0x00, 0x50, 0xf2, 4, 0x10, 0x57, 0, 1, 1, 0x10, 0x23, 0, 2, b'X', b'1']
    );
    let (rest, again) = parse_station_info(&bytes).unwrap();
    assert!(rest.is_empty());
    assert_eq!(again.wps_info.unwrap().model, "X1");
}
