//! The extended capabilities element: a bitmap of 90 bits, most of them one flag each.

use crate::bitfield::{bits_of_bytes, resized, trailing_zero_count, BitBuffer, bit_seq};
use vstd::prelude::*;

verus! {

/// The number of bits of the bitmap.
pub const EXTENDED_CAPABILITY_BITS: usize = 90;

/// The extended capabilities of a station. Each flag is one bit of the bitmap, at the
/// place given beside it; the two numbers take the bits named beside them, lowest first.
/// Bits 5, 35, 59, 76 and 88 are reserved.
#[derive(Debug, Clone, Copy, PartialEq, Eq)]
pub struct ExtendedCapabilities {
    /// Bit 0.
    pub bss_coexistence_management_support: bool,
    /// Bit 1.
    pub glk: bool,
    /// Bit 2.
    pub extended_channel_switching: bool,
    /// Bit 3.
    pub glk_gcr: bool,
    /// Bit 4.
    pub psmp_capability: bool,
    /// Bit 6.
    pub s_psmp_capability: bool,
    /// Bit 7.
    pub event: bool,
    /// Bit 8.
    pub diagnostics: bool,
    /// Bit 9.
    pub multicast_diagnostics: bool,
    /// Bit 10.
    pub location_tracking: bool,
    /// Bit 11.
    pub fms: bool,
    /// Bit 12.
    pub proxy_arp_service: bool,
    /// Bit 13.
    pub collocated_interference_reporting: bool,
    /// Bit 14.
    pub civic_location: bool,
    /// Bit 15.
    pub geospatial_location: bool,
    /// Bit 16.
    pub tfs: bool,
    /// Bit 17.
    pub wnm_sleep_mode: bool,
    /// Bit 18.
    pub tim_broadcast: bool,
    /// Bit 19.
    pub bss_transition: bool,
    /// Bit 20.
    pub qos_traffic_capability: bool,
    /// Bit 21.
    pub ac_station_count: bool,
    /// Bit 22.
    pub multiple_bssid: bool,
    /// Bit 23.
    pub timing_measurement: bool,
    /// Bit 24.
    pub channel_usage: bool,
    /// Bit 25.
    pub ssid_list: bool,
    /// Bit 26.
    pub dms: bool,
    /// Bit 27.
    pub utc_tsf_offset: bool,
    /// Bit 28.
    pub tpu_buffer_sta_support: bool,
    /// Bit 29.
    pub tdls_peer_psm_support: bool,
    /// Bit 30.
    pub tdls_channel_switching: bool,
    /// Bit 31.
    pub internetworking: bool,
    /// Bit 32.
    pub qos_map: bool,
    /// Bit 33.
    pub ebr: bool,
    /// Bit 34.
    pub sspn_interface: bool,
    /// Bit 36.
    pub msgcf_capability: bool,
    /// Bit 37.
    pub tdls_support: bool,
    /// Bit 38.
    pub tdls_prohibited: bool,
    /// Bit 39.
    pub tdls_channel_switching_prohibited: bool,
    /// Bit 40.
    pub reject_unadmitted_frame: bool,
    /// Bits 41 to 43.
    pub service_interval_granularity: u8,
    /// Bit 44.
    pub identifier_location: bool,
    /// Bit 45.
    pub uapsd_coexistence: bool,
    /// Bit 46.
    pub wnm_notification: bool,
    /// Bit 47.
    pub qab_capability: bool,
    /// Bit 48.
    pub utf8_ssid: bool,
    /// Bit 49.
    pub qmf_activated: bool,
    /// Bit 50.
    pub qmf_reconfiguration_activated: bool,
    /// Bit 51.
    pub robust_av_streaming: bool,
    /// Bit 52.
    pub advanced_gcr: bool,
    /// Bit 53.
    pub mesh_gcr: bool,
    /// Bit 54.
    pub scs: bool,
    /// Bit 55.
    pub qload_report: bool,
    /// Bit 56.
    pub alternate_edca: bool,
    /// Bit 57.
    pub unprotected_txop_negotiation: bool,
    /// Bit 58.
    pub protected_txop_negotiation: bool,
    /// Bit 60.
    pub protected_qload_report: bool,
    /// Bit 61.
    pub tdls_wider_bandwidth: bool,
    /// Bit 62.
    pub operating_mode_notification: bool,
    /// Bits 63 to 64.
    pub max_number_of_msdus_in_amsdu: u8,
    /// Bit 65.
    pub channel_schedule_management: bool,
    /// Bit 66.
    pub geodatabase_inband_enabling_signal: bool,
    /// Bit 67.
    pub network_channel_control: bool,
    /// Bit 68.
    pub white_space_map: bool,
    /// Bit 69.
    pub channel_availability_query: bool,
    /// Bit 70.
    pub fine_timing_measurement_responder: bool,
    /// Bit 71.
    pub fine_timing_measurement_initiator: bool,
    /// Bit 72.
    pub fils_capability: bool,
    /// Bit 73.
    pub extended_spectrum_management_capable: bool,
    /// Bit 74.
    pub future_channel_guidance: bool,
    /// Bit 75.
    pub pad: bool,
    /// Bit 77.
    pub twt_requester_support: bool,
    /// Bit 78.
    pub twt_responder_support: bool,
    /// Bit 79.
    pub obss_narrow_bandwidth_ru_in_odfma_tolerance_support: bool,
    /// Bit 80.
    pub complete_list_of_nontxbssid_profiles: bool,
    /// Bit 81.
    pub sae_password_in_use: bool,
    /// Bit 82.
    pub sae_password_used_exclusively: bool,
    /// Bit 83.
    pub enhanced_multibssid_advertisement_support: bool,
    /// Bit 84.
    pub beacon_protection_enabled: bool,
    /// Bit 85.
    pub mirrored_scs: bool,
    /// Bit 86.
    pub oct: bool,
    /// Bit 87.
    pub local_mac_address_policy: bool,
    /// Bit 89.
    pub twt_parameters_range_support: bool,
}

/// 1 for a bit that is set, 0 for one that is clear.
pub open spec fn unit(b: bool) -> int {
    if b {
        1
    } else {
        0
    }
}

impl ExtendedCapabilities {
    /// Bit `i` of the bitmap of these capabilities. Reserved bits are clear.
    pub open spec fn bit(self, i: int) -> bool {
        if i == 0 {
            self.bss_coexistence_management_support
        } else if i == 1 {
            self.glk
        } else if i == 2 {
            self.extended_channel_switching
        } else if i == 3 {
            self.glk_gcr
        } else if i == 4 {
            self.psmp_capability
        } else if i == 6 {
            self.s_psmp_capability
        } else if i == 7 {
            self.event
        } else if i == 8 {
            self.diagnostics
        } else if i == 9 {
            self.multicast_diagnostics
        } else if i == 10 {
            self.location_tracking
        } else if i == 11 {
            self.fms
        } else if i == 12 {
            self.proxy_arp_service
        } else if i == 13 {
            self.collocated_interference_reporting
        } else if i == 14 {
            self.civic_location
        } else if i == 15 {
            self.geospatial_location
        } else if i == 16 {
            self.tfs
        } else if i == 17 {
            self.wnm_sleep_mode
        } else if i == 18 {
            self.tim_broadcast
        } else if i == 19 {
            self.bss_transition
        } else if i == 20 {
            self.qos_traffic_capability
        } else if i == 21 {
            self.ac_station_count
        } else if i == 22 {
            self.multiple_bssid
        } else if i == 23 {
            self.timing_measurement
        } else if i == 24 {
            self.channel_usage
        } else if i == 25 {
            self.ssid_list
        } else if i == 26 {
            self.dms
        } else if i == 27 {
            self.utc_tsf_offset
        } else if i == 28 {
            self.tpu_buffer_sta_support
        } else if i == 29 {
            self.tdls_peer_psm_support
        } else if i == 30 {
            self.tdls_channel_switching
        } else if i == 31 {
            self.internetworking
        } else if i == 32 {
            self.qos_map
        } else if i == 33 {
            self.ebr
        } else if i == 34 {
            self.sspn_interface
        } else if i == 36 {
            self.msgcf_capability
        } else if i == 37 {
            self.tdls_support
        } else if i == 38 {
            self.tdls_prohibited
        } else if i == 39 {
            self.tdls_channel_switching_prohibited
        } else if i == 40 {
            self.reject_unadmitted_frame
        } else if i == 41 {
            self.service_interval_granularity % 2 == 1
        } else if i == 42 {
            self.service_interval_granularity / 2 % 2 == 1
        } else if i == 43 {
            self.service_interval_granularity / 4 % 2 == 1
        } else if i == 44 {
            self.identifier_location
        } else if i == 45 {
            self.uapsd_coexistence
        } else if i == 46 {
            self.wnm_notification
        } else if i == 47 {
            self.qab_capability
        } else if i == 48 {
            self.utf8_ssid
        } else if i == 49 {
            self.qmf_activated
        } else if i == 50 {
            self.qmf_reconfiguration_activated
        } else if i == 51 {
            self.robust_av_streaming
        } else if i == 52 {
            self.advanced_gcr
        } else if i == 53 {
            self.mesh_gcr
        } else if i == 54 {
            self.scs
        } else if i == 55 {
            self.qload_report
        } else if i == 56 {
            self.alternate_edca
        } else if i == 57 {
            self.unprotected_txop_negotiation
        } else if i == 58 {
            self.protected_txop_negotiation
        } else if i == 60 {
            self.protected_qload_report
        } else if i == 61 {
            self.tdls_wider_bandwidth
        } else if i == 62 {
            self.operating_mode_notification
        } else if i == 63 {
            self.max_number_of_msdus_in_amsdu % 2 == 1
        } else if i == 64 {
            self.max_number_of_msdus_in_amsdu / 2 % 2 == 1
        } else if i == 65 {
            self.channel_schedule_management
        } else if i == 66 {
            self.geodatabase_inband_enabling_signal
        } else if i == 67 {
            self.network_channel_control
        } else if i == 68 {
            self.white_space_map
        } else if i == 69 {
            self.channel_availability_query
        } else if i == 70 {
            self.fine_timing_measurement_responder
        } else if i == 71 {
            self.fine_timing_measurement_initiator
        } else if i == 72 {
            self.fils_capability
        } else if i == 73 {
            self.extended_spectrum_management_capable
        } else if i == 74 {
            self.future_channel_guidance
        } else if i == 75 {
            self.pad
        } else if i == 77 {
            self.twt_requester_support
        } else if i == 78 {
            self.twt_responder_support
        } else if i == 79 {
            self.obss_narrow_bandwidth_ru_in_odfma_tolerance_support
        } else if i == 80 {
            self.complete_list_of_nontxbssid_profiles
        } else if i == 81 {
            self.sae_password_in_use
        } else if i == 82 {
            self.sae_password_used_exclusively
        } else if i == 83 {
            self.enhanced_multibssid_advertisement_support
        } else if i == 84 {
            self.beacon_protection_enabled
        } else if i == 85 {
            self.mirrored_scs
        } else if i == 86 {
            self.oct
        } else if i == 87 {
            self.local_mac_address_policy
        } else if i == 89 {
            self.twt_parameters_range_support
        } else {
            false
        }
    }

    /// The bitmap of these capabilities.
    pub open spec fn bits(self) -> Seq<bool> {
        Seq::new(EXTENDED_CAPABILITY_BITS as nat, |i: int| self.bit(i))
    }

    /// The capabilities that a bitmap of 90 bits stands for.
    pub open spec fn of(bits: Seq<bool>) -> ExtendedCapabilities {
        ExtendedCapabilities {
            bss_coexistence_management_support: bits[0],
            glk: bits[1],
            extended_channel_switching: bits[2],
            glk_gcr: bits[3],
            psmp_capability: bits[4],
            s_psmp_capability: bits[6],
            event: bits[7],
            diagnostics: bits[8],
            multicast_diagnostics: bits[9],
            location_tracking: bits[10],
            fms: bits[11],
            proxy_arp_service: bits[12],
            collocated_interference_reporting: bits[13],
            civic_location: bits[14],
            geospatial_location: bits[15],
            tfs: bits[16],
            wnm_sleep_mode: bits[17],
            tim_broadcast: bits[18],
            bss_transition: bits[19],
            qos_traffic_capability: bits[20],
            ac_station_count: bits[21],
            multiple_bssid: bits[22],
            timing_measurement: bits[23],
            channel_usage: bits[24],
            ssid_list: bits[25],
            dms: bits[26],
            utc_tsf_offset: bits[27],
            tpu_buffer_sta_support: bits[28],
            tdls_peer_psm_support: bits[29],
            tdls_channel_switching: bits[30],
            internetworking: bits[31],
            qos_map: bits[32],
            ebr: bits[33],
            sspn_interface: bits[34],
            msgcf_capability: bits[36],
            tdls_support: bits[37],
            tdls_prohibited: bits[38],
            tdls_channel_switching_prohibited: bits[39],
            reject_unadmitted_frame: bits[40],
            service_interval_granularity: (unit(bits[41]) + 2 * unit(bits[42]) + 4 * unit(bits[43]))
                as u8,
            identifier_location: bits[44],
            uapsd_coexistence: bits[45],
            wnm_notification: bits[46],
            qab_capability: bits[47],
            utf8_ssid: bits[48],
            qmf_activated: bits[49],
            qmf_reconfiguration_activated: bits[50],
            robust_av_streaming: bits[51],
            advanced_gcr: bits[52],
            mesh_gcr: bits[53],
            scs: bits[54],
            qload_report: bits[55],
            alternate_edca: bits[56],
            unprotected_txop_negotiation: bits[57],
            protected_txop_negotiation: bits[58],
            protected_qload_report: bits[60],
            tdls_wider_bandwidth: bits[61],
            operating_mode_notification: bits[62],
            max_number_of_msdus_in_amsdu: (unit(bits[63]) + 2 * unit(bits[64])) as u8,
            channel_schedule_management: bits[65],
            geodatabase_inband_enabling_signal: bits[66],
            network_channel_control: bits[67],
            white_space_map: bits[68],
            channel_availability_query: bits[69],
            fine_timing_measurement_responder: bits[70],
            fine_timing_measurement_initiator: bits[71],
            fils_capability: bits[72],
            extended_spectrum_management_capable: bits[73],
            future_channel_guidance: bits[74],
            pad: bits[75],
            twt_requester_support: bits[77],
            twt_responder_support: bits[78],
            obss_narrow_bandwidth_ru_in_odfma_tolerance_support: bits[79],
            complete_list_of_nontxbssid_profiles: bits[80],
            sae_password_in_use: bits[81],
            sae_password_used_exclusively: bits[82],
            enhanced_multibssid_advertisement_support: bits[83],
            beacon_protection_enabled: bits[84],
            mirrored_scs: bits[85],
            oct: bits[86],
            local_mac_address_policy: bits[87],
            twt_parameters_range_support: bits[89],
        }
    }

    /// The numbers fit the bits that the bitmap has for them.
    pub open spec fn wf(self) -> bool {
        self.service_interval_granularity < 8 && self.max_number_of_msdus_in_amsdu < 4
    }

    /// Bit `i` of the bitmap of these capabilities.
    pub fn bit_at(&self, i: usize) -> (b: bool)
        ensures
            b == self.bit(i as int),
    {
        match i {
            0 => self.bss_coexistence_management_support,
            1 => self.glk,
            2 => self.extended_channel_switching,
            3 => self.glk_gcr,
            4 => self.psmp_capability,
            6 => self.s_psmp_capability,
            7 => self.event,
            8 => self.diagnostics,
            9 => self.multicast_diagnostics,
            10 => self.location_tracking,
            11 => self.fms,
            12 => self.proxy_arp_service,
            13 => self.collocated_interference_reporting,
            14 => self.civic_location,
            15 => self.geospatial_location,
            16 => self.tfs,
            17 => self.wnm_sleep_mode,
            18 => self.tim_broadcast,
            19 => self.bss_transition,
            20 => self.qos_traffic_capability,
            21 => self.ac_station_count,
            22 => self.multiple_bssid,
            23 => self.timing_measurement,
            24 => self.channel_usage,
            25 => self.ssid_list,
            26 => self.dms,
            27 => self.utc_tsf_offset,
            28 => self.tpu_buffer_sta_support,
            29 => self.tdls_peer_psm_support,
            30 => self.tdls_channel_switching,
            31 => self.internetworking,
            32 => self.qos_map,
            33 => self.ebr,
            34 => self.sspn_interface,
            36 => self.msgcf_capability,
            37 => self.tdls_support,
            38 => self.tdls_prohibited,
            39 => self.tdls_channel_switching_prohibited,
            40 => self.reject_unadmitted_frame,
            41 => self.service_interval_granularity % 2 == 1,
            42 => self.service_interval_granularity / 2 % 2 == 1,
            43 => self.service_interval_granularity / 4 % 2 == 1,
            44 => self.identifier_location,
            45 => self.uapsd_coexistence,
            46 => self.wnm_notification,
            47 => self.qab_capability,
            48 => self.utf8_ssid,
            49 => self.qmf_activated,
            50 => self.qmf_reconfiguration_activated,
            51 => self.robust_av_streaming,
            52 => self.advanced_gcr,
            53 => self.mesh_gcr,
            54 => self.scs,
            55 => self.qload_report,
            56 => self.alternate_edca,
            57 => self.unprotected_txop_negotiation,
            58 => self.protected_txop_negotiation,
            60 => self.protected_qload_report,
            61 => self.tdls_wider_bandwidth,
            62 => self.operating_mode_notification,
            63 => self.max_number_of_msdus_in_amsdu % 2 == 1,
            64 => self.max_number_of_msdus_in_amsdu / 2 % 2 == 1,
            65 => self.channel_schedule_management,
            66 => self.geodatabase_inband_enabling_signal,
            67 => self.network_channel_control,
            68 => self.white_space_map,
            69 => self.channel_availability_query,
            70 => self.fine_timing_measurement_responder,
            71 => self.fine_timing_measurement_initiator,
            72 => self.fils_capability,
            73 => self.extended_spectrum_management_capable,
            74 => self.future_channel_guidance,
            75 => self.pad,
            77 => self.twt_requester_support,
            78 => self.twt_responder_support,
            79 => self.obss_narrow_bandwidth_ru_in_odfma_tolerance_support,
            80 => self.complete_list_of_nontxbssid_profiles,
            81 => self.sae_password_in_use,
            82 => self.sae_password_used_exclusively,
            83 => self.enhanced_multibssid_advertisement_support,
            84 => self.beacon_protection_enabled,
            85 => self.mirrored_scs,
            86 => self.oct,
            87 => self.local_mac_address_policy,
            89 => self.twt_parameters_range_support,
            _ => false,
        }
    }
}

/// What the bytes of an encoded bitmap are: the bitmap without the clear bits at its end,
/// eight bits to the byte, lowest bit first, the last byte filled up with clear bits.
pub open spec fn packs(bytes: Seq<u8>, bits: Seq<bool>) -> bool {
    let kept = bits.take(bits.len() - trailing_zero_count(bits));
    bytes.len() == (kept.len() + 7) / 8 && bits_of_bytes(bytes) == resized(
        kept,
        8 * bytes.len(),
        false,
    )
}

/// A byte is known by its eight bits.
proof fn lemma_byte_by_bits(a: u8, b: u8)
    by (bit_vector)
    requires
        (a >> 0u8) & 1u8 == (b >> 0u8) & 1u8,
        (a >> 1u8) & 1u8 == (b >> 1u8) & 1u8,
        (a >> 2u8) & 1u8 == (b >> 2u8) & 1u8,
        (a >> 3u8) & 1u8 == (b >> 3u8) & 1u8,
        (a >> 4u8) & 1u8 == (b >> 4u8) & 1u8,
        (a >> 5u8) & 1u8 == (b >> 5u8) & 1u8,
        (a >> 6u8) & 1u8 == (b >> 6u8) & 1u8,
        (a >> 7u8) & 1u8 == (b >> 7u8) & 1u8,
    ensures
        a == b,
{
}

/// The low bit of a byte is 0 or 1.
proof fn lemma_low_bit(a: u8)
    by (bit_vector)
    ensures
        a & 1u8 == 0u8 || a & 1u8 == 1u8,
{
}

/// Bit `j` of byte `k` is the same in byte strings with the same bits.
proof fn lemma_same_bit(x: Seq<u8>, y: Seq<u8>, k: int, j: int)
    requires
        bits_of_bytes(x) == bits_of_bytes(y),
        0 <= k < x.len(),
        0 <= j < 8,
    ensures
        (x[k] >> (j as u8)) & 1u8 == (y[k] >> (j as u8)) & 1u8,
{
    let i = 8 * k + j;
    assert(i / 8 == k && i % 8 == j);
    assert(bits_of_bytes(x).len() == 8 * x.len());
    assert(bits_of_bytes(y).len() == 8 * y.len());
    assert(bits_of_bytes(x)[i] == crate::bitfield::bit_at(x, i));
    assert(bits_of_bytes(y)[i] == crate::bitfield::bit_at(y, i));
    lemma_low_bit(x[k] >> (j as u8));
    lemma_low_bit(y[k] >> (j as u8));
}

/// Byte strings with the same bits are the same.
pub proof fn lemma_bits_of_bytes_injective(x: Seq<u8>, y: Seq<u8>)
    requires
        bits_of_bytes(x) == bits_of_bytes(y),
    ensures
        x == y,
{
    assert(bits_of_bytes(x).len() == 8 * x.len());
    assert(bits_of_bytes(y).len() == 8 * y.len());
    assert forall|k: int| 0 <= k < x.len() implies x[k] == y[k] by {
        lemma_same_bit(x, y, k, 0);
        lemma_same_bit(x, y, k, 1);
        lemma_same_bit(x, y, k, 2);
        lemma_same_bit(x, y, k, 3);
        lemma_same_bit(x, y, k, 4);
        lemma_same_bit(x, y, k, 5);
        lemma_same_bit(x, y, k, 6);
        lemma_same_bit(x, y, k, 7);
        lemma_byte_by_bits(x[k], y[k]);
    }
    assert(x =~= y);
}

impl ExtendedCapabilities {
    /// The body of the element: the bytes that pack the bitmap of these capabilities.
    pub open spec fn encode_spec(self) -> Seq<u8> {
        choose|bytes: Seq<u8>| packs(bytes, self.bits())
    }

    /// The body of this element on the wire.
    pub fn encode(&self) -> (bytes: Vec<u8>)
        ensures
            packs(bytes@, self.bits()),
            bytes@ == self.encode_spec(),
    {
        let mut b = BitBuffer::repeat(false, EXTENDED_CAPABILITY_BITS);
        let mut i: usize = 0;
        while i < EXTENDED_CAPABILITY_BITS
            invariant
                i <= EXTENDED_CAPABILITY_BITS,
                bit_seq(b).len() == EXTENDED_CAPABILITY_BITS,
                forall|j: int| 0 <= j < i ==> bit_seq(b)[j] == self.bit(j),
            decreases EXTENDED_CAPABILITY_BITS - i,
        {
            b.set(i, self.bit_at(i));
            i += 1;
        }
        assert(bit_seq(b) =~= self.bits());
        let unused = b.trailing_zeros();
        proof {
            lemma_trailing_zero_count(bit_seq(b));
        }
        let count = (EXTENDED_CAPABILITY_BITS - unused + 7) / 8;
        b.resize(8 * count, false);
        assert(bit_seq(b) =~= resized(
            self.bits().take(EXTENDED_CAPABILITY_BITS - unused),
            (8 * count) as nat,
            false,
        ));
        let bytes = b.into_bytes();
        proof {
            assert(bits_of_bytes(bytes@).len() == 8 * bytes@.len());
            assert(packs(bytes@, self.bits()));
            let other = self.encode_spec();
            assert(packs(other, self.bits()));
            assert(other.len() == bytes@.len());
            lemma_bits_of_bytes_injective(bytes@, other);
        }
        bytes
    }
}

/// The clear bits at the end of a bit string are no more than its length, and clear.
pub proof fn lemma_trailing_zero_count(bits: Seq<bool>)
    ensures
        trailing_zero_count(bits) <= bits.len(),
        forall|i: int| bits.len() - trailing_zero_count(bits) <= i < bits.len() ==> !bits[i],
        trailing_zero_count(bits) < bits.len() ==> bits[bits.len() - trailing_zero_count(bits) - 1],
    decreases bits.len(),
{
    if bits.len() > 0 && !bits.last() {
        let head = bits.drop_last();
        lemma_trailing_zero_count(head);
        assert forall|i: int| bits.len() - trailing_zero_count(bits) <= i < bits.len() implies
            !bits[i] by {
            if i < head.len() {
                assert(bits[i] == head[i]);
            }
        }
        if trailing_zero_count(bits) < bits.len() {
            assert(bits[bits.len() - trailing_zero_count(bits) - 1] == head[head.len()
                - trailing_zero_count(head) - 1]);
        }
    }
}

} // verus!
