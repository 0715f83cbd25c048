//! The decoder of the extended capabilities element.

use crate::bitfield::{bits_of_bytes, bit_seq, resized, BitBuffer};
use crate::frame::components::extended_capabilities::{
    ExtendedCapabilities, EXTENDED_CAPABILITY_BITS,
};
use vstd::prelude::*;
use vstd::slice::slice_subrange;

verus! {

pub const EXTENDED_CAPABILITIES_EMPTY: &'static str = "Extended capabilities is empty";

/// The bitmap of 90 bits that the body of an element stands for: its bits, lowest bit of
/// the first byte first, cut to 90 or filled up with clear bits.
pub open spec fn capability_bits(data: Seq<u8>) -> Seq<bool> {
    resized(bits_of_bytes(data), EXTENDED_CAPABILITY_BITS as nat, false)
}

/// What the body of an extended capabilities element stands for. An empty body is refused.
pub open spec fn extended_capabilities_of(data: Seq<u8>) -> Result<
    ExtendedCapabilities,
    &'static str,
> {
    if data.len() == 0 {
        Err(EXTENDED_CAPABILITIES_EMPTY)
    } else {
        Ok(ExtendedCapabilities::of(capability_bits(data)))
    }
}

/// A number from up to three bits, lowest first.
fn number(b0: bool, b1: bool, b2: bool) -> (n: u8)
    ensures
        n == crate::frame::components::extended_capabilities::unit(b0) + 2
            * crate::frame::components::extended_capabilities::unit(b1) + 4
            * crate::frame::components::extended_capabilities::unit(b2),
{
    let n0: u8 = if b0 {
        1
    } else {
        0
    };
    let n1: u8 = if b1 {
        2
    } else {
        0
    };
    let n2: u8 = if b2 {
        4
    } else {
        0
    };
    n0 + n1 + n2
}

/// Decodes the body of an extended capabilities element.
pub fn parse_extended_capabilities(data: &[u8]) -> (r: Result<ExtendedCapabilities, &'static str>)
    ensures
        r == extended_capabilities_of(data@),
{
    if data.len() == 0 {
        return Err(EXTENDED_CAPABILITIES_EMPTY);
    }
    let used = if data.len() > 12 {
        slice_subrange(data, 0, 12)
    } else {
        data
    };
    let mut b = BitBuffer::from_bytes(used);
    b.resize(EXTENDED_CAPABILITY_BITS, false);
    assert(bit_seq(b) =~= capability_bits(data@));
    Ok(
        ExtendedCapabilities {
            bss_coexistence_management_support: b.get(0),
            glk: b.get(1),
            extended_channel_switching: b.get(2),
            glk_gcr: b.get(3),
            psmp_capability: b.get(4),
            s_psmp_capability: b.get(6),
            event: b.get(7),
            diagnostics: b.get(8),
            multicast_diagnostics: b.get(9),
            location_tracking: b.get(10),
            fms: b.get(11),
            proxy_arp_service: b.get(12),
            collocated_interference_reporting: b.get(13),
            civic_location: b.get(14),
            geospatial_location: b.get(15),
            tfs: b.get(16),
            wnm_sleep_mode: b.get(17),
            tim_broadcast: b.get(18),
            bss_transition: b.get(19),
            qos_traffic_capability: b.get(20),
            ac_station_count: b.get(21),
            multiple_bssid: b.get(22),
            timing_measurement: b.get(23),
            channel_usage: b.get(24),
            ssid_list: b.get(25),
            dms: b.get(26),
            utc_tsf_offset: b.get(27),
            tpu_buffer_sta_support: b.get(28),
            tdls_peer_psm_support: b.get(29),
            tdls_channel_switching: b.get(30),
            internetworking: b.get(31),
            qos_map: b.get(32),
            ebr: b.get(33),
            sspn_interface: b.get(34),
            msgcf_capability: b.get(36),
            tdls_support: b.get(37),
            tdls_prohibited: b.get(38),
            tdls_channel_switching_prohibited: b.get(39),
            reject_unadmitted_frame: b.get(40),
            service_interval_granularity: number(b.get(41), b.get(42), b.get(43)),
            identifier_location: b.get(44),
            uapsd_coexistence: b.get(45),
            wnm_notification: b.get(46),
            qab_capability: b.get(47),
            utf8_ssid: b.get(48),
            qmf_activated: b.get(49),
            qmf_reconfiguration_activated: b.get(50),
            robust_av_streaming: b.get(51),
            advanced_gcr: b.get(52),
            mesh_gcr: b.get(53),
            scs: b.get(54),
            qload_report: b.get(55),
            alternate_edca: b.get(56),
            unprotected_txop_negotiation: b.get(57),
            protected_txop_negotiation: b.get(58),
            protected_qload_report: b.get(60),
            tdls_wider_bandwidth: b.get(61),
            operating_mode_notification: b.get(62),
            max_number_of_msdus_in_amsdu: number(b.get(63), b.get(64), false),
            channel_schedule_management: b.get(65),
            geodatabase_inband_enabling_signal: b.get(66),
            network_channel_control: b.get(67),
            white_space_map: b.get(68),
            channel_availability_query: b.get(69),
            fine_timing_measurement_responder: b.get(70),
            fine_timing_measurement_initiator: b.get(71),
            fils_capability: b.get(72),
            extended_spectrum_management_capable: b.get(73),
            future_channel_guidance: b.get(74),
            pad: b.get(75),
            twt_requester_support: b.get(77),
            twt_responder_support: b.get(78),
            obss_narrow_bandwidth_ru_in_odfma_tolerance_support: b.get(79),
            complete_list_of_nontxbssid_profiles: b.get(80),
            sae_password_in_use: b.get(81),
            sae_password_used_exclusively: b.get(82),
            enhanced_multibssid_advertisement_support: b.get(83),
            beacon_protection_enabled: b.get(84),
            mirrored_scs: b.get(85),
            oct: b.get(86),
            local_mac_address_policy: b.get(87),
            twt_parameters_range_support: b.get(89),
        },
    )
}

/// The capabilities whose numbers fit their bits come back from their own bitmap.
pub proof fn lemma_capabilities_of_bits(c: ExtendedCapabilities)
    requires
        c.wf(),
    ensures
        ExtendedCapabilities::of(c.bits()) == c,
{
}

} // verus!
