//! The information elements of management frames, gathered into one record.

use super::extended_capabilities::ExtendedCapabilities;
use super::security::{
    wpa_oui, RsnInformation, RsnInformationView, WpaInformation, WpaInformationView,
};
use super::wps::{WpsInformation, WpsInformationView};
use crate::text::{decimal, decimal_text};
use crate::wire::{concat_all, opt_bytes, push_bytes, push_le_u16, u16_le_bytes};
use vstd::prelude::*;
use vstd::string::StringExecFns;

verus! {

/// A rate that a station supports, in units of 500 kbit/s, and whether every station of the
/// network must support it.
#[derive(Clone, Copy, Debug, PartialEq, Eq)]
pub struct SupportedRate {
    pub mandatory: bool,
    pub rate: u8,
}

impl SupportedRate {
    /// The rate that a byte of a rates element stands for: the high bit marks a mandatory
    /// rate, the other seven hold the rate.
    pub open spec fn of(byte: u8) -> SupportedRate {
        SupportedRate { mandatory: byte >= 128, rate: byte % 128 }
    }

    /// The byte of this rate. The rate is cut to seven bits.
    pub open spec fn byte(self) -> u8 {
        (self.rate % 128 + if self.mandatory {
            128int
        } else {
            0int
        }) as u8
    }

    /// The rate fits its seven bits.
    pub open spec fn wf(self) -> bool {
        self.rate < 128
    }

    /// The byte of this rate on the wire.
    pub fn encode(&self) -> (byte: u8)
        ensures
            byte == self.byte(),
    {
        if self.mandatory {
            self.rate % 128 + 128
        } else {
            self.rate % 128
        }
    }

    /// The rate in kbit/s.
    pub fn kbps(&self) -> (k: u32)
        ensures
            k == 500 * self.rate,
    {
        500 * (self.rate as u32)
    }
}

/// The bytes of a list of rates.
pub open spec fn rates_bytes(rates: Seq<SupportedRate>) -> Seq<u8> {
    rates.map_values(|r: SupportedRate| r.byte())
}

/// The rates of a list of bytes.
pub open spec fn rates_of(data: Seq<u8>) -> Seq<SupportedRate> {
    data.map_values(|b: u8| SupportedRate::of(b))
}

/// The capability information of a high-throughput station: the first two bytes of the HT
/// capabilities element, bit by bit.
#[derive(Clone, Copy, Debug, PartialEq, Eq)]
pub struct HTCapabilities {
    pub ldpc_coding_capability: bool,
    pub supported_channel_width: bool,
    pub sm_power_save: u8,
    pub green_field: bool,
    pub short_gi_20_mhz: bool,
    pub short_gi_40_mhz: bool,
    pub tx_stbc: bool,
    pub rx_stbc: u8,
    pub delayed_block_ack: bool,
    pub max_amsdu_length: bool,
    pub dsss_support: bool,
    pub psmp_support: bool,
    pub forty_mhz_intolerant: bool,
    pub l_sig_tx_op_protection: bool,
}

impl HTCapabilities {
    /// The capabilities that a 16-bit word stands for: bit 0 is LDPC coding, bit 1 the
    /// channel width, bits 2 and 3 the power save mode, and so on up to bit 15.
    pub open spec fn of(word: u16) -> HTCapabilities {
        HTCapabilities {
            ldpc_coding_capability: crate::wire::bit16(word, 0),
            supported_channel_width: crate::wire::bit16(word, 1),
            sm_power_save: (word / 4 % 4) as u8,
            green_field: crate::wire::bit16(word, 4),
            short_gi_20_mhz: crate::wire::bit16(word, 5),
            short_gi_40_mhz: crate::wire::bit16(word, 6),
            tx_stbc: crate::wire::bit16(word, 7),
            rx_stbc: (word / 256 % 4) as u8,
            delayed_block_ack: crate::wire::bit16(word, 10),
            max_amsdu_length: crate::wire::bit16(word, 11),
            dsss_support: crate::wire::bit16(word, 12),
            psmp_support: crate::wire::bit16(word, 13),
            forty_mhz_intolerant: crate::wire::bit16(word, 14),
            l_sig_tx_op_protection: crate::wire::bit16(word, 15),
        }
    }

    /// The low byte of the word of these capabilities: bits 0 to 7.
    pub open spec fn low_byte(self) -> int {
        super::security::bit(self.ldpc_coding_capability) + 2 * super::security::bit(
            self.supported_channel_width,
        ) + 4 * (self.sm_power_save % 4) + 16 * super::security::bit(self.green_field) + 32
            * super::security::bit(self.short_gi_20_mhz) + 64 * super::security::bit(
            self.short_gi_40_mhz,
        ) + 128 * super::security::bit(self.tx_stbc)
    }

    /// The high byte of the word of these capabilities: bits 8 to 15.
    pub open spec fn high_byte(self) -> int {
        self.rx_stbc % 4 + 4 * super::security::bit(self.delayed_block_ack) + 8
            * super::security::bit(self.max_amsdu_length) + 16 * super::security::bit(
            self.dsss_support,
        ) + 32 * super::security::bit(self.psmp_support) + 64 * super::security::bit(
            self.forty_mhz_intolerant,
        ) + 128 * super::security::bit(self.l_sig_tx_op_protection)
    }

    /// The word of these capabilities. The two numbers are cut to two bits.
    pub open spec fn word(self) -> u16 {
        (self.low_byte() + 256 * self.high_byte()) as u16
    }

    /// The two numbers fit their two bits.
    pub open spec fn wf(self) -> bool {
        self.sm_power_save < 4 && self.rx_stbc < 4
    }

    fn low(&self) -> (b: u16)
        ensures
            b == self.low_byte(),
            b <= 255,
    {
        let b0 = flag(self.ldpc_coding_capability);
        let b1 = flag(self.supported_channel_width);
        let sm = (self.sm_power_save % 4) as u16;
        let b4 = flag(self.green_field);
        let b5 = flag(self.short_gi_20_mhz);
        let b6 = flag(self.short_gi_40_mhz);
        let b7 = flag(self.tx_stbc);
        b0 + 2 * b1 + 4 * sm + 16 * b4 + 32 * b5 + 64 * b6 + 128 * b7
    }

    fn high(&self) -> (b: u16)
        ensures
            b == self.high_byte(),
            b <= 255,
    {
        let rx = (self.rx_stbc % 4) as u16;
        let b10 = flag(self.delayed_block_ack);
        let b11 = flag(self.max_amsdu_length);
        let b12 = flag(self.dsss_support);
        let b13 = flag(self.psmp_support);
        let b14 = flag(self.forty_mhz_intolerant);
        let b15 = flag(self.l_sig_tx_op_protection);
        rx + 4 * b10 + 8 * b11 + 16 * b12 + 32 * b13 + 64 * b14 + 128 * b15
    }

    /// The word of these capabilities.
    pub fn to_word(&self) -> (word: u16)
        ensures
            word == self.word(),
    {
        self.low() + 256 * self.high()
    }

    /// The two bytes of these capabilities on the wire.
    pub fn encode(&self) -> (bytes: Vec<u8>)
        ensures
            bytes@ == u16_le_bytes(self.word()),
    {
        let mut bytes: Vec<u8> = Vec::new();
        push_le_u16(&mut bytes, self.to_word());
        bytes
    }
}

fn flag(b: bool) -> (n: u16)
    ensures
        n == super::security::bit(b),
        n <= 1,
{
    reveal(super::security::bit);
    if b {
        1
    } else {
        0
    }
}

/// The operation of a high-throughput network: the primary channel, the offset of the
/// secondary channel (two bits), whether any channel width is allowed, and the bytes that
/// follow the first two.
#[derive(Debug, Clone)]
pub struct HTInformation {
    pub primary_channel: u8,
    pub secondary_channel_offset: u8,
    pub supported_channel_width: bool,
    pub other_data: Vec<u8>,
}

/// A [`HTInformation`] as a mathematical value.
pub ghost struct HTInformationView {
    pub primary_channel: u8,
    pub secondary_channel_offset: u8,
    pub supported_channel_width: bool,
    pub other_data: Seq<u8>,
}

impl View for HTInformation {
    type V = HTInformationView;

    open spec fn view(&self) -> HTInformationView {
        HTInformationView {
            primary_channel: self.primary_channel,
            secondary_channel_offset: self.secondary_channel_offset,
            supported_channel_width: self.supported_channel_width,
            other_data: self.other_data@,
        }
    }
}

impl DeepView for HTInformation {
    type V = HTInformationView;

    open spec fn deep_view(&self) -> HTInformationView {
        self@
    }
}

impl HTInformationView {
    /// The body of the element. The offset is cut to two bits.
    pub open spec fn encode(self) -> Seq<u8> {
        seq![
            self.primary_channel,
            (self.secondary_channel_offset % 4 + 4 * super::security::bit(
                self.supported_channel_width,
            )) as u8,
        ] + self.other_data
    }

    /// The offset fits its two bits.
    pub open spec fn wf(self) -> bool {
        self.secondary_channel_offset < 4
    }
}

impl HTInformation {
    /// The body of this element on the wire.
    pub fn encode(&self) -> (bytes: Vec<u8>)
        ensures
            bytes@ == self@.encode(),
    {
        let mut data: Vec<u8> = Vec::new();
        data.push(self.primary_channel);
        let width: u8 = if self.supported_channel_width {
            4
        } else {
            0
        };
        reveal(super::security::bit);
        data.push(self.secondary_channel_offset % 4 + width);
        push_bytes(&mut data, self.other_data.as_slice());
        assert(data@ =~= self@.encode());
        data
    }
}

/// The multiple BSSID element: the indicator of the largest number of networks, and the
/// bytes that follow it.
#[derive(Debug, Clone)]
pub struct MultipleBSSID {
    pub max_bssid_indicator: u8,
    pub other_data: Vec<u8>,
}

/// A [`MultipleBSSID`] as a mathematical value.
pub ghost struct MultipleBSSIDView {
    pub max_bssid_indicator: u8,
    pub other_data: Seq<u8>,
}

impl View for MultipleBSSID {
    type V = MultipleBSSIDView;

    open spec fn view(&self) -> MultipleBSSIDView {
        MultipleBSSIDView {
            max_bssid_indicator: self.max_bssid_indicator,
            other_data: self.other_data@,
        }
    }
}

impl DeepView for MultipleBSSID {
    type V = MultipleBSSIDView;

    open spec fn deep_view(&self) -> MultipleBSSIDView {
        self@
    }
}

impl MultipleBSSIDView {
    /// The body of the element.
    pub open spec fn encode(self) -> Seq<u8> {
        seq![self.max_bssid_indicator] + self.other_data
    }
}

impl MultipleBSSID {
    /// The body of this element on the wire.
    pub fn encode(&self) -> (bytes: Vec<u8>)
        ensures
            bytes@ == self@.encode(),
    {
        let mut data: Vec<u8> = Vec::new();
        data.push(self.max_bssid_indicator);
        push_bytes(&mut data, self.other_data.as_slice());
        assert(data@ =~= self@.encode());
        data
    }
}

/// Whether stations must stay silent until the channel switch.
#[derive(Debug, Clone, Copy, PartialEq, Eq, Structural)]
pub enum ChannelSwitchMode {
    Restrict,
    Unrestricted,
}

impl ChannelSwitchMode {
    /// The mode that a byte stands for: 1 restricts, every other value does not.
    pub open spec fn of(value: u8) -> ChannelSwitchMode {
        if value == 1 {
            ChannelSwitchMode::Restrict
        } else {
            ChannelSwitchMode::Unrestricted
        }
    }

    /// The byte of this mode.
    pub open spec fn code_spec(self) -> u8 {
        match self {
            ChannelSwitchMode::Restrict => 1,
            ChannelSwitchMode::Unrestricted => 0,
        }
    }

    /// The mode that a byte stands for.
    pub fn from_u8(value: u8) -> (mode: ChannelSwitchMode)
        ensures
            mode == ChannelSwitchMode::of(value),
    {
        match value {
            1 => ChannelSwitchMode::Restrict,
            _ => ChannelSwitchMode::Unrestricted,
        }
    }

    /// The byte of this mode.
    pub fn code(&self) -> (c: u8)
        ensures
            c == self.code_spec(),
    {
        match self {
            ChannelSwitchMode::Restrict => 1,
            ChannelSwitchMode::Unrestricted => 0,
        }
    }
}

/// The announcement of a channel switch: the mode, the new channel, and the number of
/// beacons until the switch.
#[derive(Debug, Clone, Copy, PartialEq, Eq, Structural)]
pub struct ChannelSwitchAnnouncment {
    pub mode: ChannelSwitchMode,
    pub new_channel: u8,
    pub count: u8,
}

impl ChannelSwitchAnnouncment {
    /// The three bytes of the element.
    pub open spec fn encode_spec(self) -> Seq<u8> {
        seq![self.mode.code_spec(), self.new_channel, self.count]
    }

    /// The body of this element on the wire.
    pub fn encode(&self) -> (bytes: Vec<u8>)
        ensures
            bytes@ == self.encode_spec(),
    {
        let bytes = vec![self.mode.code(), self.new_channel, self.count];
        assert(bytes@ =~= self.encode_spec());
        bytes
    }
}

/// A vendor element that the decoder does not interpret, as it came.
#[derive(Clone, Debug)]
pub struct VendorSpecificInfo {
    pub element_id: u8,
    pub length: u8,
    pub oui: [u8; 3],
    pub oui_type: u8,
    pub data: Vec<u8>,
}

/// A [`VendorSpecificInfo`] as a mathematical value.
pub ghost struct VendorSpecificInfoView {
    pub element_id: u8,
    pub length: u8,
    pub oui: Seq<u8>,
    pub oui_type: u8,
    pub data: Seq<u8>,
}

impl View for VendorSpecificInfo {
    type V = VendorSpecificInfoView;

    open spec fn view(&self) -> VendorSpecificInfoView {
        VendorSpecificInfoView {
            element_id: self.element_id,
            length: self.length,
            oui: self.oui@,
            oui_type: self.oui_type,
            data: self.data@,
        }
    }
}

impl DeepView for VendorSpecificInfo {
    type V = VendorSpecificInfoView;

    open spec fn deep_view(&self) -> VendorSpecificInfoView {
        self@
    }
}

impl VendorSpecificInfoView {
    /// The body of the element: vendor prefix, type, data.
    pub open spec fn body(self) -> Seq<u8> {
        self.oui + seq![self.oui_type] + self.data
    }

    /// An element as the decoder keeps it: a vendor element with the length that its
    /// body has, of a vendor prefix and type that announce neither WPA nor WPS.
    pub open spec fn kept(self) -> bool {
        &&& self.element_id == 221
        &&& self.oui.len() == 3
        &&& self.length == 4 + self.data.len()
        &&& !(self.oui == wpa_oui() && (self.oui_type == 1 || self.oui_type == 4))
    }

    /// The whole element: identifier, length, vendor prefix, type, data.
    pub open spec fn encode(self) -> Seq<u8> {
        seq![self.element_id, self.length] + self.oui + seq![self.oui_type] + self.data
    }
}

impl VendorSpecificInfo {
    /// The whole element on the wire.
    pub fn encode(&self) -> (bytes: Vec<u8>)
        ensures
            bytes@ == self@.encode(),
    {
        let mut bytes: Vec<u8> = Vec::new();
        bytes.push(self.element_id);
        bytes.push(self.length);
        push_bytes(&mut bytes, self.oui.as_slice());
        bytes.push(self.oui_type);
        push_bytes(&mut bytes, self.data.as_slice());
        assert(bytes@ =~= self@.encode());
        bytes
    }
}

/// The information elements of a management frame. An element that the decoder knows has a
/// field of its own, empty where the frame does not carry it. All others are kept in
/// `data`, in the order in which they came.
#[derive(Clone, Debug)]
pub struct StationInfo {
    pub supported_rates: Vec<SupportedRate>,
    pub extended_supported_rates: Option<Vec<SupportedRate>>,
    pub ssid: Option<String>,
    pub ssid_length: Option<usize>,
    pub ds_parameter_set: Option<u8>,
    pub ibss_parameter_set: Option<u16>,
    pub tim: Option<Vec<u8>>,
    pub country_info: Option<Vec<u8>>,
    pub power_constraint: Option<u8>,
    pub ht_capabilities: Option<HTCapabilities>,
    pub ht_information: Option<HTInformation>,
    pub multiple_bssid: Option<MultipleBSSID>,
    pub vht_capabilities: Option<Vec<u8>>,
    pub he_capabilities: Option<Vec<u8>>,
    pub rsn_information: Option<RsnInformation>,
    pub wpa_info: Option<WpaInformation>,
    pub wps_info: Option<WpsInformation>,
    pub vendor_specific: Vec<VendorSpecificInfo>,
    pub extended_capabilities: Option<ExtendedCapabilities>,
    pub channel_switch: Option<ChannelSwitchAnnouncment>,
    /// The elements without a field of their own: identifier and body.
    pub data: Vec<(u8, Vec<u8>)>,
}

/// A [`StationInfo`] as a mathematical value.
pub ghost struct StationInfoView {
    pub supported_rates: Seq<SupportedRate>,
    pub extended_supported_rates: Option<Seq<SupportedRate>>,
    pub ssid: Option<Seq<char>>,
    pub ssid_length: Option<usize>,
    pub ds_parameter_set: Option<u8>,
    pub ibss_parameter_set: Option<u16>,
    pub tim: Option<Seq<u8>>,
    pub country_info: Option<Seq<u8>>,
    pub power_constraint: Option<u8>,
    pub ht_capabilities: Option<HTCapabilities>,
    pub ht_information: Option<HTInformationView>,
    pub multiple_bssid: Option<MultipleBSSIDView>,
    pub vht_capabilities: Option<Seq<u8>>,
    pub he_capabilities: Option<Seq<u8>>,
    pub rsn_information: Option<RsnInformationView>,
    pub wpa_info: Option<WpaInformationView>,
    pub wps_info: Option<WpsInformationView>,
    pub vendor_specific: Seq<VendorSpecificInfoView>,
    pub extended_capabilities: Option<ExtendedCapabilities>,
    pub channel_switch: Option<ChannelSwitchAnnouncment>,
    pub data: Seq<(u8, Seq<u8>)>,
}

/// The elements of a residual list as mathematical values.
pub open spec fn residual_view(data: Seq<(u8, Vec<u8>)>) -> Seq<(u8, Seq<u8>)> {
    data.map_values(|e: (u8, Vec<u8>)| (e.0, e.1@))
}

impl View for StationInfo {
    type V = StationInfoView;

    open spec fn view(&self) -> StationInfoView {
        StationInfoView {
            supported_rates: self.supported_rates@,
            extended_supported_rates: match self.extended_supported_rates {
                Some(r) => Some(r@),
                None => None,
            },
            ssid: match self.ssid {
                Some(s) => Some(s@),
                None => None,
            },
            ssid_length: self.ssid_length,
            ds_parameter_set: self.ds_parameter_set,
            ibss_parameter_set: self.ibss_parameter_set,
            tim: opt_bytes(self.tim),
            country_info: opt_bytes(self.country_info),
            power_constraint: self.power_constraint,
            ht_capabilities: self.ht_capabilities,
            ht_information: self.ht_information.deep_view(),
            multiple_bssid: self.multiple_bssid.deep_view(),
            vht_capabilities: opt_bytes(self.vht_capabilities),
            he_capabilities: opt_bytes(self.he_capabilities),
            rsn_information: self.rsn_information.deep_view(),
            wpa_info: self.wpa_info.deep_view(),
            wps_info: self.wps_info.deep_view(),
            vendor_specific: self.vendor_specific.deep_view(),
            extended_capabilities: self.extended_capabilities,
            channel_switch: self.channel_switch,
            data: residual_view(self.data@),
        }
    }
}

impl DeepView for StationInfo {
    type V = StationInfoView;

    open spec fn deep_view(&self) -> StationInfoView {
        self@
    }
}

/// An element on the wire: identifier, length, body. The length is cut to one byte.
pub open spec fn element(id: u8, body: Seq<u8>) -> Seq<u8> {
    seq![id, (body.len() % 256) as u8] + body
}

/// An element that may be absent.
pub open spec fn opt_element(id: u8, body: Option<Seq<u8>>) -> Seq<u8> {
    match body {
        Some(b) => element(id, b),
        None => Seq::<u8>::empty(),
    }
}

/// An element that may be absent, as identifier and body.
pub open spec fn opt_pair(id: u8, body: Option<Seq<u8>>) -> Seq<(u8, Seq<u8>)> {
    match body {
        Some(b) => seq![(id, b)],
        None => Seq::<(u8, Seq<u8>)>::empty(),
    }
}

/// A body that is present has between 1 and 255 bytes.
pub open spec fn body_fits(body: Option<Seq<u8>>) -> bool {
    body matches Some(b) ==> 1 <= b.len() <= 255
}

/// The identifiers of the elements that the decoder knows.
pub open spec fn is_known_element(id: u8) -> bool {
    id == 0 || id == 1 || id == 3 || id == 5 || id == 6 || id == 7 || id == 32 || id == 37 || id
        == 45 || id == 48 || id == 50 || id == 61 || id == 71 || id == 127 || id == 191 || id
        == 221 || id == 255
}

/// The text that stands for a network name that is hidden: with the length that was
/// announced, if one was.
pub open spec fn hidden_text(length: Option<usize>) -> Seq<char> {
    match length {
        Some(n) if n > 0 => "<hidden: "@ + decimal_text(n as nat) + ">"@,
        _ => "<hidden>"@,
    }
}

impl StationInfoView {
    /// The record of a frame without elements.
    pub open spec fn empty() -> StationInfoView {
        StationInfoView {
            supported_rates: Seq::empty(),
            extended_supported_rates: None,
            ssid: None,
            ssid_length: None,
            ds_parameter_set: None,
            ibss_parameter_set: None,
            tim: None,
            country_info: None,
            power_constraint: None,
            ht_capabilities: None,
            ht_information: None,
            multiple_bssid: None,
            vht_capabilities: None,
            he_capabilities: None,
            rsn_information: None,
            wpa_info: None,
            wps_info: None,
            vendor_specific: Seq::empty(),
            extended_capabilities: None,
            channel_switch: None,
            data: Seq::empty(),
        }
    }

    /// The body of the element of the network name: the name in UTF-8.
    pub open spec fn ssid_body(self) -> Option<Seq<u8>> {
        match self.ssid {
            Some(s) => Some(vstd::utf8::encode_utf8(s)),
            None => None,
        }
    }

    /// The body of the element of the supported rates. It is not written for no rates.
    pub open spec fn rates_body(self) -> Option<Seq<u8>> {
        if self.supported_rates.len() > 0 {
            Some(rates_bytes(self.supported_rates))
        } else {
            None
        }
    }

    /// The body of the element of the extended supported rates.
    pub open spec fn extended_rates_body(self) -> Option<Seq<u8>> {
        match self.extended_supported_rates {
            Some(r) => Some(rates_bytes(r)),
            None => None,
        }
    }

    /// The body of the element of the DS parameter set: the channel.
    pub open spec fn ds_body(self) -> Option<Seq<u8>> {
        match self.ds_parameter_set {
            Some(d) => Some(seq![d]),
            None => None,
        }
    }

    /// The body of the element of the IBSS parameter set: a little-endian word.
    pub open spec fn ibss_body(self) -> Option<Seq<u8>> {
        match self.ibss_parameter_set {
            Some(w) => Some(u16_le_bytes(w)),
            None => None,
        }
    }

    /// The body of the element of the power constraint.
    pub open spec fn power_body(self) -> Option<Seq<u8>> {
        match self.power_constraint {
            Some(p) => Some(seq![p]),
            None => None,
        }
    }

    /// The body of the element of the HT capabilities: their word.
    pub open spec fn ht_capabilities_body(self) -> Option<Seq<u8>> {
        match self.ht_capabilities {
            Some(c) => Some(u16_le_bytes(c.word())),
            None => None,
        }
    }

    /// The body of the element of the HT information.
    pub open spec fn ht_information_body(self) -> Option<Seq<u8>> {
        match self.ht_information {
            Some(i) => Some(i.encode()),
            None => None,
        }
    }

    /// The body of the element of the multiple BSSID.
    pub open spec fn multiple_bssid_body(self) -> Option<Seq<u8>> {
        match self.multiple_bssid {
            Some(m) => Some(m.encode()),
            None => None,
        }
    }

    /// The body of the RSN element.
    pub open spec fn rsn_body(self) -> Option<Seq<u8>> {
        match self.rsn_information {
            Some(r) => Some(r.encode()),
            None => None,
        }
    }

    /// The body of the vendor element that carries the WPA information: the prefix
    /// `00 50 f2`, the type 1, and the information.
    pub open spec fn wpa_body(self) -> Option<Seq<u8>> {
        match self.wpa_info {
            Some(w) => Some(wpa_oui().push(1) + w.encode()),
            None => None,
        }
    }

    /// The body of the vendor element that carries the WPS information: the prefix
    /// `00 50 f2`, the type 4, and the information.
    pub open spec fn wps_body(self) -> Option<Seq<u8>> {
        match self.wps_info {
            Some(w) => Some(wpa_oui().push(4) + w.encode()),
            None => None,
        }
    }

    /// The body of the element of the extended capabilities.
    pub open spec fn extended_capabilities_body(self) -> Option<Seq<u8>> {
        match self.extended_capabilities {
            Some(c) => Some(c.encode_spec()),
            None => None,
        }
    }

    /// The body of the element of the channel switch announcement.
    pub open spec fn channel_switch_body(self) -> Option<Seq<u8>> {
        match self.channel_switch {
            Some(c) => Some(c.encode_spec()),
            None => None,
        }
    }

    /// The elements that name and describe the network: name, rates, channel, traffic
    /// map, IBSS parameters, country, power constraint.
    pub open spec fn encode_basic(self) -> Seq<u8> {
        opt_element(0, self.ssid_body()) + opt_element(1, self.rates_body()) + opt_element(
            50,
            self.extended_rates_body(),
        ) + opt_element(3, self.ds_body()) + opt_element(5, self.tim) + opt_element(
            6,
            self.ibss_body(),
        ) + opt_element(7, self.country_info) + opt_element(32, self.power_body())
    }

    /// The elements of high-throughput operation: HT capabilities, HT information,
    /// multiple BSSID, VHT capabilities.
    pub open spec fn encode_throughput(self) -> Seq<u8> {
        opt_element(45, self.ht_capabilities_body()) + opt_element(
            61,
            self.ht_information_body(),
        ) + opt_element(71, self.multiple_bssid_body()) + opt_element(191, self.vht_capabilities)
    }

    /// The elements of security and of vendors: RSN, WPA and WPS as the vendor elements
    /// that they came in, and the vendor elements that were kept as they came.
    pub open spec fn encode_security(self) -> Seq<u8> {
        opt_element(48, self.rsn_body()) + opt_element(221, self.wpa_body()) + opt_element(
            221,
            self.wps_body(),
        ) + concat_all(self.vendor_specific.map_values(|v: VendorSpecificInfoView| v.encode()))
    }

    /// The last elements: extended capabilities, channel switch, HE capabilities, and the
    /// residual elements in the order in which they are kept.
    pub open spec fn encode_rest(self) -> Seq<u8> {
        opt_element(127, self.extended_capabilities_body()) + opt_element(
            37,
            self.channel_switch_body(),
        ) + opt_element(255, self.he_capabilities) + concat_all(
            self.data.map_values(|e: (u8, Seq<u8>)| element(e.0, e.1)),
        )
    }

    /// The elements of this record on the wire: the known elements in a fixed order, then
    /// the residual elements.
    pub open spec fn encode(self) -> Seq<u8> {
        self.encode_basic() + self.encode_throughput() + self.encode_security()
            + self.encode_rest()
    }

    /// The known elements that name and describe the network, as identifier and body.
    pub open spec fn elements_basic(self) -> Seq<(u8, Seq<u8>)> {
        opt_pair(0, self.ssid_body()) + opt_pair(1, self.rates_body()) + opt_pair(
            50,
            self.extended_rates_body(),
        ) + opt_pair(3, self.ds_body()) + opt_pair(5, self.tim) + opt_pair(6, self.ibss_body())
            + opt_pair(7, self.country_info) + opt_pair(32, self.power_body())
    }

    /// The elements of high-throughput operation, as identifier and body.
    pub open spec fn elements_throughput(self) -> Seq<(u8, Seq<u8>)> {
        opt_pair(45, self.ht_capabilities_body()) + opt_pair(61, self.ht_information_body())
            + opt_pair(71, self.multiple_bssid_body()) + opt_pair(191, self.vht_capabilities)
    }

    /// The elements of security and of vendors, as identifier and body.
    pub open spec fn elements_security(self) -> Seq<(u8, Seq<u8>)> {
        opt_pair(48, self.rsn_body()) + opt_pair(221, self.wpa_body()) + opt_pair(
            221,
            self.wps_body(),
        ) + self.vendor_specific.map_values(|v: VendorSpecificInfoView| (221u8, v.body()))
    }

    /// The last elements, as identifier and body.
    pub open spec fn elements_rest(self) -> Seq<(u8, Seq<u8>)> {
        opt_pair(127, self.extended_capabilities_body()) + opt_pair(
            37,
            self.channel_switch_body(),
        ) + opt_pair(255, self.he_capabilities) + self.data
    }

    /// All elements of this record in the order in which they are written.
    pub open spec fn elements(self) -> Seq<(u8, Seq<u8>)> {
        self.elements_basic() + self.elements_throughput() + self.elements_security()
            + self.elements_rest()
    }

    /// A record that comes back from its own bytes.
    ///
    /// What it holds is well formed, kind by kind. The length of the name is the one of
    /// its bytes. Its HE capabilities open with their identifier, 35. The vendor elements
    /// that it keeps as they came are vendor elements, with the length that they have,
    /// and none of them announces WPA or WPS. No residual element has an identifier that
    /// the decoder knows. Every body has between 1 and 255 bytes, and the last element
    /// that is written at least two: the decoder passes over an empty body, cannot be
    /// told a longer one, and stops with fewer than four bytes left.
    pub open spec fn canonical(self) -> bool {
        &&& match self.ssid {
            Some(s) => self.ssid_length == Some(vstd::utf8::encode_utf8(s).len() as usize),
            None => self.ssid_length is None,
        }
        &&& forall|i: int|
            0 <= i < self.supported_rates.len() ==> (#[trigger] self.supported_rates[i]).wf()
        &&& self.extended_supported_rates matches Some(r) ==> forall|i: int|
            0 <= i < r.len() ==> (#[trigger] r[i]).wf()
        &&& self.ht_capabilities matches Some(c) ==> c.wf()
        &&& self.ht_information matches Some(i) ==> i.wf()
        &&& self.rsn_information matches Some(r) ==> r.wf()
        &&& self.wpa_info matches Some(w) ==> w.wf()
        &&& self.extended_capabilities matches Some(c) ==> c.wf() && exists|i: int|
            0 <= i < 90 && c.bit(i)
        &&& self.he_capabilities matches Some(h) ==> h.len() > 0 && h[0] == 35
        &&& self.wps_info matches Some(w) ==> w.canonical()
        &&& forall|i: int|
            0 <= i < self.vendor_specific.len() ==> (#[trigger] self.vendor_specific[i]).kept()
        &&& forall|i: int|
            0 <= i < self.data.len() ==> !is_known_element((#[trigger] self.data[i]).0) && 1
                <= self.data[i].1.len() <= 255
        &&& self.bodies_fit()
        &&& self.elements().len() > 0 ==> self.elements().last().1.len() >= 2
    }

    /// The body of every known element that is present has between 1 and 255 bytes.
    pub open spec fn bodies_fit(self) -> bool {
        &&& body_fits(self.ssid_body())
        &&& body_fits(self.rates_body())
        &&& body_fits(self.extended_rates_body())
        &&& body_fits(self.tim)
        &&& body_fits(self.country_info)
        &&& body_fits(self.ht_information_body())
        &&& body_fits(self.multiple_bssid_body())
        &&& body_fits(self.vht_capabilities)
        &&& body_fits(self.rsn_body())
        &&& body_fits(self.wpa_body())
        &&& body_fits(self.wps_body())
        &&& body_fits(self.he_capabilities)
    }

    /// The name of the network, for display: the name itself; for a hidden name a text
    /// that says so; nothing where the frame carried no name.
    pub open spec fn ssid_text(self) -> Seq<char> {
        match self.ssid {
            Some(s) => if s.len() > 0 {
                s
            } else {
                hidden_text(self.ssid_length)
            },
            None => Seq::empty(),
        }
    }

    /// The channel of the network: that of the DS parameter set, else the primary channel
    /// of the HT information.
    pub open spec fn channel(self) -> Option<u8> {
        match self.ds_parameter_set {
            Some(ds) => Some(ds),
            None => match self.ht_information {
                Some(i) => Some(i.primary_channel),
                None => None,
            },
        }
    }
}

/// Appends an element.
pub fn push_element(out: &mut Vec<u8>, id: u8, body: &[u8])
    ensures
        final(out)@ == old(out)@ + element(id, body@),
{
    out.push(id);
    out.push((body.len() % 256) as u8);
    push_bytes(out, body);
    assert(out@ =~= old(out)@ + element(id, body@));
}

/// Appends an element that may be absent.
fn push_opt_element(out: &mut Vec<u8>, id: u8, body: Option<&[u8]>)
    ensures
        final(out)@ == old(out)@ + opt_element(
            id,
            match body {
                Some(b) => Some(b@),
                None => None,
            },
        ),
{
    match body {
        Some(b) => push_element(out, id, b),
        None => {
            assert(out@ =~= out@ + Seq::<u8>::empty());
        },
    }
}

/// The bytes of a list of rates.
fn encode_rates(rates: &Vec<SupportedRate>) -> (bytes: Vec<u8>)
    ensures
        bytes@ == rates_bytes(rates@),
{
    let mut bytes: Vec<u8> = Vec::new();
    let mut i: usize = 0;
    while i < rates.len()
        invariant
            i <= rates.len(),
            bytes@.len() == i,
            forall|j: int| 0 <= j < i ==> bytes@[j] == (#[trigger] rates@[j]).byte(),
        decreases rates.len() - i,
    {
        bytes.push(rates[i].encode());
        i += 1;
    }
    assert(bytes@ =~= rates_bytes(rates@));
    bytes
}

/// The text for a hidden network name.
fn hidden(length: Option<usize>) -> (s: String)
    ensures
        s@ == hidden_text(length),
{
    match length {
        Some(n) if n > 0 => {
            let mut s = String::from_str("<hidden: ");
            s.append(decimal(n).as_str());
            s.append(">");
            s
        },
        _ => String::from_str("<hidden>"),
    }
}

impl Default for StationInfo {
    fn default() -> (info: StationInfo)
        ensures
            info@ == StationInfoView::empty(),
    {
        let info = StationInfo {
            supported_rates: Vec::new(),
            extended_supported_rates: None,
            ssid: None,
            ssid_length: None,
            ds_parameter_set: None,
            ibss_parameter_set: None,
            tim: None,
            country_info: None,
            power_constraint: None,
            ht_capabilities: None,
            ht_information: None,
            multiple_bssid: None,
            vht_capabilities: None,
            he_capabilities: None,
            rsn_information: None,
            wpa_info: None,
            wps_info: None,
            vendor_specific: Vec::new(),
            extended_capabilities: None,
            channel_switch: None,
            data: Vec::new(),
        };
        assert(info@.vendor_specific =~= Seq::empty());
        assert(info@.data =~= Seq::empty());
        info
    }
}

impl StationInfo {
    fn push_basic(&self, out: &mut Vec<u8>)
        ensures
            final(out)@ == old(out)@ + self@.encode_basic(),
    {
        let ghost base = out@;
        let ghost v = self@;
        match &self.ssid {
            Some(ssid) => push_opt_element(out, 0, Some(ssid.as_str().as_bytes())),
            None => push_opt_element(out, 0, None),
        }
        let ghost a1 = opt_element(0, v.ssid_body());
        assert(out@ == base + a1);
        if self.supported_rates.len() > 0 {
            let body = encode_rates(&self.supported_rates);
            push_element(out, 1, body.as_slice());
        } else {
            assert(out@ =~= out@ + Seq::<u8>::empty());
        }
        let ghost a2 = a1 + opt_element(1, v.rates_body());
        proof {
            crate::wire::lemma_append_assoc(base, a1, opt_element(1, v.rates_body()));
        }
        assert(out@ == base + a2);
        match &self.extended_supported_rates {
            Some(rates) => {
                let body = encode_rates(rates);
                push_opt_element(out, 50, Some(body.as_slice()));
            },
            None => push_opt_element(out, 50, None),
        }
        let ghost s3 = opt_element(50, v.extended_rates_body());
        proof {
            crate::wire::lemma_append_assoc(base, a2, s3);
        }
        assert(out@ == base + (a2 + s3));
        match self.ds_parameter_set {
            Some(ds) => {
                let body = [ds];
                assert(body@ =~= seq![ds]);
                push_opt_element(out, 3, Some(body.as_slice()));
            },
            None => push_opt_element(out, 3, None),
        }
        let ghost s4 = opt_element(3, v.ds_body());
        proof {
            crate::wire::lemma_append_assoc(base, a2 + s3, s4);
        }
        assert(out@ == base + (a2 + s3 + s4));
        match &self.tim {
            Some(tim) => push_opt_element(out, 5, Some(tim.as_slice())),
            None => push_opt_element(out, 5, None),
        }
        let ghost s5 = opt_element(5, v.tim);
        proof {
            crate::wire::lemma_append_assoc(base, a2 + s3 + s4, s5);
        }
        assert(out@ == base + (a2 + s3 + s4 + s5));
        match self.ibss_parameter_set {
            Some(word) => {
                let mut body: Vec<u8> = Vec::new();
                push_le_u16(&mut body, word);
                assert(body@ =~= u16_le_bytes(word));
                push_opt_element(out, 6, Some(body.as_slice()));
            },
            None => push_opt_element(out, 6, None),
        }
        let ghost s6 = opt_element(6, v.ibss_body());
        proof {
            crate::wire::lemma_append_assoc(base, a2 + s3 + s4 + s5, s6);
        }
        assert(out@ == base + (a2 + s3 + s4 + s5 + s6));
        match &self.country_info {
            Some(country) => push_opt_element(out, 7, Some(country.as_slice())),
            None => push_opt_element(out, 7, None),
        }
        let ghost s7 = opt_element(7, v.country_info);
        proof {
            crate::wire::lemma_append_assoc(base, a2 + s3 + s4 + s5 + s6, s7);
        }
        assert(out@ == base + (a2 + s3 + s4 + s5 + s6 + s7));
        match self.power_constraint {
            Some(power) => {
                let body = [power];
                assert(body@ =~= seq![power]);
                push_opt_element(out, 32, Some(body.as_slice()));
            },
            None => push_opt_element(out, 32, None),
        }
        let ghost s8 = opt_element(32, v.power_body());
        proof {
            crate::wire::lemma_append_assoc(base, a2 + s3 + s4 + s5 + s6 + s7, s8);
        }
        assert(out@ == base + (a2 + s3 + s4 + s5 + s6 + s7 + s8));
    }

    fn push_throughput(&self, out: &mut Vec<u8>)
        ensures
            final(out)@ == old(out)@ + self@.encode_throughput(),
    {
        match &self.ht_capabilities {
            Some(capabilities) => {
                let body = capabilities.encode();
                push_opt_element(out, 45, Some(body.as_slice()));
            },
            None => push_opt_element(out, 45, None),
        }
        match &self.ht_information {
            Some(information) => {
                let body = information.encode();
                push_opt_element(out, 61, Some(body.as_slice()));
            },
            None => push_opt_element(out, 61, None),
        }
        match &self.multiple_bssid {
            Some(multiple) => {
                let body = multiple.encode();
                push_opt_element(out, 71, Some(body.as_slice()));
            },
            None => push_opt_element(out, 71, None),
        }
        match &self.vht_capabilities {
            Some(vht) => push_opt_element(out, 191, Some(vht.as_slice())),
            None => push_opt_element(out, 191, None),
        }
        assert(out@ =~= old(out)@ + self@.encode_throughput());
    }

    fn push_security(&self, out: &mut Vec<u8>)
        ensures
            final(out)@ == old(out)@ + self@.encode_security(),
    {
        match &self.rsn_information {
            Some(rsn) => {
                let body = rsn.encode();
                push_opt_element(out, 48, Some(body.as_slice()));
            },
            None => push_opt_element(out, 48, None),
        }
        match &self.wpa_info {
            Some(wpa) => {
                let mut body: Vec<u8> = vec![0x00, 0x50, 0xF2, 0x01];
                assert(body@ =~= wpa_oui().push(1));
                let tail = wpa.encode();
                push_bytes(&mut body, tail.as_slice());
                push_opt_element(out, 221, Some(body.as_slice()));
            },
            None => push_opt_element(out, 221, None),
        }
        match &self.wps_info {
            Some(wps) => {
                let mut body: Vec<u8> = vec![0x00, 0x50, 0xF2, 0x04];
                assert(body@ =~= wpa_oui().push(4));
                let tail = wps.encode();
                push_bytes(&mut body, tail.as_slice());
                push_opt_element(out, 221, Some(body.as_slice()));
            },
            None => push_opt_element(out, 221, None),
        }
        let ghost head = out@;
        let ghost parts = self@.vendor_specific.map_values(|v: VendorSpecificInfoView| v.encode());
        let mut i: usize = 0;
        assert(out@ =~= head + concat_all(parts.take(0)));
        while i < self.vendor_specific.len()
            invariant
                i <= self.vendor_specific.len(),
                parts == self@.vendor_specific.map_values(|v: VendorSpecificInfoView| v.encode()),
                out@ == head + concat_all(parts.take(i as int)),
            decreases self.vendor_specific.len() - i,
        {
            let part = self.vendor_specific[i].encode();
            proof {
                assert(parts.take(i + 1) =~= parts.take(i as int).push(part@));
                crate::wire::lemma_concat_all_push(parts.take(i as int), part@);
            }
            push_bytes(out, part.as_slice());
            i += 1;
        }
        assert(parts.take(i as int) =~= parts);
        assert(out@ =~= old(out)@ + self@.encode_security());
    }

    fn push_rest(&self, out: &mut Vec<u8>)
        ensures
            final(out)@ == old(out)@ + self@.encode_rest(),
    {
        match &self.extended_capabilities {
            Some(capabilities) => {
                let body = capabilities.encode();
                push_opt_element(out, 127, Some(body.as_slice()));
            },
            None => push_opt_element(out, 127, None),
        }
        match &self.channel_switch {
            Some(switch) => {
                let body = switch.encode();
                push_opt_element(out, 37, Some(body.as_slice()));
            },
            None => push_opt_element(out, 37, None),
        }
        match &self.he_capabilities {
            Some(he) => push_opt_element(out, 255, Some(he.as_slice())),
            None => push_opt_element(out, 255, None),
        }
        let ghost head = out@;
        let ghost parts = self@.data.map_values(|e: (u8, Seq<u8>)| element(e.0, e.1));
        let mut i: usize = 0;
        assert(out@ =~= head + concat_all(parts.take(0)));
        while i < self.data.len()
            invariant
                i <= self.data.len(),
                parts == self@.data.map_values(|e: (u8, Seq<u8>)| element(e.0, e.1)),
                out@ == head + concat_all(parts.take(i as int)),
            decreases self.data.len() - i,
        {
            let ghost before = out@;
            let entry = &self.data[i];
            push_element(out, entry.0, entry.1.as_slice());
            proof {
                let part = element(entry.0, entry.1@);
                assert(parts.take(i + 1) =~= parts.take(i as int).push(part));
                crate::wire::lemma_concat_all_push(parts.take(i as int), part);
                assert(out@ =~= head + concat_all(parts.take(i + 1)));
            }
            i += 1;
        }
        assert(parts.take(i as int) =~= parts);
        assert(out@ =~= old(out)@ + self@.encode_rest());
    }

    /// The elements of this record on the wire.
    pub fn encode(&self) -> (bytes: Vec<u8>)
        ensures
            bytes@ == self@.encode(),
    {
        let mut bytes: Vec<u8> = Vec::new();
        self.push_basic(&mut bytes);
        self.push_throughput(&mut bytes);
        self.push_security(&mut bytes);
        self.push_rest(&mut bytes);
        assert(bytes@ =~= self@.encode());
        bytes
    }

    /// The name of the network, for display.
    pub fn ssid(&self) -> (s: String)
        ensures
            s@ == self@.ssid_text(),
    {
        match &self.ssid {
            Some(ssid) => {
                if !ssid.as_str().is_empty() {
                    ssid.clone()
                } else {
                    hidden(self.ssid_length)
                }
            },
            None => String::new(),
        }
    }

    /// The name of the network, for display, where the frame carried one.
    pub fn essid(&self) -> (s: Option<String>)
        ensures
            self@.ssid is None <==> s is None,
            s matches Some(t) ==> t@ == self@.ssid_text(),
    {
        match &self.ssid {
            Some(_) => Some(self.ssid()),
            None => None,
        }
    }

    /// The channel that the station sends on.
    pub fn channel(&self) -> (c: Option<u8>)
        ensures
            c == self@.channel(),
    {
        if let Some(ds) = self.ds_parameter_set {
            Some(ds)
        } else {
            match &self.ht_information {
                Some(ht_info) => Some(ht_info.primary_channel),
                None => None,
            }
        }
    }

    /// The WPA information of the station.
    pub fn wpa_info(&self) -> (w: Option<&WpaInformation>)
        ensures
            match w {
                Some(w) => self.wpa_info == Some(*w),
                None => self.wpa_info is None,
            },
    {
        self.wpa_info.as_ref()
    }
}

} // verus!
