//! The decoder of the information elements of a management frame.

use crate::error::{Error, ErrorView, ELEMENT_OVERRUN, WPA_MISMATCH};
use crate::frame::components::security::wpa_oui;
use crate::frame::components::station_info::{
    rates_of, ChannelSwitchAnnouncment, ChannelSwitchMode, HTCapabilities, HTInformation,
    HTInformationView, MultipleBSSID, MultipleBSSIDView, StationInfo, StationInfoView,
    SupportedRate, VendorSpecificInfo, VendorSpecificInfoView,
};
use crate::parsers::components::extended_capabilities::{
    extended_capabilities_of, parse_extended_capabilities,
};
use crate::parsers::components::security::{
    parse_rsn_information, parse_wpa_information, rsn_information_of, wpa_information_of,
};
use crate::parsers::components::wps::{parse_wps_information, wps_information_of};
use crate::wire::{copy_range, le_u16, read_le_u16};
use vstd::prelude::*;
use vstd::slice::{slice_subrange, slice_to_vec};
use vstd::utf8::{decode_utf8, valid_utf8};

verus! {

pub const HT_INFORMATION_SHORT: &'static str = "HT Information data too short";

pub const MULTIPLE_BSSID_SHORT: &'static str = "Multiple BSSID data too short";

/// The text that `String::from_utf8_lossy` makes of a byte string: the text that the bytes
/// encode, with the replacement character in place of every part that is not valid UTF-8.
pub uninterp spec fn utf8_lossy(bytes: Seq<u8>) -> Seq<char>;

/// `String::from_utf8_lossy`: the text of `data`, which for valid UTF-8 is the text that
/// `data` encodes.
#[verifier::external_body]
fn lossy_text(data: &[u8]) -> (s: String)
    ensures
        s@ == utf8_lossy(data@),
        valid_utf8(data@) ==> s@ == decode_utf8(data@),
{
    String::from_utf8_lossy(data).into_owned()
}

/// The name that the body of an SSID element writes: the text that the bytes encode, and
/// for bytes that are not valid UTF-8 the text that a lossy conversion makes of them.
pub open spec fn ssid_of(body: Seq<u8>) -> Seq<char> {
    if valid_utf8(body) {
        decode_utf8(body)
    } else {
        utf8_lossy(body)
    }
}

/// What the body of an HT capabilities element stands for: its first two bytes as a
/// little-endian word; nothing if it has fewer.
pub open spec fn ht_capabilities_of(data: Seq<u8>) -> Option<HTCapabilities> {
    if data.len() < 2 {
        None
    } else {
        Some(HTCapabilities::of(le_u16(data, 0)))
    }
}

/// What the body of an HT information element stands for.
pub open spec fn ht_information_of(data: Seq<u8>) -> Result<HTInformationView, &'static str> {
    if data.len() < 2 {
        Err(HT_INFORMATION_SHORT)
    } else {
        Ok(
            HTInformationView {
                primary_channel: data[0],
                secondary_channel_offset: data[1] % 4,
                supported_channel_width: data[1] / 4 % 2 == 1,
                other_data: data.skip(2),
            },
        )
    }
}

/// What the body of a multiple BSSID element stands for.
pub open spec fn multiple_bssid_of(data: Seq<u8>) -> Result<MultipleBSSIDView, &'static str> {
    if data.len() == 0 {
        Err(MULTIPLE_BSSID_SHORT)
    } else {
        Ok(MultipleBSSIDView { max_bssid_indicator: data[0], other_data: data.skip(1) })
    }
}

/// What the body of a channel switch element stands for: mode, new channel, count;
/// nothing if it has fewer than three bytes.
pub open spec fn channel_switch_of(data: Seq<u8>) -> Option<ChannelSwitchAnnouncment> {
    if data.len() < 3 {
        None
    } else {
        Some(
            ChannelSwitchAnnouncment {
                mode: ChannelSwitchMode::of(data[0]),
                new_channel: data[1],
                count: data[2],
            },
        )
    }
}

/// What a vendor element with body `body` makes of `acc`; `None` where the element
/// announces WPA and its body is refused.
///
/// A body under four bytes changes nothing. Otherwise the first three bytes are the vendor
/// prefix and the fourth the type. Prefix `00 50 f2` with type 1 is WPA, with type 4 WPS;
/// every other element is kept as it came.
#[verifier::opaque]
pub open spec fn apply_vendor(acc: StationInfoView, length: u8, body: Seq<u8>) -> Option<
    StationInfoView,
> {
    let payload = body.skip(4);
    if body.len() < 4 {
        Some(acc)
    } else if body.take(3) == wpa_oui() && body[3] == 1 {
        match wpa_information_of(payload) {
            Ok(w) => Some(StationInfoView { wpa_info: Some(w), ..acc }),
            Err(_) => None,
        }
    } else if body.take(3) == wpa_oui() && body[3] == 4 {
        Some(
            StationInfoView {
                wps_info: match wps_information_of(payload) {
                    Ok(w) => Some(w),
                    Err(_) => None,
                },
                ..acc
            },
        )
    } else {
        Some(
            StationInfoView {
                vendor_specific: acc.vendor_specific.push(
                    VendorSpecificInfoView {
                        element_id: 221,
                        length,
                        oui: body.take(3),
                        oui_type: body[3],
                        data: payload,
                    },
                ),
                ..acc
            },
        )
    }
}

/// What an element with identifier `id` and a body that is not empty makes of `acc`;
/// `None` where the element is refused and the frame with it.
///
/// An element that is known replaces what `acc` held of its kind; where its body is
/// refused, nothing is held of that kind. All other elements are appended to the residual
/// list.
#[verifier::opaque]
pub open spec fn apply_element(acc: StationInfoView, id: u8, length: u8, body: Seq<u8>) -> Option<
    StationInfoView,
> {
    if id == 0 {
        Some(
            StationInfoView {
                ssid: Some(ssid_of(body)),
                ssid_length: Some(length as usize),
                ..acc
            },
        )
    } else if id == 1 {
        Some(StationInfoView { supported_rates: rates_of(body), ..acc })
    } else if id == 3 {
        Some(StationInfoView { ds_parameter_set: Some(body[0]), ..acc })
    } else if id == 5 {
        Some(StationInfoView { tim: Some(body), ..acc })
    } else if id == 6 {
        Some(
            StationInfoView {
                ibss_parameter_set: if body.len() >= 2 {
                    Some(le_u16(body, 0))
                } else {
                    None
                },
                ..acc
            },
        )
    } else if id == 7 {
        Some(StationInfoView { country_info: Some(body), ..acc })
    } else if id == 32 {
        Some(StationInfoView { power_constraint: Some(body[0]), ..acc })
    } else if id == 37 {
        Some(StationInfoView { channel_switch: channel_switch_of(body), ..acc })
    } else if id == 45 {
        Some(StationInfoView { ht_capabilities: ht_capabilities_of(body), ..acc })
    } else if id == 48 {
        Some(
            StationInfoView {
                rsn_information: match rsn_information_of(body) {
                    Ok(r) => Some(r),
                    Err(_) => None,
                },
                ..acc
            },
        )
    } else if id == 50 {
        Some(StationInfoView { extended_supported_rates: Some(rates_of(body)), ..acc })
    } else if id == 61 {
        Some(
            StationInfoView {
                ht_information: match ht_information_of(body) {
                    Ok(i) => Some(i),
                    Err(_) => None,
                },
                ..acc
            },
        )
    } else if id == 71 {
        Some(
            StationInfoView {
                multiple_bssid: match multiple_bssid_of(body) {
                    Ok(m) => Some(m),
                    Err(_) => None,
                },
                ..acc
            },
        )
    } else if id == 127 {
        Some(
            StationInfoView {
                extended_capabilities: match extended_capabilities_of(body) {
                    Ok(c) => Some(c),
                    Err(_) => None,
                },
                ..acc
            },
        )
    } else if id == 191 {
        Some(StationInfoView { vht_capabilities: Some(body), ..acc })
    } else if id == 221 {
        apply_vendor(acc, length, body)
    } else if id == 255 {
        if body[0] == 35 {
            Some(StationInfoView { he_capabilities: Some(body), ..acc })
        } else {
            Some(acc)
        }
    } else {
        Some(StationInfoView { data: acc.data.push((id, body)), ..acc })
    }
}

/// What the elements of `input` make of `acc`, and the bytes that are left.
///
/// Each element is an identifier, a length, and a body of that length. The walk ends when
/// fewer than four bytes are left. An element with an empty body is passed over. An input
/// that ends inside a body is a failure, as is a refused element.
pub open spec fn station_info_walk(input: Seq<u8>, acc: StationInfoView) -> Result<
    (Seq<u8>, StationInfoView),
    ErrorView,
>
    decreases input.len(),
{
    if input.len() < 4 {
        Ok((input, acc))
    } else {
        let id = input[0];
        let length = input[1];
        let body = input.subrange(2, 2 + length);
        let rest = input.skip(2 + length);
        if input.len() < 2 + length {
            Err(ErrorView::Failure(ELEMENT_OVERRUN@, input.skip(2)))
        } else if length == 0 {
            station_info_walk(rest, acc)
        } else {
            match apply_element(acc, id, length, body) {
                None => Err(ErrorView::Failure(WPA_MISMATCH@, rest)),
                Some(next) => station_info_walk(rest, next),
            }
        }
    }
}

/// What the elements of `input` stand for, and the bytes that are left.
pub open spec fn station_info_of(input: Seq<u8>) -> Result<(Seq<u8>, StationInfoView), ErrorView> {
    station_info_walk(input, StationInfoView::empty())
}

/// The rates of a rates element.
pub fn parse_supported_rates(input: &[u8]) -> (rates: Vec<SupportedRate>)
    ensures
        rates@ == rates_of(input@),
{
    let mut rates: Vec<SupportedRate> = Vec::new();
    let mut i: usize = 0;
    while i < input.len()
        invariant
            i <= input@.len(),
            rates@.len() == i,
            forall|j: int| 0 <= j < i ==> rates@[j] == SupportedRate::of(#[trigger] input@[j]),
        decreases input@.len() - i,
    {
        let data = input[i];
        rates.push(SupportedRate { mandatory: data >= 128, rate: data % 128 });
        i += 1;
    }
    assert(rates@ =~= rates_of(input@));
    rates
}

/// Decodes the body of an HT capabilities element.
pub fn parse_ht_capabilities(data: &[u8]) -> (r: Option<HTCapabilities>)
    ensures
        r == ht_capabilities_of(data@),
{
    if data.len() < 2 {
        return None;
    }
    let bits = read_le_u16(data, 0);
    Some(
        HTCapabilities {
            ldpc_coding_capability: crate::wire::test_bit16(bits, 0),
            supported_channel_width: crate::wire::test_bit16(bits, 1),
            sm_power_save: (bits / 4 % 4) as u8,
            green_field: crate::wire::test_bit16(bits, 4),
            short_gi_20_mhz: crate::wire::test_bit16(bits, 5),
            short_gi_40_mhz: crate::wire::test_bit16(bits, 6),
            tx_stbc: crate::wire::test_bit16(bits, 7),
            rx_stbc: (bits / 256 % 4) as u8,
            delayed_block_ack: crate::wire::test_bit16(bits, 10),
            max_amsdu_length: crate::wire::test_bit16(bits, 11),
            dsss_support: crate::wire::test_bit16(bits, 12),
            psmp_support: crate::wire::test_bit16(bits, 13),
            forty_mhz_intolerant: crate::wire::test_bit16(bits, 14),
            l_sig_tx_op_protection: crate::wire::test_bit16(bits, 15),
        },
    )
}

/// Decodes the body of an HT information element.
pub fn parse_ht_information(data: &[u8]) -> (r: Result<HTInformation, &'static str>)
    ensures
        crate::parsers::components::security::decoded(r, ht_information_of(data@)),
{
    if data.len() < 2 {
        return Err(HT_INFORMATION_SHORT);
    }
    Ok(
        HTInformation {
            primary_channel: data[0],
            secondary_channel_offset: data[1] % 4,
            supported_channel_width: data[1] / 4 % 2 == 1,
            other_data: copy_range(data, 2, data.len()),
        },
    )
}

/// Decodes the body of a multiple BSSID element.
pub fn parse_multiple_bssid(data: &[u8]) -> (r: Result<MultipleBSSID, &'static str>)
    ensures
        crate::parsers::components::security::decoded(r, multiple_bssid_of(data@)),
{
    if data.len() == 0 {
        return Err(MULTIPLE_BSSID_SHORT);
    }
    Ok(MultipleBSSID { max_bssid_indicator: data[0], other_data: copy_range(data, 1, data.len()) })
}

/// Decodes the body of a channel switch element.
pub fn parse_channel_switch(data: &[u8]) -> (r: Option<ChannelSwitchAnnouncment>)
    ensures
        r == channel_switch_of(data@),
{
    if data.len() < 3 {
        return None;
    }
    let mode = ChannelSwitchMode::from_u8(data[0]);
    let new_channel = data[1];
    let count = data[2];
    Some(ChannelSwitchAnnouncment { mode, new_channel, count })
}

/// Stores a vendor element in `info`; `false` where the element is refused.
fn store_vendor(info: &mut StationInfo, length: u8, data: &[u8]) -> (stored: bool)
    ensures
        match apply_vendor(old(info)@, length, data@) {
            Some(next) => stored && final(info)@ == next,
            None => !stored,
        },
{
    reveal(apply_vendor);
    if data.len() < 4 {
        return true;
    }
    let oui = [data[0], data[1], data[2]];
    let oui_type = data[3];
    let vendor_data = slice_subrange(data, 4, data.len());
    let microsoft = data[0] == 0x00 && data[1] == 0x50 && data[2] == 0xf2;
    proof {
        assert(vendor_data@ =~= data@.skip(4));
        assert(oui@ =~= data@.take(3));
        if microsoft {
            assert(data@.take(3) =~= wpa_oui());
        } else {
            assert(wpa_oui()[0] == 0x00 && wpa_oui()[1] == 0x50 && wpa_oui()[2] == 0xf2);
            assert(data@.take(3)[0] == data@[0] && data@.take(3)[1] == data@[1] && data@.take(3)[2]
                == data@[2]);
        }
    }
    if microsoft && oui_type == 1 {
        match parse_wpa_information(vendor_data) {
            Ok(wpa_info) => {
                info.wpa_info = Some(wpa_info);
                true
            },
            Err(_) => false,
        }
    } else if microsoft && oui_type == 4 {
        info.wps_info = match parse_wps_information(vendor_data) {
            Ok(wps_info) => Some(wps_info),
            Err(_) => None,
        };
        true
    } else {
        let vendor_specific_info = VendorSpecificInfo {
            element_id: 221,
            length,
            oui,
            oui_type,
            data: slice_to_vec(vendor_data),
        };
        info.vendor_specific.push(vendor_specific_info);
        proof {
            assert(info@.vendor_specific =~= old(info)@.vendor_specific.push(
                vendor_specific_info@,
            ));
        }
        true
    }
}

/// Stores an element with a body in `info`; `false` where the element is refused.
fn store_element(info: &mut StationInfo, element_id: u8, length: u8, data: &[u8]) -> (stored: bool)
    requires
        data@.len() > 0,
    ensures
        match apply_element(old(info)@, element_id, length, data@) {
            Some(next) => stored && final(info)@ == next,
            None => !stored,
        },
{
    reveal(apply_element);
    match element_id {
        0 => {
            info.ssid = Some(lossy_text(data));
            info.ssid_length = Some(length as usize);
        },
        1 => {
            info.supported_rates = parse_supported_rates(data);
        },
        3 => {
            info.ds_parameter_set = Some(data[0]);
        },
        5 => {
            info.tim = Some(slice_to_vec(data));
        },
        6 => {
            info.ibss_parameter_set = if data.len() >= 2 {
                Some(read_le_u16(data, 0))
            } else {
                None
            };
        },
        7 => {
            info.country_info = Some(slice_to_vec(data));
        },
        32 => {
            info.power_constraint = Some(data[0]);
        },
        37 => {
            info.channel_switch = parse_channel_switch(data);
        },
        45 => {
            info.ht_capabilities = parse_ht_capabilities(data);
        },
        48 => {
            info.rsn_information = match parse_rsn_information(data) {
                Ok(rsn_info) => Some(rsn_info),
                Err(_) => None,
            };
        },
        50 => {
            info.extended_supported_rates = Some(parse_supported_rates(data));
        },
        61 => {
            info.ht_information = match parse_ht_information(data) {
                Ok(ht_info) => Some(ht_info),
                Err(_) => None,
            };
        },
        71 => {
            info.multiple_bssid = match parse_multiple_bssid(data) {
                Ok(multiple_bssid) => Some(multiple_bssid),
                Err(_) => None,
            };
        },
        127 => {
            info.extended_capabilities = match parse_extended_capabilities(data) {
                Ok(capabilities) => Some(capabilities),
                Err(_) => None,
            };
        },
        191 => {
            info.vht_capabilities = Some(slice_to_vec(data));
        },
        221 => {
            return store_vendor(info, length, data);
        },
        255 => {
            if data[0] == 35 {
                info.he_capabilities = Some(slice_to_vec(data));
            }
        },
        _ => {
            info.data.push((element_id, slice_to_vec(data)));
            proof {
                assert(info@.data =~= old(info)@.data.push((element_id, data@)));
            }
        },
    }
    true
}

/// Decodes the information elements of a management frame, and returns the bytes that it
/// left.
///
/// The general structure of each element is:
///
/// 1 byte: element id \
/// 1 byte: element length (up to 255 bytes) \
/// that many bytes: element data
///
/// There may be several elements with the same id.
pub fn parse_station_info(input: &[u8]) -> (r: Result<(&[u8], StationInfo), Error>)
    ensures
        match r {
            Ok((rest, info)) => station_info_of(input@) == Ok::<
                (Seq<u8>, StationInfoView),
                ErrorView,
            >((rest@, info@)),
            Err(e) => station_info_of(input@) == Err::<(Seq<u8>, StationInfoView), ErrorView>(e@),
        },
{
    let mut station_info = StationInfo::default();
    let mut remaining = input;
    while remaining.len() >= 4
        invariant
            station_info_of(input@) == station_info_walk(remaining@, station_info@),
        decreases remaining@.len(),
    {
        let element_id = remaining[0];
        let length = remaining[1];
        let after = slice_subrange(remaining, 2, remaining.len());
        if after.len() < length as usize {
            proof {
                assert(after@ =~= remaining@.skip(2));
            }
            return Err(Error::Failure(ELEMENT_OVERRUN, slice_to_vec(after)));
        }
        let data = slice_subrange(after, 0, length as usize);
        let rest = slice_subrange(after, length as usize, after.len());
        proof {
            assert(data@ =~= remaining@.subrange(2, 2 + length));
            assert(rest@ =~= remaining@.skip(2 + length));
        }
        if length > 0 {
            if !store_element(&mut station_info, element_id, length, data) {
                return Err(Error::Failure(WPA_MISMATCH, slice_to_vec(rest)));
            }
        }
        remaining = rest;
    }
    Ok((remaining, station_info))
}

} // verus!
