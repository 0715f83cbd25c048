//! The decoders of suite selectors and of the RSN and WPA elements.

use crate::frame::components::security::{
    has_oui, RsnAkmSuite, RsnAkmSuiteView, RsnCipherSuite, RsnCipherSuiteView,
    RsnInformation, RsnInformationView, WpaAkmSuite, WpaAkmSuiteView, WpaCipherSuite,
    WpaCipherSuiteView, WpaInformation, WpaInformationView,
};
use crate::wire::{bit16, le_u16, read_le_u16, test_bit16};
use vstd::prelude::*;
use vstd::slice::{slice_subrange, slice_to_vec};

verus! {

pub const RSN_TOO_SHORT: &'static str = "RSN Information data too short";

pub const RSN_VERSION: &'static str = "Unsupported RSN version";

pub const RSN_PAIRWISE_SHORT: &'static str = "Pairwise cipher suite data field too short";

pub const RSN_COUNT_SHORT: &'static str = "Data field to short";

pub const RSN_AKM_SHORT: &'static str = "AKM suite data field too short";

pub const RSN_CAPABILITIES_SHORT: &'static str =
    "RSN Information data too short for RSN Capabilities";

pub const WPA_TOO_SHORT: &'static str = "WPA Information data too short";

pub const WPA_VERSION: &'static str = "Unsupported WPA version";

pub const WPA_UNICAST_SHORT: &'static str =
    "WPA Information data too short for unicast cipher suites";

pub const WPA_COUNT_SHORT: &'static str = "WPA Information data too short for AKM suite count";

pub const WPA_AKM_SHORT: &'static str = "WPA Information data too short for AKM suites";

/// The selector of four bytes at `at`.
pub open spec fn selector(data: Seq<u8>, at: int) -> Seq<u8> {
    data.subrange(at, at + 4)
}

/// What the body of an RSN element stands for, or why it is refused.
///
/// The body holds a version, which must be 1; the group cipher; a count and that many
/// pairwise ciphers; a count and that many key management suites; and the capabilities
/// word. All numbers are little-endian.
pub open spec fn rsn_information_of(data: Seq<u8>) -> Result<RsnInformationView, &'static str> {
    let pairwise = le_u16(data, 6) as int;
    let akm_at = 8 + 4 * pairwise;
    let akm = le_u16(data, akm_at) as int;
    let capabilities_at = akm_at + 2 + 4 * akm;
    let word = le_u16(data, capabilities_at);
    if data.len() < 10 {
        Err(RSN_TOO_SHORT)
    } else if le_u16(data, 0) != 1 {
        Err(RSN_VERSION)
    } else if data.len() < akm_at {
        Err(RSN_PAIRWISE_SHORT)
    } else if data.len() <= akm_at + 1 {
        Err(RSN_COUNT_SHORT)
    } else if data.len() < capabilities_at {
        Err(RSN_AKM_SHORT)
    } else if data.len() < capabilities_at + 2 {
        Err(RSN_CAPABILITIES_SHORT)
    } else {
        Ok(
            RsnInformationView {
                version: 1,
                group_cipher_suite: RsnCipherSuiteView::of(selector(data, 2)),
                pairwise_cipher_suites: Seq::new(
                    pairwise as nat,
                    |i: int| RsnCipherSuiteView::of(selector(data, 8 + 4 * i)),
                ),
                akm_suites: Seq::new(
                    akm as nat,
                    |i: int| RsnAkmSuiteView::of(selector(data, akm_at + 2 + 4 * i)),
                ),
                pre_auth: bit16(word, 0),
                no_pairwise: bit16(word, 1),
                ptksa_replay_counter: (word / 4 % 4) as u8,
                gtksa_replay_counter: (word / 16 % 4) as u8,
                mfp_required: bit16(word, 6),
                mfp_capable: bit16(word, 7),
                joint_multi_band_rsna: bit16(word, 8),
                peerkey_enabled: bit16(word, 9),
                extended_key_id: bit16(word, 13),
                ocvc: bit16(word, 14),
            },
        )
    }
}

/// What the body of a WPA element, after the vendor prefix, stands for, or why it is
/// refused. The layout is that of the RSN element without the capabilities word.
pub open spec fn wpa_information_of(data: Seq<u8>) -> Result<WpaInformationView, &'static str> {
    let unicast = le_u16(data, 6) as int;
    let akm_at = 8 + 4 * unicast;
    let akm = le_u16(data, akm_at) as int;
    if data.len() < 10 {
        Err(WPA_TOO_SHORT)
    } else if le_u16(data, 0) != 1 {
        Err(WPA_VERSION)
    } else if data.len() < akm_at {
        Err(WPA_UNICAST_SHORT)
    } else if data.len() < akm_at + 2 {
        Err(WPA_COUNT_SHORT)
    } else if data.len() < akm_at + 2 + 4 * akm {
        Err(WPA_AKM_SHORT)
    } else {
        Ok(
            WpaInformationView {
                version: 1,
                multicast_cipher_suite: WpaCipherSuiteView::of(selector(data, 2)),
                unicast_cipher_suites: Seq::new(
                    unicast as nat,
                    |i: int| WpaCipherSuiteView::of(selector(data, 8 + 4 * i)),
                ),
                akm_suites: Seq::new(
                    akm as nat,
                    |i: int| WpaAkmSuiteView::of(selector(data, akm_at + 2 + 4 * i)),
                ),
            },
        )
    }
}

/// Whether the four bytes of `data` open with the three bytes given.
fn opens_with(data: &[u8], a: u8, b: u8, c: u8) -> (r: bool)
    ensures
        r == has_oui(data@, seq![a, b, c]),
{
    data.len() == 4 && data[0] == a && data[1] == b && data[2] == c
}

/// The group cipher suite that a selector names.
pub fn parse_group_cipher_suite(data: &[u8]) -> (suite: RsnCipherSuite)
    ensures
        suite@ == RsnCipherSuiteView::of(data@),
{
    if !opens_with(data, 0x00, 0x0F, 0xAC) {
        return RsnCipherSuite::Unknown(slice_to_vec(data));
    }
    match data[3] {
        0 => RsnCipherSuite::NoCipher,
        1 => RsnCipherSuite::WEP,
        2 => RsnCipherSuite::TKIP,
        3 => RsnCipherSuite::WRAP,
        4 => RsnCipherSuite::CCMP,
        5 => RsnCipherSuite::WEP104,
        _ => RsnCipherSuite::Unknown(slice_to_vec(data)),
    }
}

/// The pairwise cipher suite that a selector names.
pub fn parse_pairwise_cipher_suite(data: &[u8]) -> (suite: RsnCipherSuite)
    ensures
        suite@ == RsnCipherSuiteView::of(data@),
{
    parse_group_cipher_suite(data)
}

/// The key management suite that a selector of an RSN element names.
pub fn parse_akm_suite(data: &[u8]) -> (suite: RsnAkmSuite)
    ensures
        suite@ == RsnAkmSuiteView::of(data@),
{
    if !opens_with(data, 0x00, 0x0F, 0xAC) {
        return RsnAkmSuite::Unknown(slice_to_vec(data));
    }
    match data[3] {
        1 => RsnAkmSuite::EAP,
        2 => RsnAkmSuite::PSK,
        3 => RsnAkmSuite::EAPFT,
        4 => RsnAkmSuite::PSKFT,
        5 => RsnAkmSuite::EAP256,
        6 => RsnAkmSuite::PSK256,
        8 => RsnAkmSuite::SAE,
        11 => RsnAkmSuite::SUITEBEAP256,
        _ => RsnAkmSuite::Unknown(slice_to_vec(data)),
    }
}

/// The cipher suite that a selector of a WPA element names.
pub fn parse_cipher_suite(data: &[u8]) -> (suite: WpaCipherSuite)
    ensures
        suite@ == WpaCipherSuiteView::of(data@),
{
    if !opens_with(data, 0x00, 0x50, 0xF2) {
        return WpaCipherSuite::Unknown(slice_to_vec(data));
    }
    match data[3] {
        1 => WpaCipherSuite::Wep40,
        5 => WpaCipherSuite::Wep104,
        2 => WpaCipherSuite::Tkip,
        4 => WpaCipherSuite::Ccmp,
        _ => WpaCipherSuite::Unknown(slice_to_vec(data)),
    }
}

/// The key management suite that a selector of a WPA element names.
pub fn parse_wpa_akm_suite(data: &[u8]) -> (suite: WpaAkmSuite)
    ensures
        suite@ == WpaAkmSuiteView::of(data@),
{
    if !opens_with(data, 0x00, 0x50, 0xF2) {
        return WpaAkmSuite::Unknown(slice_to_vec(data));
    }
    match data[3] {
        1 => WpaAkmSuite::Psk,
        2 => WpaAkmSuite::Eap,
        _ => WpaAkmSuite::Unknown(slice_to_vec(data)),
    }
}

/// Reads `count` RSN cipher selectors that start at `at`.
fn read_rsn_ciphers(data: &[u8], at: usize, count: usize) -> (suites: Vec<RsnCipherSuite>)
    requires
        at + 4 * count <= data@.len(),
    ensures
        suites.deep_view() == Seq::new(
            count as nat,
            |i: int| RsnCipherSuiteView::of(selector(data@, at + 4 * i)),
        ),
{
    let mut suites: Vec<RsnCipherSuite> = Vec::new();
    let mut i: usize = 0;
    let end = data.len();
    while i < count
        invariant
            i <= count,
            at + 4 * count <= data@.len() == end,
            suites@.len() == i,
            forall|j: int|
                0 <= j < i ==> (#[trigger] suites@[j])@ == RsnCipherSuiteView::of(
                    selector(data@, at + 4 * j),
                ),
        decreases count - i,
    {
        let suite = parse_pairwise_cipher_suite(slice_subrange(data, at + 4 * i, at + 4 * i + 4));
        suites.push(suite);
        i += 1;
    }
    assert(suites.deep_view() =~= Seq::new(
        count as nat,
        |i: int| RsnCipherSuiteView::of(selector(data@, at + 4 * i)),
    ));
    suites
}

/// Reads `count` RSN key management selectors that start at `at`.
fn read_rsn_akms(data: &[u8], at: usize, count: usize) -> (suites: Vec<RsnAkmSuite>)
    requires
        at + 4 * count <= data@.len(),
    ensures
        suites.deep_view() == Seq::new(
            count as nat,
            |i: int| RsnAkmSuiteView::of(selector(data@, at + 4 * i)),
        ),
{
    let mut suites: Vec<RsnAkmSuite> = Vec::new();
    let mut i: usize = 0;
    let end = data.len();
    while i < count
        invariant
            i <= count,
            at + 4 * count <= data@.len() == end,
            suites@.len() == i,
            forall|j: int|
                0 <= j < i ==> (#[trigger] suites@[j])@ == RsnAkmSuiteView::of(
                    selector(data@, at + 4 * j),
                ),
        decreases count - i,
    {
        let suite = parse_akm_suite(slice_subrange(data, at + 4 * i, at + 4 * i + 4));
        suites.push(suite);
        i += 1;
    }
    assert(suites.deep_view() =~= Seq::new(
        count as nat,
        |i: int| RsnAkmSuiteView::of(selector(data@, at + 4 * i)),
    ));
    suites
}

/// Reads `count` WPA cipher selectors that start at `at`.
fn read_wpa_ciphers(data: &[u8], at: usize, count: usize) -> (suites: Vec<WpaCipherSuite>)
    requires
        at + 4 * count <= data@.len(),
    ensures
        suites.deep_view() == Seq::new(
            count as nat,
            |i: int| WpaCipherSuiteView::of(selector(data@, at + 4 * i)),
        ),
{
    let mut suites: Vec<WpaCipherSuite> = Vec::new();
    let mut i: usize = 0;
    let end = data.len();
    while i < count
        invariant
            i <= count,
            at + 4 * count <= data@.len() == end,
            suites@.len() == i,
            forall|j: int|
                0 <= j < i ==> (#[trigger] suites@[j])@ == WpaCipherSuiteView::of(
                    selector(data@, at + 4 * j),
                ),
        decreases count - i,
    {
        let suite = parse_cipher_suite(slice_subrange(data, at + 4 * i, at + 4 * i + 4));
        suites.push(suite);
        i += 1;
    }
    assert(suites.deep_view() =~= Seq::new(
        count as nat,
        |i: int| WpaCipherSuiteView::of(selector(data@, at + 4 * i)),
    ));
    suites
}

/// Reads `count` WPA key management selectors that start at `at`.
fn read_wpa_akms(data: &[u8], at: usize, count: usize) -> (suites: Vec<WpaAkmSuite>)
    requires
        at + 4 * count <= data@.len(),
    ensures
        suites.deep_view() == Seq::new(
            count as nat,
            |i: int| WpaAkmSuiteView::of(selector(data@, at + 4 * i)),
        ),
{
    let mut suites: Vec<WpaAkmSuite> = Vec::new();
    let mut i: usize = 0;
    let end = data.len();
    while i < count
        invariant
            i <= count,
            at + 4 * count <= data@.len() == end,
            suites@.len() == i,
            forall|j: int|
                0 <= j < i ==> (#[trigger] suites@[j])@ == WpaAkmSuiteView::of(
                    selector(data@, at + 4 * j),
                ),
        decreases count - i,
    {
        let suite = parse_wpa_akm_suite(slice_subrange(data, at + 4 * i, at + 4 * i + 4));
        suites.push(suite);
        i += 1;
    }
    assert(suites.deep_view() =~= Seq::new(
        count as nat,
        |i: int| WpaAkmSuiteView::of(selector(data@, at + 4 * i)),
    ));
    suites
}

/// The relation between what a body decoder returns and what the body stands for.
pub open spec fn decoded<T: View, E>(r: Result<T, E>, model: Result<T::V, E>) -> bool {
    match r {
        Ok(v) => model == Ok::<T::V, E>(v@),
        Err(e) => model == Err::<T::V, E>(e),
    }
}

/// Decodes the body of an RSN element.
pub fn parse_rsn_information(data: &[u8]) -> (r: Result<RsnInformation, &'static str>)
    ensures
        decoded(r, rsn_information_of(data@)),
{
    if data.len() < 10 {
        return Err(RSN_TOO_SHORT);
    }
    let version = read_le_u16(data, 0);
    if version != 1 {
        return Err(RSN_VERSION);
    }
    let group_cipher_suite = parse_group_cipher_suite(slice_subrange(data, 2, 6));
    let pairwise_count = read_le_u16(data, 6) as usize;
    let akm_at: usize = 8 + 4 * pairwise_count;
    if data.len() < akm_at {
        return Err(RSN_PAIRWISE_SHORT);
    }
    let pairwise_cipher_suites = read_rsn_ciphers(data, 8, pairwise_count);
    if akm_at + 1 >= data.len() {
        return Err(RSN_COUNT_SHORT);
    }
    let akm_count = read_le_u16(data, akm_at) as usize;
    let capabilities_at: usize = akm_at + 2 + 4 * akm_count;
    if data.len() < capabilities_at {
        return Err(RSN_AKM_SHORT);
    }
    let akm_suites = read_rsn_akms(data, akm_at + 2, akm_count);
    if data.len() < capabilities_at + 2 {
        return Err(RSN_CAPABILITIES_SHORT);
    }
    let word = read_le_u16(data, capabilities_at);
    Ok(
        RsnInformation {
            version,
            group_cipher_suite,
            pairwise_cipher_suites,
            akm_suites,
            pre_auth: test_bit16(word, 0),
            no_pairwise: test_bit16(word, 1),
            ptksa_replay_counter: (word / 4 % 4) as u8,
            gtksa_replay_counter: (word / 16 % 4) as u8,
            mfp_required: test_bit16(word, 6),
            mfp_capable: test_bit16(word, 7),
            joint_multi_band_rsna: test_bit16(word, 8),
            peerkey_enabled: test_bit16(word, 9),
            extended_key_id: test_bit16(word, 13),
            ocvc: test_bit16(word, 14),
        },
    )
}

/// Decodes the body of a WPA element, after the vendor prefix.
pub fn parse_wpa_information(data: &[u8]) -> (r: Result<WpaInformation, &'static str>)
    ensures
        decoded(r, wpa_information_of(data@)),
{
    if data.len() < 10 {
        return Err(WPA_TOO_SHORT);
    }
    let version = read_le_u16(data, 0);
    if version != 1 {
        return Err(WPA_VERSION);
    }
    let multicast_cipher_suite = parse_cipher_suite(slice_subrange(data, 2, 6));
    let unicast_count = read_le_u16(data, 6) as usize;
    let akm_at: usize = 8 + 4 * unicast_count;
    if data.len() < akm_at {
        return Err(WPA_UNICAST_SHORT);
    }
    let unicast_cipher_suites = read_wpa_ciphers(data, 8, unicast_count);
    if data.len() < akm_at + 2 {
        return Err(WPA_COUNT_SHORT);
    }
    let akm_count = read_le_u16(data, akm_at) as usize;
    if data.len() < akm_at + 2 + 4 * akm_count {
        return Err(WPA_AKM_SHORT);
    }
    let akm_suites = read_wpa_akms(data, akm_at + 2, akm_count);
    Ok(WpaInformation { version, multicast_cipher_suite, unicast_cipher_suites, akm_suites })
}

} // verus!
