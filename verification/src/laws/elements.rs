//! Every information element comes back from its own bytes.

use crate::bitfield::{bits_of_bytes, resized, trailing_zero_count};
use crate::frame::components::extended_capabilities::{
    lemma_trailing_zero_count, packs, ExtendedCapabilities, EXTENDED_CAPABILITY_BITS,
};
use crate::frame::components::security::{
    bit, lemma_suite_round_trip, RsnAkmSuiteView, RsnCipherSuiteView, RsnInformationView,
    WpaAkmSuiteView, WpaCipherSuiteView, WpaInformationView,
};
use crate::frame::components::station_info::{
    rates_bytes, rates_of, ChannelSwitchAnnouncment, HTCapabilities, HTInformationView,
    MultipleBSSIDView, SupportedRate,
};
use crate::parsers::components::extended_capabilities::{
    capability_bits, extended_capabilities_of, lemma_capabilities_of_bits,
};
use crate::parsers::components::security::{
    rsn_information_of, selector, wpa_information_of,
};
use crate::parsers::components::station_info::{
    channel_switch_of, ht_capabilities_of, ht_information_of, multiple_bssid_of,
};
use crate::wire::{
    bit16, concat_all, le_u16, lemma_concat_all_fixed, u16_le_bytes,
};
use vstd::prelude::*;

verus! {

/// A list of rates that fit their seven bits comes back from its bytes.
pub proof fn lemma_rates_round_trip(rates: Seq<SupportedRate>)
    requires
        forall|i: int| 0 <= i < rates.len() ==> (#[trigger] rates[i]).wf(),
    ensures
        rates_of(rates_bytes(rates)) == rates,
{
    assert(rates_of(rates_bytes(rates)) =~= rates);
}

/// The digits of a byte that is the sum of eight binary digits at their places.
pub proof fn lemma_byte_digits(
    d0: u16,
    d1: u16,
    d2: u16,
    d3: u16,
    d4: u16,
    d5: u16,
    d6: u16,
    d7: u16,
    v: u16,
)
    by (bit_vector)
    requires
        d0 <= 1,
        d1 <= 1,
        d2 <= 1,
        d3 <= 1,
        d4 <= 1,
        d5 <= 1,
        d6 <= 1,
        d7 <= 1,
        v == d0 + 2 * d1 + 4 * d2 + 8 * d3 + 16 * d4 + 32 * d5 + 64 * d6 + 128 * d7,
    ensures
        v < 256,
        v % 2 == d0,
        v / 2 % 2 == d1,
        v / 4 % 2 == d2,
        v / 8 % 2 == d3,
        v / 16 % 2 == d4,
        v / 32 % 2 == d5,
        v / 64 % 2 == d6,
        v / 128 % 2 == d7,
        v % 4 == d0 + 2 * d1,
        v / 4 % 4 == d2 + 2 * d3,
        v / 16 % 4 == d4 + 2 * d5,
{
}

/// One or zero, as a machine number.
pub open spec fn digit(b: bool) -> u16 {
    if b {
        1
    } else {
        0
    }
}

/// The bits of a byte that is a sum of bits and a two-bit number at their places.
proof fn lemma_low_byte_bits(b0: bool, b1: bool, n: int, b4: bool, b5: bool, b6: bool, b7: bool)
    requires
        0 <= n < 4,
    ensures
        ({
            let v = bit(b0) + 2 * bit(b1) + 4 * n + 16 * bit(b4) + 32 * bit(b5) + 64 * bit(b6) + 128
                * bit(b7);
            &&& 0 <= v < 256
            &&& (v % 2 == 1) == b0
            &&& (v / 2 % 2 == 1) == b1
            &&& v / 4 % 4 == n
            &&& (v / 16 % 2 == 1) == b4
            &&& (v / 32 % 2 == 1) == b5
            &&& (v / 64 % 2 == 1) == b6
            &&& (v / 128 % 2 == 1) == b7
        }),
{
    reveal(bit);
    let v = bit(b0) + 2 * bit(b1) + 4 * n + 16 * bit(b4) + 32 * bit(b5) + 64 * bit(b6) + 128 * bit(
        b7,
    );
    let n0: u16 = if n == 1 || n == 3 {
        1
    } else {
        0
    };
    let n1: u16 = if n == 2 || n == 3 {
        1
    } else {
        0
    };
    lemma_byte_digits(
        digit(b0),
        digit(b1),
        n0,
        n1,
        digit(b4),
        digit(b5),
        digit(b6),
        digit(b7),
        v as u16,
    );
}

/// The bits of a byte that is a sum of a two-bit number and bits at their places.
proof fn lemma_high_byte_bits(n: int, b2: bool, b3: bool, b4: bool, b5: bool, b6: bool, b7: bool)
    requires
        0 <= n < 4,
    ensures
        ({
            let v = n + 4 * bit(b2) + 8 * bit(b3) + 16 * bit(b4) + 32 * bit(b5) + 64 * bit(b6) + 128
                * bit(b7);
            &&& 0 <= v < 256
            &&& v % 4 == n
            &&& (v / 4 % 2 == 1) == b2
            &&& (v / 8 % 2 == 1) == b3
            &&& (v / 16 % 2 == 1) == b4
            &&& (v / 32 % 2 == 1) == b5
            &&& (v / 64 % 2 == 1) == b6
            &&& (v / 128 % 2 == 1) == b7
        }),
{
    reveal(bit);
    let v = n + 4 * bit(b2) + 8 * bit(b3) + 16 * bit(b4) + 32 * bit(b5) + 64 * bit(b6) + 128 * bit(
        b7,
    );
    let n0: u16 = if n == 1 || n == 3 {
        1
    } else {
        0
    };
    let n1: u16 = if n == 2 || n == 3 {
        1
    } else {
        0
    };
    lemma_byte_digits(
        n0,
        n1,
        digit(b2),
        digit(b3),
        digit(b4),
        digit(b5),
        digit(b6),
        digit(b7),
        v as u16,
    );
}

/// The place values of a word, from those of its two bytes.
proof fn lemma_word_places(low: u16, high: u16, w: u16)
    by (bit_vector)
    requires
        low < 256,
        high < 256,
        w == low + 256 * high,
    ensures
        w % 2 == low % 2,
        w / 2 % 2 == low / 2 % 2,
        w / 4 % 2 == low / 4 % 2,
        w / 8 % 2 == low / 8 % 2,
        w / 16 % 2 == low / 16 % 2,
        w / 32 % 2 == low / 32 % 2,
        w / 64 % 2 == low / 64 % 2,
        w / 128 % 2 == low / 128 % 2,
        w / 256 % 2 == high % 2,
        w / 512 % 2 == high / 2 % 2,
        w / 1024 % 2 == high / 4 % 2,
        w / 2048 % 2 == high / 8 % 2,
        w / 4096 % 2 == high / 16 % 2,
        w / 8192 % 2 == high / 32 % 2,
        w / 16384 % 2 == high / 64 % 2,
        w / 32768 % 2 == high / 128 % 2,
        w / 4 % 4 == low / 4 % 4,
        w / 16 % 4 == low / 16 % 4,
        w / 256 % 4 == high % 4,
        w / 4096 == high / 16,
        w % 256 == low,
        w / 256 == high,
{
}

/// The bits of a word, from the bits of its two bytes.
pub proof fn lemma_word_bits(low: int, high: int)
    requires
        0 <= low < 256,
        0 <= high < 256,
    ensures
        ({
            let w = (low + 256 * high) as u16;
            &&& w == low + 256 * high
            &&& bit16(w, 0) == (low % 2 == 1)
            &&& bit16(w, 1) == (low / 2 % 2 == 1)
            &&& bit16(w, 2) == (low / 4 % 2 == 1)
            &&& bit16(w, 3) == (low / 8 % 2 == 1)
            &&& bit16(w, 4) == (low / 16 % 2 == 1)
            &&& bit16(w, 5) == (low / 32 % 2 == 1)
            &&& bit16(w, 6) == (low / 64 % 2 == 1)
            &&& bit16(w, 7) == (low / 128 % 2 == 1)
            &&& bit16(w, 8) == (high % 2 == 1)
            &&& bit16(w, 9) == (high / 2 % 2 == 1)
            &&& bit16(w, 10) == (high / 4 % 2 == 1)
            &&& bit16(w, 11) == (high / 8 % 2 == 1)
            &&& bit16(w, 12) == (high / 16 % 2 == 1)
            &&& bit16(w, 13) == (high / 32 % 2 == 1)
            &&& bit16(w, 14) == (high / 64 % 2 == 1)
            &&& bit16(w, 15) == (high / 128 % 2 == 1)
            &&& w as int / 4 % 4 == low / 4 % 4
            &&& w as int / 16 % 4 == low / 16 % 4
            &&& w as int / 256 % 4 == high % 4
            &&& w as int / 4096 == high / 16
            &&& w as int % 256 == low
            &&& w as int / 256 == high
        }),
{
    let w = (low + 256 * high) as u16;
    lemma_word_places(low as u16, high as u16, w);
}

/// The bits of the low byte of the word of HT capabilities.
#[verifier::rlimit(40)]
proof fn lemma_ht_low_byte(c: HTCapabilities)
    requires
        c.wf(),
    ensures
        0 <= c.low_byte() < 256,
        (c.low_byte() % 2 == 1) == c.ldpc_coding_capability,
        (c.low_byte() / 2 % 2 == 1) == c.supported_channel_width,
        c.low_byte() / 4 % 4 == c.sm_power_save,
        (c.low_byte() / 16 % 2 == 1) == c.green_field,
        (c.low_byte() / 32 % 2 == 1) == c.short_gi_20_mhz,
        (c.low_byte() / 64 % 2 == 1) == c.short_gi_40_mhz,
        (c.low_byte() / 128 % 2 == 1) == c.tx_stbc,
{
    lemma_low_byte_bits(
        c.ldpc_coding_capability,
        c.supported_channel_width,
        (c.sm_power_save % 4) as int,
        c.green_field,
        c.short_gi_20_mhz,
        c.short_gi_40_mhz,
        c.tx_stbc,
    );
}

/// The bits of the high byte of the word of HT capabilities.
#[verifier::rlimit(40)]
proof fn lemma_ht_high_byte(c: HTCapabilities)
    requires
        c.wf(),
    ensures
        0 <= c.high_byte() < 256,
        c.high_byte() % 4 == c.rx_stbc,
        (c.high_byte() / 4 % 2 == 1) == c.delayed_block_ack,
        (c.high_byte() / 8 % 2 == 1) == c.max_amsdu_length,
        (c.high_byte() / 16 % 2 == 1) == c.dsss_support,
        (c.high_byte() / 32 % 2 == 1) == c.psmp_support,
        (c.high_byte() / 64 % 2 == 1) == c.forty_mhz_intolerant,
        (c.high_byte() / 128 % 2 == 1) == c.l_sig_tx_op_protection,
{
    lemma_high_byte_bits(
        (c.rx_stbc % 4) as int,
        c.delayed_block_ack,
        c.max_amsdu_length,
        c.dsss_support,
        c.psmp_support,
        c.forty_mhz_intolerant,
        c.l_sig_tx_op_protection,
    );
}

/// HT capabilities whose numbers fit their bits come back from their word.
pub proof fn lemma_ht_capabilities_round_trip(c: HTCapabilities)
    requires
        c.wf(),
    ensures
        HTCapabilities::of(c.word()) == c,
        ht_capabilities_of(u16_le_bytes(c.word())) == Some(c),
{
    lemma_ht_low_byte(c);
    lemma_ht_high_byte(c);
    lemma_word_bits(c.low_byte(), c.high_byte());
    crate::wire::lemma_le_u16_round_trip(c.word());
}

/// HT information whose offset fits its bits comes back from its bytes.
pub proof fn lemma_ht_information_round_trip(v: HTInformationView)
    requires
        v.wf(),
    ensures
        ht_information_of(v.encode()) == Ok::<HTInformationView, &'static str>(v),
{
    reveal(bit);
    assert(v.encode().skip(2) =~= v.other_data);
}

/// A multiple BSSID element comes back from its bytes.
pub proof fn lemma_multiple_bssid_round_trip(v: MultipleBSSIDView)
    ensures
        multiple_bssid_of(v.encode()) == Ok::<MultipleBSSIDView, &'static str>(v),
{
    assert(v.encode().skip(1) =~= v.other_data);
}

/// A channel switch announcement comes back from its bytes.
pub proof fn lemma_channel_switch_round_trip(v: ChannelSwitchAnnouncment)
    ensures
        channel_switch_of(v.encode_spec()) == Some(v),
{
}

/// Selectors that lie one after the other in `data` from `at` on are found at multiples of
/// four from there.
proof fn lemma_selectors_at(data: Seq<u8>, at: int, parts: Seq<Seq<u8>>)
    requires
        0 <= at,
        at + 4 * parts.len() <= data.len(),
        data.subrange(at, at + 4 * parts.len()) == concat_all(parts),
        forall|i: int| 0 <= i < parts.len() ==> (#[trigger] parts[i]).len() == 4,
    ensures
        forall|i: int| 0 <= i < parts.len() ==> #[trigger] selector(data, at + 4 * i) == parts[i],
{
    lemma_concat_all_fixed(parts, 4);
    let whole = concat_all(parts);
    assert forall|i: int| 0 <= i < parts.len() implies #[trigger] selector(data, at + 4 * i)
        == parts[i] by {
        assert(whole.subrange(4 * i, 4 * i + 4) == parts[i]);
        assert(selector(data, at + 4 * i) =~= data.subrange(at, at + 4 * parts.len()).subrange(
            4 * i,
            4 * i + 4,
        ));
    }
}

/// The flags and counters of an RSN element, from its capabilities word.
#[verifier::rlimit(40)]
proof fn lemma_rsn_capabilities(v: RsnInformationView)
    requires
        v.ptksa_replay_counter < 4,
        v.gtksa_replay_counter < 4,
    ensures
        bit16(v.capabilities(), 0) == v.pre_auth,
        bit16(v.capabilities(), 1) == v.no_pairwise,
        v.capabilities() / 4 % 4 == v.ptksa_replay_counter,
        v.capabilities() / 16 % 4 == v.gtksa_replay_counter,
        bit16(v.capabilities(), 6) == v.mfp_required,
        bit16(v.capabilities(), 7) == v.mfp_capable,
        bit16(v.capabilities(), 8) == v.joint_multi_band_rsna,
        bit16(v.capabilities(), 9) == v.peerkey_enabled,
        bit16(v.capabilities(), 13) == v.extended_key_id,
        bit16(v.capabilities(), 14) == v.ocvc,
{
    let p = (v.ptksa_replay_counter % 4) as int;
    let g = (v.gtksa_replay_counter % 4) as int;
    let low = bit(v.pre_auth) + 2 * bit(v.no_pairwise) + 4 * p + 16 * g + 64 * bit(v.mfp_required)
        + 128 * bit(v.mfp_capable);
    let high = bit(v.joint_multi_band_rsna) + 2 * bit(v.peerkey_enabled) + 32 * bit(
        v.extended_key_id,
    ) + 64 * bit(v.ocvc);
    assert(0 <= low < 256 && (low % 2 == 1) == v.pre_auth && (low / 2 % 2 == 1) == v.no_pairwise
        && low / 4 % 4 == p && low / 16 % 4 == g && (low / 64 % 2 == 1) == v.mfp_required && (low
        / 128 % 2 == 1) == v.mfp_capable) by {
        reveal(bit);
        lemma_byte_digits(
            digit(v.pre_auth),
            digit(v.no_pairwise),
            digit(p == 1 || p == 3),
            digit(p == 2 || p == 3),
            digit(g == 1 || g == 3),
            digit(g == 2 || g == 3),
            digit(v.mfp_required),
            digit(v.mfp_capable),
            low as u16,
        );
    }
    assert(0 <= high < 256 && (high % 2 == 1) == v.joint_multi_band_rsna && (high / 2 % 2 == 1)
        == v.peerkey_enabled && (high / 32 % 2 == 1) == v.extended_key_id && (high / 64 % 2 == 1)
        == v.ocvc) by {
        reveal(bit);
        lemma_byte_digits(
            digit(v.joint_multi_band_rsna),
            digit(v.peerkey_enabled),
            0,
            0,
            0,
            digit(v.extended_key_id),
            digit(v.ocvc),
            0,
            high as u16,
        );
    }
    lemma_word_bits(low, high);
    assert(v.capabilities() == (low + 256 * high) as u16);
}

/// An RSN element as the decoder produces it comes back from its bytes.
#[verifier::rlimit(40)]
pub proof fn lemma_rsn_round_trip(v: RsnInformationView)
    requires
        v.wf(),
    ensures
        rsn_information_of(v.encode()) == Ok::<RsnInformationView, &'static str>(v),
        v.encode().len() == 12 + 4 * v.pairwise_cipher_suites.len() + 4 * v.akm_suites.len(),
{
    let p = v.pairwise_cipher_suites.len() as int;
    let a = v.akm_suites.len() as int;
    let pairwise = v.pairwise_cipher_suites.map_values(|c: RsnCipherSuiteView| c.encode());
    let akms = v.akm_suites.map_values(|c: RsnAkmSuiteView| c.encode());
    let group = v.group_cipher_suite.encode();
    let none = RsnAkmSuiteView::PSK;
    let wc = WpaCipherSuiteView::Tkip;
    let wa = WpaAkmSuiteView::Psk;
    lemma_suite_round_trip(v.group_cipher_suite, none, wc, wa, Seq::empty());
    assert forall|i: int| 0 <= i < pairwise.len() implies (#[trigger] pairwise[i]).len() == 4 by {
        lemma_suite_round_trip(v.pairwise_cipher_suites[i], none, wc, wa, Seq::empty());
    }
    assert forall|i: int| 0 <= i < akms.len() implies (#[trigger] akms[i]).len() == 4 by {
        lemma_suite_round_trip(v.group_cipher_suite, v.akm_suites[i], wc, wa, Seq::empty());
    }
    lemma_concat_all_fixed(pairwise, 4);
    lemma_concat_all_fixed(akms, 4);
    let head = u16_le_bytes(v.version) + group + u16_le_bytes((p % 0x1_0000) as u16);
    let first = head + concat_all(pairwise);
    let second = first + u16_le_bytes((a % 0x1_0000) as u16);
    let third = second + concat_all(akms);
    let data = third + u16_le_bytes(v.capabilities());
    assert(data == v.encode());
    assert(head.len() == 8);
    assert(first.len() == 8 + 4 * p);
    assert(second.len() == 10 + 4 * p);
    assert(third.len() == 10 + 4 * p + 4 * a);
    assert(data.len() == 12 + 4 * p + 4 * a);
    crate::wire::lemma_le_u16_round_trip(v.version);
    crate::wire::lemma_le_u16_round_trip(p as u16);
    crate::wire::lemma_le_u16_round_trip(a as u16);
    crate::wire::lemma_le_u16_round_trip(v.capabilities());
    assert(data[0] == u16_le_bytes(v.version)[0] && data[1] == u16_le_bytes(v.version)[1]);
    assert(le_u16(data, 0) == 1);
    assert(data[6] == u16_le_bytes(p as u16)[0] && data[7] == u16_le_bytes(p as u16)[1]);
    assert(le_u16(data, 6) == p);
    let akm_at = 8 + 4 * p;
    assert(data[akm_at] == u16_le_bytes(a as u16)[0] && data[akm_at + 1] == u16_le_bytes(
        a as u16,
    )[1]);
    assert(le_u16(data, akm_at) == a);
    let capabilities_at = akm_at + 2 + 4 * a;
    assert(data[capabilities_at] == u16_le_bytes(v.capabilities())[0] && data[capabilities_at + 1]
        == u16_le_bytes(v.capabilities())[1]);
    assert(le_u16(data, capabilities_at) == v.capabilities());
    assert(selector(data, 2) =~= group);
    assert(data.subrange(8, 8 + 4 * p) =~= concat_all(pairwise));
    assert(data.subrange(akm_at + 2, akm_at + 2 + 4 * a) =~= concat_all(akms));
    lemma_selectors_at(data, 8, pairwise);
    lemma_selectors_at(data, akm_at + 2, akms);
    lemma_rsn_capabilities(v);
    let decoded = rsn_information_of(data)->Ok_0;
    assert(decoded.pairwise_cipher_suites =~= v.pairwise_cipher_suites) by {
        assert forall|i: int| 0 <= i < p implies RsnCipherSuiteView::of(
            selector(data, 8 + 4 * i),
        ) == v.pairwise_cipher_suites[i] by {
            assert(selector(data, 8 + 4 * i) == pairwise[i]);
            lemma_suite_round_trip(v.pairwise_cipher_suites[i], none, wc, wa, Seq::empty());
        }
    }
    assert(decoded.akm_suites =~= v.akm_suites) by {
        assert forall|i: int| 0 <= i < a implies RsnAkmSuiteView::of(
            selector(data, akm_at + 2 + 4 * i),
        ) == v.akm_suites[i] by {
            assert(selector(data, akm_at + 2 + 4 * i) == akms[i]);
            lemma_suite_round_trip(v.group_cipher_suite, v.akm_suites[i], wc, wa, Seq::empty());
        }
    }
}

/// A WPA element as the decoder produces it comes back from its bytes.
pub proof fn lemma_wpa_round_trip(v: WpaInformationView)
    requires
        v.wf(),
    ensures
        wpa_information_of(v.encode()) == Ok::<WpaInformationView, &'static str>(v),
        v.encode().len() == 10 + 4 * v.unicast_cipher_suites.len() + 4 * v.akm_suites.len(),
{
    let p = v.unicast_cipher_suites.len() as int;
    let a = v.akm_suites.len() as int;
    let unicast = v.unicast_cipher_suites.map_values(|c: WpaCipherSuiteView| c.encode());
    let akms = v.akm_suites.map_values(|c: WpaAkmSuiteView| c.encode());
    let group = v.multicast_cipher_suite.encode();
    let rc = RsnCipherSuiteView::TKIP;
    let ra = RsnAkmSuiteView::PSK;
    let wa = WpaAkmSuiteView::Psk;
    lemma_suite_round_trip(rc, ra, v.multicast_cipher_suite, wa, Seq::empty());
    assert forall|i: int| 0 <= i < unicast.len() implies (#[trigger] unicast[i]).len() == 4 by {
        lemma_suite_round_trip(rc, ra, v.unicast_cipher_suites[i], wa, Seq::empty());
    }
    assert forall|i: int| 0 <= i < akms.len() implies (#[trigger] akms[i]).len() == 4 by {
        lemma_suite_round_trip(rc, ra, v.multicast_cipher_suite, v.akm_suites[i], Seq::empty());
    }
    lemma_concat_all_fixed(unicast, 4);
    lemma_concat_all_fixed(akms, 4);
    let head = u16_le_bytes(v.version) + group + u16_le_bytes((p % 0x1_0000) as u16);
    let first = head + concat_all(unicast);
    let second = first + u16_le_bytes((a % 0x1_0000) as u16);
    let data = second + concat_all(akms);
    assert(data == v.encode());
    assert(head.len() == 8);
    assert(first.len() == 8 + 4 * p);
    assert(second.len() == 10 + 4 * p);
    assert(data.len() == 10 + 4 * p + 4 * a);
    crate::wire::lemma_le_u16_round_trip(v.version);
    crate::wire::lemma_le_u16_round_trip(p as u16);
    crate::wire::lemma_le_u16_round_trip(a as u16);
    assert(data[0] == u16_le_bytes(v.version)[0] && data[1] == u16_le_bytes(v.version)[1]);
    assert(le_u16(data, 0) == 1);
    assert(data[6] == u16_le_bytes(p as u16)[0] && data[7] == u16_le_bytes(p as u16)[1]);
    assert(le_u16(data, 6) == p);
    let akm_at = 8 + 4 * p;
    assert(data[akm_at] == u16_le_bytes(a as u16)[0] && data[akm_at + 1] == u16_le_bytes(
        a as u16,
    )[1]);
    assert(le_u16(data, akm_at) == a);
    assert(selector(data, 2) =~= group);
    assert(data.subrange(8, 8 + 4 * p) =~= concat_all(unicast));
    assert(data.subrange(akm_at + 2, akm_at + 2 + 4 * a) =~= concat_all(akms));
    lemma_selectors_at(data, 8, unicast);
    lemma_selectors_at(data, akm_at + 2, akms);
    let decoded = wpa_information_of(data)->Ok_0;
    assert(decoded.unicast_cipher_suites =~= v.unicast_cipher_suites) by {
        assert forall|i: int| 0 <= i < p implies WpaCipherSuiteView::of(
            selector(data, 8 + 4 * i),
        ) == v.unicast_cipher_suites[i] by {
            assert(selector(data, 8 + 4 * i) == unicast[i]);
            lemma_suite_round_trip(rc, ra, v.unicast_cipher_suites[i], wa, Seq::empty());
        }
    }
    assert(decoded.akm_suites =~= v.akm_suites) by {
        assert forall|i: int| 0 <= i < a implies WpaAkmSuiteView::of(
            selector(data, akm_at + 2 + 4 * i),
        ) == v.akm_suites[i] by {
            assert(selector(data, akm_at + 2 + 4 * i) == akms[i]);
            lemma_suite_round_trip(
                rc,
                ra,
                v.multicast_cipher_suite,
                v.akm_suites[i],
                Seq::empty(),
            );
        }
    }
}

/// Extended capabilities whose numbers fit their bits, and of which at least one bit is
/// set, come back from their bytes. With no bit set the bytes are empty, and an empty
/// element is refused.
pub proof fn lemma_extended_capabilities_round_trip(c: ExtendedCapabilities)
    requires
        c.wf(),
        exists|i: int| 0 <= i < EXTENDED_CAPABILITY_BITS && c.bit(i),
    ensures
        c.encode_spec().len() > 0,
        c.encode_spec().len() <= 12,
        extended_capabilities_of(c.encode_spec()) == Ok::<ExtendedCapabilities, &'static str>(c),
{
    let bits = c.bits();
    let bytes = c.encode_spec();
    let unused = trailing_zero_count(bits);
    lemma_trailing_zero_count(bits);
    lemma_packs_exists(bits);
    assert(packs(bytes, bits));
    let witness = choose|i: int| 0 <= i < EXTENDED_CAPABILITY_BITS && c.bit(i);
    assert(bits[witness]);
    assert(unused < bits.len()) by {
        if unused == bits.len() {
            assert(!bits[witness]);
        }
    }
    let kept = bits.take(bits.len() - unused);
    assert(bits_of_bytes(bytes).len() == 8 * bytes.len());
    assert(capability_bits(bytes) =~= bits) by {
        assert forall|i: int| 0 <= i < 90 implies capability_bits(bytes)[i] == bits[i] by {
            if i < 8 * bytes.len() {
                assert(bits_of_bytes(bytes)[i] == resized(kept, 8 * bytes.len(), false)[i]);
            }
        }
    }
    lemma_capabilities_of_bits(c);
}

/// The bytes that pack a bit string exist: one byte for every eight bits.
pub proof fn lemma_packs_exists(bits: Seq<bool>)
    ensures
        exists|bytes: Seq<u8>| packs(bytes, bits),
{
    let kept = bits.take(bits.len() - trailing_zero_count(bits));
    lemma_trailing_zero_count(bits);
    let count = (kept.len() + 7) / 8;
    let bytes = Seq::new(count as nat, |k: int| packed_byte(kept, k));
    assert(bits_of_bytes(bytes) =~= resized(kept, 8 * bytes.len(), false)) by {
        assert forall|i: int| 0 <= i < 8 * bytes.len() implies bits_of_bytes(bytes)[i] == resized(
            kept,
            8 * bytes.len(),
            false,
        )[i] by {
            let k = i / 8;
            let j = i % 8;
            lemma_packed_bit(
                bit_or_clear(kept, 8 * k),
                bit_or_clear(kept, 8 * k + 1),
                bit_or_clear(kept, 8 * k + 2),
                bit_or_clear(kept, 8 * k + 3),
                bit_or_clear(kept, 8 * k + 4),
                bit_or_clear(kept, 8 * k + 5),
                bit_or_clear(kept, 8 * k + 6),
                bit_or_clear(kept, 8 * k + 7),
            );
        }
    }
    assert(packs(bytes, bits));
}

/// Bit `i` of a bit string, clear beyond its end.
spec fn bit_or_clear(bits: Seq<bool>, i: int) -> bool {
    0 <= i < bits.len() && bits[i]
}

/// A byte with the given bits, lowest first.
spec fn byte_of(
    b0: bool,
    b1: bool,
    b2: bool,
    b3: bool,
    b4: bool,
    b5: bool,
    b6: bool,
    b7: bool,
) -> u8 {
    (if b0 {
        1u8
    } else {
        0u8
    }) | (if b1 {
        2u8
    } else {
        0u8
    }) | (if b2 {
        4u8
    } else {
        0u8
    }) | (if b3 {
        8u8
    } else {
        0u8
    }) | (if b4 {
        16u8
    } else {
        0u8
    }) | (if b5 {
        32u8
    } else {
        0u8
    }) | (if b6 {
        64u8
    } else {
        0u8
    }) | (if b7 {
        128u8
    } else {
        0u8
    })
}

/// Byte `k` of the packing of a bit string.
spec fn packed_byte(bits: Seq<bool>, k: int) -> u8 {
    byte_of(
        bit_or_clear(bits, 8 * k),
        bit_or_clear(bits, 8 * k + 1),
        bit_or_clear(bits, 8 * k + 2),
        bit_or_clear(bits, 8 * k + 3),
        bit_or_clear(bits, 8 * k + 4),
        bit_or_clear(bits, 8 * k + 5),
        bit_or_clear(bits, 8 * k + 6),
        bit_or_clear(bits, 8 * k + 7),
    )
}

/// The bits of a byte made from eight bits are those bits.
proof fn lemma_packed_bit(
    b0: bool,
    b1: bool,
    b2: bool,
    b3: bool,
    b4: bool,
    b5: bool,
    b6: bool,
    b7: bool,
)
    by (bit_vector)
    ensures
        ((byte_of(b0, b1, b2, b3, b4, b5, b6, b7) >> 0u8) & 1u8 == 1u8) == b0,
        ((byte_of(b0, b1, b2, b3, b4, b5, b6, b7) >> 1u8) & 1u8 == 1u8) == b1,
        ((byte_of(b0, b1, b2, b3, b4, b5, b6, b7) >> 2u8) & 1u8 == 1u8) == b2,
        ((byte_of(b0, b1, b2, b3, b4, b5, b6, b7) >> 3u8) & 1u8 == 1u8) == b3,
        ((byte_of(b0, b1, b2, b3, b4, b5, b6, b7) >> 4u8) & 1u8 == 1u8) == b4,
        ((byte_of(b0, b1, b2, b3, b4, b5, b6, b7) >> 5u8) & 1u8 == 1u8) == b5,
        ((byte_of(b0, b1, b2, b3, b4, b5, b6, b7) >> 6u8) & 1u8 == 1u8) == b6,
        ((byte_of(b0, b1, b2, b3, b4, b5, b6, b7) >> 7u8) & 1u8 == 1u8) == b7,
{
}

} // verus!
