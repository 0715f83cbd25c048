//! The elements of a management frame come back from their own bytes.

use crate::error::ErrorView;
use crate::frame::components::security::wpa_oui;
use crate::frame::components::station_info::{
    body_fits, element, opt_element, opt_pair, StationInfoView, VendorSpecificInfoView,
};
use crate::laws::elements::{
    lemma_channel_switch_round_trip, lemma_extended_capabilities_round_trip,
    lemma_ht_capabilities_round_trip, lemma_ht_information_round_trip,
    lemma_multiple_bssid_round_trip, lemma_rates_round_trip, lemma_rsn_round_trip,
    lemma_wpa_round_trip,
};
use crate::parsers::components::station_info::{
    apply_element, apply_vendor, station_info_of, station_info_walk,
};
use crate::wire::{concat_all, lemma_concat_all_single, lemma_le_u16_round_trip};
use vstd::prelude::*;

verus! {

/// What a list of elements, each an identifier and a body, makes of `acc`; `None` where
/// one of them is refused.
pub open spec fn fold_elements(els: Seq<(u8, Seq<u8>)>, acc: StationInfoView) -> Option<
    StationInfoView,
>
    decreases els.len(),
{
    if els.len() == 0 {
        Some(acc)
    } else {
        match apply_element(acc, els[0].0, (els[0].1.len() % 256) as u8, els[0].1) {
            None => None,
            Some(next) => fold_elements(els.skip(1), next),
        }
    }
}

/// The bytes of a list of elements.
pub open spec fn elements_bytes(els: Seq<(u8, Seq<u8>)>) -> Seq<u8> {
    concat_all(els.map_values(|e: (u8, Seq<u8>)| element(e.0, e.1)))
}

/// A list of elements that the walk reads to its end: every body has between 1 and 255
/// bytes, and the last has at least two.
pub open spec fn readable(els: Seq<(u8, Seq<u8>)>) -> bool {
    &&& forall|i: int| 0 <= i < els.len() ==> 1 <= (#[trigger] els[i]).1.len() <= 255
    &&& els.len() > 0 ==> els.last().1.len() >= 2
}

/// The parts of a list that is not empty are its first part and the others.
pub proof fn lemma_concat_all_front(parts: Seq<Seq<u8>>)
    requires
        parts.len() > 0,
    ensures
        concat_all(parts) == parts[0] + concat_all(parts.skip(1)),
    decreases parts.len(),
{
    if parts.len() == 1 {
        assert(parts.drop_last() =~= Seq::<Seq<u8>>::empty());
        assert(parts.skip(1) =~= Seq::<Seq<u8>>::empty());
        assert(concat_all(parts) =~= parts[0] + concat_all(parts.skip(1)));
    } else {
        lemma_concat_all_front(parts.drop_last());
        assert(parts.drop_last().skip(1) =~= parts.skip(1).drop_last());
        assert(parts.skip(1).last() == parts.last());
        assert(concat_all(parts) =~= parts[0] + concat_all(parts.skip(1)));
    }
}

/// The walk over an element with a body, followed by `rest`, does what the element does
/// and goes on with `rest`.
pub proof fn lemma_walk_step(id: u8, body: Seq<u8>, rest: Seq<u8>, acc: StationInfoView)
    requires
        1 <= body.len() <= 255,
        body.len() >= 2 || rest.len() >= 1,
    ensures
        station_info_walk(element(id, body) + rest, acc) == match apply_element(
            acc,
            id,
            body.len() as u8,
            body,
        ) {
            None => Err(
                ErrorView::Failure(crate::error::WPA_MISMATCH@, rest),
            ),
            Some(next) => station_info_walk(rest, next),
        },
{
    let bytes = element(id, body) + rest;
    assert(bytes.len() >= 4);
    assert(bytes[0] == id);
    assert(bytes[1] == body.len());
    assert(bytes.subrange(2, 2 + bytes[1]) =~= body);
    assert(bytes.skip(2 + bytes[1]) =~= rest);
}

/// The walk over the bytes of a readable list of elements does what the elements do one
/// after the other, and leaves no byte.
pub proof fn lemma_walk_elements(els: Seq<(u8, Seq<u8>)>, acc: StationInfoView)
    requires
        readable(els),
        fold_elements(els, acc) is Some,
    ensures
        station_info_walk(elements_bytes(els), acc) == Ok::<
            (Seq<u8>, StationInfoView),
            ErrorView,
        >((Seq::<u8>::empty(), fold_elements(els, acc).unwrap())),
    decreases els.len(),
{
    let parts = els.map_values(|e: (u8, Seq<u8>)| element(e.0, e.1));
    let bytes = elements_bytes(els);
    if els.len() == 0 {
        assert(bytes =~= Seq::<u8>::empty());
    } else {
        let id = els[0].0;
        let body = els[0].1;
        let others = els.skip(1);
        lemma_concat_all_front(parts);
        assert(parts.skip(1) =~= others.map_values(|e: (u8, Seq<u8>)| element(e.0, e.1)));
        let rest = elements_bytes(others);
        assert(bytes == element(id, body) + rest);
        assert(readable(others)) by {
            assert forall|i: int| 0 <= i < others.len() implies 1 <= (#[trigger] others[i]).1.len()
                <= 255 by {
                assert(others[i] == els[i + 1]);
            }
            if others.len() > 0 {
                assert(others.last() == els.last());
            }
        }
        if others.len() > 0 {
            let next_parts = others.map_values(|e: (u8, Seq<u8>)| element(e.0, e.1));
            lemma_concat_all_front(next_parts);
            assert(rest.len() >= 3);
        } else {
            assert(els.last() == els[0]);
        }
        lemma_walk_step(id, body, rest, acc);
        let next = apply_element(acc, id, (body.len() % 256) as u8, body).unwrap();
        lemma_walk_elements(others, next);
    }
}

/// What two lists of elements do one after the other is what their concatenation does.
pub proof fn lemma_fold_append(
    a: Seq<(u8, Seq<u8>)>,
    b: Seq<(u8, Seq<u8>)>,
    acc: StationInfoView,
)
    ensures
        fold_elements(a + b, acc) == match fold_elements(a, acc) {
            Some(middle) => fold_elements(b, middle),
            None => None,
        },
    decreases a.len(),
{
    if a.len() == 0 {
        assert(a + b =~= b);
    } else {
        assert((a + b)[0] == a[0]);
        assert((a + b).skip(1) =~= a.skip(1) + b);
        match apply_element(acc, a[0].0, (a[0].1.len() % 256) as u8, a[0].1) {
            None => {},
            Some(next) => {
                lemma_fold_append(a.skip(1), b, next);
            },
        }
    }
}

/// The bytes of two lists of elements one after the other.
pub proof fn lemma_elements_bytes_append(a: Seq<(u8, Seq<u8>)>, b: Seq<(u8, Seq<u8>)>)
    ensures
        elements_bytes(a + b) == elements_bytes(a) + elements_bytes(b),
    decreases b.len(),
{
    let f = |e: (u8, Seq<u8>)| element(e.0, e.1);
    if b.len() == 0 {
        assert(a + b =~= a);
        assert(elements_bytes(b) =~= Seq::<u8>::empty());
        assert(elements_bytes(a) + elements_bytes(b) =~= elements_bytes(a));
    } else {
        lemma_elements_bytes_append(a, b.drop_last());
        assert((a + b).drop_last() =~= a + b.drop_last());
        assert((a + b).map_values(f).drop_last() =~= (a + b.drop_last()).map_values(f));
        assert(b.map_values(f).drop_last() =~= b.drop_last().map_values(f));
        assert((a + b).map_values(f).last() == b.map_values(f).last());
        crate::wire::lemma_append_assoc(
            elements_bytes(a),
            elements_bytes(b.drop_last()),
            b.map_values(f).last(),
        );
    }
}

/// Every body of a list has between 1 and 255 bytes.
pub open spec fn bodies_fit(els: Seq<(u8, Seq<u8>)>) -> bool {
    forall|i: int| 0 <= i < els.len() ==> 1 <= (#[trigger] els[i]).1.len() <= 255
}

/// The bodies of two lists fit if those of each do.
proof fn lemma_bodies_fit_append(a: Seq<(u8, Seq<u8>)>, b: Seq<(u8, Seq<u8>)>)
    requires
        bodies_fit(a),
        bodies_fit(b),
    ensures
        bodies_fit(a + b),
{
    assert forall|i: int| 0 <= i < (a + b).len() implies 1 <= (#[trigger] (a + b)[i]).1.len()
        <= 255 by {
        if i < a.len() {
            assert((a + b)[i] == a[i]);
        } else {
            assert((a + b)[i] == b[i - a.len()]);
        }
    }
}

/// One more element that may be absent: its bytes, what it does, and whether its body fits.
proof fn lemma_extend(
    els: Seq<(u8, Seq<u8>)>,
    id: u8,
    body: Option<Seq<u8>>,
    acc: StationInfoView,
)
    ensures
        elements_bytes(els + opt_pair(id, body)) == elements_bytes(els) + opt_element(id, body),
        fold_elements(els + opt_pair(id, body), acc) == match fold_elements(els, acc) {
            None => None,
            Some(middle) => match body {
                None => Some(middle),
                Some(b) => apply_element(middle, id, (b.len() % 256) as u8, b),
            },
        },
        bodies_fit(els) && body_fits(body) ==> bodies_fit(els + opt_pair(id, body)),
{
    let piece = opt_pair(id, body);
    lemma_elements_bytes_append(els, piece);
    lemma_fold_append(els, piece, acc);
    match body {
        None => {
            assert(elements_bytes(piece) =~= Seq::<u8>::empty());
        },
        Some(b) => {
            assert(piece.map_values(|e: (u8, Seq<u8>)| element(e.0, e.1)) =~= seq![element(id, b)]);
            lemma_concat_all_single(element(id, b));
            assert(piece.skip(1) =~= Seq::<(u8, Seq<u8>)>::empty());
            match fold_elements(els, acc) {
                None => {},
                Some(middle) => {
                    match apply_element(middle, id, (b.len() % 256) as u8, b) {
                        None => {},
                        Some(next) => {
                            assert(fold_elements(piece.skip(1), next) == Some(next));
                        },
                    }
                },
            }
        },
    }
    if bodies_fit(els) && body_fits(body) {
        assert(bodies_fit(piece));
        lemma_bodies_fit_append(els, piece);
    }
}

/// A name comes back from its bytes in UTF-8.
proof fn lemma_ssid_round_trip(s: Seq<char>)
    ensures
        crate::parsers::components::station_info::ssid_of(vstd::utf8::encode_utf8(s)) == s,
{
    vstd::utf8::encode_utf8_valid_utf8(s);
    vstd::utf8::encode_utf8_decode_utf8(s);
}

/// What the element of the network name does.
proof fn lemma_apply_ssid(acc: StationInfoView, s: Seq<char>)
    requires
        vstd::utf8::encode_utf8(s).len() <= 255,
    ensures
        apply_element(
            acc,
            0,
            (vstd::utf8::encode_utf8(s).len() % 256) as u8,
            vstd::utf8::encode_utf8(s),
        ) == Some(
            StationInfoView {
                ssid: Some(s),
                ssid_length: Some(vstd::utf8::encode_utf8(s).len() as usize),
                ..acc
            },
        ),
{
    reveal(apply_element);
    lemma_ssid_round_trip(s);
}

/// What the elements of the rates do.
proof fn lemma_apply_rates(
    acc: StationInfoView,
    rates: Seq<crate::frame::components::station_info::SupportedRate>,
    length: u8,
)
    requires
        forall|i: int| 0 <= i < rates.len() ==> (#[trigger] rates[i]).wf(),
    ensures
        apply_element(
            acc,
            1,
            length,
            crate::frame::components::station_info::rates_bytes(rates),
        ) == Some(StationInfoView { supported_rates: rates, ..acc }),
        apply_element(
            acc,
            50,
            length,
            crate::frame::components::station_info::rates_bytes(rates),
        ) == Some(StationInfoView { extended_supported_rates: Some(rates), ..acc }),
{
    reveal(apply_element);
    lemma_rates_round_trip(rates);
}

/// What the elements of one byte or of one word do.
proof fn lemma_apply_numbers(acc: StationInfoView, byte: u8, word: u16, length: u8)
    ensures
        apply_element(acc, 3, length, seq![byte]) == Some(
            StationInfoView { ds_parameter_set: Some(byte), ..acc },
        ),
        apply_element(acc, 32, length, seq![byte]) == Some(
            StationInfoView { power_constraint: Some(byte), ..acc },
        ),
        apply_element(acc, 6, length, crate::wire::u16_le_bytes(word)) == Some(
            StationInfoView { ibss_parameter_set: Some(word), ..acc },
        ),
{
    reveal(apply_element);
    lemma_le_u16_round_trip(word);
}

/// What the elements do that are kept as they came.
proof fn lemma_apply_raw(acc: StationInfoView, body: Seq<u8>, length: u8)
    ensures
        apply_element(acc, 5, length, body) == Some(StationInfoView { tim: Some(body), ..acc }),
        apply_element(acc, 7, length, body) == Some(
            StationInfoView { country_info: Some(body), ..acc },
        ),
        apply_element(acc, 191, length, body) == Some(
            StationInfoView { vht_capabilities: Some(body), ..acc },
        ),
        body.len() > 0 && body[0] == 35 ==> apply_element(acc, 255, length, body) == Some(
            StationInfoView { he_capabilities: Some(body), ..acc },
        ),
{
    reveal(apply_element);
}

/// What a residual element does.
proof fn lemma_apply_residual(acc: StationInfoView, id: u8, body: Seq<u8>, length: u8)
    requires
        !crate::frame::components::station_info::is_known_element(id),
    ensures
        apply_element(acc, id, length, body) == Some(
            StationInfoView { data: acc.data.push((id, body)), ..acc },
        ),
{
    reveal(apply_element);
}

/// One more element, after elements that have made `middle` of `acc`.
proof fn lemma_step(
    els: Seq<(u8, Seq<u8>)>,
    id: u8,
    body: Option<Seq<u8>>,
    acc: StationInfoView,
    middle: StationInfoView,
    next: StationInfoView,
)
    requires
        fold_elements(els, acc) == Some(middle),
        bodies_fit(els),
        body_fits(body),
        match body {
            None => next == middle,
            Some(b) => apply_element(middle, id, (b.len() % 256) as u8, b) == Some(next),
        },
    ensures
        elements_bytes(els + opt_pair(id, body)) == elements_bytes(els) + opt_element(id, body),
        fold_elements(els + opt_pair(id, body), acc) == Some(next),
        bodies_fit(els + opt_pair(id, body)),
{
    lemma_extend(els, id, body, acc);
}

/// The first four elements: name, rates, extended rates, channel.
#[verifier::rlimit(50)]
proof fn lemma_basic_first(info: StationInfoView, acc: StationInfoView)
    requires
        match info.ssid {
            Some(s) => info.ssid_length == Some(vstd::utf8::encode_utf8(s).len() as usize),
            None => info.ssid_length is None,
        },
        forall|i: int|
            0 <= i < info.supported_rates.len() ==> (#[trigger] info.supported_rates[i]).wf(),
        info.extended_supported_rates matches Some(r) ==> forall|i: int|
            0 <= i < r.len() ==> (#[trigger] r[i]).wf(),
        body_fits(info.ssid_body()),
        body_fits(info.rates_body()),
        body_fits(info.extended_rates_body()),
        acc.ssid is None,
        acc.ssid_length is None,
        acc.supported_rates.len() == 0,
        acc.extended_supported_rates is None,
        acc.ds_parameter_set is None,
    ensures
        ({
            let els = opt_pair(0, info.ssid_body()) + opt_pair(1, info.rates_body()) + opt_pair(
                50,
                info.extended_rates_body(),
            ) + opt_pair(3, info.ds_body());
            &&& elements_bytes(els) == opt_element(0, info.ssid_body()) + opt_element(
                1,
                info.rates_body(),
            ) + opt_element(50, info.extended_rates_body()) + opt_element(3, info.ds_body())
            &&& bodies_fit(els)
            &&& fold_elements(els, acc) == Some(
                StationInfoView {
                    ssid: info.ssid,
                    ssid_length: info.ssid_length,
                    supported_rates: info.supported_rates,
                    extended_supported_rates: info.extended_supported_rates,
                    ds_parameter_set: info.ds_parameter_set,
                    ..acc
                },
            )
        }),
{
    let e0 = Seq::<(u8, Seq<u8>)>::empty();
    assert(elements_bytes(e0) =~= Seq::<u8>::empty());
    let e1 = e0 + opt_pair(0, info.ssid_body());
    let m1 = StationInfoView { ssid: info.ssid, ssid_length: info.ssid_length, ..acc };
    if let Some(s) = info.ssid {
        lemma_apply_ssid(acc, s);
    }
    lemma_step(e0, 0, info.ssid_body(), acc, acc, m1);
    assert(e1 =~= opt_pair(0, info.ssid_body()));
    assert(elements_bytes(e1) =~= opt_element(0, info.ssid_body()));
    let e2 = e1 + opt_pair(1, info.rates_body());
    let m2 = StationInfoView { supported_rates: info.supported_rates, ..m1 };
    lemma_apply_rates(m1, info.supported_rates, (info.supported_rates.len() % 256) as u8);
    if info.supported_rates.len() == 0 {
        assert(info.supported_rates =~= acc.supported_rates);
    }
    lemma_step(e1, 1, info.rates_body(), acc, m1, m2);
    let e3 = e2 + opt_pair(50, info.extended_rates_body());
    let m3 = StationInfoView { extended_supported_rates: info.extended_supported_rates, ..m2 };
    if let Some(r) = info.extended_supported_rates {
        lemma_apply_rates(m2, r, (r.len() % 256) as u8);
    }
    lemma_step(e2, 50, info.extended_rates_body(), acc, m2, m3);
    let m4 = StationInfoView { ds_parameter_set: info.ds_parameter_set, ..m3 };
    if let Some(d) = info.ds_parameter_set {
        lemma_apply_numbers(m3, d, 0, 1);
    }
    lemma_step(e3, 3, info.ds_body(), acc, m3, m4);
}

/// The elements that name and describe the network: their bytes, and what they do to a
/// record that holds none of them yet.
#[verifier::rlimit(50)]
proof fn lemma_basic(info: StationInfoView, acc: StationInfoView)
    requires
        match info.ssid {
            Some(s) => info.ssid_length == Some(vstd::utf8::encode_utf8(s).len() as usize),
            None => info.ssid_length is None,
        },
        forall|i: int|
            0 <= i < info.supported_rates.len() ==> (#[trigger] info.supported_rates[i]).wf(),
        info.extended_supported_rates matches Some(r) ==> forall|i: int|
            0 <= i < r.len() ==> (#[trigger] r[i]).wf(),
        body_fits(info.ssid_body()),
        body_fits(info.rates_body()),
        body_fits(info.extended_rates_body()),
        body_fits(info.tim),
        body_fits(info.country_info),
        acc.ssid is None,
        acc.ssid_length is None,
        acc.supported_rates.len() == 0,
        acc.extended_supported_rates is None,
        acc.ds_parameter_set is None,
        acc.tim is None,
        acc.ibss_parameter_set is None,
        acc.country_info is None,
        acc.power_constraint is None,
    ensures
        elements_bytes(info.elements_basic()) == info.encode_basic(),
        bodies_fit(info.elements_basic()),
        fold_elements(info.elements_basic(), acc) == Some(
            StationInfoView {
                ssid: info.ssid,
                ssid_length: info.ssid_length,
                supported_rates: info.supported_rates,
                extended_supported_rates: info.extended_supported_rates,
                ds_parameter_set: info.ds_parameter_set,
                tim: info.tim,
                ibss_parameter_set: info.ibss_parameter_set,
                country_info: info.country_info,
                power_constraint: info.power_constraint,
                ..acc
            },
        ),
{
    lemma_basic_first(info, acc);
    let e4 = opt_pair(0, info.ssid_body()) + opt_pair(1, info.rates_body()) + opt_pair(
        50,
        info.extended_rates_body(),
    ) + opt_pair(3, info.ds_body());
    let m4 = StationInfoView {
        ssid: info.ssid,
        ssid_length: info.ssid_length,
        supported_rates: info.supported_rates,
        extended_supported_rates: info.extended_supported_rates,
        ds_parameter_set: info.ds_parameter_set,
        ..acc
    };
    let e5 = e4 + opt_pair(5, info.tim);
    let m5 = StationInfoView { tim: info.tim, ..m4 };
    if let Some(t) = info.tim {
        lemma_apply_raw(m4, t, (t.len() % 256) as u8);
    }
    lemma_step(e4, 5, info.tim, acc, m4, m5);
    let e6 = e5 + opt_pair(6, info.ibss_body());
    let m6 = StationInfoView { ibss_parameter_set: info.ibss_parameter_set, ..m5 };
    if let Some(w) = info.ibss_parameter_set {
        lemma_apply_numbers(m5, 0, w, 2);
    }
    lemma_step(e5, 6, info.ibss_body(), acc, m5, m6);
    let e7 = e6 + opt_pair(7, info.country_info);
    let m7 = StationInfoView { country_info: info.country_info, ..m6 };
    if let Some(c) = info.country_info {
        lemma_apply_raw(m6, c, (c.len() % 256) as u8);
    }
    lemma_step(e6, 7, info.country_info, acc, m6, m7);
    let m8 = StationInfoView { power_constraint: info.power_constraint, ..m7 };
    if let Some(p) = info.power_constraint {
        lemma_apply_numbers(m7, p, 0, 1);
    }
    lemma_step(e7, 32, info.power_body(), acc, m7, m8);
}

/// What the elements of high-throughput operation do.
proof fn lemma_apply_throughput(
    acc: StationInfoView,
    capabilities: crate::frame::components::station_info::HTCapabilities,
    information: crate::frame::components::station_info::HTInformationView,
    multiple: crate::frame::components::station_info::MultipleBSSIDView,
    length: u8,
)
    requires
        capabilities.wf(),
        information.wf(),
    ensures
        apply_element(acc, 45, length, crate::wire::u16_le_bytes(capabilities.word())) == Some(
            StationInfoView { ht_capabilities: Some(capabilities), ..acc },
        ),
        apply_element(acc, 61, length, information.encode()) == Some(
            StationInfoView { ht_information: Some(information), ..acc },
        ),
        apply_element(acc, 71, length, multiple.encode()) == Some(
            StationInfoView { multiple_bssid: Some(multiple), ..acc },
        ),
{
    reveal(apply_element);
    lemma_ht_capabilities_round_trip(capabilities);
    lemma_ht_information_round_trip(information);
    lemma_multiple_bssid_round_trip(multiple);
}

/// What the RSN element does.
proof fn lemma_apply_rsn(
    acc: StationInfoView,
    rsn: crate::frame::components::security::RsnInformationView,
    length: u8,
)
    requires
        rsn.wf(),
    ensures
        apply_element(acc, 48, length, rsn.encode()) == Some(
            StationInfoView { rsn_information: Some(rsn), ..acc },
        ),
{
    reveal(apply_element);
    lemma_rsn_round_trip(rsn);
}

/// What a vendor element does whose payload stands for WPA information.
proof fn lemma_vendor_wpa(
    acc: StationInfoView,
    payload: Seq<u8>,
    wpa: crate::frame::components::security::WpaInformationView,
    length: u8,
)
    requires
        crate::parsers::components::security::wpa_information_of(payload) == Ok::<
            crate::frame::components::security::WpaInformationView,
            &'static str,
        >(wpa),
    ensures
        apply_vendor(acc, length, wpa_oui().push(1) + payload) == Some(
            StationInfoView { wpa_info: Some(wpa), ..acc },
        ),
{
    reveal(apply_vendor);
    let body = wpa_oui().push(1) + payload;
    assert(body.take(3) =~= wpa_oui());
    assert(body[3] == 1);
    assert(body.skip(4) =~= payload);
}

/// What the vendor element with the WPA information does.
proof fn lemma_apply_wpa(
    acc: StationInfoView,
    wpa: crate::frame::components::security::WpaInformationView,
    length: u8,
)
    requires
        wpa.wf(),
    ensures
        apply_element(acc, 221, length, wpa_oui().push(1) + wpa.encode()) == Some(
            StationInfoView { wpa_info: Some(wpa), ..acc },
        ),
{
    lemma_wpa_round_trip(wpa);
    let payload = wpa.encode();
    lemma_vendor_wpa(acc, payload, wpa, length);
    assert(apply_element(acc, 221, length, wpa_oui().push(1) + payload) == apply_vendor(
        acc,
        length,
        wpa_oui().push(1) + payload,
    )) by {
        reveal(apply_element);
    }
}

/// What a vendor element does whose payload stands for WPS information.
proof fn lemma_vendor_wps(
    acc: StationInfoView,
    payload: Seq<u8>,
    wps: crate::frame::components::wps::WpsInformationView,
    length: u8,
)
    requires
        crate::parsers::components::wps::wps_information_of(payload) == Ok::<
            crate::frame::components::wps::WpsInformationView,
            &'static str,
        >(wps),
    ensures
        apply_vendor(acc, length, wpa_oui().push(4) + payload) == Some(
            StationInfoView { wps_info: Some(wps), ..acc },
        ),
{
    reveal(apply_vendor);
    let body = wpa_oui().push(4) + payload;
    assert(body.take(3) =~= wpa_oui());
    assert(body[3] == 4);
    assert(body.skip(4) =~= payload);
}

/// What the vendor element with the WPS information does.
proof fn lemma_apply_wps(
    acc: StationInfoView,
    wps: crate::frame::components::wps::WpsInformationView,
    length: u8,
)
    requires
        wps.canonical(),
    ensures
        apply_element(acc, 221, length, wpa_oui().push(4) + wps.encode()) == Some(
            StationInfoView { wps_info: Some(wps), ..acc },
        ),
{
    crate::laws::wps::lemma_wps_round_trip(wps);
    let payload = wps.encode();
    lemma_vendor_wps(acc, payload, wps, length);
    assert(apply_element(acc, 221, length, wpa_oui().push(4) + payload) == apply_vendor(
        acc,
        length,
        wpa_oui().push(4) + payload,
    )) by {
        reveal(apply_element);
    }
}

/// What a vendor element does that is kept as it came, among the vendor elements.
proof fn lemma_vendor_kept(acc: StationInfoView, v: VendorSpecificInfoView)
    requires
        v.kept(),
    ensures
        v.body().len() == 4 + v.data.len(),
        apply_vendor(acc, v.length, v.body()) == Some(
            StationInfoView { vendor_specific: acc.vendor_specific.push(v), ..acc },
        ),
        element(221, v.body()) == v.encode(),
{
    reveal(apply_vendor);
    let body = v.body();
    assert(body.len() == 4 + v.data.len());
    assert(body.take(3) =~= v.oui);
    assert(body[3] == v.oui_type);
    assert(body.skip(4) =~= v.data);
    assert(element(221, body) =~= v.encode());
    let kept = VendorSpecificInfoView {
        element_id: 221,
        length: v.length,
        oui: body.take(3),
        oui_type: body[3],
        data: body.skip(4),
    };
    assert(kept == v);
}

/// What a vendor element does that is kept as it came.
proof fn lemma_apply_vendor_kept(acc: StationInfoView, v: VendorSpecificInfoView)
    requires
        v.kept(),
    ensures
        1 <= v.body().len() <= 255,
        apply_element(acc, 221, (v.body().len() % 256) as u8, v.body()) == Some(
            StationInfoView { vendor_specific: acc.vendor_specific.push(v), ..acc },
        ),
        element(221, v.body()) == v.encode(),
{
    lemma_vendor_kept(acc, v);
    assert(apply_element(acc, 221, v.length, v.body()) == apply_vendor(acc, v.length, v.body()))
        by {
        reveal(apply_element);
    }
}

/// What the last known elements do.
proof fn lemma_apply_last(
    acc: StationInfoView,
    capabilities: crate::frame::components::extended_capabilities::ExtendedCapabilities,
    switch: crate::frame::components::station_info::ChannelSwitchAnnouncment,
    length: u8,
)
    ensures
        capabilities.wf() && (exists|i: int| 0 <= i < 90 && capabilities.bit(i)) ==> 1
            <= capabilities.encode_spec().len() <= 255 && apply_element(
            acc,
            127,
            length,
            capabilities.encode_spec(),
        ) == Some(StationInfoView { extended_capabilities: Some(capabilities), ..acc }),
        apply_element(acc, 37, length, switch.encode_spec()) == Some(
            StationInfoView { channel_switch: Some(switch), ..acc },
        ),
{
    reveal(apply_element);
    lemma_channel_switch_round_trip(switch);
    if capabilities.wf() && (exists|i: int| 0 <= i < 90 && capabilities.bit(i)) {
        lemma_extended_capabilities_round_trip(capabilities);
    }
}

/// The vendor elements that are kept as they came, as identifier and body.
pub open spec fn vendor_pairs(vs: Seq<VendorSpecificInfoView>) -> Seq<(u8, Seq<u8>)> {
    vs.map_values(|v: VendorSpecificInfoView| (221u8, v.body()))
}

/// The vendor elements that are kept as they came: their bytes, and what they do.
proof fn lemma_vendor_list(vs: Seq<VendorSpecificInfoView>, acc: StationInfoView)
    requires
        forall|i: int| 0 <= i < vs.len() ==> (#[trigger] vs[i]).kept(),
    ensures
        elements_bytes(vendor_pairs(vs)) == concat_all(
            vs.map_values(|v: VendorSpecificInfoView| v.encode()),
        ),
        bodies_fit(vendor_pairs(vs)),
        fold_elements(vendor_pairs(vs), acc) == Some(
            StationInfoView { vendor_specific: acc.vendor_specific + vs, ..acc },
        ),
    decreases vs.len(),
{
    let encoded = vs.map_values(|v: VendorSpecificInfoView| v.encode());
    if vs.len() == 0 {
        assert(vendor_pairs(vs) =~= Seq::<(u8, Seq<u8>)>::empty());
        assert(elements_bytes(vendor_pairs(vs)) =~= Seq::<u8>::empty());
        assert(concat_all(encoded) =~= Seq::<u8>::empty());
        assert(acc.vendor_specific + vs =~= acc.vendor_specific);
    } else {
        let head = vs.drop_last();
        let last = vs.last();
        lemma_vendor_list(head, acc);
        let middle = StationInfoView { vendor_specific: acc.vendor_specific + head, ..acc };
        lemma_apply_vendor_kept(middle, last);
        let next = StationInfoView { vendor_specific: middle.vendor_specific.push(last), ..middle };
        lemma_step(vendor_pairs(head), 221, Some(last.body()), acc, middle, next);
        assert(vendor_pairs(vs) =~= vendor_pairs(head) + opt_pair(221, Some(last.body())));
        assert(middle.vendor_specific.push(last) =~= acc.vendor_specific + vs);
        assert(encoded.drop_last() =~= head.map_values(|v: VendorSpecificInfoView| v.encode()));
        assert(encoded.last() == last.encode());
    }
}

/// The residual elements: their bytes, and what they do.
proof fn lemma_residual_list(data: Seq<(u8, Seq<u8>)>, acc: StationInfoView)
    requires
        forall|i: int|
            0 <= i < data.len() ==> !crate::frame::components::station_info::is_known_element(
                (#[trigger] data[i]).0,
            ) && 1 <= data[i].1.len() <= 255,
    ensures
        elements_bytes(data) == concat_all(data.map_values(|e: (u8, Seq<u8>)| element(e.0, e.1))),
        bodies_fit(data),
        fold_elements(data, acc) == Some(StationInfoView { data: acc.data + data, ..acc }),
    decreases data.len(),
{
    if data.len() == 0 {
        assert(acc.data + data =~= acc.data);
    } else {
        let head = data.drop_last();
        let last = data.last();
        lemma_residual_list(head, acc);
        let middle = StationInfoView { data: acc.data + head, ..acc };
        lemma_apply_residual(middle, last.0, last.1, (last.1.len() % 256) as u8);
        let next = StationInfoView { data: middle.data.push(last), ..middle };
        lemma_step(head, last.0, Some(last.1), acc, middle, next);
        assert(data =~= head + opt_pair(last.0, Some(last.1)));
        assert(middle.data.push(last) =~= acc.data + data);
    }
}

/// The elements of high-throughput operation: their bytes, and what they do to a record
/// that holds none of them yet.
#[verifier::rlimit(50)]
proof fn lemma_throughput(info: StationInfoView, acc: StationInfoView)
    requires
        info.ht_capabilities matches Some(c) ==> c.wf(),
        info.ht_information matches Some(i) ==> i.wf(),
        body_fits(info.ht_information_body()),
        body_fits(info.multiple_bssid_body()),
        body_fits(info.vht_capabilities),
        acc.ht_capabilities is None,
        acc.ht_information is None,
        acc.multiple_bssid is None,
        acc.vht_capabilities is None,
    ensures
        elements_bytes(info.elements_throughput()) == info.encode_throughput(),
        bodies_fit(info.elements_throughput()),
        fold_elements(info.elements_throughput(), acc) == Some(
            StationInfoView {
                ht_capabilities: info.ht_capabilities,
                ht_information: info.ht_information,
                multiple_bssid: info.multiple_bssid,
                vht_capabilities: info.vht_capabilities,
                ..acc
            },
        ),
{
    let e0 = Seq::<(u8, Seq<u8>)>::empty();
    assert(elements_bytes(e0) =~= Seq::<u8>::empty());
    let e1 = e0 + opt_pair(45, info.ht_capabilities_body());
    let m1 = StationInfoView { ht_capabilities: info.ht_capabilities, ..acc };
    let any_information = crate::frame::components::station_info::HTInformationView {
        primary_channel: 0,
        secondary_channel_offset: 0,
        supported_channel_width: false,
        other_data: Seq::empty(),
    };
    let any_multiple = crate::frame::components::station_info::MultipleBSSIDView {
        max_bssid_indicator: 0,
        other_data: Seq::empty(),
    };
    let any_capabilities = crate::frame::components::station_info::HTCapabilities::of(0);
    if let Some(c) = info.ht_capabilities {
        lemma_apply_throughput(acc, c, any_information, any_multiple, 2);
        assert(crate::wire::u16_le_bytes(c.word()).len() == 2);
    }
    lemma_step(e0, 45, info.ht_capabilities_body(), acc, acc, m1);
    assert(e1 =~= opt_pair(45, info.ht_capabilities_body()));
    assert(elements_bytes(e1) =~= opt_element(45, info.ht_capabilities_body()));
    let e2 = e1 + opt_pair(61, info.ht_information_body());
    let m2 = StationInfoView { ht_information: info.ht_information, ..m1 };
    if let Some(i) = info.ht_information {
        let length = (i.encode().len() % 256) as u8;
        lemma_apply_throughput(m1, any_capabilities, i, any_multiple, length);
    }
    lemma_step(e1, 61, info.ht_information_body(), acc, m1, m2);
    let e3 = e2 + opt_pair(71, info.multiple_bssid_body());
    let m3 = StationInfoView { multiple_bssid: info.multiple_bssid, ..m2 };
    if let Some(m) = info.multiple_bssid {
        let length = (m.encode().len() % 256) as u8;
        lemma_apply_throughput(m2, any_capabilities, any_information, m, length);
    }
    lemma_step(e2, 71, info.multiple_bssid_body(), acc, m2, m3);
    let m4 = StationInfoView { vht_capabilities: info.vht_capabilities, ..m3 };
    if let Some(v) = info.vht_capabilities {
        lemma_apply_raw(m3, v, (v.len() % 256) as u8);
    }
    lemma_step(e3, 191, info.vht_capabilities, acc, m3, m4);
}

/// The elements of security and of vendors: their bytes, and what they do to a record
/// that holds none of them yet.
#[verifier::rlimit(50)]
proof fn lemma_security(info: StationInfoView, acc: StationInfoView)
    requires
        info.rsn_information matches Some(r) ==> r.wf(),
        info.wpa_info matches Some(w) ==> w.wf(),
        info.wps_info matches Some(w) ==> w.canonical(),
        body_fits(info.rsn_body()),
        body_fits(info.wpa_body()),
        body_fits(info.wps_body()),
        forall|i: int|
            0 <= i < info.vendor_specific.len() ==> (#[trigger] info.vendor_specific[i]).kept(),
        acc.rsn_information is None,
        acc.wpa_info is None,
        acc.wps_info is None,
        acc.vendor_specific.len() == 0,
    ensures
        elements_bytes(info.elements_security()) == info.encode_security(),
        bodies_fit(info.elements_security()),
        fold_elements(info.elements_security(), acc) == Some(
            StationInfoView {
                rsn_information: info.rsn_information,
                wpa_info: info.wpa_info,
                wps_info: info.wps_info,
                vendor_specific: info.vendor_specific,
                ..acc
            },
        ),
{
    let e0 = Seq::<(u8, Seq<u8>)>::empty();
    assert(elements_bytes(e0) =~= Seq::<u8>::empty());
    let e1 = e0 + opt_pair(48, info.rsn_body());
    let m1 = StationInfoView { rsn_information: info.rsn_information, ..acc };
    if let Some(r) = info.rsn_information {
        lemma_apply_rsn(acc, r, (r.encode().len() % 256) as u8);
    }
    lemma_step(e0, 48, info.rsn_body(), acc, acc, m1);
    assert(e1 =~= opt_pair(48, info.rsn_body()));
    assert(elements_bytes(e1) =~= opt_element(48, info.rsn_body()));
    let e2 = e1 + opt_pair(221, info.wpa_body());
    let m2 = StationInfoView { wpa_info: info.wpa_info, ..m1 };
    if let Some(w) = info.wpa_info {
        lemma_apply_wpa(m1, w, ((wpa_oui().push(1) + w.encode()).len() % 256) as u8);
    }
    lemma_step(e1, 221, info.wpa_body(), acc, m1, m2);
    let e3 = e2 + opt_pair(221, info.wps_body());
    let m3 = StationInfoView { wps_info: info.wps_info, ..m2 };
    if let Some(w) = info.wps_info {
        lemma_apply_wps(m2, w, ((wpa_oui().push(4) + w.encode()).len() % 256) as u8);
    }
    lemma_step(e2, 221, info.wps_body(), acc, m2, m3);
    let vendors = vendor_pairs(info.vendor_specific);
    lemma_vendor_list(info.vendor_specific, m3);
    lemma_fold_append(e3, vendors, acc);
    lemma_elements_bytes_append(e3, vendors);
    lemma_bodies_fit_append(e3, vendors);
    assert(m3.vendor_specific + info.vendor_specific =~= info.vendor_specific);
    assert(info.elements_security() == e3 + vendors);
}

/// The last elements: their bytes, and what they do to a record that holds none of them
/// yet.
#[verifier::rlimit(50)]
proof fn lemma_rest(info: StationInfoView, acc: StationInfoView)
    requires
        info.extended_capabilities matches Some(c) ==> c.wf() && exists|i: int|
            0 <= i < 90 && c.bit(i),
        info.he_capabilities matches Some(h) ==> h.len() > 0 && h[0] == 35,
        body_fits(info.he_capabilities),
        forall|i: int|
            0 <= i < info.data.len() ==> !crate::frame::components::station_info::is_known_element(
                (#[trigger] info.data[i]).0,
            ) && 1 <= info.data[i].1.len() <= 255,
        acc.extended_capabilities is None,
        acc.channel_switch is None,
        acc.he_capabilities is None,
        acc.data.len() == 0,
    ensures
        elements_bytes(info.elements_rest()) == info.encode_rest(),
        bodies_fit(info.elements_rest()),
        fold_elements(info.elements_rest(), acc) == Some(
            StationInfoView {
                extended_capabilities: info.extended_capabilities,
                channel_switch: info.channel_switch,
                he_capabilities: info.he_capabilities,
                data: info.data,
                ..acc
            },
        ),
{
    let e0 = Seq::<(u8, Seq<u8>)>::empty();
    assert(elements_bytes(e0) =~= Seq::<u8>::empty());
    let any_switch = crate::frame::components::station_info::ChannelSwitchAnnouncment {
        mode: crate::frame::components::station_info::ChannelSwitchMode::Restrict,
        new_channel: 0,
        count: 0,
    };
    let e1 = e0 + opt_pair(127, info.extended_capabilities_body());
    let m1 = StationInfoView { extended_capabilities: info.extended_capabilities, ..acc };
    if let Some(c) = info.extended_capabilities {
        lemma_apply_last(acc, c, any_switch, (c.encode_spec().len() % 256) as u8);
    }
    lemma_step(e0, 127, info.extended_capabilities_body(), acc, acc, m1);
    assert(e1 =~= opt_pair(127, info.extended_capabilities_body()));
    assert(elements_bytes(e1) =~= opt_element(127, info.extended_capabilities_body()));
    let e2 = e1 + opt_pair(37, info.channel_switch_body());
    let m2 = StationInfoView { channel_switch: info.channel_switch, ..m1 };
    if let Some(c) = info.channel_switch {
        lemma_apply_last(
            m1,
            crate::frame::components::extended_capabilities::ExtendedCapabilities::of(
                Seq::new(90, |i: int| false),
            ),
            c,
            3,
        );
        assert(c.encode_spec().len() == 3);
    }
    lemma_step(e1, 37, info.channel_switch_body(), acc, m1, m2);
    let e3 = e2 + opt_pair(255, info.he_capabilities);
    let m3 = StationInfoView { he_capabilities: info.he_capabilities, ..m2 };
    if let Some(h) = info.he_capabilities {
        lemma_apply_raw(m2, h, (h.len() % 256) as u8);
    }
    lemma_step(e2, 255, info.he_capabilities, acc, m2, m3);
    lemma_residual_list(info.data, m3);
    lemma_fold_append(e3, info.data, acc);
    lemma_elements_bytes_append(e3, info.data);
    lemma_bodies_fit_append(e3, info.data);
    assert(m3.data + info.data =~= info.data);
    assert(info.elements_rest() == e3 + info.data);
}

/// A canonical record comes back from its own bytes, and the decoder reads them all.
pub proof fn lemma_station_info_round_trip(info: StationInfoView)
    requires
        info.canonical(),
    ensures
        station_info_of(info.encode()) == Ok::<(Seq<u8>, StationInfoView), ErrorView>(
            (Seq::<u8>::empty(), info),
        ),
{
    let start = StationInfoView::empty();
    lemma_basic(info, start);
    let m1 = fold_elements(info.elements_basic(), start).unwrap();
    lemma_throughput(info, m1);
    let m2 = fold_elements(info.elements_throughput(), m1).unwrap();
    lemma_security(info, m2);
    let m3 = fold_elements(info.elements_security(), m2).unwrap();
    lemma_rest(info, m3);
    let m4 = fold_elements(info.elements_rest(), m3).unwrap();
    let b = info.elements_basic();
    let t = info.elements_throughput();
    let s = info.elements_security();
    let r = info.elements_rest();
    lemma_fold_append(b, t, start);
    lemma_fold_append(b + t, s, start);
    lemma_fold_append(b + t + s, r, start);
    lemma_elements_bytes_append(b, t);
    lemma_elements_bytes_append(b + t, s);
    lemma_elements_bytes_append(b + t + s, r);
    lemma_bodies_fit_append(b, t);
    lemma_bodies_fit_append(b + t, s);
    lemma_bodies_fit_append(b + t + s, r);
    assert(elements_bytes(info.elements()) == info.encode());
    assert(fold_elements(info.elements(), start) == Some(m4));
    assert(m4 == info);
    assert(readable(info.elements()));
    lemma_walk_elements(info.elements(), start);
}

} // verus!
