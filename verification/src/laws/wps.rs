//! WPS information comes back from its own bytes.

use crate::frame::components::security::wpa_oui;
use crate::frame::components::wps::{
    category_of, code_pair, device_type_body, device_type_codes, device_type_codes_from,
    device_type_element, names, text_element, wps_element, WpsInformationView, WpsSetupState,
};
use crate::parsers::components::wps::{
    device_type_name, text_of, wps_apply, wps_information_of, wps_walk,
};
use crate::wire::{be_u16, lemma_append_assoc, u16_be_bytes};
use vstd::prelude::*;

verus! {

/// A word is read back from its two bytes, high byte first.
proof fn lemma_be_u16(data: Seq<u8>, at: int, word: u16)
    requires
        0 <= at,
        at + 2 <= data.len(),
        data.subrange(at, at + 2) == u16_be_bytes(word),
    ensures
        be_u16(data, at) == word,
{
    let part = data.subrange(at, at + 2);
    assert(part[0] == data[at] && part[1] == data[at + 1]);
}

/// The walk over one element does what the element does and goes on behind it.
proof fn lemma_wps_step(
    head: Seq<u8>,
    kind: u16,
    body: Seq<u8>,
    tail: Seq<u8>,
    acc: WpsInformationView,
)
    requires
        body.len() <= 0xFFFF,
    ensures
        ({
            let data = head + wps_element(kind, body) + tail;
            wps_walk(data, head.len() as int, acc) == match wps_apply(acc, kind, body) {
                Err(e) => Err(e),
                Ok(next) => wps_walk(data, (head + wps_element(kind, body)).len() as int, next),
            }
        }),
{
    let piece = wps_element(kind, body);
    let data = head + piece + tail;
    let offset = head.len() as int;
    assert(piece.len() == 4 + body.len());
    assert(data.subrange(offset, offset + 2) =~= u16_be_bytes(kind));
    assert(data.subrange(offset + 2, offset + 4) =~= u16_be_bytes(body.len() as u16));
    lemma_be_u16(data, offset, kind);
    lemma_be_u16(data, offset + 2, body.len() as u16);
    assert(data.subrange(offset + 4, offset + 4 + body.len()) =~= body);
}

/// The walk over a piece that is one element or nothing: `next` is what the element makes
/// of `acc`, or `acc` itself.
proof fn lemma_wps_piece(
    head: Seq<u8>,
    piece: Seq<u8>,
    tail: Seq<u8>,
    acc: WpsInformationView,
    next: WpsInformationView,
    kind: u16,
    body: Seq<u8>,
)
    requires
        body.len() <= 0xFFFF,
        piece.len() == 0 && next == acc || piece == wps_element(kind, body) && wps_apply(
            acc,
            kind,
            body,
        ) == Ok::<WpsInformationView, &'static str>(next),
    ensures
        wps_walk(head + piece + tail, head.len() as int, acc) == wps_walk(
            head + piece + tail,
            (head + piece).len() as int,
            next,
        ),
{
    if piece.len() == 0 {
        assert(head + piece =~= head);
    } else {
        lemma_wps_step(head, kind, body, tail, acc);
    }
}

/// A text comes back from its bytes in UTF-8.
proof fn lemma_text_round_trip(text: Seq<char>)
    ensures
        text_of(vstd::utf8::encode_utf8(text)) == Ok::<Seq<char>, &'static str>(text),
{
    vstd::utf8::encode_utf8_valid_utf8(text);
    vstd::utf8::encode_utf8_decode_utf8(text);
}

/// The codes that are found for a name do name it.
proof fn lemma_device_type_codes(label: Seq<char>, k: int)
    requires
        0 <= k,
    ensures
        device_type_codes_from(label, k) matches Some(codes) ==> names(codes, label),
    decreases 120 - k,
{
    if k < 120 && !names(code_pair(k), label) {
        lemma_device_type_codes(label, k + 1);
    }
}

/// The element of a device type makes the name of the device type that it was written
/// for.
proof fn lemma_device_type_name(current: Seq<char>, label: Seq<char>)
    requires
        device_type_codes(label) is Some,
    ensures
        device_type_name(current, device_type_body(device_type_codes(label).unwrap())) == label,
        device_type_body(device_type_codes(label).unwrap()).len() == 8,
{
    let codes = device_type_codes(label).unwrap();
    lemma_device_type_codes(label, 0);
    let body = device_type_body(codes);
    assert(body.len() == 8);
    assert(body.subrange(2, 6) =~= wpa_oui().push(4));
    assert(body.subrange(0, 2) =~= u16_be_bytes(codes.0));
    assert(body.subrange(6, 8) =~= u16_be_bytes(codes.1));
    lemma_be_u16(body, 0, codes.0);
    lemma_be_u16(body, 6, codes.1);
}

/// What each element of WPS information does that the encoder writes.
proof fn lemma_wps_apply(acc: WpsInformationView, state: WpsSetupState, text: Seq<char>)
    ensures
        wps_apply(acc, 0x1057, seq![state.code_spec()]) == Ok::<WpsInformationView, &'static str>(
            WpsInformationView { setup_state: state, ..acc },
        ),
        wps_apply(acc, 0x1021, vstd::utf8::encode_utf8(text)) == Ok::<
            WpsInformationView,
            &'static str,
        >(WpsInformationView { manufacturer: text, ..acc }),
        wps_apply(acc, 0x1023, vstd::utf8::encode_utf8(text)) == Ok::<
            WpsInformationView,
            &'static str,
        >(WpsInformationView { model: text, ..acc }),
        wps_apply(acc, 0x1024, vstd::utf8::encode_utf8(text)) == Ok::<
            WpsInformationView,
            &'static str,
        >(WpsInformationView { model_number: text, ..acc }),
        wps_apply(acc, 0x1042, vstd::utf8::encode_utf8(text)) == Ok::<
            WpsInformationView,
            &'static str,
        >(WpsInformationView { serial_number: text, ..acc }),
        wps_apply(acc, 0x1011, vstd::utf8::encode_utf8(text)) == Ok::<
            WpsInformationView,
            &'static str,
        >(WpsInformationView { device_name: text, ..acc }),
{
    lemma_text_round_trip(text);
}

/// Whether a piece of bytes is one element that makes `next` of `acc`, or nothing, with
/// `next` the same as `acc`.
#[verifier::opaque]
pub open spec fn piece_does(
    piece: Seq<u8>,
    acc: WpsInformationView,
    next: WpsInformationView,
) -> bool {
    ||| piece.len() == 0 && next == acc
    ||| exists|kind: u16, body: Seq<u8>|
        body.len() <= 0xFFFF && piece == #[trigger] wps_element(kind, body) && wps_apply(
            acc,
            kind,
            body,
        ) == Ok::<WpsInformationView, &'static str>(next)
}

/// The walk over a piece in the middle of the bytes.
proof fn lemma_wps_middle(
    head: Seq<u8>,
    piece: Seq<u8>,
    tail: Seq<u8>,
    acc: WpsInformationView,
    next: WpsInformationView,
)
    requires
        piece_does(piece, acc, next),
    ensures
        wps_walk(head + piece + tail, head.len() as int, acc) == wps_walk(
            head + piece + tail,
            (head + piece).len() as int,
            next,
        ),
{
    reveal(piece_does);
    if piece.len() == 0 && next == acc {
        lemma_wps_piece(head, piece, tail, acc, next, 0, Seq::empty());
    } else {
        let (kind, body) = choose|kind: u16, body: Seq<u8>|
            body.len() <= 0xFFFF && piece == #[trigger] wps_element(kind, body) && wps_apply(
                acc,
                kind,
                body,
            ) == Ok::<WpsInformationView, &'static str>(next);
        lemma_wps_piece(head, piece, tail, acc, next, kind, body);
    }
}

/// The walk over three pieces one after the other, in the middle of the bytes.
proof fn lemma_wps_three(
    head: Seq<u8>,
    a: Seq<u8>,
    b: Seq<u8>,
    c: Seq<u8>,
    tail: Seq<u8>,
    m0: WpsInformationView,
    m1: WpsInformationView,
    m2: WpsInformationView,
    m3: WpsInformationView,
)
    requires
        piece_does(a, m0, m1),
        piece_does(b, m1, m2),
        piece_does(c, m2, m3),
    ensures
        wps_walk(head + a + b + c + tail, head.len() as int, m0) == wps_walk(
            head + a + b + c + tail,
            (head + a + b + c).len() as int,
            m3,
        ),
{
    let data = head + a + b + c + tail;
    lemma_append_assoc(head + a + b, c, tail);
    lemma_append_assoc(head + a, b, c + tail);
    lemma_append_assoc(head + a + b, c, tail);
    assert(data == head + a + b + (c + tail));
    assert(data == head + a + (b + (c + tail)));
    lemma_wps_middle(head, a, b + (c + tail), m0, m1);
    lemma_wps_middle(head + a, b, c + tail, m1, m2);
    lemma_wps_middle(head + a + b, c, tail, m2, m3);
}

/// The walk over seven pieces that are all the bytes.
proof fn lemma_wps_seven(
    p0: Seq<u8>,
    p1: Seq<u8>,
    p2: Seq<u8>,
    p3: Seq<u8>,
    p4: Seq<u8>,
    p5: Seq<u8>,
    p6: Seq<u8>,
    m: Seq<WpsInformationView>,
)
    requires
        m.len() == 8,
        piece_does(p0, m[0], m[1]),
        piece_does(p1, m[1], m[2]),
        piece_does(p2, m[2], m[3]),
        piece_does(p3, m[3], m[4]),
        piece_does(p4, m[4], m[5]),
        piece_does(p5, m[5], m[6]),
        piece_does(p6, m[6], m[7]),
    ensures
        wps_walk(p0 + p1 + p2 + p3 + p4 + p5 + p6, 0, m[0]) == Ok::<
            WpsInformationView,
            &'static str,
        >(m[7]),
{
    let none = Seq::<u8>::empty();
    let data = p0 + p1 + p2 + p3 + p4 + p5 + p6;
    let first = none + p0 + p1 + p2;
    assert(first =~= p0 + p1 + p2);
    let rest = p3 + p4 + p5 + p6;
    assert(data =~= none + p0 + p1 + p2 + rest);
    lemma_wps_three(none, p0, p1, p2, rest, m[0], m[1], m[2], m[3]);
    assert(data =~= first + p3 + p4 + p5 + (p6 + none));
    lemma_wps_three(first, p3, p4, p5, p6 + none, m[3], m[4], m[5], m[6]);
    let second = first + p3 + p4 + p5;
    assert(data =~= second + p6 + none);
    lemma_wps_middle(second, p6, none, m[6], m[7]);
    assert((second + p6).len() == data.len());
}

/// The states that canonical WPS information passes through as its elements are read.
spec fn wps_states(w: WpsInformationView) -> Seq<WpsInformationView> {
    let start = WpsInformationView::empty();
    let m0 = WpsInformationView { setup_state: w.setup_state, ..start };
    let m1 = WpsInformationView { manufacturer: w.manufacturer, ..m0 };
    let m2 = WpsInformationView { model: w.model, ..m1 };
    let m3 = WpsInformationView { model_number: w.model_number, ..m2 };
    let m4 = WpsInformationView { serial_number: w.serial_number, ..m3 };
    let m5 = WpsInformationView { primary_device_type: w.primary_device_type, ..m4 };
    let m6 = WpsInformationView { device_name: w.device_name, ..m5 };
    seq![start, m0, m1, m2, m3, m4, m5, m6]
}

/// Each element that is written for canonical WPS information does what it is written for.
proof fn lemma_wps_pieces(w: WpsInformationView)
    requires
        w.canonical(),
    ensures
        wps_states(w).len() == 8,
        wps_states(w)[0] == WpsInformationView::empty(),
        wps_states(w)[7] == w,
        piece_does(
            wps_element(0x1057, seq![w.setup_state.code_spec()]),
            wps_states(w)[0],
            wps_states(w)[1],
        ),
        piece_does(text_element(0x1021, w.manufacturer), wps_states(w)[1], wps_states(w)[2]),
        piece_does(text_element(0x1023, w.model), wps_states(w)[2], wps_states(w)[3]),
        piece_does(text_element(0x1024, w.model_number), wps_states(w)[3], wps_states(w)[4]),
        piece_does(text_element(0x1042, w.serial_number), wps_states(w)[4], wps_states(w)[5]),
        piece_does(
            device_type_element(w.primary_device_type),
            wps_states(w)[5],
            wps_states(w)[6],
        ),
        piece_does(text_element(0x1011, w.device_name), wps_states(w)[6], wps_states(w)[7]),
{
    let m = wps_states(w);
    lemma_state_piece(m[0], w.setup_state);
    lemma_text_piece(m[1], w.manufacturer, w.setup_state);
    lemma_text_piece(m[2], w.model, w.setup_state);
    lemma_text_piece(m[3], w.model_number, w.setup_state);
    lemma_text_piece(m[4], w.serial_number, w.setup_state);
    lemma_device_type_piece(m[5], w.primary_device_type);
    lemma_text_piece(m[6], w.device_name, w.setup_state);
    assert(m[2].manufacturer =~= prefer_text(m[1].manufacturer, w.manufacturer));
    assert(m[3].model =~= prefer_text(m[2].model, w.model));
    assert(m[4].model_number =~= prefer_text(m[3].model_number, w.model_number));
    assert(m[5].serial_number =~= prefer_text(m[4].serial_number, w.serial_number));
    assert(m[7].device_name =~= prefer_text(m[6].device_name, w.device_name));
    assert(m[7] == w);
}

/// Canonical WPS information comes back from its own bytes.
pub proof fn lemma_wps_round_trip(w: WpsInformationView)
    requires
        w.canonical(),
    ensures
        wps_information_of(w.encode()) == Ok::<WpsInformationView, &'static str>(w),
{
    lemma_wps_pieces(w);
    lemma_wps_seven(
        wps_element(0x1057, seq![w.setup_state.code_spec()]),
        text_element(0x1021, w.manufacturer),
        text_element(0x1023, w.model),
        text_element(0x1024, w.model_number),
        text_element(0x1042, w.serial_number),
        device_type_element(w.primary_device_type),
        text_element(0x1011, w.device_name),
        wps_states(w),
    );
}

/// The element of the setup state does what it is written for.
proof fn lemma_state_piece(acc: WpsInformationView, state: WpsSetupState)
    ensures
        piece_does(
            wps_element(0x1057, seq![state.code_spec()]),
            acc,
            WpsInformationView { setup_state: state, ..acc },
        ),
{
    reveal(piece_does);
    lemma_wps_apply(acc, state, Seq::empty());
    assert(seq![state.code_spec()].len() <= 0xFFFF);
}

/// The element of a text does what it is written for.
proof fn lemma_text_piece(acc: WpsInformationView, text: Seq<char>, state: WpsSetupState)
    requires
        vstd::utf8::encode_utf8(text).len() <= 0xFFFF,
    ensures
        piece_does(
            text_element(0x1021, text),
            acc,
            WpsInformationView { manufacturer: prefer_text(acc.manufacturer, text), ..acc },
        ),
        piece_does(
            text_element(0x1023, text),
            acc,
            WpsInformationView { model: prefer_text(acc.model, text), ..acc },
        ),
        piece_does(
            text_element(0x1024, text),
            acc,
            WpsInformationView { model_number: prefer_text(acc.model_number, text), ..acc },
        ),
        piece_does(
            text_element(0x1042, text),
            acc,
            WpsInformationView { serial_number: prefer_text(acc.serial_number, text), ..acc },
        ),
        piece_does(
            text_element(0x1011, text),
            acc,
            WpsInformationView { device_name: prefer_text(acc.device_name, text), ..acc },
        ),
{
    reveal(piece_does);
    lemma_wps_apply(acc, state, text);
    let body = vstd::utf8::encode_utf8(text);
    if text.len() > 0 {
        assert(text_element(0x1021, text) == wps_element(0x1021, body));
        assert(text_element(0x1023, text) == wps_element(0x1023, body));
        assert(text_element(0x1024, text) == wps_element(0x1024, body));
        assert(text_element(0x1042, text) == wps_element(0x1042, body));
        assert(text_element(0x1011, text) == wps_element(0x1011, body));
    }
}

/// The text that an element of a text leaves: the text, or for an empty text what was
/// held.
pub open spec fn prefer_text(held: Seq<char>, text: Seq<char>) -> Seq<char> {
    if text.len() == 0 {
        held
    } else {
        text
    }
}

/// The element of a device type does what it is written for.
proof fn lemma_device_type_piece(acc: WpsInformationView, label: Seq<char>)
    requires
        label.len() == 0 || device_type_codes(label) is Some,
        acc.primary_device_type.len() == 0,
    ensures
        piece_does(
            device_type_element(label),
            acc,
            WpsInformationView { primary_device_type: label, ..acc },
        ),
{
    reveal(piece_does);
    match device_type_codes(label) {
        Some(codes) => {
            lemma_device_type_name(acc.primary_device_type, label);
            let body = device_type_body(codes);
            assert(device_type_element(label) == wps_element(0x1054, body));
            assert(wps_apply(acc, 0x1054, body) == Ok::<WpsInformationView, &'static str>(
                WpsInformationView { primary_device_type: label, ..acc },
            ));
        },
        None => {
            assert(label =~= acc.primary_device_type);
        },
    }
}

} // verus!
