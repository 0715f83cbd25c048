//! Every frame comes back from its own bytes.

use crate::error::ErrorView;
use crate::frame::components::frame_control::{
    frame_control_of, lemma_frame_control_round_trip, FrameControl,
};
use crate::frame::components::header::{DataHeader, ManagementHeader};
use crate::frame::components::mac_address::{lemma_mac_ext_equal, mac_of, MacAddress};
use crate::frame::components::sequence_control::lemma_sequence_control_round_trip;
use crate::frame::components::security::bit;
use crate::frame::components::sequence_control::SequenceControl;
use crate::frame::control::{
    basic_entry, block_ack_control, compressed_entry, request_entry, tid_word, Ack,
    BlockAckInfoView, BlockAckMode, BlockAckRequestView, BlockAckView, Cts, Rts,
};
use crate::laws::elements::{digit, lemma_byte_digits, lemma_word_bits};
use crate::parsers::frame_types::control::{acks_of, requested_tids_of, tid_of};
use crate::wire::{
    bit16, concat_all, le_u64, lemma_concat_all_fixed, lemma_le_u16_round_trip,
    lemma_le_u64_round_trip, u64_le_bytes,
};
use crate::frame::data::DataView;
use crate::frame::management::{ActionView, Deauthentication, Disassociation};
use crate::frame::{FrameView, NullData, QosNull};
use crate::frame_of;
use crate::frame_types::{is_qos_subtype, FrameSubType};
use crate::parsers::components::header::{
    data_header_of, data_header_size, management_header_of,
};
use crate::parsers::frame_types::control::{ack_of, cts_of, rts_of};
use crate::parsers::frame_types::data::data_of;
use crate::parsers::frame_types::management::{
    action_of, deauthentication_of, disassociation_of,
};
use crate::wire::{le_u16, pair_of, u16_le_bytes};
use vstd::prelude::*;

verus! {

/// The array of two bytes that a byte string opens with is the array whose bytes they are.
pub proof fn lemma_pair_of(input: Seq<u8>, pair: [u8; 2])
    requires
        input.len() >= 2,
        input[0] == pair@[0],
        input[1] == pair@[1],
    ensures
        pair_of(input) == pair,
{
    assert(pair_of(input)@ =~= pair@);
    assert(pair_of(input) =~= pair);
}

/// The address that a byte string opens with is the address whose bytes they are.
pub proof fn lemma_mac_of(input: Seq<u8>, mac: MacAddress)
    requires
        input.len() >= 6,
        input.take(6) == mac@,
    ensures
        mac_of(input) == mac,
{
    assert(mac@.len() == 6);
    assert forall|i: int| 0 <= i < 6 implies mac_of(input)@[i] == mac@[i] by {
        assert(input.take(6)[i] == input[i]);
    }
    assert(mac_of(input)@ =~= mac@);
    lemma_mac_ext_equal(mac_of(input), mac);
}

/// A well-formed management header comes back from its 24 bytes: the frame control from
/// the first two, the rest from the 22 after them, whatever follows.
pub proof fn lemma_management_header_round_trip(h: ManagementHeader, tail: Seq<u8>)
    requires
        h.wf(),
    ensures
        h.encode_spec().len() == 24,
        frame_control_of((h.encode_spec() + tail)[0], (h.encode_spec() + tail)[1])
            == h.frame_control,
        management_header_of(h.frame_control, (h.encode_spec() + tail).skip(2)) == h,
        (h.encode_spec() + tail).skip(2).skip(22) == tail,
{
    let e = h.encode_spec();
    let fc = h.frame_control.encode_spec();
    let sc = h.sequence_control.encode_spec();
    assert(h.duration@.len() == 2);
    assert(h.address_1@.len() == 6 && h.address_2@.len() == 6 && h.address_3@.len() == 6);
    assert(e.len() == 24);
    lemma_frame_control_round_trip(h.frame_control);
    lemma_sequence_control_round_trip(h.sequence_control);
    let whole = e + tail;
    assert(whole[0] == fc[0] && whole[1] == fc[1]);
    let input = whole.skip(2);
    assert(input[0] == h.duration@[0] && input[1] == h.duration@[1]);
    lemma_pair_of(input, h.duration);
    assert(input.skip(2).take(6) =~= h.address_1@);
    assert(input.skip(8).take(6) =~= h.address_2@);
    assert(input.skip(14).take(6) =~= h.address_3@);
    lemma_mac_of(input.skip(2), h.address_1);
    lemma_mac_of(input.skip(8), h.address_2);
    lemma_mac_of(input.skip(14), h.address_3);
    assert(input[20] == sc[0] && input[21] == sc[1]);
    assert(input.skip(22) =~= tail);
}

/// A well-formed data header comes back from its bytes, whatever follows.
pub proof fn lemma_data_header_round_trip(h: DataHeader, tail: Seq<u8>)
    requires
        h.wf(),
    ensures
        h.encode_spec().len() == 2 + data_header_size(h.frame_control),
        frame_control_of((h.encode_spec() + tail)[0], (h.encode_spec() + tail)[1])
            == h.frame_control,
        data_header_of(h.frame_control, (h.encode_spec() + tail).skip(2)) == Ok::<
            DataHeader,
            ErrorView,
        >(h),
        (h.encode_spec() + tail).skip(2).skip(data_header_size(h.frame_control) as int) == tail,
{
    let e = h.encode_spec();
    let fc = h.frame_control.encode_spec();
    let sc = h.sequence_control.encode_spec();
    let four = h.frame_control.to_ds() && h.frame_control.from_ds();
    let qos = is_qos_subtype(h.frame_control.frame_subtype);
    assert(h.duration@.len() == 2);
    assert(h.address_1@.len() == 6 && h.address_2@.len() == 6 && h.address_3@.len() == 6);
    lemma_frame_control_round_trip(h.frame_control);
    lemma_sequence_control_round_trip(h.sequence_control);
    let fixed = fc + h.duration@ + h.address_1@ + h.address_2@ + h.address_3@ + sc;
    assert(fixed.len() == 24);
    let a4 = match h.address_4 {
        Some(a) => a@,
        None => Seq::<u8>::empty(),
    };
    let q = match h.qos {
        Some(q) => q@,
        None => Seq::<u8>::empty(),
    };
    assert(e == fixed + a4 + q);
    if four {
        assert(h.address_4->0@.len() == 6);
    }
    if qos {
        assert(h.qos->0@.len() == 2);
    }
    assert(e.len() == 2 + data_header_size(h.frame_control));
    let whole = e + tail;
    assert(whole[0] == fc[0] && whole[1] == fc[1]);
    let input = whole.skip(2);
    assert(input[0] == h.duration@[0] && input[1] == h.duration@[1]);
    lemma_pair_of(input, h.duration);
    assert(input.skip(2).take(6) =~= h.address_1@);
    assert(input.skip(8).take(6) =~= h.address_2@);
    assert(input.skip(14).take(6) =~= h.address_3@);
    lemma_mac_of(input.skip(2), h.address_1);
    lemma_mac_of(input.skip(8), h.address_2);
    lemma_mac_of(input.skip(14), h.address_3);
    assert(input[20] == sc[0] && input[21] == sc[1]);
    if four {
        assert(input.skip(22).take(6) =~= h.address_4->0@);
        lemma_mac_of(input.skip(22), h.address_4->0);
    }
    let qos_at: int = if four {
        28
    } else {
        22
    };
    if qos {
        assert(input.skip(qos_at)[0] == h.qos->0@[0] && input.skip(qos_at)[1] == h.qos->0@[1]);
        lemma_pair_of(input.skip(qos_at), h.qos->0);
    }
    assert(input.skip(data_header_size(h.frame_control) as int) =~= tail);
}

/// An RTS frame with a well-formed frame control of its subtype comes back from its bytes.
pub proof fn lemma_rts_round_trip(f: Rts)
    requires
        f.frame_control.wf(),
        f.frame_control.frame_subtype == FrameSubType::Rts,
    ensures
        frame_of(f.encode_spec(), false) == Ok::<FrameView, ErrorView>(FrameView::Rts(f)),
{
    let e = f.encode_spec();
    let fc = f.frame_control.encode_spec();
    assert(f.duration@.len() == 2 && f.destination@.len() == 6 && f.source@.len() == 6);
    lemma_frame_control_round_trip(f.frame_control);
    assert(e[0] == fc[0] && e[1] == fc[1]);
    let input = e.skip(2);
    assert(input[0] == f.duration@[0] && input[1] == f.duration@[1]);
    lemma_pair_of(input, f.duration);
    assert(input.skip(2).take(6) =~= f.destination@);
    assert(input.skip(8).take(6) =~= f.source@);
    lemma_mac_of(input.skip(2), f.destination);
    lemma_mac_of(input.skip(8), f.source);
    assert(rts_of(f.frame_control, input) == Ok::<FrameView, ErrorView>(FrameView::Rts(f)));
}

/// A CTS frame with a well-formed frame control of its subtype comes back from its bytes.
pub proof fn lemma_cts_round_trip(f: Cts)
    requires
        f.frame_control.wf(),
        f.frame_control.frame_subtype == FrameSubType::Cts,
    ensures
        frame_of(f.encode_spec(), false) == Ok::<FrameView, ErrorView>(FrameView::Cts(f)),
{
    let e = f.encode_spec();
    let fc = f.frame_control.encode_spec();
    assert(f.duration@.len() == 2 && f.destination@.len() == 6);
    lemma_frame_control_round_trip(f.frame_control);
    assert(e[0] == fc[0] && e[1] == fc[1]);
    let input = e.skip(2);
    assert(input[0] == f.duration@[0] && input[1] == f.duration@[1]);
    lemma_pair_of(input, f.duration);
    assert(input.skip(2).take(6) =~= f.destination@);
    lemma_mac_of(input.skip(2), f.destination);
    assert(cts_of(f.frame_control, input) == Ok::<FrameView, ErrorView>(FrameView::Cts(f)));
}

/// An ACK frame with a well-formed frame control of its subtype comes back from its bytes.
pub proof fn lemma_ack_round_trip(f: Ack)
    requires
        f.frame_control.wf(),
        f.frame_control.frame_subtype == FrameSubType::Ack,
    ensures
        frame_of(f.encode_spec(), false) == Ok::<FrameView, ErrorView>(FrameView::Ack(f)),
{
    let e = f.encode_spec();
    let fc = f.frame_control.encode_spec();
    assert(f.duration@.len() == 2 && f.destination@.len() == 6);
    lemma_frame_control_round_trip(f.frame_control);
    assert(e[0] == fc[0] && e[1] == fc[1]);
    let input = e.skip(2);
    assert(input[0] == f.duration@[0] && input[1] == f.duration@[1]);
    lemma_pair_of(input, f.duration);
    assert(input.skip(2).take(6) =~= f.destination@);
    lemma_mac_of(input.skip(2), f.destination);
    assert(ack_of(f.frame_control, input) == Ok::<FrameView, ErrorView>(FrameView::Ack(f)));
}

/// A data frame with a well-formed header of its subtype comes back from its bytes.
pub proof fn lemma_data_round_trip(f: DataView)
    requires
        f.header.wf(),
        f.header.frame_control.frame_subtype == FrameSubType::Data
            || f.header.frame_control.frame_subtype == FrameSubType::QosData,
    ensures
        frame_of(f.encode(), false) == Ok::<FrameView, ErrorView>(
            if f.header.frame_control.frame_subtype == FrameSubType::Data {
                FrameView::Data(f)
            } else {
                FrameView::QosData(f)
            },
        ),
{
    lemma_data_header_round_trip(f.header, f.data);
    let input = f.encode().skip(2);
    assert(data_of(f.header.frame_control, input) == Ok::<DataView, ErrorView>(f));
}

/// A data frame without payload and with a well-formed header of its subtype comes back
/// from its bytes.
pub proof fn lemma_null_data_round_trip(h: DataHeader)
    requires
        h.wf(),
        h.frame_control.frame_subtype == FrameSubType::NullData || h.frame_control.frame_subtype
            == FrameSubType::QosNull,
    ensures
        frame_of(h.encode_spec(), false) == Ok::<FrameView, ErrorView>(
            if h.frame_control.frame_subtype == FrameSubType::NullData {
                FrameView::NullData(NullData { header: h })
            } else {
                FrameView::QosNull(QosNull { header: h })
            },
        ),
{
    lemma_data_header_round_trip(h, Seq::empty());
    assert(h.encode_spec() + Seq::<u8>::empty() =~= h.encode_spec());
}

/// A deauthentication with a well-formed header of its subtype comes back from its bytes.
pub proof fn lemma_deauthentication_round_trip(f: Deauthentication)
    requires
        f.header.wf(),
        f.header.frame_control.frame_subtype == FrameSubType::Deauthentication,
    ensures
        frame_of(f.encode_spec(), false) == Ok::<FrameView, ErrorView>(
            FrameView::Deauthentication(f),
        ),
{
    let tail = u16_le_bytes(f.reason_code);
    lemma_management_header_round_trip(f.header, tail);
    crate::wire::lemma_le_u16_round_trip(f.reason_code);
    let input = f.encode_spec().skip(2);
    assert(deauthentication_of(f.header.frame_control, input) == Ok::<FrameView, ErrorView>(
        FrameView::Deauthentication(f),
    ));
}

/// A disassociation with a well-formed header of its subtype comes back from its bytes.
pub proof fn lemma_disassociation_round_trip(f: Disassociation)
    requires
        f.header.wf(),
        f.header.frame_control.frame_subtype == FrameSubType::Disassociation,
    ensures
        frame_of(f.encode_spec(), false) == Ok::<FrameView, ErrorView>(
            FrameView::Disassociation(f),
        ),
{
    let tail = u16_le_bytes(f.reason_code);
    lemma_management_header_round_trip(f.header, tail);
    crate::wire::lemma_le_u16_round_trip(f.reason_code);
    let input = f.encode_spec().skip(2);
    assert(disassociation_of(f.header.frame_control, input) == Ok::<FrameView, ErrorView>(
        FrameView::Disassociation(f),
    ));
}

/// An action frame with a well-formed header of one of the two action subtypes comes back
/// from its bytes.
pub proof fn lemma_action_round_trip(f: ActionView)
    requires
        f.header.wf(),
        f.header.frame_control.frame_subtype == FrameSubType::Action
            || f.header.frame_control.frame_subtype == FrameSubType::ActionNoAck,
    ensures
        frame_of(f.encode(), false) == Ok::<FrameView, ErrorView>(
            if f.header.frame_control.frame_subtype == FrameSubType::Action {
                FrameView::Action(f)
            } else {
                FrameView::ActionNoAck(f)
            },
        ),
{
    let tail = seq![f.category] + f.body;
    lemma_management_header_round_trip(f.header, tail);
    assert(f.encode() =~= f.header.encode_spec() + tail);
    let input = f.encode().skip(2);
    assert(input.skip(22).skip(1) =~= f.body);
    assert(action_of(f.header.frame_control, input) == Ok::<ActionView, ErrorView>(f));
}

/// The fields before the entries of a block acknowledgement or of its request come back
/// from their bytes.
proof fn lemma_block_ack_prefix(
    fc: FrameControl,
    duration: [u8; 2],
    destination: MacAddress,
    source: MacAddress,
    word: u16,
    entries: Seq<u8>,
)
    requires
        fc.wf(),
    ensures
        ({
            let e = fc.encode_spec() + duration@ + destination@ + source@ + u16_le_bytes(word)
                + entries;
            let input = e.skip(2);
            &&& e.len() >= 2
            &&& frame_control_of(e[0], e[1]) == fc
            &&& input.len() >= 16
            &&& pair_of(input) == duration
            &&& mac_of(input.skip(2)) == destination
            &&& mac_of(input.skip(8)) == source
            &&& le_u16(input, 14) == word
            &&& input.skip(16) == entries
        }),
{
    let e = fc.encode_spec() + duration@ + destination@ + source@ + u16_le_bytes(word) + entries;
    let code = fc.encode_spec();
    assert(duration@.len() == 2 && destination@.len() == 6 && source@.len() == 6);
    lemma_frame_control_round_trip(fc);
    assert(e[0] == code[0] && e[1] == code[1]);
    let input = e.skip(2);
    assert(input[0] == duration@[0] && input[1] == duration@[1]);
    lemma_pair_of(input, duration);
    assert(input.skip(2).take(6) =~= destination@);
    assert(input.skip(8).take(6) =~= source@);
    lemma_mac_of(input.skip(2), destination);
    lemma_mac_of(input.skip(8), source);
    assert(input[14] == u16_le_bytes(word)[0] && input[15] == u16_le_bytes(word)[1]);
    lemma_le_u16_round_trip(word);
    assert(input.skip(16) =~= entries);
}

/// The parts of the control field of a block acknowledgement come back from its word.
pub proof fn lemma_block_ack_control(policy: bool, mode: BlockAckMode, tid_info: int)
    requires
        0 <= tid_info < 16,
    ensures
        ({
            let word = block_ack_control(policy, mode, tid_info);
            &&& le_u16(u16_le_bytes(word), 0) == word
            &&& bit16(word, 0) == policy
            &&& BlockAckMode::of(bit16(word, 1), bit16(word, 2)) == mode
            &&& tid_of(word) == tid_info
        }),
{
    let word = block_ack_control(policy, mode, tid_info);
    let low = bit(policy) + 2 * bit(mode.multi_tid()) + 4 * bit(mode.compressed_bitmap());
    let high = 16 * tid_info;
    assert(0 <= low < 256 && (low % 2 == 1) == policy && (low / 2 % 2 == 1) == mode.multi_tid() && (
    low / 4 % 2 == 1) == mode.compressed_bitmap()) by {
        reveal(bit);
        lemma_byte_digits(
            digit(policy),
            digit(mode.multi_tid()),
            digit(mode.compressed_bitmap()),
            0,
            0,
            0,
            0,
            0,
            low as u16,
        );
    }
    lemma_word_bits(low, high);
    assert(word == (low + 256 * high) as u16);
    lemma_le_u16_round_trip(word);
}

/// A traffic identifier of four bits comes back from its word.
proof fn lemma_tid_word(tid: u8)
    requires
        tid < 16,
    ensures
        tid_of(le_u16(u16_le_bytes(tid_word(tid)), 0)) == tid,
{
    lemma_word_bits(0, 16 * tid as int);
    lemma_le_u16_round_trip(tid_word(tid));
}

/// The entries of a request for a block acknowledgement come back from their bytes.
proof fn lemma_requested_tids_round_trip(f: BlockAckRequestView)
    requires
        f.entries_wf(),
    ensures
        0 <= f.tid_info() < 16,
        requested_tids_of(
            f.mode,
            f.tid_info() as u8,
            concat_all(
                f.requested_tids.map_values(|e: (u8, SequenceControl)| request_entry(f.mode, e)),
            ),
        ) == Ok::<Seq<(u8, SequenceControl)>, ErrorView>(f.requested_tids),
{
    let parts = f.requested_tids.map_values(|e: (u8, SequenceControl)| request_entry(f.mode, e));
    let info = concat_all(parts);
    let decoded = requested_tids_of(f.mode, f.tid_info() as u8, info);
    match f.mode {
        BlockAckMode::MultiTidBlockAck => {
            assert forall|i: int| 0 <= i < parts.len() implies (#[trigger] parts[i]).len() == 4 by {
                assert(f.requested_tids[i].1.encode_spec().len() == 2);
            }
            lemma_concat_all_fixed(parts, 4);
            assert(decoded is Ok);
            assert(decoded->Ok_0 =~= f.requested_tids) by {
                assert forall|i: int| 0 <= i < parts.len() implies decoded->Ok_0[i]
                    == f.requested_tids[i] by {
                    let entry = f.requested_tids[i];
                    let part = parts[i];
                    assert(info.subrange(4 * i, 4 * i + 4) == part);
                    assert(info[4 * i] == part[0] && info[4 * i + 1] == part[1] && info[4 * i + 2]
                        == part[2] && info[4 * i + 3] == part[3]) by {
                        assert(info.subrange(4 * i, 4 * i + 4)[0] == info[4 * i]);
                        assert(info.subrange(4 * i, 4 * i + 4)[1] == info[4 * i + 1]);
                        assert(info.subrange(4 * i, 4 * i + 4)[2] == info[4 * i + 2]);
                        assert(info.subrange(4 * i, 4 * i + 4)[3] == info[4 * i + 3]);
                    }
                    lemma_tid_word(entry.0);
                    lemma_sequence_control_round_trip(entry.1);
                    assert(le_u16(info, 4 * i) == le_u16(u16_le_bytes(tid_word(entry.0)), 0));
                }
            }
        },
        BlockAckMode::Reserved => {
            assert(f.requested_tids =~= Seq::empty());
        },
        _ => {
            let entry = f.requested_tids[0];
            assert(parts =~= seq![entry.1.encode_spec()]);
            crate::wire::lemma_concat_all_single(entry.1.encode_spec());
            assert(info =~= entry.1.encode_spec());
            lemma_sequence_control_round_trip(entry.1);
            assert(f.requested_tids =~= seq![entry]);
        },
    }
}

/// A request for a block acknowledgement with a well-formed frame control of its subtype
/// and entries that its mode allows comes back from its bytes.
pub proof fn lemma_block_ack_request_round_trip(f: BlockAckRequestView)
    requires
        f.frame_control.wf(),
        f.frame_control.frame_subtype == FrameSubType::BlockAckRequest,
        f.entries_wf(),
    ensures
        frame_of(f.encode(), false) == Ok::<FrameView, ErrorView>(FrameView::BlockAckRequest(f)),
{
    let entries = concat_all(
        f.requested_tids.map_values(|e: (u8, SequenceControl)| request_entry(f.mode, e)),
    );
    lemma_requested_tids_round_trip(f);
    let word = block_ack_control(f.policy, f.mode, f.tid_info());
    lemma_block_ack_control(f.policy, f.mode, f.tid_info());
    lemma_block_ack_prefix(f.frame_control, f.duration, f.destination, f.source, word, entries);
}

/// The acknowledgements of a block acknowledgement come back from their bytes.
proof fn lemma_acks_round_trip(f: BlockAckView)
    requires
        f.entries_wf(),
    ensures
        0 <= f.tid_info() < 16,
        acks_of(f.mode, f.tid_info() as u8, f.acks.encode(f.mode)) == Ok::<
            BlockAckInfoView,
            ErrorView,
        >(f.acks),
{
    let info = f.acks.encode(f.mode);
    let decoded = acks_of(f.mode, f.tid_info() as u8, info);
    match f.acks {
        BlockAckInfoView::Basic(acks) => {
            let entry = acks[0];
            let parts = acks.map_values(
                |e: (u8, SequenceControl, Seq<u8>)| basic_entry(f.mode, e),
            );
            assert(parts =~= seq![entry.1.encode_spec() + entry.2]);
            crate::wire::lemma_concat_all_single(entry.1.encode_spec() + entry.2);
            assert(info =~= entry.1.encode_spec() + entry.2);
            lemma_sequence_control_round_trip(entry.1);
            assert(info.subrange(2, 130) =~= entry.2);
            assert(acks =~= seq![entry]);
        },
        BlockAckInfoView::Compressed(acks) => {
            let parts = acks.map_values(
                |e: (u8, SequenceControl, u64)| compressed_entry(f.mode, e),
            );
            match f.mode {
                BlockAckMode::MultiTidBlockAck => {
                    assert forall|i: int| 0 <= i < parts.len() implies (#[trigger] parts[i]).len()
                        == 12 by {
                        assert(acks[i].1.encode_spec().len() == 2);
                        assert(u64_le_bytes(acks[i].2).len() == 8);
                    }
                    lemma_concat_all_fixed(parts, 12);
                    assert(decoded is Ok);
                    assert(decoded->Ok_0->Compressed_0 =~= acks) by {
                        assert forall|i: int| 0 <= i < parts.len() implies decoded->Ok_0->
                        Compressed_0[i] == acks[i] by {
                            let entry = acks[i];
                            let part = parts[i];
                            let sub = info.subrange(12 * i, 12 * i + 12);
                            assert(sub == part);
                            assert(sub[0] == info[12 * i] && sub[1] == info[12 * i + 1] && sub[2]
                                == info[12 * i + 2] && sub[3] == info[12 * i + 3]);
                            assert(sub[4] == info[12 * i + 4] && sub[5] == info[12 * i + 5]
                                && sub[6] == info[12 * i + 6] && sub[7] == info[12 * i + 7]);
                            assert(sub[8] == info[12 * i + 8] && sub[9] == info[12 * i + 9]
                                && sub[10] == info[12 * i + 10] && sub[11] == info[12 * i + 11]);
                            lemma_tid_word(entry.0);
                            lemma_sequence_control_round_trip(entry.1);
                            lemma_le_u64_round_trip(entry.2);
                            assert(le_u16(info, 12 * i) == le_u16(
                                u16_le_bytes(tid_word(entry.0)),
                                0,
                            ));
                            assert(le_u64(info, 12 * i + 4) == le_u64(u64_le_bytes(entry.2), 0))
                                by {
                                let b = u64_le_bytes(entry.2);
                                assert(info[12 * i + 4] == part[4] && part[4] == b[0]);
                                assert(info[12 * i + 5] == part[5] && part[5] == b[1]);
                                assert(info[12 * i + 6] == part[6] && part[6] == b[2]);
                                assert(info[12 * i + 7] == part[7] && part[7] == b[3]);
                                assert(info[12 * i + 8] == part[8] && part[8] == b[4]);
                                assert(info[12 * i + 9] == part[9] && part[9] == b[5]);
                                assert(info[12 * i + 10] == part[10] && part[10] == b[6]);
                                assert(info[12 * i + 11] == part[11] && part[11] == b[7]);
                            }
                        }
                    }
                },
                BlockAckMode::Reserved => {
                    assert(acks =~= Seq::empty());
                },
                _ => {
                    let entry = acks[0];
                    assert(parts =~= seq![entry.1.encode_spec() + u64_le_bytes(entry.2)]);
                    crate::wire::lemma_concat_all_single(
                        entry.1.encode_spec() + u64_le_bytes(entry.2),
                    );
                    assert(info =~= entry.1.encode_spec() + u64_le_bytes(entry.2));
                    lemma_sequence_control_round_trip(entry.1);
                    lemma_le_u64_round_trip(entry.2);
                    let b = u64_le_bytes(entry.2);
                    assert(le_u64(info, 2) == le_u64(b, 0)) by {
                        assert(info[2] == b[0] && info[3] == b[1] && info[4] == b[2] && info[5]
                            == b[3] && info[6] == b[4] && info[7] == b[5] && info[8] == b[6]
                            && info[9] == b[7]);
                    }
                    assert(acks =~= seq![entry]);
                },
            }
        },
    }
}

/// A block acknowledgement with a well-formed frame control of its subtype and
/// acknowledgements that its mode allows comes back from its bytes.
pub proof fn lemma_block_ack_round_trip(f: BlockAckView)
    requires
        f.frame_control.wf(),
        f.frame_control.frame_subtype == FrameSubType::BlockAck,
        f.entries_wf(),
    ensures
        frame_of(f.encode(), false) == Ok::<FrameView, ErrorView>(FrameView::BlockAck(f)),
{
    let entries = f.acks.encode(f.mode);
    lemma_acks_round_trip(f);
    let word = block_ack_control(f.policy, f.mode, f.tid_info());
    lemma_block_ack_control(f.policy, f.mode, f.tid_info());
    lemma_block_ack_prefix(f.frame_control, f.duration, f.destination, f.source, word, entries);
}

} // verus!
