//! The decoders of control frames.

use crate::error::{Error, ErrorView};
use crate::frame::components::frame_control::FrameControl;
use crate::frame::components::mac_address::{mac_of, MacAddress};
use crate::frame::components::sequence_control::{sequence_control_of, SequenceControl};
use crate::frame::components::sequence_control::lemma_sequence_control_decoded;
use crate::frame::control::{
    acks_wf, request_entries_wf, Ack, BlockAck, BlockAckInfo, BlockAckInfoView, BlockAckMode,
    BlockAckRequest, BlockAckRequestView, BlockAckView, Cts, Rts,
};
use crate::frame::{Frame, FrameView};
use crate::parsers::frame_types::management::frame_decoded;
use crate::parsers::parse_mac;
use crate::wire::{
    bit16, clone_slice, le_u16, le_u64, pair_of, read_le_u16, read_le_u64, test_bit16,
};
use vstd::prelude::*;
use vstd::slice::slice_subrange;

verus! {

/// What the bytes after the frame control stand for in an RTS frame: two bytes of
/// duration, the receiver, the sender.
pub open spec fn rts_of(fc: FrameControl, input: Seq<u8>) -> Result<FrameView, ErrorView> {
    if input.len() < 14 {
        Err(ErrorView::Incomplete(14, input.len()))
    } else {
        Ok(
            FrameView::Rts(
                Rts {
                    frame_control: fc,
                    duration: pair_of(input),
                    source: mac_of(input.skip(8)),
                    destination: mac_of(input.skip(2)),
                },
            ),
        )
    }
}

/// What the bytes after the frame control stand for in a CTS frame: two bytes of
/// duration, the receiver.
pub open spec fn cts_of(fc: FrameControl, input: Seq<u8>) -> Result<FrameView, ErrorView> {
    if input.len() < 8 {
        Err(ErrorView::Incomplete(8, input.len()))
    } else {
        Ok(
            FrameView::Cts(
                Cts {
                    frame_control: fc,
                    duration: pair_of(input),
                    destination: mac_of(input.skip(2)),
                },
            ),
        )
    }
}

/// What the bytes after the frame control stand for in an ACK frame: two bytes of
/// duration, the receiver.
pub open spec fn ack_of(fc: FrameControl, input: Seq<u8>) -> Result<FrameView, ErrorView> {
    if input.len() < 8 {
        Err(ErrorView::Incomplete(8, input.len()))
    } else {
        Ok(
            FrameView::Ack(
                Ack {
                    frame_control: fc,
                    duration: pair_of(input),
                    destination: mac_of(input.skip(2)),
                },
            ),
        )
    }
}

/// The traffic identifier in bits 12 to 15 of a word.
pub open spec fn tid_of(word: u16) -> u8 {
    (word / 4096) as u8
}

/// The requested traffic identifiers that the bytes `info` after the control field stand
/// for. With several identifiers, the control field gives their number less one, and each
/// is a word with the identifier and a sequence control. In the basic and the compressed
/// mode the control field gives the one identifier, and `info` its sequence control.
pub open spec fn requested_tids_of(mode: BlockAckMode, tid_info: u8, info: Seq<u8>) -> Result<
    Seq<(u8, SequenceControl)>,
    ErrorView,
> {
    let count = tid_info as nat + 1;
    match mode {
        BlockAckMode::MultiTidBlockAck => if info.len() < 4 * count {
            Err(ErrorView::Incomplete(4 * count, info.len()))
        } else {
            Ok(
                Seq::new(
                    count,
                    |i: int|
                        (
                            tid_of(le_u16(info, 4 * i)),
                            sequence_control_of(info[4 * i + 2], info[4 * i + 3]),
                        ),
                ),
            )
        },
        BlockAckMode::Reserved => Ok(Seq::empty()),
        _ => if info.len() < 2 {
            Err(ErrorView::Incomplete(2, info.len()))
        } else {
            Ok(seq![(tid_info, sequence_control_of(info[0], info[1]))])
        },
    }
}

/// The acknowledgements that the bytes `info` after the control field stand for. They are
/// laid out as the entries of a request are, each followed by its bitmap: 128 bytes in the
/// basic mode, a little-endian word of 64 bits otherwise.
pub open spec fn acks_of(mode: BlockAckMode, tid_info: u8, info: Seq<u8>) -> Result<
    BlockAckInfoView,
    ErrorView,
> {
    let count = tid_info as nat + 1;
    match mode {
        BlockAckMode::MultiTidBlockAck => if info.len() < 12 * count {
            Err(ErrorView::Incomplete(12 * count, info.len()))
        } else {
            Ok(
                BlockAckInfoView::Compressed(
                    Seq::new(
                        count,
                        |i: int|
                            (
                                tid_of(le_u16(info, 12 * i)),
                                sequence_control_of(info[12 * i + 2], info[12 * i + 3]),
                                le_u64(info, 12 * i + 4),
                            ),
                    ),
                ),
            )
        },
        BlockAckMode::Reserved => Ok(BlockAckInfoView::Compressed(Seq::empty())),
        BlockAckMode::CompressedBlockAck => if info.len() < 10 {
            Err(ErrorView::Incomplete(10, info.len()))
        } else {
            Ok(
                BlockAckInfoView::Compressed(
                    seq![(tid_info, sequence_control_of(info[0], info[1]), le_u64(info, 2))],
                ),
            )
        },
        BlockAckMode::BasicBlockAck => if info.len() < 130 {
            Err(ErrorView::Incomplete(130, info.len()))
        } else {
            Ok(
                BlockAckInfoView::Basic(
                    seq![(tid_info, sequence_control_of(info[0], info[1]), info.subrange(2, 130))],
                ),
            )
        },
    }
}

/// The entries that bytes stand for are what the mode allows.
pub proof fn lemma_entries_wf(mode: BlockAckMode, tid_info: u8, info: Seq<u8>)
    requires
        tid_info < 16,
    ensures
        requested_tids_of(mode, tid_info, info) matches Ok(tids) ==> request_entries_wf(mode, tids),
        acks_of(mode, tid_info, info) matches Ok(acks) ==> acks_wf(mode, acks),
{
    if let Ok(tids) = requested_tids_of(mode, tid_info, info) {
        assert forall|i: int| 0 <= i < tids.len() implies (#[trigger] tids[i]).0 < 16
            && tids[i].1.wf() by {
            match mode {
                BlockAckMode::MultiTidBlockAck => {
                    lemma_sequence_control_decoded(info[4 * i + 2], info[4 * i + 3]);
                },
                _ => {
                    lemma_sequence_control_decoded(info[0], info[1]);
                },
            }
        }
    }
    if let Ok(acks) = acks_of(mode, tid_info, info) {
        match acks {
            BlockAckInfoView::Basic(list) => {
                lemma_sequence_control_decoded(info[0], info[1]);
            },
            BlockAckInfoView::Compressed(list) => {
                assert forall|i: int| 0 <= i < list.len() implies (#[trigger] list[i]).0 < 16
                    && list[i].1.wf() by {
                    match mode {
                        BlockAckMode::MultiTidBlockAck => {
                            lemma_sequence_control_decoded(info[12 * i + 2], info[12 * i + 3]);
                        },
                        _ => {
                            lemma_sequence_control_decoded(info[0], info[1]);
                        },
                    }
                }
            },
        }
    }
}

/// What the bytes after the frame control stand for in a block acknowledgement request:
/// two bytes of duration, the receiver, the sender, the control field, and the entries.
pub open spec fn block_ack_request_of(fc: FrameControl, input: Seq<u8>) -> Result<
    FrameView,
    ErrorView,
> {
    let word = le_u16(input, 14);
    let mode = BlockAckMode::of(bit16(word, 1), bit16(word, 2));
    if input.len() < 16 {
        Err(ErrorView::Incomplete(16, input.len()))
    } else {
        match requested_tids_of(mode, tid_of(word), input.skip(16)) {
            Err(e) => Err(e),
            Ok(tids) => Ok(
                FrameView::BlockAckRequest(
                    BlockAckRequestView {
                        frame_control: fc,
                        duration: pair_of(input),
                        source: mac_of(input.skip(8)),
                        destination: mac_of(input.skip(2)),
                        policy: bit16(word, 0),
                        mode,
                        requested_tids: tids,
                    },
                ),
            ),
        }
    }
}

/// What the bytes after the frame control stand for in a block acknowledgement: two bytes
/// of duration, the receiver, the sender, the control field, and the acknowledgements.
pub open spec fn block_ack_of(fc: FrameControl, input: Seq<u8>) -> Result<FrameView, ErrorView> {
    let word = le_u16(input, 14);
    let mode = BlockAckMode::of(bit16(word, 1), bit16(word, 2));
    if input.len() < 16 {
        Err(ErrorView::Incomplete(16, input.len()))
    } else {
        match acks_of(mode, tid_of(word), input.skip(16)) {
            Err(e) => Err(e),
            Ok(acks) => Ok(
                FrameView::BlockAck(
                    BlockAckView {
                        frame_control: fc,
                        duration: pair_of(input),
                        source: mac_of(input.skip(8)),
                        destination: mac_of(input.skip(2)),
                        policy: bit16(word, 0),
                        mode,
                        acks,
                    },
                ),
            ),
        }
    }
}

/// The address at `at`, where six bytes are there.
fn mac_at(input: &[u8], at: usize) -> (mac: MacAddress)
    requires
        at + 6 <= input@.len(),
    ensures
        mac == mac_of(input@.skip(at as int)),
{
    match parse_mac(slice_subrange(input, at, input.len())) {
        Ok((_, mac)) => mac,
        Err(_) => MacAddress([0, 0, 0, 0, 0, 0]),
    }
}

/// The duration in the first two bytes.
fn duration_of(input: &[u8]) -> (duration: [u8; 2])
    requires
        2 <= input@.len(),
    ensures
        duration == pair_of(input@),
{
    let duration = clone_slice::<2>(input);
    assert(duration =~= pair_of(input@));
    duration
}

/// Decodes an [`Rts`] frame from the bytes after the frame control.
pub fn parse_rts(frame_control: FrameControl, input: &[u8]) -> (r: Result<Frame, Error>)
    ensures
        frame_decoded(r, rts_of(frame_control, input@)),
        r is Ok && frame_control.wf() ==> r->Ok_0@.wf(),
{
    if input.len() < 14 {
        return Err(Error::Incomplete(14, input.len()));
    }
    Ok(
        Frame::Rts(
            Rts {
                frame_control,
                duration: duration_of(input),
                source: mac_at(input, 8),
                destination: mac_at(input, 2),
            },
        ),
    )
}

/// Decodes a [`Cts`] frame from the bytes after the frame control.
pub fn parse_cts(frame_control: FrameControl, input: &[u8]) -> (r: Result<Frame, Error>)
    ensures
        frame_decoded(r, cts_of(frame_control, input@)),
        r is Ok && frame_control.wf() ==> r->Ok_0@.wf(),
{
    if input.len() < 8 {
        return Err(Error::Incomplete(8, input.len()));
    }
    Ok(
        Frame::Cts(
            Cts { frame_control, duration: duration_of(input), destination: mac_at(input, 2) },
        ),
    )
}

/// Decodes an [`Ack`] frame from the bytes after the frame control.
pub fn parse_ack(frame_control: FrameControl, input: &[u8]) -> (r: Result<Frame, Error>)
    ensures
        frame_decoded(r, ack_of(frame_control, input@)),
        r is Ok && frame_control.wf() ==> r->Ok_0@.wf(),
{
    if input.len() < 8 {
        return Err(Error::Incomplete(8, input.len()));
    }
    Ok(
        Frame::Ack(
            Ack { frame_control, duration: duration_of(input), destination: mac_at(input, 2) },
        ),
    )
}

/// The sequence control at `at`.
fn sequence_control_at(info: &[u8], at: usize) -> (s: SequenceControl)
    requires
        at + 2 <= info@.len(),
    ensures
        s == sequence_control_of(info@[at as int], info@[at + 1]),
{
    let byte1 = info[at];
    let byte2 = info[at + 1];
    SequenceControl {
        fragment_number: byte1 % 16,
        sequence_number: (byte1 / 16) as u16 + 16 * (byte2 as u16),
    }
}

/// Decodes the entries of a block acknowledgement request.
fn parse_requested_tids(mode: BlockAckMode, tid_info: u8, info: &[u8]) -> (r: Result<
    Vec<(u8, SequenceControl)>,
    Error,
>)
    requires
        tid_info < 16,
    ensures
        match r {
            Ok(tids) => requested_tids_of(mode, tid_info, info@) == Ok::<
                Seq<(u8, SequenceControl)>,
                ErrorView,
            >(tids@),
            Err(e) => requested_tids_of(mode, tid_info, info@) == Err::<
                Seq<(u8, SequenceControl)>,
                ErrorView,
            >(e@),
        },
{
    let mut requested_tids: Vec<(u8, SequenceControl)> = Vec::new();
    match mode {
        BlockAckMode::MultiTidBlockAck => {
            let count: usize = tid_info as usize + 1;
            if info.len() < 4 * count {
                return Err(Error::Incomplete(4 * count, info.len()));
            }
            let mut i: usize = 0;
            while i < count
                invariant
                    i <= count <= 16,
                    4 * count <= info@.len(),
                    requested_tids@.len() == i,
                    forall|j: int|
                        0 <= j < i ==> #[trigger] requested_tids@[j] == (
                            tid_of(le_u16(info@, 4 * j)),
                            sequence_control_of(info@[4 * j + 2], info@[4 * j + 3]),
                        ),
                decreases count - i,
            {
                let tid = (read_le_u16(info, 4 * i) / 4096) as u8;
                let sequence_control = sequence_control_at(info, 4 * i + 2);
                requested_tids.push((tid, sequence_control));
                i += 1;
            }
            assert(requested_tids@ =~= requested_tids_of(mode, tid_info, info@)->Ok_0);
        },
        BlockAckMode::Reserved => {
            assert(requested_tids@ =~= Seq::empty());
        },
        _ => {
            if info.len() < 2 {
                return Err(Error::Incomplete(2, info.len()));
            }
            requested_tids.push((tid_info, sequence_control_at(info, 0)));
            assert(requested_tids@ =~= seq![(tid_info, sequence_control_of(info@[0], info@[1]))]);
        },
    }
    Ok(requested_tids)
}

/// Decodes the acknowledgements of a block acknowledgement.
fn parse_acks(mode: BlockAckMode, tid_info: u8, info: &[u8]) -> (r: Result<BlockAckInfo, Error>)
    requires
        tid_info < 16,
    ensures
        match r {
            Ok(acks) => acks_of(mode, tid_info, info@) == Ok::<BlockAckInfoView, ErrorView>(acks@),
            Err(e) => acks_of(mode, tid_info, info@) == Err::<BlockAckInfoView, ErrorView>(e@),
        },
{
    match mode {
        BlockAckMode::MultiTidBlockAck => {
            let mut acks: Vec<(u8, SequenceControl, u64)> = Vec::new();
            let count: usize = tid_info as usize + 1;
            if info.len() < 12 * count {
                return Err(Error::Incomplete(12 * count, info.len()));
            }
            let mut i: usize = 0;
            while i < count
                invariant
                    i <= count <= 16,
                    12 * count <= info@.len(),
                    acks@.len() == i,
                    forall|j: int|
                        0 <= j < i ==> #[trigger] acks@[j] == (
                            tid_of(le_u16(info@, 12 * j)),
                            sequence_control_of(info@[12 * j + 2], info@[12 * j + 3]),
                            le_u64(info@, 12 * j + 4),
                        ),
                decreases count - i,
            {
                let tid = (read_le_u16(info, 12 * i) / 4096) as u8;
                let sequence_control = sequence_control_at(info, 12 * i + 2);
                let bitmap = read_le_u64(info, 12 * i + 4);
                acks.push((tid, sequence_control, bitmap));
                i += 1;
            }
            assert(acks@ =~= acks_of(mode, tid_info, info@)->Ok_0->Compressed_0);
            Ok(BlockAckInfo::Compressed(acks))
        },
        BlockAckMode::Reserved => {
            let acks: Vec<(u8, SequenceControl, u64)> = Vec::new();
            assert(acks@ =~= Seq::empty());
            Ok(BlockAckInfo::Compressed(acks))
        },
        BlockAckMode::CompressedBlockAck => {
            if info.len() < 10 {
                return Err(Error::Incomplete(10, info.len()));
            }
            let mut acks: Vec<(u8, SequenceControl, u64)> = Vec::new();
            acks.push((tid_info, sequence_control_at(info, 0), read_le_u64(info, 2)));
            assert(acks@ =~= seq![
                (tid_info, sequence_control_of(info@[0], info@[1]), le_u64(info@, 2)),
            ]);
            Ok(BlockAckInfo::Compressed(acks))
        },
        BlockAckMode::BasicBlockAck => {
            if info.len() < 130 {
                return Err(Error::Incomplete(130, info.len()));
            }
            let bitmap = clone_slice::<128>(slice_subrange(info, 2, 130));
            let mut acks: Vec<(u8, SequenceControl, [u8; 128])> = Vec::new();
            acks.push((tid_info, sequence_control_at(info, 0), bitmap));
            let result = BlockAckInfo::Basic(acks);
            proof {
                assert(bitmap@ =~= info@.subrange(2, 130));
                assert(result@->Basic_0 =~= seq![
                    (tid_info, sequence_control_of(info@[0], info@[1]), info@.subrange(2, 130)),
                ]);
            }
            Ok(result)
        },
    }
}

/// Decodes a [`BlockAckRequest`] frame from the bytes after the frame control.
pub fn parse_block_ack_request(frame_control: FrameControl, input: &[u8]) -> (r: Result<
    Frame,
    Error,
>)
    ensures
        frame_decoded(r, block_ack_request_of(frame_control, input@)),
        r is Ok && frame_control.wf() ==> r->Ok_0@.wf(),
{
    if input.len() < 16 {
        return Err(Error::Incomplete(16, input.len()));
    }
    let bar_control = read_le_u16(input, 14);
    let policy = test_bit16(bar_control, 0);
    let multi_tid = test_bit16(bar_control, 1);
    let compressed_bitmap = test_bit16(bar_control, 2);
    let tid_info = (bar_control / 4096) as u8;
    let mode = BlockAckMode::from_bits(multi_tid, compressed_bitmap);
    proof {
        lemma_entries_wf(mode, tid_info, input@.skip(16));
    }
    let requested_tids = parse_requested_tids(
        mode,
        tid_info,
        slice_subrange(input, 16, input.len()),
    )?;
    Ok(
        Frame::BlockAckRequest(
            BlockAckRequest {
                frame_control,
                duration: duration_of(input),
                source: mac_at(input, 8),
                destination: mac_at(input, 2),
                policy,
                mode,
                requested_tids,
            },
        ),
    )
}

/// Decodes a [`BlockAck`] frame from the bytes after the frame control.
pub fn parse_block_ack(frame_control: FrameControl, input: &[u8]) -> (r: Result<Frame, Error>)
    ensures
        frame_decoded(r, block_ack_of(frame_control, input@)),
        r is Ok && frame_control.wf() ==> r->Ok_0@.wf(),
{
    if input.len() < 16 {
        return Err(Error::Incomplete(16, input.len()));
    }
    let control = read_le_u16(input, 14);
    let policy = test_bit16(control, 0);
    let multi_tid = test_bit16(control, 1);
    let compressed_bitmap = test_bit16(control, 2);
    let tid_info = (control / 4096) as u8;
    let mode = BlockAckMode::from_bits(multi_tid, compressed_bitmap);
    proof {
        lemma_entries_wf(mode, tid_info, input@.skip(16));
    }
    let acks = parse_acks(mode, tid_info, slice_subrange(input, 16, input.len()))?;
    Ok(
        Frame::BlockAck(
            BlockAck {
                frame_control,
                duration: duration_of(input),
                source: mac_at(input, 8),
                destination: mac_at(input, 2),
                policy,
                mode,
                acks,
            },
        ),
    )
}

} // verus!
