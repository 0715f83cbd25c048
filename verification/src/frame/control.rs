//! Control frames.

use crate::frame::components::frame_control::FrameControl;
use crate::frame::components::header::AddressRoles;
use crate::frame::components::mac_address::MacAddress;
use crate::frame::components::security::bit;
use crate::frame::components::sequence_control::SequenceControl;
use crate::traits::Addresses;
use crate::wire::{concat_all, push_bytes, push_le_u16, push_le_u64, u16_le_bytes, u64_le_bytes};
use vstd::prelude::*;

verus! {

/// A request to send: the sender asks the receiver for the medium.
#[derive(Clone, Copy, Debug)]
pub struct Rts {
    pub frame_control: FrameControl,
    pub duration: [u8; 2],
    pub source: MacAddress,
    pub destination: MacAddress,
}

/// A clear to send: the answer to a request to send.
#[derive(Clone, Copy, Debug)]
pub struct Cts {
    pub frame_control: FrameControl,
    pub duration: [u8; 2],
    pub destination: MacAddress,
}

/// An acknowledgement of one frame.
#[derive(Clone, Copy, Debug)]
pub struct Ack {
    pub frame_control: FrameControl,
    pub duration: [u8; 2],
    pub destination: MacAddress,
}

/// The four modes of a block acknowledgement, by the multi-TID bit and the compressed
/// bitmap bit of its control field.
#[derive(Clone, Copy, Debug, PartialEq, Eq, Structural)]
pub enum BlockAckMode {
    BasicBlockAck,
    CompressedBlockAck,
    Reserved,
    /// Several traffic identifiers are acknowledged at once.
    MultiTidBlockAck,
}

impl BlockAckMode {
    /// The mode that the two bits stand for.
    pub open spec fn of(multi_tid: bool, compressed_bitmap: bool) -> BlockAckMode {
        if multi_tid {
            if compressed_bitmap {
                BlockAckMode::MultiTidBlockAck
            } else {
                BlockAckMode::Reserved
            }
        } else {
            if compressed_bitmap {
                BlockAckMode::CompressedBlockAck
            } else {
                BlockAckMode::BasicBlockAck
            }
        }
    }

    pub open spec fn multi_tid(self) -> bool {
        self == BlockAckMode::MultiTidBlockAck || self == BlockAckMode::Reserved
    }

    pub open spec fn compressed_bitmap(self) -> bool {
        self == BlockAckMode::MultiTidBlockAck || self == BlockAckMode::CompressedBlockAck
    }

    /// The mode that the two bits stand for.
    pub fn from_bits(multi_tid: bool, compressed_bitmap: bool) -> (mode: BlockAckMode)
        ensures
            mode == BlockAckMode::of(multi_tid, compressed_bitmap),
    {
        match (multi_tid, compressed_bitmap) {
            (true, true) => BlockAckMode::MultiTidBlockAck,
            (true, false) => BlockAckMode::Reserved,
            (false, false) => BlockAckMode::BasicBlockAck,
            (false, true) => BlockAckMode::CompressedBlockAck,
        }
    }

    /// The two bits of this mode, as the number they form in the control field.
    fn bits(&self) -> (n: u16)
        ensures
            n == 2 * bit(self.multi_tid()) + 4 * bit(self.compressed_bitmap()),
    {
        reveal(bit);
        match self {
            BlockAckMode::BasicBlockAck => 0,
            BlockAckMode::CompressedBlockAck => 4,
            BlockAckMode::Reserved => 2,
            BlockAckMode::MultiTidBlockAck => 6,
        }
    }
}

/// The control field of a block acknowledgement or of its request: the policy in bit 0,
/// the two mode bits in bits 1 and 2, and the TID information in bits 12 to 15.
pub open spec fn block_ack_control(policy: bool, mode: BlockAckMode, tid_info: int) -> u16 {
    (bit(policy) + 2 * bit(mode.multi_tid()) + 4 * bit(mode.compressed_bitmap()) + 4096 * (tid_info
        % 16)) as u16
}

/// The TID information that an encoder writes for `count` entries of which the first has
/// the traffic identifier `first`: the identifier itself, or with several identifiers
/// their number less one.
pub open spec fn tid_info_of(mode: BlockAckMode, count: nat, first: u8) -> int {
    if count == 0 || mode == BlockAckMode::Reserved {
        0
    } else if mode == BlockAckMode::MultiTidBlockAck {
        count - 1
    } else {
        first as int
    }
}

/// A request for a block acknowledgement of the frames of one or several traffic
/// identifiers, each from a starting sequence control on.
#[derive(Clone, Debug)]
pub struct BlockAckRequest {
    pub frame_control: FrameControl,
    pub duration: [u8; 2],
    pub source: MacAddress,
    pub destination: MacAddress,
    /// The acknowledgement policy bit.
    pub policy: bool,
    pub mode: BlockAckMode,
    /// The traffic identifiers and their starting sequence controls.
    pub requested_tids: Vec<(u8, SequenceControl)>,
}

/// A [`BlockAckRequest`] as a mathematical value.
pub ghost struct BlockAckRequestView {
    pub frame_control: FrameControl,
    pub duration: [u8; 2],
    pub source: MacAddress,
    pub destination: MacAddress,
    pub policy: bool,
    pub mode: BlockAckMode,
    pub requested_tids: Seq<(u8, SequenceControl)>,
}

impl View for BlockAckRequest {
    type V = BlockAckRequestView;

    open spec fn view(&self) -> BlockAckRequestView {
        BlockAckRequestView {
            frame_control: self.frame_control,
            duration: self.duration,
            source: self.source,
            destination: self.destination,
            policy: self.policy,
            mode: self.mode,
            requested_tids: self.requested_tids@,
        }
    }
}

/// What a block acknowledgement acknowledges: for each traffic identifier the starting
/// sequence control and a bitmap, of 128 bytes in the basic mode and of 64 bits otherwise.
#[derive(Clone, Debug)]
pub enum BlockAckInfo {
    Basic(Vec<(u8, SequenceControl, [u8; 128])>),
    Compressed(Vec<(u8, SequenceControl, u64)>),
}

/// A [`BlockAckInfo`] as a mathematical value.
pub ghost enum BlockAckInfoView {
    Basic(Seq<(u8, SequenceControl, Seq<u8>)>),
    Compressed(Seq<(u8, SequenceControl, u64)>),
}

impl View for BlockAckInfo {
    type V = BlockAckInfoView;

    open spec fn view(&self) -> BlockAckInfoView {
        match self {
            BlockAckInfo::Basic(acks) => BlockAckInfoView::Basic(
                acks@.map_values(|a: (u8, SequenceControl, [u8; 128])| (a.0, a.1, a.2@)),
            ),
            BlockAckInfo::Compressed(acks) => BlockAckInfoView::Compressed(acks@),
        }
    }
}

/// A block acknowledgement.
#[derive(Clone, Debug)]
pub struct BlockAck {
    pub frame_control: FrameControl,
    pub duration: [u8; 2],
    pub source: MacAddress,
    pub destination: MacAddress,
    /// The acknowledgement policy bit.
    pub policy: bool,
    pub mode: BlockAckMode,
    pub acks: BlockAckInfo,
}

/// A [`BlockAck`] as a mathematical value.
pub ghost struct BlockAckView {
    pub frame_control: FrameControl,
    pub duration: [u8; 2],
    pub source: MacAddress,
    pub destination: MacAddress,
    pub policy: bool,
    pub mode: BlockAckMode,
    pub acks: BlockAckInfoView,
}

impl View for BlockAck {
    type V = BlockAckView;

    open spec fn view(&self) -> BlockAckView {
        BlockAckView {
            frame_control: self.frame_control,
            duration: self.duration,
            source: self.source,
            destination: self.destination,
            policy: self.policy,
            mode: self.mode,
            acks: self.acks@,
        }
    }
}

/// The roles of the addresses of a control frame with a receiver and, for some, a sender.
pub open spec fn control_roles(source: Option<MacAddress>, destination: MacAddress) -> AddressRoles
{
    AddressRoles { src: source, dest: destination, bssid: None }
}

impl Rts {
    /// The bytes of the frame: frame control, duration, receiver, sender.
    pub open spec fn encode_spec(self) -> Seq<u8> {
        self.frame_control.encode_spec() + self.duration@ + self.destination@ + self.source@
    }

    /// The bytes of this frame on the wire.
    pub fn encode(&self) -> (bytes: Vec<u8>)
        ensures
            bytes@ == self.encode_spec(),
    {
        let mut bytes: Vec<u8> = Vec::new();
        push_bytes(&mut bytes, self.frame_control.encode().as_slice());
        push_bytes(&mut bytes, self.duration.as_slice());
        push_bytes(&mut bytes, self.destination.encode().as_slice());
        push_bytes(&mut bytes, self.source.encode().as_slice());
        bytes
    }
}

impl Cts {
    /// The bytes of the frame: frame control, duration, receiver.
    pub open spec fn encode_spec(self) -> Seq<u8> {
        self.frame_control.encode_spec() + self.duration@ + self.destination@
    }

    /// The bytes of this frame on the wire.
    pub fn encode(&self) -> (bytes: Vec<u8>)
        ensures
            bytes@ == self.encode_spec(),
    {
        let mut bytes: Vec<u8> = Vec::new();
        push_bytes(&mut bytes, self.frame_control.encode().as_slice());
        push_bytes(&mut bytes, self.duration.as_slice());
        push_bytes(&mut bytes, self.destination.encode().as_slice());
        bytes
    }
}

impl Ack {
    /// The bytes of the frame: frame control, duration, receiver.
    pub open spec fn encode_spec(self) -> Seq<u8> {
        self.frame_control.encode_spec() + self.duration@ + self.destination@
    }

    /// The bytes of this frame on the wire.
    pub fn encode(&self) -> (bytes: Vec<u8>)
        ensures
            bytes@ == self.encode_spec(),
    {
        let mut bytes: Vec<u8> = Vec::new();
        push_bytes(&mut bytes, self.frame_control.encode().as_slice());
        push_bytes(&mut bytes, self.duration.as_slice());
        push_bytes(&mut bytes, self.destination.encode().as_slice());
        bytes
    }
}

/// The word that carries a traffic identifier in its bits 12 to 15.
pub open spec fn tid_word(tid: u8) -> u16 {
    (4096 * (tid % 16)) as u16
}

/// The bytes of one requested traffic identifier: with several identifiers the word of the
/// identifier and the sequence control, else the sequence control alone.
pub open spec fn request_entry(mode: BlockAckMode, entry: (u8, SequenceControl)) -> Seq<u8> {
    if mode == BlockAckMode::MultiTidBlockAck {
        u16_le_bytes(tid_word(entry.0)) + entry.1.encode_spec()
    } else if mode == BlockAckMode::Reserved {
        Seq::<u8>::empty()
    } else {
        entry.1.encode_spec()
    }
}

/// The bytes of one acknowledged traffic identifier with a bitmap of 64 bits.
pub open spec fn compressed_entry(mode: BlockAckMode, entry: (u8, SequenceControl, u64)) -> Seq<
    u8,
> {
    if mode == BlockAckMode::MultiTidBlockAck {
        u16_le_bytes(tid_word(entry.0)) + entry.1.encode_spec() + u64_le_bytes(entry.2)
    } else if mode == BlockAckMode::Reserved {
        Seq::<u8>::empty()
    } else {
        entry.1.encode_spec() + u64_le_bytes(entry.2)
    }
}

/// The bytes of one acknowledged traffic identifier with a bitmap of 128 bytes.
pub open spec fn basic_entry(mode: BlockAckMode, entry: (u8, SequenceControl, Seq<u8>)) -> Seq<u8> {
    if mode == BlockAckMode::MultiTidBlockAck {
        u16_le_bytes(tid_word(entry.0)) + entry.1.encode_spec() + entry.2
    } else if mode == BlockAckMode::Reserved {
        Seq::<u8>::empty()
    } else {
        entry.1.encode_spec() + entry.2
    }
}

/// The entries of a request are what the mode allows: one in the basic and the compressed
/// mode, one to sixteen with several traffic identifiers, none in the reserved mode; every
/// identifier has four bits and every sequence control is within range.
pub open spec fn request_entries_wf(mode: BlockAckMode, tids: Seq<(u8, SequenceControl)>) -> bool {
    &&& match mode {
        BlockAckMode::MultiTidBlockAck => 1 <= tids.len() <= 16,
        BlockAckMode::Reserved => tids.len() == 0,
        _ => tids.len() == 1,
    }
    &&& forall|i: int| 0 <= i < tids.len() ==> (#[trigger] tids[i]).0 < 16 && tids[i].1.wf()
}

/// The acknowledgements are what the mode allows: one with a bitmap of 128 bytes in the
/// basic mode, one with a bitmap of 64 bits in the compressed mode, one to sixteen of
/// those with several traffic identifiers, none in the reserved mode; every identifier
/// has four bits and every sequence control is within range.
pub open spec fn acks_wf(mode: BlockAckMode, info: BlockAckInfoView) -> bool {
    match info {
        BlockAckInfoView::Basic(acks) => mode == BlockAckMode::BasicBlockAck && acks.len() == 1
            && acks[0].0 < 16 && acks[0].1.wf() && acks[0].2.len() == 128,
        BlockAckInfoView::Compressed(acks) => {
            &&& match mode {
                BlockAckMode::MultiTidBlockAck => 1 <= acks.len() <= 16,
                BlockAckMode::Reserved => acks.len() == 0,
                BlockAckMode::CompressedBlockAck => acks.len() == 1,
                BlockAckMode::BasicBlockAck => false,
            }
            &&& forall|i: int| 0 <= i < acks.len() ==> (#[trigger] acks[i]).0 < 16 && acks[i].1.wf()
        },
    }
}

impl BlockAckRequestView {
    /// The entries are what the mode allows.
    pub open spec fn entries_wf(self) -> bool {
        request_entries_wf(self.mode, self.requested_tids)
    }

    /// The TID information that the control field of this request holds.
    pub open spec fn tid_info(self) -> int {
        tid_info_of(
            self.mode,
            self.requested_tids.len(),
            if self.requested_tids.len() > 0 {
                self.requested_tids[0].0
            } else {
                0
            },
        )
    }

    /// The bytes of the frame: frame control, duration, receiver, sender, control field,
    /// and the entries.
    pub open spec fn encode(self) -> Seq<u8> {
        self.frame_control.encode_spec() + self.duration@ + self.destination@ + self.source@
            + u16_le_bytes(block_ack_control(self.policy, self.mode, self.tid_info()))
            + concat_all(
            self.requested_tids.map_values(|e: (u8, SequenceControl)| request_entry(self.mode, e)),
        )
    }
}

impl BlockAckInfoView {
    pub open spec fn count(self) -> nat {
        match self {
            BlockAckInfoView::Basic(acks) => acks.len(),
            BlockAckInfoView::Compressed(acks) => acks.len(),
        }
    }

    pub open spec fn first_tid(self) -> u8 {
        match self {
            BlockAckInfoView::Basic(acks) => if acks.len() > 0 {
                acks[0].0
            } else {
                0
            },
            BlockAckInfoView::Compressed(acks) => if acks.len() > 0 {
                acks[0].0
            } else {
                0
            },
        }
    }

    /// The bytes of the entries.
    pub open spec fn encode(self, mode: BlockAckMode) -> Seq<u8> {
        match self {
            BlockAckInfoView::Basic(acks) => concat_all(
                acks.map_values(|e: (u8, SequenceControl, Seq<u8>)| basic_entry(mode, e)),
            ),
            BlockAckInfoView::Compressed(acks) => concat_all(
                acks.map_values(|e: (u8, SequenceControl, u64)| compressed_entry(mode, e)),
            ),
        }
    }
}

impl BlockAckView {
    /// The acknowledgements are what the mode allows.
    pub open spec fn entries_wf(self) -> bool {
        acks_wf(self.mode, self.acks)
    }

    /// The TID information that the control field of this acknowledgement holds.
    pub open spec fn tid_info(self) -> int {
        tid_info_of(self.mode, self.acks.count(), self.acks.first_tid())
    }

    /// The bytes of the frame: frame control, duration, receiver, sender, control field,
    /// and the entries.
    pub open spec fn encode(self) -> Seq<u8> {
        self.frame_control.encode_spec() + self.duration@ + self.destination@ + self.source@
            + u16_le_bytes(block_ack_control(self.policy, self.mode, self.tid_info()))
            + self.acks.encode(self.mode)
    }
}

/// The control field for the given policy, mode and TID information.
fn control_word(policy: bool, mode: BlockAckMode, count: usize, first: u8) -> (word: u16)
    ensures
        word == block_ack_control(policy, mode, tid_info_of(mode, count as nat, first)),
{
    let tid_info: u16 = if count == 0 {
        0
    } else {
        match mode {
            BlockAckMode::Reserved => 0,
            BlockAckMode::MultiTidBlockAck => ((count - 1) % 16) as u16,
            _ => (first % 16) as u16,
        }
    };
    let low: u16 = if policy {
        1
    } else {
        0
    };
    proof {
        reveal(bit);
    }
    low + mode.bits() + 4096 * tid_info
}

/// Appends the word of a traffic identifier.
fn push_tid_word(out: &mut Vec<u8>, tid: u8)
    ensures
        final(out)@ == old(out)@ + u16_le_bytes(tid_word(tid)),
{
    push_le_u16(out, 4096 * ((tid % 16) as u16));
}

impl BlockAckRequest {
    /// The bytes of this frame on the wire.
    pub fn encode(&self) -> (bytes: Vec<u8>)
        ensures
            bytes@ == self@.encode(),
    {
        let mut bytes: Vec<u8> = Vec::new();
        push_bytes(&mut bytes, self.frame_control.encode().as_slice());
        push_bytes(&mut bytes, self.duration.as_slice());
        push_bytes(&mut bytes, self.destination.encode().as_slice());
        push_bytes(&mut bytes, self.source.encode().as_slice());
        let first = if self.requested_tids.len() > 0 {
            self.requested_tids[0].0
        } else {
            0
        };
        let word = control_word(self.policy, self.mode, self.requested_tids.len(), first);
        push_le_u16(&mut bytes, word);
        let ghost head = bytes@;
        let ghost mode = self.mode;
        let ghost parts = self@.requested_tids.map_values(
            |e: (u8, SequenceControl)| request_entry(mode, e),
        );
        let mut i: usize = 0;
        assert(bytes@ =~= head + concat_all(parts.take(0)));
        while i < self.requested_tids.len()
            invariant
                i <= self.requested_tids.len(),
                mode == self.mode,
                parts == self@.requested_tids.map_values(
                    |e: (u8, SequenceControl)| request_entry(mode, e),
                ),
                bytes@ == head + concat_all(parts.take(i as int)),
            decreases self.requested_tids.len() - i,
        {
            let ghost before = bytes@;
            let entry = &self.requested_tids[i];
            match self.mode {
                BlockAckMode::MultiTidBlockAck => {
                    push_tid_word(&mut bytes, entry.0);
                    push_bytes(&mut bytes, entry.1.encode().as_slice());
                },
                BlockAckMode::Reserved => {},
                _ => {
                    push_bytes(&mut bytes, entry.1.encode().as_slice());
                },
            }
            proof {
                let part = request_entry(mode, *entry);
                assert(bytes@ =~= before + part);
                assert(parts.take(i + 1) =~= parts.take(i as int).push(part));
                crate::wire::lemma_concat_all_push(parts.take(i as int), part);
                crate::wire::lemma_append_assoc(head, concat_all(parts.take(i as int)), part);
            }
            i += 1;
        }
        assert(parts.take(i as int) =~= parts);
        bytes
    }
}

impl BlockAck {
    /// The bytes of this frame on the wire.
    pub fn encode(&self) -> (bytes: Vec<u8>)
        ensures
            bytes@ == self@.encode(),
    {
        let mut bytes: Vec<u8> = Vec::new();
        push_bytes(&mut bytes, self.frame_control.encode().as_slice());
        push_bytes(&mut bytes, self.duration.as_slice());
        push_bytes(&mut bytes, self.destination.encode().as_slice());
        push_bytes(&mut bytes, self.source.encode().as_slice());
        let ghost mode = self.mode;
        match &self.acks {
            BlockAckInfo::Basic(acks) => {
                let first = if acks.len() > 0 {
                    acks[0].0
                } else {
                    0
                };
                push_le_u16(&mut bytes, control_word(self.policy, self.mode, acks.len(), first));
                let ghost head = bytes@;
                let ghost views = acks@.map_values(
                    |a: (u8, SequenceControl, [u8; 128])| (a.0, a.1, a.2@),
                );
                let ghost parts = views.map_values(
                    |e: (u8, SequenceControl, Seq<u8>)| basic_entry(mode, e),
                );
                let mut i: usize = 0;
                assert(bytes@ =~= head + concat_all(parts.take(0)));
                while i < acks.len()
                    invariant
                        i <= acks.len(),
                        mode == self.mode,
                        views == acks@.map_values(
                            |a: (u8, SequenceControl, [u8; 128])| (a.0, a.1, a.2@),
                        ),
                        parts == views.map_values(
                            |e: (u8, SequenceControl, Seq<u8>)| basic_entry(mode, e),
                        ),
                        bytes@ == head + concat_all(parts.take(i as int)),
                    decreases acks.len() - i,
                {
                    let ghost before = bytes@;
                    let entry = &acks[i];
                    match self.mode {
                        BlockAckMode::MultiTidBlockAck => {
                            push_tid_word(&mut bytes, entry.0);
                            push_bytes(&mut bytes, entry.1.encode().as_slice());
                            push_bytes(&mut bytes, entry.2.as_slice());
                        },
                        BlockAckMode::Reserved => {},
                        _ => {
                            push_bytes(&mut bytes, entry.1.encode().as_slice());
                            push_bytes(&mut bytes, entry.2.as_slice());
                        },
                    }
                    proof {
                        let part = basic_entry(mode, views[i as int]);
                        assert(bytes@ =~= before + part);
                        assert(parts.take(i + 1) =~= parts.take(i as int).push(part));
                        crate::wire::lemma_concat_all_push(parts.take(i as int), part);
                        crate::wire::lemma_append_assoc(
                            head,
                            concat_all(parts.take(i as int)),
                            part,
                        );
                    }
                    i += 1;
                }
                assert(parts.take(i as int) =~= parts);
            },
            BlockAckInfo::Compressed(acks) => {
                let first = if acks.len() > 0 {
                    acks[0].0
                } else {
                    0
                };
                push_le_u16(&mut bytes, control_word(self.policy, self.mode, acks.len(), first));
                let ghost head = bytes@;
                let ghost parts = acks@.map_values(
                    |e: (u8, SequenceControl, u64)| compressed_entry(mode, e),
                );
                let mut i: usize = 0;
                assert(bytes@ =~= head + concat_all(parts.take(0)));
                while i < acks.len()
                    invariant
                        i <= acks.len(),
                        mode == self.mode,
                        parts == acks@.map_values(
                            |e: (u8, SequenceControl, u64)| compressed_entry(mode, e),
                        ),
                        bytes@ == head + concat_all(parts.take(i as int)),
                    decreases acks.len() - i,
                {
                    let ghost before = bytes@;
                    let entry = &acks[i];
                    match self.mode {
                        BlockAckMode::MultiTidBlockAck => {
                            push_tid_word(&mut bytes, entry.0);
                            push_bytes(&mut bytes, entry.1.encode().as_slice());
                            push_le_u64(&mut bytes, entry.2);
                        },
                        BlockAckMode::Reserved => {},
                        _ => {
                            push_bytes(&mut bytes, entry.1.encode().as_slice());
                            push_le_u64(&mut bytes, entry.2);
                        },
                    }
                    proof {
                        let part = compressed_entry(mode, *entry);
                        assert(bytes@ =~= before + part);
                        assert(parts.take(i + 1) =~= parts.take(i as int).push(part));
                        crate::wire::lemma_concat_all_push(parts.take(i as int), part);
                        crate::wire::lemma_append_assoc(
                            head,
                            concat_all(parts.take(i as int)),
                            part,
                        );
                    }
                    i += 1;
                }
                assert(parts.take(i as int) =~= parts);
            },
        }
        bytes
    }
}

impl Addresses for Rts {
    open spec fn address_roles(&self) -> AddressRoles {
        control_roles(Some(self.source), self.destination)
    }

    fn src(&self) -> (a: Option<&MacAddress>) {
        Some(&self.source)
    }

    fn dest(&self) -> (a: &MacAddress) {
        &self.destination
    }

    fn bssid(&self) -> (a: Option<&MacAddress>) {
        None
    }
}

impl Addresses for Cts {
    open spec fn address_roles(&self) -> AddressRoles {
        control_roles(None, self.destination)
    }

    fn src(&self) -> (a: Option<&MacAddress>) {
        None
    }

    fn dest(&self) -> (a: &MacAddress) {
        &self.destination
    }

    fn bssid(&self) -> (a: Option<&MacAddress>) {
        None
    }
}

impl Addresses for Ack {
    open spec fn address_roles(&self) -> AddressRoles {
        control_roles(None, self.destination)
    }

    fn src(&self) -> (a: Option<&MacAddress>) {
        None
    }

    fn dest(&self) -> (a: &MacAddress) {
        &self.destination
    }

    fn bssid(&self) -> (a: Option<&MacAddress>) {
        None
    }
}

impl Addresses for BlockAckRequest {
    open spec fn address_roles(&self) -> AddressRoles {
        control_roles(Some(self.source), self.destination)
    }

    fn src(&self) -> (a: Option<&MacAddress>) {
        Some(&self.source)
    }

    fn dest(&self) -> (a: &MacAddress) {
        &self.destination
    }

    fn bssid(&self) -> (a: Option<&MacAddress>) {
        None
    }
}

impl Addresses for BlockAck {
    open spec fn address_roles(&self) -> AddressRoles {
        control_roles(Some(self.source), self.destination)
    }

    fn src(&self) -> (a: Option<&MacAddress>) {
        Some(&self.source)
    }

    fn dest(&self) -> (a: &MacAddress) {
        &self.destination
    }

    fn bssid(&self) -> (a: Option<&MacAddress>) {
        None
    }
}

} // verus!
