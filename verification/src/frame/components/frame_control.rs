//! The two-byte frame control field that opens every frame.

use crate::frame_types::{
    frame_type_code, frame_type_of, is_reserved_code, protocol_version_code, protocol_version_of,
    subtype_code, subtype_family, subtype_of, FrameProtocolVersion, FrameSubType, FrameType,
};
use vstd::prelude::*;

verus! {

/// The decoded frame control field: version, type and subtype from the first byte, and the
/// flag byte as it came.
#[derive(Copy, Clone, PartialEq, Eq, Hash, Debug, Structural)]
pub struct FrameControl {
    pub protocol_version: FrameProtocolVersion,
    pub frame_type: FrameType,
    pub frame_subtype: FrameSubType,
    pub flags: u8,
}

/// Bit `i` of a byte, counting from the least significant.
pub open spec fn flag_bit(flags: u8, i: nat) -> bool {
    (flags as int / crate::wire::pow2(i)) % 2 == 1
}

/// The frame control that the two bytes `b0`, `b1` stand for: the low two bits of `b0` are
/// the version, the next two the type, the high four the subtype; `b1` holds the flags.
pub open spec fn frame_control_of(b0: u8, b1: u8) -> FrameControl {
    let frame_type = frame_type_of(b0 / 4 % 4);
    FrameControl {
        protocol_version: protocol_version_of(b0 % 4),
        frame_type,
        frame_subtype: subtype_of(frame_type, b0 / 16),
        flags: b1,
    }
}

impl FrameControl {
    /// A frame control as the decoder produces it: a version code of two bits, one of the
    /// four frame types, and a subtype that belongs to that type or is the reserved code of
    /// an unused slot of it.
    pub open spec fn wf(self) -> bool {
        &&& protocol_version_code(self.protocol_version) < 4
        &&& self.protocol_version is Unknown ==> protocol_version_code(self.protocol_version) != 0
        &&& !(self.frame_type is Unknown)
        &&& subtype_code(self.frame_subtype) < 16
        &&& match self.frame_subtype {
            FrameSubType::Reserved(n) => is_reserved_code(self.frame_type, n),
            FrameSubType::Unhandled(_) => false,
            _ => subtype_family(self.frame_subtype) == Some(self.frame_type),
        }
    }

    /// The two bytes of this frame control. Codes are cut to the bits the wire has for them.
    pub open spec fn encode_spec(self) -> Seq<u8> {
        seq![
            (protocol_version_code(self.protocol_version) % 4 + 4 * (frame_type_code(
                self.frame_type,
            ) % 4) + 16 * (subtype_code(self.frame_subtype) % 16)) as u8,
            self.flags,
        ]
    }

    pub open spec fn spec_to_ds(&self) -> bool {
        flag_bit(self.flags, 0)
    }

    pub open spec fn spec_from_ds(&self) -> bool {
        flag_bit(self.flags, 1)
    }

    /// The frame is headed for the distribution system.
    #[verifier::when_used_as_spec(spec_to_ds)]
    pub fn to_ds(&self) -> (b: bool)
        ensures
            b == self.spec_to_ds(),
    {
        self.flags % 2 == 1
    }

    /// The frame comes from the distribution system.
    #[verifier::when_used_as_spec(spec_from_ds)]
    pub fn from_ds(&self) -> (b: bool)
        ensures
            b == self.spec_from_ds(),
    {
        self.flags / 2 % 2 == 1
    }

    /// More fragments of this frame follow.
    pub fn more_fragments(&self) -> (b: bool)
        ensures
            b == flag_bit(self.flags, 2),
    {
        self.flags / 4 % 2 == 1
    }

    /// The frame is a retransmission.
    pub fn retry(&self) -> (b: bool)
        ensures
            b == flag_bit(self.flags, 3),
    {
        self.flags / 8 % 2 == 1
    }

    /// The sender goes into power-save mode after this frame.
    pub fn power_mgmt(&self) -> (b: bool)
        ensures
            b == flag_bit(self.flags, 4),
    {
        self.flags / 16 % 2 == 1
    }

    /// The sender has more frames buffered for the receiver.
    pub fn more_data(&self) -> (b: bool)
        ensures
            b == flag_bit(self.flags, 5),
    {
        self.flags / 32 % 2 == 1
    }

    /// The frame body is encrypted.
    pub fn protected(&self) -> (b: bool)
        ensures
            b == flag_bit(self.flags, 6),
    {
        self.flags / 64 % 2 == 1
    }

    /// The frame is sent in strict order.
    pub fn order(&self) -> (b: bool)
        ensures
            b == flag_bit(self.flags, 7),
    {
        self.flags / 128 % 2 == 1
    }

    /// The two bytes of this frame control on the wire.
    pub fn encode(&self) -> (bytes: [u8; 2])
        ensures
            bytes@ == self.encode_spec(),
    {
        let b0: u8 = self.protocol_version.code() % 4 + 4 * (self.frame_type.code() % 4) + 16 * (
        self.frame_subtype.code() % 16);
        [b0, self.flags]
    }
}

/// Decoding the bytes of a well-formed frame control gives it back.
pub proof fn lemma_frame_control_round_trip(fc: FrameControl)
    requires
        fc.wf(),
    ensures
        frame_control_of(fc.encode_spec()[0], fc.encode_spec()[1]) == fc,
{
    let b0 = fc.encode_spec()[0];
    let v = protocol_version_code(fc.protocol_version);
    let t = frame_type_code(fc.frame_type);
    let s = subtype_code(fc.frame_subtype);
    assert(b0 == v + 4 * t + 16 * s);
    assert(b0 % 4 == v);
    assert(b0 / 4 % 4 == t);
    assert(b0 / 16 == s);
    crate::frame_types::lemma_subtype_tables(fc.frame_type, s);
}

/// Every frame control that two bytes stand for is well formed.
pub proof fn lemma_frame_control_wf(b0: u8, b1: u8)
    ensures
        frame_control_of(b0, b1).wf(),
{
    let t = frame_type_of(b0 / 4 % 4);
    crate::frame_types::lemma_subtype_tables(t, b0 / 16);
}

} // verus!
