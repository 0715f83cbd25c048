//! The sequence control field: a fragment number and a sequence number in two bytes.

use vstd::prelude::*;

verus! {

/// Fragment number (4 bits) and sequence number (12 bits) of a frame.
#[derive(Copy, Clone, PartialEq, Eq, Hash, Debug, Structural)]
pub struct SequenceControl {
    pub fragment_number: u8,
    pub sequence_number: u16,
}

/// The sequence control that the two bytes `b0`, `b1` stand for. The fragment number is the
/// low nibble of `b0`; the sequence number has the high nibble of `b0` as its low four bits
/// and `b1` above them.
pub open spec fn sequence_control_of(b0: u8, b1: u8) -> SequenceControl {
    SequenceControl {
        fragment_number: b0 % 16,
        sequence_number: (b0 as int / 16 + 16 * (b1 as int)) as u16,
    }
}

impl SequenceControl {
    /// Both numbers fit the bits that the wire has for them.
    pub open spec fn wf(self) -> bool {
        self.fragment_number <= 15 && self.sequence_number <= 4095
    }

    /// The two bytes of this sequence control. Numbers are cut to the bits the wire has.
    pub open spec fn encode_spec(self) -> Seq<u8> {
        seq![
            (self.fragment_number % 16 + 16 * (self.sequence_number % 16)) as u8,
            (self.sequence_number / 16 % 256) as u8,
        ]
    }

    /// The two bytes of this sequence control on the wire.
    pub fn encode(&self) -> (bytes: [u8; 2])
        ensures
            bytes@ == self.encode_spec(),
    {
        let low: u8 = self.fragment_number % 16 + 16 * ((self.sequence_number % 16) as u8);
        let high: u8 = (self.sequence_number / 16 % 256) as u8;
        [low, high]
    }
}

/// Every decoded sequence control is within range, and encoding it gives the bytes back.
pub proof fn lemma_sequence_control_decoded(b0: u8, b1: u8)
    ensures
        sequence_control_of(b0, b1).wf(),
        sequence_control_of(b0, b1).encode_spec() == seq![b0, b1],
{
}

/// Decoding the bytes of a sequence control within range gives it back.
pub proof fn lemma_sequence_control_round_trip(s: SequenceControl)
    requires
        s.wf(),
    ensures
        sequence_control_of(s.encode_spec()[0], s.encode_spec()[1]) == s,
{
}

} // verus!
