//! The decoder of the sequence control field.

use crate::error::Error;
use crate::frame::components::sequence_control::{sequence_control_of, SequenceControl};
use crate::parsers::fixed_field;
use vstd::prelude::*;
use vstd::slice::slice_subrange;

verus! {

/// Reads the sequence control from the first two bytes of `input`. The numbers it returns
/// are within range: the fragment number below 16, the sequence number below 4096.
pub fn parse_sequence_control(input: &[u8]) -> (r: Result<(&[u8], SequenceControl), Error>)
    ensures
        fixed_field(r, input@, 2, sequence_control_of(input@[0], input@[1])),
        r matches Ok((_, s)) ==> s.wf(),
{
    if input.len() < 2 {
        return Err(Error::Incomplete(2, input.len()));
    }
    let byte1 = input[0];
    let byte2 = input[1];
    let fragment_number = byte1 % 16;
    let sequence_number = (byte1 / 16) as u16 + 16 * (byte2 as u16);
    let rest = slice_subrange(input, 2, input.len());
    Ok((rest, SequenceControl { fragment_number, sequence_number }))
}

} // verus!
