//! The decoders of the management header and the data header.

use crate::error::{Error, ErrorView};
use crate::frame::components::frame_control::FrameControl;
use crate::frame::components::header::{DataHeader, ManagementHeader};
use crate::frame::components::mac_address::mac_of;
use crate::frame::components::sequence_control::sequence_control_of;
use crate::frame_types::is_qos_subtype;
use crate::parsers::components::sequence_control::parse_sequence_control;
use crate::parsers::{fixed_field, parse_mac};
use crate::wire::{clone_slice, pair_of};
use vstd::prelude::*;
use vstd::slice::slice_subrange;

verus! {

/// The management header that the 22 bytes after the frame control stand for.
pub open spec fn management_header_of(fc: FrameControl, input: Seq<u8>) -> ManagementHeader {
    ManagementHeader {
        frame_control: fc,
        duration: pair_of(input),
        address_1: mac_of(input.skip(2)),
        address_2: mac_of(input.skip(8)),
        address_3: mac_of(input.skip(14)),
        sequence_control: sequence_control_of(input[20], input[21]),
    }
}

/// The number of bytes that a data header takes after the frame control.
pub open spec fn data_header_size(fc: FrameControl) -> nat {
    (22 + if fc.to_ds() && fc.from_ds() {
        6int
    } else {
        0int
    } + if is_qos_subtype(fc.frame_subtype) {
        2int
    } else {
        0int
    }) as nat
}

/// The data header that the bytes after the frame control stand for: the 22 fixed bytes,
/// then the fourth address if both distribution flags are set, then the QoS field if the
/// subtype is a QoS subtype.
pub open spec fn data_header_of(fc: FrameControl, input: Seq<u8>) -> Result<
    DataHeader,
    ErrorView,
> {
    let four = fc.to_ds() && fc.from_ds();
    let qos = is_qos_subtype(fc.frame_subtype);
    let qos_at: int = if four {
        28
    } else {
        22
    };
    if input.len() < 22 {
        Err(ErrorView::Incomplete(22, input.len()))
    } else if four && input.len() < 28 {
        Err(ErrorView::Incomplete(6, (input.len() - 22) as nat))
    } else if qos && input.len() < qos_at + 2 {
        Err(ErrorView::Incomplete(2, (input.len() - qos_at) as nat))
    } else {
        Ok(
            DataHeader {
                frame_control: fc,
                duration: pair_of(input),
                address_1: mac_of(input.skip(2)),
                address_2: mac_of(input.skip(8)),
                address_3: mac_of(input.skip(14)),
                sequence_control: sequence_control_of(input[20], input[21]),
                address_4: if four {
                    Some(mac_of(input.skip(22)))
                } else {
                    None
                },
                qos: if qos {
                    Some(pair_of(input.skip(qos_at)))
                } else {
                    None
                },
            },
        )
    }
}

/// Reads the management header from the bytes after the frame control.
pub fn parse_management_header(frame_control: FrameControl, input: &[u8]) -> (r: Result<
    (&[u8], ManagementHeader),
    Error,
>)
    ensures
        fixed_field(r, input@, 22, management_header_of(frame_control, input@)),
        r is Ok && frame_control.wf() ==> r->Ok_0.1.wf(),
{
    if input.len() < 22 {
        return Err(Error::Incomplete(22, input.len()));
    }
    let duration = clone_slice::<2>(input);
    let (_, address_1) = parse_mac(slice_subrange(input, 2, input.len()))?;
    let (_, address_2) = parse_mac(slice_subrange(input, 8, input.len()))?;
    let (_, address_3) = parse_mac(slice_subrange(input, 14, input.len()))?;
    let (rest, sequence_control) = parse_sequence_control(slice_subrange(input, 20, input.len()))?;
    proof {
        assert(duration =~= pair_of(input@));
        assert(input@.skip(20).skip(2) =~= input@.skip(22));
    }
    Ok(
        (
            rest,
            ManagementHeader {
                frame_control,
                duration,
                address_1,
                address_2,
                address_3,
                sequence_control,
            },
        ),
    )
}

/// Reads the data header from the bytes after the frame control. The fourth address comes
/// before the QoS field.
pub fn parse_data_header(frame_control: FrameControl, input: &[u8]) -> (r: Result<
    (&[u8], DataHeader),
    Error,
>)
    ensures
        match r {
            Ok((rest, header)) => data_header_of(frame_control, input@) == Ok::<
                DataHeader,
                ErrorView,
            >(header) && rest@ == input@.skip(data_header_size(frame_control) as int),
            Err(e) => data_header_of(frame_control, input@) == Err::<DataHeader, ErrorView>(e@),
        },
        r is Ok && frame_control.wf() ==> r->Ok_0.1.wf(),
{
    if input.len() < 22 {
        return Err(Error::Incomplete(22, input.len()));
    }
    let duration = clone_slice::<2>(input);
    let (_, address_1) = parse_mac(slice_subrange(input, 2, input.len()))?;
    let (_, address_2) = parse_mac(slice_subrange(input, 8, input.len()))?;
    let (_, address_3) = parse_mac(slice_subrange(input, 14, input.len()))?;
    let (after, sequence_control) = parse_sequence_control(
        slice_subrange(input, 20, input.len()),
    )?;
    let mut remaining = after;
    proof {
        assert(duration =~= pair_of(input@));
        assert(remaining@ =~= input@.skip(22));
    }
    let mut address_4 = None;
    if frame_control.to_ds() && frame_control.from_ds() {
        match parse_mac(remaining) {
            Ok((rest, mac)) => {
                proof {
                    assert(rest@ =~= input@.skip(28));
                }
                address_4 = Some(mac);
                remaining = rest;
            },
            Err(e) => {
                return Err(e);
            },
        }
    }
    let mut qos = None;
    if frame_control.frame_subtype.is_qos() {
        if remaining.len() < 2 {
            return Err(Error::Incomplete(2, remaining.len()));
        }
        let pair = clone_slice::<2>(remaining);
        proof {
            assert(pair =~= pair_of(remaining@));
            assert(remaining@.skip(2) =~= input@.skip(data_header_size(frame_control) as int));
        }
        qos = Some(pair);
        remaining = slice_subrange(remaining, 2, remaining.len());
    }
    Ok(
        (
            remaining,
            DataHeader {
                frame_control,
                duration,
                address_1,
                address_2,
                address_3,
                sequence_control,
                address_4,
                qos,
            },
        ),
    )
}

} // verus!
