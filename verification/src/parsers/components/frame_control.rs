//! The decoder of the frame control field.

use crate::error::Error;
use crate::frame::components::frame_control::{frame_control_of, FrameControl};
use crate::frame_types::{
    control_subtype_of, data_subtype_of, extension_subtype_of, frame_type_of,
    management_subtype_of, protocol_version_of, FrameProtocolVersion, FrameSubType, FrameType,
};
use crate::parsers::fixed_field;
use vstd::prelude::*;
use vstd::slice::slice_subrange;

verus! {

/// Reads the frame control from the first two bytes of a frame.
pub fn parse_frame_control(input: &[u8]) -> (r: Result<(&[u8], FrameControl), Error>)
    ensures
        fixed_field(r, input@, 2, frame_control_of(input@[0], input@[1])),
{
    if input.len() < 2 {
        return Err(Error::Incomplete(2, input.len()));
    }
    let first = input[0];
    let protocol_version = parse_protocol_version(first % 4);
    let frame_type = parse_frame_type(first / 4 % 4);
    let code = first / 16;
    let frame_subtype = match frame_type {
        FrameType::Management => management_frame_subtype(code),
        FrameType::Control => control_frame_subtype(code),
        FrameType::Data => data_frame_subtype(code),
        FrameType::Extension => extension_frame_subtype(code),
        FrameType::Unknown(_) => FrameSubType::Unhandled(code),
    };
    Ok(
        (
            slice_subrange(input, 2, input.len()),
            FrameControl { protocol_version, frame_type, frame_subtype, flags: input[1] },
        ),
    )
}

/// The protocol version of a two-bit code.
pub fn parse_protocol_version(byte: u8) -> (v: FrameProtocolVersion)
    ensures
        v == protocol_version_of(byte),
{
    match byte {
        0 => FrameProtocolVersion::PV0,
        n => FrameProtocolVersion::Unknown(n),
    }
}

/// The frame type of a two-bit code.
pub fn parse_frame_type(byte: u8) -> (t: FrameType)
    ensures
        t == frame_type_of(byte),
{
    match byte {
        0 => FrameType::Management,
        1 => FrameType::Control,
        2 => FrameType::Data,
        3 => FrameType::Extension,
        byte => FrameType::Unknown(byte),
    }
}

/// The subtype of a four-bit code in a management frame.
pub fn management_frame_subtype(byte: u8) -> (s: FrameSubType)
    ensures
        s == management_subtype_of(byte),
{
    match byte {
        0 => FrameSubType::AssociationRequest,
        1 => FrameSubType::AssociationResponse,
        2 => FrameSubType::ReassociationRequest,
        3 => FrameSubType::ReassociationResponse,
        4 => FrameSubType::ProbeRequest,
        5 => FrameSubType::ProbeResponse,
        6 => FrameSubType::TimingAdvertisement,
        7 => FrameSubType::Reserved(byte),
        8 => FrameSubType::Beacon,
        9 => FrameSubType::Atim,
        10 => FrameSubType::Disassociation,
        11 => FrameSubType::Authentication,
        12 => FrameSubType::Deauthentication,
        13 => FrameSubType::Action,
        14 => FrameSubType::ActionNoAck,
        15 => FrameSubType::Reserved(byte),
        x => FrameSubType::Unhandled(x),
    }
}

/// The subtype of a four-bit code in a control frame.
pub fn control_frame_subtype(byte: u8) -> (s: FrameSubType)
    ensures
        s == control_subtype_of(byte),
{
    match byte {
        0 => FrameSubType::Reserved(byte),
        1 => FrameSubType::Reserved(byte),
        2 => FrameSubType::Trigger,
        3 => FrameSubType::Tack,
        4 => FrameSubType::BeamformingReportPoll,
        5 => FrameSubType::NdpAnnouncement,
        6 => FrameSubType::ControlFrameExtension,
        7 => FrameSubType::ControlWrapper,
        8 => FrameSubType::BlockAckRequest,
        9 => FrameSubType::BlockAck,
        10 => FrameSubType::PsPoll,
        11 => FrameSubType::Rts,
        12 => FrameSubType::Cts,
        13 => FrameSubType::Ack,
        14 => FrameSubType::CfEnd,
        15 => FrameSubType::CfEndCfAck,
        x => FrameSubType::Unhandled(x),
    }
}

/// The subtype of a four-bit code in an extension frame.
pub fn extension_frame_subtype(byte: u8) -> (s: FrameSubType)
    ensures
        s == extension_subtype_of(byte),
{
    match byte {
        0 => FrameSubType::DMGBeacon,
        1 => FrameSubType::S1GBeacon,
        _ => FrameSubType::Reserved(byte),
    }
}

/// The subtype of a four-bit code in a data frame.
pub fn data_frame_subtype(byte: u8) -> (s: FrameSubType)
    ensures
        s == data_subtype_of(byte),
{
    match byte {
        0 => FrameSubType::Data,
        1 => FrameSubType::DataCfAck,
        2 => FrameSubType::DataCfPoll,
        3 => FrameSubType::DataCfAckCfPoll,
        4 => FrameSubType::NullData,
        5 => FrameSubType::CfAck,
        6 => FrameSubType::CfPoll,
        7 => FrameSubType::CfAckCfPoll,
        8 => FrameSubType::QosData,
        9 => FrameSubType::QosDataCfAck,
        10 => FrameSubType::QosDataCfPoll,
        11 => FrameSubType::QosDataCfAckCfPoll,
        12 => FrameSubType::QosNull,
        13 => FrameSubType::Reserved(byte),
        14 => FrameSubType::QosCfPoll,
        15 => FrameSubType::QosCfAckCfPoll,
        x => FrameSubType::Unhandled(x),
    }
}

} // verus!
