//! Frame types and subtypes, and the tables between them and their codes on the wire.

use vstd::prelude::*;

verus! {

/// The protocol version of a frame, the two lowest bits of its first byte.
#[derive(Copy, Clone, PartialEq, Eq, Hash, Debug, Structural)]
pub enum FrameProtocolVersion {
    PV0,
    Unknown(u8),
}

/// The four frame types, and a variant for codes beyond the two bits that the wire carries.
#[derive(Copy, Clone, PartialEq, Eq, Hash, Debug, Structural)]
pub enum FrameType {
    Management,
    Control,
    Data,
    Extension,
    Unknown(u8),
}

/// The exact frame subtypes.
#[derive(Copy, Clone, PartialEq, Eq, Hash, Debug, Structural)]
pub enum FrameSubType {
    // Management subtypes
    AssociationRequest,
    AssociationResponse,
    ReassociationRequest,
    ReassociationResponse,
    ProbeRequest,
    ProbeResponse,
    TimingAdvertisement,
    Beacon,
    Atim,
    Disassociation,
    Authentication,
    Deauthentication,
    Action,
    ActionNoAck,
    // Control subtypes
    Trigger,
    Tack,
    BeamformingReportPoll,
    NdpAnnouncement,
    ControlFrameExtension,
    ControlWrapper,
    BlockAckRequest,
    BlockAck,
    PsPoll,
    Rts,
    Cts,
    Ack,
    CfEnd,
    CfEndCfAck,
    // Data subtypes
    Data,
    DataCfAck,
    DataCfPoll,
    DataCfAckCfPoll,
    NullData,
    CfAck,
    CfPoll,
    CfAckCfPoll,
    QosData,
    QosDataCfAck,
    QosDataCfPoll,
    QosDataCfAckCfPoll,
    QosNull,
    QosCfPoll,
    QosCfAckCfPoll,
    // Extension subtypes
    DMGBeacon,
    S1GBeacon,
    // A code that the standard defines but leaves unused.
    Reserved(u8),
    // A code that no table covers.
    Unhandled(u8),
}

/// The version that a two-bit code stands for.
pub open spec fn protocol_version_of(code: u8) -> FrameProtocolVersion {
    if code == 0 {
        FrameProtocolVersion::PV0
    } else {
        FrameProtocolVersion::Unknown(code)
    }
}

/// The frame type that a two-bit code stands for.
pub open spec fn frame_type_of(code: u8) -> FrameType {
    match code {
        0 => FrameType::Management,
        1 => FrameType::Control,
        2 => FrameType::Data,
        3 => FrameType::Extension,
        _ => FrameType::Unknown(code),
    }
}

/// The code of a protocol version.
pub open spec fn protocol_version_code(version: FrameProtocolVersion) -> u8 {
    match version {
        FrameProtocolVersion::PV0 => 0,
        FrameProtocolVersion::Unknown(n) => n,
    }
}

/// The code of a frame type.
pub open spec fn frame_type_code(frame_type: FrameType) -> u8 {
    match frame_type {
        FrameType::Management => 0,
        FrameType::Control => 1,
        FrameType::Data => 2,
        FrameType::Extension => 3,
        FrameType::Unknown(n) => n,
    }
}

/// The four-bit code of a subtype within its frame type.
pub open spec fn subtype_code(subtype: FrameSubType) -> u8 {
    match subtype {
        FrameSubType::AssociationRequest => 0,
        FrameSubType::AssociationResponse => 1,
        FrameSubType::ReassociationRequest => 2,
        FrameSubType::ReassociationResponse => 3,
        FrameSubType::ProbeRequest => 4,
        FrameSubType::ProbeResponse => 5,
        FrameSubType::TimingAdvertisement => 6,
        FrameSubType::Beacon => 8,
        FrameSubType::Atim => 9,
        FrameSubType::Disassociation => 10,
        FrameSubType::Authentication => 11,
        FrameSubType::Deauthentication => 12,
        FrameSubType::Action => 13,
        FrameSubType::ActionNoAck => 14,
        FrameSubType::Trigger => 2,
        FrameSubType::Tack => 3,
        FrameSubType::BeamformingReportPoll => 4,
        FrameSubType::NdpAnnouncement => 5,
        FrameSubType::ControlFrameExtension => 6,
        FrameSubType::ControlWrapper => 7,
        FrameSubType::BlockAckRequest => 8,
        FrameSubType::BlockAck => 9,
        FrameSubType::PsPoll => 10,
        FrameSubType::Rts => 11,
        FrameSubType::Cts => 12,
        FrameSubType::Ack => 13,
        FrameSubType::CfEnd => 14,
        FrameSubType::CfEndCfAck => 15,
        FrameSubType::Data => 0,
        FrameSubType::DataCfAck => 1,
        FrameSubType::DataCfPoll => 2,
        FrameSubType::DataCfAckCfPoll => 3,
        FrameSubType::NullData => 4,
        FrameSubType::CfAck => 5,
        FrameSubType::CfPoll => 6,
        FrameSubType::CfAckCfPoll => 7,
        FrameSubType::QosData => 8,
        FrameSubType::QosDataCfAck => 9,
        FrameSubType::QosDataCfPoll => 10,
        FrameSubType::QosDataCfAckCfPoll => 11,
        FrameSubType::QosNull => 12,
        FrameSubType::QosCfPoll => 14,
        FrameSubType::QosCfAckCfPoll => 15,
        FrameSubType::DMGBeacon => 0,
        FrameSubType::S1GBeacon => 1,
        FrameSubType::Reserved(n) => n,
        FrameSubType::Unhandled(n) => n,
    }
}

/// The frame type that a subtype belongs to; `None` for the two catch-all variants.
pub open spec fn subtype_family(subtype: FrameSubType) -> Option<FrameType> {
    match subtype {
        FrameSubType::AssociationRequest
        | FrameSubType::AssociationResponse
        | FrameSubType::ReassociationRequest
        | FrameSubType::ReassociationResponse
        | FrameSubType::ProbeRequest
        | FrameSubType::ProbeResponse
        | FrameSubType::TimingAdvertisement
        | FrameSubType::Beacon
        | FrameSubType::Atim
        | FrameSubType::Disassociation
        | FrameSubType::Authentication
        | FrameSubType::Deauthentication
        | FrameSubType::Action
        | FrameSubType::ActionNoAck => Some(FrameType::Management),
        FrameSubType::Trigger
        | FrameSubType::Tack
        | FrameSubType::BeamformingReportPoll
        | FrameSubType::NdpAnnouncement
        | FrameSubType::ControlFrameExtension
        | FrameSubType::ControlWrapper
        | FrameSubType::BlockAckRequest
        | FrameSubType::BlockAck
        | FrameSubType::PsPoll
        | FrameSubType::Rts
        | FrameSubType::Cts
        | FrameSubType::Ack
        | FrameSubType::CfEnd
        | FrameSubType::CfEndCfAck => Some(FrameType::Control),
        FrameSubType::Data
        | FrameSubType::DataCfAck
        | FrameSubType::DataCfPoll
        | FrameSubType::DataCfAckCfPoll
        | FrameSubType::NullData
        | FrameSubType::CfAck
        | FrameSubType::CfPoll
        | FrameSubType::CfAckCfPoll
        | FrameSubType::QosData
        | FrameSubType::QosDataCfAck
        | FrameSubType::QosDataCfPoll
        | FrameSubType::QosDataCfAckCfPoll
        | FrameSubType::QosNull
        | FrameSubType::QosCfPoll
        | FrameSubType::QosCfAckCfPoll => Some(FrameType::Data),
        FrameSubType::DMGBeacon | FrameSubType::S1GBeacon => Some(FrameType::Extension),
        FrameSubType::Reserved(_) | FrameSubType::Unhandled(_) => None,
    }
}

/// The codes that a frame type defines but leaves unused.
pub open spec fn is_reserved_code(frame_type: FrameType, code: u8) -> bool {
    match frame_type {
        FrameType::Management => code == 7 || code == 15,
        FrameType::Control => code == 0 || code == 1,
        FrameType::Data => code == 13,
        FrameType::Extension => 2 <= code,
        FrameType::Unknown(_) => false,
    }
}

/// The subtype that a code stands for within a frame type.
///
/// A named subtype is the one of that family with that code. A code the family leaves unused
/// is `Reserved`; any code of an unknown frame type, and any code above 15, is `Unhandled`.
pub open spec fn subtype_of(frame_type: FrameType, code: u8) -> FrameSubType {
    match frame_type {
        FrameType::Management => management_subtype_of(code),
        FrameType::Control => control_subtype_of(code),
        FrameType::Data => data_subtype_of(code),
        FrameType::Extension => extension_subtype_of(code),
        FrameType::Unknown(_) => FrameSubType::Unhandled(code),
    }
}

pub open spec fn management_subtype_of(code: u8) -> FrameSubType {
    match code {
        0 => FrameSubType::AssociationRequest,
        1 => FrameSubType::AssociationResponse,
        2 => FrameSubType::ReassociationRequest,
        3 => FrameSubType::ReassociationResponse,
        4 => FrameSubType::ProbeRequest,
        5 => FrameSubType::ProbeResponse,
        6 => FrameSubType::TimingAdvertisement,
        7 => FrameSubType::Reserved(code),
        8 => FrameSubType::Beacon,
        9 => FrameSubType::Atim,
        10 => FrameSubType::Disassociation,
        11 => FrameSubType::Authentication,
        12 => FrameSubType::Deauthentication,
        13 => FrameSubType::Action,
        14 => FrameSubType::ActionNoAck,
        15 => FrameSubType::Reserved(code),
        _ => FrameSubType::Unhandled(code),
    }
}

pub open spec fn control_subtype_of(code: u8) -> FrameSubType {
    match code {
        0 => FrameSubType::Reserved(code),
        1 => FrameSubType::Reserved(code),
        2 => FrameSubType::Trigger,
        3 => FrameSubType::Tack,
        4 => FrameSubType::BeamformingReportPoll,
        5 => FrameSubType::NdpAnnouncement,
        6 => FrameSubType::ControlFrameExtension,
        7 => FrameSubType::ControlWrapper,
        8 => FrameSubType::BlockAckRequest,
        9 => FrameSubType::BlockAck,
        10 => FrameSubType::PsPoll,
        11 => FrameSubType::Rts,
        12 => FrameSubType::Cts,
        13 => FrameSubType::Ack,
        14 => FrameSubType::CfEnd,
        15 => FrameSubType::CfEndCfAck,
        _ => FrameSubType::Unhandled(code),
    }
}

pub open spec fn extension_subtype_of(code: u8) -> FrameSubType {
    match code {
        0 => FrameSubType::DMGBeacon,
        1 => FrameSubType::S1GBeacon,
        _ => FrameSubType::Reserved(code),
    }
}

pub open spec fn data_subtype_of(code: u8) -> FrameSubType {
    match code {
        0 => FrameSubType::Data,
        1 => FrameSubType::DataCfAck,
        2 => FrameSubType::DataCfPoll,
        3 => FrameSubType::DataCfAckCfPoll,
        4 => FrameSubType::NullData,
        5 => FrameSubType::CfAck,
        6 => FrameSubType::CfPoll,
        7 => FrameSubType::CfAckCfPoll,
        8 => FrameSubType::QosData,
        9 => FrameSubType::QosDataCfAck,
        10 => FrameSubType::QosDataCfPoll,
        11 => FrameSubType::QosDataCfAckCfPoll,
        12 => FrameSubType::QosNull,
        13 => FrameSubType::Reserved(code),
        14 => FrameSubType::QosCfPoll,
        15 => FrameSubType::QosCfAckCfPoll,
        _ => FrameSubType::Unhandled(code),
    }
}

/// Whether a subtype carries the two-byte QoS control field.
pub open spec fn is_qos_subtype(subtype: FrameSubType) -> bool {
    subtype_family(subtype) == Some(FrameType::Data) && subtype_code(subtype) >= 8
}

impl FrameProtocolVersion {
    /// The code of this version on the wire.
    pub fn code(&self) -> (code: u8)
        ensures
            code == protocol_version_code(*self),
    {
        match self {
            FrameProtocolVersion::PV0 => 0,
            FrameProtocolVersion::Unknown(n) => *n,
        }
    }
}

impl FrameType {
    /// The code of this frame type on the wire.
    pub fn code(&self) -> (code: u8)
        ensures
            code == frame_type_code(*self),
    {
        match self {
            FrameType::Management => 0,
            FrameType::Control => 1,
            FrameType::Data => 2,
            FrameType::Extension => 3,
            FrameType::Unknown(n) => *n,
        }
    }
}

impl FrameSubType {
    /// Whether frames of this subtype carry the QoS control field.
    pub fn is_qos(&self) -> (qos: bool)
        ensures
            qos == is_qos_subtype(*self),
    {
        match self {
            FrameSubType::QosData
            | FrameSubType::QosDataCfAck
            | FrameSubType::QosDataCfPoll
            | FrameSubType::QosDataCfAckCfPoll
            | FrameSubType::QosNull
            | FrameSubType::QosCfPoll
            | FrameSubType::QosCfAckCfPoll => true,
            _ => false,
        }
    }

    /// The code of this subtype on the wire.
    pub fn code(&self) -> (code: u8)
        ensures
            code == subtype_code(*self),
    {
        match self {
            FrameSubType::AssociationRequest | FrameSubType::Data | FrameSubType::DMGBeacon => 0,
            FrameSubType::AssociationResponse
            | FrameSubType::DataCfAck
            | FrameSubType::S1GBeacon => 1,
            FrameSubType::ReassociationRequest
            | FrameSubType::Trigger
            | FrameSubType::DataCfPoll => 2,
            FrameSubType::ReassociationResponse
            | FrameSubType::Tack
            | FrameSubType::DataCfAckCfPoll => 3,
            FrameSubType::ProbeRequest
            | FrameSubType::BeamformingReportPoll
            | FrameSubType::NullData => 4,
            FrameSubType::ProbeResponse | FrameSubType::NdpAnnouncement | FrameSubType::CfAck => 5,
            FrameSubType::TimingAdvertisement
            | FrameSubType::ControlFrameExtension
            | FrameSubType::CfPoll => 6,
            FrameSubType::ControlWrapper | FrameSubType::CfAckCfPoll => 7,
            FrameSubType::Beacon | FrameSubType::BlockAckRequest | FrameSubType::QosData => 8,
            FrameSubType::Atim | FrameSubType::BlockAck | FrameSubType::QosDataCfAck => 9,
            FrameSubType::Disassociation | FrameSubType::PsPoll | FrameSubType::QosDataCfPoll => 10,
            FrameSubType::Authentication
            | FrameSubType::Rts
            | FrameSubType::QosDataCfAckCfPoll => 11,
            FrameSubType::Deauthentication | FrameSubType::Cts | FrameSubType::QosNull => 12,
            FrameSubType::Action | FrameSubType::Ack => 13,
            FrameSubType::ActionNoAck | FrameSubType::CfEnd | FrameSubType::QosCfPoll => 14,
            FrameSubType::CfEndCfAck | FrameSubType::QosCfAckCfPoll => 15,
            FrameSubType::Reserved(n) | FrameSubType::Unhandled(n) => *n,
        }
    }
}

/// Every subtype that a table yields for a four-bit code has that code, and belongs to the
/// frame type of the table unless it is `Reserved`.
pub proof fn lemma_subtype_tables(frame_type: FrameType, code: u8)
    requires
        code < 16,
        !(frame_type is Unknown),
    ensures
        subtype_code(subtype_of(frame_type, code)) == code,
        is_reserved_code(frame_type, code) <==> subtype_of(frame_type, code)
            == FrameSubType::Reserved(code),
        !is_reserved_code(frame_type, code) ==> subtype_family(subtype_of(frame_type, code))
            == Some(frame_type),
{
}

} // verus!
