//! The frames that the decoder produces, one structure per subtype.

pub mod components;
pub mod control;
pub mod data;
pub mod management;

pub use control::{Ack, BlockAck, BlockAckInfo, BlockAckMode, BlockAckRequest, Cts, Rts};
pub use data::{Data, NullData, QosData, QosNull};
pub use management::{
    Action, AssociationRequest, AssociationResponse, Authentication, Beacon, Deauthentication,
    Disassociation, ProbeRequest, ProbeResponse, ReassociationRequest, ReassociationResponse,
};

use crate::frame::components::header::AddressRoles;
use crate::frame::components::mac_address::MacAddress;
use crate::frame::control::{BlockAckRequestView, BlockAckView};
use crate::frame::data::DataView;
use crate::frame::management::{
    ActionView, AssociationRequestView, AssociationResponseView, AuthenticationView, BeaconView,
    ProbeRequestView, ProbeResponseView, ReassociationRequestView, ReassociationResponseView,
};
use crate::traits::Addresses;
use vstd::prelude::*;

verus! {

/// Every frame that the decoder can produce.
#[derive(Clone, Debug)]
pub enum Frame {
    // Management frames
    Beacon(Beacon),
    ProbeRequest(ProbeRequest),
    ProbeResponse(ProbeResponse),
    AssociationRequest(AssociationRequest),
    AssociationResponse(AssociationResponse),
    ReassociationRequest(ReassociationRequest),
    ReassociationResponse(ReassociationResponse),
    Authentication(Authentication),
    Deauthentication(Deauthentication),
    Disassociation(Disassociation),
    Action(Action),
    ActionNoAck(Action),
    // Control frames
    Rts(Rts),
    Cts(Cts),
    Ack(Ack),
    BlockAckRequest(BlockAckRequest),
    BlockAck(BlockAck),
    // Data frames
    Data(Data),
    NullData(NullData),
    QosData(QosData),
    QosNull(QosNull),
}

/// A [`Frame`] as a mathematical value.
pub ghost enum FrameView {
    Beacon(BeaconView),
    ProbeRequest(ProbeRequestView),
    ProbeResponse(ProbeResponseView),
    AssociationRequest(AssociationRequestView),
    AssociationResponse(AssociationResponseView),
    ReassociationRequest(ReassociationRequestView),
    ReassociationResponse(ReassociationResponseView),
    Authentication(AuthenticationView),
    Deauthentication(Deauthentication),
    Disassociation(Disassociation),
    Action(ActionView),
    ActionNoAck(ActionView),
    Rts(Rts),
    Cts(Cts),
    Ack(Ack),
    BlockAckRequest(BlockAckRequestView),
    BlockAck(BlockAckView),
    Data(DataView),
    NullData(NullData),
    QosData(DataView),
    QosNull(QosNull),
}

impl View for Frame {
    type V = FrameView;

    open spec fn view(&self) -> FrameView {
        match self {
            Frame::Beacon(f) => FrameView::Beacon(f@),
            Frame::ProbeRequest(f) => FrameView::ProbeRequest(f@),
            Frame::ProbeResponse(f) => FrameView::ProbeResponse(f@),
            Frame::AssociationRequest(f) => FrameView::AssociationRequest(f@),
            Frame::AssociationResponse(f) => FrameView::AssociationResponse(f@),
            Frame::ReassociationRequest(f) => FrameView::ReassociationRequest(f@),
            Frame::ReassociationResponse(f) => FrameView::ReassociationResponse(f@),
            Frame::Authentication(f) => FrameView::Authentication(f@),
            Frame::Deauthentication(f) => FrameView::Deauthentication(*f),
            Frame::Disassociation(f) => FrameView::Disassociation(*f),
            Frame::Action(f) => FrameView::Action(f@),
            Frame::ActionNoAck(f) => FrameView::ActionNoAck(f@),
            Frame::Rts(f) => FrameView::Rts(*f),
            Frame::Cts(f) => FrameView::Cts(*f),
            Frame::Ack(f) => FrameView::Ack(*f),
            Frame::BlockAckRequest(f) => FrameView::BlockAckRequest(f@),
            Frame::BlockAck(f) => FrameView::BlockAck(f@),
            Frame::Data(f) => FrameView::Data(f@),
            Frame::NullData(f) => FrameView::NullData(*f),
            Frame::QosData(f) => FrameView::QosData(f@),
            Frame::QosNull(f) => FrameView::QosNull(*f),
        }
    }
}

impl FrameView {
    /// The subtype that frames of this kind have.
    pub open spec fn subtype(self) -> crate::frame_types::FrameSubType {
        match self {
            FrameView::Beacon(_) => crate::frame_types::FrameSubType::Beacon,
            FrameView::ProbeRequest(_) => crate::frame_types::FrameSubType::ProbeRequest,
            FrameView::ProbeResponse(_) => crate::frame_types::FrameSubType::ProbeResponse,
            FrameView::AssociationRequest(_) =>
                crate::frame_types::FrameSubType::AssociationRequest,
            FrameView::AssociationResponse(_) =>
                crate::frame_types::FrameSubType::AssociationResponse,
            FrameView::ReassociationRequest(_) =>
                crate::frame_types::FrameSubType::ReassociationRequest,
            FrameView::ReassociationResponse(_) =>
                crate::frame_types::FrameSubType::ReassociationResponse,
            FrameView::Authentication(_) => crate::frame_types::FrameSubType::Authentication,
            FrameView::Deauthentication(_) => crate::frame_types::FrameSubType::Deauthentication,
            FrameView::Disassociation(_) => crate::frame_types::FrameSubType::Disassociation,
            FrameView::Action(_) => crate::frame_types::FrameSubType::Action,
            FrameView::ActionNoAck(_) => crate::frame_types::FrameSubType::ActionNoAck,
            FrameView::Rts(_) => crate::frame_types::FrameSubType::Rts,
            FrameView::Cts(_) => crate::frame_types::FrameSubType::Cts,
            FrameView::Ack(_) => crate::frame_types::FrameSubType::Ack,
            FrameView::BlockAckRequest(_) => crate::frame_types::FrameSubType::BlockAckRequest,
            FrameView::BlockAck(_) => crate::frame_types::FrameSubType::BlockAck,
            FrameView::Data(_) => crate::frame_types::FrameSubType::Data,
            FrameView::NullData(_) => crate::frame_types::FrameSubType::NullData,
            FrameView::QosData(_) => crate::frame_types::FrameSubType::QosData,
            FrameView::QosNull(_) => crate::frame_types::FrameSubType::QosNull,
        }
    }

    /// The frame control of this frame.
    pub open spec fn frame_control(self) -> crate::frame::components::FrameControl {
        match self {
            FrameView::Beacon(f) => f.header.frame_control,
            FrameView::ProbeRequest(f) => f.header.frame_control,
            FrameView::ProbeResponse(f) => f.header.frame_control,
            FrameView::AssociationRequest(f) => f.header.frame_control,
            FrameView::AssociationResponse(f) => f.header.frame_control,
            FrameView::ReassociationRequest(f) => f.header.frame_control,
            FrameView::ReassociationResponse(f) => f.header.frame_control,
            FrameView::Authentication(f) => f.header.frame_control,
            FrameView::Deauthentication(f) => f.header.frame_control,
            FrameView::Disassociation(f) => f.header.frame_control,
            FrameView::Action(f) => f.header.frame_control,
            FrameView::ActionNoAck(f) => f.header.frame_control,
            FrameView::Rts(f) => f.frame_control,
            FrameView::Cts(f) => f.frame_control,
            FrameView::Ack(f) => f.frame_control,
            FrameView::BlockAckRequest(f) => f.frame_control,
            FrameView::BlockAck(f) => f.frame_control,
            FrameView::Data(f) => f.header.frame_control,
            FrameView::NullData(f) => f.header.frame_control,
            FrameView::QosData(f) => f.header.frame_control,
            FrameView::QosNull(f) => f.header.frame_control,
        }
    }

    /// A frame as the decoder produces it: its frame control is well formed, and so is its
    /// header, where it has one; the entries of a block acknowledgement are what its mode
    /// allows. Every sequence control in it is within range.
    pub open spec fn wf(self) -> bool {
        match self {
            FrameView::Beacon(f) => f.header.wf(),
            FrameView::ProbeRequest(f) => f.header.wf(),
            FrameView::ProbeResponse(f) => f.header.wf(),
            FrameView::AssociationRequest(f) => f.header.wf(),
            FrameView::AssociationResponse(f) => f.header.wf(),
            FrameView::ReassociationRequest(f) => f.header.wf(),
            FrameView::ReassociationResponse(f) => f.header.wf(),
            FrameView::Authentication(f) => f.header.wf(),
            FrameView::Deauthentication(f) => f.header.wf(),
            FrameView::Disassociation(f) => f.header.wf(),
            FrameView::Action(f) => f.header.wf(),
            FrameView::ActionNoAck(f) => f.header.wf(),
            FrameView::Rts(f) => f.frame_control.wf(),
            FrameView::Cts(f) => f.frame_control.wf(),
            FrameView::Ack(f) => f.frame_control.wf(),
            FrameView::BlockAckRequest(f) => f.frame_control.wf() && f.entries_wf(),
            FrameView::BlockAck(f) => f.frame_control.wf() && f.entries_wf(),
            FrameView::Data(f) => f.header.wf(),
            FrameView::NullData(f) => f.header.wf(),
            FrameView::QosData(f) => f.header.wf(),
            FrameView::QosNull(f) => f.header.wf(),
        }
    }

    /// A frame that comes back from its own bytes: it is well formed, its frame control
    /// has the subtype of its kind, its elements are canonical, and the entries of a block
    /// acknowledgement are what its mode allows.
    pub open spec fn canonical(self) -> bool {
        &&& self.wf()
        &&& self.frame_control().frame_subtype == self.subtype()
        &&& match self {
            FrameView::Beacon(f) => f.station_info.canonical(),
            FrameView::ProbeRequest(f) => f.station_info.canonical(),
            FrameView::ProbeResponse(f) => f.station_info.canonical(),
            FrameView::AssociationRequest(f) => f.station_info.canonical(),
            FrameView::AssociationResponse(f) => f.station_info.canonical(),
            FrameView::ReassociationRequest(f) => f.station_info.canonical(),
            FrameView::ReassociationResponse(f) => f.station_info.canonical(),
            FrameView::Authentication(f) => f.station_info.canonical(),
            _ => true,
        }
    }

    /// The roles of the addresses of this frame.
    pub open spec fn roles(self) -> AddressRoles {
        match self {
            FrameView::Beacon(f) => f.header.roles(),
            FrameView::ProbeRequest(f) => f.header.roles(),
            FrameView::ProbeResponse(f) => f.header.roles(),
            FrameView::AssociationRequest(f) => f.header.roles(),
            FrameView::AssociationResponse(f) => f.header.roles(),
            FrameView::ReassociationRequest(f) => f.header.roles(),
            FrameView::ReassociationResponse(f) => f.header.roles(),
            FrameView::Authentication(f) => f.header.roles(),
            FrameView::Deauthentication(f) => f.header.roles(),
            FrameView::Disassociation(f) => f.header.roles(),
            FrameView::Action(f) => f.header.roles(),
            FrameView::ActionNoAck(f) => f.header.roles(),
            FrameView::Rts(f) => f.address_roles(),
            FrameView::Cts(f) => f.address_roles(),
            FrameView::Ack(f) => f.address_roles(),
            FrameView::BlockAckRequest(f) => crate::frame::control::control_roles(
                Some(f.source),
                f.destination,
            ),
            FrameView::BlockAck(f) => crate::frame::control::control_roles(
                Some(f.source),
                f.destination,
            ),
            FrameView::Data(f) => f.header.roles(),
            FrameView::NullData(f) => f.header.roles(),
            FrameView::QosData(f) => f.header.roles(),
            FrameView::QosNull(f) => f.header.roles(),
        }
    }

    /// The bytes of this frame on the wire.
    pub open spec fn encode(self) -> Seq<u8> {
        match self {
            FrameView::Beacon(f) => f.encode(),
            FrameView::ProbeRequest(f) => f.encode(),
            FrameView::ProbeResponse(f) => f.encode(),
            FrameView::AssociationRequest(f) => f.encode(),
            FrameView::AssociationResponse(f) => f.encode(),
            FrameView::ReassociationRequest(f) => f.encode(),
            FrameView::ReassociationResponse(f) => f.encode(),
            FrameView::Authentication(f) => f.encode(),
            FrameView::Deauthentication(f) => f.encode_spec(),
            FrameView::Disassociation(f) => f.encode_spec(),
            FrameView::Action(f) => f.encode(),
            FrameView::ActionNoAck(f) => f.encode(),
            FrameView::Rts(f) => f.encode_spec(),
            FrameView::Cts(f) => f.encode_spec(),
            FrameView::Ack(f) => f.encode_spec(),
            FrameView::BlockAckRequest(f) => f.encode(),
            FrameView::BlockAck(f) => f.encode(),
            FrameView::Data(f) => f.encode(),
            FrameView::NullData(f) => f.header.encode_spec(),
            FrameView::QosData(f) => f.encode(),
            FrameView::QosNull(f) => f.header.encode_spec(),
        }
    }
}

impl Frame {
    /// The bytes of this frame on the wire.
    pub fn encode(&self) -> (bytes: Vec<u8>)
        ensures
            bytes@ == self@.encode(),
    {
        match self {
            Frame::Beacon(f) => f.encode(),
            Frame::ProbeRequest(f) => f.encode(),
            Frame::ProbeResponse(f) => f.encode(),
            Frame::AssociationRequest(f) => f.encode(),
            Frame::AssociationResponse(f) => f.encode(),
            Frame::ReassociationRequest(f) => f.encode(),
            Frame::ReassociationResponse(f) => f.encode(),
            Frame::Authentication(f) => f.encode(),
            Frame::Deauthentication(f) => f.encode(),
            Frame::Disassociation(f) => f.encode(),
            Frame::Action(f) => f.encode(),
            Frame::ActionNoAck(f) => f.encode(),
            Frame::Rts(f) => f.encode(),
            Frame::Cts(f) => f.encode(),
            Frame::Ack(f) => f.encode(),
            Frame::BlockAckRequest(f) => f.encode(),
            Frame::BlockAck(f) => f.encode(),
            Frame::Data(f) => f.encode(),
            Frame::NullData(f) => f.encode(),
            Frame::QosData(f) => f.encode(),
            Frame::QosNull(f) => f.encode(),
        }
    }
}

impl Addresses for Frame {
    open spec fn address_roles(&self) -> AddressRoles {
        self@.roles()
    }

    fn src(&self) -> (a: Option<&MacAddress>) {
        match self {
            Frame::Beacon(f) => f.src(),
            Frame::ProbeRequest(f) => f.src(),
            Frame::ProbeResponse(f) => f.src(),
            Frame::AssociationRequest(f) => f.src(),
            Frame::AssociationResponse(f) => f.src(),
            Frame::ReassociationRequest(f) => f.src(),
            Frame::ReassociationResponse(f) => f.src(),
            Frame::Authentication(f) => f.src(),
            Frame::Deauthentication(f) => f.src(),
            Frame::Disassociation(f) => f.src(),
            Frame::Action(f) => f.src(),
            Frame::ActionNoAck(f) => f.src(),
            Frame::Rts(f) => f.src(),
            Frame::Cts(f) => f.src(),
            Frame::Ack(f) => f.src(),
            Frame::BlockAckRequest(f) => f.src(),
            Frame::BlockAck(f) => f.src(),
            Frame::Data(f) => f.src(),
            Frame::NullData(f) => f.src(),
            Frame::QosData(f) => f.src(),
            Frame::QosNull(f) => f.src(),
        }
    }

    fn dest(&self) -> (a: &MacAddress) {
        match self {
            Frame::Beacon(f) => f.dest(),
            Frame::ProbeRequest(f) => f.dest(),
            Frame::ProbeResponse(f) => f.dest(),
            Frame::AssociationRequest(f) => f.dest(),
            Frame::AssociationResponse(f) => f.dest(),
            Frame::ReassociationRequest(f) => f.dest(),
            Frame::ReassociationResponse(f) => f.dest(),
            Frame::Authentication(f) => f.dest(),
            Frame::Deauthentication(f) => f.dest(),
            Frame::Disassociation(f) => f.dest(),
            Frame::Action(f) => f.dest(),
            Frame::ActionNoAck(f) => f.dest(),
            Frame::Rts(f) => f.dest(),
            Frame::Cts(f) => f.dest(),
            Frame::Ack(f) => f.dest(),
            Frame::BlockAckRequest(f) => f.dest(),
            Frame::BlockAck(f) => f.dest(),
            Frame::Data(f) => f.dest(),
            Frame::NullData(f) => f.dest(),
            Frame::QosData(f) => f.dest(),
            Frame::QosNull(f) => f.dest(),
        }
    }

    fn bssid(&self) -> (a: Option<&MacAddress>) {
        match self {
            Frame::Beacon(f) => f.bssid(),
            Frame::ProbeRequest(f) => f.bssid(),
            Frame::ProbeResponse(f) => f.bssid(),
            Frame::AssociationRequest(f) => f.bssid(),
            Frame::AssociationResponse(f) => f.bssid(),
            Frame::ReassociationRequest(f) => f.bssid(),
            Frame::ReassociationResponse(f) => f.bssid(),
            Frame::Authentication(f) => f.bssid(),
            Frame::Deauthentication(f) => f.bssid(),
            Frame::Disassociation(f) => f.bssid(),
            Frame::Action(f) => f.bssid(),
            Frame::ActionNoAck(f) => f.bssid(),
            Frame::Rts(f) => f.bssid(),
            Frame::Cts(f) => f.bssid(),
            Frame::Ack(f) => f.bssid(),
            Frame::BlockAckRequest(f) => f.bssid(),
            Frame::BlockAck(f) => f.bssid(),
            Frame::Data(f) => f.bssid(),
            Frame::NullData(f) => f.bssid(),
            Frame::QosData(f) => f.bssid(),
            Frame::QosNull(f) => f.bssid(),
        }
    }
}

} // verus!
