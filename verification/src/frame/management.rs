//! Management frames.

use crate::frame::components::header::{AddressRoles, ManagementHeader};
use crate::frame::components::mac_address::MacAddress;
use crate::frame::components::station_info::{StationInfo, StationInfoView};
use crate::traits::Addresses;
use crate::wire::{push_bytes, push_le_u16, push_le_u64, u16_le_bytes, u64_le_bytes};
use vstd::prelude::*;

verus! {

/// A beacon: the periodic announcement of a network.
#[derive(Clone, Debug)]
pub struct Beacon {
    pub header: ManagementHeader,
    pub timestamp: u64,
    pub beacon_interval: u16,
    pub capability_info: u16,
    pub station_info: StationInfo,
}

/// A [`Beacon`] as a mathematical value.
pub ghost struct BeaconView {
    pub header: ManagementHeader,
    pub timestamp: u64,
    pub beacon_interval: u16,
    pub capability_info: u16,
    pub station_info: StationInfoView,
}

impl View for Beacon {
    type V = BeaconView;

    open spec fn view(&self) -> BeaconView {
        BeaconView {
            header: self.header,
            timestamp: self.timestamp,
            beacon_interval: self.beacon_interval,
            capability_info: self.capability_info,
            station_info: self.station_info@,
        }
    }
}

impl BeaconView {
    /// The bytes of the frame: header, fixed fields in little-endian order, elements.
    pub open spec fn encode(self) -> Seq<u8> {
        self.header.encode_spec()
            + u64_le_bytes(self.timestamp)
            + u16_le_bytes(self.beacon_interval)
            + u16_le_bytes(self.capability_info)
            + self.station_info.encode()
    }
}

impl Beacon {
    /// The bytes of this frame on the wire.
    pub fn encode(&self) -> (bytes: Vec<u8>)
        ensures
            bytes@ == self@.encode(),
    {
        let mut bytes = self.header.encode();
        push_le_u64(&mut bytes, self.timestamp);
        push_le_u16(&mut bytes, self.beacon_interval);
        push_le_u16(&mut bytes, self.capability_info);
        let elements = self.station_info.encode();
        push_bytes(&mut bytes, elements.as_slice());
        bytes
    }
}

impl Addresses for Beacon {
    open spec fn address_roles(&self) -> AddressRoles {
        self.header.roles()
    }

    fn src(&self) -> (a: Option<&MacAddress>) {
        self.header.src()
    }

    fn dest(&self) -> (a: &MacAddress) {
        self.header.dest()
    }

    fn bssid(&self) -> (a: Option<&MacAddress>) {
        self.header.bssid()
    }
}

/// A probe request: a station asks which networks are there.
#[derive(Clone, Debug)]
pub struct ProbeRequest {
    pub header: ManagementHeader,
    pub station_info: StationInfo,
}

/// A [`ProbeRequest`] as a mathematical value.
pub ghost struct ProbeRequestView {
    pub header: ManagementHeader,
    pub station_info: StationInfoView,
}

impl View for ProbeRequest {
    type V = ProbeRequestView;

    open spec fn view(&self) -> ProbeRequestView {
        ProbeRequestView {
            header: self.header,
            station_info: self.station_info@,
        }
    }
}

impl ProbeRequestView {
    /// The bytes of the frame: header, fixed fields in little-endian order, elements.
    pub open spec fn encode(self) -> Seq<u8> {
        self.header.encode_spec() + self.station_info.encode()
    }
}

impl ProbeRequest {
    /// The bytes of this frame on the wire.
    pub fn encode(&self) -> (bytes: Vec<u8>)
        ensures
            bytes@ == self@.encode(),
    {
        let mut bytes = self.header.encode();
        let elements = self.station_info.encode();
        push_bytes(&mut bytes, elements.as_slice());
        bytes
    }
}

impl Addresses for ProbeRequest {
    open spec fn address_roles(&self) -> AddressRoles {
        self.header.roles()
    }

    fn src(&self) -> (a: Option<&MacAddress>) {
        self.header.src()
    }

    fn dest(&self) -> (a: &MacAddress) {
        self.header.dest()
    }

    fn bssid(&self) -> (a: Option<&MacAddress>) {
        self.header.bssid()
    }
}

/// A probe response: the answer of a network to a probe request.
#[derive(Clone, Debug)]
pub struct ProbeResponse {
    pub header: ManagementHeader,
    pub timestamp: u64,
    pub beacon_interval: u16,
    pub capability_info: u16,
    pub station_info: StationInfo,
}

/// A [`ProbeResponse`] as a mathematical value.
pub ghost struct ProbeResponseView {
    pub header: ManagementHeader,
    pub timestamp: u64,
    pub beacon_interval: u16,
    pub capability_info: u16,
    pub station_info: StationInfoView,
}

impl View for ProbeResponse {
    type V = ProbeResponseView;

    open spec fn view(&self) -> ProbeResponseView {
        ProbeResponseView {
            header: self.header,
            timestamp: self.timestamp,
            beacon_interval: self.beacon_interval,
            capability_info: self.capability_info,
            station_info: self.station_info@,
        }
    }
}

impl ProbeResponseView {
    /// The bytes of the frame: header, fixed fields in little-endian order, elements.
    pub open spec fn encode(self) -> Seq<u8> {
        self.header.encode_spec()
            + u64_le_bytes(self.timestamp)
            + u16_le_bytes(self.beacon_interval)
            + u16_le_bytes(self.capability_info)
            + self.station_info.encode()
    }
}

impl ProbeResponse {
    /// The bytes of this frame on the wire.
    pub fn encode(&self) -> (bytes: Vec<u8>)
        ensures
            bytes@ == self@.encode(),
    {
        let mut bytes = self.header.encode();
        push_le_u64(&mut bytes, self.timestamp);
        push_le_u16(&mut bytes, self.beacon_interval);
        push_le_u16(&mut bytes, self.capability_info);
        let elements = self.station_info.encode();
        push_bytes(&mut bytes, elements.as_slice());
        bytes
    }
}

impl Addresses for ProbeResponse {
    open spec fn address_roles(&self) -> AddressRoles {
        self.header.roles()
    }

    fn src(&self) -> (a: Option<&MacAddress>) {
        self.header.src()
    }

    fn dest(&self) -> (a: &MacAddress) {
        self.header.dest()
    }

    fn bssid(&self) -> (a: Option<&MacAddress>) {
        self.header.bssid()
    }
}

/// An association request: a station asks to join a network.
#[derive(Clone, Debug)]
pub struct AssociationRequest {
    pub header: ManagementHeader,
    pub beacon_interval: u16,
    pub capability_info: u16,
    pub station_info: StationInfo,
}

/// An [`AssociationRequest`] as a mathematical value.
pub ghost struct AssociationRequestView {
    pub header: ManagementHeader,
    pub beacon_interval: u16,
    pub capability_info: u16,
    pub station_info: StationInfoView,
}

impl View for AssociationRequest {
    type V = AssociationRequestView;

    open spec fn view(&self) -> AssociationRequestView {
        AssociationRequestView {
            header: self.header,
            beacon_interval: self.beacon_interval,
            capability_info: self.capability_info,
            station_info: self.station_info@,
        }
    }
}

impl AssociationRequestView {
    /// The bytes of the frame: header, fixed fields in little-endian order, elements.
    pub open spec fn encode(self) -> Seq<u8> {
        self.header.encode_spec()
            + u16_le_bytes(self.beacon_interval)
            + u16_le_bytes(self.capability_info)
            + self.station_info.encode()
    }
}

impl AssociationRequest {
    /// The bytes of this frame on the wire.
    pub fn encode(&self) -> (bytes: Vec<u8>)
        ensures
            bytes@ == self@.encode(),
    {
        let mut bytes = self.header.encode();
        push_le_u16(&mut bytes, self.beacon_interval);
        push_le_u16(&mut bytes, self.capability_info);
        let elements = self.station_info.encode();
        push_bytes(&mut bytes, elements.as_slice());
        bytes
    }
}

impl Addresses for AssociationRequest {
    open spec fn address_roles(&self) -> AddressRoles {
        self.header.roles()
    }

    fn src(&self) -> (a: Option<&MacAddress>) {
        self.header.src()
    }

    fn dest(&self) -> (a: &MacAddress) {
        self.header.dest()
    }

    fn bssid(&self) -> (a: Option<&MacAddress>) {
        self.header.bssid()
    }
}

/// An association response: the answer of a network to an association request.
#[derive(Clone, Debug)]
pub struct AssociationResponse {
    pub header: ManagementHeader,
    pub capability_info: u16,
    pub status_code: u16,
    pub association_id: u16,
    pub station_info: StationInfo,
}

/// An [`AssociationResponse`] as a mathematical value.
pub ghost struct AssociationResponseView {
    pub header: ManagementHeader,
    pub capability_info: u16,
    pub status_code: u16,
    pub association_id: u16,
    pub station_info: StationInfoView,
}

impl View for AssociationResponse {
    type V = AssociationResponseView;

    open spec fn view(&self) -> AssociationResponseView {
        AssociationResponseView {
            header: self.header,
            capability_info: self.capability_info,
            status_code: self.status_code,
            association_id: self.association_id,
            station_info: self.station_info@,
        }
    }
}

impl AssociationResponseView {
    /// The bytes of the frame: header, fixed fields in little-endian order, elements.
    pub open spec fn encode(self) -> Seq<u8> {
        self.header.encode_spec()
            + u16_le_bytes(self.capability_info)
            + u16_le_bytes(self.status_code)
            + u16_le_bytes(self.association_id)
            + self.station_info.encode()
    }
}

impl AssociationResponse {
    /// The bytes of this frame on the wire.
    pub fn encode(&self) -> (bytes: Vec<u8>)
        ensures
            bytes@ == self@.encode(),
    {
        let mut bytes = self.header.encode();
        push_le_u16(&mut bytes, self.capability_info);
        push_le_u16(&mut bytes, self.status_code);
        push_le_u16(&mut bytes, self.association_id);
        let elements = self.station_info.encode();
        push_bytes(&mut bytes, elements.as_slice());
        bytes
    }
}

impl Addresses for AssociationResponse {
    open spec fn address_roles(&self) -> AddressRoles {
        self.header.roles()
    }

    fn src(&self) -> (a: Option<&MacAddress>) {
        self.header.src()
    }

    fn dest(&self) -> (a: &MacAddress) {
        self.header.dest()
    }

    fn bssid(&self) -> (a: Option<&MacAddress>) {
        self.header.bssid()
    }
}

/// A reassociation request. Its body has the layout of an association request.
#[derive(Clone, Debug)]
pub struct ReassociationRequest {
    pub header: ManagementHeader,
    pub beacon_interval: u16,
    pub capability_info: u16,
    pub station_info: StationInfo,
}

/// A [`ReassociationRequest`] as a mathematical value.
pub ghost struct ReassociationRequestView {
    pub header: ManagementHeader,
    pub beacon_interval: u16,
    pub capability_info: u16,
    pub station_info: StationInfoView,
}

impl View for ReassociationRequest {
    type V = ReassociationRequestView;

    open spec fn view(&self) -> ReassociationRequestView {
        ReassociationRequestView {
            header: self.header,
            beacon_interval: self.beacon_interval,
            capability_info: self.capability_info,
            station_info: self.station_info@,
        }
    }
}

impl ReassociationRequestView {
    /// The bytes of the frame: header, fixed fields in little-endian order, elements.
    pub open spec fn encode(self) -> Seq<u8> {
        self.header.encode_spec()
            + u16_le_bytes(self.beacon_interval)
            + u16_le_bytes(self.capability_info)
            + self.station_info.encode()
    }
}

impl ReassociationRequest {
    /// The bytes of this frame on the wire.
    pub fn encode(&self) -> (bytes: Vec<u8>)
        ensures
            bytes@ == self@.encode(),
    {
        let mut bytes = self.header.encode();
        push_le_u16(&mut bytes, self.beacon_interval);
        push_le_u16(&mut bytes, self.capability_info);
        let elements = self.station_info.encode();
        push_bytes(&mut bytes, elements.as_slice());
        bytes
    }
}

impl Addresses for ReassociationRequest {
    open spec fn address_roles(&self) -> AddressRoles {
        self.header.roles()
    }

    fn src(&self) -> (a: Option<&MacAddress>) {
        self.header.src()
    }

    fn dest(&self) -> (a: &MacAddress) {
        self.header.dest()
    }

    fn bssid(&self) -> (a: Option<&MacAddress>) {
        self.header.bssid()
    }
}

/// A reassociation response. Its body has the layout of an association response.
#[derive(Clone, Debug)]
pub struct ReassociationResponse {
    pub header: ManagementHeader,
    pub capability_info: u16,
    pub status_code: u16,
    pub association_id: u16,
    pub station_info: StationInfo,
}

/// A [`ReassociationResponse`] as a mathematical value.
pub ghost struct ReassociationResponseView {
    pub header: ManagementHeader,
    pub capability_info: u16,
    pub status_code: u16,
    pub association_id: u16,
    pub station_info: StationInfoView,
}

impl View for ReassociationResponse {
    type V = ReassociationResponseView;

    open spec fn view(&self) -> ReassociationResponseView {
        ReassociationResponseView {
            header: self.header,
            capability_info: self.capability_info,
            status_code: self.status_code,
            association_id: self.association_id,
            station_info: self.station_info@,
        }
    }
}

impl ReassociationResponseView {
    /// The bytes of the frame: header, fixed fields in little-endian order, elements.
    pub open spec fn encode(self) -> Seq<u8> {
        self.header.encode_spec()
            + u16_le_bytes(self.capability_info)
            + u16_le_bytes(self.status_code)
            + u16_le_bytes(self.association_id)
            + self.station_info.encode()
    }
}

impl ReassociationResponse {
    /// The bytes of this frame on the wire.
    pub fn encode(&self) -> (bytes: Vec<u8>)
        ensures
            bytes@ == self@.encode(),
    {
        let mut bytes = self.header.encode();
        push_le_u16(&mut bytes, self.capability_info);
        push_le_u16(&mut bytes, self.status_code);
        push_le_u16(&mut bytes, self.association_id);
        let elements = self.station_info.encode();
        push_bytes(&mut bytes, elements.as_slice());
        bytes
    }
}

impl Addresses for ReassociationResponse {
    open spec fn address_roles(&self) -> AddressRoles {
        self.header.roles()
    }

    fn src(&self) -> (a: Option<&MacAddress>) {
        self.header.src()
    }

    fn dest(&self) -> (a: &MacAddress) {
        self.header.dest()
    }

    fn bssid(&self) -> (a: Option<&MacAddress>) {
        self.header.bssid()
    }
}

/// An authentication frame: one step of the authentication of a station.
#[derive(Clone, Debug)]
pub struct Authentication {
    pub header: ManagementHeader,
    pub auth_algorithm: u16,
    pub auth_seq: u16,
    pub status_code: u16,
    pub station_info: StationInfo,
}

/// An [`Authentication`] as a mathematical value.
pub ghost struct AuthenticationView {
    pub header: ManagementHeader,
    pub auth_algorithm: u16,
    pub auth_seq: u16,
    pub status_code: u16,
    pub station_info: StationInfoView,
}

impl View for Authentication {
    type V = AuthenticationView;

    open spec fn view(&self) -> AuthenticationView {
        AuthenticationView {
            header: self.header,
            auth_algorithm: self.auth_algorithm,
            auth_seq: self.auth_seq,
            status_code: self.status_code,
            station_info: self.station_info@,
        }
    }
}

impl AuthenticationView {
    /// The bytes of the frame: header, fixed fields in little-endian order, elements.
    pub open spec fn encode(self) -> Seq<u8> {
        self.header.encode_spec()
            + u16_le_bytes(self.auth_algorithm)
            + u16_le_bytes(self.auth_seq)
            + u16_le_bytes(self.status_code)
            + self.station_info.encode()
    }
}

impl Authentication {
    /// The bytes of this frame on the wire.
    pub fn encode(&self) -> (bytes: Vec<u8>)
        ensures
            bytes@ == self@.encode(),
    {
        let mut bytes = self.header.encode();
        push_le_u16(&mut bytes, self.auth_algorithm);
        push_le_u16(&mut bytes, self.auth_seq);
        push_le_u16(&mut bytes, self.status_code);
        let elements = self.station_info.encode();
        push_bytes(&mut bytes, elements.as_slice());
        bytes
    }
}

impl Addresses for Authentication {
    open spec fn address_roles(&self) -> AddressRoles {
        self.header.roles()
    }

    fn src(&self) -> (a: Option<&MacAddress>) {
        self.header.src()
    }

    fn dest(&self) -> (a: &MacAddress) {
        self.header.dest()
    }

    fn bssid(&self) -> (a: Option<&MacAddress>) {
        self.header.bssid()
    }
}

/// A deauthentication: the end of an authentication, with its reason.
#[derive(Clone, Copy, Debug)]
pub struct Deauthentication {
    pub header: ManagementHeader,
    pub reason_code: u16,
}

impl Deauthentication {
    /// The bytes of the frame: header, fixed fields in little-endian order.
    pub open spec fn encode_spec(self) -> Seq<u8> {
        self.header.encode_spec() + u16_le_bytes(self.reason_code)
    }
}

impl Deauthentication {
    /// The bytes of this frame on the wire.
    pub fn encode(&self) -> (bytes: Vec<u8>)
        ensures
            bytes@ == self.encode_spec(),
    {
        let mut bytes = self.header.encode();
        push_le_u16(&mut bytes, self.reason_code);
        bytes
    }
}

impl Addresses for Deauthentication {
    open spec fn address_roles(&self) -> AddressRoles {
        self.header.roles()
    }

    fn src(&self) -> (a: Option<&MacAddress>) {
        self.header.src()
    }

    fn dest(&self) -> (a: &MacAddress) {
        self.header.dest()
    }

    fn bssid(&self) -> (a: Option<&MacAddress>) {
        self.header.bssid()
    }
}

/// A disassociation: the end of an association, with its reason.
#[derive(Clone, Copy, Debug)]
pub struct Disassociation {
    pub header: ManagementHeader,
    pub reason_code: u16,
}

impl Disassociation {
    /// The bytes of the frame: header, fixed fields in little-endian order.
    pub open spec fn encode_spec(self) -> Seq<u8> {
        self.header.encode_spec() + u16_le_bytes(self.reason_code)
    }
}

impl Disassociation {
    /// The bytes of this frame on the wire.
    pub fn encode(&self) -> (bytes: Vec<u8>)
        ensures
            bytes@ == self.encode_spec(),
    {
        let mut bytes = self.header.encode();
        push_le_u16(&mut bytes, self.reason_code);
        bytes
    }
}

impl Addresses for Disassociation {
    open spec fn address_roles(&self) -> AddressRoles {
        self.header.roles()
    }

    fn src(&self) -> (a: Option<&MacAddress>) {
        self.header.src()
    }

    fn dest(&self) -> (a: &MacAddress) {
        self.header.dest()
    }

    fn bssid(&self) -> (a: Option<&MacAddress>) {
        self.header.bssid()
    }
}

/// An action frame: a category and the body that belongs to it.
#[derive(Clone, Debug)]
pub struct Action {
    pub header: ManagementHeader,
    pub category: u8,
    pub body: Vec<u8>,
}

/// An [`Action`] as a mathematical value.
pub ghost struct ActionView {
    pub header: ManagementHeader,
    pub category: u8,
    pub body: Seq<u8>,
}

impl View for Action {
    type V = ActionView;

    open spec fn view(&self) -> ActionView {
        ActionView { header: self.header, category: self.category, body: self.body@ }
    }
}

impl ActionView {
    /// The bytes of the frame: header, category, body.
    pub open spec fn encode(self) -> Seq<u8> {
        self.header.encode_spec() + seq![self.category] + self.body
    }
}

impl Action {
    /// The bytes of this frame on the wire.
    pub fn encode(&self) -> (bytes: Vec<u8>)
        ensures
            bytes@ == self@.encode(),
    {
        let mut bytes = self.header.encode();
        let ghost head = bytes@;
        bytes.push(self.category);
        assert(bytes@ =~= head + seq![self.category]);
        push_bytes(&mut bytes, self.body.as_slice());
        bytes
    }
}

impl Addresses for Action {
    open spec fn address_roles(&self) -> AddressRoles {
        self.header.roles()
    }

    fn src(&self) -> (a: Option<&MacAddress>) {
        self.header.src()
    }

    fn dest(&self) -> (a: &MacAddress) {
        self.header.dest()
    }

    fn bssid(&self) -> (a: Option<&MacAddress>) {
        self.header.bssid()
    }
}

} // verus!
