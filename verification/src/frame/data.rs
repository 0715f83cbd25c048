//! Data frames.

use crate::frame::components::header::{AddressRoles, DataHeader};
use crate::frame::components::mac_address::MacAddress;
use crate::traits::Addresses;
use crate::wire::push_bytes;
use vstd::prelude::*;

verus! {

/// A data frame: the header and the payload.
#[derive(Clone, Debug)]
pub struct Data {
    pub header: DataHeader,
    pub data: Vec<u8>,
}

/// A data frame without payload, by which a station tells of its power state.
#[derive(Clone, Copy, Debug)]
pub struct NullData {
    pub header: DataHeader,
}

/// A data frame with quality of service: the header, with its QoS field, and the payload.
#[derive(Clone, Debug)]
pub struct QosData {
    pub header: DataHeader,
    pub data: Vec<u8>,
}

/// A data frame with quality of service and without payload.
#[derive(Clone, Copy, Debug)]
pub struct QosNull {
    pub header: DataHeader,
}

/// A data frame with payload as a mathematical value.
pub ghost struct DataView {
    pub header: DataHeader,
    pub data: Seq<u8>,
}

impl View for Data {
    type V = DataView;

    open spec fn view(&self) -> DataView {
        DataView { header: self.header, data: self.data@ }
    }
}

impl View for QosData {
    type V = DataView;

    open spec fn view(&self) -> DataView {
        DataView { header: self.header, data: self.data@ }
    }
}

impl DataView {
    /// The bytes of the frame: header, payload.
    pub open spec fn encode(self) -> Seq<u8> {
        self.header.encode_spec() + self.data
    }
}

impl Data {
    /// The bytes of this frame on the wire.
    pub fn encode(&self) -> (bytes: Vec<u8>)
        ensures
            bytes@ == self@.encode(),
    {
        let mut bytes = self.header.encode();
        push_bytes(&mut bytes, self.data.as_slice());
        bytes
    }
}

impl QosData {
    /// The bytes of this frame on the wire.
    pub fn encode(&self) -> (bytes: Vec<u8>)
        ensures
            bytes@ == self@.encode(),
    {
        let mut bytes = self.header.encode();
        push_bytes(&mut bytes, self.data.as_slice());
        bytes
    }
}

impl NullData {
    /// The bytes of this frame on the wire: the header.
    pub fn encode(&self) -> (bytes: Vec<u8>)
        ensures
            bytes@ == self.header.encode_spec(),
    {
        self.header.encode()
    }
}

impl QosNull {
    /// The bytes of this frame on the wire: the header.
    pub fn encode(&self) -> (bytes: Vec<u8>)
        ensures
            bytes@ == self.header.encode_spec(),
    {
        self.header.encode()
    }
}

impl Addresses for Data {
    open spec fn address_roles(&self) -> AddressRoles {
        self.header.roles()
    }

    fn src(&self) -> (a: Option<&MacAddress>) {
        self.header.src()
    }

    fn dest(&self) -> (a: &MacAddress) {
        self.header.dest()
    }

    fn bssid(&self) -> (a: Option<&MacAddress>) {
        self.header.bssid()
    }
}

impl Addresses for NullData {
    open spec fn address_roles(&self) -> AddressRoles {
        self.header.roles()
    }

    fn src(&self) -> (a: Option<&MacAddress>) {
        self.header.src()
    }

    fn dest(&self) -> (a: &MacAddress) {
        self.header.dest()
    }

    fn bssid(&self) -> (a: Option<&MacAddress>) {
        self.header.bssid()
    }
}

impl Addresses for QosData {
    open spec fn address_roles(&self) -> AddressRoles {
        self.header.roles()
    }

    fn src(&self) -> (a: Option<&MacAddress>) {
        self.header.src()
    }

    fn dest(&self) -> (a: &MacAddress) {
        self.header.dest()
    }

    fn bssid(&self) -> (a: Option<&MacAddress>) {
        self.header.bssid()
    }
}

impl Addresses for QosNull {
    open spec fn address_roles(&self) -> AddressRoles {
        self.header.roles()
    }

    fn src(&self) -> (a: Option<&MacAddress>) {
        self.header.src()
    }

    fn dest(&self) -> (a: &MacAddress) {
        self.header.dest()
    }

    fn bssid(&self) -> (a: Option<&MacAddress>) {
        self.header.bssid()
    }
}

} // verus!
