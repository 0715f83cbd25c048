//! The headers of management and data frames, and the addresses they resolve to.

use super::frame_control::FrameControl;
use super::mac_address::MacAddress;
use super::sequence_control::SequenceControl;
use crate::frame_types::is_qos_subtype;
use crate::traits::Addresses;
use crate::wire::push_bytes;
use vstd::prelude::*;

verus! {

/// The header of every management frame: 24 bytes, the frame control included.
#[derive(Copy, Clone, Debug)]
pub struct ManagementHeader {
    pub frame_control: FrameControl,
    pub duration: [u8; 2],
    pub address_1: MacAddress,
    pub address_2: MacAddress,
    pub address_3: MacAddress,
    pub sequence_control: SequenceControl,
}

/// The header of every data frame: the fields of a management header, then a fourth
/// address when the frame travels between access points, then the QoS control field when
/// the subtype is a QoS subtype.
#[derive(Copy, Clone, Debug)]
pub struct DataHeader {
    pub frame_control: FrameControl,
    pub duration: [u8; 2],
    pub address_1: MacAddress,
    pub address_2: MacAddress,
    pub address_3: MacAddress,
    pub sequence_control: SequenceControl,
    pub address_4: Option<MacAddress>,
    pub qos: Option<[u8; 2]>,
}

/// The three roles that the address slots of a frame resolve to.
pub ghost struct AddressRoles {
    pub src: Option<MacAddress>,
    pub dest: MacAddress,
    pub bssid: Option<MacAddress>,
}

/// The address table of data frames, by the `to_ds` and `from_ds` flags.
pub open spec fn data_roles(
    to_ds: bool,
    from_ds: bool,
    a1: MacAddress,
    a2: MacAddress,
    a3: MacAddress,
    a4: Option<MacAddress>,
) -> AddressRoles {
    if to_ds && from_ds {
        AddressRoles { src: a4, dest: a3, bssid: None }
    } else if to_ds {
        AddressRoles { src: Some(a2), dest: a3, bssid: Some(a1) }
    } else if from_ds {
        AddressRoles { src: Some(a3), dest: a1, bssid: Some(a2) }
    } else {
        AddressRoles { src: Some(a2), dest: a1, bssid: Some(a3) }
    }
}

/// The address table of management frames. It is the table of data frames, but for frames
/// with both flags set: a management frame has no fourth address, and the third address
/// stands for both ends while the first names the network.
pub open spec fn management_roles(
    to_ds: bool,
    from_ds: bool,
    a1: MacAddress,
    a2: MacAddress,
    a3: MacAddress,
) -> AddressRoles {
    if to_ds && from_ds {
        AddressRoles { src: Some(a3), dest: a3, bssid: Some(a1) }
    } else {
        data_roles(to_ds, from_ds, a1, a2, a3, None)
    }
}

impl ManagementHeader {
    /// A header as the decoder produces it.
    pub open spec fn wf(self) -> bool {
        self.frame_control.wf() && self.sequence_control.wf()
    }

    /// The roles of the three addresses of this header.
    pub open spec fn roles(self) -> AddressRoles {
        management_roles(
            self.frame_control.to_ds(),
            self.frame_control.from_ds(),
            self.address_1,
            self.address_2,
            self.address_3,
        )
    }

    /// The 24 bytes of this header.
    pub open spec fn encode_spec(self) -> Seq<u8> {
        self.frame_control.encode_spec() + self.duration@ + self.address_1@ + self.address_2@
            + self.address_3@ + self.sequence_control.encode_spec()
    }

    /// The bytes of this header on the wire.
    pub fn encode(&self) -> (bytes: Vec<u8>)
        ensures
            bytes@ == self.encode_spec(),
    {
        let mut bytes: Vec<u8> = Vec::new();
        push_bytes(&mut bytes, self.frame_control.encode().as_slice());
        push_bytes(&mut bytes, self.duration.as_slice());
        push_bytes(&mut bytes, self.address_1.encode().as_slice());
        push_bytes(&mut bytes, self.address_2.encode().as_slice());
        push_bytes(&mut bytes, self.address_3.encode().as_slice());
        push_bytes(&mut bytes, self.sequence_control.encode().as_slice());
        bytes
    }
}

impl Addresses for ManagementHeader {
    open spec fn address_roles(&self) -> AddressRoles {
        self.roles()
    }

    fn src(&self) -> (a: Option<&MacAddress>) {
        let frame_control = &self.frame_control;
        if frame_control.to_ds() && frame_control.from_ds() {
            Some(&self.address_3)
        } else if frame_control.to_ds() {
            Some(&self.address_2)
        } else if frame_control.from_ds() {
            Some(&self.address_3)
        } else {
            Some(&self.address_2)
        }
    }

    fn dest(&self) -> (a: &MacAddress) {
        let frame_control = &self.frame_control;
        if frame_control.to_ds() {
            &self.address_3
        } else {
            &self.address_1
        }
    }

    fn bssid(&self) -> (a: Option<&MacAddress>) {
        let frame_control = &self.frame_control;
        if frame_control.to_ds() {
            Some(&self.address_1)
        } else if frame_control.from_ds() {
            Some(&self.address_2)
        } else {
            Some(&self.address_3)
        }
    }
}

impl DataHeader {
    /// A header as the decoder produces it: the fourth address is there exactly when both
    /// distribution flags are set, and the QoS field exactly when the subtype is a QoS one.
    pub open spec fn wf(self) -> bool {
        &&& self.frame_control.wf()
        &&& self.sequence_control.wf()
        &&& self.address_4 is Some <==> self.frame_control.to_ds() && self.frame_control.from_ds()
        &&& self.qos is Some <==> is_qos_subtype(self.frame_control.frame_subtype)
    }

    /// The roles of the addresses of this header.
    pub open spec fn roles(self) -> AddressRoles {
        data_roles(
            self.frame_control.to_ds(),
            self.frame_control.from_ds(),
            self.address_1,
            self.address_2,
            self.address_3,
            self.address_4,
        )
    }

    /// The bytes of this header: the 24 fixed bytes, then the fourth address and the QoS
    /// field, as far as they are present.
    pub open spec fn encode_spec(self) -> Seq<u8> {
        self.frame_control.encode_spec() + self.duration@ + self.address_1@ + self.address_2@
            + self.address_3@ + self.sequence_control.encode_spec() + (match self.address_4 {
            Some(a) => a@,
            None => Seq::<u8>::empty(),
        }) + (match self.qos {
            Some(q) => q@,
            None => Seq::<u8>::empty(),
        })
    }

    /// The bytes of this header on the wire.
    pub fn encode(&self) -> (bytes: Vec<u8>)
        ensures
            bytes@ == self.encode_spec(),
    {
        let mut bytes: Vec<u8> = Vec::new();
        push_bytes(&mut bytes, self.frame_control.encode().as_slice());
        push_bytes(&mut bytes, self.duration.as_slice());
        push_bytes(&mut bytes, self.address_1.encode().as_slice());
        push_bytes(&mut bytes, self.address_2.encode().as_slice());
        push_bytes(&mut bytes, self.address_3.encode().as_slice());
        push_bytes(&mut bytes, self.sequence_control.encode().as_slice());
        if let Some(addr) = &self.address_4 {
            push_bytes(&mut bytes, addr.encode().as_slice());
        }
        assert(self.address_4 is None ==> bytes@ =~= bytes@ + Seq::<u8>::empty());
        if let Some(qos) = &self.qos {
            push_bytes(&mut bytes, qos.as_slice());
        }
        assert(self.qos is None ==> bytes@ =~= bytes@ + Seq::<u8>::empty());
        bytes
    }

    /// The receiver address: the device that receives this frame on the air, always the
    /// first address.
    pub fn ra(&self) -> (a: MacAddress)
        ensures
            a == self.address_1,
    {
        self.address_1
    }

    /// The transmitter address: the device that sent this frame on the air, always the
    /// second address.
    pub fn ta(&self) -> (a: MacAddress)
        ensures
            a == self.address_2,
    {
        self.address_2
    }

    /// The destination address: the final recipient of the frame.
    pub fn da(&self) -> (a: MacAddress)
        ensures
            a == self.roles().dest,
    {
        if self.frame_control.to_ds() {
            self.address_3
        } else {
            self.address_1
        }
    }

    /// The source address: the device that created the frame.
    pub fn sa(&self) -> (a: Option<MacAddress>)
        ensures
            a == self.roles().src,
    {
        if self.frame_control.to_ds() && self.frame_control.from_ds() {
            self.address_4
        } else if self.frame_control.to_ds() {
            Some(self.address_2)
        } else if self.frame_control.from_ds() {
            Some(self.address_3)
        } else {
            Some(self.address_2)
        }
    }
}

impl Addresses for DataHeader {
    open spec fn address_roles(&self) -> AddressRoles {
        self.roles()
    }

    fn src(&self) -> (a: Option<&MacAddress>) {
        if self.frame_control.to_ds() && self.frame_control.from_ds() {
            self.address_4.as_ref()
        } else if self.frame_control.to_ds() {
            Some(&self.address_2)
        } else if self.frame_control.from_ds() {
            Some(&self.address_3)
        } else {
            Some(&self.address_2)
        }
    }

    fn dest(&self) -> (a: &MacAddress) {
        if self.frame_control.to_ds() {
            &self.address_3
        } else {
            &self.address_1
        }
    }

    fn bssid(&self) -> (a: Option<&MacAddress>) {
        if self.frame_control.to_ds() && self.frame_control.from_ds() {
            None
        } else if self.frame_control.to_ds() {
            Some(&self.address_1)
        } else if self.frame_control.from_ds() {
            Some(&self.address_2)
        } else {
            Some(&self.address_3)
        }
    }
}

} // verus!
