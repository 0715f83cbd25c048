//! The trait through which every frame gives its addresses.

use crate::frame::components::header::AddressRoles;
use crate::frame::components::mac_address::MacAddress;
use vstd::prelude::*;

verus! {

/// What `src` owes its caller: a reference to the source address of `roles`, if it has one.
pub open spec fn is_src(roles: AddressRoles, a: Option<&MacAddress>) -> bool {
    match a {
        Some(a) => roles.src == Some(*a),
        None => roles.src is None,
    }
}

/// What `bssid` owes its caller: a reference to the network address of `roles`, if it has one.
pub open spec fn is_bssid(roles: AddressRoles, a: Option<&MacAddress>) -> bool {
    match a {
        Some(a) => roles.bssid == Some(*a),
        None => roles.bssid is None,
    }
}

/// Access to the source, the destination and the network address of a frame.
pub trait Addresses {
    /// The roles that the addresses of this value play.
    spec fn address_roles(&self) -> AddressRoles;

    /// The address of the sender. Some frames carry none.
    fn src(&self) -> (a: Option<&MacAddress>)
        ensures
            is_src(self.address_roles(), a),
    ;

    /// The address of the receiver.
    fn dest(&self) -> (a: &MacAddress)
        ensures
            *a == self.address_roles().dest,
    ;

    /// The address of the network. Some frames carry none.
    fn bssid(&self) -> (a: Option<&MacAddress>)
        ensures
            is_bssid(self.address_roles(), a),
    ;
}

} // verus!
