//! The decoders, from bytes to the structures of [`crate::frame`].

pub mod components;
pub mod frame_types;

use crate::error::{Error, ErrorView};
use crate::frame::components::mac_address::{mac_of, MacAddress};
use vstd::prelude::*;
use vstd::slice::slice_subrange;

pub use crate::wire::clone_slice;
pub use components::frame_control::parse_frame_control;
pub use frame_types::control::{
    parse_ack, parse_block_ack, parse_block_ack_request, parse_cts, parse_rts,
};
pub use frame_types::data::{parse_data, parse_null_data, parse_qos_data, parse_qos_null};
pub use frame_types::management::{
    parse_action, parse_action_no_ack, parse_association_request, parse_association_response,
    parse_authentication, parse_beacon, parse_deauthentication, parse_disassociation,
    parse_probe_request, parse_probe_response, parse_reassociation_request,
    parse_reassociation_response,
};
pub use components::header::{parse_data_header, parse_management_header};
pub use components::security::{parse_rsn_information, parse_wpa_information};
pub use components::sequence_control::parse_sequence_control;
pub use components::station_info::{
    parse_channel_switch, parse_ht_capabilities, parse_station_info,
};

verus! {

/// What a decoder of a fixed-size field returns on `input`: the value that `value` makes of
/// the first `size` bytes and the rest of the input, or `Incomplete` when fewer than `size`
/// bytes are there.
pub open spec fn fixed_field<T>(
    r: Result<(&[u8], T), Error>,
    input: Seq<u8>,
    size: nat,
    value: T,
) -> bool {
    match r {
        Ok((rest, v)) => input.len() >= size && rest@ == input.skip(size as int) && v == value,
        Err(e) => input.len() < size && e@ == ErrorView::Incomplete(size, input.len()),
    }
}

/// Reads a MAC address from the front of `input`.
pub fn parse_mac(input: &[u8]) -> (r: Result<(&[u8], MacAddress), Error>)
    ensures
        fixed_field(r, input@, 6, mac_of(input@)),
{
    if input.len() < 6 {
        return Err(Error::Incomplete(6, input.len()));
    }
    let mac = MacAddress(clone_slice::<6>(input));
    proof {
        assert(mac@ =~= mac_of(input@)@);
        crate::frame::components::mac_address::lemma_mac_ext_equal(mac, mac_of(input@));
    }
    Ok((slice_subrange(input, 6, input.len()), mac))
}

} // verus!
