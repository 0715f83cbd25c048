//! Decoder and encoder for IEEE 802.11 MAC-layer frames.
//!
//! [`parse_frame`] takes the bytes of one frame, from the frame control on, and returns
//! the frame as a [`Frame`]; every structure has an `encode` that gives its bytes back.
//! Each decoder is verified against a function of the bytes that says what they stand for.

pub mod bitfield;
pub mod error;
pub mod frame;
pub mod frame_types;
pub mod laws;
pub mod parsers;
pub mod text;
pub mod traits;
pub mod wire;

pub use crate::error::Error;
pub use crate::frame::Frame;
pub use crate::frame_types::{FrameProtocolVersion, FrameSubType, FrameType};
pub use crate::traits::Addresses;

use crate::error::ErrorView;
use crate::frame::components::frame_control::{frame_control_of, FrameControl};
use crate::frame::FrameView;
use crate::parsers::frame_types::control::{
    ack_of, block_ack_of, block_ack_request_of, cts_of, parse_ack, parse_block_ack,
    parse_block_ack_request, parse_cts, parse_rts, rts_of,
};
use crate::parsers::frame_types::data::{
    data_of, parse_data, parse_null_data, parse_qos_data, parse_qos_null,
};
use crate::parsers::frame_types::management::{
    action_of, association_request_of, association_response_of, authentication_of, beacon_of,
    deauthentication_of, disassociation_of, frame_decoded, parse_action, parse_action_no_ack,
    parse_association_request, parse_association_response, parse_authentication, parse_beacon,
    parse_deauthentication, parse_disassociation, parse_probe_request, parse_probe_response,
    parse_reassociation_request, parse_reassociation_response, probe_request_of,
    probe_response_of, reassociation_request_of, reassociation_response_of,
};
use crate::parsers::components::header::data_header_of;
use crate::parsers::parse_frame_control;
use vstd::prelude::*;
use vstd::slice::{slice_subrange, slice_to_vec};

verus! {

/// What the bytes `payload` after a frame control `fc` stand for. Type and subtype choose
/// the layout; a pair without a layout here is unhandled.
pub open spec fn frame_body_of(fc: FrameControl, payload: Seq<u8>) -> Result<FrameView, ErrorView> {
    match (fc.frame_type, fc.frame_subtype) {
        (FrameType::Management, FrameSubType::Beacon) => beacon_of(fc, payload),
        (FrameType::Management, FrameSubType::ProbeRequest) => probe_request_of(fc, payload),
        (FrameType::Management, FrameSubType::ProbeResponse) => probe_response_of(fc, payload),
        (FrameType::Management, FrameSubType::AssociationRequest) => association_request_of(
            fc,
            payload,
        ),
        (FrameType::Management, FrameSubType::AssociationResponse) => association_response_of(
            fc,
            payload,
        ),
        (FrameType::Management, FrameSubType::ReassociationRequest) => reassociation_request_of(
            fc,
            payload,
        ),
        (FrameType::Management, FrameSubType::ReassociationResponse) => reassociation_response_of(
            fc,
            payload,
        ),
        (FrameType::Management, FrameSubType::Authentication) => authentication_of(fc, payload),
        (FrameType::Management, FrameSubType::Deauthentication) => deauthentication_of(
            fc,
            payload,
        ),
        (FrameType::Management, FrameSubType::Disassociation) => disassociation_of(fc, payload),
        (FrameType::Management, FrameSubType::Action) => match action_of(fc, payload) {
            Ok(a) => Ok(FrameView::Action(a)),
            Err(e) => Err(e),
        },
        (FrameType::Management, FrameSubType::ActionNoAck) => match action_of(fc, payload) {
            Ok(a) => Ok(FrameView::ActionNoAck(a)),
            Err(e) => Err(e),
        },
        (FrameType::Control, FrameSubType::Rts) => rts_of(fc, payload),
        (FrameType::Control, FrameSubType::Cts) => cts_of(fc, payload),
        (FrameType::Control, FrameSubType::Ack) => ack_of(fc, payload),
        (FrameType::Control, FrameSubType::BlockAckRequest) => block_ack_request_of(fc, payload),
        (FrameType::Control, FrameSubType::BlockAck) => block_ack_of(fc, payload),
        (FrameType::Data, FrameSubType::Data) => match data_of(fc, payload) {
            Ok(d) => Ok(FrameView::Data(d)),
            Err(e) => Err(e),
        },
        (FrameType::Data, FrameSubType::NullData) => match data_header_of(fc, payload) {
            Ok(header) => Ok(FrameView::NullData(crate::frame::NullData { header })),
            Err(e) => Err(e),
        },
        (FrameType::Data, FrameSubType::QosData) => match data_of(fc, payload) {
            Ok(d) => Ok(FrameView::QosData(d)),
            Err(e) => Err(e),
        },
        (FrameType::Data, FrameSubType::QosNull) => match data_header_of(fc, payload) {
            Ok(header) => Ok(FrameView::QosNull(crate::frame::QosNull { header })),
            Err(e) => Err(e),
        },
        _ => Err(ErrorView::UnhandledFrameSubtype(fc, payload)),
    }
}

/// The bytes of the frame itself: all of `input`, or all but the four bytes of the frame
/// check sequence at its end.
pub open spec fn without_fcs(input: Seq<u8>, fcs_present: bool) -> Seq<u8> {
    if fcs_present {
        input.take(input.len() - 4)
    } else {
        input
    }
}

/// What the bytes of a frame stand for.
///
/// With a frame check sequence, the last four bytes are set aside, unchecked; an input
/// shorter than that is incomplete. The first two bytes are the frame control, and the
/// subtype in it chooses the layout of the rest.
pub open spec fn frame_of(input: Seq<u8>, fcs_present: bool) -> Result<FrameView, ErrorView> {
    let frame = without_fcs(input, fcs_present);
    if fcs_present && input.len() < 4 {
        Err(ErrorView::Incomplete(4, input.len()))
    } else if frame.len() < 2 {
        Err(ErrorView::Incomplete(2, frame.len()))
    } else {
        frame_body_of(frame_control_of(frame[0], frame[1]), frame.skip(2))
    }
}

/// Decodes the body of a frame whose frame control has been read.
pub fn parse_frame_body(frame_control: FrameControl, input: &[u8]) -> (r: Result<Frame, Error>)
    ensures
        frame_decoded(r, frame_body_of(frame_control, input@)),
        r is Ok && frame_control.wf() ==> r->Ok_0@.wf(),
{
    match (frame_control.frame_type, frame_control.frame_subtype) {
        // Management
        (FrameType::Management, FrameSubType::Beacon) => parse_beacon(frame_control, input),
        (FrameType::Management, FrameSubType::ProbeRequest) => parse_probe_request(
            frame_control,
            input,
        ),
        (FrameType::Management, FrameSubType::ProbeResponse) => parse_probe_response(
            frame_control,
            input,
        ),
        (FrameType::Management, FrameSubType::AssociationRequest) => parse_association_request(
            frame_control,
            input,
        ),
        (FrameType::Management, FrameSubType::AssociationResponse) => parse_association_response(
            frame_control,
            input,
        ),
        (FrameType::Management, FrameSubType::ReassociationRequest) => parse_reassociation_request(
            frame_control,
            input,
        ),
        (
            FrameType::Management,
            FrameSubType::ReassociationResponse,
        ) => parse_reassociation_response(frame_control, input),
        (FrameType::Management, FrameSubType::Authentication) => parse_authentication(
            frame_control,
            input,
        ),
        (FrameType::Management, FrameSubType::Deauthentication) => parse_deauthentication(
            frame_control,
            input,
        ),
        (FrameType::Management, FrameSubType::Disassociation) => parse_disassociation(
            frame_control,
            input,
        ),
        (FrameType::Management, FrameSubType::Action) => parse_action(frame_control, input),
        (FrameType::Management, FrameSubType::ActionNoAck) => parse_action_no_ack(
            frame_control,
            input,
        ),
        // Control
        (FrameType::Control, FrameSubType::Rts) => parse_rts(frame_control, input),
        (FrameType::Control, FrameSubType::Cts) => parse_cts(frame_control, input),
        (FrameType::Control, FrameSubType::Ack) => parse_ack(frame_control, input),
        (FrameType::Control, FrameSubType::BlockAckRequest) => parse_block_ack_request(
            frame_control,
            input,
        ),
        (FrameType::Control, FrameSubType::BlockAck) => parse_block_ack(frame_control, input),
        // Data
        (FrameType::Data, FrameSubType::Data) => parse_data(frame_control, input),
        (FrameType::Data, FrameSubType::NullData) => parse_null_data(frame_control, input),
        (FrameType::Data, FrameSubType::QosData) => parse_qos_data(frame_control, input),
        (FrameType::Data, FrameSubType::QosNull) => parse_qos_null(frame_control, input),
        _ => Err(Error::UnhandledFrameSubtype(frame_control, slice_to_vec(input))),
    }
}

/// Decodes one frame. `input` holds the frame from its frame control on; with
/// `fcs_present` its last four bytes are the frame check sequence, which is set aside
/// and not checked.
///
/// The decoder takes every byte string: it returns the frame that the bytes stand for,
/// or the error that says why they stand for none.
pub fn parse_frame(input: &[u8], fcs_present: bool) -> (r: Result<Frame, Error>)
    ensures
        frame_decoded(r, frame_of(input@, fcs_present)),
        r matches Ok(frame) ==> frame@.wf(),
        input@.len() == 0 ==> r is Err && r->Err_0 is Incomplete,
{
    let frame = if fcs_present {
        if input.len() < 4 {
            return Err(Error::Incomplete(4, input.len()));
        }
        slice_subrange(input, 0, input.len() - 4)
    } else {
        input
    };
    let (payload, frame_control) = parse_frame_control(frame)?;
    proof {
        crate::frame::components::frame_control::lemma_frame_control_wf(frame@[0], frame@[1]);
    }
    parse_frame_body(frame_control, payload)
}

} // verus!
