//! The decoders of management frames.

use crate::error::{Error, ErrorView};
use crate::frame::components::frame_control::FrameControl;
use crate::frame::components::station_info::StationInfoView;
use crate::frame::management::{
    Action, ActionView, AssociationRequest, AssociationRequestView, AssociationResponse,
    AssociationResponseView, Authentication, AuthenticationView, Beacon, BeaconView,
    Deauthentication, Disassociation, ProbeRequest, ProbeRequestView, ProbeResponse,
    ProbeResponseView, ReassociationRequest, ReassociationRequestView, ReassociationResponse,
    ReassociationResponseView,
};
use crate::frame::{Frame, FrameView};
use crate::parsers::components::header::{management_header_of, parse_management_header};
use crate::parsers::components::station_info::{parse_station_info, station_info_of};
use crate::wire::{copy_range, le_u16, le_u64, read_le_u16, read_le_u64};
use vstd::prelude::*;
use vstd::slice::slice_subrange;

verus! {

/// The elements that follow `fixed` bytes of fixed fields in the body `body` of a
/// management frame. A body that ends inside the fixed fields is incomplete.
pub open spec fn elements_after(body: Seq<u8>, fixed: nat) -> Result<StationInfoView, ErrorView> {
    if body.len() < fixed {
        Err(ErrorView::Incomplete(fixed, body.len()))
    } else {
        match station_info_of(body.skip(fixed as int)) {
            Ok((_, info)) => Ok(info),
            Err(e) => Err(e),
        }
    }
}

/// The relation between what a frame decoder returns and what the bytes stand for.
pub open spec fn frame_decoded(r: Result<Frame, Error>, model: Result<FrameView, ErrorView>) -> bool
{
    match r {
        Ok(frame) => model == Ok::<FrameView, ErrorView>(frame@),
        Err(e) => model == Err::<FrameView, ErrorView>(e@),
    }
}

/// What the bytes after the frame control stand for in a Beacon frame:
/// the management
/// header, 12 bytes of fixed fields, and the elements.
pub open spec fn beacon_of(fc: FrameControl, input: Seq<u8>) -> Result<FrameView, ErrorView> {
    let body = input.skip(22);
    if input.len() < 22 {
        Err(ErrorView::Incomplete(22, input.len()))
    } else {
        match elements_after(body, 12) {
            Err(e) => Err(e),
            Ok(info) => Ok(
                FrameView::Beacon(
                    BeaconView {
                        header: management_header_of(fc, input),
                        timestamp: le_u64(body, 0),
                        beacon_interval: le_u16(body, 8),
                        capability_info: le_u16(body, 10),
                        station_info: info,
                    },
                ),
            ),
        }
    }
}

/// Decodes a [`Beacon`] frame from the bytes after the frame control.
pub fn parse_beacon(frame_control: FrameControl, input: &[u8]) -> (r: Result<Frame, Error>)
    ensures
        frame_decoded(r, beacon_of(frame_control, input@)),
        r is Ok && frame_control.wf() ==> r->Ok_0@.wf(),
{
    let (input, header) = parse_management_header(frame_control, input)?;
    if input.len() < 12 {
        return Err(Error::Incomplete(12, input.len()));
    }
    let timestamp = read_le_u64(input, 0);
    let beacon_interval = read_le_u16(input, 8);
    let capability_info = read_le_u16(input, 10);
    let elements = slice_subrange(input, 12, input.len());
    let (_, station_info) = parse_station_info(elements)?;
    Ok(Frame::Beacon(Beacon { header, timestamp, beacon_interval, capability_info, station_info }))
}

/// What the bytes after the frame control stand for in a ProbeRequest frame:
/// the management
/// header and the elements.
pub open spec fn probe_request_of(fc: FrameControl, input: Seq<u8>) -> Result<
    FrameView,
    ErrorView,
> {
    let body = input.skip(22);
    if input.len() < 22 {
        Err(ErrorView::Incomplete(22, input.len()))
    } else {
        match elements_after(body, 0) {
            Err(e) => Err(e),
            Ok(info) => Ok(
                FrameView::ProbeRequest(
                    ProbeRequestView {
                        header: management_header_of(fc, input),
                        station_info: info,
                    },
                ),
            ),
        }
    }
}

/// Decodes a [`ProbeRequest`] frame from the bytes after the frame control.
pub fn parse_probe_request(frame_control: FrameControl, input: &[u8]) -> (r: Result<Frame, Error>)
    ensures
        frame_decoded(r, probe_request_of(frame_control, input@)),
        r is Ok && frame_control.wf() ==> r->Ok_0@.wf(),
{
    let (input, header) = parse_management_header(frame_control, input)?;
    let elements = slice_subrange(input, 0, input.len());
    let (_, station_info) = parse_station_info(elements)?;
    Ok(Frame::ProbeRequest(ProbeRequest { header, station_info }))
}

/// What the bytes after the frame control stand for in a ProbeResponse frame:
/// the management
/// header, 12 bytes of fixed fields, and the elements.
pub open spec fn probe_response_of(fc: FrameControl, input: Seq<u8>) -> Result<
    FrameView,
    ErrorView,
> {
    let body = input.skip(22);
    if input.len() < 22 {
        Err(ErrorView::Incomplete(22, input.len()))
    } else {
        match elements_after(body, 12) {
            Err(e) => Err(e),
            Ok(info) => Ok(
                FrameView::ProbeResponse(
                    ProbeResponseView {
                        header: management_header_of(fc, input),
                        timestamp: le_u64(body, 0),
                        beacon_interval: le_u16(body, 8),
                        capability_info: le_u16(body, 10),
                        station_info: info,
                    },
                ),
            ),
        }
    }
}

/// Decodes a [`ProbeResponse`] frame from the bytes after the frame control.
pub fn parse_probe_response(frame_control: FrameControl, input: &[u8]) -> (r: Result<Frame, Error>)
    ensures
        frame_decoded(r, probe_response_of(frame_control, input@)),
        r is Ok && frame_control.wf() ==> r->Ok_0@.wf(),
{
    let (input, header) = parse_management_header(frame_control, input)?;
    if input.len() < 12 {
        return Err(Error::Incomplete(12, input.len()));
    }
    let timestamp = read_le_u64(input, 0);
    let beacon_interval = read_le_u16(input, 8);
    let capability_info = read_le_u16(input, 10);
    let elements = slice_subrange(input, 12, input.len());
    let (_, station_info) = parse_station_info(elements)?;
    Ok(
        Frame::ProbeResponse(
            ProbeResponse { header, timestamp, beacon_interval, capability_info, station_info },
        ),
    )
}

/// What the bytes after the frame control stand for in an AssociationRequest frame:
/// the management
/// header, 4 bytes of fixed fields, and the elements.
pub open spec fn association_request_of(fc: FrameControl, input: Seq<u8>) -> Result<
    FrameView,
    ErrorView,
> {
    let body = input.skip(22);
    if input.len() < 22 {
        Err(ErrorView::Incomplete(22, input.len()))
    } else {
        match elements_after(body, 4) {
            Err(e) => Err(e),
            Ok(info) => Ok(
                FrameView::AssociationRequest(
                    AssociationRequestView {
                        header: management_header_of(fc, input),
                        beacon_interval: le_u16(body, 0),
                        capability_info: le_u16(body, 2),
                        station_info: info,
                    },
                ),
            ),
        }
    }
}

/// Decodes an [`AssociationRequest`] frame from the bytes after the frame control.
pub fn parse_association_request(frame_control: FrameControl, input: &[u8]) -> (r: Result<
    Frame,
    Error,
>)
    ensures
        frame_decoded(r, association_request_of(frame_control, input@)),
        r is Ok && frame_control.wf() ==> r->Ok_0@.wf(),
{
    let (input, header) = parse_management_header(frame_control, input)?;
    if input.len() < 4 {
        return Err(Error::Incomplete(4, input.len()));
    }
    let beacon_interval = read_le_u16(input, 0);
    let capability_info = read_le_u16(input, 2);
    let elements = slice_subrange(input, 4, input.len());
    let (_, station_info) = parse_station_info(elements)?;
    Ok(
        Frame::AssociationRequest(
            AssociationRequest { header, beacon_interval, capability_info, station_info },
        ),
    )
}

/// What the bytes after the frame control stand for in an AssociationResponse frame:
/// the management
/// header, 6 bytes of fixed fields, and the elements.
pub open spec fn association_response_of(fc: FrameControl, input: Seq<u8>) -> Result<
    FrameView,
    ErrorView,
> {
    let body = input.skip(22);
    if input.len() < 22 {
        Err(ErrorView::Incomplete(22, input.len()))
    } else {
        match elements_after(body, 6) {
            Err(e) => Err(e),
            Ok(info) => Ok(
                FrameView::AssociationResponse(
                    AssociationResponseView {
                        header: management_header_of(fc, input),
                        capability_info: le_u16(body, 0),
                        status_code: le_u16(body, 2),
                        association_id: le_u16(body, 4),
                        station_info: info,
                    },
                ),
            ),
        }
    }
}

/// Decodes an [`AssociationResponse`] frame from the bytes after the frame control.
pub fn parse_association_response(frame_control: FrameControl, input: &[u8]) -> (r: Result<
    Frame,
    Error,
>)
    ensures
        frame_decoded(r, association_response_of(frame_control, input@)),
        r is Ok && frame_control.wf() ==> r->Ok_0@.wf(),
{
    let (input, header) = parse_management_header(frame_control, input)?;
    if input.len() < 6 {
        return Err(Error::Incomplete(6, input.len()));
    }
    let capability_info = read_le_u16(input, 0);
    let status_code = read_le_u16(input, 2);
    let association_id = read_le_u16(input, 4);
    let elements = slice_subrange(input, 6, input.len());
    let (_, station_info) = parse_station_info(elements)?;
    Ok(
        Frame::AssociationResponse(
            AssociationResponse {
                header,
                capability_info,
                status_code,
                association_id,
                station_info,
            },
        ),
    )
}

/// What the bytes after the frame control stand for in a ReassociationRequest frame:
/// the management
/// header, 4 bytes of fixed fields, and the elements.
pub open spec fn reassociation_request_of(fc: FrameControl, input: Seq<u8>) -> Result<
    FrameView,
    ErrorView,
> {
    let body = input.skip(22);
    if input.len() < 22 {
        Err(ErrorView::Incomplete(22, input.len()))
    } else {
        match elements_after(body, 4) {
            Err(e) => Err(e),
            Ok(info) => Ok(
                FrameView::ReassociationRequest(
                    ReassociationRequestView {
                        header: management_header_of(fc, input),
                        beacon_interval: le_u16(body, 0),
                        capability_info: le_u16(body, 2),
                        station_info: info,
                    },
                ),
            ),
        }
    }
}

/// Decodes a [`ReassociationRequest`] frame from the bytes after the frame control.
pub fn parse_reassociation_request(frame_control: FrameControl, input: &[u8]) -> (r: Result<
    Frame,
    Error,
>)
    ensures
        frame_decoded(r, reassociation_request_of(frame_control, input@)),
        r is Ok && frame_control.wf() ==> r->Ok_0@.wf(),
{
    let (input, header) = parse_management_header(frame_control, input)?;
    if input.len() < 4 {
        return Err(Error::Incomplete(4, input.len()));
    }
    let beacon_interval = read_le_u16(input, 0);
    let capability_info = read_le_u16(input, 2);
    let elements = slice_subrange(input, 4, input.len());
    let (_, station_info) = parse_station_info(elements)?;
    Ok(
        Frame::ReassociationRequest(
            ReassociationRequest { header, beacon_interval, capability_info, station_info },
        ),
    )
}

/// What the bytes after the frame control stand for in a ReassociationResponse frame:
/// the management
/// header, 6 bytes of fixed fields, and the elements.
pub open spec fn reassociation_response_of(fc: FrameControl, input: Seq<u8>) -> Result<
    FrameView,
    ErrorView,
> {
    let body = input.skip(22);
    if input.len() < 22 {
        Err(ErrorView::Incomplete(22, input.len()))
    } else {
        match elements_after(body, 6) {
            Err(e) => Err(e),
            Ok(info) => Ok(
                FrameView::ReassociationResponse(
                    ReassociationResponseView {
                        header: management_header_of(fc, input),
                        capability_info: le_u16(body, 0),
                        status_code: le_u16(body, 2),
                        association_id: le_u16(body, 4),
                        station_info: info,
                    },
                ),
            ),
        }
    }
}

/// Decodes a [`ReassociationResponse`] frame from the bytes after the frame control.
pub fn parse_reassociation_response(frame_control: FrameControl, input: &[u8]) -> (r: Result<
    Frame,
    Error,
>)
    ensures
        frame_decoded(r, reassociation_response_of(frame_control, input@)),
        r is Ok && frame_control.wf() ==> r->Ok_0@.wf(),
{
    let (input, header) = parse_management_header(frame_control, input)?;
    if input.len() < 6 {
        return Err(Error::Incomplete(6, input.len()));
    }
    let capability_info = read_le_u16(input, 0);
    let status_code = read_le_u16(input, 2);
    let association_id = read_le_u16(input, 4);
    let elements = slice_subrange(input, 6, input.len());
    let (_, station_info) = parse_station_info(elements)?;
    Ok(
        Frame::ReassociationResponse(
            ReassociationResponse {
                header,
                capability_info,
                status_code,
                association_id,
                station_info,
            },
        ),
    )
}

/// What the bytes after the frame control stand for in an Authentication frame:
/// the management
/// header, 6 bytes of fixed fields, and the elements.
pub open spec fn authentication_of(fc: FrameControl, input: Seq<u8>) -> Result<
    FrameView,
    ErrorView,
> {
    let body = input.skip(22);
    if input.len() < 22 {
        Err(ErrorView::Incomplete(22, input.len()))
    } else {
        match elements_after(body, 6) {
            Err(e) => Err(e),
            Ok(info) => Ok(
                FrameView::Authentication(
                    AuthenticationView {
                        header: management_header_of(fc, input),
                        auth_algorithm: le_u16(body, 0),
                        auth_seq: le_u16(body, 2),
                        status_code: le_u16(body, 4),
                        station_info: info,
                    },
                ),
            ),
        }
    }
}

/// Decodes an [`Authentication`] frame from the bytes after the frame control.
pub fn parse_authentication(frame_control: FrameControl, input: &[u8]) -> (r: Result<Frame, Error>)
    ensures
        frame_decoded(r, authentication_of(frame_control, input@)),
        r is Ok && frame_control.wf() ==> r->Ok_0@.wf(),
{
    let (input, header) = parse_management_header(frame_control, input)?;
    if input.len() < 6 {
        return Err(Error::Incomplete(6, input.len()));
    }
    let auth_algorithm = read_le_u16(input, 0);
    let auth_seq = read_le_u16(input, 2);
    let status_code = read_le_u16(input, 4);
    let elements = slice_subrange(input, 6, input.len());
    let (_, station_info) = parse_station_info(elements)?;
    Ok(
        Frame::Authentication(
            Authentication { header, auth_algorithm, auth_seq, status_code, station_info },
        ),
    )
}

/// What the bytes after the frame control stand for in a Deauthentication frame:
/// the management
/// header and 2 bytes of fixed fields.
pub open spec fn deauthentication_of(fc: FrameControl, input: Seq<u8>) -> Result<
    FrameView,
    ErrorView,
> {
    let body = input.skip(22);
    if input.len() < 22 {
        Err(ErrorView::Incomplete(22, input.len()))
    } else if body.len() < 2 {
        Err(ErrorView::Incomplete(2, body.len()))
    } else {
        Ok(
            FrameView::Deauthentication(
                Deauthentication {
                    header: management_header_of(fc, input),
                    reason_code: le_u16(body, 0),
                },
            ),
        )
    }
}

/// Decodes a [`Deauthentication`] frame from the bytes after the frame control.
pub fn parse_deauthentication(frame_control: FrameControl, input: &[u8]) -> (r: Result<
    Frame,
    Error,
>)
    ensures
        frame_decoded(r, deauthentication_of(frame_control, input@)),
        r is Ok && frame_control.wf() ==> r->Ok_0@.wf(),
{
    let (input, header) = parse_management_header(frame_control, input)?;
    if input.len() < 2 {
        return Err(Error::Incomplete(2, input.len()));
    }
    let reason_code = read_le_u16(input, 0);
    Ok(Frame::Deauthentication(Deauthentication { header, reason_code }))
}

/// What the bytes after the frame control stand for in a Disassociation frame:
/// the management
/// header and 2 bytes of fixed fields.
pub open spec fn disassociation_of(fc: FrameControl, input: Seq<u8>) -> Result<
    FrameView,
    ErrorView,
> {
    let body = input.skip(22);
    if input.len() < 22 {
        Err(ErrorView::Incomplete(22, input.len()))
    } else if body.len() < 2 {
        Err(ErrorView::Incomplete(2, body.len()))
    } else {
        Ok(
            FrameView::Disassociation(
                Disassociation {
                    header: management_header_of(fc, input),
                    reason_code: le_u16(body, 0),
                },
            ),
        )
    }
}

/// Decodes a [`Disassociation`] frame from the bytes after the frame control.
pub fn parse_disassociation(frame_control: FrameControl, input: &[u8]) -> (r: Result<Frame, Error>)
    ensures
        frame_decoded(r, disassociation_of(frame_control, input@)),
        r is Ok && frame_control.wf() ==> r->Ok_0@.wf(),
{
    let (input, header) = parse_management_header(frame_control, input)?;
    if input.len() < 2 {
        return Err(Error::Incomplete(2, input.len()));
    }
    let reason_code = read_le_u16(input, 0);
    Ok(Frame::Disassociation(Disassociation { header, reason_code }))
}

/// What the bytes after the frame control stand for in an Action frame: the management
/// header, the category, and the body of the category.
pub open spec fn action_of(fc: FrameControl, input: Seq<u8>) -> Result<ActionView, ErrorView> {
    let body = input.skip(22);
    if input.len() < 22 {
        Err(ErrorView::Incomplete(22, input.len()))
    } else if body.len() < 1 {
        Err(ErrorView::Incomplete(1, 0))
    } else {
        Ok(
            ActionView {
                header: management_header_of(fc, input),
                category: body[0],
                body: body.skip(1),
            },
        )
    }
}

/// Decodes the body of an [`Action`] frame from the bytes after the frame control.
fn parse_action_body(frame_control: FrameControl, input: &[u8]) -> (r: Result<Action, Error>)
    ensures
        match r {
            Ok(action) => action_of(frame_control, input@) == Ok::<ActionView, ErrorView>(action@),
            Err(e) => action_of(frame_control, input@) == Err::<ActionView, ErrorView>(e@),
        },
        r is Ok && frame_control.wf() ==> r->Ok_0.header.wf(),
{
    let (input, header) = parse_management_header(frame_control, input)?;
    if input.len() < 1 {
        return Err(Error::Incomplete(1, 0));
    }
    let category = input[0];
    let body = copy_range(input, 1, input.len());
    Ok(Action { header, category, body })
}

/// Decodes an [`Action`] frame, one that asks for an acknowledgement.
pub fn parse_action(frame_control: FrameControl, input: &[u8]) -> (r: Result<Frame, Error>)
    ensures
        frame_decoded(
            r,
            match action_of(frame_control, input@) {
                Ok(a) => Ok(FrameView::Action(a)),
                Err(e) => Err(e),
            },
        ),
        r is Ok && frame_control.wf() ==> r->Ok_0@.wf(),
{
    Ok(Frame::Action(parse_action_body(frame_control, input)?))
}

/// Decodes an [`Action`] frame, one that asks for no acknowledgement.
pub fn parse_action_no_ack(frame_control: FrameControl, input: &[u8]) -> (r: Result<
    Frame,
    Error,
>)
    ensures
        frame_decoded(
            r,
            match action_of(frame_control, input@) {
                Ok(a) => Ok(FrameView::ActionNoAck(a)),
                Err(e) => Err(e),
            },
        ),
        r is Ok && frame_control.wf() ==> r->Ok_0@.wf(),
{
    Ok(Frame::ActionNoAck(parse_action_body(frame_control, input)?))
}

} // verus!
