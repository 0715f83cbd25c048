//! Every management frame with elements comes back from its own bytes.

use crate::error::ErrorView;
use crate::frame::management::{
    AssociationRequestView, AssociationResponseView, AuthenticationView, BeaconView,
    ProbeRequestView, ProbeResponseView, ReassociationRequestView, ReassociationResponseView,
};
use crate::frame::components::header::ManagementHeader;
use crate::frame::components::station_info::StationInfoView;
use crate::frame::FrameView;
use crate::frame_of;
use crate::frame_types::FrameSubType;
use crate::laws::frames::lemma_management_header_round_trip;
use crate::laws::station_info::lemma_station_info_round_trip;
use crate::parsers::components::station_info::station_info_of;
use crate::wire::{
    le_u16, le_u64, lemma_le_u16_round_trip, lemma_le_u64_round_trip, u16_le_bytes, u64_le_bytes,
};
use vstd::prelude::*;

verus! {

/// A word of 16 bits is read back from where its bytes lie.
pub proof fn lemma_u16_at(data: Seq<u8>, at: int, word: u16)
    requires
        0 <= at,
        at + 2 <= data.len(),
        data.subrange(at, at + 2) == u16_le_bytes(word),
    ensures
        le_u16(data, at) == word,
{
    let part = data.subrange(at, at + 2);
    assert(part[0] == data[at] && part[1] == data[at + 1]);
    lemma_le_u16_round_trip(word);
}

/// A word of 64 bits is read back from where its bytes lie.
pub proof fn lemma_u64_at(data: Seq<u8>, at: int, word: u64)
    requires
        0 <= at,
        at + 8 <= data.len(),
        data.subrange(at, at + 8) == u64_le_bytes(word),
    ensures
        le_u64(data, at) == word,
{
    let part = data.subrange(at, at + 8);
    assert(part[0] == data[at] && part[1] == data[at + 1] && part[2] == data[at + 2] && part[3]
        == data[at + 3]);
    assert(part[4] == data[at + 4] && part[5] == data[at + 5] && part[6] == data[at + 6] && part[7]
        == data[at + 7]);
    let bytes = u64_le_bytes(word);
    assert(le_u64(data, at) == le_u64(bytes, 0));
    lemma_le_u64_round_trip(word);
}

/// The bytes of a Beacon frame stand for the frame, where its header is well
/// formed and the bytes of its elements stand for its elements.
proof fn lemma_beacon_bytes(
    header: ManagementHeader,
    timestamp: u64,
    beacon_interval: u16,
    capability_info: u16,
    elements: Seq<u8>,
    info: StationInfoView,
)
    requires
        header.wf(),
        header.frame_control.frame_subtype == FrameSubType::Beacon,
        station_info_of(elements) == Ok::<(Seq<u8>, StationInfoView), ErrorView>(
            (Seq::<u8>::empty(), info),
        ),
    ensures
        frame_of(
            header.encode_spec() + u64_le_bytes(timestamp) + u16_le_bytes(beacon_interval)
                + u16_le_bytes(capability_info) + elements,
            false,
        ) == Ok::<FrameView, ErrorView>(
            FrameView::Beacon(
                BeaconView {
                    header,
                    timestamp,
                    beacon_interval,
                    capability_info,
                    station_info: info,
                },
            ),
        ),
{
    let fixed = u64_le_bytes(timestamp) + u16_le_bytes(beacon_interval)
        + u16_le_bytes(capability_info);
    assert(fixed.len() == 12);
    let tail = fixed + elements;
    let whole = header.encode_spec() + u64_le_bytes(timestamp) + u16_le_bytes(beacon_interval)
        + u16_le_bytes(capability_info) + elements;
    lemma_management_header_round_trip(header, tail);
    assert(whole =~= header.encode_spec() + tail);
    let body = whole.skip(2).skip(22);
    assert(body == tail);
    assert(body.skip(12) =~= elements);
    assert(body.subrange(0, 8) =~= u64_le_bytes(timestamp));
    lemma_u64_at(body, 0, timestamp);
    assert(body.subrange(8, 10) =~= u16_le_bytes(beacon_interval));
    lemma_u16_at(body, 8, beacon_interval);
    assert(body.subrange(10, 12) =~= u16_le_bytes(capability_info));
    lemma_u16_at(body, 10, capability_info);
}

/// A Beacon frame with a well-formed header of its subtype and canonical elements
/// comes back from its bytes.
pub proof fn lemma_beacon_round_trip(f: BeaconView)
    requires
        f.header.wf(),
        f.header.frame_control.frame_subtype == FrameSubType::Beacon,
        f.station_info.canonical(),
    ensures
        frame_of(f.encode(), false) == Ok::<FrameView, ErrorView>(FrameView::Beacon(f)),
{
    lemma_station_info_round_trip(f.station_info);
    lemma_beacon_bytes(
        f.header,
        f.timestamp,
        f.beacon_interval,
        f.capability_info,
        f.station_info.encode(),
        f.station_info,
    );
}

/// The bytes of a ProbeRequest frame stand for the frame, where its header is well
/// formed and the bytes of its elements stand for its elements.
proof fn lemma_probe_request_bytes(
    header: ManagementHeader,
    elements: Seq<u8>,
    info: StationInfoView,
)
    requires
        header.wf(),
        header.frame_control.frame_subtype == FrameSubType::ProbeRequest,
        station_info_of(elements) == Ok::<(Seq<u8>, StationInfoView), ErrorView>(
            (Seq::<u8>::empty(), info),
        ),
    ensures
        frame_of(
            header.encode_spec() + elements,
            false,
        ) == Ok::<FrameView, ErrorView>(
            FrameView::ProbeRequest(
                ProbeRequestView { header, station_info: info },
            ),
        ),
{
    let fixed = Seq::<u8>::empty();
    assert(fixed.len() == 0);
    let tail = fixed + elements;
    let whole = header.encode_spec() + elements;
    lemma_management_header_round_trip(header, tail);
    assert(whole =~= header.encode_spec() + tail);
    let body = whole.skip(2).skip(22);
    assert(body == tail);
    assert(body.skip(0) =~= elements);
}

/// A ProbeRequest frame with a well-formed header of its subtype and canonical elements
/// comes back from its bytes.
pub proof fn lemma_probe_request_round_trip(f: ProbeRequestView)
    requires
        f.header.wf(),
        f.header.frame_control.frame_subtype == FrameSubType::ProbeRequest,
        f.station_info.canonical(),
    ensures
        frame_of(f.encode(), false) == Ok::<FrameView, ErrorView>(FrameView::ProbeRequest(f)),
{
    lemma_station_info_round_trip(f.station_info);
    lemma_probe_request_bytes(f.header, f.station_info.encode(), f.station_info);
}

/// The bytes of a ProbeResponse frame stand for the frame, where its header is well
/// formed and the bytes of its elements stand for its elements.
proof fn lemma_probe_response_bytes(
    header: ManagementHeader,
    timestamp: u64,
    beacon_interval: u16,
    capability_info: u16,
    elements: Seq<u8>,
    info: StationInfoView,
)
    requires
        header.wf(),
        header.frame_control.frame_subtype == FrameSubType::ProbeResponse,
        station_info_of(elements) == Ok::<(Seq<u8>, StationInfoView), ErrorView>(
            (Seq::<u8>::empty(), info),
        ),
    ensures
        frame_of(
            header.encode_spec() + u64_le_bytes(timestamp) + u16_le_bytes(beacon_interval)
                + u16_le_bytes(capability_info) + elements,
            false,
        ) == Ok::<FrameView, ErrorView>(
            FrameView::ProbeResponse(
                ProbeResponseView {
                    header,
                    timestamp,
                    beacon_interval,
                    capability_info,
                    station_info: info,
                },
            ),
        ),
{
    let fixed = u64_le_bytes(timestamp) + u16_le_bytes(beacon_interval)
        + u16_le_bytes(capability_info);
    assert(fixed.len() == 12);
    let tail = fixed + elements;
    let whole = header.encode_spec() + u64_le_bytes(timestamp) + u16_le_bytes(beacon_interval)
        + u16_le_bytes(capability_info) + elements;
    lemma_management_header_round_trip(header, tail);
    assert(whole =~= header.encode_spec() + tail);
    let body = whole.skip(2).skip(22);
    assert(body == tail);
    assert(body.skip(12) =~= elements);
    assert(body.subrange(0, 8) =~= u64_le_bytes(timestamp));
    lemma_u64_at(body, 0, timestamp);
    assert(body.subrange(8, 10) =~= u16_le_bytes(beacon_interval));
    lemma_u16_at(body, 8, beacon_interval);
    assert(body.subrange(10, 12) =~= u16_le_bytes(capability_info));
    lemma_u16_at(body, 10, capability_info);
}

/// A ProbeResponse frame with a well-formed header of its subtype and canonical elements
/// comes back from its bytes.
pub proof fn lemma_probe_response_round_trip(f: ProbeResponseView)
    requires
        f.header.wf(),
        f.header.frame_control.frame_subtype == FrameSubType::ProbeResponse,
        f.station_info.canonical(),
    ensures
        frame_of(f.encode(), false) == Ok::<FrameView, ErrorView>(FrameView::ProbeResponse(f)),
{
    lemma_station_info_round_trip(f.station_info);
    lemma_probe_response_bytes(
        f.header,
        f.timestamp,
        f.beacon_interval,
        f.capability_info,
        f.station_info.encode(),
        f.station_info,
    );
}

/// The bytes of an AssociationRequest frame stand for the frame, where its header is well
/// formed and the bytes of its elements stand for its elements.
proof fn lemma_association_request_bytes(
    header: ManagementHeader,
    beacon_interval: u16,
    capability_info: u16,
    elements: Seq<u8>,
    info: StationInfoView,
)
    requires
        header.wf(),
        header.frame_control.frame_subtype == FrameSubType::AssociationRequest,
        station_info_of(elements) == Ok::<(Seq<u8>, StationInfoView), ErrorView>(
            (Seq::<u8>::empty(), info),
        ),
    ensures
        frame_of(
            header.encode_spec() + u16_le_bytes(beacon_interval) + u16_le_bytes(capability_info)
                + elements,
            false,
        ) == Ok::<FrameView, ErrorView>(
            FrameView::AssociationRequest(
                AssociationRequestView {
                    header,
                    beacon_interval,
                    capability_info,
                    station_info: info,
                },
            ),
        ),
{
    let fixed = u16_le_bytes(beacon_interval) + u16_le_bytes(capability_info);
    assert(fixed.len() == 4);
    let tail = fixed + elements;
    let whole = header.encode_spec() + u16_le_bytes(beacon_interval)
        + u16_le_bytes(capability_info) + elements;
    lemma_management_header_round_trip(header, tail);
    assert(whole =~= header.encode_spec() + tail);
    let body = whole.skip(2).skip(22);
    assert(body == tail);
    assert(body.skip(4) =~= elements);
    assert(body.subrange(0, 2) =~= u16_le_bytes(beacon_interval));
    lemma_u16_at(body, 0, beacon_interval);
    assert(body.subrange(2, 4) =~= u16_le_bytes(capability_info));
    lemma_u16_at(body, 2, capability_info);
}

/// An AssociationRequest frame with a well-formed header of its subtype and canonical elements
/// comes back from its bytes.
pub proof fn lemma_association_request_round_trip(f: AssociationRequestView)
    requires
        f.header.wf(),
        f.header.frame_control.frame_subtype == FrameSubType::AssociationRequest,
        f.station_info.canonical(),
    ensures
        frame_of(f.encode(), false) == Ok::<FrameView, ErrorView>(FrameView::AssociationRequest(f)),
{
    lemma_station_info_round_trip(f.station_info);
    lemma_association_request_bytes(
        f.header,
        f.beacon_interval,
        f.capability_info,
        f.station_info.encode(),
        f.station_info,
    );
}

/// The bytes of an AssociationResponse frame stand for the frame, where its header is well
/// formed and the bytes of its elements stand for its elements.
proof fn lemma_association_response_bytes(
    header: ManagementHeader,
    capability_info: u16,
    status_code: u16,
    association_id: u16,
    elements: Seq<u8>,
    info: StationInfoView,
)
    requires
        header.wf(),
        header.frame_control.frame_subtype == FrameSubType::AssociationResponse,
        station_info_of(elements) == Ok::<(Seq<u8>, StationInfoView), ErrorView>(
            (Seq::<u8>::empty(), info),
        ),
    ensures
        frame_of(
            header.encode_spec() + u16_le_bytes(capability_info) + u16_le_bytes(status_code)
                + u16_le_bytes(association_id) + elements,
            false,
        ) == Ok::<FrameView, ErrorView>(
            FrameView::AssociationResponse(
                AssociationResponseView {
                    header,
                    capability_info,
                    status_code,
                    association_id,
                    station_info: info,
                },
            ),
        ),
{
    let fixed = u16_le_bytes(capability_info) + u16_le_bytes(status_code)
        + u16_le_bytes(association_id);
    assert(fixed.len() == 6);
    let tail = fixed + elements;
    let whole = header.encode_spec() + u16_le_bytes(capability_info) + u16_le_bytes(status_code)
        + u16_le_bytes(association_id) + elements;
    lemma_management_header_round_trip(header, tail);
    assert(whole =~= header.encode_spec() + tail);
    let body = whole.skip(2).skip(22);
    assert(body == tail);
    assert(body.skip(6) =~= elements);
    assert(body.subrange(0, 2) =~= u16_le_bytes(capability_info));
    lemma_u16_at(body, 0, capability_info);
    assert(body.subrange(2, 4) =~= u16_le_bytes(status_code));
    lemma_u16_at(body, 2, status_code);
    assert(body.subrange(4, 6) =~= u16_le_bytes(association_id));
    lemma_u16_at(body, 4, association_id);
}

/// An AssociationResponse frame with a well-formed header of its subtype and canonical elements
/// comes back from its bytes.
pub proof fn lemma_association_response_round_trip(f: AssociationResponseView)
    requires
        f.header.wf(),
        f.header.frame_control.frame_subtype == FrameSubType::AssociationResponse,
        f.station_info.canonical(),
    ensures
        frame_of(f.encode(), false) == Ok::<FrameView, ErrorView>(
            FrameView::AssociationResponse(f),
        ),
{
    lemma_station_info_round_trip(f.station_info);
    lemma_association_response_bytes(
        f.header,
        f.capability_info,
        f.status_code,
        f.association_id,
        f.station_info.encode(),
        f.station_info,
    );
}

/// The bytes of a ReassociationRequest frame stand for the frame, where its header is well
/// formed and the bytes of its elements stand for its elements.
proof fn lemma_reassociation_request_bytes(
    header: ManagementHeader,
    beacon_interval: u16,
    capability_info: u16,
    elements: Seq<u8>,
    info: StationInfoView,
)
    requires
        header.wf(),
        header.frame_control.frame_subtype == FrameSubType::ReassociationRequest,
        station_info_of(elements) == Ok::<(Seq<u8>, StationInfoView), ErrorView>(
            (Seq::<u8>::empty(), info),
        ),
    ensures
        frame_of(
            header.encode_spec() + u16_le_bytes(beacon_interval) + u16_le_bytes(capability_info)
                + elements,
            false,
        ) == Ok::<FrameView, ErrorView>(
            FrameView::ReassociationRequest(
                ReassociationRequestView {
                    header,
                    beacon_interval,
                    capability_info,
                    station_info: info,
                },
            ),
        ),
{
    let fixed = u16_le_bytes(beacon_interval) + u16_le_bytes(capability_info);
    assert(fixed.len() == 4);
    let tail = fixed + elements;
    let whole = header.encode_spec() + u16_le_bytes(beacon_interval)
        + u16_le_bytes(capability_info) + elements;
    lemma_management_header_round_trip(header, tail);
    assert(whole =~= header.encode_spec() + tail);
    let body = whole.skip(2).skip(22);
    assert(body == tail);
    assert(body.skip(4) =~= elements);
    assert(body.subrange(0, 2) =~= u16_le_bytes(beacon_interval));
    lemma_u16_at(body, 0, beacon_interval);
    assert(body.subrange(2, 4) =~= u16_le_bytes(capability_info));
    lemma_u16_at(body, 2, capability_info);
}

/// A ReassociationRequest frame with a well-formed header of its subtype and canonical elements
/// comes back from its bytes.
pub proof fn lemma_reassociation_request_round_trip(f: ReassociationRequestView)
    requires
        f.header.wf(),
        f.header.frame_control.frame_subtype == FrameSubType::ReassociationRequest,
        f.station_info.canonical(),
    ensures
        frame_of(f.encode(), false) == Ok::<FrameView, ErrorView>(
            FrameView::ReassociationRequest(f),
        ),
{
    lemma_station_info_round_trip(f.station_info);
    lemma_reassociation_request_bytes(
        f.header,
        f.beacon_interval,
        f.capability_info,
        f.station_info.encode(),
        f.station_info,
    );
}

/// The bytes of a ReassociationResponse frame stand for the frame, where its header is well
/// formed and the bytes of its elements stand for its elements.
proof fn lemma_reassociation_response_bytes(
    header: ManagementHeader,
    capability_info: u16,
    status_code: u16,
    association_id: u16,
    elements: Seq<u8>,
    info: StationInfoView,
)
    requires
        header.wf(),
        header.frame_control.frame_subtype == FrameSubType::ReassociationResponse,
        station_info_of(elements) == Ok::<(Seq<u8>, StationInfoView), ErrorView>(
            (Seq::<u8>::empty(), info),
        ),
    ensures
        frame_of(
            header.encode_spec() + u16_le_bytes(capability_info) + u16_le_bytes(status_code)
                + u16_le_bytes(association_id) + elements,
            false,
        ) == Ok::<FrameView, ErrorView>(
            FrameView::ReassociationResponse(
                ReassociationResponseView {
                    header,
                    capability_info,
                    status_code,
                    association_id,
                    station_info: info,
                },
            ),
        ),
{
    let fixed = u16_le_bytes(capability_info) + u16_le_bytes(status_code)
        + u16_le_bytes(association_id);
    assert(fixed.len() == 6);
    let tail = fixed + elements;
    let whole = header.encode_spec() + u16_le_bytes(capability_info) + u16_le_bytes(status_code)
        + u16_le_bytes(association_id) + elements;
    lemma_management_header_round_trip(header, tail);
    assert(whole =~= header.encode_spec() + tail);
    let body = whole.skip(2).skip(22);
    assert(body == tail);
    assert(body.skip(6) =~= elements);
    assert(body.subrange(0, 2) =~= u16_le_bytes(capability_info));
    lemma_u16_at(body, 0, capability_info);
    assert(body.subrange(2, 4) =~= u16_le_bytes(status_code));
    lemma_u16_at(body, 2, status_code);
    assert(body.subrange(4, 6) =~= u16_le_bytes(association_id));
    lemma_u16_at(body, 4, association_id);
}

/// A ReassociationResponse frame with a well-formed header of its subtype and canonical elements
/// comes back from its bytes.
pub proof fn lemma_reassociation_response_round_trip(f: ReassociationResponseView)
    requires
        f.header.wf(),
        f.header.frame_control.frame_subtype == FrameSubType::ReassociationResponse,
        f.station_info.canonical(),
    ensures
        frame_of(f.encode(), false) == Ok::<FrameView, ErrorView>(
            FrameView::ReassociationResponse(f),
        ),
{
    lemma_station_info_round_trip(f.station_info);
    lemma_reassociation_response_bytes(
        f.header,
        f.capability_info,
        f.status_code,
        f.association_id,
        f.station_info.encode(),
        f.station_info,
    );
}

/// The bytes of an Authentication frame stand for the frame, where its header is well
/// formed and the bytes of its elements stand for its elements.
proof fn lemma_authentication_bytes(
    header: ManagementHeader,
    auth_algorithm: u16,
    auth_seq: u16,
    status_code: u16,
    elements: Seq<u8>,
    info: StationInfoView,
)
    requires
        header.wf(),
        header.frame_control.frame_subtype == FrameSubType::Authentication,
        station_info_of(elements) == Ok::<(Seq<u8>, StationInfoView), ErrorView>(
            (Seq::<u8>::empty(), info),
        ),
    ensures
        frame_of(
            header.encode_spec() + u16_le_bytes(auth_algorithm) + u16_le_bytes(auth_seq)
                + u16_le_bytes(status_code) + elements,
            false,
        ) == Ok::<FrameView, ErrorView>(
            FrameView::Authentication(
                AuthenticationView {
                    header,
                    auth_algorithm,
                    auth_seq,
                    status_code,
                    station_info: info,
                },
            ),
        ),
{
    let fixed = u16_le_bytes(auth_algorithm) + u16_le_bytes(auth_seq) + u16_le_bytes(status_code);
    assert(fixed.len() == 6);
    let tail = fixed + elements;
    let whole = header.encode_spec() + u16_le_bytes(auth_algorithm) + u16_le_bytes(auth_seq)
        + u16_le_bytes(status_code) + elements;
    lemma_management_header_round_trip(header, tail);
    assert(whole =~= header.encode_spec() + tail);
    let body = whole.skip(2).skip(22);
    assert(body == tail);
    assert(body.skip(6) =~= elements);
    assert(body.subrange(0, 2) =~= u16_le_bytes(auth_algorithm));
    lemma_u16_at(body, 0, auth_algorithm);
    assert(body.subrange(2, 4) =~= u16_le_bytes(auth_seq));
    lemma_u16_at(body, 2, auth_seq);
    assert(body.subrange(4, 6) =~= u16_le_bytes(status_code));
    lemma_u16_at(body, 4, status_code);
}

/// An Authentication frame with a well-formed header of its subtype and canonical elements
/// comes back from its bytes.
pub proof fn lemma_authentication_round_trip(f: AuthenticationView)
    requires
        f.header.wf(),
        f.header.frame_control.frame_subtype == FrameSubType::Authentication,
        f.station_info.canonical(),
    ensures
        frame_of(f.encode(), false) == Ok::<FrameView, ErrorView>(FrameView::Authentication(f)),
{
    lemma_station_info_round_trip(f.station_info);
    lemma_authentication_bytes(
        f.header,
        f.auth_algorithm,
        f.auth_seq,
        f.status_code,
        f.station_info.encode(),
        f.station_info,
    );
}

} // verus!
