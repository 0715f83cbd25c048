//! The round trip of frames through their bytes.

use crate::error::ErrorView;
use crate::frame::FrameView;
use crate::frame_of;
use crate::laws::frames::{
    lemma_ack_round_trip, lemma_action_round_trip, lemma_block_ack_request_round_trip,
    lemma_block_ack_round_trip, lemma_cts_round_trip, lemma_data_round_trip,
    lemma_deauthentication_round_trip, lemma_disassociation_round_trip,
    lemma_null_data_round_trip, lemma_rts_round_trip,
};
use crate::laws::management::{
    lemma_association_request_round_trip, lemma_association_response_round_trip,
    lemma_authentication_round_trip, lemma_beacon_round_trip, lemma_probe_request_round_trip,
    lemma_probe_response_round_trip, lemma_reassociation_request_round_trip,
    lemma_reassociation_response_round_trip,
};
use vstd::prelude::*;

verus! {

/// Every canonical frame comes back from its own bytes: decoding what the encoder writes
/// for it gives the frame itself.
pub proof fn lemma_frame_round_trip(frame: FrameView)
    requires
        frame.canonical(),
    ensures
        frame_of(frame.encode(), false) == Ok::<FrameView, ErrorView>(frame),
{
    match frame {
        FrameView::Beacon(f) => lemma_beacon_round_trip(f),
        FrameView::ProbeRequest(f) => lemma_probe_request_round_trip(f),
        FrameView::ProbeResponse(f) => lemma_probe_response_round_trip(f),
        FrameView::AssociationRequest(f) => lemma_association_request_round_trip(f),
        FrameView::AssociationResponse(f) => lemma_association_response_round_trip(f),
        FrameView::ReassociationRequest(f) => lemma_reassociation_request_round_trip(f),
        FrameView::ReassociationResponse(f) => lemma_reassociation_response_round_trip(f),
        FrameView::Authentication(f) => lemma_authentication_round_trip(f),
        FrameView::Deauthentication(f) => lemma_deauthentication_round_trip(f),
        FrameView::Disassociation(f) => lemma_disassociation_round_trip(f),
        FrameView::Action(f) => lemma_action_round_trip(f),
        FrameView::ActionNoAck(f) => lemma_action_round_trip(f),
        FrameView::Rts(f) => lemma_rts_round_trip(f),
        FrameView::Cts(f) => lemma_cts_round_trip(f),
        FrameView::Ack(f) => lemma_ack_round_trip(f),
        FrameView::BlockAckRequest(f) => lemma_block_ack_request_round_trip(f),
        FrameView::BlockAck(f) => lemma_block_ack_round_trip(f),
        FrameView::Data(f) => lemma_data_round_trip(f),
        FrameView::NullData(f) => lemma_null_data_round_trip(f.header),
        FrameView::QosData(f) => lemma_data_round_trip(f),
        FrameView::QosNull(f) => lemma_null_data_round_trip(f.header),
    }
}

} // verus!
