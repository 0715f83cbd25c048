//! The decoders of data frames.

use crate::error::{Error, ErrorView};
use crate::frame::components::frame_control::FrameControl;
use crate::frame::data::{Data, DataView, NullData, QosData, QosNull};
use crate::frame::{Frame, FrameView};
use crate::parsers::components::header::{data_header_of, data_header_size, parse_data_header};
use crate::parsers::frame_types::management::frame_decoded;
use vstd::prelude::*;
use vstd::slice::slice_to_vec;

verus! {

/// What the bytes after the frame control stand for in a data frame with payload: the data
/// header, and all bytes after it as the payload.
pub open spec fn data_of(fc: FrameControl, input: Seq<u8>) -> Result<DataView, ErrorView> {
    match data_header_of(fc, input) {
        Err(e) => Err(e),
        Ok(header) => Ok(DataView { header, data: input.skip(data_header_size(fc) as int) }),
    }
}

/// Decodes a [`Data`] frame from the bytes after the frame control.
pub fn parse_data(frame_control: FrameControl, input: &[u8]) -> (r: Result<Frame, Error>)
    ensures
        frame_decoded(
            r,
            match data_of(frame_control, input@) {
                Ok(d) => Ok(FrameView::Data(d)),
                Err(e) => Err(e),
            },
        ),
        r is Ok && frame_control.wf() ==> r->Ok_0@.wf(),
{
    let (remaining, header) = parse_data_header(frame_control, input)?;
    Ok(Frame::Data(Data { header, data: slice_to_vec(remaining) }))
}

/// Decodes a [`NullData`] frame from the bytes after the frame control. Bytes after the
/// header are passed over.
pub fn parse_null_data(frame_control: FrameControl, input: &[u8]) -> (r: Result<Frame, Error>)
    ensures
        frame_decoded(
            r,
            match data_header_of(frame_control, input@) {
                Ok(header) => Ok(FrameView::NullData(NullData { header })),
                Err(e) => Err(e),
            },
        ),
        r is Ok && frame_control.wf() ==> r->Ok_0@.wf(),
{
    let (_, header) = parse_data_header(frame_control, input)?;
    Ok(Frame::NullData(NullData { header }))
}

/// Decodes a [`QosData`] frame from the bytes after the frame control.
pub fn parse_qos_data(frame_control: FrameControl, input: &[u8]) -> (r: Result<Frame, Error>)
    ensures
        frame_decoded(
            r,
            match data_of(frame_control, input@) {
                Ok(d) => Ok(FrameView::QosData(d)),
                Err(e) => Err(e),
            },
        ),
        r is Ok && frame_control.wf() ==> r->Ok_0@.wf(),
{
    let (remaining, header) = parse_data_header(frame_control, input)?;
    Ok(Frame::QosData(QosData { header, data: slice_to_vec(remaining) }))
}

/// Decodes a [`QosNull`] frame from the bytes after the frame control. Bytes after the
/// header are passed over.
pub fn parse_qos_null(frame_control: FrameControl, input: &[u8]) -> (r: Result<Frame, Error>)
    ensures
        frame_decoded(
            r,
            match data_header_of(frame_control, input@) {
                Ok(header) => Ok(FrameView::QosNull(QosNull { header })),
                Err(e) => Err(e),
            },
        ),
        r is Ok && frame_control.wf() ==> r->Ok_0@.wf(),
{
    let (_, header) = parse_data_header(frame_control, input)?;
    Ok(Frame::QosNull(QosNull { header }))
}

} // verus!
