//! The errors of the decoder.

use crate::frame::components::frame_control::FrameControl;
use vstd::prelude::*;

verus! {

/// What the decoder reports when it cannot produce a frame.
#[derive(Clone, Debug)]
pub enum Error {
    /// The input ends before a field of fixed size does: the number of bytes that the
    /// field needs, and the number that were left.
    Incomplete(usize, usize),
    /// The frame control is sound but no body decoder exists for its type and subtype.
    /// Carries the bytes after the frame control.
    UnhandledFrameSubtype(FrameControl, Vec<u8>),
    /// A body decoder started and failed: what it was reading, and the bytes it was at.
    Failure(&'static str, Vec<u8>),
}

/// An [`Error`] as a mathematical value.
pub ghost enum ErrorView {
    Incomplete(nat, nat),
    UnhandledFrameSubtype(FrameControl, Seq<u8>),
    Failure(Seq<char>, Seq<u8>),
}

impl View for Error {
    type V = ErrorView;

    open spec fn view(&self) -> ErrorView {
        match self {
            Error::Incomplete(expected, remaining) => ErrorView::Incomplete(
                *expected as nat,
                *remaining as nat,
            ),
            Error::UnhandledFrameSubtype(fc, bytes) => ErrorView::UnhandledFrameSubtype(
                *fc,
                bytes@,
            ),
            Error::Failure(context, bytes) => ErrorView::Failure(context@, bytes@),
        }
    }
}

/// The context of a failure on an information element whose length field runs past the end
/// of the input.
pub const ELEMENT_OVERRUN: &'static str = "information element length exceeds remaining input";

/// The context of a failure on a vendor element that announces WPA and does not hold it.
pub const WPA_MISMATCH: &'static str = "vendor element is not valid WPA information";

} // verus!
