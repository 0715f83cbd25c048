//! Decoders of the structures that recur across frames.

pub mod extended_capabilities;
pub mod frame_control;
pub mod header;
pub mod security;
pub mod sequence_control;
pub mod station_info;
pub mod wps;
