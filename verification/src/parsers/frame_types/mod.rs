//! Decoders of whole frames, by frame type.

pub mod control;
pub mod data;
pub mod management;
