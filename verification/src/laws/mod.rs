//! Laws that hold between the decoders, the encoders and the address accessors.

pub mod addresses;
pub mod elements;
pub mod frames;
pub mod management;
pub mod round_trip;
pub mod station_info;
pub mod wps;
