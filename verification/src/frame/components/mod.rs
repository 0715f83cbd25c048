//! Structures that recur across frames: frame control, addresses, headers, and the
//! information elements of management frames.

pub mod extended_capabilities;
pub mod frame_control;
pub mod header;
pub mod mac_address;
pub mod security;
pub mod sequence_control;
pub mod station_info;
pub mod wps;

pub use extended_capabilities::ExtendedCapabilities;
pub use frame_control::FrameControl;
pub use header::{DataHeader, ManagementHeader};
pub use mac_address::{MacAddress, MacParseError};
pub use security::{
    RsnAkmSuite, RsnCipherSuite, RsnInformation, WpaAkmSuite, WpaCipherSuite, WpaInformation,
};
pub use sequence_control::SequenceControl;
pub use station_info::{
    ChannelSwitchAnnouncment, ChannelSwitchMode, HTCapabilities, HTInformation, MultipleBSSID,
    StationInfo, SupportedRate, VendorSpecificInfo,
};
pub use wps::{
    AudioDevices, Cameras, Category, Computers, Displays, DockingDevices, GamingDevices,
    InputDevices, MultimediaDevices, NetworkInfrastructure, PrintersEtAl, Storage, Telephone,
    WpsInformation, WpsSetupState,
};
