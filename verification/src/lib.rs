//! Identification of mouse-class devices: decoding of registry properties,
//! hardware-identifier parsing, device-record assembly and the decisions of
//! one enumeration run, each with a verified contract.

pub mod device;
pub mod enumeration;
pub mod report;
pub mod types;
pub mod utils;

pub use device::{
    create_mouse_device, describe_device, get_device_info, get_hardware_ids, get_mouse_guid,
    identify_device, DeviceEntry, DeviceIdentity, PropertyKind,
};
pub use enumeration::{EnumerationError, EnumerationRun, RunAction, RunEvent, RunPhase};
pub use types::MouseDevice;
pub use utils::{get_device_property, parse_vid_pid, split_hardware_ids};
