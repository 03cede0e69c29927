//! The device class, the registry properties that are read of each device,
//! and the assembly of a device record from what was read.

use vstd::prelude::*;
use vstd::string::*;
use crate::types::{MouseDevice, MouseDeviceView};
use crate::utils::{
    hardware_id_list, lemma_find_is_first_occurrence, parse_vid_pid, pid_marker,
    split_hardware_ids, texts, vid_marker, vid_pid,
};

verus! {

/// The type `windows::core::GUID`, carried through as an opaque value.
#[verifier::external_type_specification]
#[verifier::external_body]
pub struct ExGuid(windows::core::GUID);

/// The identifier that `GUID::from_values` builds from its four parts.
pub uninterp spec fn guid_of_values(
    data1: u32,
    data2: u16,
    data3: u16,
    data4: Seq<u8>,
) -> windows::core::GUID;

/// Calls `GUID::from_values`, which stores the four parts in a new
/// identifier. The contract names that identifier after the parts.
#[verifier::external_body]
fn guid_from_values(data1: u32, data2: u16, data3: u16, data4: [u8; 8]) -> (guid:
    windows::core::GUID)
    ensures
        guid == guid_of_values(data1, data2, data3, data4@),
{
    windows::core::GUID::from_values(data1, data2, data3, data4)
}

/// First part of the mouse device class identifier.
pub const MOUSE_CLASS_DATA1: u32 = 0x4d36e96f;

/// Second part of the mouse device class identifier.
pub const MOUSE_CLASS_DATA2: u16 = 0xe325;

/// Third part of the mouse device class identifier.
pub const MOUSE_CLASS_DATA3: u16 = 0x11ce;

/// Last eight bytes of the mouse device class identifier.
pub open spec fn mouse_class_data4() -> Seq<u8> {
    seq![0xbfu8, 0xc1u8, 0x08u8, 0x00u8, 0x2bu8, 0xe1u8, 0x03u8, 0x18u8]
}

/// The identifier of the mouse device class,
/// `4d36e96f-e325-11ce-bfc1-08002be10318`.
pub fn get_mouse_guid() -> (guid: windows::core::GUID)
    ensures
        guid == guid_of_values(
            MOUSE_CLASS_DATA1,
            MOUSE_CLASS_DATA2,
            MOUSE_CLASS_DATA3,
            mouse_class_data4(),
        ),
{
    let data4: [u8; 8] = [0xbf, 0xc1, 0x08, 0x00, 0x2b, 0xe1, 0x03, 0x18];
    assert(data4@ =~= mouse_class_data4());
    guid_from_values(MOUSE_CLASS_DATA1, MOUSE_CLASS_DATA2, MOUSE_CLASS_DATA3, data4)
}

/// The registry properties that are read of a device.
#[derive(Clone, Copy, Debug, PartialEq, Eq, Structural)]
pub enum PropertyKind {
    HardwareIdList,
    DeviceDescription,
    FriendlyName,
    Manufacturer,
}

impl PropertyKind {
    /// The numeric code by which the system knows the property.
    pub open spec fn spec_code(self) -> u32 {
        match self {
            PropertyKind::DeviceDescription => 0,
            PropertyKind::HardwareIdList => 1,
            PropertyKind::Manufacturer => 11,
            PropertyKind::FriendlyName => 12,
        }
    }

    /// The numeric code by which the system knows the property.
    #[verifier::when_used_as_spec(spec_code)]
    pub fn code(self) -> (code: u32)
        ensures
            code == self.spec_code(),
    {
        match self {
            PropertyKind::DeviceDescription => 0,
            PropertyKind::HardwareIdList => 1,
            PropertyKind::Manufacturer => 11,
            PropertyKind::FriendlyName => 12,
        }
    }
}

/// One entry of a device-information set: its position in the set and the
/// handle of its device instance.
#[derive(Clone, Copy, Debug, PartialEq, Eq, Structural)]
pub struct DeviceEntry {
    pub index: u32,
    pub device_instance_id: u32,
}

/// The entry that a query by index gave: present exactly when the query
/// succeeded. Every failure ends the sequence, whatever its error code.
pub fn get_device_info(
    found: bool,
    error_code: u32,
    index: u32,
    device_instance_id: u32,
) -> (entry: Option<DeviceEntry>)
    ensures
        entry == if found {
            Some((DeviceEntry { index, device_instance_id }))
        } else {
            None
        },
{
    if found {
        Some(DeviceEntry { index, device_instance_id })
    } else {
        None
    }
}

/// The text of an optional string.
pub open spec fn text_of(value: Option<String>) -> Option<Seq<char>> {
    match value {
        Some(s) => Some(s@),
        None => None,
    }
}

/// The hardware identifiers of a device whose hardware-identifier property
/// read as `property`: absent when the property is.
pub fn get_hardware_ids(property: Option<String>) -> (ids: Option<Vec<String>>)
    ensures
        match ids {
            Some(list) => property is Some && texts(list@) == hardware_id_list(property->0@),
            None => property is None,
        },
{
    match property {
        Some(raw) => Some(split_hardware_ids(raw.as_str())),
        None => None,
    }
}

/// The text `Unknown`, which stands for a descriptive property that could
/// not be read.
pub open spec fn unknown_text() -> Seq<char> {
    seq!['U', 'n', 'k', 'n', 'o', 'w', 'n']
}

/// The text of a descriptive property, or `Unknown` in its absence.
pub open spec fn or_unknown(text: Option<Seq<char>>) -> Seq<char> {
    match text {
        Some(t) => t,
        None => unknown_text(),
    }
}

/// What identifies a device: its vendor and product identifiers, and the
/// hardware identifiers among which they were found.
#[derive(Debug)]
pub struct DeviceIdentity {
    pub vendor_id: String,
    pub product_id: String,
    pub hardware_ids: Vec<String>,
}

/// The identity of a device as plain text.
pub ghost struct DeviceIdentityView {
    pub vendor_id: Seq<char>,
    pub product_id: Seq<char>,
    pub hardware_ids: Seq<Seq<char>>,
}

impl View for DeviceIdentity {
    type V = DeviceIdentityView;

    open spec fn view(&self) -> DeviceIdentityView {
        DeviceIdentityView {
            vendor_id: self.vendor_id@,
            product_id: self.product_id@,
            hardware_ids: texts(self.hardware_ids@),
        }
    }
}

/// The identity of a device whose hardware-identifier property read as
/// given: absent when the property is absent or holds no identifier, or
/// when the first identifier holds no vendor and product.
pub open spec fn identity_of(hardware_ids: Option<Seq<char>>) -> Option<DeviceIdentityView> {
    match hardware_ids {
        None => None,
        Some(raw) => {
            let ids = hardware_id_list(raw);
            if ids.len() == 0 {
                None
            } else {
                match vid_pid(ids[0]) {
                    None => None,
                    Some((vendor_id, product_id)) => Some(
                        DeviceIdentityView { vendor_id, product_id, hardware_ids: ids },
                    ),
                }
            }
        },
    }
}

/// The record of an identified device of which the three descriptive
/// properties read as given.
pub open spec fn described(
    identity: DeviceIdentityView,
    description: Option<Seq<char>>,
    friendly_name: Option<Seq<char>>,
    manufacturer: Option<Seq<char>>,
    device_instance_id: u32,
) -> MouseDeviceView {
    MouseDeviceView {
        vendor_id: identity.vendor_id,
        product_id: identity.product_id,
        device_description: or_unknown(description),
        friendly_name: or_unknown(friendly_name),
        manufacturer: or_unknown(manufacturer),
        hardware_ids: identity.hardware_ids,
        device_instance_id,
    }
}

/// The record of a device of which the four properties read as given:
/// present exactly when the device has an identity.
pub open spec fn assembled(
    hardware_ids: Option<Seq<char>>,
    description: Option<Seq<char>>,
    friendly_name: Option<Seq<char>>,
    manufacturer: Option<Seq<char>>,
    device_instance_id: u32,
) -> Option<MouseDeviceView> {
    match identity_of(hardware_ids) {
        Some(identity) => Some(
            described(identity, description, friendly_name, manufacturer, device_instance_id),
        ),
        None => None,
    }
}

/// A device whose hardware-identifier property is absent has no record,
/// whatever else was read of it.
pub proof fn lemma_no_record_without_hardware_ids(
    description: Option<Seq<char>>,
    friendly_name: Option<Seq<char>>,
    manufacturer: Option<Seq<char>>,
    device_instance_id: u32,
)
    ensures
        assembled(None, description, friendly_name, manufacturer, device_instance_id) is None,
{
}

/// The descriptive properties decide nothing: a device has a record with
/// them exactly when it has one without them, and then each that is absent
/// reads `Unknown`.
pub proof fn lemma_missing_descriptions_read_unknown(
    hardware_ids: Option<Seq<char>>,
    description: Option<Seq<char>>,
    friendly_name: Option<Seq<char>>,
    manufacturer: Option<Seq<char>>,
    device_instance_id: u32,
)
    ensures
        assembled(hardware_ids, description, friendly_name, manufacturer, device_instance_id)
            is Some <==> assembled(hardware_ids, None, None, None, device_instance_id) is Some,
        assembled(hardware_ids, None, None, None, device_instance_id) matches Some(device) ==> {
            &&& device.device_description == unknown_text()
            &&& device.friendly_name == unknown_text()
            &&& device.manufacturer == unknown_text()
        },
{
}

/// What holds of the record of every device: it has at least one hardware
/// identifier, and its vendor and product identifiers are the two tokens
/// of four characters found in the first one.
pub open spec fn is_identified(device: MouseDeviceView) -> bool {
    &&& device.hardware_ids.len() > 0
    &&& vid_pid(device.hardware_ids[0]) == Some((device.vendor_id, device.product_id))
    &&& device.vendor_id.len() == 4
    &&& device.product_id.len() == 4
}

/// Every assembled record is identified, and carries the handle of its
/// device instance.
pub proof fn lemma_record_is_identified(
    hardware_ids: Option<Seq<char>>,
    description: Option<Seq<char>>,
    friendly_name: Option<Seq<char>>,
    manufacturer: Option<Seq<char>>,
    device_instance_id: u32,
)
    ensures
        assembled(hardware_ids, description, friendly_name, manufacturer, device_instance_id)
            matches Some(device) ==> is_identified(device) && device.device_instance_id
            == device_instance_id,
{
    if let Some(raw) = hardware_ids {
        let ids = hardware_id_list(raw);
        if ids.len() > 0 {
            lemma_find_is_first_occurrence(ids[0], vid_marker());
            lemma_find_is_first_occurrence(ids[0], pid_marker());
        }
    }
}

/// A descriptive property, or `Unknown` in its absence.
fn text_or_unknown(value: Option<String>) -> (text: String)
    ensures
        text@ == or_unknown(text_of(value)),
{
    match value {
        Some(text) => text,
        None => {
            proof {
                reveal_strlit("Unknown");
                assert("Unknown"@ =~= unknown_text());
            }
            String::from_str("Unknown")
        },
    }
}

/// Identifies a device by its hardware-identifier property: splits the
/// property into identifiers and parses the first of them.
pub fn identify_device(hardware_ids: Option<String>) -> (identity: Option<DeviceIdentity>)
    ensures
        match identity {
            Some(found) => identity_of(text_of(hardware_ids)) == Some(found@),
            None => identity_of(text_of(hardware_ids)) is None,
        },
{
    let ids = match get_hardware_ids(hardware_ids) {
        Some(ids) => ids,
        None => { return None; },
    };
    if ids.len() == 0 {
        return None;
    }
    assert(texts(ids@)[0] == ids@[0]@);
    match parse_vid_pid(ids[0].as_str()) {
        Some((vendor_id, product_id)) => Some(
            DeviceIdentity { vendor_id, product_id, hardware_ids: ids },
        ),
        None => None,
    }
}

/// Completes the record of an identified device with its descriptive
/// properties, each of which reads `Unknown` where it is missing.
pub fn describe_device(
    identity: DeviceIdentity,
    description: Option<String>,
    friendly_name: Option<String>,
    manufacturer: Option<String>,
    device_instance_id: u32,
) -> (device: MouseDevice)
    ensures
        device@ == described(
            identity@,
            text_of(description),
            text_of(friendly_name),
            text_of(manufacturer),
            device_instance_id,
        ),
{
    let description = text_or_unknown(description);
    let friendly_name = text_or_unknown(friendly_name);
    let manufacturer = text_or_unknown(manufacturer);
    MouseDevice::new(
        identity.vendor_id,
        identity.product_id,
        description,
        friendly_name,
        manufacturer,
        identity.hardware_ids,
        device_instance_id,
    )
}

/// Assembles the record of one device from its four properties as read.
/// Only the hardware identifiers are needed: a missing descriptive
/// property reads `Unknown`.
pub fn create_mouse_device(
    hardware_ids: Option<String>,
    description: Option<String>,
    friendly_name: Option<String>,
    manufacturer: Option<String>,
    device_instance_id: u32,
) -> (device: Option<MouseDevice>)
    ensures
        match device {
            Some(d) => assembled(
                text_of(hardware_ids),
                text_of(description),
                text_of(friendly_name),
                text_of(manufacturer),
                device_instance_id,
            ) == Some(d@),
            None => assembled(
                text_of(hardware_ids),
                text_of(description),
                text_of(friendly_name),
                text_of(manufacturer),
                device_instance_id,
            ) is None,
        },
        device matches Some(d) ==> is_identified(d@),
{
    proof {
        lemma_record_is_identified(
            text_of(hardware_ids),
            text_of(description),
            text_of(friendly_name),
            text_of(manufacturer),
            device_instance_id,
        );
    }
    match identify_device(hardware_ids) {
        Some(identity) => Some(
            describe_device(
                identity,
                description,
                friendly_name,
                manufacturer,
                device_instance_id,
            ),
        ),
        None => None,
    }
}

} // verus!
