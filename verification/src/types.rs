//! The record that describes one mouse-class device.

use vstd::prelude::*;

verus! {

/// One identified mouse-class device.
#[derive(Debug)]
pub struct MouseDevice {
    /// Vendor identifier, taken from the first hardware identifier.
    pub vendor_id: String,
    /// Product identifier, taken from the first hardware identifier.
    pub product_id: String,
    pub device_description: String,
    pub friendly_name: String,
    pub manufacturer: String,
    /// Hardware identifiers, in the order in which the system reports them.
    pub hardware_ids: Vec<String>,
    /// Handle of the device instance, valid within one enumeration.
    pub device_instance_id: u32,
}

/// A device record as plain text and numbers.
pub ghost struct MouseDeviceView {
    pub vendor_id: Seq<char>,
    pub product_id: Seq<char>,
    pub device_description: Seq<char>,
    pub friendly_name: Seq<char>,
    pub manufacturer: Seq<char>,
    pub hardware_ids: Seq<Seq<char>>,
    pub device_instance_id: u32,
}

impl View for MouseDevice {
    type V = MouseDeviceView;

    open spec fn view(&self) -> MouseDeviceView {
        MouseDeviceView {
            vendor_id: self.vendor_id@,
            product_id: self.product_id@,
            device_description: self.device_description@,
            friendly_name: self.friendly_name@,
            manufacturer: self.manufacturer@,
            hardware_ids: self.hardware_ids@.map_values(|s: String| s@),
            device_instance_id: self.device_instance_id,
        }
    }
}

impl MouseDevice {
    /// Builds a record from its seven fields, each kept as given.
    pub fn new(
        vendor_id: String,
        product_id: String,
        device_description: String,
        friendly_name: String,
        manufacturer: String,
        hardware_ids: Vec<String>,
        device_instance_id: u32,
    ) -> (device: Self)
        ensures
            device.vendor_id == vendor_id,
            device.product_id == product_id,
            device.device_description == device_description,
            device.friendly_name == friendly_name,
            device.manufacturer == manufacturer,
            device.hardware_ids == hardware_ids,
            device.device_instance_id == device_instance_id,
    {
        Self {
            vendor_id,
            product_id,
            device_description,
            friendly_name,
            manufacturer,
            hardware_ids,
            device_instance_id,
        }
    }
}

} // verus!
