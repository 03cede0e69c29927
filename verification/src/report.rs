//! The summary of a device record as text.

use vstd::prelude::*;
use vstd::string::*;
use crate::types::{MouseDevice, MouseDeviceView};

verus! {

/// The character of a decimal digit.
pub open spec fn digit_char(d: nat) -> char {
    if d == 0 {
        '0'
    } else if d == 1 {
        '1'
    } else if d == 2 {
        '2'
    } else if d == 3 {
        '3'
    } else if d == 4 {
        '4'
    } else if d == 5 {
        '5'
    } else if d == 6 {
        '6'
    } else if d == 7 {
        '7'
    } else if d == 8 {
        '8'
    } else {
        '9'
    }
}

/// A number in decimal notation, without leading zeros.
pub open spec fn decimal_text(n: nat) -> Seq<char>
    decreases n,
{
    if n < 10 {
        seq![digit_char(n)]
    } else {
        decimal_text(n / 10).push(digit_char(n % 10))
    }
}

/// One line for each hardware identifier, indented and marked with a dash.
pub open spec fn hardware_id_lines(ids: Seq<Seq<char>>) -> Seq<char>
    decreases ids.len(),
{
    if ids.len() == 0 {
        Seq::empty()
    } else {
        hardware_id_lines(ids.drop_last()) + "  - "@ + ids.last() + "\n"@
    }
}

/// The summary of a device: a heading, one line for each field, the
/// hardware identifiers one to a line, and a closing rule with an empty
/// line after it.
pub open spec fn display_text(device: MouseDeviceView) -> Seq<char> {
    "Mouse Device Information:\n"@ + "-------------------------\n"@ + "Vendor ID: "@
        + device.vendor_id + "\n"@ + "Product ID: "@ + device.product_id + "\n"@
        + "Description: "@ + device.device_description + "\n"@ + "Friendly Name: "@
        + device.friendly_name + "\n"@ + "Manufacturer: "@ + device.manufacturer + "\n"@
        + "Hardware IDs:\n"@ + hardware_id_lines(device.hardware_ids) + "Device Instance ID: "@
        + decimal_text(device.device_instance_id as nat) + "\n"@ + "-------------------------\n\n"@
}

/// The text of one decimal digit.
fn digit_text(d: u32) -> (text: &'static str)
    requires
        d < 10,
    ensures
        text@ == seq![digit_char(d as nat)],
{
    proof {
        reveal_strlit("0");
        reveal_strlit("1");
        reveal_strlit("2");
        reveal_strlit("3");
        reveal_strlit("4");
        reveal_strlit("5");
        reveal_strlit("6");
        reveal_strlit("7");
        reveal_strlit("8");
        reveal_strlit("9");
    }
    let text = if d == 0 {
        "0"
    } else if d == 1 {
        "1"
    } else if d == 2 {
        "2"
    } else if d == 3 {
        "3"
    } else if d == 4 {
        "4"
    } else if d == 5 {
        "5"
    } else if d == 6 {
        "6"
    } else if d == 7 {
        "7"
    } else if d == 8 {
        "8"
    } else {
        "9"
    };
    assert(text@ =~= seq![digit_char(d as nat)]);
    text
}

/// Writes a number in decimal notation.
pub fn decimal(n: u32) -> (text: String)
    ensures
        text@ == decimal_text(n as nat),
    decreases n,
{
    if n < 10 {
        String::from_str(digit_text(n))
    } else {
        let mut text = decimal(n / 10);
        text.append(digit_text(n % 10));
        assert(text@ =~= decimal_text(n as nat));
        text
    }
}

impl MouseDevice {
    /// The summary of the device as text, ready to be printed.
    pub fn display(&self) -> (text: String)
        ensures
            text@ == display_text(self@),
    {
        let mut lines = String::new();
        let count = self.hardware_ids.len();
        let mut i: usize = 0;
        assert(self@.hardware_ids.take(0) =~= Seq::empty());
        while i < count
            invariant
                count == self.hardware_ids@.len(),
                i <= count,
                lines@ == hardware_id_lines(self@.hardware_ids.take(i as int)),
            decreases count - i,
        {
            assert(self@.hardware_ids.take(i + 1).drop_last() =~= self@.hardware_ids.take(
                i as int,
            ));
            lines.append("  - ");
            lines.append(self.hardware_ids[i].as_str());
            lines.append("\n");
            i += 1;
        }
        assert(self@.hardware_ids.take(count as int) =~= self@.hardware_ids);
        let mut text = String::from_str("Mouse Device Information:\n");
        text.append("-------------------------\n");
        text.append("Vendor ID: ");
        text.append(self.vendor_id.as_str());
        text.append("\n");
        text.append("Product ID: ");
        text.append(self.product_id.as_str());
        text.append("\n");
        text.append("Description: ");
        text.append(self.device_description.as_str());
        text.append("\n");
        text.append("Friendly Name: ");
        text.append(self.friendly_name.as_str());
        text.append("\n");
        text.append("Manufacturer: ");
        text.append(self.manufacturer.as_str());
        text.append("\n");
        text.append("Hardware IDs:\n");
        text.append(lines.as_str());
        text.append("Device Instance ID: ");
        text.append(decimal(self.device_instance_id).as_str());
        text.append("\n");
        text.append("-------------------------\n\n");
        text
    }
}

} // verus!
