//! USB base-class code to label, after the USB-IF "Defined Class Codes"
//! registry. Unknown codes render as `"0x.."` hex.

use vstd::prelude::*;
use crate::text::{hex_pad, hex_padded, owned, push_str};

verus! {

broadcast use vstd::string::group_string_axioms;

/// The registry label of base class `code`, if known.
pub open spec fn known_class(code: u8) -> Option<Seq<char>> {
    if code == 0x00 {
        Some("Composite"@)
    } else if code == 0x01 {
        Some("Audio"@)
    } else if code == 0x02 {
        Some("Communications"@)
    } else if code == 0x03 {
        Some("HID"@)
    } else if code == 0x05 {
        Some("Physical"@)
    } else if code == 0x06 {
        Some("Image"@)
    } else if code == 0x07 {
        Some("Printer"@)
    } else if code == 0x08 {
        Some("Mass Storage"@)
    } else if code == 0x09 {
        Some("Hub"@)
    } else if code == 0x0A {
        Some("CDC Data"@)
    } else if code == 0x0B {
        Some("Smart Card"@)
    } else if code == 0x0D {
        Some("Content Security"@)
    } else if code == 0x0E {
        Some("Video"@)
    } else if code == 0x0F {
        Some("Personal Healthcare"@)
    } else if code == 0x10 {
        Some("Audio/Video"@)
    } else if code == 0x11 {
        Some("Billboard"@)
    } else if code == 0x12 {
        Some("USB Type-C Bridge"@)
    } else if code == 0xDC {
        Some("Diagnostic"@)
    } else if code == 0xE0 {
        Some("Wireless"@)
    } else if code == 0xEF {
        Some("Miscellaneous"@)
    } else if code == 0xFE {
        Some("Application Specific"@)
    } else if code == 0xFF {
        Some("Vendor Specific"@)
    } else {
        None
    }
}

/// What [`class_name`] returns: the label, or `"0x"` and two lower-case hex
/// digits.
pub open spec fn class_text(code: u8) -> Seq<char> {
    match known_class(code) {
        Some(name) => name,
        None => "0x"@ + hex_pad(code as nat, 2),
    }
}

fn class_label(code: u8) -> (r: Option<&'static str>)
    ensures
        match r {
            Some(n) => known_class(code) == Some(n@),
            None => known_class(code) is None,
        },
{
    let name = match code {
        0x00 => "Composite",
        0x01 => "Audio",
        0x02 => "Communications",
        0x03 => "HID",
        0x05 => "Physical",
        0x06 => "Image",
        0x07 => "Printer",
        0x08 => "Mass Storage",
        0x09 => "Hub",
        0x0A => "CDC Data",
        0x0B => "Smart Card",
        0x0D => "Content Security",
        0x0E => "Video",
        0x0F => "Personal Healthcare",
        0x10 => "Audio/Video",
        0x11 => "Billboard",
        0x12 => "USB Type-C Bridge",
        0xDC => "Diagnostic",
        0xE0 => "Wireless",
        0xEF => "Miscellaneous",
        0xFE => "Application Specific",
        0xFF => "Vendor Specific",
        _ => {
            return None;
        },
    };
    Some(name)
}

/// Label for the USB base class `code`; unknown codes fall back to a
/// `"0x.."` hex string.
pub fn class_name(code: u8) -> (r: String)
    ensures
        r@ == class_text(code),
{
    match class_label(code) {
        Some(n) => owned(n),
        None => {
            let mut r = owned("0x");
            push_str(&mut r, hex_padded(code as u64, 2).as_str());
            r
        },
    }
}

} // verus!
