//! USB Implementers Forum vendor ID lookup over a small bundled table of
//! the vendors most often seen in a Linux USB tree. Unknown IDs render as a
//! `"0x...."` hex string, which [`is_hex_fallback`] recognises.

use vstd::prelude::*;
use crate::text::{chars_of, hex_pad, hex_padded, owned, push_str};

verus! {

broadcast use vstd::string::group_string_axioms;

/// The bundled name of vendor `vid`, if it is in the table.
pub open spec fn known_vendor(vid: u16) -> Option<Seq<char>> {
    if vid == 0x05AC {
        Some("Apple"@)
    } else if vid == 0x0B95 {
        Some("ASIX Electronics"@)
    } else if vid == 0x2109 {
        Some("VIA Labs"@)
    } else if vid == 0x0BDA {
        Some("Realtek"@)
    } else if vid == 0x8087 {
        Some("Intel"@)
    } else if vid == 0x04B4 {
        Some("Cypress"@)
    } else if vid == 0x1D6B {
        Some("Linux Foundation"@)
    } else if vid == 0x1A40 {
        Some("Terminus Technology"@)
    } else if vid == 0x2188 {
        Some("CalDigit"@)
    } else if vid == 0x17EF {
        Some("Lenovo"@)
    } else if vid == 0x04E8 {
        Some("Samsung"@)
    } else if vid == 0x0409 {
        Some("NEC"@)
    } else if vid == 0x0835 {
        Some("Action Star Enterprise"@)
    } else if vid == 0x291A {
        Some("Anker"@)
    } else if vid == 0x1BCF {
        Some("Sunplus"@)
    } else if vid == 0x2D01 || vid == 0x18D1 {
        Some("Google"@)
    } else if vid == 0x046D {
        Some("Logitech"@)
    } else if vid == 0x1532 {
        Some("Razer"@)
    } else if vid == 0x1B1C {
        Some("Corsair"@)
    } else if vid == 0x258A {
        Some("Hailuck"@)
    } else if vid == 0x0951 {
        Some("Kingston"@)
    } else if vid == 0x090C {
        Some("Silicon Motion"@)
    } else if vid == 0x0781 {
        Some("SanDisk"@)
    } else if vid == 0x0930 {
        Some("Toshiba"@)
    } else if vid == 0x13FE {
        Some("Phison"@)
    } else if vid == 0x058F {
        Some("Alcor Micro"@)
    } else if vid == 0x05E3 {
        Some("Genesys Logic"@)
    } else if vid == 0x0451 {
        Some("Texas Instruments"@)
    } else if vid == 0x1058 {
        Some("Western Digital"@)
    } else if vid == 0x0BC2 {
        Some("Seagate"@)
    } else if vid == 0x174C || vid == 0x1B21 {
        Some("ASMedia"@)
    } else if vid == 0x0438 || vid == 0x1022 {
        Some("AMD"@)
    } else if vid == 0x0955 {
        Some("NVIDIA"@)
    } else if vid == 0x056A {
        Some("Wacom"@)
    } else if vid == 0x1050 {
        Some("Yubico"@)
    } else if vid == 0x045E {
        Some("Microsoft"@)
    } else if vid == 0x03F0 {
        Some("HP"@)
    } else if vid == 0x413C {
        Some("Dell"@)
    } else if vid == 0x04F2 {
        Some("Chicony"@)
    } else if vid == 0x0C45 {
        Some("Microdia"@)
    } else if vid == 0x0BDB {
        Some("Ericsson"@)
    } else if vid == 0x2C7C {
        Some("Quectel"@)
    } else if vid == 0x1199 {
        Some("Sierra Wireless"@)
    } else if vid == 0x12D1 {
        Some("Huawei"@)
    } else if vid == 0x22B8 {
        Some("Motorola"@)
    } else if vid == 0x0E8D {
        Some("MediaTek"@)
    } else if vid == 0x0763 {
        Some("M-Audio"@)
    } else if vid == 0x1235 {
        Some("Focusrite"@)
    } else if vid == 0x1397 {
        Some("BEHRINGER"@)
    } else if vid == 0x0582 {
        Some("Roland"@)
    } else if vid == 0x1043 {
        Some("iCreate Technologies"@)
    } else if vid == 0x262A {
        Some("Savitech"@)
    } else if vid == 0x37A8 {
        Some("Ultimate Gadget Laboratories"@)
    } else {
        None
    }
}

/// What [`lookup`] returns: the bundled name, or `"0x"` and four lower-case
/// hex digits.
pub open spec fn vendor_text(vid: u16) -> Seq<char> {
    match known_vendor(vid) {
        Some(name) => name,
        None => "0x"@ + hex_pad(vid as nat, 4),
    }
}

/// The bundled name of `vid`, if any.
fn table_name(vid: u16) -> (r: Option<&'static str>)
    ensures
        match r {
            Some(n) => known_vendor(vid) == Some(n@),
            None => known_vendor(vid) is None,
        },
{
    let name = match vid {
        0x05AC => "Apple",
        0x0B95 => "ASIX Electronics",
        0x2109 => "VIA Labs",
        0x0BDA => "Realtek",
        0x8087 => "Intel",
        0x04B4 => "Cypress",
        0x1D6B => "Linux Foundation",
        0x1A40 => "Terminus Technology",
        0x2188 => "CalDigit",
        0x17EF => "Lenovo",
        0x04E8 => "Samsung",
        0x0409 => "NEC",
        0x0835 => "Action Star Enterprise",
        0x291A => "Anker",
        0x1BCF => "Sunplus",
        0x2D01 | 0x18D1 => "Google",
        0x046D => "Logitech",
        0x1532 => "Razer",
        0x1B1C => "Corsair",
        0x258A => "Hailuck",
        0x0951 => "Kingston",
        0x090C => "Silicon Motion",
        0x0781 => "SanDisk",
        0x0930 => "Toshiba",
        0x13FE => "Phison",
        0x058F => "Alcor Micro",
        0x05E3 => "Genesys Logic",
        0x0451 => "Texas Instruments",
        0x1058 => "Western Digital",
        0x0BC2 => "Seagate",
        0x174C | 0x1B21 => "ASMedia",
        0x0438 | 0x1022 => "AMD",
        0x0955 => "NVIDIA",
        0x056A => "Wacom",
        0x1050 => "Yubico",
        0x045E => "Microsoft",
        0x03F0 => "HP",
        0x413C => "Dell",
        0x04F2 => "Chicony",
        0x0C45 => "Microdia",
        0x0BDB => "Ericsson",
        0x2C7C => "Quectel",
        0x1199 => "Sierra Wireless",
        0x12D1 => "Huawei",
        0x22B8 => "Motorola",
        0x0E8D => "MediaTek",
        0x0763 => "M-Audio",
        0x1235 => "Focusrite",
        0x1397 => "BEHRINGER",
        0x0582 => "Roland",
        0x1043 => "iCreate Technologies",
        0x262A => "Savitech",
        0x37A8 => "Ultimate Gadget Laboratories",
        _ => {
            return None;
        },
    };
    Some(name)
}

/// Look up a USB vendor ID: the vendor's name, or a `"0x...."` hex string
/// when it is not in the bundled table.
pub fn lookup(vid: u16) -> (r: String)
    ensures
        r@ == vendor_text(vid),
{
    match table_name(vid) {
        Some(n) => owned(n),
        None => {
            let mut r = owned("0x");
            push_str(&mut r, hex_padded(vid as u64, 4).as_str());
            r
        },
    }
}

/// A name of the synthetic hex form: starts with `"0x"` or `"0X"`.
pub open spec fn hex_fallback(name: Seq<char>) -> bool {
    name.len() >= 2 && name[0] == '0' && (name[1] == 'x' || name[1] == 'X')
}

/// `true` when `name` is [`lookup`]'s hex fallback rather than a real name.
pub fn is_hex_fallback(name: &str) -> (r: bool)
    ensures
        r == hex_fallback(name@),
{
    let cs = chars_of(name);
    cs.len() >= 2 && cs[0] == '0' && (cs[1] == 'x' || cs[1] == 'X')
}

/// No bundled vendor name reads as a hex fallback: [`is_hex_fallback`]
/// holds of [`lookup`]'s text exactly when the vendor is not in the table.
pub proof fn bundled_names_are_not_hex_fallbacks(vid: u16)
    ensures
        hex_fallback(vendor_text(vid)) <==> known_vendor(vid) is None,
{
    reveal_strlit("0x");
    reveal_strlit("Apple");
    reveal_strlit("ASIX Electronics");
    reveal_strlit("VIA Labs");
    reveal_strlit("Realtek");
    reveal_strlit("Intel");
    reveal_strlit("Cypress");
    reveal_strlit("Linux Foundation");
    reveal_strlit("Terminus Technology");
    reveal_strlit("CalDigit");
    reveal_strlit("Lenovo");
    reveal_strlit("Samsung");
    reveal_strlit("NEC");
    reveal_strlit("Action Star Enterprise");
    reveal_strlit("Anker");
    reveal_strlit("Sunplus");
    reveal_strlit("Google");
    reveal_strlit("Logitech");
    reveal_strlit("Razer");
    reveal_strlit("Corsair");
    reveal_strlit("Hailuck");
    reveal_strlit("Kingston");
    reveal_strlit("Silicon Motion");
    reveal_strlit("SanDisk");
    reveal_strlit("Toshiba");
    reveal_strlit("Phison");
    reveal_strlit("Alcor Micro");
    reveal_strlit("Genesys Logic");
    reveal_strlit("Texas Instruments");
    reveal_strlit("Western Digital");
    reveal_strlit("Seagate");
    reveal_strlit("ASMedia");
    reveal_strlit("AMD");
    reveal_strlit("NVIDIA");
    reveal_strlit("Wacom");
    reveal_strlit("Yubico");
    reveal_strlit("Microsoft");
    reveal_strlit("HP");
    reveal_strlit("Dell");
    reveal_strlit("Chicony");
    reveal_strlit("Microdia");
    reveal_strlit("Ericsson");
    reveal_strlit("Quectel");
    reveal_strlit("Sierra Wireless");
    reveal_strlit("Huawei");
    reveal_strlit("Motorola");
    reveal_strlit("MediaTek");
    reveal_strlit("M-Audio");
    reveal_strlit("Focusrite");
    reveal_strlit("BEHRINGER");
    reveal_strlit("Roland");
    reveal_strlit("iCreate Technologies");
    reveal_strlit("Savitech");
    reveal_strlit("Ultimate Gadget Laboratories");
}

} // verus!
