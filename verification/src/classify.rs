//! Coarse classification of USB devices from interface class codes, bound
//! drivers and product-string heuristics, and the icon of each class.

use vstd::prelude::*;
use crate::text::{has_sub, lower_chars, lower_seq, vec_has, vec_is};
use crate::usb::{UsbDevice, UsbInterface};

verus! {

broadcast use vstd::string::group_string_axioms;

/// Coarse device classification for badging, sorting and search.
#[derive(Debug, Clone, Copy, PartialEq, Eq, Structural)]
pub enum DeviceClass {
    /// HID keyboard.
    Keyboard,
    /// HID mouse.
    Mouse,
    /// HID tablet / digitizer / pen.
    InputTablet,
    /// HID gamepad / joystick / controller.
    Gamepad,
    /// Mass Storage (0x08).
    Storage,
    /// Display-like video device (reserved).
    Display,
    /// Audio (0x01).
    Audio,
    /// Video (0x0E), camera.
    Camera,
    /// Video (0x0E), capture card.
    VideoCapture,
    /// Printer (0x07).
    Printer,
    /// iPhones and Android handsets.
    Phone,
    /// Hub (0x09).
    Hub,
    /// CDC Ethernet or a NIC driver.
    NetworkWired,
    /// Wireless (0xE0) other than Bluetooth.
    NetworkWireless,
    /// FIDO / U2F / smartcard token.
    SecurityKey,
    /// Smart Card / CCID (0x0B).
    SmartcardReader,
    /// Wireless Radio Frequency, Bluetooth protocol.
    Bluetooth,
    /// CDC ACM or a USB-UART bridge driver.
    Serial,
    /// Classification could not narrow the device.
    Unknown,
}

/// A FIDO / security token: Yubico or Nitrokey by vendor ID, others by a
/// product-name keyword (`pl` is the lower-cased product name).
pub open spec fn security_key(vid: u16, pl: Seq<char>) -> bool {
    ||| vid == 0x1050
    ||| vid == 0x20A0
    ||| has_sub(pl, "yubikey"@)
    ||| has_sub(pl, "security key"@)
    ||| has_sub(pl, "nitrokey"@)
    ||| has_sub(pl, "solokey"@)
    ||| has_sub(pl, "onlykey"@)
    ||| has_sub(pl, "titan security"@)
    ||| has_sub(pl, "fido"@)
}

/// Vendor IDs of phone makers.
pub open spec fn phone_vid(vid: u16) -> bool {
    ||| vid == 0x18D1
    ||| vid == 0x04E8
    ||| vid == 0x22B8
    ||| vid == 0x0FCE
    ||| vid == 0x1BBB
    ||| vid == 0x2A70
    ||| vid == 0x2717
    ||| vid == 0x12D1
    ||| vid == 0x19D2
    ||| vid == 0x0BB4
    ||| vid == 0x1004
    ||| vid == 0x0E8D
    ||| vid == 0x2A45
    ||| vid == 0x2916
    ||| vid == 0x05C6
}

/// Some interface has class, subclass and protocol `(c, s, p)`.
pub open spec fn has_iface(ifaces: Seq<UsbInterface>, c: u8, s: u8, p: u8) -> bool {
    exists|i: int|
        0 <= i < ifaces.len() && #[trigger] ifaces[i].class_code == c && ifaces[i].sub_class == s
            && ifaces[i].protocol == p
}

/// Some interface is vendor-specific (class 0xFF).
pub open spec fn has_vendor_iface(ifaces: Seq<UsbInterface>) -> bool {
    exists|i: int| 0 <= i < ifaces.len() && #[trigger] ifaces[i].class_code == 0xFF
}

/// A phone: an Apple iPhone, an `android` product name, the ADB interface
/// signature, PTP beside a vendor-specific interface, or a phone maker's
/// vendor ID with PTP or a vendor-specific interface.
pub open spec fn phone(vid: u16, pl: Seq<char>, ifaces: Seq<UsbInterface>) -> bool {
    let ptp = has_iface(ifaces, 0x06, 0x01, 0x01);
    let vendor_specific = has_vendor_iface(ifaces);
    ||| vid == 0x05AC && has_sub(pl, "iphone"@)
    ||| has_sub(pl, "android"@)
    ||| has_iface(ifaces, 0xFF, 0x42, 0x01)
    ||| ptp && vendor_specific
    ||| phone_vid(vid) && (ptp || vendor_specific)
}

/// A video capture product name.
pub open spec fn capture_card(pl: Seq<char>) -> bool {
    ||| has_sub(pl, "capture"@)
    ||| has_sub(pl, "hdmi"@)
    ||| has_sub(pl, "elgato"@)
    ||| has_sub(pl, "cam link"@)
    ||| has_sub(pl, "magewell"@)
    ||| has_sub(pl, "av.io"@)
    ||| has_sub(pl, "epiphan"@)
}

/// Audio subclass hint from the product name.
pub open spec fn audio_sub(pl: Seq<char>) -> Seq<char> {
    if has_sub(pl, "microphone"@) || has_sub(pl, "mic "@) {
        "microphone"@
    } else if has_sub(pl, "headset"@) || has_sub(pl, "headphone"@) || has_sub(pl, "earbud"@)
        || has_sub(pl, "airpod"@) {
        "headset"@
    } else if has_sub(pl, "dac"@) || has_sub(pl, "interface"@) {
        "dac"@
    } else {
        Seq::empty()
    }
}

/// Mass Storage subclass hint.
pub open spec fn storage_sub(sub: u8) -> Seq<char> {
    if sub == 0x06 {
        "scsi"@
    } else if sub == 0x05 {
        "sff8070i"@
    } else if sub == 0x04 {
        "ufi"@
    } else if sub == 0x02 {
        "atapi"@
    } else {
        Seq::empty()
    }
}

/// The classification one interface settles on its own, if any.
pub open spec fn iface_class(i: UsbInterface, pl: Seq<char>) -> Option<(DeviceClass, Seq<char>)> {
    if i.class_code == 0x0B {
        Some((DeviceClass::SmartcardReader, Seq::empty()))
    } else if i.class_code == 0x07 {
        Some((DeviceClass::Printer, Seq::empty()))
    } else if i.class_code == 0x08 {
        Some((DeviceClass::Storage, storage_sub(i.sub_class)))
    } else if i.class_code == 0x01 {
        Some((DeviceClass::Audio, audio_sub(pl)))
    } else if i.class_code == 0x0E {
        if capture_card(pl) {
            Some((DeviceClass::VideoCapture, "capture"@))
        } else {
            Some((DeviceClass::Camera, "webcam"@))
        }
    } else if i.class_code == 0xE0 {
        if i.sub_class == 0x01 && i.protocol == 0x01 {
            Some((DeviceClass::Bluetooth, Seq::empty()))
        } else {
            Some((DeviceClass::NetworkWireless, Seq::empty()))
        }
    } else if i.class_code == 0x02 && i.sub_class == 0x06 {
        Some((DeviceClass::NetworkWired, Seq::empty()))
    } else if i.class_code == 0x02 && i.sub_class == 0x02 {
        Some((DeviceClass::Serial, Seq::empty()))
    } else {
        None
    }
}

/// The first interface, in order, that settles the classification.
pub open spec fn first_iface_class(ifaces: Seq<UsbInterface>, pl: Seq<char>) -> Option<
    (DeviceClass, Seq<char>),
>
    decreases ifaces.len(),
{
    if ifaces.len() == 0 {
        None
    } else {
        match iface_class(ifaces[0], pl) {
            Some(r) => Some(r),
            None => first_iface_class(ifaces.drop_first(), pl),
        }
    }
}

/// The driver of the first interface with one bound, or empty.
pub open spec fn primary_driver_of(ifaces: Seq<UsbInterface>) -> Seq<char>
    decreases ifaces.len(),
{
    if ifaces.len() == 0 {
        Seq::empty()
    } else if ifaces[0].driver@.len() > 0 {
        ifaces[0].driver@
    } else {
        primary_driver_of(ifaces.drop_first())
    }
}

/// Drivers of USB-to-UART bridges.
pub open spec fn serial_driver(d: Seq<char>) -> bool {
    ||| d == "ftdi_sio"@
    ||| d == "cp210x"@
    ||| d == "ch341"@
    ||| d == "ch340"@
    ||| d == "pl2303"@
    ||| d == "ti_usb_3410_5052"@
    ||| d == "mos7720"@
    ||| d == "mos7840"@
    ||| d == "ark3116"@
    ||| d == "io_ti"@
}

/// Drivers of USB-to-Ethernet NICs.
pub open spec fn ethernet_driver(d: Seq<char>) -> bool {
    ||| d == "cdc_ether"@
    ||| d == "r8152"@
    ||| d == "asix"@
    ||| d == "ax88179_178a"@
    ||| d == "ax88172a"@
    ||| d == "rndis_host"@
    ||| d == "smsc75xx"@
    ||| d == "smsc95xx"@
    ||| d == "lan78xx"@
}

/// Some HID interface (class 0x03) has protocol `p`.
pub open spec fn hid_with(ifaces: Seq<UsbInterface>, p: u8) -> bool {
    exists|i: int|
        0 <= i < ifaces.len() && #[trigger] ifaces[i].class_code == 0x03 && ifaces[i].protocol == p
}

/// Some HID interface has a protocol other than keyboard or mouse.
pub open spec fn hid_other(ifaces: Seq<UsbInterface>) -> bool {
    exists|i: int|
        0 <= i < ifaces.len() && #[trigger] ifaces[i].class_code == 0x03 && ifaces[i].protocol != 1
            && ifaces[i].protocol != 2
}

/// A tablet-like product name.
pub open spec fn tablet_name(pl: Seq<char>) -> bool {
    has_sub(pl, "tablet"@) || has_sub(pl, "digitizer"@) || has_sub(pl, "pen"@) || has_sub(
        pl,
        "wacom"@,
    )
}

/// A gamepad-like product name.
pub open spec fn gamepad_name(pl: Seq<char>) -> bool {
    has_sub(pl, "gamepad"@) || has_sub(pl, "joystick"@) || has_sub(pl, "controller"@) || has_sub(
        pl,
        "xbox"@,
    ) || has_sub(pl, "dualshock"@)
}

/// The classification of a device: hubs first, then security keys (before
/// HID, since tokens advertise HID), phones, the first interface that
/// settles it, bridge and NIC drivers, and the HID protocols.
pub open spec fn classification(
    is_hub: bool,
    vid: u16,
    product: Seq<char>,
    ifaces: Seq<UsbInterface>,
) -> (DeviceClass, Seq<char>) {
    let pl = lower_seq(product);
    let driver = lower_seq(primary_driver_of(ifaces));
    if is_hub {
        (DeviceClass::Hub, Seq::empty())
    } else if security_key(vid, pl) {
        (DeviceClass::SecurityKey, Seq::empty())
    } else if phone(vid, pl, ifaces) {
        (DeviceClass::Phone, Seq::empty())
    } else if first_iface_class(ifaces, pl) is Some {
        first_iface_class(ifaces, pl)->0
    } else if serial_driver(driver) {
        (DeviceClass::Serial, Seq::empty())
    } else if ethernet_driver(driver) {
        (DeviceClass::NetworkWired, Seq::empty())
    } else if hid_with(ifaces, 1) {
        (DeviceClass::Keyboard, Seq::empty())
    } else if hid_with(ifaces, 2) {
        (DeviceClass::Mouse, Seq::empty())
    } else if hid_other(ifaces) && tablet_name(pl) {
        (DeviceClass::InputTablet, Seq::empty())
    } else if hid_other(ifaces) && gamepad_name(pl) {
        (DeviceClass::Gamepad, Seq::empty())
    } else {
        (DeviceClass::Unknown, Seq::empty())
    }
}

/// `true` when some interface matches `(c, s, p)`.
fn iface_matches(ifaces: &Vec<UsbInterface>, c: u8, s: u8, p: u8) -> (r: bool)
    ensures
        r == has_iface(ifaces@, c, s, p),
{
    let mut i: usize = 0;
    while i < ifaces.len()
        invariant
            i <= ifaces.len(),
            forall|k: int|
                0 <= k < i ==> !(#[trigger] ifaces@[k].class_code == c && ifaces@[k].sub_class == s
                    && ifaces@[k].protocol == p),
        decreases ifaces.len() - i,
    {
        if ifaces[i].class_code == c && ifaces[i].sub_class == s && ifaces[i].protocol == p {
            return true;
        }
        i = i + 1;
    }
    false
}

fn is_security_key(vid: u16, pl: &Vec<char>) -> (r: bool)
    ensures
        r == security_key(vid, pl@),
{
    vid == 0x1050 || vid == 0x20A0 || vec_has(pl, "yubikey") || vec_has(pl, "security key")
        || vec_has(pl, "nitrokey") || vec_has(pl, "solokey") || vec_has(pl, "onlykey") || vec_has(
        pl,
        "titan security",
    ) || vec_has(pl, "fido")
}

fn is_phone_vid(vid: u16) -> (r: bool)
    ensures
        r == phone_vid(vid),
{
    vid == 0x18D1 || vid == 0x04E8 || vid == 0x22B8 || vid == 0x0FCE || vid == 0x1BBB || vid
        == 0x2A70 || vid == 0x2717 || vid == 0x12D1 || vid == 0x19D2 || vid == 0x0BB4 || vid
        == 0x1004 || vid == 0x0E8D || vid == 0x2A45 || vid == 0x2916 || vid == 0x05C6
}

fn is_phone(vid: u16, pl: &Vec<char>, ifaces: &Vec<UsbInterface>) -> (r: bool)
    ensures
        r == phone(vid, pl@, ifaces@),
{
    if vid == 0x05AC && vec_has(pl, "iphone") {
        return true;
    }
    if vec_has(pl, "android") {
        return true;
    }
    if iface_matches(ifaces, 0xFF, 0x42, 0x01) {
        return true;
    }
    let has_ptp = iface_matches(ifaces, 0x06, 0x01, 0x01);
    let mut vendor_specific = false;
    let mut i: usize = 0;
    while i < ifaces.len()
        invariant
            i <= ifaces.len(),
            vendor_specific == exists|k: int| 0 <= k < i && #[trigger] ifaces@[k].class_code == 0xFF,
        decreases ifaces.len() - i,
    {
        if ifaces[i].class_code == 0xFF {
            vendor_specific = true;
        }
        i = i + 1;
    }
    if has_ptp && vendor_specific {
        return true;
    }
    is_phone_vid(vid) && (has_ptp || vendor_specific)
}

fn is_capture_card(pl: &Vec<char>) -> (r: bool)
    ensures
        r == capture_card(pl@),
{
    vec_has(pl, "capture") || vec_has(pl, "hdmi") || vec_has(pl, "elgato") || vec_has(
        pl,
        "cam link",
    ) || vec_has(pl, "magewell") || vec_has(pl, "av.io") || vec_has(pl, "epiphan")
}

fn audio_subclass(pl: &Vec<char>) -> (r: &'static str)
    ensures
        r@ == audio_sub(pl@),
{
    proof {
        reveal_strlit("");
    }
    if vec_has(pl, "microphone") || vec_has(pl, "mic ") {
        "microphone"
    } else if vec_has(pl, "headset") || vec_has(pl, "headphone") || vec_has(pl, "earbud")
        || vec_has(pl, "airpod") {
        "headset"
    } else if vec_has(pl, "dac") || vec_has(pl, "interface") {
        "dac"
    } else {
        ""
    }
}

fn storage_subclass(sub: u8) -> (r: &'static str)
    ensures
        r@ == storage_sub(sub),
{
    proof {
        reveal_strlit("");
    }
    match sub {
        0x06 => "scsi",
        0x05 => "sff8070i",
        0x04 => "ufi",
        0x02 => "atapi",
        _ => "",
    }
}

/// What one interface settles, as owned text.
fn classify_iface(i: &UsbInterface, pl: &Vec<char>) -> (r: Option<(DeviceClass, String)>)
    ensures
        match r {
            Some(v) => iface_class(*i, pl@) == Some((v.0, v.1@)),
            None => iface_class(*i, pl@) is None,
        },
{
    proof {
        reveal_strlit("");
    }
    match i.class_code {
        0x0B => Some((DeviceClass::SmartcardReader, String::new())),
        0x07 => Some((DeviceClass::Printer, String::new())),
        0x08 => Some((DeviceClass::Storage, String::from_str(storage_subclass(i.sub_class)))),
        0x01 => Some((DeviceClass::Audio, String::from_str(audio_subclass(pl)))),
        0x0E => {
            if is_capture_card(pl) {
                Some((DeviceClass::VideoCapture, String::from_str("capture")))
            } else {
                Some((DeviceClass::Camera, String::from_str("webcam")))
            }
        },
        0xE0 => {
            if i.sub_class == 0x01 && i.protocol == 0x01 {
                Some((DeviceClass::Bluetooth, String::new()))
            } else {
                Some((DeviceClass::NetworkWireless, String::new()))
            }
        },
        0x02 => match i.sub_class {
            0x06 => Some((DeviceClass::NetworkWired, String::new())),
            0x02 => Some((DeviceClass::Serial, String::new())),
            _ => None,
        },
        _ => None,
    }
}

/// Driver bound to the first interface that has one; empty when none is
/// bound.
pub fn primary_driver(dev: &UsbDevice) -> (r: String)
    ensures
        r@ == primary_driver_of(dev.interfaces@),
{
    let ghost ifs = dev.interfaces@;
    let mut i: usize = 0;
    assert(ifs.subrange(0, ifs.len() as int) =~= ifs);
    while i < dev.interfaces.len()
        invariant
            ifs == dev.interfaces@,
            i <= ifs.len(),
            primary_driver_of(ifs) == primary_driver_of(ifs.subrange(i as int, ifs.len() as int)),
        decreases ifs.len() - i,
    {
        assert(ifs.subrange(i as int, ifs.len() as int).drop_first() =~= ifs.subrange(
            i + 1,
            ifs.len() as int,
        ));
        if dev.interfaces[i].driver.as_str().unicode_len() > 0 {
            return dev.interfaces[i].driver.clone();
        }
        i = i + 1;
    }
    String::new()
}

fn is_serial_driver(d: &Vec<char>) -> (r: bool)
    ensures
        r == serial_driver(d@),
{
    vec_is(d, "ftdi_sio") || vec_is(d, "cp210x") || vec_is(d, "ch341") || vec_is(d, "ch340")
        || vec_is(d, "pl2303") || vec_is(d, "ti_usb_3410_5052") || vec_is(d, "mos7720") || vec_is(
        d,
        "mos7840",
    ) || vec_is(d, "ark3116") || vec_is(d, "io_ti")
}

fn is_ethernet_driver(d: &Vec<char>) -> (r: bool)
    ensures
        r == ethernet_driver(d@),
{
    vec_is(d, "cdc_ether") || vec_is(d, "r8152") || vec_is(d, "asix") || vec_is(d, "ax88179_178a")
        || vec_is(d, "ax88172a") || vec_is(d, "rndis_host") || vec_is(d, "smsc75xx") || vec_is(
        d,
        "smsc95xx",
    ) || vec_is(d, "lan78xx")
}

/// Classify a device into a coarse [`DeviceClass`] and an optional
/// subclass hint (`"scsi"`, `"webcam"`, `"headset"`, …).
pub fn classify_usb(dev: &UsbDevice) -> (r: (DeviceClass, String))
    ensures
        (r.0, r.1@) == classification(dev.is_hub, dev.vendor_id, dev.product@, dev.interfaces@),
{
    proof {
        reveal_strlit("");
    }
    if dev.is_hub {
        return (DeviceClass::Hub, String::new());
    }
    let pl = lower_chars(dev.product.as_str());
    if is_security_key(dev.vendor_id, &pl) {
        return (DeviceClass::SecurityKey, String::new());
    }
    if is_phone(dev.vendor_id, &pl, &dev.interfaces) {
        return (DeviceClass::Phone, String::new());
    }
    let driver = primary_driver(dev);
    let driver_l = lower_chars(driver.as_str());
    let ghost ifs = dev.interfaces@;
    let mut hid_keyboard = false;
    let mut hid_mouse = false;
    let mut hid_rest = false;
    let mut i: usize = 0;
    assert(ifs.subrange(0, ifs.len() as int) =~= ifs);
    while i < dev.interfaces.len()
        invariant
            ifs == dev.interfaces@,
            i <= ifs.len(),
            pl@ == lower_seq(dev.product@),
            !dev.is_hub,
            !security_key(dev.vendor_id, pl@),
            !phone(dev.vendor_id, pl@, ifs),
            first_iface_class(ifs, pl@) == first_iface_class(
                ifs.subrange(i as int, ifs.len() as int),
                pl@,
            ),
            hid_keyboard == exists|k: int|
                0 <= k < i && #[trigger] ifs[k].class_code == 0x03 && ifs[k].protocol == 1,
            hid_mouse == exists|k: int|
                0 <= k < i && #[trigger] ifs[k].class_code == 0x03 && ifs[k].protocol == 2,
            hid_rest == exists|k: int|
                0 <= k < i && #[trigger] ifs[k].class_code == 0x03 && ifs[k].protocol != 1
                    && ifs[k].protocol != 2,
        decreases ifs.len() - i,
    {
        assert(ifs.subrange(i as int, ifs.len() as int).drop_first() =~= ifs.subrange(
            i + 1,
            ifs.len() as int,
        ));
        let iface = &dev.interfaces[i];
        assert(ifs.subrange(i as int, ifs.len() as int)[0] == ifs[i as int]);
        match classify_iface(iface, &pl) {
            Some(v) => {
                return v;
            },
            None => {},
        }
        if iface.class_code == 0x03 {
            if iface.protocol == 0x01 {
                hid_keyboard = true;
            } else if iface.protocol == 0x02 {
                hid_mouse = true;
            } else {
                hid_rest = true;
            }
        }
        i = i + 1;
    }
    assert(first_iface_class(ifs, pl@) is None);
    if is_serial_driver(&driver_l) {
        return (DeviceClass::Serial, String::new());
    }
    if is_ethernet_driver(&driver_l) {
        return (DeviceClass::NetworkWired, String::new());
    }
    if hid_keyboard {
        return (DeviceClass::Keyboard, String::new());
    }
    if hid_mouse {
        return (DeviceClass::Mouse, String::new());
    }
    if hid_rest {
        if vec_has(&pl, "tablet") || vec_has(&pl, "digitizer") || vec_has(&pl, "pen") || vec_has(
            &pl,
            "wacom",
        ) {
            return (DeviceClass::InputTablet, String::new());
        }
        if vec_has(&pl, "gamepad") || vec_has(&pl, "joystick") || vec_has(&pl, "controller")
            || vec_has(&pl, "xbox") || vec_has(&pl, "dualshock") {
            return (DeviceClass::Gamepad, String::new());
        }
    }
    (DeviceClass::Unknown, String::new())
}

/// Freedesktop icon name of a class.
pub open spec fn class_icon(class: DeviceClass) -> Seq<char> {
    match class {
        DeviceClass::Keyboard => "input-keyboard"@,
        DeviceClass::Mouse => "input-mouse"@,
        DeviceClass::InputTablet => "input-tablet"@,
        DeviceClass::Gamepad => "input-gaming"@,
        DeviceClass::Storage => "drive-removable-media"@,
        DeviceClass::Display => "video-display"@,
        DeviceClass::Audio => "audio-card"@,
        DeviceClass::Camera => "camera-web"@,
        DeviceClass::VideoCapture => "camera-video"@,
        DeviceClass::Printer => "printer"@,
        DeviceClass::Phone => "phone"@,
        DeviceClass::Hub => "network-wired"@,
        DeviceClass::NetworkWired => "network-wired"@,
        DeviceClass::NetworkWireless => "network-wireless"@,
        DeviceClass::SecurityKey => "auth-smartcard"@,
        DeviceClass::SmartcardReader => "auth-smartcard"@,
        DeviceClass::Bluetooth => "bluetooth"@,
        DeviceClass::Serial => "utilities-terminal"@,
        DeviceClass::Unknown => "drive-removable-media-usb"@,
    }
}

/// Icon name for a class.
pub fn icon_for_class(class: DeviceClass) -> (r: &'static str)
    ensures
        r@ == class_icon(class),
{
    match class {
        DeviceClass::Keyboard => "input-keyboard",
        DeviceClass::Mouse => "input-mouse",
        DeviceClass::InputTablet => "input-tablet",
        DeviceClass::Gamepad => "input-gaming",
        DeviceClass::Storage => "drive-removable-media",
        DeviceClass::Display => "video-display",
        DeviceClass::Audio => "audio-card",
        DeviceClass::Camera => "camera-web",
        DeviceClass::VideoCapture => "camera-video",
        DeviceClass::Printer => "printer",
        DeviceClass::Phone => "phone",
        DeviceClass::Hub => "network-wired",
        DeviceClass::NetworkWired => "network-wired",
        DeviceClass::NetworkWireless => "network-wireless",
        DeviceClass::SecurityKey => "auth-smartcard",
        DeviceClass::SmartcardReader => "auth-smartcard",
        DeviceClass::Bluetooth => "bluetooth",
        DeviceClass::Serial => "utilities-terminal",
        DeviceClass::Unknown => "drive-removable-media-usb",
    }
}

/// Icon of a class, with headphones for headset-like audio devices.
pub open spec fn refined_icon(class: DeviceClass, sub: Seq<char>) -> Seq<char> {
    if class == DeviceClass::Audio && (sub == "headset"@ || has_sub(sub, "headphone"@) || sub
        == "earbud"@) {
        "audio-headphones"@
    } else {
        class_icon(class)
    }
}

/// Icon for a class and subclass hint.
pub fn refine_audio_icon(class: DeviceClass, subclass: &str) -> (r: &'static str)
    ensures
        r@ == refined_icon(class, subclass@),
{
    let sub = crate::text::chars_of(subclass);
    if class == DeviceClass::Audio && (vec_is(&sub, "headset") || vec_has(&sub, "headphone")
        || vec_is(&sub, "earbud")) {
        "audio-headphones"
    } else {
        icon_for_class(class)
    }
}

} // verus!
