//! Plain-data summary of a USB device or Type-C port.
//!
//! [`DeviceSummary`] carries a coarse classification, the identity fields,
//! the transport figures and a list of `(machine_key, value)` properties
//! for everything that has no typed field. It carries machine keys only:
//! display prose belongs to the renderers.

use vstd::prelude::*;
pub use crate::classify::{classify_usb, DeviceClass};
use crate::cable::CableInfo;
use crate::classify::{
    classification, primary_driver, primary_driver_of, refine_audio_icon, refined_icon,
};
use crate::diagnostic::ChargingDiagnostic;
use crate::power::{inferred, PowerDeliveryPort};
use crate::diagnostic::{diagnosis, first_active};
use crate::fixed::{scaled_string, scaled_text};
use crate::pd::{
    cable_current_label, cable_current_text, cable_speed_label, cable_speed_text, decode_id_header,
    id_header_of, product_type_label, product_type_text, ProductType,
};
use crate::typec::{bracketed, bracketed_text, negotiated_mw, port_copy, TypeCPowerSupply};
use crate::power::pd_copy;
use crate::text::{int_seq, int_string, lower_chars, lower_seq, vec_is};
use crate::text::{
    dec_seq, dec_string, join, join_seq, owned, push_str, str_eq,
};
use crate::typec::TypeCPort;
use crate::usb::{usb_tree_copy, vid_pid_text, UsbDevice, UsbInterface};
use crate::usbclass::{class_name, class_text};
use crate::vendor::{hex_fallback, is_hex_fallback, lookup, vendor_text};
use crate::version::{canonical_usb_version, version_text};

verus! {

broadcast use vstd::string::group_string_axioms;

/// High-level grouping of a summary.
#[derive(Debug, Clone, Copy, PartialEq, Eq, Structural)]
pub enum Category {
    /// Plain USB peripheral.
    UsbDevice,
    /// USB Type-C port, with or without a partner.
    TypeCPort,
    /// USB hub.
    Hub,
}

/// Connection and power-flow status.
#[derive(Debug, Clone, Copy, PartialEq, Eq, Structural)]
pub enum Status {
    /// Type-C port with nothing attached.
    Empty,
    /// Attached, no power contract in either direction (or a USB device).
    Connected,
    /// We are sinking PD power from this port.
    Charging,
    /// We are sourcing power through this port.
    Sourcing,
}

/// PD power role of a port: the contract direction when there is one,
/// else the capability.
#[derive(Debug, Clone, Copy, PartialEq, Eq, Structural)]
pub enum PowerRole {
    /// Sourcing power out through this port.
    Source,
    /// Sinking power in through this port.
    Sink,
    /// Dual-role capable, no contract.
    DualRole,
    /// No PD information.
    Unknown,
}

/// Power flow of one entry. PD figures are negotiated ceilings, not
/// measurements; all zero for entries without PD.
#[derive(Debug, Clone, Copy, PartialEq, Eq, Structural)]
pub struct PowerSummary {
    /// Power the sink requests through this port (into the host), mW.
    pub power_in_mw: u32,
    /// Power flowing out of the host through this port, mW.
    pub power_out_mw: u32,
    /// What the active PDO contract allows, mW; zero when no active PDO is
    /// known.
    pub contract_mw: u32,
    /// Contract direction, or capability without a contract.
    pub power_role: PowerRole,
}

impl Default for PowerSummary {
    fn default() -> (r: Self)
        ensures
            r == (PowerSummary {
                power_in_mw: 0,
                power_out_mw: 0,
                contract_mw: 0,
                power_role: PowerRole::Unknown,
            }),
    {
        PowerSummary { power_in_mw: 0, power_out_mw: 0, contract_mw: 0, power_role: PowerRole::Unknown }
    }
}

/// One renderable summary entry.
#[derive(Debug)]
pub struct DeviceSummary {
    /// Grouping for colour and iconography.
    pub category: Category,
    /// Coarse classification; `Unknown` for Type-C ports.
    pub device_class: DeviceClass,
    /// Advisory fine-grain class hint; empty by default.
    pub device_subclass: String,
    /// Connection / power flow state.
    pub status: Status,
    /// Single-line title.
    pub headline: String,
    /// Single-line subtitle.
    pub subtitle: String,
    /// Freedesktop icon name.
    pub icon: String,
    /// Manufacturer (descriptor, or vendor table), or empty.
    pub vendor: String,
    /// Product descriptor, or empty.
    pub product: String,
    /// `idVendor`; zero for non-USB entries.
    pub vendor_id: u16,
    /// `idProduct`; zero for non-USB entries.
    pub product_id: u16,
    /// Driver of the first interface with one; empty when none.
    pub primary_driver: String,
    /// `(machine_key, value)` pairs.
    pub properties: Vec<(String, String)>,
    /// Negotiated link speed, Mbps; zero when unknown.
    pub link_speed_mbps: u32,
    /// Canonical USB version (`"2.0"`, `"3.2"`); empty when unknown.
    pub usb_version: String,
    /// Power flow.
    pub power: PowerSummary,
    /// Charging diagnostic, for ports paired with a charger.
    pub charging_diag: Option<ChargingDiagnostic>,
    /// The USB device this summary describes, if any.
    pub usb_device: Option<UsbDevice>,
    /// The Type-C port this summary describes, if any.
    pub typec_port: Option<TypeCPort>,
    /// Companion PD port of `typec_port`.
    pub power_delivery: Option<PowerDeliveryPort>,
    /// Decoded cable of `typec_port`.
    pub cable: Option<CableInfo>,
}

/// `a` holds what the summary `b` holds: equal fields and properties, and
/// copies of the records it carries.
pub open spec fn summary_copy(a: DeviceSummary, b: DeviceSummary) -> bool {
    &&& a.category == b.category
    &&& a.device_class == b.device_class
    &&& a.device_subclass == b.device_subclass
    &&& a.status == b.status
    &&& a.headline == b.headline
    &&& a.subtitle == b.subtitle
    &&& a.icon == b.icon
    &&& a.vendor == b.vendor
    &&& a.product == b.product
    &&& a.vendor_id == b.vendor_id
    &&& a.product_id == b.product_id
    &&& a.primary_driver == b.primary_driver
    &&& props_view(a.properties@) == props_view(b.properties@)
    &&& a.link_speed_mbps == b.link_speed_mbps
    &&& a.usb_version == b.usb_version
    &&& a.power == b.power
    &&& a.charging_diag == b.charging_diag
    &&& summary_id(a) == summary_id(b)
    &&& match (a.typec_port, b.typec_port) {
        (Some(x), Some(y)) => port_copy(x, y),
        (None, None) => true,
        _ => false,
    }
    &&& match (a.usb_device, b.usb_device) {
        (Some(x), Some(y)) => usb_tree_copy(x, y),
        (None, None) => true,
        _ => false,
    }
    &&& match (a.power_delivery, b.power_delivery) {
        (Some(x), Some(y)) => pd_copy(x, y),
        (None, None) => true,
        _ => false,
    }
    &&& match (a.cable, b.cable) {
        (Some(x), Some(y)) => x@ == y@ && x.raw_attributes@ == y.raw_attributes@,
        (None, None) => true,
        _ => false,
    }
}

impl Clone for DeviceSummary {
    /// A copy of the summary; the records it carries are copied with their
    /// own `clone`.
    fn clone(&self) -> (r: Self)
        ensures
            summary_copy(r, *self),
    {
        let mut properties: Vec<(String, String)> = Vec::new();
        let mut i: usize = 0;
        while i < self.properties.len()
            invariant
                i <= self.properties@.len(),
                props_view(properties@) == props_view(self.properties@.take(i as int)),
            decreases self.properties@.len() - i,
        {
            let k = self.properties[i].0.clone();
            let v = self.properties[i].1.clone();
            let ghost before = properties@;
            properties.push((k, v));
            assert(properties@ == before.push((k, v)));
            assert(self.properties@.take(i + 1) =~= self.properties@.take(i as int).push(
                self.properties@[i as int],
            ));
            assert(k == self.properties@[i as int].0);
            assert(v == self.properties@[i as int].1);
            assert(props_view(properties@) =~= props_view(self.properties@.take(i as int)).push(
                (k@, v@),
            ));
            assert(props_view(properties@) =~= props_view(self.properties@.take(i + 1)));
            i = i + 1;
        }
        assert(self.properties@.take(i as int) =~= self.properties@);
        DeviceSummary {
            category: self.category,
            device_class: self.device_class,
            device_subclass: self.device_subclass.clone(),
            status: self.status,
            headline: self.headline.clone(),
            subtitle: self.subtitle.clone(),
            icon: self.icon.clone(),
            vendor: self.vendor.clone(),
            product: self.product.clone(),
            vendor_id: self.vendor_id,
            product_id: self.product_id,
            primary_driver: self.primary_driver.clone(),
            properties,
            link_speed_mbps: self.link_speed_mbps,
            usb_version: self.usb_version.clone(),
            power: self.power,
            charging_diag: match &self.charging_diag {
                Some(d) => Some(d.clone()),
                None => None,
            },
            usb_device: match &self.usb_device {
                Some(d) => Some(d.clone()),
                None => None,
            },
            typec_port: match &self.typec_port {
                Some(p) => Some(p.clone()),
                None => None,
            },
            power_delivery: match &self.power_delivery {
                Some(p) => Some(p.clone()),
                None => None,
            },
            cable: match &self.cable {
                Some(c) => Some(c.clone()),
                None => None,
            },
        }
    }
}

/// The properties as text pairs.
pub open spec fn props_view(p: Seq<(String, String)>) -> Seq<(Seq<char>, Seq<char>)> {
    p.map_values(|kv: (String, String)| (kv.0@, kv.1@))
}

/// Append `(k, v)` to a property list.
pub fn push_prop(props: &mut Vec<(String, String)>, k: &str, v: String)
    ensures
        props_view(final(props)@) == props_view(old(props)@).push((k@, v@)),
{
    props.push((owned(k), v));
    assert(props_view(props@) =~= props_view(old(props)@).push((k@, v@)));
}

/// Stable identifier: `"typec:<port>"`, `"usb:<bus_port>"`, or empty.
pub open spec fn summary_id(s: DeviceSummary) -> Seq<char> {
    match s.typec_port {
        Some(p) => "typec:"@ + p.port_name@,
        None => match s.usb_device {
            Some(d) => "usb:"@ + d.bus_port@,
            None => Seq::empty(),
        },
    }
}

impl DeviceSummary {
    /// Stable identifier for diffing two snapshots.
    pub fn id(&self) -> (r: String)
        ensures
            r@ == summary_id(*self),
    {
        match &self.typec_port {
            Some(p) => {
                let mut r = owned("typec:");
                push_str(&mut r, p.port_name.as_str());
                r
            },
            None => match &self.usb_device {
                Some(d) => {
                    let mut r = owned("usb:");
                    push_str(&mut r, d.bus_port.as_str());
                    r
                },
                None => String::new(),
            },
        }
    }
}

/// Distinct class labels of the interfaces, in first-seen order, leaving
/// out `"Composite"` and unknown (hex) classes.
pub open spec fn iface_types(ifaces: Seq<UsbInterface>) -> Seq<Seq<char>>
    decreases ifaces.len(),
{
    if ifaces.len() == 0 {
        Seq::empty()
    } else {
        let prev = iface_types(ifaces.drop_last());
        let t = class_text(ifaces.last().class_code);
        if t == "Composite"@ || hex_fallback(t) || prev.contains(t) {
            prev
        } else {
            prev.push(t)
        }
    }
}

/// What kind of device this is, in words: the device class label when the
/// device declares one (neither 0 nor 0xFF), else the interface labels
/// joined with `", "`.
pub open spec fn device_type(class: u8, ifaces: Seq<UsbInterface>) -> Seq<char> {
    if class != 0 && class != 0xFF {
        class_text(class)
    } else {
        join_seq(iface_types(ifaces), ", "@)
    }
}

/// Distinct non-empty interface drivers, in first-seen order.
pub open spec fn drivers_of(ifaces: Seq<UsbInterface>) -> Seq<Seq<char>>
    decreases ifaces.len(),
{
    if ifaces.len() == 0 {
        Seq::empty()
    } else {
        let prev = drivers_of(ifaces.drop_last());
        let d = ifaces.last().driver@;
        if d.len() == 0 || prev.contains(d) {
            prev
        } else {
            prev.push(d)
        }
    }
}

/// Subtitle of a USB device: the vendor name when the vendor is known,
/// and the device type, joined with `" · "`.
pub open spec fn usb_subtitle(vid: u16, dtype: Seq<char>) -> Seq<char> {
    let vn = vendor_text(vid);
    let s1 = if !hex_fallback(vn) {
        vn
    } else {
        Seq::empty()
    };
    if dtype.len() > 0 {
        if s1.len() > 0 {
            s1 + " · "@ + dtype
        } else {
            dtype
        }
    } else {
        s1
    }
}

/// Vendor shown for a USB device: the manufacturer descriptor, else the
/// vendor table's name when known, else empty.
pub open spec fn usb_vendor(manufacturer: Seq<char>, vid: u16) -> Seq<char> {
    if manufacturer.len() > 0 {
        manufacturer
    } else if !hex_fallback(vendor_text(vid)) {
        vendor_text(vid)
    } else {
        Seq::empty()
    }
}

/// Headline of a USB device: the product descriptor; else the vendor and
/// the device type (each when non-empty, the type only when it differs
/// from the vendor) joined with a space; else `"vvvv:pppp"`.
pub open spec fn usb_headline(product: Seq<char>, vendor: Seq<char>, dtype: Seq<char>, vid: u16, pid: u16) -> Seq<char> {
    if product.len() > 0 {
        product
    } else if vendor.len() > 0 && dtype.len() > 0 && dtype != vendor {
        vendor + " "@ + dtype
    } else if vendor.len() > 0 {
        vendor
    } else if dtype.len() > 0 {
        dtype
    } else {
        vid_pid_text(vid, pid)
    }
}

/// Properties of a USB device, in order: serial, mount (removable or
/// fixed), drivers (when more than one), declared draw, and the USB 2 / USB 3
/// transport flags.
pub open spec fn usb_props(d: UsbDevice) -> Seq<(Seq<char>, Seq<char>)> {
    let p0 = Seq::<(Seq<char>, Seq<char>)>::empty();
    let p1 = if d.serial@.len() > 0 {
        p0.push(("serial"@, d.serial@))
    } else {
        p0
    };
    let p2 = if d.removable@ == "removable"@ || d.removable@ == "fixed"@ {
        p1.push(("mount"@, d.removable@))
    } else {
        p1
    };
    let drivers = drivers_of(d.interfaces@);
    let p3 = if drivers.len() > 1 {
        p2.push(("drivers"@, join_seq(drivers, ", "@)))
    } else {
        p2
    };
    let p4 = if d.max_power_ma > 0 {
        p3.push(("usb_power_ma"@, dec_seq(d.max_power_ma as nat)))
    } else {
        p3
    };
    let p5 = if 1 <= d.speed <= 480 {
        p4.push(("transport.usb2"@, "true"@))
    } else {
        p4
    };
    if d.speed >= 5000 {
        p5.push(("transport.usb3"@, "true"@))
    } else {
        p5
    }
}

/// The device type text of `dev`.
fn device_type_text(dev: &UsbDevice) -> (r: String)
    ensures
        r@ == device_type(dev.device_class, dev.interfaces@),
{
    if dev.device_class != 0 && dev.device_class != 0xFF {
        return class_name(dev.device_class);
    }
    let ghost ifs = dev.interfaces@;
    let mut types: Vec<String> = Vec::new();
    let mut i: usize = 0;
    proof {
        reveal_strlit("Composite");
    }
    while i < dev.interfaces.len()
        invariant
            ifs == dev.interfaces@,
            i <= ifs.len(),
            types@.map_values(|t: String| t@) == iface_types(ifs.take(i as int)),
        decreases ifs.len() - i,
    {
        assert(ifs.take(i + 1).drop_last() =~= ifs.take(i as int));
        let ghost before = types@.map_values(|t: String| t@);
        let t = class_name(dev.interfaces[i].class_code);
        let skip = str_eq(t.as_str(), "Composite") || is_hex_fallback(t.as_str());
        if !skip {
            let mut seen = false;
            let mut j: usize = 0;
            while j < types.len()
                invariant
                    j <= types.len(),
                    before == types@.map_values(|t: String| t@),
                    seen == exists|k: int| 0 <= k < j && before[k] == t@,
                decreases types.len() - j,
            {
                assert(before[j as int] == types@[j as int]@);
                if str_eq(types[j].as_str(), t.as_str()) {
                    seen = true;
                }
                j = j + 1;
            }
            assert(seen == before.contains(t@));
            if !seen {
                types.push(t);
                assert(types@.map_values(|t: String| t@) =~= before.push(t@));
            }
        }
        i = i + 1;
    }
    assert(ifs.take(i as int) =~= ifs);
    proof {
        reveal_strlit(", ");
    }
    join(&types, ", ")
}

/// Distinct non-empty interface drivers of `dev`.
fn unique_drivers(dev: &UsbDevice) -> (r: Vec<String>)
    ensures
        r@.map_values(|t: String| t@) == drivers_of(dev.interfaces@),
{
    let ghost ifs = dev.interfaces@;
    let mut out: Vec<String> = Vec::new();
    let mut i: usize = 0;
    while i < dev.interfaces.len()
        invariant
            ifs == dev.interfaces@,
            i <= ifs.len(),
            out@.map_values(|t: String| t@) == drivers_of(ifs.take(i as int)),
        decreases ifs.len() - i,
    {
        assert(ifs.take(i + 1).drop_last() =~= ifs.take(i as int));
        let ghost before = out@.map_values(|t: String| t@);
        let d = &dev.interfaces[i].driver;
        if d.as_str().unicode_len() > 0 {
            let mut seen = false;
            let mut j: usize = 0;
            while j < out.len()
                invariant
                    j <= out.len(),
                    before == out@.map_values(|t: String| t@),
                    seen == exists|k: int| 0 <= k < j && before[k] == d@,
                decreases out.len() - j,
            {
                assert(before[j as int] == out@[j as int]@);
                if str_eq(out[j].as_str(), d.as_str()) {
                    seen = true;
                }
                j = j + 1;
            }
            assert(seen == before.contains(d@));
            if !seen {
                out.push(d.clone());
                assert(out@.map_values(|t: String| t@) =~= before.push(d@));
            }
        }
        i = i + 1;
    }
    assert(ifs.take(i as int) =~= ifs);
    out
}

/// The properties of `dev`.
fn usb_properties(dev: &UsbDevice) -> (r: Vec<(String, String)>)
    ensures
        props_view(r@) == usb_props(*dev),
{
    proof {
        reveal_strlit("removable");
        reveal_strlit("fixed");
    }
    let mut p: Vec<(String, String)> = Vec::new();
    assert(props_view(p@) =~= Seq::<(Seq<char>, Seq<char>)>::empty());
    if dev.serial.as_str().unicode_len() > 0 {
        push_prop(&mut p, "serial", dev.serial.clone());
    }
    if str_eq(dev.removable.as_str(), "removable") || str_eq(dev.removable.as_str(), "fixed") {
        push_prop(&mut p, "mount", dev.removable.clone());
    }
    let drivers = unique_drivers(dev);
    if drivers.len() > 1 {
        push_prop(&mut p, "drivers", join(&drivers, ", "));
    }
    if dev.max_power_ma > 0 {
        push_prop(&mut p, "usb_power_ma", dec_string(dev.max_power_ma as u128));
    }
    if 1 <= dev.speed && dev.speed <= 480 {
        push_prop(&mut p, "transport.usb2", owned("true"));
    }
    if dev.speed >= 5000 {
        push_prop(&mut p, "transport.usb3", owned("true"));
    }
    p
}

impl DeviceSummary {
    /// Build the summary of a USB device.
    pub fn from_usb_device(dev: &UsbDevice) -> (s: DeviceSummary)
        ensures
            usb_summary_of(*dev, s),
    {
        let vendor_name = lookup(dev.vendor_id);
        let has_vendor = !is_hex_fallback(vendor_name.as_str());
        let device_type = device_type_text(dev);
        proof {
            reveal_strlit(" · ");
            reveal_strlit(" ");
        }
        let mut subtitle = String::new();
        if has_vendor {
            push_str(&mut subtitle, vendor_name.as_str());
        }
        if device_type.as_str().unicode_len() > 0 {
            if subtitle.as_str().unicode_len() > 0 {
                push_str(&mut subtitle, " · ");
            }
            push_str(&mut subtitle, device_type.as_str());
        }
        let (device_class, device_subclass) = classify_usb(dev);
        let icon = owned(refine_audio_icon(device_class, device_subclass.as_str()));
        let vendor_display = if dev.manufacturer.as_str().unicode_len() > 0 {
            dev.manufacturer.clone()
        } else if has_vendor {
            vendor_name.clone()
        } else {
            String::new()
        };
        let headline = if dev.product.as_str().unicode_len() > 0 {
            dev.product.clone()
        } else {
            let has_vd = vendor_display.as_str().unicode_len() > 0;
            let has_dt = device_type.as_str().unicode_len() > 0;
            if has_vd && has_dt && !str_eq(device_type.as_str(), vendor_display.as_str()) {
                let mut h = vendor_display.clone();
                push_str(&mut h, " ");
                push_str(&mut h, device_type.as_str());
                h
            } else if has_vd {
                vendor_display.clone()
            } else if has_dt {
                device_type.clone()
            } else {
                dev.display_name()
            }
        };
        let primary = primary_driver(dev);
        let properties = usb_properties(dev);
        DeviceSummary {
            category: if dev.is_hub {
                Category::Hub
            } else {
                Category::UsbDevice
            },
            device_class,
            device_subclass,
            status: Status::Connected,
            headline,
            subtitle,
            icon,
            vendor: vendor_display,
            product: dev.product.clone(),
            vendor_id: dev.vendor_id,
            product_id: dev.product_id,
            primary_driver: primary,
            properties,
            link_speed_mbps: dev.speed,
            usb_version: canonical_usb_version(dev.version.as_str()),
            power: PowerSummary::default(),
            charging_diag: None,
            usb_device: Some(dev.clone()),
            typec_port: None,
            power_delivery: None,
            cable: None,
        }
    }
}

impl PowerSummary {
    /// The all-zero summary with an unknown role.
    pub open spec fn default_spec() -> PowerSummary {
        PowerSummary { power_in_mw: 0, power_out_mw: 0, contract_mw: 0, power_role: PowerRole::Unknown }
    }
}

/// `"{V:.1}V @ {A:.2}A"` of the supply's live reading, when it has a
/// positive voltage and current.
pub open spec fn contract_text(v: Option<i64>, i: Option<i64>) -> Option<Seq<char>> {
    match negotiated_mw(v, i) {
        Some(_) => Some(
            scaled_text(v->0 as nat, 6, 1) + "V @ "@ + scaled_text(i->0 as nat, 6, 2) + "A"@,
        ),
        None => None,
    }
}

/// The live contract of a supply as `"9.0V @ 2.00A"`; `None` without a
/// positive voltage and current.
pub fn power_contract_string(psy: &TypeCPowerSupply) -> (r: Option<String>)
    ensures
        match r {
            Some(t) => contract_text(psy.voltage_now_uv, psy.current_now_ua) == Some(t@),
            None => contract_text(psy.voltage_now_uv, psy.current_now_ua) is None,
        },
{
    match psy.negotiated_power_mw() {
        Some(_) => {},
        None => {
            return None;
        },
    }
    let v = match psy.voltage_now_uv {
        Some(v) => v,
        None => {
            return None;
        },
    };
    let i = match psy.current_now_ua {
        Some(i) => i,
        None => {
            return None;
        },
    };
    let mut t = scaled_string(v as u64, 6, 1);
    push_str(&mut t, "V @ ");
    push_str(&mut t, scaled_string(i as u64, 6, 2).as_str());
    push_str(&mut t, "A");
    Some(t)
}

/// `"Negotiated power: {V:.1}V @ {A:.2}A — {W}W"`, the wattage rounded
/// half up, when the supply reads a positive voltage and current.
pub open spec fn contract_label_text(v: Option<i64>, i: Option<i64>) -> Option<Seq<char>> {
    match (v, i) {
        (Some(v), Some(i)) => if v > 0 && i > 0 {
            Some(
                "Negotiated power: "@ + scaled_text(v as nat, 6, 1) + "V @ "@ + scaled_text(
                    i as nat,
                    6,
                    2,
                ) + "A — "@ + int_seq(((v * i + 500_000_000_000) / 1_000_000_000_000) as i64 as int)
                    + "W"@,
            )
        } else {
            None
        },
        _ => None,
    }
}

/// The live contract with its wattage, as one line.
pub fn power_contract_label(psy: &TypeCPowerSupply) -> (r: Option<String>)
    ensures
        match r {
            Some(t) => contract_label_text(psy.voltage_now_uv, psy.current_now_ua) == Some(t@),
            None => contract_label_text(psy.voltage_now_uv, psy.current_now_ua) is None,
        },
{
    let v = match psy.voltage_now_uv {
        Some(v) => v,
        None => {
            return None;
        },
    };
    let i = match psy.current_now_ua {
        Some(i) => i,
        None => {
            return None;
        },
    };
    if v <= 0 || i <= 0 {
        return None;
    }
    assert((v as i128) * (i as i128) < 0x4000_0000_0000_0000_0000_0000_0000_0000) by (
    nonlinear_arith)
        requires
            0 < v < 0x8000_0000_0000_0000,
            0 < i < 0x8000_0000_0000_0000,
    ;
    let p: i128 = (v as i128) * (i as i128);
    let watts = ((p + 500_000_000_000) / 1_000_000_000_000) as i64;
    let mut t = owned("Negotiated power: ");
    push_str(&mut t, scaled_string(v as u64, 6, 1).as_str());
    push_str(&mut t, "V @ ");
    push_str(&mut t, scaled_string(i as u64, 6, 2).as_str());
    push_str(&mut t, "A — ");
    push_str(&mut t, int_string(watts).as_str());
    push_str(&mut t, "W");
    Some(t)
}

/// Subtitle, vendor and vendor ID a port takes from its partner: from the
/// ID Header when the partner has VDOs (the vendor, `" — "`, and the UFP
/// product type; the product type alone for an unknown vendor), else
/// `"Device connected"`; nothing without a partner.
pub open spec fn partner_info(port: TypeCPort) -> (Seq<char>, Seq<char>, u16) {
    match port.partner {
        Some(pa) => match pa.identity {
            Some(id) => if id.vdos@.len() > 0 {
                let hdr = id_header_of(id.vdos@[0]);
                let pl = product_type_text(
                    match hdr.ufp_product_type {
                        Some(t) => t,
                        None => ProductType::Undefined,
                    },
                );
                let vl = vendor_text(hdr.vendor_id);
                if hex_fallback(vl) {
                    (pl, Seq::empty(), hdr.vendor_id)
                } else {
                    (vl + " — "@ + pl, vl, hdr.vendor_id)
                }
            } else {
                ("Device connected"@, Seq::empty(), 0)
            },
            None => ("Device connected"@, Seq::empty(), 0),
        },
        None => (Seq::empty(), Seq::empty(), 0),
    }
}

fn partner_fields(port: &TypeCPort) -> (r: (String, String, u16))
    ensures
        (r.0@, r.1@, r.2) == partner_info(*port),
{
    proof {
        reveal_strlit("Device connected");
        reveal_strlit(" — ");
    }
    match &port.partner {
        Some(pa) => match &pa.identity {
            Some(id) => {
                if id.vdos.len() > 0 {
                    let hdr = decode_id_header(id.vdos[0]);
                    let pl = product_type_label(
                        match hdr.ufp_product_type {
                            Some(t) => t,
                            None => ProductType::Undefined,
                        },
                    );
                    let vl = lookup(hdr.vendor_id);
                    if is_hex_fallback(vl.as_str()) {
                        (owned(pl), String::new(), hdr.vendor_id)
                    } else {
                        let mut sub = vl.clone();
                        push_str(&mut sub, " — ");
                        push_str(&mut sub, pl);
                        (sub, vl, hdr.vendor_id)
                    }
                } else {
                    (owned("Device connected"), String::new(), 0)
                }
            },
            None => (owned("Device connected"), String::new(), 0),
        },
        None => (String::new(), String::new(), 0),
    }
}

/// Some altmode of the list has SVID `svid`.
pub open spec fn has_svid(modes: Seq<crate::typec::TypeCAltMode>, svid: u16) -> bool {
    exists|i: int| 0 <= i < modes.len() && #[trigger] modes[i].svid == svid
}

fn any_svid(modes: &Vec<crate::typec::TypeCAltMode>, svid: u16) -> (r: bool)
    ensures
        r == has_svid(modes@, svid),
{
    let mut i: usize = 0;
    while i < modes.len()
        invariant
            i <= modes.len(),
            forall|k: int| 0 <= k < i ==> #[trigger] modes@[k].svid != svid,
        decreases modes.len() - i,
    {
        if modes[i].svid == svid {
            return true;
        }
        i = i + 1;
    }
    false
}

/// `p` with `(k, v)` appended when `cond`.
pub open spec fn add_if(
    p: Seq<(Seq<char>, Seq<char>)>,
    cond: bool,
    k: Seq<char>,
    v: Seq<char>,
) -> Seq<(Seq<char>, Seq<char>)> {
    if cond {
        p.push((k, v))
    } else {
        p
    }
}

/// Append `(k, v)` when `cond`.
fn push_prop_if(props: &mut Vec<(String, String)>, cond: bool, k: &str, v: String)
    ensures
        props_view(final(props)@) == add_if(props_view(old(props)@), cond, k@, v@),
{
    if cond {
        push_prop(props, k, v);
    }
}

/// `p` followed by the properties of an attached port, before its cable
/// and charger: the correlated USB device, the active data role, power
/// mode, live contract (when the supply is online), PD revision, plug
/// orientation (unless `"unknown"`), and the DisplayPort / Thunderbolt
/// altmode flags.
pub open spec fn port_props(
    p: Seq<(Seq<char>, Seq<char>)>,
    port: TypeCPort,
    usb_match: Option<UsbDevice>,
) -> Seq<(Seq<char>, Seq<char>)> {
    let p1 = match usb_match {
        Some(u) => p.push(("usb_device"@, "usb:"@ + u.bus_port@)),
        None => p,
    };
    let data = bracketed_text(port.data_role@);
    let p2 = add_if(p1, data.len() > 0, "data_role"@, data);
    let p3 = add_if(p2, port.power_op_mode@.len() > 0, "power_mode"@, port.power_op_mode@);
    let p4 = match port.power_supply {
        Some(psy) => match contract_text(psy.voltage_now_uv, psy.current_now_ua) {
            Some(c) => add_if(p3, psy.online, "pd_contract"@, c),
            None => p3,
        },
        None => p3,
    };
    let p5 = add_if(p4, port.pd_revision@.len() > 0, "pd_revision"@, port.pd_revision@);
    let p6 = add_if(
        p5,
        port.orientation@.len() > 0 && port.orientation@ != "unknown"@,
        "plug_orientation"@,
        port.orientation@,
    );
    match port.partner {
        Some(pa) => add_if(
            add_if(p6, has_svid(pa.altmodes@, 0xFF01), "transport.dp_altmode"@, "true"@),
            has_svid(pa.altmodes@, 0x8087),
            "transport.tb"@,
            "true"@,
        ),
        None => p6,
    }
}

/// `p` followed by the properties of a decoded cable: speed, current
/// rating, rated power, type (active or passive), a known vendor, and each
/// trust flag that fires.
pub open spec fn cable_props(
    p: Seq<(Seq<char>, Seq<char>)>,
    c: crate::cable::CableView,
) -> Seq<(Seq<char>, Seq<char>)> {
    let p1 = match c.speed {
        Some(sp) => p.push(("cable_speed"@, cable_speed_text(sp))),
        None => p,
    };
    let p2 = match c.current_rating {
        Some(cr) => p1.push(("cable_current"@, cable_current_text(cr))),
        None => p1,
    };
    let p3 = add_if(p2, c.max_watts > 0, "cable_max_power"@, dec_seq(c.max_watts as nat) + "W"@);
    let p4 = if c.is_active {
        p3.push(("cable_type"@, "active"@))
    } else {
        add_if(p3, c.is_passive, "cable_type"@, "passive"@)
    };
    let p5 = add_if(
        p4,
        c.vendor_name.len() > 0 && !hex_fallback(c.vendor_name),
        "cable_vendor"@,
        c.vendor_name,
    );
    let p6 = add_if(p5, c.trust.zero_vid, "cable.trust.zero_vid"@, "true"@);
    let p7 = add_if(p6, c.trust.vid_unknown, "cable.trust.vid_unknown"@, "true"@);
    add_if(p7, c.trust.reserved_bits_set, "cable.trust.reserved_bits"@, "true"@)
}

fn push_port_props(props: &mut Vec<(String, String)>, port: &TypeCPort, usb_match: Option<&UsbDevice>)
    ensures
        props_view(final(props)@) == port_props(
            props_view(old(props)@),
            *port,
            match usb_match {
                Some(u) => Some(*u),
                None => None,
            },
        ),
{
    proof {
        reveal_strlit("unknown");
    }
    match usb_match {
        Some(u) => {
            let mut v = owned("usb:");
            push_str(&mut v, u.bus_port.as_str());
            push_prop(props, "usb_device", v);
        },
        None => {},
    }
    let data = port.current_data_role();
    let has_data = data.as_str().unicode_len() > 0;
    push_prop_if(props, has_data, "data_role", data);
    push_prop_if(
        props,
        port.power_op_mode.as_str().unicode_len() > 0,
        "power_mode",
        port.power_op_mode.clone(),
    );
    match &port.power_supply {
        Some(psy) => match power_contract_string(psy) {
            Some(c) => push_prop_if(props, psy.online, "pd_contract", c),
            None => {},
        },
        None => {},
    }
    push_prop_if(
        props,
        port.pd_revision.as_str().unicode_len() > 0,
        "pd_revision",
        port.pd_revision.clone(),
    );
    let orient = port.orientation.as_str().unicode_len() > 0 && !str_eq(
        port.orientation.as_str(),
        "unknown",
    );
    push_prop_if(props, orient, "plug_orientation", port.orientation.clone());
    match &port.partner {
        Some(pa) => {
            push_prop_if(props, any_svid(&pa.altmodes, 0xFF01), "transport.dp_altmode", owned("true"));
            push_prop_if(props, any_svid(&pa.altmodes, 0x8087), "transport.tb", owned("true"));
        },
        None => {},
    }
}

fn push_cable_props(props: &mut Vec<(String, String)>, c: &CableInfo)
    ensures
        props_view(final(props)@) == cable_props(props_view(old(props)@), c@),
{
    match c.speed {
        Some(sp) => push_prop(props, "cable_speed", owned(cable_speed_label(sp))),
        None => {},
    }
    match c.current_rating {
        Some(cr) => push_prop(props, "cable_current", owned(cable_current_label(cr))),
        None => {},
    }
    let mut w = dec_string(c.max_watts as u128);
    push_str(&mut w, "W");
    push_prop_if(props, c.max_watts > 0, "cable_max_power", w);
    if c.is_active {
        push_prop(props, "cable_type", owned("active"));
    } else {
        push_prop_if(props, c.is_passive, "cable_type", owned("passive"));
    }
    let known = c.vendor_name.as_str().unicode_len() > 0 && !is_hex_fallback(c.vendor_name.as_str());
    push_prop_if(props, known, "cable_vendor", c.vendor_name.clone());
    push_prop_if(props, c.trust.zero_vid, "cable.trust.zero_vid", owned("true"));
    push_prop_if(props, c.trust.vid_unknown, "cable.trust.vid_unknown", owned("true"));
    push_prop_if(props, c.trust.reserved_bits_set, "cable.trust.reserved_bits", owned("true"));
}

/// The live bus voltage, in mV, against which the active PDO is inferred:
/// present when the supply is online with a positive reading.
pub open spec fn inference_mv(port: TypeCPort) -> Option<u32> {
    match port.power_supply {
        Some(psy) => if psy.online && psy.voltage_now_uv is Some && psy.voltage_now_uv->0 > 0 {
            Some((psy.voltage_now_uv->0 / 1000) as u32)
        } else {
            None
        },
        None => None,
    }
}

/// The supply's negotiated wattage, when positive, in mW (as `u32`).
pub open spec fn live_mw(port: TypeCPort) -> Option<u32> {
    match port.power_supply {
        Some(psy) => match negotiated_mw(psy.voltage_now_uv, psy.current_now_ua) {
            Some(mw) => if mw > 0 {
                Some(mw as u32)
            } else {
                None
            },
            None => None,
        },
        None => None,
    }
}

/// A paired charger advertising source PDOs.
pub open spec fn charger_present(pd: Option<PowerDeliveryPort>) -> bool {
    pd matches Some(p) && p.source_capabilities@.len() > 0
}

/// Sink power from the charger's advertisement: the first active PDO's
/// power, else the charger's maximum; zero without a charger.
pub open spec fn advertised_sink(pd: Option<PowerDeliveryPort>) -> u32 {
    match pd {
        Some(p) => if p.source_capabilities@.len() > 0 {
            match first_active(p.source_capabilities@) {
                Some(a) => a.power_mw,
                None => p.max_source_power_mw,
            }
        } else {
            0
        },
        None => 0,
    }
}

/// Power allowed by the active PDO, or zero.
pub open spec fn contract_of(pd: Option<PowerDeliveryPort>) -> u32 {
    match pd {
        Some(p) => match first_active(p.source_capabilities@) {
            Some(a) => a.power_mw,
            None => 0,
        },
        None => 0,
    }
}

/// We are the source: the active power role reads `source` (any case) and
/// no charger power flows in.
pub open spec fn sourcing(port: TypeCPort, pd: Option<PowerDeliveryPort>) -> bool {
    lower_seq(bracketed_text(port.power_role@)) == "source"@ && advertised_sink(pd) == 0
}

/// Power into the host: the live reading when there is one, else the
/// advertised figure; zero while sourcing.
pub open spec fn sink_mw(port: TypeCPort, pd: Option<PowerDeliveryPort>) -> u32 {
    if sourcing(port, pd) {
        0
    } else {
        match live_mw(port) {
            Some(mw) => mw,
            None => advertised_sink(pd),
        }
    }
}

/// Power out of the host: the live reading (or zero) while sourcing.
pub open spec fn source_mw(port: TypeCPort, pd: Option<PowerDeliveryPort>) -> u32 {
    if sourcing(port, pd) {
        match live_mw(port) {
            Some(mw) => mw,
            None => 0,
        }
    } else {
        0
    }
}

/// Status of an attached port.
pub open spec fn attached_status(port: TypeCPort, pd: Option<PowerDeliveryPort>) -> Status {
    if sourcing(port, pd) {
        Status::Sourcing
    } else if live_mw(port) is Some || charger_present(pd) {
        Status::Charging
    } else {
        Status::Connected
    }
}

/// Power role of an attached port: the flow direction when power flows,
/// else the port type (`dual`/`drp`, `source`, `sink`), else the active
/// power role.
pub open spec fn role_of(port: TypeCPort, pd: Option<PowerDeliveryPort>) -> PowerRole {
    let prs = lower_seq(bracketed_text(port.power_role@));
    if sink_mw(port, pd) > 0 {
        PowerRole::Sink
    } else if source_mw(port, pd) > 0 {
        PowerRole::Source
    } else if port.port_type@ == "dual"@ || port.port_type@ == "drp"@ {
        PowerRole::DualRole
    } else if port.port_type@ == "source"@ {
        PowerRole::Source
    } else if port.port_type@ == "sink"@ {
        PowerRole::Sink
    } else if prs == "source"@ {
        PowerRole::Source
    } else if prs == "sink"@ {
        PowerRole::Sink
    } else {
        PowerRole::Unknown
    }
}

/// Properties of an attached port: the port's own, the cable's, and the
/// charger's maximum in whole watts.
pub open spec fn typec_props(
    port: TypeCPort,
    usb_match: Option<UsbDevice>,
    cable: Option<crate::cable::CableView>,
    pd: Option<PowerDeliveryPort>,
) -> Seq<(Seq<char>, Seq<char>)> {
    let p1 = port_props(Seq::empty(), port, usb_match);
    let p2 = match cable {
        Some(c) => cable_props(p1, c),
        None => p1,
    };
    if charger_present(pd) {
        p2.push(("charger_max"@, dec_seq((pd->0.max_source_power_mw / 1000) as nat) + "W"@))
    } else {
        p2
    }
}

/// What [`DeviceSummary::from_usb_device`] gives: `s` is the summary of
/// the USB device `dev`.
pub open spec fn usb_summary_of(dev: UsbDevice, s: DeviceSummary) -> bool {
    &&& s.category == (if dev.is_hub {
            Category::Hub
        } else {
            Category::UsbDevice
        })
    &&& ({
            let c = classification(dev.is_hub, dev.vendor_id, dev.product@, dev.interfaces@);
            &&& s.device_class == c.0
            &&& s.device_subclass@ == c.1
            &&& s.icon@ == refined_icon(c.0, c.1)
        })
    &&& s.status == Status::Connected
    &&& s.subtitle@ == usb_subtitle(
            dev.vendor_id,
            device_type(dev.device_class, dev.interfaces@),
        )
    &&& s.vendor@ == usb_vendor(dev.manufacturer@, dev.vendor_id)
    &&& s.headline@ == usb_headline(
            dev.product@,
            usb_vendor(dev.manufacturer@, dev.vendor_id),
            device_type(dev.device_class, dev.interfaces@),
            dev.vendor_id,
            dev.product_id,
        )
    &&& s.product@ == dev.product@
    &&& s.vendor_id == dev.vendor_id
    &&& s.product_id == dev.product_id
    &&& s.primary_driver@ == primary_driver_of(dev.interfaces@)
    &&& props_view(s.properties@) == usb_props(dev)
    &&& s.link_speed_mbps == dev.speed
    &&& s.usb_version@ == version_text(dev.version@)
    &&& s.power == PowerSummary::default_spec()
    &&& s.charging_diag is None
    &&& s.usb_device matches Some(u) && usb_tree_copy(u, dev)
    &&& s.typec_port is None
    &&& s.power_delivery is None
    &&& s.cable is None
}

/// The diagnostic of an attached port's charger, given the PD port as it
/// stands after inference: present only while the port sinks, never while
/// it sources.
pub open spec fn typec_diag(
    port: TypeCPort,
    after: Option<PowerDeliveryPort>,
    cable_info: Option<CableInfo>,
) -> Option<(crate::diagnostic::Bottleneck, bool, Seq<char>, Seq<char>)> {
    match after {
        Some(q) => if sourcing(port, after) {
            None
        } else {
            diagnosis(
                q,
                match cable_info {
                    Some(c) => c.max_watts as nat,
                    None => 0,
                },
                match live_mw(port) {
                    Some(mw) => mw,
                    None => 0,
                },
            )
        },
        None => None,
    }
}

/// Everything a port summary holds but its property list: what
/// [`DeviceSummary::from_typec_port`] gives for `port` with the PD port
/// `pd`, the decoded cable `cable_info` and the USB device `usb_match`.
pub open spec fn typec_fields(
    port: TypeCPort,
    pd: Option<PowerDeliveryPort>,
    cable_info: Option<CableInfo>,
    usb_match: Option<UsbDevice>,
    s: DeviceSummary,
) -> bool {
    &&& s.category == Category::TypeCPort
    &&& s.device_class == DeviceClass::Unknown
    &&& s.device_subclass@ == Seq::<char>::empty()
    &&& s.headline@ == "USB-C Port "@ + int_seq(port.port_number as int)
    &&& s.icon@ == "plug"@
    &&& s.product@ == Seq::<char>::empty()
    &&& s.product_id == 0
    &&& s.primary_driver@ == Seq::<char>::empty()
    &&& s.link_speed_mbps == 0
    &&& s.usb_version@ == Seq::<char>::empty()
    &&& s.usb_device is None
    &&& s.typec_port matches Some(p) && port_copy(p, port)
    &&& s.cable == cable_info
    &&& s.charging_diag is Some ==> s.status == Status::Charging
    &&& !(port.partner is Some || port.cable is Some) ==> {
        &&& s.status == Status::Empty
        &&& s.subtitle@ == "Nothing connected"@
        &&& s.vendor@ == Seq::<char>::empty()
        &&& s.vendor_id == 0
        &&& s.power == PowerSummary::default_spec()
        &&& s.charging_diag is None
        &&& s.power_delivery == pd
    }
    &&& (port.partner is Some || port.cable is Some) ==> {
        let info = partner_info(port);
        let after = s.power_delivery;
        &&& match pd {
            None => after is None,
            Some(p) => after matches Some(q) && match inference_mv(port) {
                Some(v) => inferred(p, q, v),
                None => q == p,
            },
        }
        &&& s.subtitle@ == (match usb_match {
            Some(u) => if u.product@.len() > 0 {
                u.product@
            } else {
                info.0
            },
            None => info.0,
        })
        &&& s.vendor@ == info.1
        &&& s.vendor_id == info.2
        &&& s.status == attached_status(port, after)
        &&& s.power == (PowerSummary {
            power_in_mw: sink_mw(port, after),
            power_out_mw: source_mw(port, after),
            contract_mw: contract_of(after),
            power_role: role_of(port, after),
        })
        &&& match s.charging_diag {
            Some(d) => typec_diag(port, after, cable_info) == Some(
                (d.bottleneck, d.is_warning, d.summary@, d.detail@),
            ),
            None => typec_diag(port, after, cable_info) is None,
        }
    }
}

/// The property list of a port summary: none while nothing is attached,
/// else the port's, the cable's and the charger's (see [`typec_props`]).
pub open spec fn typec_props_of(
    port: TypeCPort,
    usb_match: Option<UsbDevice>,
    cable_info: Option<CableInfo>,
    after: Option<PowerDeliveryPort>,
) -> Seq<(Seq<char>, Seq<char>)> {
    if port.partner is Some || port.cable is Some {
        typec_props(
            port,
            usb_match,
            match cable_info {
                Some(c) => Some(c@),
                None => None,
            },
            after,
        )
    } else {
        Seq::empty()
    }
}

/// What [`DeviceSummary::from_typec_port`] gives: `s` is the summary of
/// `port` with the PD port `pd`, the decoded cable `cable_info` and the USB
/// device `usb_match` its partner enumerated as.
pub open spec fn typec_summary_of(
    port: TypeCPort,
    pd: Option<PowerDeliveryPort>,
    cable_info: Option<CableInfo>,
    usb_match: Option<UsbDevice>,
    s: DeviceSummary,
) -> bool {
    &&& typec_fields(port, pd, cable_info, usb_match, s)
    &&& props_view(s.properties@) == typec_props_of(port, usb_match, cable_info, s.power_delivery)
}

fn first_active_power(caps: &Vec<crate::power::PowerDataObject>) -> (r: Option<u32>)
    ensures
        match r {
            Some(w) => first_active(caps@) matches Some(a) && a.power_mw == w,
            None => first_active(caps@) is None,
        },
{
    let ghost cs = caps@;
    let mut i: usize = 0;
    assert(cs.subrange(0, cs.len() as int) =~= cs);
    while i < caps.len()
        invariant
            cs == caps@,
            i <= cs.len(),
            first_active(cs) == first_active(cs.subrange(i as int, cs.len() as int)),
        decreases cs.len() - i,
    {
        assert(cs.subrange(i as int, cs.len() as int).drop_first() =~= cs.subrange(
            i + 1,
            cs.len() as int,
        ));
        if caps[i].is_active {
            return Some(caps[i].power_mw);
        }
        i = i + 1;
    }
    None
}

impl DeviceSummary {
    /// Build the summary of a Type-C port, with its paired PD port, decoded
    /// cable and the USB device its partner enumerated as.
    ///
    /// The active PDO is inferred from the supply's live voltage before the
    /// power figures are read: the kernel lists the advertised PDOs but not
    /// the contracted one.
    pub fn from_typec_port(
        port: &TypeCPort,
        pd: Option<PowerDeliveryPort>,
        cable_info: Option<CableInfo>,
        usb_match: Option<&UsbDevice>,
    ) -> (s: DeviceSummary)
        ensures
            typec_summary_of(
                *port,
                pd,
                cable_info,
                match usb_match {
                    Some(u) => Some(*u),
                    None => None,
                },
                s,
            ),
    {
        proof {
            reveal_strlit("plug");
            reveal_strlit("Nothing connected");
            reveal_strlit("USB-C Port ");
        }
        let mut headline = owned("USB-C Port ");
        push_str(&mut headline, int_string(port.port_number as i64).as_str());
        let port_copy = port.clone();
        if !port.is_connected() {
            let props: Vec<(String, String)> = Vec::new();
            assert(props_view(props@) =~= Seq::<(Seq<char>, Seq<char>)>::empty());
            return DeviceSummary {
                category: Category::TypeCPort,
                device_class: DeviceClass::Unknown,
                device_subclass: String::new(),
                status: Status::Empty,
                headline,
                subtitle: owned("Nothing connected"),
                icon: owned("plug"),
                vendor: String::new(),
                product: String::new(),
                vendor_id: 0,
                product_id: 0,
                primary_driver: String::new(),
                properties: props,
                link_speed_mbps: 0,
                usb_version: String::new(),
                power: PowerSummary::default(),
                charging_diag: None,
                usb_device: None,
                typec_port: Some(port_copy),
                power_delivery: pd,
                cable: cable_info,
            };
        }
        let (mut subtitle, vendor, vendor_id) = partner_fields(port);
        match usb_match {
            Some(u) => {
                if u.product.as_str().unicode_len() > 0 {
                    subtitle = u.product.clone();
                }
            },
            None => {},
        }
        let mut props: Vec<(String, String)> = Vec::new();
        assert(props_view(props@) =~= Seq::<(Seq<char>, Seq<char>)>::empty());
        push_port_props(&mut props, port, usb_match);
        match &cable_info {
            Some(c) => push_cable_props(&mut props, c),
            None => {},
        }
        // The live voltage picks the contracted PDO out of the advertised ones.
        let live_mv: Option<u32> = match &port.power_supply {
            Some(psy) => if psy.online {
                match psy.voltage_now_uv {
                    Some(uv) => if uv > 0 {
                        Some((uv / 1000) as u32)
                    } else {
                        None
                    },
                    None => None,
                }
            } else {
                None
            },
            None => None,
        };
        assert(live_mv == inference_mv(*port));
        let after: Option<PowerDeliveryPort> = match pd {
            Some(p) => {
                let mut q = p;
                match live_mv {
                    Some(v) => {
                        q.infer_active_source_pdo(v);
                    },
                    None => {},
                }
                Some(q)
            },
            None => None,
        };
        let live: Option<u32> = match &port.power_supply {
            Some(psy) => match psy.negotiated_power_mw() {
                Some(mw) => if mw > 0 {
                    Some(mw as u32)
                } else {
                    None
                },
                None => None,
            },
            None => None,
        };
        assert(live == live_mw(*port));
        let mut advertised: u32 = 0;
        let mut contract: u32 = 0;
        let mut charging = false;
        match &after {
            Some(q) => {
                let fa = first_active_power(&q.source_capabilities);
                contract = match fa {
                    Some(w) => w,
                    None => 0,
                };
                if q.source_capabilities.len() > 0 {
                    charging = true;
                    let mut w = dec_string((q.max_source_power_mw / 1000) as u128);
                    push_str(&mut w, "W");
                    push_prop(&mut props, "charger_max", w);
                    advertised = match fa {
                        Some(w) => w,
                        None => q.max_source_power_mw,
                    };
                }
            },
            None => {},
        }
        let requested: u32 = match live {
            Some(mw) => mw,
            None => 0,
        };
        proof {
            reveal_strlit("source");
            reveal_strlit("sink");
            reveal_strlit("dual");
            reveal_strlit("drp");
        }
        let prs = lower_chars(port.current_power_role().as_str());
        let is_source_role = vec_is(&prs, "source");
        let (sink, source, status) = if is_source_role && advertised == 0 {
            (
                0u32,
                match live {
                    Some(mw) => mw,
                    None => 0,
                },
                Status::Sourcing,
            )
        } else {
            match live {
                Some(mw) => (mw, 0u32, Status::Charging),
                None => (
                    advertised,
                    0u32,
                    if charging {
                        Status::Charging
                    } else {
                        Status::Connected
                    },
                ),
            }
        };
        // A charger's diagnostic speaks of power coming in: none while the
        // port sources.
        let sourcing_now = is_source_role && advertised == 0;
        let diag = if sourcing_now {
            None
        } else {
            match &after {
                Some(q) => ChargingDiagnostic::evaluate(
                    q,
                    match &cable_info {
                        Some(c) => Some(c),
                        None => None,
                    },
                    requested,
                ),
                None => None,
            }
        };
        let role = if sink > 0 {
            PowerRole::Sink
        } else if source > 0 {
            PowerRole::Source
        } else if str_eq(port.port_type.as_str(), "dual") || str_eq(port.port_type.as_str(), "drp") {
            PowerRole::DualRole
        } else if str_eq(port.port_type.as_str(), "source") {
            PowerRole::Source
        } else if str_eq(port.port_type.as_str(), "sink") {
            PowerRole::Sink
        } else if is_source_role {
            PowerRole::Source
        } else if vec_is(&prs, "sink") {
            PowerRole::Sink
        } else {
            PowerRole::Unknown
        };
        DeviceSummary {
            category: Category::TypeCPort,
            device_class: DeviceClass::Unknown,
            device_subclass: String::new(),
            status,
            headline,
            subtitle,
            icon: owned("plug"),
            vendor,
            product: String::new(),
            vendor_id,
            product_id: 0,
            primary_driver: String::new(),
            properties: props,
            link_speed_mbps: 0,
            usb_version: String::new(),
            power: PowerSummary { power_in_mw: sink, power_out_mw: source, contract_mw: contract, power_role: role },
            charging_diag: diag,
            usb_device: None,
            typec_port: Some(port_copy),
            power_delivery: after,
            cable: cable_info,
        }
    }
}

} // verus!
