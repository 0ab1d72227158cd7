//! Terminal rendering: the lines of the text listing and of the USB tree,
//! with ANSI colour codes, for the caller to print one per line.
//!
//! Summaries carry machine property keys; the display vocabulary lives
//! here. Unknown keys are shown under their raw name.

use vstd::prelude::*;
use crate::classify::DeviceClass;
use crate::diagnostic::ChargingDiagnostic;
use crate::power::{voltage_text, PowerDataObject, PowerDeliveryPort};
use crate::summary::props_view;
use std::collections::BTreeMap;
use crate::fixed::scaled_text;
use crate::summary::{Category, DeviceSummary, PowerSummary};
use crate::text::{concat2, dec_seq, dec_string, has_prefix, hex_pad, hex_padded, owned, push_str, str_eq, str_starts_with};
use crate::manager::DeviceManager;
use crate::usb::{display_text, link_speed_text, roots_of, tier_of, LinkSpeed, UsbDevice};
use crate::usbclass::{class_name, class_text};

verus! {

broadcast use vstd::string::group_string_axioms;

/// Reset all attributes.
pub const RESET: &'static str = "\x1b[0m";
/// Bold.
pub const BOLD: &'static str = "\x1b[1m";
/// Dim.
pub const DIM: &'static str = "\x1b[2m";
/// Italic.
pub const ITALIC: &'static str = "\x1b[3m";
/// Green.
pub const GREEN: &'static str = "\x1b[32m";
/// Yellow, the warning colour.
pub const YELLOW: &'static str = "\x1b[33m";
/// Blue.
pub const BLUE: &'static str = "\x1b[34m";
/// Cyan.
pub const CYAN: &'static str = "\x1b[36m";
/// Magenta.
pub const MAGENTA: &'static str = "\x1b[35m";
/// Bright black (grey).
pub const BRIGHT_BLACK: &'static str = "\x1b[90m";
/// Bright blue.
pub const BRIGHT_BLUE: &'static str = "\x1b[94m";
/// Bright magenta.
pub const BRIGHT_MAGENTA: &'static str = "\x1b[95m";

/// Display label of a value-bearing property key; unknown keys stand for
/// themselves.
pub open spec fn property_label_text(key: Seq<char>) -> Seq<char> {
    if key == "serial"@ {
        "Serial"@
    } else if key == "mount"@ {
        "Mount"@
    } else if key == "drivers"@ {
        "Drivers"@
    } else if key == "data_role"@ {
        "Data role"@
    } else if key == "power_mode"@ {
        "Power mode"@
    } else if key == "pd_revision"@ {
        "PD revision"@
    } else if key == "plug_orientation"@ {
        "Plug orientation"@
    } else if key == "pd_contract"@ {
        "PD contract"@
    } else if key == "cable_speed"@ {
        "Cable speed"@
    } else if key == "cable_max_current"@ {
        "Cable max current"@
    } else if key == "cable_max_power"@ {
        "Cable max power"@
    } else if key == "cable_type"@ {
        "Cable type"@
    } else if key == "cable_vendor"@ {
        "Cable vendor"@
    } else if key == "charger_max"@ {
        "Charger max"@
    } else if key == "usb_max_power_ma"@ {
        "Max bus power (mA)"@
    } else if key == "usb_device"@ {
        "USB device"@
    } else {
        key
    }
}

/// Display label of a boolean-flag property key (the `transport.*` and
/// `cable.trust.*` families, and the e-marker hint); `None` for
/// value-bearing keys.
pub open spec fn flag_label_text(key: Seq<char>) -> Option<Seq<char>> {
    if key == "transport.usb2"@ {
        Some("USB 2.0 link"@)
    } else if key == "transport.usb3"@ {
        Some("USB 3.x link"@)
    } else if key == "transport.usb4"@ {
        Some("USB4 link"@)
    } else if key == "transport.dp_altmode"@ {
        Some("DisplayPort altmode"@)
    } else if key == "transport.tb"@ {
        Some("Thunderbolt 3 altmode"@)
    } else if key == "cable.trust.zero_vid"@ {
        Some("Cable trust: zero VID (likely counterfeit)"@)
    } else if key == "cable.trust.vid_unknown"@ {
        Some("Cable trust: unknown VID"@)
    } else if key == "cable.trust.reserved_bits"@ {
        Some("Cable trust: reserved bits set"@)
    } else if key == "cable.no_emarker"@ {
        Some("No cable e-marker visible (3A limit may apply)"@)
    } else {
        None
    }
}

/// The dim bullet that starts a detail line.
pub open spec fn bullet() -> Seq<char> {
    "  "@ + DIM@ + "• "@ + RESET@
}

/// One property as a bullet line: a flag set to `"true"` shows its label
/// alone (trust flags in the warning colour); a data-speed limit reads as
/// a warning sentence; anything else is `label: value`.
pub open spec fn property_line_text(key: Seq<char>, value: Seq<char>) -> Seq<char> {
    if flag_label_text(key) is Some && value == "true"@ {
        bullet() + (if has_prefix(key, "cable.trust."@) {
            YELLOW@
        } else {
            Seq::empty()
        }) + flag_label_text(key)->0 + RESET@
    } else if key == "cable.data_speed_limit"@ {
        bullet() + YELLOW@ + "Cable limits data to "@ + value + RESET@
    } else {
        bullet() + property_label_text(key) + ": "@ + value
    }
}

/// Display label for a property key (see [`property_label_text`]).
pub fn property_label(key: &str) -> (r: String)
    ensures
        r@ == property_label_text(key@),
{
    if str_eq(key, "serial") {
        owned("Serial")
    } else if str_eq(key, "mount") {
        owned("Mount")
    } else if str_eq(key, "drivers") {
        owned("Drivers")
    } else if str_eq(key, "data_role") {
        owned("Data role")
    } else if str_eq(key, "power_mode") {
        owned("Power mode")
    } else if str_eq(key, "pd_revision") {
        owned("PD revision")
    } else if str_eq(key, "plug_orientation") {
        owned("Plug orientation")
    } else if str_eq(key, "pd_contract") {
        owned("PD contract")
    } else if str_eq(key, "cable_speed") {
        owned("Cable speed")
    } else if str_eq(key, "cable_max_current") {
        owned("Cable max current")
    } else if str_eq(key, "cable_max_power") {
        owned("Cable max power")
    } else if str_eq(key, "cable_type") {
        owned("Cable type")
    } else if str_eq(key, "cable_vendor") {
        owned("Cable vendor")
    } else if str_eq(key, "charger_max") {
        owned("Charger max")
    } else if str_eq(key, "usb_max_power_ma") {
        owned("Max bus power (mA)")
    } else if str_eq(key, "usb_device") {
        owned("USB device")
    } else {
        owned(key)
    }
}

/// Label of a boolean-flag property key, `None` for value-bearing keys.
pub fn property_flag_label(key: &str) -> (r: Option<&'static str>)
    ensures
        match r {
            Some(l) => flag_label_text(key@) == Some(l@),
            None => flag_label_text(key@) is None,
        },
{
    if str_eq(key, "transport.usb2") {
        Some("USB 2.0 link")
    } else if str_eq(key, "transport.usb3") {
        Some("USB 3.x link")
    } else if str_eq(key, "transport.usb4") {
        Some("USB4 link")
    } else if str_eq(key, "transport.dp_altmode") {
        Some("DisplayPort altmode")
    } else if str_eq(key, "transport.tb") {
        Some("Thunderbolt 3 altmode")
    } else if str_eq(key, "cable.trust.zero_vid") {
        Some("Cable trust: zero VID (likely counterfeit)")
    } else if str_eq(key, "cable.trust.vid_unknown") {
        Some("Cable trust: unknown VID")
    } else if str_eq(key, "cable.trust.reserved_bits") {
        Some("Cable trust: reserved bits set")
    } else if str_eq(key, "cable.no_emarker") {
        Some("No cable e-marker visible (3A limit may apply)")
    } else {
        None
    }
}

/// A bullet line holding `text`.
fn bullet_line(text: &str) -> (r: String)
    ensures
        r@ == bullet() + text@,
{
    let mut r = owned("  ");
    push_str(&mut r, DIM);
    push_str(&mut r, "• ");
    push_str(&mut r, RESET);
    push_str(&mut r, text);
    r
}

/// One property rendered as a bullet line (see [`property_line_text`]).
pub fn property_line(key: &str, value: &str) -> (r: String)
    ensures
        r@ == property_line_text(key@, value@),
{
    if let Some(label) = property_flag_label(key) {
        if str_eq(value, "true") {
            let color = if str_starts_with(key, "cable.trust.") {
                YELLOW
            } else {
                proof {
                    reveal_strlit("");
                }
                ""
            };
            let mut r = bullet_line(color);
            push_str(&mut r, label);
            push_str(&mut r, RESET);
            return r;
        }
    }
    if str_eq(key, "cable.data_speed_limit") {
        let mut r = bullet_line(YELLOW);
        push_str(&mut r, "Cable limits data to ");
        push_str(&mut r, value);
        push_str(&mut r, RESET);
        return r;
    }
    let mut r = bullet_line(property_label(key).as_str());
    push_str(&mut r, ": ");
    push_str(&mut r, value);
    r
}

/// Colour of a link-speed tier: brighter and redder as it gets faster,
/// grey for Low Speed and unknown.
pub open spec fn speed_color_text(tier: LinkSpeed) -> Seq<char> {
    match tier {
        LinkSpeed::Usb4 => BRIGHT_MAGENTA@,
        LinkSpeed::SuperPlus20 => MAGENTA@,
        LinkSpeed::SuperPlus => BRIGHT_BLUE@,
        LinkSpeed::Super => CYAN@,
        LinkSpeed::High => GREEN@,
        LinkSpeed::Full => YELLOW@,
        LinkSpeed::Low | LinkSpeed::Unknown => BRIGHT_BLACK@,
    }
}

/// Colour of a link-speed tier (see [`speed_color_text`]).
pub fn speed_color(tier: LinkSpeed) -> (r: &'static str)
    ensures
        r@ == speed_color_text(tier),
{
    match tier {
        LinkSpeed::Usb4 => BRIGHT_MAGENTA,
        LinkSpeed::SuperPlus20 => MAGENTA,
        LinkSpeed::SuperPlus => BRIGHT_BLUE,
        LinkSpeed::Super => CYAN,
        LinkSpeed::High => GREEN,
        LinkSpeed::Full => YELLOW,
        LinkSpeed::Low | LinkSpeed::Unknown => BRIGHT_BLACK,
    }
}

/// Name of the USB specification a root hub of this tier speaks.
pub open spec fn root_label_text(tier: LinkSpeed) -> Seq<char> {
    match tier {
        LinkSpeed::Usb4 => "USB4 root"@,
        LinkSpeed::SuperPlus20 => "USB 3.2 root"@,
        LinkSpeed::SuperPlus => "USB 3.1 root"@,
        LinkSpeed::Super => "USB 3.0 root"@,
        LinkSpeed::High => "USB 2.0 root"@,
        LinkSpeed::Full => "USB 1.1 root"@,
        LinkSpeed::Low | LinkSpeed::Unknown => "USB root"@,
    }
}

/// Label of a root hub by its link speed (see [`root_label_text`]).
pub fn root_label(d: &UsbDevice) -> (r: &'static str)
    ensures
        r@ == root_label_text(tier_of(d.speed)),
{
    match d.link_speed_tier() {
        LinkSpeed::Usb4 => "USB4 root",
        LinkSpeed::SuperPlus20 => "USB 3.2 root",
        LinkSpeed::SuperPlus => "USB 3.1 root",
        LinkSpeed::Super => "USB 3.0 root",
        LinkSpeed::High => "USB 2.0 root",
        LinkSpeed::Full => "USB 1.1 root",
        LinkSpeed::Low | LinkSpeed::Unknown => "USB root",
    }
}

/// The power bullets of an entry. PD figures are negotiated ceilings, so
/// each reads "up to"; when the contract allows more than the sink takes,
/// the contract is shown beside it. Whole watts, rounded down.
pub open spec fn power_lines_text(p: PowerSummary) -> Seq<Seq<char>> {
    let w_in = (p.power_in_mw / 1000) as nat;
    let contract = (p.contract_mw / 1000) as nat;
    let w_out = (p.power_out_mw / 1000) as nat;
    (if p.power_in_mw > 0 {
        if contract > w_in {
            seq![
                bullet() + "Charging in: up to "@ + dec_seq(w_in) + "W ("@ + dec_seq(contract)
                    + "W contract)"@,
            ]
        } else {
            seq![bullet() + "Charging in: up to "@ + dec_seq(w_in) + "W"@]
        }
    } else {
        Seq::empty()
    }) + (if p.power_out_mw > 0 {
        seq![bullet() + "Sourcing out: up to "@ + dec_seq(w_out) + "W"@]
    } else {
        Seq::empty()
    })
}

/// The texts of a list of lines.
pub open spec fn texts(lines: Seq<String>) -> Seq<Seq<char>> {
    lines.map_values(|l: String| l@)
}

/// Append `line`.
fn emit(out: &mut Vec<String>, line: String)
    ensures
        texts(final(out)@) == texts(old(out)@).push(line@),
{
    out.push(line);
    assert(texts(out@) =~= texts(old(out)@).push(line@));
}

/// Append the power bullets of `p` (see [`power_lines_text`]).
pub fn power_lines(out: &mut Vec<String>, p: &PowerSummary)
    ensures
        texts(final(out)@) == texts(old(out)@) + power_lines_text(*p),
{
    let ghost start = texts(out@);
    if p.power_in_mw > 0 {
        let w_in = p.power_in_mw / 1000;
        let contract = p.contract_mw / 1000;
        let mut l = bullet_line("Charging in: up to ");
        push_str(&mut l, dec_string(w_in as u128).as_str());
        if contract > w_in {
            push_str(&mut l, "W (");
            push_str(&mut l, dec_string(contract as u128).as_str());
            push_str(&mut l, "W contract)");
        } else {
            push_str(&mut l, "W");
        }
        emit(out, l);
    }
    let ghost mid = texts(out@);
    if p.power_out_mw > 0 {
        let mut l = bullet_line("Sourcing out: up to ");
        push_str(&mut l, dec_string((p.power_out_mw / 1000) as u128).as_str());
        push_str(&mut l, "W");
        emit(out, l);
    }
    assert(texts(out@) =~= start + power_lines_text(*p));
}

/// The name of the first interface class worth showing: skips
/// `"Composite"` and hex fallbacks.
pub open spec fn first_iface_class(codes: Seq<u8>) -> Seq<char>
    decreases codes.len(),
{
    if codes.len() == 0 {
        Seq::empty()
    } else if class_text(codes[0]) == "Composite"@ || has_prefix(class_text(codes[0]), "0x"@) {
        first_iface_class(codes.drop_first())
    } else {
        class_text(codes[0])
    }
}

/// The interface class codes of a device, in order.
pub open spec fn iface_codes(ifaces: Seq<crate::usb::UsbInterface>) -> Seq<u8> {
    ifaces.map_values(|i: crate::usb::UsbInterface| i.class_code)
}

/// The class names a tree node shows beside a duplicate name: the device
/// class when it is specific, else the first telling interface class.
pub open spec fn first_class_text(dev: UsbDevice) -> Seq<char> {
    if dev.device_class != 0 && dev.device_class != 0xFF {
        class_text(dev.device_class)
    } else {
        first_iface_class(iface_codes(dev.interfaces@))
    }
}

/// Class name shown beside a tree node (see [`first_class_text`]).
pub fn first_class_name(dev: &UsbDevice) -> (r: String)
    ensures
        r@ == first_class_text(*dev),
{
    if dev.device_class != 0 && dev.device_class != 0xFF {
        return class_name(dev.device_class);
    }
    let ghost codes = iface_codes(dev.interfaces@);
    assert(codes.subrange(0, codes.len() as int) =~= codes);
    let mut i: usize = 0;
    while i < dev.interfaces.len()
        invariant
            i <= dev.interfaces@.len(),
            codes == iface_codes(dev.interfaces@),
            !(dev.device_class != 0 && dev.device_class != 0xFF),
            first_iface_class(codes) == first_iface_class(codes.subrange(i as int, codes.len() as int)),
        decreases dev.interfaces@.len() - i,
    {
        let name = class_name(dev.interfaces[i].class_code);
        let ghost rest = codes.subrange(i as int, codes.len() as int);
        assert(rest[0] == dev.interfaces@[i as int].class_code);
        assert(rest.len() > 0);
        assert(rest.drop_first() =~= codes.subrange(i + 1, codes.len() as int));
        if str_eq(name.as_str(), "Composite") || str_starts_with(name.as_str(), "0x") {
            i = i + 1;
        } else {
            assert(name@ == class_text(rest[0]));
            assert(first_iface_class(rest) == class_text(rest[0]));
            return name;
        }
    }
    assert(codes.subrange(i as int, codes.len() as int) =~= Seq::<u8>::empty());
    String::new()
}

/// Colour of an entry's headline by category.
pub open spec fn headline_color(c: Category) -> Seq<char> {
    match c {
        Category::TypeCPort => CYAN@,
        Category::Hub => BLUE@,
        Category::UsbDevice => GREEN@,
    }
}

/// The property bullets of an entry, in order.
pub open spec fn props_lines(props: Seq<(Seq<char>, Seq<char>)>) -> Seq<Seq<char>> {
    props.map_values(|kv: (Seq<char>, Seq<char>)| property_line_text(kv.0, kv.1))
}

/// The charging diagnostic lines: its summary marked as a warning or as
/// fine, then its detail when it has one.
pub open spec fn diag_lines(d: Option<ChargingDiagnostic>) -> Seq<Seq<char>> {
    match d {
        Some(diag) => (if diag.is_warning {
            seq!["  "@ + YELLOW@ + "⚠ "@ + diag.summary@ + RESET@]
        } else {
            seq!["  "@ + GREEN@ + "✓ "@ + diag.summary@ + RESET@]
        }) + (if diag.detail@.len() > 0 {
            seq!["    "@ + DIM@ + diag.detail@ + RESET@]
        } else {
            Seq::empty()
        }),
        None => Seq::empty(),
    }
}

/// One charger profile: voltage, current and power, marked when active.
pub open spec fn pdo_line_text(p: PowerDataObject) -> Seq<char> {
    "    "@ + voltage_text(p) + " @ "@ + scaled_text(p.current_ma as nat, 3, 2) + "A"@ + " — "@
        + scaled_text(p.power_mw as nat, 3, 0) + "W"@ + (if p.is_active {
        GREEN@ + " ◀ active"@ + RESET@
    } else {
        Seq::empty()
    })
}

/// One line per profile.
pub open spec fn pdo_lines(caps: Seq<PowerDataObject>) -> Seq<Seq<char>> {
    caps.map_values(|q: PowerDataObject| pdo_line_text(q))
}

/// The charger profiles of a paired PD port with source capabilities.
pub open spec fn profile_lines(pd: Option<PowerDeliveryPort>) -> Seq<Seq<char>> {
    match pd {
        Some(p) => if p.source_capabilities@.len() > 0 {
            seq!["  "@ + BOLD@ + "Charger profiles:"@ + RESET@] + pdo_lines(p.source_capabilities@)
        } else {
            Seq::empty()
        },
        None => Seq::empty(),
    }
}

/// One `name = value` line per raw attribute.
pub open spec fn raw_entry_lines(entries: Seq<(Seq<char>, Seq<char>)>) -> Seq<Seq<char>> {
    entries.map_values(|e: (Seq<char>, Seq<char>)| "    "@ + e.0 + " = "@ + e.1)
}

/// The raw-attribute block: a header and one `name = value` line per
/// entry; nothing when there are no entries.
pub open spec fn raw_lines(entries: Seq<(Seq<char>, Seq<char>)>) -> Seq<Seq<char>> {
    if entries.len() == 0 {
        Seq::empty()
    } else {
        seq!["  "@ + DIM@ + "Raw sysfs attributes:"@ + RESET@] + raw_entry_lines(entries)
    }
}

/// `line` when `cond` holds, else nothing.
pub open spec fn opt_line(cond: bool, line: Seq<char>) -> Seq<Seq<char>> {
    if cond {
        seq![line]
    } else {
        Seq::empty()
    }
}

/// The head of an entry: the coloured headline, the subtitle, and the
/// typed fields that are set (link speed, USB version, VID:PID, driver).
pub open spec fn head_lines(d: DeviceSummary) -> Seq<Seq<char>> {
    seq![BOLD@ + headline_color(d.category) + d.headline@ + RESET@]
        + opt_line(d.subtitle@.len() > 0, "  "@ + d.subtitle@)
        + opt_line(d.link_speed_mbps > 0, bullet() + link_speed_text(tier_of(d.link_speed_mbps)))
        + opt_line(d.usb_version@.len() > 0, bullet() + "USB "@ + d.usb_version@)
        + opt_line(
        d.vendor_id != 0 || d.product_id != 0,
        bullet() + "VID:PID "@ + hex_pad(d.vendor_id as nat, 4) + ":"@ + hex_pad(d.product_id as nat, 4),
    ) + opt_line(d.primary_driver@.len() > 0, bullet() + "Driver: "@ + d.primary_driver@)
}

/// Every line of one entry but its raw attributes: the coloured headline,
/// the subtitle, the typed fields, power, properties, the charging
/// diagnostic and the charger profiles.
pub open spec fn summary_lines(d: DeviceSummary) -> Seq<Seq<char>> {
    head_lines(d) + power_lines_text(d.power) + props_lines(props_view(d.properties@)) + diag_lines(
        d.charging_diag,
    ) + profile_lines(d.power_delivery)
}

/// One entry of the listing: its lines, its raw attributes, a blank line.
pub open spec fn entry_block(d: DeviceSummary, raw: Seq<(Seq<char>, Seq<char>)>) -> Seq<Seq<char>> {
    summary_lines(d) + raw_lines(raw) + seq![Seq::empty()]
}

/// The blocks of the first `n` entries.
pub open spec fn entry_blocks(
    devs: Seq<DeviceSummary>,
    raws: Seq<Seq<(Seq<char>, Seq<char>)>>,
    n: nat,
) -> Seq<Seq<char>>
    decreases n,
{
    if n == 0 {
        Seq::empty()
    } else {
        entry_blocks(devs, raws, (n - 1) as nat) + entry_block(devs[n - 1], raws[n - 1])
    }
}

/// The text listing: a notice when there is nothing, else one block per
/// entry.
pub open spec fn listing_text(
    devs: Seq<DeviceSummary>,
    raws: Seq<Seq<(Seq<char>, Seq<char>)>>,
) -> Seq<Seq<char>> {
    if devs.len() == 0 {
        seq!["No USB devices found."@]
    } else {
        entry_blocks(devs, raws, devs.len())
    }
}

/// The raw attributes of each entry, as text pairs.
pub open spec fn raw_views(raws: Seq<Vec<(String, String)>>) -> Seq<Seq<(Seq<char>, Seq<char>)>> {
    raws.map_values(|v: Vec<(String, String)>| props_view(v@))
}

/// Append the property bullets of `props`.
fn props_into(out: &mut Vec<String>, props: &Vec<(String, String)>)
    ensures
        texts(final(out)@) == texts(old(out)@) + props_lines(props_view(props@)),
{
    let ghost start = texts(out@);
    let ghost all = props_view(props@);
    let mut i: usize = 0;
    while i < props.len()
        invariant
            i <= props@.len(),
            all == props_view(props@),
            texts(out@) == start + props_lines(all.take(i as int)),
        decreases props@.len() - i,
    {
        let line = property_line(props[i].0.as_str(), props[i].1.as_str());
        emit(out, line);
        assert(props_lines(all.take(i + 1)) =~= props_lines(all.take(i as int)).push(
            property_line_text(all[i as int].0, all[i as int].1),
        ));
        i = i + 1;
    }
    assert(all.take(props@.len() as int) =~= all);
}

/// Append the charging diagnostic lines (see [`diag_lines`]).
fn diag_into(out: &mut Vec<String>, d: &Option<ChargingDiagnostic>)
    ensures
        texts(final(out)@) == texts(old(out)@) + diag_lines(*d),
{
    let ghost start = texts(out@);
    if let Some(diag) = d {
        let mut l = owned("  ");
        if diag.is_warning {
            push_str(&mut l, YELLOW);
            push_str(&mut l, "⚠ ");
        } else {
            push_str(&mut l, GREEN);
            push_str(&mut l, "✓ ");
        }
        push_str(&mut l, diag.summary.as_str());
        push_str(&mut l, RESET);
        emit(out, l);
        if diag.detail.as_str().unicode_len() > 0 {
            let mut l = owned("    ");
            push_str(&mut l, DIM);
            push_str(&mut l, diag.detail.as_str());
            push_str(&mut l, RESET);
            emit(out, l);
        }
    }
    assert(texts(out@) =~= start + diag_lines(*d));
}

/// Append the charger profile lines (see [`profile_lines`]).
fn profiles_into(out: &mut Vec<String>, pd: &Option<PowerDeliveryPort>)
    ensures
        texts(final(out)@) == texts(old(out)@) + profile_lines(*pd),
{
    let ghost start = texts(out@);
    if let Some(p) = pd {
        if p.source_capabilities.len() > 0 {
            let mut h = owned("  ");
            push_str(&mut h, BOLD);
            push_str(&mut h, "Charger profiles:");
            push_str(&mut h, RESET);
            emit(out, h);
            let ghost head = texts(out@);
            let ghost caps = p.source_capabilities@;
            let mut i: usize = 0;
            while i < p.source_capabilities.len()
                invariant
                    i <= caps.len(),
                    caps == p.source_capabilities@,
                    texts(out@) == head + pdo_lines(caps.take(i as int)),
                decreases caps.len() - i,
            {
                let q = &p.source_capabilities[i];
                let mut l = owned("    ");
                push_str(&mut l, q.voltage_label().as_str());
                push_str(&mut l, " @ ");
                push_str(&mut l, q.current_label().as_str());
                push_str(&mut l, " — ");
                push_str(&mut l, q.power_label().as_str());
                if q.is_active {
                    push_str(&mut l, GREEN);
                    push_str(&mut l, " ◀ active");
                    push_str(&mut l, RESET);
                }
                assert(l@ == pdo_line_text(caps[i as int]));
                emit(out, l);
                assert(pdo_lines(caps.take(i + 1)) =~= pdo_lines(caps.take(i as int)).push(
                    pdo_line_text(caps[i as int]),
                ));
                i = i + 1;
            }
            assert(caps.take(caps.len() as int) =~= caps);
        }
    }
    assert(texts(out@) =~= start + profile_lines(*pd));
}

/// Append the raw-attribute block of `entries` (see [`raw_lines`]).
fn raw_into(out: &mut Vec<String>, entries: &Vec<(String, String)>)
    ensures
        texts(final(out)@) == texts(old(out)@) + raw_lines(props_view(entries@)),
{
    let ghost start = texts(out@);
    let ghost all = props_view(entries@);
    if entries.len() == 0 {
        assert(texts(out@) =~= start + raw_lines(all));
        return;
    }
    let mut h = owned("  ");
    push_str(&mut h, DIM);
    push_str(&mut h, "Raw sysfs attributes:");
    push_str(&mut h, RESET);
    emit(out, h);
    let ghost head = texts(out@);
    let mut i: usize = 0;
    while i < entries.len()
        invariant
            i <= entries@.len(),
            all == props_view(entries@),
            texts(out@) == head + raw_entry_lines(all.take(i as int)),
        decreases entries@.len() - i,
    {
        let mut l = owned("    ");
        push_str(&mut l, entries[i].0.as_str());
        push_str(&mut l, " = ");
        push_str(&mut l, entries[i].1.as_str());
        emit(out, l);
        assert(raw_entry_lines(all.take(i + 1)) =~= raw_entry_lines(all.take(i as int)).push(
            "    "@ + all[i as int].0 + " = "@ + all[i as int].1,
        ));
        i = i + 1;
    }
    assert(all.take(entries@.len() as int) =~= all);
    assert(texts(out@) =~= start + raw_lines(all));
}

/// Append `line` when `cond` holds.
fn emit_opt(out: &mut Vec<String>, cond: bool, line: String)
    ensures
        texts(final(out)@) == texts(old(out)@) + opt_line(cond, line@),
{
    if cond {
        emit(out, line);
    }
    assert(texts(out@) =~= texts(old(out)@) + opt_line(cond, line@));
}

/// The VID:PID bullet of `d`.
fn vid_pid_line(d: &DeviceSummary) -> (r: String)
    ensures
        r@ == bullet() + "VID:PID "@ + hex_pad(d.vendor_id as nat, 4) + ":"@ + hex_pad(
            d.product_id as nat,
            4,
        ),
{
    let mut l = bullet_line("VID:PID ");
    push_str(&mut l, hex_padded(d.vendor_id as u64, 4).as_str());
    push_str(&mut l, ":");
    push_str(&mut l, hex_padded(d.product_id as u64, 4).as_str());
    l
}

/// Append the head lines of `d` (see [`head_lines`]).
#[verifier::spinoff_prover]
fn head_into(out: &mut Vec<String>, d: &DeviceSummary)
    ensures
        texts(final(out)@) == texts(old(out)@) + head_lines(*d),
{
    let ghost start = texts(out@);
    let color = match d.category {
        Category::TypeCPort => CYAN,
        Category::Hub => BLUE,
        Category::UsbDevice => GREEN,
    };
    let mut h = owned(BOLD);
    push_str(&mut h, color);
    push_str(&mut h, d.headline.as_str());
    push_str(&mut h, RESET);
    emit(out, h);
    let ghost l0 = seq![BOLD@ + headline_color(d.category) + d.headline@ + RESET@];
    let sub = concat2("  ", d.subtitle.as_str());
    emit_opt(out, d.subtitle.as_str().unicode_len() > 0, sub);
    let ghost l1 = opt_line(d.subtitle@.len() > 0, "  "@ + d.subtitle@);
    let speed = bullet_line(crate::usb::link_speed_tier(d.link_speed_mbps).label());
    emit_opt(out, d.link_speed_mbps > 0, speed);
    let ghost l2 = opt_line(d.link_speed_mbps > 0, bullet() + link_speed_text(tier_of(d.link_speed_mbps)));
    let mut ver = bullet_line("USB ");
    push_str(&mut ver, d.usb_version.as_str());
    emit_opt(out, d.usb_version.as_str().unicode_len() > 0, ver);
    let ghost l3 = opt_line(d.usb_version@.len() > 0, bullet() + "USB "@ + d.usb_version@);
    emit_opt(out, d.vendor_id != 0 || d.product_id != 0, vid_pid_line(d));
    let ghost l4 = opt_line(
        d.vendor_id != 0 || d.product_id != 0,
        bullet() + "VID:PID "@ + hex_pad(d.vendor_id as nat, 4) + ":"@ + hex_pad(d.product_id as nat, 4),
    );
    let mut drv = bullet_line("Driver: ");
    push_str(&mut drv, d.primary_driver.as_str());
    emit_opt(out, d.primary_driver.as_str().unicode_len() > 0, drv);
    let ghost l5 = opt_line(d.primary_driver@.len() > 0, bullet() + "Driver: "@ + d.primary_driver@);
    assert(texts(out@) == start + l0 + l1 + l2 + l3 + l4 + l5);
    assert(head_lines(*d) == l0 + l1 + l2 + l3 + l4 + l5);
    assert(texts(out@) =~= start + head_lines(*d));
}

/// Append every line of `d` but its raw attributes (see
/// [`summary_lines`]).
pub fn summary_lines_into(out: &mut Vec<String>, d: &DeviceSummary)
    ensures
        texts(final(out)@) == texts(old(out)@) + summary_lines(*d),
{
    let ghost start = texts(out@);
    head_into(out, d);
    power_lines(out, &d.power);
    props_into(out, &d.properties);
    diag_into(out, &d.charging_diag);
    profiles_into(out, &d.power_delivery);
    assert(texts(out@) =~= start + summary_lines(*d));
}

/// The text listing of `devices` (see [`listing_text`]); `raw[i]` holds
/// the raw attributes shown under entry `i`, empty to show none.
pub fn text_lines(devices: &[DeviceSummary], raw: &[Vec<(String, String)>]) -> (r: Vec<String>)
    requires
        raw@.len() == devices@.len(),
    ensures
        texts(r@) == listing_text(devices@, raw_views(raw@)),
{
    let mut out: Vec<String> = Vec::new();
    if devices.len() == 0 {
        emit(&mut out, owned("No USB devices found."));
        assert(texts(out@) =~= listing_text(devices@, raw_views(raw@)));
        return out;
    }
    let ghost raws = raw_views(raw@);
    assert(texts(out@) =~= entry_blocks(devices@, raws, 0));
    let mut i: usize = 0;
    while i < devices.len()
        invariant
            i <= devices@.len(),
            raw@.len() == devices@.len(),
            raws == raw_views(raw@),
            texts(out@) == entry_blocks(devices@, raws, i as nat),
        decreases devices@.len() - i,
    {
        let ghost before = texts(out@);
        summary_lines_into(&mut out, &devices[i]);
        raw_into(&mut out, &raw[i]);
        emit(&mut out, String::new());
        assert(raws[i as int] == props_view(raw@[i as int].view()));
        assert(texts(out@) =~= before + entry_block(devices@[i as int], raws[i as int]));
        i = i + 1;
    }
    out
}

/// Where the raw attributes shown under an entry come from: its USB
/// device, else its Type-C port.
pub fn raw_attributes_of(d: &DeviceSummary) -> (r: Option<&BTreeMap<String, String>>)
    ensures
        match r {
            Some(m) => match d.usb_device {
                Some(u) => *m == u.raw_attributes,
                None => d.typec_port matches Some(t) && *m == t.raw_attributes,
            },
            None => d.usb_device is None && d.typec_port is None,
        },
{
    match &d.usb_device {
        Some(u) => Some(&u.raw_attributes),
        None => match &d.typec_port {
            Some(t) => Some(&t.raw_attributes),
            None => None,
        },
    }
}

/// Italic for hubs.
pub open spec fn style_of(d: UsbDevice) -> Seq<char> {
    if d.is_hub {
        ITALIC@
    } else {
        Seq::empty()
    }
}

/// The class hint a tree node shows when its name repeats its parent's
/// (a composite device's functions): `"  (HID)"`, dimmed.
pub open spec fn hint_text(d: UsbDevice, parent: UsbDevice) -> Seq<char> {
    if !d.is_hub && display_text(d) == display_text(parent) && first_class_text(d).len() > 0 {
        "  "@ + DIM@ + "("@ + first_class_text(d) + ")"@ + RESET@
    } else {
        Seq::empty()
    }
}

/// One tree node under `prefix`, coloured by its link speed.
pub open spec fn node_line(d: UsbDevice, prefix: Seq<char>, last: bool, parent: UsbDevice) -> Seq<
    char,
> {
    prefix + speed_color_text(tier_of(d.speed)) + (if last {
        "└─ "@
    } else {
        "├─ "@
    }) + style_of(d) + display_text(d) + RESET@ + hint_text(d, parent)
}

/// The prefix of a node's children: a dim rail unless it is the last.
pub open spec fn child_prefix(prefix: Seq<char>, last: bool) -> Seq<char> {
    prefix + DIM@ + (if last {
        "   "@
    } else {
        "│  "@
    }) + RESET@
}

/// A node and its subtree.
pub open spec fn branch_lines(d: UsbDevice, prefix: Seq<char>, last: bool, parent: UsbDevice) -> Seq<
    Seq<char>,
>
    decreases d, d.children@.len() + 1,
{
    seq![node_line(d, prefix, last, parent)] + kids_lines(
        d,
        child_prefix(prefix, last),
        d.children@.len(),
    )
}

/// The subtrees of the first `n` children of `p`, under `prefix`.
pub open spec fn kids_lines(p: UsbDevice, prefix: Seq<char>, n: nat) -> Seq<Seq<char>>
    decreases p, n,
{
    if n == 0 || n > p.children@.len() {
        Seq::empty()
    } else {
        proof {
            assert(decreases_to!(p => p.children));
            assert(decreases_to!(p.children => p.children@));
            assert(decreases_to!(p.children@ => p.children@[n - 1]));
        }
        kids_lines(p, prefix, (n - 1) as nat) + branch_lines(
            p.children@[n - 1],
            prefix,
            n == p.children@.len(),
            p,
        )
    }
}

/// The first line of a root block: a root hub as a dot, its bus and the
/// specification it speaks; any other orphan under its name.
pub open spec fn root_line(d: UsbDevice) -> Seq<char> {
    if d.is_root_hub {
        speed_color_text(tier_of(d.speed)) + "● "@ + d.bus_port@ + RESET@ + "  "@ + DIM@
            + root_label_text(tier_of(d.speed)) + RESET@
    } else {
        speed_color_text(tier_of(d.speed)) + style_of(d) + display_text(d) + RESET@
    }
}

/// A root and its subtree.
pub open spec fn root_lines(d: UsbDevice) -> Seq<Seq<char>> {
    seq![root_line(d)] + kids_lines(d, Seq::empty(), d.children@.len())
}

/// Append one node and its subtree (see [`branch_lines`]).
fn branch_into(out: &mut Vec<String>, d: &UsbDevice, prefix: &str, last: bool, parent: &UsbDevice)
    ensures
        texts(final(out)@) == texts(old(out)@) + branch_lines(*d, prefix@, last, *parent),
    decreases d, 1nat,
{
    let ghost start = texts(out@);
    let name = d.display_name();
    let mut l = owned(prefix);
    push_str(&mut l, speed_color(d.link_speed_tier()));
    push_str(&mut l, if last { "└─ " } else { "├─ " });
    if d.is_hub {
        push_str(&mut l, ITALIC);
    }
    push_str(&mut l, name.as_str());
    push_str(&mut l, RESET);
    if !d.is_hub && str_eq(name.as_str(), parent.display_name().as_str()) {
        let cls = first_class_name(d);
        if cls.as_str().unicode_len() > 0 {
            push_str(&mut l, "  ");
            push_str(&mut l, DIM);
            push_str(&mut l, "(");
            push_str(&mut l, cls.as_str());
            push_str(&mut l, ")");
            push_str(&mut l, RESET);
        }
    }
    assert(l@ =~= node_line(*d, prefix@, last, *parent));
    emit(out, l);
    let mut next = owned(prefix);
    push_str(&mut next, DIM);
    push_str(&mut next, if last { "   " } else { "│  " });
    push_str(&mut next, RESET);
    kids_into(out, d, next.as_str());
    assert(texts(out@) =~= start + branch_lines(*d, prefix@, last, *parent));
}

/// Append the subtrees of every child of `p` (see [`kids_lines`]).
fn kids_into(out: &mut Vec<String>, p: &UsbDevice, prefix: &str)
    ensures
        texts(final(out)@) == texts(old(out)@) + kids_lines(*p, prefix@, p.children@.len()),
    decreases p, 0nat,
{
    let ghost start = texts(out@);
    let n = p.children.len();
    let mut i: usize = 0;
    while i < n
        invariant
            i <= n,
            n == p.children@.len(),
            texts(out@) == start + kids_lines(*p, prefix@, i as nat),
        decreases n - i,
    {
        let ghost before = texts(out@);
        proof {
            assert(decreases_to!(p => p.children));
            assert(decreases_to!(p.children => p.children@));
            assert(decreases_to!(p.children@ => p.children@[i as int]));
        }
        branch_into(out, &p.children[i], prefix, i + 1 == n, p);
        assert(kids_lines(*p, prefix@, (i + 1) as nat) == kids_lines(*p, prefix@, i as nat)
            + branch_lines(p.children@[i as int], prefix@, i + 1 == n, *p));
        assert(texts(out@) =~= start + kids_lines(*p, prefix@, (i + 1) as nat));
        i = i + 1;
    }
}

/// Append a root and its subtree (see [`root_lines`]).
fn root_into(out: &mut Vec<String>, d: &UsbDevice)
    ensures
        texts(final(out)@) == texts(old(out)@) + root_lines(*d),
{
    let ghost start = texts(out@);
    let mut l = owned(speed_color(d.link_speed_tier()));
    if d.is_root_hub {
        push_str(&mut l, "● ");
        push_str(&mut l, d.bus_port.as_str());
        push_str(&mut l, RESET);
        push_str(&mut l, "  ");
        push_str(&mut l, DIM);
        push_str(&mut l, root_label(d));
        push_str(&mut l, RESET);
    } else {
        if d.is_hub {
            push_str(&mut l, ITALIC);
        }
        push_str(&mut l, d.display_name().as_str());
        push_str(&mut l, RESET);
    }
    assert(l@ =~= root_line(*d));
    emit(out, l);
    proof {
        reveal_strlit("");
        assert(""@ =~= Seq::<char>::empty());
    }
    kids_into(out, d, "");
    assert(texts(out@) =~= start + root_lines(*d));
}

/// A Type-C port above the tree: headline, subtitle, power and
/// properties.
pub open spec fn typec_block(s: DeviceSummary) -> Seq<Seq<char>> {
    seq![BOLD@ + CYAN@ + s.headline@ + RESET@] + opt_line(s.subtitle@.len() > 0, "  "@ + s.subtitle@)
        + power_lines_text(s.power) + props_lines(props_view(s.properties@))
}

/// The Type-C blocks of the first `n` summaries.
pub open spec fn typec_section(devs: Seq<DeviceSummary>, n: nat) -> Seq<Seq<char>>
    decreases n,
{
    if n == 0 {
        Seq::empty()
    } else {
        typec_section(devs, (n - 1) as nat) + (if devs[n - 1].category == Category::TypeCPort {
            typec_block(devs[n - 1])
        } else {
            Seq::empty()
        })
    }
}

/// A root is drawn unless it is a root hub with nothing below it.
pub open spec fn shown_root(d: UsbDevice) -> bool {
    !(d.is_root_hub && d.children@.len() == 0)
}

/// The drawn blocks of the first `n` roots, a blank line between two.
pub open spec fn root_blocks(roots: Seq<UsbDevice>, n: nat) -> Seq<Seq<char>>
    decreases n,
{
    if n == 0 {
        Seq::empty()
    } else {
        let prev = root_blocks(roots, (n - 1) as nat);
        prev + (if shown_root(roots[n - 1]) {
            (if prev.len() > 0 {
                seq![Seq::<char>::empty()]
            } else {
                Seq::empty()
            }) + root_lines(roots[n - 1])
        } else {
            Seq::empty()
        })
    }
}

/// The colour legend under the tree.
pub open spec fn legend_text() -> Seq<char> {
    DIM@ + "Link:"@ + RESET@ + "  "@ + BRIGHT_MAGENTA@ + "●"@ + RESET@ + " "@ + DIM@ + "40G"@ + RESET@
        + "  "@ + MAGENTA@ + "●"@ + RESET@ + " "@ + DIM@ + "20G"@ + RESET@ + "  "@ + BRIGHT_BLUE@
        + "●"@ + RESET@ + " "@ + DIM@ + "10G"@ + RESET@ + "  "@ + CYAN@ + "●"@ + RESET@ + " "@ + DIM@
        + "5G"@ + RESET@ + "  "@ + GREEN@ + "●"@ + RESET@ + " "@ + DIM@ + "480M"@ + RESET@ + "  "@
        + YELLOW@ + "●"@ + RESET@ + " "@ + DIM@ + "12M"@ + RESET@ + "  "@ + BRIGHT_BLACK@ + "●"@
        + RESET@ + " "@ + DIM@ + "1.5M"@ + RESET@ + "   "@ + DIM@ + ITALIC@ + "italic"@ + RESET@ + DIM@
        + " = hub"@ + RESET@
}

/// The tree view: Type-C ports first, then each drawn root with its
/// subtree, then the legend; a notice when there is nothing at all.
pub open spec fn tree_text(devs: Seq<DeviceSummary>, usb: Seq<UsbDevice>) -> Seq<Seq<char>> {
    let t = typec_section(devs, devs.len());
    let roots = roots_of(usb);
    t + (if t.len() > 0 {
        seq![Seq::<char>::empty()]
    } else {
        Seq::empty()
    }) + (if roots.len() == 0 {
        if t.len() == 0 {
            seq!["No USB devices found."@]
        } else {
            Seq::empty()
        }
    } else {
        root_blocks(roots, roots.len()) + seq![Seq::<char>::empty(), legend_text()]
    })
}

/// The colour legend (see [`legend_text`]).
fn legend() -> (r: String)
    ensures
        r@ == legend_text(),
{
    let mut r = owned(DIM);
    push_str(&mut r, "Link:");
    push_str(&mut r, RESET);
    push_str(&mut r, "  ");
    push_str(&mut r, BRIGHT_MAGENTA);
    push_str(&mut r, "●");
    push_str(&mut r, RESET);
    push_str(&mut r, " ");
    push_str(&mut r, DIM);
    push_str(&mut r, "40G");
    push_str(&mut r, RESET);
    push_str(&mut r, "  ");
    push_str(&mut r, MAGENTA);
    push_str(&mut r, "●");
    push_str(&mut r, RESET);
    push_str(&mut r, " ");
    push_str(&mut r, DIM);
    push_str(&mut r, "20G");
    push_str(&mut r, RESET);
    push_str(&mut r, "  ");
    push_str(&mut r, BRIGHT_BLUE);
    push_str(&mut r, "●");
    push_str(&mut r, RESET);
    push_str(&mut r, " ");
    push_str(&mut r, DIM);
    push_str(&mut r, "10G");
    push_str(&mut r, RESET);
    push_str(&mut r, "  ");
    push_str(&mut r, CYAN);
    push_str(&mut r, "●");
    push_str(&mut r, RESET);
    push_str(&mut r, " ");
    push_str(&mut r, DIM);
    push_str(&mut r, "5G");
    push_str(&mut r, RESET);
    push_str(&mut r, "  ");
    push_str(&mut r, GREEN);
    push_str(&mut r, "●");
    push_str(&mut r, RESET);
    push_str(&mut r, " ");
    push_str(&mut r, DIM);
    push_str(&mut r, "480M");
    push_str(&mut r, RESET);
    push_str(&mut r, "  ");
    push_str(&mut r, YELLOW);
    push_str(&mut r, "●");
    push_str(&mut r, RESET);
    push_str(&mut r, " ");
    push_str(&mut r, DIM);
    push_str(&mut r, "12M");
    push_str(&mut r, RESET);
    push_str(&mut r, "  ");
    push_str(&mut r, BRIGHT_BLACK);
    push_str(&mut r, "●");
    push_str(&mut r, RESET);
    push_str(&mut r, " ");
    push_str(&mut r, DIM);
    push_str(&mut r, "1.5M");
    push_str(&mut r, RESET);
    push_str(&mut r, "   ");
    push_str(&mut r, DIM);
    push_str(&mut r, ITALIC);
    push_str(&mut r, "italic");
    push_str(&mut r, RESET);
    push_str(&mut r, DIM);
    push_str(&mut r, " = hub");
    push_str(&mut r, RESET);
    r
}

/// Append the Type-C block of `s` (see [`typec_block`]).
fn typec_block_into(out: &mut Vec<String>, s: &DeviceSummary)
    ensures
        texts(final(out)@) == texts(old(out)@) + typec_block(*s),
{
    let ghost start = texts(out@);
    let mut h = owned(BOLD);
    push_str(&mut h, CYAN);
    push_str(&mut h, s.headline.as_str());
    push_str(&mut h, RESET);
    emit(out, h);
    emit_opt(out, s.subtitle.as_str().unicode_len() > 0, concat2("  ", s.subtitle.as_str()));
    power_lines(out, &s.power);
    props_into(out, &s.properties);
    assert(texts(out@) =~= start + typec_block(*s));
}

/// The tree view of the manager's latest snapshot (see [`tree_text`]).
pub fn tree_lines(mgr: &DeviceManager) -> (r: Vec<String>)
    ensures
        texts(r@) == tree_text(mgr.snapshot().summaries@, mgr.snapshot().usb_devices@),
{
    let devs = mgr.devices();
    let mut out: Vec<String> = Vec::new();
    let mut i: usize = 0;
    assert(texts(out@) =~= typec_section(devs@, 0));
    while i < devs.len()
        invariant
            i <= devs@.len(),
            texts(out@) == typec_section(devs@, i as nat),
        decreases devs@.len() - i,
    {
        let ghost before = texts(out@);
        if devs[i].category == Category::TypeCPort {
            typec_block_into(&mut out, &devs[i]);
        }
        assert(texts(out@) =~= typec_section(devs@, (i + 1) as nat));
        i = i + 1;
    }
    let ghost t = texts(out@);
    let printed = out.len() > 0;
    if printed {
        emit(&mut out, String::new());
    }
    let ghost after_t = texts(out@);
    assert(after_t =~= t + (if t.len() > 0 {
        seq![Seq::<char>::empty()]
    } else {
        Seq::empty()
    }));
    let usb = mgr.usb_devices();
    let roots = crate::usb::tree_roots(usb);
    let ghost rs = roots@.map_values(|d: &UsbDevice| *d);
    if roots.len() == 0 {
        if !printed {
            emit(&mut out, owned("No USB devices found."));
        }
        assert(texts(out@) =~= tree_text(devs@, usb@));
        return out;
    }
    let ghost base = texts(out@);
    let mut shown_any = false;
    let mut k: usize = 0;
    assert(root_blocks(rs, 0) =~= Seq::<Seq<char>>::empty());
    while k < roots.len()
        invariant
            k <= roots@.len(),
            rs == roots@.map_values(|d: &UsbDevice| *d),
            texts(out@) == base + root_blocks(rs, k as nat),
            shown_any == (root_blocks(rs, k as nat).len() > 0),
        decreases roots@.len() - k,
    {
        let root = roots[k];
        assert(*root == rs[k as int]);
        if !(root.is_root_hub && root.children.len() == 0) {
            if shown_any {
                emit(&mut out, String::new());
            }
            root_into(&mut out, root);
            shown_any = true;
        }
        assert(texts(out@) =~= base + root_blocks(rs, (k + 1) as nat));
        k = k + 1;
    }
    emit(&mut out, String::new());
    emit(&mut out, legend());
    assert(rs == roots_of(usb@));
    assert(texts(out@) =~= tree_text(devs@, usb@));
    out
}

} // verus!
