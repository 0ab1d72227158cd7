//! USB Power Delivery 3.x VDO decoders.
//!
//! Partners exchange capability information through 32-bit *Vendor Defined
//! Objects* (VDOs). The decoders here read the bit fields of the *Discover
//! Identity* response: the ID Header VDO, the UFP VDO's highest-speed field
//! and the Cable VDO. They are total: every `u32` decodes.

use vstd::prelude::*;

verus! {

/// Bits `[lo, lo + w)` of `v`, as a number.
pub open spec fn field(v: u32, lo: nat, w: nat) -> nat {
    (v as nat / vstd::arithmetic::power2::pow2(lo)) % vstd::arithmetic::power2::pow2(w)
}

/// The kind of USB-PD product reported in a `Discover Identity` ID Header.
#[derive(Debug, Clone, Copy, PartialEq, Eq, Structural)]
pub enum ProductType {
    /// Field absent or reserved.
    Undefined,
    /// USB hub.
    Hub,
    /// USB peripheral.
    Peripheral,
    /// Passive USB-C cable assembly.
    PassiveCable,
    /// Active USB-C cable assembly.
    ActiveCable,
    /// Alternate Mode Adapter.
    Ama,
    /// VCONN-Powered Device.
    Vpd,
    /// Reserved or vendor-specific value not interpreted.
    Other,
}

impl Default for ProductType {
    fn default() -> (r: Self)
        ensures
            r == ProductType::Undefined,
    {
        ProductType::Undefined
    }
}

/// USB data-rate capability advertised in a Cable VDO, in ascending order.
#[derive(Debug, Clone, Copy, PartialEq, Eq, PartialOrd, Ord, Structural)]
pub enum CableSpeed {
    /// USB 2.0 (480 Mbps), or no SuperSpeed support advertised.
    Usb20,
    /// USB 3.2 Gen 1 — 5 Gbps.
    Usb32Gen1,
    /// USB 3.2 Gen 2 — 10 Gbps.
    Usb32Gen2,
    /// USB4 Gen 3 — 20/40 Gbps.
    Usb4Gen3,
    /// USB4 Gen 4 — 40/80 Gbps.
    Usb4Gen4,
}

/// VBUS current rating advertised by a cable's e-marker.
#[derive(Debug, Clone, Copy, PartialEq, Eq, Structural)]
pub enum CableCurrent {
    /// USB Default — nominal 0.9 A.
    UsbDefault,
    /// 3 A.
    ThreeAmp,
    /// 5 A.
    FiveAmp,
}

/// Decoded fields of an ID Header VDO.
#[derive(Debug, Clone, Copy, PartialEq, Eq, Structural)]
pub struct IdHeaderVdo {
    /// USB Communications Capable as Host (bit 31).
    pub usb_comm_capable_as_host: bool,
    /// USB Communications Capable as Device (bit 30).
    pub usb_comm_capable_as_device: bool,
    /// Modal Operation Supported (bit 26).
    pub modal_operation: bool,
    /// Product type in the UFP role (bits 29..27), if recognized.
    pub ufp_product_type: Option<ProductType>,
    /// Product type in the DFP role (bits 25..23), if recognized.
    pub dfp_product_type: Option<ProductType>,
    /// Vendor ID (bits 15..0).
    pub vendor_id: u16,
}

/// Decoded fields of a Cable VDO.
#[derive(Debug, Clone, Copy, PartialEq, Eq, Structural)]
pub struct CableVdo {
    /// Maximum link speed supported by the cable.
    pub speed: CableSpeed,
    /// Maximum VBUS current rating.
    pub current_rating: CableCurrent,
    /// `true` when the cable carries VBUS through to the partner.
    pub vbus_through_cable: bool,
    /// Maximum VBUS voltage, in volts (20, 30, 40 or 50).
    pub max_vbus_volts: u32,
    /// `true` when the cable is electrically active.
    pub is_active: bool,
    /// Rated current × maximum VBUS voltage, in whole watts.
    pub max_watts: u32,
}

/// Label of a product type.
pub open spec fn product_type_text(t: ProductType) -> Seq<char> {
    match t {
        ProductType::Hub => "USB Hub"@,
        ProductType::Peripheral => "USB Peripheral"@,
        ProductType::PassiveCable => "Passive Cable"@,
        ProductType::ActiveCable => "Active Cable"@,
        ProductType::Ama => "Alternate Mode Adapter"@,
        ProductType::Vpd => "VCONN-Powered Device"@,
        ProductType::Other => "Other"@,
        ProductType::Undefined => "Unknown"@,
    }
}

/// Label of a cable speed.
pub open spec fn cable_speed_text(s: CableSpeed) -> Seq<char> {
    match s {
        CableSpeed::Usb20 => "USB 2.0"@,
        CableSpeed::Usb32Gen1 => "USB 3.2 Gen 1 (5 Gbps)"@,
        CableSpeed::Usb32Gen2 => "USB 3.2 Gen 2 (10 Gbps)"@,
        CableSpeed::Usb4Gen3 => "USB4 Gen 3 (20/40 Gbps)"@,
        CableSpeed::Usb4Gen4 => "USB4 Gen 4 (40/80 Gbps)"@,
    }
}

/// Label of a cable current rating.
pub open spec fn cable_current_text(c: CableCurrent) -> Seq<char> {
    match c {
        CableCurrent::UsbDefault => "USB Default"@,
        CableCurrent::ThreeAmp => "3A"@,
        CableCurrent::FiveAmp => "5A"@,
    }
}

/// Human-readable label for a [`ProductType`].
pub fn product_type_label(t: ProductType) -> (r: &'static str)
    ensures
        r@ == product_type_text(t),
{
    match t {
        ProductType::Hub => "USB Hub",
        ProductType::Peripheral => "USB Peripheral",
        ProductType::PassiveCable => "Passive Cable",
        ProductType::ActiveCable => "Active Cable",
        ProductType::Ama => "Alternate Mode Adapter",
        ProductType::Vpd => "VCONN-Powered Device",
        ProductType::Other => "Other",
        ProductType::Undefined => "Unknown",
    }
}

/// Human-readable label for a [`CableSpeed`].
pub fn cable_speed_label(s: CableSpeed) -> (r: &'static str)
    ensures
        r@ == cable_speed_text(s),
{
    match s {
        CableSpeed::Usb20 => "USB 2.0",
        CableSpeed::Usb32Gen1 => "USB 3.2 Gen 1 (5 Gbps)",
        CableSpeed::Usb32Gen2 => "USB 3.2 Gen 2 (10 Gbps)",
        CableSpeed::Usb4Gen3 => "USB4 Gen 3 (20/40 Gbps)",
        CableSpeed::Usb4Gen4 => "USB4 Gen 4 (40/80 Gbps)",
    }
}

/// Headline single-lane Gbps figure of a cable speed (0 for USB 2.0).
pub open spec fn cable_speed_gbps(s: CableSpeed) -> u32 {
    match s {
        CableSpeed::Usb20 => 0,
        CableSpeed::Usb32Gen1 => 5,
        CableSpeed::Usb32Gen2 => 10,
        CableSpeed::Usb4Gen3 => 40,
        CableSpeed::Usb4Gen4 => 80,
    }
}

/// Headline single-lane Gbps figure for a [`CableSpeed`]; 0 for USB 2.0.
pub fn cable_speed_max_gbps(s: CableSpeed) -> (r: u32)
    ensures
        r == cable_speed_gbps(s),
{
    match s {
        CableSpeed::Usb20 => 0,
        CableSpeed::Usb32Gen1 => 5,
        CableSpeed::Usb32Gen2 => 10,
        CableSpeed::Usb4Gen3 => 40,
        CableSpeed::Usb4Gen4 => 80,
    }
}

/// Human-readable label for a [`CableCurrent`].
pub fn cable_current_label(c: CableCurrent) -> (r: &'static str)
    ensures
        r@ == cable_current_text(c),
{
    match c {
        CableCurrent::UsbDefault => "USB Default",
        CableCurrent::ThreeAmp => "3A",
        CableCurrent::FiveAmp => "5A",
    }
}

/// UFP product type of a 3-bit field value.
pub open spec fn ufp_type(bits: nat) -> Option<ProductType> {
    if bits == 1 {
        Some(ProductType::Hub)
    } else if bits == 2 {
        Some(ProductType::Peripheral)
    } else if bits == 3 {
        Some(ProductType::PassiveCable)
    } else if bits == 4 {
        Some(ProductType::ActiveCable)
    } else if bits == 5 {
        Some(ProductType::Ama)
    } else if bits == 6 {
        Some(ProductType::Vpd)
    } else {
        None
    }
}

/// DFP product type of a 3-bit field value.
pub open spec fn dfp_type(bits: nat) -> Option<ProductType> {
    if bits == 1 {
        Some(ProductType::Hub)
    } else if bits == 2 {
        Some(ProductType::Peripheral)
    } else {
        None
    }
}

fn ufp_from_bits(bits: u32) -> (r: Option<ProductType>)
    ensures
        r == ufp_type(bits as nat),
{
    match bits {
        1 => Some(ProductType::Hub),
        2 => Some(ProductType::Peripheral),
        3 => Some(ProductType::PassiveCable),
        4 => Some(ProductType::ActiveCable),
        5 => Some(ProductType::Ama),
        6 => Some(ProductType::Vpd),
        _ => None,
    }
}

fn dfp_from_bits(bits: u32) -> (r: Option<ProductType>)
    ensures
        r == dfp_type(bits as nat),
{
    match bits {
        1 => Some(ProductType::Hub),
        2 => Some(ProductType::Peripheral),
        _ => None,
    }
}

/// The decoded ID Header of `vdo`.
pub open spec fn id_header_of(vdo: u32) -> IdHeaderVdo {
    IdHeaderVdo {
        usb_comm_capable_as_host: field(vdo, 31, 1) == 1,
        usb_comm_capable_as_device: field(vdo, 30, 1) == 1,
        modal_operation: field(vdo, 26, 1) == 1,
        ufp_product_type: ufp_type(field(vdo, 27, 3)),
        dfp_product_type: dfp_type(field(vdo, 23, 3)),
        vendor_id: field(vdo, 0, 16) as u16,
    }
}

proof fn lemma_field_values(v: u32)
    ensures
        field(v, 31, 1) == ((v >> 31u32) & 1) as nat,
        field(v, 30, 1) == ((v >> 30u32) & 1) as nat,
        field(v, 26, 1) == ((v >> 26u32) & 1) as nat,
        field(v, 27, 3) == ((v >> 27u32) & 7) as nat,
        field(v, 23, 3) == ((v >> 23u32) & 7) as nat,
        field(v, 0, 16) == (v & 0xFFFF) as nat,
        field(v, 0, 3) == (v & 7) as nat,
        field(v, 5, 2) == ((v >> 5u32) & 3) as nat,
        field(v, 9, 2) == ((v >> 9u32) & 3) as nat,
        field(v, 4, 1) == ((v >> 4u32) & 1) as nat,
        field(v, 29, 3) == ((v >> 29u32) & 7) as nat,
        (v & 0xFFFF) < 0x10000,
        (v >> 31u32) & 1 < 2,
        (v >> 30u32) & 1 < 2,
        (v >> 26u32) & 1 < 2,
        (v >> 4u32) & 1 < 2,
        (v >> 5u32) & 3 < 4,
        (v >> 9u32) & 3 < 4,
{
    assert((v & 0xFFFF) < 0x10000) by (bit_vector);
    assert((v >> 31u32) & 1 < 2) by (bit_vector);
    assert((v >> 30u32) & 1 < 2) by (bit_vector);
    assert((v >> 26u32) & 1 < 2) by (bit_vector);
    assert((v >> 4u32) & 1 < 2) by (bit_vector);
    assert((v >> 5u32) & 3 < 4) by (bit_vector);
    assert((v >> 9u32) & 3 < 4) by (bit_vector);
    vstd::arithmetic::power2::lemma2_to64();
    assert((v >> 31u32) & 1 == (v / 0x8000_0000) % 2) by (bit_vector);
    assert((v >> 30u32) & 1 == (v / 0x4000_0000) % 2) by (bit_vector);
    assert((v >> 26u32) & 1 == (v / 0x0400_0000) % 2) by (bit_vector);
    assert((v >> 27u32) & 7 == (v / 0x0800_0000) % 8) by (bit_vector);
    assert((v >> 23u32) & 7 == (v / 0x0080_0000) % 8) by (bit_vector);
    assert(v & 0xFFFF == (v / 1) % 0x10000) by (bit_vector);
    assert(v & 7 == (v / 1) % 8) by (bit_vector);
    assert((v >> 5u32) & 3 == (v / 32) % 4) by (bit_vector);
    assert((v >> 9u32) & 3 == (v / 512) % 4) by (bit_vector);
    assert((v >> 4u32) & 1 == (v / 16) % 2) by (bit_vector);
    assert((v >> 29u32) & 7 == (v / 0x2000_0000) % 8) by (bit_vector);
}

/// Decode the ID Header VDO into typed fields (USB-PD R3.x § 6.4.4.2.1).
pub fn decode_id_header(vdo: u32) -> (h: IdHeaderVdo)
    ensures
        h == id_header_of(vdo),
{
    proof {
        lemma_field_values(vdo);
    }
    IdHeaderVdo {
        usb_comm_capable_as_host: (vdo >> 31) & 1 != 0,
        usb_comm_capable_as_device: (vdo >> 30) & 1 != 0,
        modal_operation: (vdo >> 26) & 1 != 0,
        ufp_product_type: ufp_from_bits((vdo >> 27) & 0x7),
        dfp_product_type: dfp_from_bits((vdo >> 23) & 0x7),
        vendor_id: (vdo & 0xFFFF) as u16,
    }
}

/// The *USB Highest Speed* of a UFP VDO1: `None` when the VDO is zero, its
/// version bits 31..29 are zero, or bits 2..0 are reserved (5..7).
pub open spec fn ufp_highest_speed(vdo1: u32) -> Option<CableSpeed> {
    if vdo1 == 0 || field(vdo1, 29, 3) == 0 {
        None
    } else {
        let s = field(vdo1, 0, 3);
        if s == 0 {
            Some(CableSpeed::Usb20)
        } else if s == 1 {
            Some(CableSpeed::Usb32Gen1)
        } else if s == 2 {
            Some(CableSpeed::Usb32Gen2)
        } else if s == 3 {
            Some(CableSpeed::Usb4Gen3)
        } else if s == 4 {
            Some(CableSpeed::Usb4Gen4)
        } else {
            None
        }
    }
}

/// Decode the *USB Highest Speed* field of a UFP VDO1 (USB-PD R3.x
/// § 6.4.4.3.1.4).
pub fn decode_ufp_vdo_highest_speed(vdo1: u32) -> (r: Option<CableSpeed>)
    ensures
        r == ufp_highest_speed(vdo1),
{
    proof {
        lemma_field_values(vdo1);
    }
    if vdo1 == 0 || (vdo1 >> 29) & 0x7 == 0 {
        return None;
    }
    match vdo1 & 0x7 {
        0 => Some(CableSpeed::Usb20),
        1 => Some(CableSpeed::Usb32Gen1),
        2 => Some(CableSpeed::Usb32Gen2),
        3 => Some(CableSpeed::Usb4Gen3),
        4 => Some(CableSpeed::Usb4Gen4),
        _ => None,
    }
}

/// `true` when `vdo` sets a bit that the Cable VDO layout reserves: bit 3
/// always, and bits 7..8 for passive cables.
pub open spec fn reserved_bits_set(vdo: u32, is_active: bool) -> bool {
    field(vdo, 3, 1) == 1 || (!is_active && (field(vdo, 7, 1) == 1 || field(vdo, 8, 1) == 1))
}

/// `true` when the raw Cable VDO sets bits USB-PD R3.x defines as reserved.
pub fn cable_vdo_reserved_bits_set(vdo: u32, is_active: bool) -> (r: bool)
    ensures
        r == reserved_bits_set(vdo, is_active),
{
    proof {
        vstd::arithmetic::power2::lemma2_to64();
        assert(((vdo & 0x0000_0008) != 0) == ((vdo / 8) % 2 == 1)) by (bit_vector);
        assert(((vdo & 0x0000_0188) != 0) == ((vdo / 8) % 2 == 1 || (vdo / 128) % 2 == 1 || (
        vdo / 256) % 2 == 1)) by (bit_vector);
    }
    let mask: u32 = if is_active {
        0x0000_0008
    } else {
        0x0000_0188
    };
    vdo & mask != 0
}

/// Cable speed of a 3-bit field value (reserved values read as USB 2.0).
pub open spec fn cable_speed_of(bits: nat) -> CableSpeed {
    if bits == 1 {
        CableSpeed::Usb32Gen1
    } else if bits == 2 {
        CableSpeed::Usb32Gen2
    } else if bits == 3 {
        CableSpeed::Usb4Gen3
    } else if bits == 4 {
        CableSpeed::Usb4Gen4
    } else {
        CableSpeed::Usb20
    }
}

/// Current rating of a 2-bit field value (3 reads as USB Default).
pub open spec fn cable_current_of(bits: nat) -> CableCurrent {
    if bits == 1 {
        CableCurrent::ThreeAmp
    } else if bits == 2 {
        CableCurrent::FiveAmp
    } else {
        CableCurrent::UsbDefault
    }
}

/// Maximum VBUS volts of a 2-bit field value.
pub open spec fn vbus_volts_of(bits: nat) -> u32 {
    if bits == 1 {
        30
    } else if bits == 2 {
        40
    } else if bits == 3 {
        50
    } else {
        20
    }
}

/// Whole watts carried at `volts` with rating `c` (0.9 A, 3 A or 5 A),
/// rounded down.
pub open spec fn rated_watts(volts: u32, c: CableCurrent) -> u32 {
    match c {
        CableCurrent::UsbDefault => (volts * 9 / 10) as u32,
        CableCurrent::ThreeAmp => (volts * 3) as u32,
        CableCurrent::FiveAmp => (volts * 5) as u32,
    }
}

/// The decoded Cable VDO of `vdo`.
pub open spec fn cable_vdo_of(vdo: u32, is_active: bool) -> CableVdo {
    let c = cable_current_of(field(vdo, 5, 2));
    let v = vbus_volts_of(field(vdo, 9, 2));
    CableVdo {
        speed: cable_speed_of(field(vdo, 0, 3)),
        current_rating: c,
        vbus_through_cable: field(vdo, 4, 1) == 1,
        max_vbus_volts: v,
        is_active,
        max_watts: rated_watts(v, c),
    }
}

/// Decode a Cable VDO (USB-PD R3.x § 6.4.4.3.1 and § 6.4.4.3.1.1).
pub fn decode_cable_vdo(vdo: u32, is_active: bool) -> (c: CableVdo)
    ensures
        c == cable_vdo_of(vdo, is_active),
{
    proof {
        lemma_field_values(vdo);
    }
    let speed = match vdo & 0x7 {
        1 => CableSpeed::Usb32Gen1,
        2 => CableSpeed::Usb32Gen2,
        3 => CableSpeed::Usb4Gen3,
        4 => CableSpeed::Usb4Gen4,
        _ => CableSpeed::Usb20,
    };
    let current_rating = match (vdo >> 5) & 0x3 {
        1 => CableCurrent::ThreeAmp,
        2 => CableCurrent::FiveAmp,
        _ => CableCurrent::UsbDefault,
    };
    let max_vbus_volts: u32 = match (vdo >> 9) & 0x3 {
        1 => 30,
        2 => 40,
        3 => 50,
        _ => 20,
    };
    let max_watts: u32 = match current_rating {
        CableCurrent::UsbDefault => max_vbus_volts * 9 / 10,
        CableCurrent::ThreeAmp => max_vbus_volts * 3,
        CableCurrent::FiveAmp => max_vbus_volts * 5,
    };
    assert(speed == cable_speed_of(field(vdo, 0, 3)));
    assert(current_rating == cable_current_of(field(vdo, 5, 2)));
    assert(max_vbus_volts == vbus_volts_of(field(vdo, 9, 2)));
    assert(max_watts == rated_watts(max_vbus_volts, current_rating));
    CableVdo {
        speed,
        current_rating,
        vbus_through_cable: (vdo >> 4) & 1 != 0,
        max_vbus_volts,
        is_active,
        max_watts,
    }
}

} // verus!
