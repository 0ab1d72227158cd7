//! Binary Object Store (BOS) descriptor decoding.
//!
//! A device's Binary Object Store is the set of USB 3.x *Device Capability*
//! descriptors it published at enumeration. Where the negotiated link speed
//! says what the link **did**, the BOS says what the device **can** do.
//!
//! [`parse`] takes the raw bytes and never panics: a descriptor claiming a
//! `bLength` below 3, one that runs past the end of the blob, one that is not
//! a Device Capability descriptor, or a 65th capability ends the walk with
//! [`BosDescriptors::truncated`] set, keeping whatever decoded before.

use vstd::prelude::*;
use crate::text::{
    dec_seq, dec_string, hex_pad, hex_padded, owned, push_str, concat2, concat3,
};
use crate::fixed::{scaled_text, scaled_string};

verus! {

broadcast use vstd::string::group_string_axioms;

/// `bDescriptorType` of the BOS root descriptor.
pub const DT_BOS: u8 = 0x0F;

/// `bDescriptorType` of a Device Capability descriptor.
pub const DT_DEVICE_CAPABILITY: u8 = 0x10;

/// Length of the BOS root descriptor.
pub const BOS_HEADER_LEN: usize = 5;

/// Most capability descriptors decoded from one blob.
pub const MAX_CAPABILITIES: usize = 64;

/// `bDevCapabilityType` of the USB 2.0 Extension.
pub const CAP_USB_2_0_EXTENSION: u8 = 0x02;

/// `bDevCapabilityType` of the SuperSpeed USB capability.
pub const CAP_SUPERSPEED_USB: u8 = 0x03;

/// `bDevCapabilityType` of the Container ID.
pub const CAP_CONTAINER_ID: u8 = 0x04;

/// `bDevCapabilityType` of the SuperSpeedPlus USB capability.
pub const CAP_SUPERSPEED_PLUS: u8 = 0x0A;

/// Low Speed, reported as 2 Mbps so it lands in the Low tier.
pub const SPEED_LOW_MBPS: u32 = 2;

/// Full Speed.
pub const SPEED_FULL_MBPS: u32 = 12;

/// High Speed.
pub const SPEED_HIGH_MBPS: u32 = 480;

/// SuperSpeed Gen 1.
pub const SPEED_GEN1_MBPS: u32 = 5_000;

/// Decoded USB 2.0 Extension capability (`bDevCapabilityType == 0x02`).
#[derive(Debug, Clone, Copy, PartialEq, Eq, Structural)]
pub struct Usb2Extension {
    /// Raw `bmAttributes`.
    pub bm_attributes: u32,
    /// Bit 1 — Link Power Management supported.
    pub lpm: bool,
    /// Bit 2 — BESL and Alternate HIRD supported.
    pub besl: bool,
    /// Bit 3 — baseline BESL valid.
    pub baseline_besl_valid: bool,
    /// Bit 4 — deep BESL valid.
    pub deep_besl_valid: bool,
    /// Bits 11:8 — recommended baseline BESL.
    pub baseline_besl: u8,
    /// Bits 15:12 — recommended deep BESL.
    pub deep_besl: u8,
}

/// The USB 2.0 Extension decoded from `bm`.
pub open spec fn usb2_extension_of(bm: u32) -> Usb2Extension {
    Usb2Extension {
        bm_attributes: bm,
        lpm: bm & 2 != 0,
        besl: bm & 4 != 0,
        baseline_besl_valid: bm & 8 != 0,
        deep_besl_valid: bm & 16 != 0,
        baseline_besl: ((bm >> 8u32) & 0xF) as u8,
        deep_besl: ((bm >> 12u32) & 0xF) as u8,
    }
}

impl Usb2Extension {
    /// Decode `bmAttributes`.
    pub fn from_bits(bm_attributes: u32) -> (r: Self)
        ensures
            r == usb2_extension_of(bm_attributes),
    {
        Usb2Extension {
            bm_attributes,
            lpm: bm_attributes & 2 != 0,
            besl: bm_attributes & 4 != 0,
            baseline_besl_valid: bm_attributes & 8 != 0,
            deep_besl_valid: bm_attributes & 16 != 0,
            baseline_besl: ((bm_attributes >> 8) & 0xF) as u8,
            deep_besl: ((bm_attributes >> 12) & 0xF) as u8,
        }
    }
}

/// Decoded SuperSpeed USB Device Capability (`bDevCapabilityType == 0x03`).
#[derive(Debug, Clone, Copy, PartialEq, Eq, Structural)]
pub struct SuperSpeedCapability {
    /// `bmAttributes` bit 1 — Latency Tolerance Messaging capable.
    pub ltm_capable: bool,
    /// `wSpeedsSupported`: bit 0 low, 1 full, 2 high, 3 SuperSpeed Gen 1.
    pub speeds_supported: u16,
    /// `bFunctionalitySupport` — bit index of the lowest fully functional speed.
    pub functionality_support: u8,
    /// `bU1DevExitLat`, microseconds.
    pub u1_dev_exit_lat_us: u8,
    /// `wU2DevExitLat`, microseconds.
    pub u2_dev_exit_lat_us: u16,
}

/// `true` when bit `b` (< 16) of `w` is set.
pub open spec fn bit16(w: u16, b: nat) -> bool {
    (w as nat / vstd::arithmetic::power2::pow2(b)) % 2 == 1
}

/// The Mbps of the speed at bit index `i` of `wSpeedsSupported`, if known.
pub open spec fn speed_at_bit(i: nat) -> Option<u32> {
    if i == 0 {
        Some(SPEED_LOW_MBPS)
    } else if i == 1 {
        Some(SPEED_FULL_MBPS)
    } else if i == 2 {
        Some(SPEED_HIGH_MBPS)
    } else if i == 3 {
        Some(SPEED_GEN1_MBPS)
    } else {
        None
    }
}

impl SuperSpeedCapability {
    /// Highest speed whose bit is set, in Mbps; 0 when none of bits 0..3 is.
    pub open spec fn spec_max_speed(self) -> u32 {
        if bit16(self.speeds_supported, 3) {
            SPEED_GEN1_MBPS
        } else if bit16(self.speeds_supported, 2) {
            SPEED_HIGH_MBPS
        } else if bit16(self.speeds_supported, 1) {
            SPEED_FULL_MBPS
        } else if bit16(self.speeds_supported, 0) {
            SPEED_LOW_MBPS
        } else {
            0
        }
    }

    /// The declared floor for full functionality: the speed named by
    /// `bFunctionalitySupport`, provided that bit is also set.
    pub open spec fn spec_floor(self) -> Option<u32> {
        let i = self.functionality_support as nat;
        if i <= 3 && bit16(self.speeds_supported, i) {
            speed_at_bit(i)
        } else {
            None
        }
    }

    proof fn lemma_bits(w: u16)
        ensures
            bit16(w, 0) == (w & 1 != 0),
            bit16(w, 1) == (w & 2 != 0),
            bit16(w, 2) == (w & 4 != 0),
            bit16(w, 3) == (w & 8 != 0),
    {
        vstd::arithmetic::power2::lemma2_to64();
        assert((w & 1 != 0) == ((w / 1) % 2 == 1)) by (bit_vector);
        assert((w & 2 != 0) == ((w / 2) % 2 == 1)) by (bit_vector);
        assert((w & 4 != 0) == ((w / 4) % 2 == 1)) by (bit_vector);
        assert((w & 8 != 0) == ((w / 8) % 2 == 1)) by (bit_vector);
    }

    /// Bit 0 — Low Speed supported.
    pub fn supports_low(&self) -> (r: bool)
        ensures
            r == bit16(self.speeds_supported, 0),
    {
        proof {
            Self::lemma_bits(self.speeds_supported);
        }
        self.speeds_supported & 1 != 0
    }

    /// Bit 1 — Full Speed supported.
    pub fn supports_full(&self) -> (r: bool)
        ensures
            r == bit16(self.speeds_supported, 1),
    {
        proof {
            Self::lemma_bits(self.speeds_supported);
        }
        self.speeds_supported & 2 != 0
    }

    /// Bit 2 — High Speed supported.
    pub fn supports_high(&self) -> (r: bool)
        ensures
            r == bit16(self.speeds_supported, 2),
    {
        proof {
            Self::lemma_bits(self.speeds_supported);
        }
        self.speeds_supported & 4 != 0
    }

    /// Bit 3 — SuperSpeed Gen 1 supported.
    pub fn supports_gen1(&self) -> (r: bool)
        ensures
            r == bit16(self.speeds_supported, 3),
    {
        proof {
            Self::lemma_bits(self.speeds_supported);
        }
        self.speeds_supported & 8 != 0
    }

    /// Highest speed in `wSpeedsSupported`, in Mbps; zero when the bitmap
    /// holds none of the bits this decoder knows.
    pub fn max_speed_mbps(&self) -> (r: u32)
        ensures
            r == self.spec_max_speed(),
    {
        if self.supports_gen1() {
            SPEED_GEN1_MBPS
        } else if self.supports_high() {
            SPEED_HIGH_MBPS
        } else if self.supports_full() {
            SPEED_FULL_MBPS
        } else if self.supports_low() {
            SPEED_LOW_MBPS
        } else {
            0
        }
    }

    /// The vendor's declared floor for full functionality, in Mbps; `None`
    /// when `bFunctionalitySupport` names no known speed or names one whose
    /// `wSpeedsSupported` bit is clear.
    pub fn functional_floor_mbps(&self) -> (r: Option<u32>)
        ensures
            r == self.spec_floor(),
    {
        proof {
            Self::lemma_bits(self.speeds_supported);
        }
        let set = match self.functionality_support {
            0 => self.supports_low(),
            1 => self.supports_full(),
            2 => self.supports_high(),
            3 => self.supports_gen1(),
            _ => return None,
        };
        if !set {
            return None;
        }
        match self.functionality_support {
            0 => Some(SPEED_LOW_MBPS),
            1 => Some(SPEED_FULL_MBPS),
            2 => Some(SPEED_HIGH_MBPS),
            _ => Some(SPEED_GEN1_MBPS),
        }
    }
}

/// `LSE` — the exponent applied to a sublink's lane speed mantissa.
#[derive(Debug, Clone, Copy, PartialEq, Eq, Structural)]
pub enum LaneSpeedExponent {
    /// Bits per second.
    Bps,
    /// Kilobits per second.
    Kbps,
    /// Megabits per second.
    Mbps,
    /// Gigabits per second.
    Gbps,
}

/// The exponent encoded by the low two bits of `bits`.
pub open spec fn exponent_of(bits: u8) -> LaneSpeedExponent {
    let b = bits & 3;
    if b == 0 {
        LaneSpeedExponent::Bps
    } else if b == 1 {
        LaneSpeedExponent::Kbps
    } else if b == 2 {
        LaneSpeedExponent::Mbps
    } else {
        LaneSpeedExponent::Gbps
    }
}

impl LaneSpeedExponent {
    /// Decode the two-bit `LSE` field (higher bits ignored).
    pub fn from_bits(bits: u8) -> (r: Self)
        ensures
            r == exponent_of(bits),
    {
        match bits & 0x3 {
            0 => LaneSpeedExponent::Bps,
            1 => LaneSpeedExponent::Kbps,
            2 => LaneSpeedExponent::Mbps,
            _ => LaneSpeedExponent::Gbps,
        }
    }
}

/// `ST` — direction and symmetry of a sublink speed attribute.
#[derive(Debug, Clone, Copy, PartialEq, Eq, Structural)]
pub enum SublinkType {
    /// Symmetric, receive.
    SymmetricRx,
    /// Symmetric, transmit.
    SymmetricTx,
    /// Asymmetric, receive.
    AsymmetricRx,
    /// Asymmetric, transmit.
    AsymmetricTx,
}

/// The sublink type encoded by the low two bits of `bits`: bit 0 set means
/// asymmetric, bit 1 set means transmit.
pub open spec fn sublink_type_of(bits: u8) -> SublinkType {
    let b = bits & 3;
    if b == 0 {
        SublinkType::SymmetricRx
    } else if b == 1 {
        SublinkType::AsymmetricRx
    } else if b == 2 {
        SublinkType::SymmetricTx
    } else {
        SublinkType::AsymmetricTx
    }
}

impl SublinkType {
    /// Decode the two-bit `ST` field (higher bits ignored).
    pub fn from_bits(bits: u8) -> (r: Self)
        ensures
            r == sublink_type_of(bits),
    {
        match bits & 0x3 {
            0b00 => SublinkType::SymmetricRx,
            0b01 => SublinkType::AsymmetricRx,
            0b10 => SublinkType::SymmetricTx,
            _ => SublinkType::AsymmetricTx,
        }
    }

    /// `true` for the two transmit variants.
    pub fn is_tx(self) -> (r: bool)
        ensures
            r == (self == SublinkType::SymmetricTx || self == SublinkType::AsymmetricTx),
    {
        match self {
            SublinkType::SymmetricTx | SublinkType::AsymmetricTx => true,
            _ => false,
        }
    }

    /// `true` for the two receive variants.
    pub fn is_rx(self) -> (r: bool)
        ensures
            r == (self == SublinkType::SymmetricRx || self == SublinkType::AsymmetricRx),
    {
        !self.is_tx()
    }
}

/// `LP` — the link protocol a sublink speed attribute applies to.
#[derive(Debug, Clone, Copy, PartialEq, Eq, Structural)]
pub enum LinkProtocol {
    /// SuperSpeed (Gen 1 signalling).
    SuperSpeed,
    /// SuperSpeedPlus (Gen 2 and later).
    SuperSpeedPlus,
    /// Reserved encoding, kept verbatim.
    Reserved(u8),
}

/// The link protocol encoded by the low two bits of `bits`.
pub open spec fn protocol_of(bits: u8) -> LinkProtocol {
    let b = bits & 3;
    if b == 0 {
        LinkProtocol::SuperSpeed
    } else if b == 1 {
        LinkProtocol::SuperSpeedPlus
    } else {
        LinkProtocol::Reserved(b)
    }
}

impl LinkProtocol {
    /// Decode the two-bit `LP` field (higher bits ignored).
    pub fn from_bits(bits: u8) -> (r: Self)
        ensures
            r == protocol_of(bits),
    {
        match bits & 0x3 {
            0 => LinkProtocol::SuperSpeed,
            1 => LinkProtocol::SuperSpeedPlus,
            other => LinkProtocol::Reserved(other),
        }
    }
}

/// One 32-bit entry of the SuperSpeedPlus `bmSublinkSpeedAttr[]` array.
#[derive(Debug, Clone, Copy, PartialEq, Eq, Structural)]
pub struct SublinkSpeedAttribute {
    /// Bits 3:0 — Sublink Speed Attribute ID.
    pub ssid: u8,
    /// Bits 5:4 — Lane Speed Exponent.
    pub exponent: LaneSpeedExponent,
    /// Bits 7:6 — Sublink Type.
    pub sublink_type: SublinkType,
    /// Bits 15:14 — Link Protocol.
    pub protocol: LinkProtocol,
    /// Bits 31:16 — Lane Speed Mantissa.
    pub mantissa: u16,
}

/// The sublink speed attribute decoded from `raw`.
pub open spec fn sublink_attr_of(raw: u32) -> SublinkSpeedAttribute {
    SublinkSpeedAttribute {
        ssid: (raw & 0xF) as u8,
        exponent: exponent_of(((raw >> 4u32) & 3) as u8),
        sublink_type: sublink_type_of(((raw >> 6u32) & 3) as u8),
        protocol: protocol_of(((raw >> 14u32) & 3) as u8),
        mantissa: ((raw >> 16u32) & 0xFFFF) as u16,
    }
}

/// Speed of one lane in Mbps: the mantissa scaled by its exponent, rounded
/// down to whole Mbps.
pub open spec fn lane_mbps(a: SublinkSpeedAttribute) -> nat {
    let m = a.mantissa as nat;
    match a.exponent {
        LaneSpeedExponent::Bps => m / 1_000_000,
        LaneSpeedExponent::Kbps => m / 1_000,
        LaneSpeedExponent::Mbps => m,
        LaneSpeedExponent::Gbps => m * 1_000,
    }
}

impl SublinkSpeedAttribute {
    /// Decode one raw attribute word.
    pub fn from_bits(raw: u32) -> (r: Self)
        ensures
            r == sublink_attr_of(raw),
    {
        SublinkSpeedAttribute {
            ssid: (raw & 0xF) as u8,
            exponent: LaneSpeedExponent::from_bits(((raw >> 4) & 0x3) as u8),
            sublink_type: SublinkType::from_bits(((raw >> 6) & 0x3) as u8),
            protocol: LinkProtocol::from_bits(((raw >> 14) & 0x3) as u8),
            mantissa: ((raw >> 16) & 0xFFFF) as u16,
        }
    }

    /// Speed of a single lane of this sublink, in Mbps.
    pub fn lane_speed_mbps(&self) -> (r: u32)
        ensures
            r as nat == lane_mbps(*self),
            r <= 65_535_000,
    {
        let m = self.mantissa as u32;
        match self.exponent {
            LaneSpeedExponent::Bps => m / 1_000_000,
            LaneSpeedExponent::Kbps => m / 1_000,
            LaneSpeedExponent::Mbps => m,
            LaneSpeedExponent::Gbps => m * 1_000,
        }
    }
}

/// Decoded SuperSpeedPlus USB Device Capability (`bDevCapabilityType == 0x0A`).
#[derive(Debug, PartialEq, Eq)]
pub struct SuperSpeedPlusCapability {
    /// `SSAC + 1` — the number of attributes the descriptor claims.
    pub sublink_speed_attr_count: u8,
    /// `SSIC + 1` — the number of distinct sublink speed IDs.
    pub sublink_speed_id_count: u8,
    /// `ssid` of the lowest sublink speed for full functionality.
    pub min_functional_ssid: u8,
    /// Minimum receive lane count.
    pub min_rx_lane_count: u8,
    /// Minimum transmit lane count.
    pub min_tx_lane_count: u8,
    /// Decoded attributes; fewer than claimed when the blob was cut short.
    pub sublink_attrs: Vec<SublinkSpeedAttribute>,
}

/// Model of a [`SuperSpeedPlusCapability`].
pub ghost struct SspView {
    pub attr_count: u8,
    pub id_count: u8,
    pub min_functional_ssid: u8,
    pub min_rx: u8,
    pub min_tx: u8,
    pub attrs: Seq<SublinkSpeedAttribute>,
}

impl View for SuperSpeedPlusCapability {
    type V = SspView;

    open spec fn view(&self) -> SspView {
        SspView {
            attr_count: self.sublink_speed_attr_count,
            id_count: self.sublink_speed_id_count,
            min_functional_ssid: self.min_functional_ssid,
            min_rx: self.min_rx_lane_count,
            min_tx: self.min_tx_lane_count,
            attrs: self.sublink_attrs@,
        }
    }
}

impl Clone for SuperSpeedPlusCapability {
    /// A copy of the capability.
    fn clone(&self) -> (r: Self)
        ensures
            r@ == self@,
    {
        let mut attrs: Vec<SublinkSpeedAttribute> = Vec::new();
        let mut i: usize = 0;
        while i < self.sublink_attrs.len()
            invariant
                i <= self.sublink_attrs@.len(),
                attrs@ == self.sublink_attrs@.take(i as int),
            decreases self.sublink_attrs@.len() - i,
        {
            attrs.push(self.sublink_attrs[i]);
            assert(attrs@ =~= self.sublink_attrs@.take(i + 1));
            i = i + 1;
        }
        assert(self.sublink_attrs@.take(i as int) =~= self.sublink_attrs@);
        SuperSpeedPlusCapability {
            sublink_speed_attr_count: self.sublink_speed_attr_count,
            sublink_speed_id_count: self.sublink_speed_id_count,
            min_functional_ssid: self.min_functional_ssid,
            min_rx_lane_count: self.min_rx_lane_count,
            min_tx_lane_count: self.min_tx_lane_count,
            sublink_attrs: attrs,
        }
    }
}

/// Fastest lane speed among `attrs` (0 when empty).
pub open spec fn max_lane(attrs: Seq<SublinkSpeedAttribute>) -> nat
    decreases attrs.len(),
{
    if attrs.len() == 0 {
        0
    } else {
        let rest = max_lane(attrs.drop_last());
        let x = lane_mbps(attrs.last());
        if x > rest {
            x
        } else {
            rest
        }
    }
}

/// `n`, saturated at `u32::MAX`.
pub open spec fn sat32(n: nat) -> nat {
    if n > u32::MAX {
        u32::MAX as nat
    } else {
        n
    }
}

/// Fastest `lane speed × lanes` (saturated at `u32::MAX`) among the
/// attributes with ID `ssid`, if any.
pub open spec fn max_floor(attrs: Seq<SublinkSpeedAttribute>, ssid: u8, lanes: nat) -> Option<
    nat,
>
    decreases attrs.len(),
{
    if attrs.len() == 0 {
        None
    } else {
        let rest = max_floor(attrs.drop_last(), ssid, lanes);
        if attrs.last().ssid == ssid {
            let x = sat32(lane_mbps(attrs.last()) * lanes);
            match rest {
                Some(r) => Some(
                    if x > r {
                        x
                    } else {
                        r
                    },
                ),
                None => Some(x),
            }
        } else {
            rest
        }
    }
}

/// Generation number of a per-lane speed, if nameable.
pub open spec fn gen_of(lane: nat) -> Option<nat> {
    if lane == 5_000 {
        Some(1)
    } else if lane == 10_000 {
        Some(2)
    } else if lane == 20_000 {
        Some(3)
    } else {
        None
    }
}

/// `"Gen {g}x{lanes}"`.
pub open spec fn gen_text(g: nat, lanes: nat) -> Seq<char> {
    "Gen "@ + dec_seq(g) + "x"@ + dec_seq(lanes)
}

impl SspView {
    /// `min(max(rx, 1), max(tx, 1))`.
    pub open spec fn lanes(self) -> nat {
        let rx: nat = if self.min_rx >= 1 {
            self.min_rx as nat
        } else {
            1
        };
        let tx: nat = if self.min_tx >= 1 {
            self.min_tx as nat
        } else {
            1
        };
        if rx < tx {
            rx
        } else {
            tx
        }
    }

    /// Aggregate capability: fastest lane × lanes.
    pub open spec fn capable(self) -> nat {
        max_lane(self.attrs) * self.lanes()
    }

    /// Generation label, when the fastest lane speed is nameable.
    pub open spec fn gen_label(self) -> Option<Seq<char>> {
        match gen_of(max_lane(self.attrs)) {
            Some(g) => Some(gen_text(g, self.lanes())),
            None => None,
        }
    }
}

proof fn lemma_max_lane_bound(attrs: Seq<SublinkSpeedAttribute>)
    ensures
        max_lane(attrs) <= 65_535_000,
    decreases attrs.len(),
{
    if attrs.len() > 0 {
        lemma_max_lane_bound(attrs.drop_last());
    }
}

proof fn lemma_max_floor_bound(attrs: Seq<SublinkSpeedAttribute>, ssid: u8, lanes: nat)
    ensures
        max_floor(attrs, ssid, lanes) matches Some(x) ==> x <= u32::MAX,
    decreases attrs.len(),
{
    if attrs.len() > 0 {
        lemma_max_floor_bound(attrs.drop_last(), ssid, lanes);
    }
}

impl SuperSpeedPlusCapability {
    /// Fastest single-lane speed advertised, in Mbps; zero when empty.
    pub fn max_lane_speed_mbps(&self) -> (r: u32)
        ensures
            r as nat == max_lane(self@.attrs),
    {
        let mut best: u32 = 0;
        let mut i: usize = 0;
        while i < self.sublink_attrs.len()
            invariant
                i <= self.sublink_attrs.len(),
                best as nat == max_lane(self.sublink_attrs@.take(i as int)),
            decreases self.sublink_attrs.len() - i,
        {
            let x = self.sublink_attrs[i].lane_speed_mbps();
            assert(self.sublink_attrs@.take(i + 1).drop_last() =~= self.sublink_attrs@.take(
                i as int,
            ));
            if x > best {
                best = x;
            }
            i = i + 1;
        }
        assert(self.sublink_attrs@.take(i as int) =~= self.sublink_attrs@);
        best
    }

    /// Smaller of the declared minimum Rx and Tx lane counts, each floored
    /// at 1.
    pub fn effective_lane_count(&self) -> (r: u32)
        ensures
            r as nat == self@.lanes(),
            1 <= r <= 255,
    {
        let rx: u32 = if self.min_rx_lane_count >= 1 {
            self.min_rx_lane_count as u32
        } else {
            1
        };
        let tx: u32 = if self.min_tx_lane_count >= 1 {
            self.min_tx_lane_count as u32
        } else {
            1
        };
        if rx < tx {
            rx
        } else {
            tx
        }
    }

    /// Aggregate capability across all lanes, in Mbps, saturating at
    /// `u32::MAX`.
    pub fn max_capable_mbps(&self) -> (r: u32)
        ensures
            r as nat == sat32(self@.capable()),
    {
        let lane = self.max_lane_speed_mbps() as u64;
        let lanes = self.effective_lane_count() as u64;
        proof {
            lemma_max_lane_bound(self@.attrs);
            assert(lane * lanes <= 65_535_000 * 255) by (nonlinear_arith)
                requires
                    lane <= 65_535_000,
                    lanes <= 255,
            ;
        }
        let prod = lane * lanes;
        if prod > u32::MAX as u64 {
            u32::MAX
        } else {
            prod as u32
        }
    }

    /// `"Gen {g}x{lanes}"` when the fastest lane speed is 5, 10 or 20 Gbps.
    pub fn gen_label(&self) -> (r: Option<String>)
        ensures
            r matches Some(s) ==> self@.gen_label() == Some(s@),
            r is None ==> self@.gen_label() is None,
    {
        let lanes = self.effective_lane_count();
        let g: u32 = match self.max_lane_speed_mbps() {
            5_000 => 1,
            10_000 => 2,
            20_000 => 3,
            _ => return None,
        };
        proof {
            reveal_strlit("Gen ");
            reveal_strlit("x");
        }
        let mut s = owned("Gen ");
        let gs = dec_string(g as u128);
        push_str(&mut s, gs.as_str());
        push_str(&mut s, "x");
        let ls = dec_string(lanes as u128);
        push_str(&mut s, ls.as_str());
        Some(s)
    }
}

/// One decoded Device Capability descriptor.
#[derive(Debug, PartialEq, Eq)]
pub enum BosCapability {
    /// `0x02` — USB 2.0 Extension.
    Usb2Extension(Usb2Extension),
    /// `0x03` — SuperSpeed USB Device Capability.
    SuperSpeed(SuperSpeedCapability),
    /// `0x04` — Container ID.
    ContainerId {
        /// Raw 16-byte UUID, in descriptor byte order.
        uuid: [u8; 16],
    },
    /// `0x0A` — SuperSpeedPlus USB Device Capability.
    SuperSpeedPlus(SuperSpeedPlusCapability),
    /// Any other capability, kept with its payload.
    Other {
        /// The raw `bDevCapabilityType`.
        cap_type: u8,
        /// Descriptor bytes after the 3-byte prefix.
        data: Vec<u8>,
    },
}

/// Model of a [`BosCapability`].
pub ghost enum CapView {
    Usb2Extension(Usb2Extension),
    SuperSpeed(SuperSpeedCapability),
    ContainerId(Seq<u8>),
    SuperSpeedPlus(SspView),
    Other(u8, Seq<u8>),
}

impl View for BosCapability {
    type V = CapView;

    open spec fn view(&self) -> CapView {
        match self {
            BosCapability::Usb2Extension(e) => CapView::Usb2Extension(*e),
            BosCapability::SuperSpeed(s) => CapView::SuperSpeed(*s),
            BosCapability::ContainerId { uuid } => CapView::ContainerId(uuid@),
            BosCapability::SuperSpeedPlus(s) => CapView::SuperSpeedPlus(s@),
            BosCapability::Other { cap_type, data } => CapView::Other(*cap_type, data@),
        }
    }
}

/// A copy of a byte list.
fn copy_bytes(v: &Vec<u8>) -> (r: Vec<u8>)
    ensures
        r@ == v@,
{
    let mut r: Vec<u8> = Vec::new();
    let mut i: usize = 0;
    while i < v.len()
        invariant
            i <= v@.len(),
            r@ == v@.take(i as int),
        decreases v@.len() - i,
    {
        r.push(v[i]);
        assert(r@ =~= v@.take(i + 1));
        i = i + 1;
    }
    assert(v@.take(i as int) =~= v@);
    r
}

impl Clone for BosCapability {
    /// A copy of the capability.
    fn clone(&self) -> (r: Self)
        ensures
            r@ == self@,
    {
        match self {
            BosCapability::Usb2Extension(e) => BosCapability::Usb2Extension(*e),
            BosCapability::SuperSpeed(c) => BosCapability::SuperSpeed(*c),
            BosCapability::ContainerId { uuid } => BosCapability::ContainerId { uuid: *uuid },
            BosCapability::SuperSpeedPlus(c) => BosCapability::SuperSpeedPlus(c.clone()),
            BosCapability::Other { cap_type, data } => BosCapability::Other {
                cap_type: *cap_type,
                data: copy_bytes(data),
            },
        }
    }
}

/// The `bDevCapabilityType` of a capability model.
pub open spec fn cap_type_of(c: CapView) -> u8 {
    match c {
        CapView::Usb2Extension(_) => CAP_USB_2_0_EXTENSION,
        CapView::SuperSpeed(_) => CAP_SUPERSPEED_USB,
        CapView::ContainerId(_) => CAP_CONTAINER_ID,
        CapView::SuperSpeedPlus(_) => CAP_SUPERSPEED_PLUS,
        CapView::Other(t, _) => t,
    }
}

impl BosCapability {
    /// The `bDevCapabilityType` this capability was decoded from.
    pub fn cap_type(&self) -> (r: u8)
        ensures
            r == cap_type_of(self@),
    {
        match self {
            BosCapability::Usb2Extension(_) => CAP_USB_2_0_EXTENSION,
            BosCapability::SuperSpeed(_) => CAP_SUPERSPEED_USB,
            BosCapability::ContainerId { .. } => CAP_CONTAINER_ID,
            BosCapability::SuperSpeedPlus(_) => CAP_SUPERSPEED_PLUS,
            BosCapability::Other { cap_type, .. } => *cap_type,
        }
    }
}

/// Little-endian 16-bit value of two bytes.
pub open spec fn le16(b0: u8, b1: u8) -> nat {
    b0 as nat + 256 * b1 as nat
}

/// Little-endian 32-bit value of four bytes.
pub open spec fn le32(b0: u8, b1: u8, b2: u8, b3: u8) -> nat {
    b0 as nat + 256 * b1 as nat + 65536 * b2 as nat + 16777216 * b3 as nat
}

/// Word `i` of the sublink attribute array `a` (bytes `4i..4i+4`).
pub open spec fn attr_word(a: Seq<u8>, i: int) -> u32 {
    le32(a[4 * i], a[4 * i + 1], a[4 * i + 2], a[4 * i + 3]) as u32
}

/// The SuperSpeedPlus capability decoded from `body` (`body.len() >= 9`).
pub open spec fn ssp_of(body: Seq<u8>) -> SspView {
    let bm = le32(body[1], body[2], body[3], body[4]) as u32;
    let func = le16(body[5], body[6]) as u16;
    let attr_count = ((bm & 0x1F) + 1) as u8;
    let attrs_body = body.subrange(9, body.len() as int);
    let available = attrs_body.len() / 4;
    let take = if (attr_count as nat) < available {
        attr_count as nat
    } else {
        available
    };
    SspView {
        attr_count,
        id_count: (((bm >> 5u32) & 0xF) + 1) as u8,
        min_functional_ssid: (func & 0xF) as u8,
        min_rx: ((func >> 8u16) & 0xF) as u8,
        min_tx: ((func >> 12u16) & 0xF) as u8,
        attrs: Seq::new(take, |i: int| sublink_attr_of(attr_word(attrs_body, i))),
    }
}

/// Decoding of one capability body (everything after the 3-byte prefix).
/// A body too short for its type is kept as `Other`.
pub open spec fn decode_cap(cap_type: u8, body: Seq<u8>) -> CapView {
    if cap_type == CAP_USB_2_0_EXTENSION && body.len() >= 4 {
        CapView::Usb2Extension(
            usb2_extension_of(le32(body[0], body[1], body[2], body[3]) as u32),
        )
    } else if cap_type == CAP_SUPERSPEED_USB && body.len() >= 7 {
        CapView::SuperSpeed(
            SuperSpeedCapability {
                ltm_capable: body[0] & 2 != 0,
                speeds_supported: le16(body[1], body[2]) as u16,
                functionality_support: body[3],
                u1_dev_exit_lat_us: body[4],
                u2_dev_exit_lat_us: le16(body[5], body[6]) as u16,
            },
        )
    } else if cap_type == CAP_CONTAINER_ID && body.len() >= 17 {
        CapView::ContainerId(body.subrange(1, 17))
    } else if cap_type == CAP_SUPERSPEED_PLUS && body.len() >= 9 {
        CapView::SuperSpeedPlus(ssp_of(body))
    } else {
        CapView::Other(cap_type, body)
    }
}

/// The descriptor walk from offset `off` up to `end`, having already decoded
/// `count` capabilities: the capabilities decoded and whether the walk ended
/// early (a malformed descriptor, the cap, or bytes left over).
pub open spec fn walk(blob: Seq<u8>, off: nat, end: nat, count: nat) -> (Seq<CapView>, bool)
    decreases end - off,
{
    if off + 3 > end {
        (Seq::empty(), off < end)
    } else {
        let len = blob[off as int] as nat;
        if len < 3 || off + len > end || blob[off + 1int] != DT_DEVICE_CAPABILITY || count >= 64 {
            (Seq::empty(), true)
        } else {
            let cap = decode_cap(blob[off + 2int], blob.subrange(off + 3int, off + len as int));
            let rest = walk(blob, off + len, end, count + 1);
            (seq![cap] + rest.0, rest.1)
        }
    }
}

/// Model of [`BosDescriptors`].
pub ghost struct BosView {
    pub num_device_caps: u8,
    pub total_length: u16,
    pub caps: Seq<CapView>,
    pub truncated: bool,
}

/// The decoding of a raw BOS blob: `None` when it does not start with a BOS
/// root descriptor (`bLength == 5`, `bDescriptorType == 0x0F`).
pub open spec fn parse_spec(blob: Seq<u8>) -> Option<BosView> {
    if blob.len() < 5 || blob[0] != 5 || blob[1] != DT_BOS {
        None
    } else {
        let total = le16(blob[2], blob[3]);
        let end = if total < blob.len() {
            total
        } else {
            blob.len()
        };
        let w = walk(blob, 5, end, 0);
        Some(
            BosView {
                num_device_caps: blob[4],
                total_length: total as u16,
                caps: w.0,
                truncated: total > blob.len() || w.1,
            },
        )
    }
}

/// A device's decoded Binary Object Store.
#[derive(Debug, PartialEq, Eq)]
pub struct BosDescriptors {
    /// `bNumDeviceCaps` as declared.
    pub num_device_caps: u8,
    /// `wTotalLength` as declared.
    pub total_length: u16,
    /// Capabilities decoded, in descriptor order.
    pub capabilities: Vec<BosCapability>,
    /// `true` when the walk stopped early.
    pub truncated: bool,
}

impl View for BosDescriptors {
    type V = BosView;

    open spec fn view(&self) -> BosView {
        BosView {
            num_device_caps: self.num_device_caps,
            total_length: self.total_length,
            caps: self.capabilities@.map_values(|c: BosCapability| c@),
            truncated: self.truncated,
        }
    }
}

impl Clone for BosDescriptors {
    /// A copy of the decoded store.
    fn clone(&self) -> (r: Self)
        ensures
            r@ == self@,
    {
        let mut caps: Vec<BosCapability> = Vec::new();
        let mut i: usize = 0;
        while i < self.capabilities.len()
            invariant
                i <= self.capabilities@.len(),
                caps@.len() == i,
                caps@.map_values(|c: BosCapability| c@) == self.capabilities@.take(i as int).map_values(
                    |c: BosCapability| c@,
                ),
            decreases self.capabilities@.len() - i,
        {
            let c = self.capabilities[i].clone();
            let ghost before = caps@;
            caps.push(c);
            assert forall|k: int| 0 <= k < i + 1 implies #[trigger] caps@[k]@ == self.capabilities@[k]@ by {
                if k < i {
                    assert(caps@[k] == before[k]);
                    assert(before.map_values(|c: BosCapability| c@)[k] == self.capabilities@.take(
                        i as int,
                    ).map_values(|c: BosCapability| c@)[k]);
                }
            }
            assert(caps@.map_values(|c: BosCapability| c@) =~= self.capabilities@.take(i + 1).map_values(
                |c: BosCapability| c@,
            ));
            i = i + 1;
        }
        assert(self.capabilities@.take(i as int) =~= self.capabilities@);
        BosDescriptors {
            num_device_caps: self.num_device_caps,
            total_length: self.total_length,
            capabilities: caps,
            truncated: self.truncated,
        }
    }
}

/// The first SuperSpeed capability among `caps`.
pub open spec fn first_ss(caps: Seq<CapView>) -> Option<SuperSpeedCapability>
    decreases caps.len(),
{
    if caps.len() == 0 {
        None
    } else {
        match caps[0] {
            CapView::SuperSpeed(s) => Some(s),
            _ => first_ss(caps.drop_first()),
        }
    }
}

/// The first SuperSpeedPlus capability among `caps`.
pub open spec fn first_ssp(caps: Seq<CapView>) -> Option<SspView>
    decreases caps.len(),
{
    if caps.len() == 0 {
        None
    } else {
        match caps[0] {
            CapView::SuperSpeedPlus(s) => Some(s),
            _ => first_ssp(caps.drop_first()),
        }
    }
}

/// The first USB 2.0 Extension among `caps`.
pub open spec fn first_ext(caps: Seq<CapView>) -> Option<Usb2Extension>
    decreases caps.len(),
{
    if caps.len() == 0 {
        None
    } else {
        match caps[0] {
            CapView::Usb2Extension(e) => Some(e),
            _ => first_ext(caps.drop_first()),
        }
    }
}

/// The first Container ID among `caps`.
pub open spec fn first_cid(caps: Seq<CapView>) -> Option<Seq<u8>>
    decreases caps.len(),
{
    if caps.len() == 0 {
        None
    } else {
        match caps[0] {
            CapView::ContainerId(u) => Some(u),
            _ => first_cid(caps.drop_first()),
        }
    }
}

/// Hyphenated lower-case UUID text of 16 bytes (8-4-4-4-12 hex digits).
pub open spec fn uuid_text(u: Seq<u8>) -> Seq<char> {
    let h = |i: int| hex_pad(u[i] as nat, 2);
    h(0) + h(1) + h(2) + h(3) + "-"@ + h(4) + h(5) + "-"@ + h(6) + h(7) + "-"@ + h(8) + h(9)
        + "-"@ + h(10) + h(11) + h(12) + h(13) + h(14) + h(15)
}

impl BosView {
    /// The SuperSpeed capability, if any.
    pub open spec fn ss(self) -> Option<SuperSpeedCapability> {
        first_ss(self.caps)
    }

    /// The SuperSpeedPlus capability, if any.
    pub open spec fn ssp(self) -> Option<SspView> {
        first_ssp(self.caps)
    }

    /// Highest advertised aggregate rate: the larger of the SuperSpeed
    /// maximum and the saturated SuperSpeedPlus rollup; 0 when neither.
    pub open spec fn capable(self) -> nat {
        let ss: nat = match self.ss() {
            Some(s) => s.spec_max_speed() as nat,
            None => 0,
        };
        let ssp: nat = match self.ssp() {
            Some(p) => sat32(p.capable()),
            None => 0,
        };
        if ss > ssp {
            ss
        } else {
            ssp
        }
    }

    /// The declared floor: the SuperSpeed floor when there is one, else the
    /// fastest `lane × lanes` of the SuperSpeedPlus attributes whose ID is
    /// the minimum functional one.
    pub open spec fn floor(self) -> Option<nat> {
        match self.ss() {
            Some(s) if s.spec_floor() is Some => Some(s.spec_floor()->0 as nat),
            _ => match self.ssp() {
                Some(p) => max_floor(p.attrs, p.min_functional_ssid, p.lanes()),
                None => None,
            },
        }
    }

    /// The generation label of the SuperSpeedPlus capability, if derivable.
    pub open spec fn gen_label(self) -> Option<Seq<char>> {
        match self.ssp() {
            Some(p) => p.gen_label(),
            None => None,
        }
    }
}

/// `u16` value of two little-endian bytes.
fn read_le16(b0: u8, b1: u8) -> (r: u16)
    ensures
        r as nat == le16(b0, b1),
{
    (b0 as u16) + (b1 as u16) * 256
}

/// `u32` value of four little-endian bytes.
fn read_le32(b0: u8, b1: u8, b2: u8, b3: u8) -> (r: u32)
    ensures
        r as nat == le32(b0, b1, b2, b3),
{
    (b0 as u32) + (b1 as u32) * 256 + (b2 as u32) * 65536 + (b3 as u32) * 16777216
}

/// Decode one capability body (everything after the 3-byte prefix).
fn decode_capability(cap_type: u8, body: &[u8]) -> (c: BosCapability)
    ensures
        c@ == decode_cap(cap_type, body@),
{
    if cap_type == CAP_USB_2_0_EXTENSION && body.len() >= 4 {
        let bits = read_le32(body[0], body[1], body[2], body[3]);
        BosCapability::Usb2Extension(Usb2Extension::from_bits(bits))
    } else if cap_type == CAP_SUPERSPEED_USB && body.len() >= 7 {
        BosCapability::SuperSpeed(
            SuperSpeedCapability {
                ltm_capable: body[0] & 2 != 0,
                speeds_supported: read_le16(body[1], body[2]),
                functionality_support: body[3],
                u1_dev_exit_lat_us: body[4],
                u2_dev_exit_lat_us: read_le16(body[5], body[6]),
            },
        )
    } else if cap_type == CAP_CONTAINER_ID && body.len() >= 17 {
        let uuid: [u8; 16] = [
            body[1],
            body[2],
            body[3],
            body[4],
            body[5],
            body[6],
            body[7],
            body[8],
            body[9],
            body[10],
            body[11],
            body[12],
            body[13],
            body[14],
            body[15],
            body[16],
        ];
        assert(uuid@ =~= body@.subrange(1, 17));
        BosCapability::ContainerId { uuid }
    } else if cap_type == CAP_SUPERSPEED_PLUS && body.len() >= 9 {
        let bm = read_le32(body[1], body[2], body[3], body[4]);
        let func = read_le16(body[5], body[6]);
        proof {
            assert((bm & 0x1F) < 32) by (bit_vector);
            assert(((bm >> 5u32) & 0xF) < 16) by (bit_vector);
        }
        let attr_count: u8 = ((bm & 0x1F) as u8) + 1;
        let id_count: u8 = (((bm >> 5) & 0xF) as u8) + 1;
        let available = (body.len() - 9) / 4;
        let take: usize = if (attr_count as usize) < available {
            attr_count as usize
        } else {
            available
        };
        let ghost attrs_body = body@.subrange(9, body@.len() as int);
        let mut sublink_attrs: Vec<SublinkSpeedAttribute> = Vec::new();
        let mut i: usize = 0;
        while i < take
            invariant
                i <= take,
                take <= (body.len() - 9) / 4,
                body.len() >= 9,
                attrs_body == body@.subrange(9, body@.len() as int),
                sublink_attrs@ =~= Seq::new(
                    i as nat,
                    |j: int| sublink_attr_of(attr_word(attrs_body, j)),
                ),
            decreases take - i,
        {
            let o = 9 + i * 4;
            let w = read_le32(body[o], body[o + 1], body[o + 2], body[o + 3]);
            assert(w == attr_word(attrs_body, i as int));
            sublink_attrs.push(SublinkSpeedAttribute::from_bits(w));
            i = i + 1;
        }
        let rx: u8 = ((func >> 8u16) & 0xF) as u8;
        let tx: u8 = ((func >> 12u16) & 0xF) as u8;
        assert(sublink_attrs@ =~= ssp_of(body@).attrs);
        BosCapability::SuperSpeedPlus(
            SuperSpeedPlusCapability {
                sublink_speed_attr_count: attr_count,
                sublink_speed_id_count: id_count,
                min_functional_ssid: (func & 0xF) as u8,
                min_rx_lane_count: rx,
                min_tx_lane_count: tx,
                sublink_attrs,
            },
        )
    } else {
        let mut data: Vec<u8> = Vec::new();
        let mut i: usize = 0;
        while i < body.len()
            invariant
                i <= body.len(),
                data@ =~= body@.take(i as int),
            decreases body.len() - i,
        {
            data.push(body[i]);
            i = i + 1;
        }
        assert(body@.take(body.len() as int) =~= body@);
        BosCapability::Other { cap_type, data }
    }
}

/// The bytes `blob[from..to]`.
fn slice_range(blob: &[u8], from: usize, to: usize) -> (r: &[u8])
    requires
        from <= to <= blob@.len(),
    ensures
        r@ == blob@.subrange(from as int, to as int),
{
    vstd::slice::slice_subrange(blob, from, to)
}

/// Decode a raw `bos_descriptors` blob.
pub fn parse(blob: &[u8]) -> (r: Option<BosDescriptors>)
    ensures
        r matches Some(b) ==> parse_spec(blob@) == Some(b@),
        r is None <==> parse_spec(blob@) is None,
{
    if blob.len() < BOS_HEADER_LEN {
        return None;
    }
    if blob[0] as usize != BOS_HEADER_LEN || blob[1] != DT_BOS {
        return None;
    }
    let total_length = read_le16(blob[2], blob[3]);
    let num_device_caps = blob[4];
    let declared_end = total_length as usize;
    let end = if declared_end < blob.len() {
        declared_end
    } else {
        blob.len()
    };
    let truncated_header = declared_end > blob.len();
    let mut caps: Vec<BosCapability> = Vec::new();
    let mut truncated = truncated_header;
    let mut off: usize = BOS_HEADER_LEN;
    let ghost whole = walk(blob@, 5, end as nat, 0);
    let mut stopped = false;
    while off + 3 <= end
        invariant_except_break
            !stopped,
        invariant
            end <= blob.len(),
            end <= 0xFFFF,
            5 <= off,
            off <= end || (off == 5 && end < 5),
            caps.len() <= 64,
            truncated == truncated_header,
            whole == walk(blob@, 5, end as nat, 0),
            caps@.map_values(|c: BosCapability| c@) + walk(blob@, off as nat, end as nat, caps.len() as nat).0
                == whole.0,
            walk(blob@, off as nat, end as nat, caps.len() as nat).1 == whole.1,
        ensures
            stopped ==> whole.1,
            stopped ==> caps@.map_values(|c: BosCapability| c@) == whole.0,
            !stopped ==> off + 3 > end,
        decreases end - off,
    {
        let len = blob[off] as usize;
        if len < 3 || off + len > end || blob[off + 1] != DT_DEVICE_CAPABILITY || caps.len()
            >= MAX_CAPABILITIES {
            assert(caps@.map_values(|c: BosCapability| c@) + Seq::<CapView>::empty() =~= caps@.map_values(
                |c: BosCapability| c@,
            ));
            stopped = true;
            break;
        }
        let cap_type = blob[off + 2];
        let body = slice_range(blob, off + 3, off + len);
        let cap = decode_capability(cap_type, body);
        let ghost before = caps@.map_values(|c: BosCapability| c@);
        caps.push(cap);
        assert(caps@.map_values(|c: BosCapability| c@) =~= before.push(cap@));
        assert(before.push(cap@) + walk(blob@, (off + len) as nat, end as nat, caps.len() as nat).0
            =~= before + (seq![cap@] + walk(
            blob@,
            (off + len) as nat,
            end as nat,
            caps.len() as nat,
        ).0));
        off = off + len;
    }
    if stopped {
        truncated = true;
    } else {
        assert(walk(blob@, off as nat, end as nat, caps.len() as nat).0 =~= Seq::<CapView>::empty());
        assert(caps@.map_values(|c: BosCapability| c@) + Seq::<CapView>::empty() =~= caps@.map_values(
            |c: BosCapability| c@,
        ));
        if off < end {
            truncated = true;
        }
    }
    Some(BosDescriptors { num_device_caps, total_length, capabilities: caps, truncated })
}

/// Whether every byte of `u` is zero.
pub open spec fn all_zero(u: Seq<u8>) -> bool {
    forall|i: int| 0 <= i < u.len() ==> u[i] == 0
}

impl BosView {
    /// The USB 2.0 Extension, if any.
    pub open spec fn ext(self) -> Option<Usb2Extension> {
        first_ext(self.caps)
    }

    /// The Container ID bytes, if any.
    pub open spec fn cid(self) -> Option<Seq<u8>> {
        first_cid(self.caps)
    }

    /// The Container ID as hyphenated text, unless absent or all zero.
    pub open spec fn cid_text(self) -> Option<Seq<char>> {
        match self.cid() {
            Some(u) => if all_zero(u) {
                None
            } else {
                Some(uuid_text(u))
            },
            None => None,
        }
    }
}

impl BosDescriptors {
    /// The first SuperSpeed capability, if the device published one.
    pub fn superspeed(&self) -> (r: Option<&SuperSpeedCapability>)
        ensures
            match r {
                Some(c) => self@.ss() == Some(*c),
                None => self@.ss() is None,
            },
    {
        let ghost caps = self@.caps;
        let n = self.capabilities.len();
        let mut i: usize = 0;
        assert(caps.subrange(0, n as int) =~= caps);
        while i < n
            invariant
                n == self.capabilities.len(),
                caps == self@.caps,
                caps.len() == n,
                i <= n,
                first_ss(caps) == first_ss(caps.subrange(i as int, n as int)),
            decreases n - i,
        {
            assert(caps.subrange(i as int, n as int).drop_first() =~= caps.subrange(
                i + 1,
                n as int,
            ));
            match &self.capabilities[i] {
                BosCapability::SuperSpeed(c) => {
                    return Some(c);
                },
                _ => {},
            }
            i = i + 1;
        }
        None
    }

    /// The first SuperSpeedPlus capability, if the device published one.
    pub fn superspeed_plus(&self) -> (r: Option<&SuperSpeedPlusCapability>)
        ensures
            match r {
                Some(c) => self@.ssp() == Some(c@),
                None => self@.ssp() is None,
            },
    {
        let ghost caps = self@.caps;
        let n = self.capabilities.len();
        let mut i: usize = 0;
        assert(caps.subrange(0, n as int) =~= caps);
        while i < n
            invariant
                n == self.capabilities.len(),
                caps == self@.caps,
                caps.len() == n,
                i <= n,
                first_ssp(caps) == first_ssp(caps.subrange(i as int, n as int)),
            decreases n - i,
        {
            assert(caps.subrange(i as int, n as int).drop_first() =~= caps.subrange(
                i + 1,
                n as int,
            ));
            match &self.capabilities[i] {
                BosCapability::SuperSpeedPlus(c) => {
                    return Some(c);
                },
                _ => {},
            }
            i = i + 1;
        }
        None
    }

    /// The first USB 2.0 Extension capability, if the device published one.
    pub fn usb2_extension(&self) -> (r: Option<&Usb2Extension>)
        ensures
            match r {
                Some(c) => self@.ext() == Some(*c),
                None => self@.ext() is None,
            },
    {
        let ghost caps = self@.caps;
        let n = self.capabilities.len();
        let mut i: usize = 0;
        assert(caps.subrange(0, n as int) =~= caps);
        while i < n
            invariant
                n == self.capabilities.len(),
                caps == self@.caps,
                caps.len() == n,
                i <= n,
                first_ext(caps) == first_ext(caps.subrange(i as int, n as int)),
            decreases n - i,
        {
            assert(caps.subrange(i as int, n as int).drop_first() =~= caps.subrange(
                i + 1,
                n as int,
            ));
            match &self.capabilities[i] {
                BosCapability::Usb2Extension(c) => {
                    return Some(c);
                },
                _ => {},
            }
            i = i + 1;
        }
        None
    }

    /// The first Container ID UUID, if the device published one.
    pub fn container_id(&self) -> (r: Option<[u8; 16]>)
        ensures
            match r {
                Some(u) => self@.cid() == Some(u@),
                None => self@.cid() is None,
            },
    {
        let ghost caps = self@.caps;
        let n = self.capabilities.len();
        let mut i: usize = 0;
        assert(caps.subrange(0, n as int) =~= caps);
        while i < n
            invariant
                n == self.capabilities.len(),
                caps == self@.caps,
                caps.len() == n,
                i <= n,
                first_cid(caps) == first_cid(caps.subrange(i as int, n as int)),
            decreases n - i,
        {
            assert(caps.subrange(i as int, n as int).drop_first() =~= caps.subrange(
                i + 1,
                n as int,
            ));
            match &self.capabilities[i] {
                BosCapability::ContainerId { uuid } => {
                    return Some(*uuid);
                },
                _ => {},
            }
            i = i + 1;
        }
        None
    }
}

impl BosDescriptors {
    /// Container ID as a lower-case hyphenated UUID, or `None` when absent
    /// or all zero (a placeholder that identifies nothing).
    pub fn container_id_string(&self) -> (r: Option<String>)
        ensures
            match r {
                Some(t) => self@.cid_text() == Some(t@),
                None => self@.cid_text() is None,
            },
    {
        let uuid = match self.container_id() {
            Some(u) => u,
            None => return None,
        };
        let mut zero = true;
        let mut i: usize = 0;
        while i < 16
            invariant
                i <= 16,
                zero == (forall|j: int| 0 <= j < i ==> uuid@[j] == 0),
            decreases 16 - i,
        {
            if uuid[i] != 0 {
                zero = false;
            }
            i = i + 1;
        }
        if zero {
            return None;
        }
        proof {
            reveal_strlit("-");
        }
        let mut t = hex_padded(uuid[0] as u64, 2);
        push_str(&mut t, hex_padded(uuid[1] as u64, 2).as_str());
        push_str(&mut t, hex_padded(uuid[2] as u64, 2).as_str());
        push_str(&mut t, hex_padded(uuid[3] as u64, 2).as_str());
        push_str(&mut t, "-");
        push_str(&mut t, hex_padded(uuid[4] as u64, 2).as_str());
        push_str(&mut t, hex_padded(uuid[5] as u64, 2).as_str());
        push_str(&mut t, "-");
        push_str(&mut t, hex_padded(uuid[6] as u64, 2).as_str());
        push_str(&mut t, hex_padded(uuid[7] as u64, 2).as_str());
        push_str(&mut t, "-");
        push_str(&mut t, hex_padded(uuid[8] as u64, 2).as_str());
        push_str(&mut t, hex_padded(uuid[9] as u64, 2).as_str());
        push_str(&mut t, "-");
        push_str(&mut t, hex_padded(uuid[10] as u64, 2).as_str());
        push_str(&mut t, hex_padded(uuid[11] as u64, 2).as_str());
        push_str(&mut t, hex_padded(uuid[12] as u64, 2).as_str());
        push_str(&mut t, hex_padded(uuid[13] as u64, 2).as_str());
        push_str(&mut t, hex_padded(uuid[14] as u64, 2).as_str());
        push_str(&mut t, hex_padded(uuid[15] as u64, 2).as_str());
        Some(t)
    }

    /// Highest aggregate data rate the device advertises, in Mbps: the
    /// larger of the SuperSpeed maximum and the SuperSpeedPlus rollup; zero
    /// when neither capability is present.
    pub fn max_capable_mbps(&self) -> (r: u32)
        ensures
            r as nat == self@.capable(),
    {
        let ss: u32 = match self.superspeed() {
            Some(s) => s.max_speed_mbps(),
            None => 0,
        };
        let ssp: u32 = match self.superspeed_plus() {
            Some(p) => p.max_capable_mbps(),
            None => 0,
        };
        if ss > ssp {
            ss
        } else {
            ssp
        }
    }

    /// The vendor's declared speed floor for full functionality, in Mbps:
    /// the SuperSpeed floor when it names one, else the fastest
    /// `lane speed × lanes` among the SuperSpeedPlus attributes whose ID is
    /// the minimum functional one; `None` when neither gives a figure.
    pub fn functional_floor_mbps(&self) -> (r: Option<u32>)
        ensures
            match r {
                Some(f) => self@.floor() == Some(f as nat),
                None => self@.floor() is None,
            },
    {
        match self.superspeed() {
            Some(s) => match s.functional_floor_mbps() {
                Some(f) => {
                    return Some(f);
                },
                None => {},
            },
            None => {},
        }
        let ssp = match self.superspeed_plus() {
            Some(p) => p,
            None => return None,
        };
        let lanes = ssp.effective_lane_count() as u64;
        let want = ssp.min_functional_ssid;
        let ghost attrs = ssp@.attrs;
        let mut best: Option<u32> = None;
        let mut i: usize = 0;
        while i < ssp.sublink_attrs.len()
            invariant
                attrs == ssp.sublink_attrs@,
                i <= attrs.len(),
                lanes as nat == ssp@.lanes(),
                lanes <= 255,
                want == ssp@.min_functional_ssid,
                match best {
                    Some(b) => max_floor(attrs.take(i as int), want, lanes as nat) == Some(b as nat),
                    None => max_floor(attrs.take(i as int), want, lanes as nat) is None,
                },
            decreases attrs.len() - i,
        {
            assert(attrs.take(i + 1).drop_last() =~= attrs.take(i as int));
            let a = &ssp.sublink_attrs[i];
            if a.ssid == want {
                let lane = a.lane_speed_mbps() as u64;
                assert(lane * lanes <= 65_535_000 * 255) by (nonlinear_arith)
                    requires
                        lane <= 65_535_000,
                        lanes <= 255,
                ;
                let prod = lane * lanes;
                let x: u32 = if prod > u32::MAX as u64 {
                    u32::MAX
                } else {
                    prod as u32
                };
                best = match best {
                    Some(b) => if x > b {
                        Some(x)
                    } else {
                        Some(b)
                    },
                    None => Some(x),
                };
            }
            i = i + 1;
        }
        assert(attrs.take(i as int) =~= attrs);
        best
    }

    /// Generation label of the SuperSpeedPlus capability (`"Gen 2x1"`, …),
    /// or `None` when not derivable.
    pub fn gen_label(&self) -> (r: Option<String>)
        ensures
            match r {
                Some(t) => self@.gen_label() == Some(t@),
                None => self@.gen_label() is None,
            },
    {
        match self.superspeed_plus() {
            Some(p) => p.gen_label(),
            None => None,
        }
    }

    /// Minimum receive and transmit lane counts, or `None` without a
    /// SuperSpeedPlus capability.
    pub fn lane_counts(&self) -> (r: Option<(u8, u8)>)
        ensures
            match r {
                Some(c) => self@.ssp() matches Some(p) && c == (p.min_rx, p.min_tx),
                None => self@.ssp() is None,
            },
    {
        match self.superspeed_plus() {
            Some(p) => Some((p.min_rx_lane_count, p.min_tx_lane_count)),
            None => None,
        }
    }
}

/// How a negotiated link speed compares with what the BOS advertises.
#[derive(Debug, Clone, Copy, PartialEq, Eq, Structural)]
pub enum DataRateVerdict {
    /// The link runs at (or above) everything the device advertises.
    AtCapability,
    /// Slower than advertised, but not below the vendor's declared floor
    /// (or no floor declared). Informational, never a warning.
    BelowCapability,
    /// Below the vendor's own declared floor for full functionality.
    Degraded,
    /// Not enough information.
    Unknown,
}

/// The stable machine name of a verdict.
pub open spec fn verdict_text(v: DataRateVerdict) -> Seq<char> {
    match v {
        DataRateVerdict::AtCapability => "AtCapability"@,
        DataRateVerdict::BelowCapability => "BelowCapability"@,
        DataRateVerdict::Degraded => "Degraded"@,
        DataRateVerdict::Unknown => "Unknown"@,
    }
}

impl DataRateVerdict {
    /// Stable machine string used in properties and JSON.
    pub fn label(self) -> (r: &'static str)
        ensures
            r@ == verdict_text(self),
    {
        match self {
            DataRateVerdict::AtCapability => "AtCapability",
            DataRateVerdict::BelowCapability => "BelowCapability",
            DataRateVerdict::Degraded => "Degraded",
            DataRateVerdict::Unknown => "Unknown",
        }
    }
}

/// An Mbps figure as prose: whole Gbps as `"5 Gbps"`, other figures of at
/// least 1000 as Gbps with one decimal (`"1.5 Gbps"`), smaller ones as
/// `"480 Mbps"`.
pub open spec fn rate_text(mbps: nat) -> Seq<char> {
    if mbps >= 1000 && mbps % 1000 == 0 {
        dec_seq(mbps / 1000) + " Gbps"@
    } else if mbps >= 1000 {
        scaled_text(mbps, 3, 1) + " Gbps"@
    } else {
        dec_seq(mbps) + " Mbps"@
    }
}

/// Render an Mbps figure the way the prose does.
pub fn rate_str(mbps: u32) -> (r: String)
    ensures
        r@ == rate_text(mbps as nat),
{
    if mbps >= 1_000 && mbps % 1_000 == 0 {
        let mut r = dec_string((mbps / 1_000) as u128);
        push_str(&mut r, " Gbps");
        r
    } else if mbps >= 1_000 {
        let mut r = scaled_string(mbps as u64, 3, 1);
        push_str(&mut r, " Gbps");
        r
    } else {
        let mut r = dec_string(mbps as u128);
        push_str(&mut r, " Mbps");
        r
    }
}

/// The verdict for a negotiated speed against an advertised capability and
/// an optional declared floor.
pub open spec fn verdict_of(negotiated: nat, capable: nat, floor: Option<nat>) -> DataRateVerdict {
    if capable == 0 || negotiated == 0 {
        DataRateVerdict::Unknown
    } else if negotiated >= capable {
        DataRateVerdict::AtCapability
    } else if floor matches Some(f) && negotiated < f {
        DataRateVerdict::Degraded
    } else {
        DataRateVerdict::BelowCapability
    }
}

/// The one-line headline for a verdict.
pub open spec fn summary_text(negotiated: nat, capable: nat, floor: Option<nat>) -> Seq<char> {
    match verdict_of(negotiated, capable, floor) {
        DataRateVerdict::AtCapability => "Running at its full "@ + rate_text(capable)
            + " capability"@,
        DataRateVerdict::Degraded => "Linked at "@ + rate_text(negotiated) + " — below the "@
            + rate_text(floor->0) + " this device needs"@,
        DataRateVerdict::BelowCapability => "Linked at "@ + rate_text(negotiated)
            + " of an advertised "@ + rate_text(capable),
        DataRateVerdict::Unknown => Seq::empty(),
    }
}

/// The second-line detail for a verdict.
pub open spec fn detail_text(
    negotiated: nat,
    capable: nat,
    floor: Option<nat>,
    generation: Seq<char>,
) -> Seq<char> {
    match verdict_of(negotiated, capable, floor) {
        DataRateVerdict::Degraded => "Device advertises up to "@ + rate_text(capable) + (if generation.len()
            == 0 {
            Seq::empty()
        } else {
            " ("@ + generation + ")"@
        }) + "; move it to a faster port or use a cable that supports it"@,
        DataRateVerdict::BelowCapability => match floor {
            Some(f) => "Vendor declares full functionality from "@ + rate_text(f)
                + " — not a fault"@,
            None => "Device declares no minimum speed for full functionality"@,
        },
        _ => Seq::empty(),
    }
}

/// Result of comparing a negotiated link speed against a decoded BOS.
#[derive(Debug, Clone, PartialEq, Eq)]
pub struct DataRateAssessment {
    /// Categorical verdict.
    pub verdict: DataRateVerdict,
    /// Negotiated speed, in Mbps.
    pub negotiated_mbps: u32,
    /// Highest advertised aggregate rate, in Mbps (0 when none).
    pub capable_mbps: u32,
    /// Declared floor for full functionality, in Mbps (0 when none).
    pub functional_floor_mbps: u32,
    /// Generation label of the advertised capability, empty when none.
    pub capable_gen: String,
    /// One-line headline.
    pub summary: String,
    /// Second-line detail, empty when there is nothing more to say.
    pub detail: String,
    /// Whether the verdict calls for a warning.
    pub is_warning: bool,
}

impl DataRateAssessment {
    /// Compare `negotiated_mbps` against `bos`. `Unknown`, with empty prose
    /// and no warning, when either side is missing.
    pub fn evaluate(negotiated_mbps: u32, bos: &BosDescriptors) -> (a: DataRateAssessment)
        ensures
            a.negotiated_mbps == negotiated_mbps,
            a.capable_mbps as nat == bos@.capable(),
            a.functional_floor_mbps as nat == match bos@.floor() {
                Some(f) => f,
                None => 0,
            },
            a.capable_gen@ == match bos@.gen_label() {
                Some(g) => g,
                None => Seq::empty(),
            },
            a.verdict == verdict_of(negotiated_mbps as nat, bos@.capable(), bos@.floor()),
            a.is_warning == (a.verdict == DataRateVerdict::Degraded),
            a.summary@ == summary_text(negotiated_mbps as nat, bos@.capable(), bos@.floor()),
            a.detail@ == detail_text(
                negotiated_mbps as nat,
                bos@.capable(),
                bos@.floor(),
                a.capable_gen@,
            ),
    {
        let capable = bos.max_capable_mbps();
        let floor = bos.functional_floor_mbps();
        let generation = match bos.gen_label() {
            Some(g) => g,
            None => String::new(),
        };
        let floor_value: u32 = match floor {
            Some(f) => f,
            None => 0,
        };
        if capable == 0 || negotiated_mbps == 0 {
            return DataRateAssessment {
                verdict: DataRateVerdict::Unknown,
                negotiated_mbps,
                capable_mbps: capable,
                functional_floor_mbps: floor_value,
                capable_gen: generation,
                summary: String::new(),
                detail: String::new(),
                is_warning: false,
            };
        }
        if negotiated_mbps >= capable {
            let mut summary = owned("Running at its full ");
            push_str(&mut summary, rate_str(capable).as_str());
            push_str(&mut summary, " capability");
            return DataRateAssessment {
                verdict: DataRateVerdict::AtCapability,
                negotiated_mbps,
                capable_mbps: capable,
                functional_floor_mbps: floor_value,
                capable_gen: generation,
                summary,
                detail: String::new(),
                is_warning: false,
            };
        }
        match floor {
            Some(f) if negotiated_mbps < f => {
                let mut summary = owned("Linked at ");
                push_str(&mut summary, rate_str(negotiated_mbps).as_str());
                push_str(&mut summary, " — below the ");
                push_str(&mut summary, rate_str(f).as_str());
                push_str(&mut summary, " this device needs");
                let mut detail = owned("Device advertises up to ");
                push_str(&mut detail, rate_str(capable).as_str());
                proof {
                    reveal_strlit("");
                }
                if generation.as_str().unicode_len() != 0 {
                    push_str(&mut detail, " (");
                    push_str(&mut detail, generation.as_str());
                    push_str(&mut detail, ")");
                } else {
                    assert(detail@ + Seq::<char>::empty() =~= detail@);
                }
                push_str(&mut detail, "; move it to a faster port or use a cable that supports it");
                DataRateAssessment {
                    verdict: DataRateVerdict::Degraded,
                    negotiated_mbps,
                    capable_mbps: capable,
                    functional_floor_mbps: floor_value,
                    capable_gen: generation,
                    summary,
                    detail,
                    is_warning: true,
                }
            },
            _ => {
                let mut summary = owned("Linked at ");
                push_str(&mut summary, rate_str(negotiated_mbps).as_str());
                push_str(&mut summary, " of an advertised ");
                push_str(&mut summary, rate_str(capable).as_str());
                let detail = match floor {
                    Some(f) => {
                        let mut d = owned("Vendor declares full functionality from ");
                        push_str(&mut d, rate_str(f).as_str());
                        push_str(&mut d, " — not a fault");
                        d
                    },
                    None => owned("Device declares no minimum speed for full functionality"),
                };
                DataRateAssessment {
                    verdict: DataRateVerdict::BelowCapability,
                    negotiated_mbps,
                    capable_mbps: capable,
                    functional_floor_mbps: floor_value,
                    capable_gen: generation,
                    summary,
                    detail,
                    is_warning: false,
                }
            },
        }
    }
}

} // verus!
