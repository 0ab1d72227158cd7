//! USB device data model: devices, interfaces, link-speed tiers, kernel
//! quirks, hub power budgets and the `bus_port` naming of the USB tree.

use vstd::prelude::*;
use std::collections::BTreeMap;
use std::path::PathBuf;
use crate::bos::{BosDescriptors, DataRateAssessment};
use crate::fixed::{scaled_string, scaled_text};
use crate::text::{
    chars_of, dec_seq, dec_string, has_prefix, hex_pad, hex_padded, owned, push_str, substring,
};
use crate::typec::find_from;

verus! {

broadcast use vstd::string::group_string_axioms;

/// One interface descriptor of a USB device.
#[derive(Debug, Default, PartialEq, Eq)]
pub struct UsbInterface {
    /// `bInterfaceNumber`.
    pub number: u32,
    /// `bInterfaceClass`.
    pub class_code: u8,
    /// `bInterfaceSubClass`.
    pub sub_class: u8,
    /// `bInterfaceProtocol`.
    pub protocol: u8,
    /// Driver bound to the interface (`""` if none).
    pub driver: String,
}

/// `a` is a copy of the device tree `b`: a copy of its record, and of each
/// child's tree.
pub open spec fn usb_tree_copy(a: UsbDevice, b: UsbDevice) -> bool
    decreases b,
{
    &&& usb_record_copy(a, b)
    &&& forall|i: int|
        0 <= i < b.children@.len() ==> {
            proof {
                assert(decreases_to!(b => b.children));
            }
            usb_tree_copy(#[trigger] a.children@[i], b.children@[i])
        }
}

impl Clone for UsbInterface {
    /// A copy of the interface.
    fn clone(&self) -> (r: Self)
        ensures
            r == *self,
    {
        UsbInterface {
            number: self.number,
            class_code: self.class_code,
            sub_class: self.sub_class,
            protocol: self.protocol,
            driver: self.driver.clone(),
        }
    }
}

/// Snapshot of one USB device.
#[derive(Debug, Default, PartialEq, Eq)]
pub struct UsbDevice {
    /// Sysfs path of the device directory.
    pub sysfs_path: PathBuf,
    /// Bus-port identifier (e.g. `"1-1.4"`, `"usb1"`).
    pub bus_port: String,
    /// `idVendor`.
    pub vendor_id: u16,
    /// `idProduct`.
    pub product_id: u16,
    /// `manufacturer` string.
    pub manufacturer: String,
    /// `product` string.
    pub product: String,
    /// `serial` string.
    pub serial: String,
    /// `version` string (e.g. `"2.10"`).
    pub version: String,
    /// Negotiated link speed, Mbps.
    pub speed: u32,
    /// Declared maximum draw from the upstream port, mA.
    pub max_power_ma: u32,
    /// `bDeviceClass`.
    pub device_class: u8,
    /// `bDeviceSubClass`.
    pub device_sub_class: u8,
    /// `bDeviceProtocol`.
    pub device_protocol: u8,
    /// `busnum`.
    pub bus_num: u32,
    /// `devnum`.
    pub dev_num: u32,
    /// SuperSpeed RX lanes.
    pub rx_lanes: u32,
    /// SuperSpeed TX lanes.
    pub tx_lanes: u32,
    /// `removable` attribute.
    pub removable: String,
    /// `bNumInterfaces`.
    pub num_interfaces: u32,
    /// `bNumConfigurations`.
    pub num_configurations: u32,
    /// Interfaces of the active configuration.
    pub interfaces: Vec<UsbInterface>,
    /// Direct children when this device is a hub.
    pub children: Vec<UsbDevice>,
    /// `device_class == 0x09`.
    pub is_hub: bool,
    /// A kernel root hub (name starts with `"usb"`).
    pub is_root_hub: bool,
    /// Decoded Binary Object Store, when published.
    pub bos: Option<BosDescriptors>,
    /// Kernel quirk bitmask (0 when none).
    pub quirks: u32,
    /// Hub-port object this device hangs off (e.g. `"usb5-port2"`).
    pub port_id: String,
    /// Companion port sharing the same connector, if any.
    pub port_peer_id: String,
    /// The companion port's `state`.
    pub port_peer_state: String,
    /// This device's port `connect_type`.
    pub port_connect_type: String,
    /// `maxchild` — downstream ports.
    pub max_child: u32,
    /// Occupied downstream ports, when readable.
    pub ports_used: Option<u32>,
    /// Active configuration `bmAttributes`; zero when not read.
    pub bm_attributes: u32,
    /// Model name from the hardware database, advisory.
    pub product_db: String,
    /// Every regular file in the device directory.
    pub raw_attributes: BTreeMap<String, String>,
}

/// `a` holds what the device record `b` holds: equal fields, the same
/// interfaces and decoded BOS, and children with the same bus ports.
pub open spec fn usb_record_copy(a: UsbDevice, b: UsbDevice) -> bool {
    &&& a.sysfs_path == b.sysfs_path
    &&& a.bus_port == b.bus_port
    &&& a.vendor_id == b.vendor_id
    &&& a.product_id == b.product_id
    &&& a.manufacturer == b.manufacturer
    &&& a.product == b.product
    &&& a.serial == b.serial
    &&& a.version == b.version
    &&& a.speed == b.speed
    &&& a.max_power_ma == b.max_power_ma
    &&& a.device_class == b.device_class
    &&& a.device_sub_class == b.device_sub_class
    &&& a.device_protocol == b.device_protocol
    &&& a.bus_num == b.bus_num
    &&& a.dev_num == b.dev_num
    &&& a.rx_lanes == b.rx_lanes
    &&& a.tx_lanes == b.tx_lanes
    &&& a.removable == b.removable
    &&& a.num_interfaces == b.num_interfaces
    &&& a.num_configurations == b.num_configurations
    &&& a.is_hub == b.is_hub
    &&& a.is_root_hub == b.is_root_hub
    &&& a.quirks == b.quirks
    &&& a.port_id == b.port_id
    &&& a.port_peer_id == b.port_peer_id
    &&& a.port_peer_state == b.port_peer_state
    &&& a.port_connect_type == b.port_connect_type
    &&& a.max_child == b.max_child
    &&& a.ports_used == b.ports_used
    &&& a.bm_attributes == b.bm_attributes
    &&& a.product_db == b.product_db
    &&& a.interfaces@ == b.interfaces@
    &&& a.children@.len() == b.children@.len()
    &&& forall|i: int| 0 <= i < b.children@.len() ==> (#[trigger] a.children@[i]).bus_port
            == b.children@[i].bus_port
    &&& match (a.bos, b.bos) {
        (Some(x), Some(y)) => x@ == y@,
        (None, None) => true,
        _ => false,
    }
    &&& a.raw_attributes@ == b.raw_attributes@
}

impl Clone for UsbDevice {
    /// A copy of the device and of its subtree.
    fn clone(&self) -> (r: Self)
        ensures
            usb_tree_copy(r, *self),
        decreases self,
    {
        let mut children: Vec<UsbDevice> = Vec::new();
        let mut i: usize = 0;
        while i < self.children.len()
            invariant
                i <= self.children@.len(),
                children@.len() == i,
                forall|k: int| 0 <= k < i ==> usb_tree_copy(#[trigger] children@[k], self.children@[k]),
            decreases self.children@.len() - i,
        {
            assert(decreases_to!(self => self.children@[i as int]));
            let c = self.children[i].clone();
            children.push(c);
            i = i + 1;
        }
        UsbDevice {
            sysfs_path: self.sysfs_path.clone(),
            bus_port: self.bus_port.clone(),
            vendor_id: self.vendor_id,
            product_id: self.product_id,
            manufacturer: self.manufacturer.clone(),
            product: self.product.clone(),
            serial: self.serial.clone(),
            version: self.version.clone(),
            speed: self.speed,
            max_power_ma: self.max_power_ma,
            device_class: self.device_class,
            device_sub_class: self.device_sub_class,
            device_protocol: self.device_protocol,
            bus_num: self.bus_num,
            dev_num: self.dev_num,
            rx_lanes: self.rx_lanes,
            tx_lanes: self.tx_lanes,
            removable: self.removable.clone(),
            num_interfaces: self.num_interfaces,
            num_configurations: self.num_configurations,
            is_hub: self.is_hub,
            is_root_hub: self.is_root_hub,
            quirks: self.quirks,
            port_id: self.port_id.clone(),
            port_peer_id: self.port_peer_id.clone(),
            port_peer_state: self.port_peer_state.clone(),
            port_connect_type: self.port_connect_type.clone(),
            max_child: self.max_child,
            ports_used: self.ports_used,
            bm_attributes: self.bm_attributes,
            product_db: self.product_db.clone(),
            interfaces: self.interfaces.clone(),
            children,
            bos: match &self.bos {
                Some(b) => Some(b.clone()),
                None => None,
            },
            raw_attributes: self.raw_attributes.clone(),
        }
    }
}

/// `USB_QUIRK_NO_BOS` (bit 17): the kernel never reads the BOS, so a missing
/// BOS means "unknown", not "USB 2.0 only".
pub const USB_QUIRK_NO_BOS: u32 = 0x2_0000;

/// `USB_QUIRK_NO_LPM` (bit 10).
pub const USB_QUIRK_NO_LPM: u32 = 0x400;

/// Name of kernel quirk bit `b`, when known (bits 0..=18).
pub open spec fn quirk_bit_name(b: nat) -> Option<Seq<char>> {
    if b == 0 {
        Some("STRING_FETCH_255"@)
    } else if b == 1 {
        Some("RESET_RESUME"@)
    } else if b == 2 {
        Some("NO_SET_INTF"@)
    } else if b == 3 {
        Some("CONFIG_INTF_STRINGS"@)
    } else if b == 4 {
        Some("RESET"@)
    } else if b == 5 {
        Some("HONOR_BNUMINTERFACES"@)
    } else if b == 6 {
        Some("DELAY_INIT"@)
    } else if b == 7 {
        Some("LINEAR_UFRAME_INTR_BINTERVAL"@)
    } else if b == 8 {
        Some("DEVICE_QUALIFIER"@)
    } else if b == 9 {
        Some("IGNORE_REMOTE_WAKEUP"@)
    } else if b == 10 {
        Some("NO_LPM"@)
    } else if b == 11 {
        Some("LINEAR_FRAME_INTR_BINTERVAL"@)
    } else if b == 12 {
        Some("DISCONNECT_SUSPEND"@)
    } else if b == 13 {
        Some("DELAY_CTRL_MSG"@)
    } else if b == 14 {
        Some("HUB_SLOW_RESET"@)
    } else if b == 15 {
        Some("ENDPOINT_IGNORE"@)
    } else if b == 16 {
        Some("SHORT_SET_ADDRESS_REQ_TIMEOUT"@)
    } else if b == 17 {
        Some("NO_BOS"@)
    } else if b == 18 {
        Some("FORCE_ONE_CONFIG"@)
    } else {
        None
    }
}

/// Label of quirk bit `b`: its name, or `"bit{b}"` when unknown.
pub open spec fn quirk_label(b: nat) -> Seq<char> {
    match quirk_bit_name(b) {
        Some(n) => n,
        None => "bit"@ + dec_seq(b),
    }
}

/// Bit `b` of `q` is set.
pub open spec fn bit_set(q: u32, b: u32) -> bool {
    (q >> b) & 1 == 1
}

/// Labels of the set bits of `q` below `n`, ascending.
pub open spec fn quirk_list(q: u32, n: nat) -> Seq<Seq<char>>
    decreases n,
{
    if n == 0 {
        Seq::empty()
    } else {
        let prev = quirk_list(q, (n - 1) as nat);
        if bit_set(q, (n - 1) as u32) {
            prev.push(quirk_label((n - 1) as nat))
        } else {
            prev
        }
    }
}

fn quirk_name(b: u32) -> (r: Option<&'static str>)
    ensures
        match r {
            Some(n) => quirk_bit_name(b as nat) == Some(n@),
            None => quirk_bit_name(b as nat) is None,
        },
{
    let n = match b {
        0 => "STRING_FETCH_255",
        1 => "RESET_RESUME",
        2 => "NO_SET_INTF",
        3 => "CONFIG_INTF_STRINGS",
        4 => "RESET",
        5 => "HONOR_BNUMINTERFACES",
        6 => "DELAY_INIT",
        7 => "LINEAR_UFRAME_INTR_BINTERVAL",
        8 => "DEVICE_QUALIFIER",
        9 => "IGNORE_REMOTE_WAKEUP",
        10 => "NO_LPM",
        11 => "LINEAR_FRAME_INTR_BINTERVAL",
        12 => "DISCONNECT_SUSPEND",
        13 => "DELAY_CTRL_MSG",
        14 => "HUB_SLOW_RESET",
        15 => "ENDPOINT_IGNORE",
        16 => "SHORT_SET_ADDRESS_REQ_TIMEOUT",
        17 => "NO_BOS",
        18 => "FORCE_ONE_CONFIG",
        _ => {
            return None;
        },
    };
    Some(n)
}

/// Names of the kernel quirks set in `quirks`, ascending by bit; unknown
/// bits are rendered `bit<N>` rather than dropped.
pub fn quirk_names(quirks: u32) -> (r: Vec<String>)
    ensures
        r@.map_values(|s: String| s@) == quirk_list(quirks, 32),
{
    let mut out: Vec<String> = Vec::new();
    let mut b: u32 = 0;
    while b < 32
        invariant
            b <= 32,
            out@.map_values(|s: String| s@) == quirk_list(quirks, b as nat),
        decreases 32 - b,
    {
        let ghost before = out@.map_values(|s: String| s@);
        if (quirks >> b) & 1 == 1 {
            let label = match quirk_name(b) {
                Some(n) => owned(n),
                None => {
                    proof {
                        reveal_strlit("bit");
                    }
                    let mut t = owned("bit");
                    push_str(&mut t, dec_string(b as u128).as_str());
                    t
                },
            };
            out.push(label);
            assert(out@.map_values(|s: String| s@) =~= before.push(quirk_label(b as nat)));
        }
        b = b + 1;
    }
    out
}

/// Sum of the declared draws of the children that are not self-powered
/// (children with `bmAttributes` unread count too).
pub open spec fn committed_sum(children: Seq<UsbDevice>) -> nat
    decreases children.len(),
{
    if children.len() == 0 {
        0
    } else {
        let c = children.last();
        let own: nat = if c.bm_attributes != 0 && c.bm_attributes & 0x40 != 0 {
            0
        } else {
            c.max_power_ma as nat
        };
        committed_sum(children.drop_last()) + own
    }
}

impl UsbDevice {
    /// Names of the kernel quirks applied to this device.
    pub fn quirk_names(&self) -> (r: Vec<String>)
        ensures
            r@.map_values(|s: String| s@) == quirk_list(self.quirks, 32),
    {
        quirk_names(self.quirks)
    }

    /// Whether the active configuration declares itself self-powered
    /// (`bmAttributes` bit 6); `None` when `bmAttributes` was not read (a
    /// valid descriptor always has bit 7 set, so zero means absent).
    pub fn self_powered(&self) -> (r: Option<bool>)
        ensures
            r == (if self.bm_attributes == 0 {
                None
            } else {
                Some(self.bm_attributes & 0x40 != 0)
            }),
    {
        if self.bm_attributes == 0 {
            return None;
        }
        Some(self.bm_attributes & 0x40 != 0)
    }

    /// Current a bus-powered hub can offer downstream: 900 mA on a
    /// SuperSpeed link, else 500 mA. `None` for non-hubs, self-powered hubs
    /// and when `bmAttributes` was not read.
    pub fn hub_power_budget_ma(&self) -> (r: Option<u32>)
        ensures
            r == (if !self.is_hub || self.bm_attributes == 0 || self.bm_attributes & 0x40 != 0 {
                None
            } else if self.speed >= 5000 {
                Some(900u32)
            } else {
                Some(500u32)
            }),
    {
        if !self.is_hub {
            return None;
        }
        match self.self_powered() {
            None => None,
            Some(true) => None,
            Some(false) => Some(
                if self.speed >= 5000 {
                    900
                } else {
                    500
                },
            ),
        }
    }

    /// Sum of the `bMaxPower` declared by the direct children, counting
    /// self-powered children as zero; `None` without children. A declared
    /// maximum, not a measured draw.
    pub fn hub_power_committed_ma(&self) -> (r: Option<u32>)
        requires
            committed_sum(self.children@) <= u32::MAX,
        ensures
            r == (if self.children@.len() == 0 {
                None
            } else {
                Some(committed_sum(self.children@) as u32)
            }),
    {
        if self.children.len() == 0 {
            return None;
        }
        let ghost cs = self.children@;
        let mut total: u32 = 0;
        let mut i: usize = 0;
        while i < self.children.len()
            invariant
                cs == self.children@,
                i <= cs.len(),
                committed_sum(cs) <= u32::MAX,
                total as nat == committed_sum(cs.take(i as int)),
            decreases cs.len() - i,
        {
            proof {
                assert(cs.take(i + 1).drop_last() =~= cs.take(i as int));
                lemma_committed_prefix(cs, i as int + 1);
            }
            let c = &self.children[i];
            let own = if c.self_powered() == Some(true) {
                0
            } else {
                c.max_power_ma
            };
            total = total + own;
            i = i + 1;
        }
        assert(cs.take(i as int) =~= cs);
        Some(total)
    }

    /// `true` when the kernel suppresses this device's BOS
    /// (`USB_QUIRK_NO_BOS`): a missing BOS then says nothing about what the
    /// device can do.
    pub fn bos_suppressed_by_quirk(&self) -> (r: bool)
        ensures
            r == (self.quirks & USB_QUIRK_NO_BOS != 0),
    {
        self.quirks & USB_QUIRK_NO_BOS != 0
    }

    /// Negotiated speed against advertised capability; `None` when the
    /// device published no BOS (normal for USB 2.0 devices, and the case
    /// under `USB_QUIRK_NO_BOS`), so no verdict is ever made up.
    pub fn data_rate(&self) -> (r: Option<DataRateAssessment>)
        ensures
            r is Some <==> self.bos is Some,
            r matches Some(a) ==> self.bos matches Some(b) && a.verdict
                == crate::bos::verdict_of(self.speed as nat, b@.capable(), b@.floor())
                && a.negotiated_mbps == self.speed && a.capable_mbps as nat == b@.capable(),
    {
        match &self.bos {
            Some(b) => Some(DataRateAssessment::evaluate(self.speed, b)),
            None => None,
        }
    }
}

proof fn lemma_committed_prefix(cs: Seq<UsbDevice>, k: int)
    requires
        0 <= k <= cs.len(),
    ensures
        committed_sum(cs.take(k)) <= committed_sum(cs),
    decreases cs.len() - k,
{
    if k < cs.len() {
        lemma_committed_prefix(cs, k + 1);
        assert(cs.take(k + 1).drop_last() =~= cs.take(k));
    } else {
        assert(cs.take(k) =~= cs);
    }
}

/// Link-speed tier of a device's upstream connection.
#[derive(Debug, Clone, Copy, PartialEq, Eq, Structural)]
pub enum LinkSpeed {
    /// Speed not reported.
    Unknown,
    /// USB 1.x Low Speed — 1.5 Mbps.
    Low,
    /// USB 1.x Full Speed — 12 Mbps.
    Full,
    /// USB 2.0 High Speed — 480 Mbps.
    High,
    /// SuperSpeed — 5 Gbps.
    Super,
    /// SuperSpeed+ — 10 Gbps.
    SuperPlus,
    /// 20 Gbps.
    SuperPlus20,
    /// USB4 — 40 Gbps.
    Usb4,
}

/// Label of a tier.
pub open spec fn link_speed_text(t: LinkSpeed) -> Seq<char> {
    match t {
        LinkSpeed::Usb4 => "USB4 40 Gbps"@,
        LinkSpeed::SuperPlus20 => "USB4 20 Gbps"@,
        LinkSpeed::SuperPlus => "SuperSpeed+ 10 Gbps"@,
        LinkSpeed::Super => "SuperSpeed 5 Gbps"@,
        LinkSpeed::High => "High Speed 480 Mbps"@,
        LinkSpeed::Full => "Full Speed 12 Mbps"@,
        LinkSpeed::Low => "Low Speed 1.5 Mbps"@,
        LinkSpeed::Unknown => "Unknown speed"@,
    }
}

/// The tier covering `mbps`.
pub open spec fn tier_of(mbps: u32) -> LinkSpeed {
    if mbps >= 40000 {
        LinkSpeed::Usb4
    } else if mbps >= 20000 {
        LinkSpeed::SuperPlus20
    } else if mbps >= 10000 {
        LinkSpeed::SuperPlus
    } else if mbps >= 5000 {
        LinkSpeed::Super
    } else if mbps >= 480 {
        LinkSpeed::High
    } else if mbps >= 12 {
        LinkSpeed::Full
    } else if mbps >= 2 {
        LinkSpeed::Low
    } else {
        LinkSpeed::Unknown
    }
}

impl LinkSpeed {
    /// Pretty-printed label of the tier.
    pub fn label(self) -> (r: &'static str)
        ensures
            r@ == link_speed_text(self),
    {
        match self {
            LinkSpeed::Usb4 => "USB4 40 Gbps",
            LinkSpeed::SuperPlus20 => "USB4 20 Gbps",
            LinkSpeed::SuperPlus => "SuperSpeed+ 10 Gbps",
            LinkSpeed::Super => "SuperSpeed 5 Gbps",
            LinkSpeed::High => "High Speed 480 Mbps",
            LinkSpeed::Full => "Full Speed 12 Mbps",
            LinkSpeed::Low => "Low Speed 1.5 Mbps",
            LinkSpeed::Unknown => "Unknown speed",
        }
    }
}

/// Bucket a Mbps figure into a tier.
pub fn link_speed_tier(mbps: u32) -> (r: LinkSpeed)
    ensures
        r == tier_of(mbps),
{
    if mbps >= 40000 {
        LinkSpeed::Usb4
    } else if mbps >= 20000 {
        LinkSpeed::SuperPlus20
    } else if mbps >= 10000 {
        LinkSpeed::SuperPlus
    } else if mbps >= 5000 {
        LinkSpeed::Super
    } else if mbps >= 480 {
        LinkSpeed::High
    } else if mbps >= 12 {
        LinkSpeed::Full
    } else if mbps >= 2 {
        LinkSpeed::Low
    } else {
        LinkSpeed::Unknown
    }
}

/// Label of the speed tier of `speed` Mbps; the same as
/// `link_speed_tier(speed).label()`.
pub fn speed_label(speed: u32) -> (r: &'static str)
    ensures
        r@ == link_speed_text(tier_of(speed)),
{
    link_speed_tier(speed).label()
}

/// `"vvvv:pppp"` in lower-case hex.
pub open spec fn vid_pid_text(vid: u16, pid: u16) -> Seq<char> {
    hex_pad(vid as nat, 4) + ":"@ + hex_pad(pid as nat, 4)
}

/// Position of the last `c` in `s`.
pub open spec fn last_index(s: Seq<char>, c: char) -> Option<nat>
    decreases s.len(),
{
    if s.len() == 0 {
        None
    } else if s.last() == c {
        Some((s.len() - 1) as nat)
    } else {
        last_index(s.drop_last(), c)
    }
}

/// Parent of a `bus_port` name: the part before the last `.`, else
/// `"usb"` and the bus number before the first `-`, else none.
pub open spec fn parent_text(bp: Seq<char>) -> Option<Seq<char>> {
    match last_index(bp, '.') {
        Some(k) => Some(bp.subrange(0, k as int)),
        None => match find_from(bp, '-', 0) {
            Some(k) => Some("usb"@ + bp.subrange(0, k as int)),
            None => None,
        },
    }
}

proof fn lemma_last_index_bound(s: Seq<char>, c: char)
    ensures
        last_index(s, c) matches Some(k) ==> k < s.len(),
    decreases s.len(),
{
    if s.len() > 0 && s.last() != c {
        lemma_last_index_bound(s.drop_last(), c);
    }
}

proof fn lemma_find_from_le(s: Seq<char>, c: char, i: nat)
    ensures
        find_from(s, c, i) matches Some(k) ==> i <= k < s.len(),
    decreases s.len() - i,
{
    if i < s.len() && s[i as int] != c {
        lemma_find_from_le(s, c, i + 1);
    }
}

/// Parent name of `bus_port` (see [`parent_text`]).
fn parent_of_name(bp: &str) -> (r: Option<String>)
    ensures
        match r {
            Some(p) => parent_text(bp@) == Some(p@),
            None => parent_text(bp@) is None,
        },
{
    let cs = chars_of(bp);
    let mut k = cs.len();
    assert(bp@.take(k as int) =~= bp@);
    while k > 0
        invariant
            k <= cs.len(),
            cs@ == bp@,
            last_index(bp@, '.') == last_index(bp@.take(k as int), '.'),
        decreases k,
    {
        assert(bp@.take(k as int).drop_last() =~= bp@.take(k - 1));
        if cs[k - 1] == '.' {
            proof {
                lemma_last_index_bound(bp@, '.');
            }
            return Some(substring(bp, 0, k - 1));
        }
        k = k - 1;
    }
    let mut i: usize = 0;
    assert(bp@.take(0) =~= Seq::<char>::empty());
    while i < cs.len()
        invariant
            i <= cs.len(),
            cs@ == bp@,
            last_index(bp@, '.') is None,
            find_from(bp@, '-', 0) == find_from(bp@, '-', i as nat),
        decreases cs.len() - i,
    {
        if cs[i] == '-' {
            proof {
                reveal_strlit("usb");
            }
            let mut r = owned("usb");
            push_str(&mut r, substring(bp, 0, i).as_str());
            return Some(r);
        }
        i = i + 1;
    }
    None
}

/// Parent `bus_port` of `bp`, empty when it has none.
pub fn parent_bus_port(bp: &str) -> (r: String)
    ensures
        r@ == match parent_text(bp@) {
            Some(p) => p,
            None => Seq::empty(),
        },
{
    match parent_of_name(bp) {
        Some(p) => p,
        None => String::new(),
    }
}

/// Number of `c` in `s`.
pub open spec fn count_char(s: Seq<char>, c: char) -> nat
    decreases s.len(),
{
    if s.len() == 0 {
        0
    } else {
        count_char(s.drop_last(), c) + if s.last() == c {
            1nat
        } else {
            0nat
        }
    }
}

/// Depth of a `bus_port` in the USB tree: 0 for a root hub (`"usb…"`),
/// else one more than the number of `.` separators.
pub fn bus_port_depth(bp: &str) -> (r: usize)
    requires
        bp@.len() < usize::MAX,
    ensures
        r == if has_prefix(bp@, "usb"@) {
            0
        } else {
            count_char(bp@, '.') + 1
        },
{
    let cs = chars_of(bp);
    proof {
        reveal_strlit("usb");
    }
    if cs.len() >= 3 && cs[0] == 'u' && cs[1] == 's' && cs[2] == 'b' {
        assert(bp@.subrange(0, 3) =~= "usb"@);
        return 0;
    }
    assert(!has_prefix(bp@, "usb"@)) by {
        if has_prefix(bp@, "usb"@) {
            assert(bp@.subrange(0, 3) == "usb"@);
            assert(bp@[0] == bp@.subrange(0, 3)[0]);
            assert(bp@[1] == bp@.subrange(0, 3)[1]);
            assert(bp@[2] == bp@.subrange(0, 3)[2]);
        }
    }
    let mut n: usize = 0;
    let mut i: usize = 0;
    while i < cs.len()
        invariant
            i <= cs.len(),
            cs@ == bp@,
            n == count_char(bp@.take(i as int), '.'),
            n <= i,
        decreases cs.len() - i,
    {
        assert(bp@.take(i + 1).drop_last() =~= bp@.take(i as int));
        if cs[i] == '.' {
            n = n + 1;
        }
        i = i + 1;
    }
    assert(bp@.take(i as int) =~= bp@);
    n + 1
}

/// The number at the start of `s` from position `i`, having read `n`:
/// digits accumulate (saturating at `u32::MAX`), non-digits before the
/// first non-zero value are skipped, and the first non-digit after one
/// ends the number.
pub open spec fn leading_number(s: Seq<char>, i: nat, n: nat) -> nat
    decreases s.len() - i,
{
    if i >= s.len() {
        n
    } else if '0' <= s[i as int] && s[i as int] <= '9' {
        let d = (s[i as int] as nat - '0' as nat) as nat;
        let next: nat = if n * 10 + d > u32::MAX {
            u32::MAX as nat
        } else {
            n * 10 + d
        };
        leading_number(s, i + 1, next)
    } else if n > 0 {
        n
    } else {
        leading_number(s, i + 1, n)
    }
}

/// `bMaxPower` as `"500mA"` or `"500"`: the leading run of digits.
pub fn parse_max_power(s: &str) -> (r: u32)
    ensures
        r as nat == leading_number(s@, 0, 0),
{
    let cs = chars_of(s);
    let mut n: u32 = 0;
    let mut i: usize = 0;
    while i < cs.len()
        invariant
            i <= cs.len(),
            cs@ == s@,
            leading_number(s@, 0, 0) == leading_number(s@, i as nat, n as nat),
        decreases cs.len() - i,
    {
        let c = cs[i];
        if '0' <= c && c <= '9' {
            let d = (c as u32) - ('0' as u32);
            n = if n > (u32::MAX - d) / 10 {
                u32::MAX
            } else {
                n * 10 + d
            };
        } else if n > 0 {
            return n;
        }
        i = i + 1;
    }
    n
}

impl UsbDevice {
    /// `product` if present, else `"vvvv:pppp"` in hex.
    pub fn display_name(&self) -> (r: String)
        ensures
            r@ == display_text(*self),
    {
        if self.product.as_str().unicode_len() > 0 {
            self.product.clone()
        } else {
            let mut r = hex_padded(self.vendor_id as u64, 4);
            push_str(&mut r, ":");
            push_str(&mut r, hex_padded(self.product_id as u64, 4).as_str());
            r
        }
    }

    /// Label of the negotiated speed tier (e.g. `"SuperSpeed+ 10 Gbps"`).
    pub fn speed_label(&self) -> (r: &'static str)
        ensures
            r@ == link_speed_text(tier_of(self.speed)),
    {
        speed_label(self.speed)
    }

    /// Tier of the negotiated upstream link.
    pub fn link_speed_tier(&self) -> (r: LinkSpeed)
        ensures
            r == tier_of(self.speed),
    {
        link_speed_tier(self.speed)
    }

    /// `"500 mA"`, or `"1.5 W"` from 1000 mA up; `None` when no draw is
    /// recorded.
    pub fn power_label(&self) -> (r: Option<String>)
        ensures
            r is None <==> self.max_power_ma == 0,
            r matches Some(t) ==> t@ == if self.max_power_ma >= 1000 {
                scaled_text(self.max_power_ma as nat, 3, 1) + " W"@
            } else {
                dec_seq(self.max_power_ma as nat) + " mA"@
            },
    {
        if self.max_power_ma == 0 {
            return None;
        }
        if self.max_power_ma >= 1000 {
            let mut r = scaled_string(self.max_power_ma as u64, 3, 1);
            push_str(&mut r, " W");
            Some(r)
        } else {
            let mut r = dec_string(self.max_power_ma as u128);
            push_str(&mut r, " mA");
            Some(r)
        }
    }

    /// Parent `bus_port` (`"5-2.4"` for `"5-2.4.1"`, `"usb1"` for `"1-1"`);
    /// `None` for a root hub.
    pub fn parent_bus_port(&self) -> (r: Option<String>)
        ensures
            match r {
                Some(p) => !self.is_root_hub && parent_text(self.bus_port@) == Some(p@),
                None => self.is_root_hub || parent_text(self.bus_port@) is None,
            },
    {
        if self.is_root_hub {
            return None;
        }
        parent_of_name(self.bus_port.as_str())
    }
}

/// The parent name of a device, as [`UsbDevice::parent_bus_port`] gives it.
pub open spec fn device_parent(d: UsbDevice) -> Option<Seq<char>> {
    if d.is_root_hub {
        None
    } else {
        parent_text(d.bus_port@)
    }
}

/// `d` has no parent among `devs`.
pub open spec fn is_tree_root(devs: Seq<UsbDevice>, d: UsbDevice) -> bool {
    match device_parent(d) {
        None => true,
        Some(p) => forall|j: int| 0 <= j < devs.len() ==> #[trigger] devs[j].bus_port@ != p,
    }
}

/// The devices of `devs` with no parent inside `devs`, in order.
pub open spec fn roots_of(devs: Seq<UsbDevice>) -> Seq<UsbDevice> {
    devs.filter(|d: UsbDevice| is_tree_root(devs, d))
}

/// The name a device is shown under: its product string, else its
/// `vvvv:pppp` ids.
pub open spec fn display_text(d: UsbDevice) -> Seq<char> {
    if d.product@.len() > 0 {
        d.product@
    } else {
        vid_pid_text(d.vendor_id, d.product_id)
    }
}

/// Devices of `devs` with no parent inside `devs`: root hubs and orphans,
/// in order. The entry points of a walk over `children`.
pub fn tree_roots(devs: &[UsbDevice]) -> (r: Vec<&UsbDevice>)
    ensures
        r@.map_values(|d: &UsbDevice| *d) == roots_of(devs@),
{
    let ghost pred = |d: UsbDevice| is_tree_root(devs@, d);
    let mut out: Vec<&UsbDevice> = Vec::new();
    let mut i: usize = 0;
    while i < devs.len()
        invariant
            i <= devs.len(),
            pred == (|d: UsbDevice| is_tree_root(devs@, d)),
            out@.map_values(|d: &UsbDevice| *d) == devs@.take(i as int).filter(pred),
        decreases devs.len() - i,
    {
        proof {
            assert(devs@.take(i + 1).drop_last() =~= devs@.take(i as int));
            reveal(Seq::filter);
        }
        let d = &devs[i];
        let keep = match d.parent_bus_port() {
            None => true,
            Some(p) => {
                let mut found = false;
                let mut j: usize = 0;
                while j < devs.len()
                    invariant
                        j <= devs.len(),
                        found == exists|k: int| 0 <= k < j && #[trigger] devs@[k].bus_port@ == p@,
                    decreases devs.len() - j,
                {
                    if crate::text::str_eq(devs[j].bus_port.as_str(), p.as_str()) {
                        found = true;
                    }
                    j = j + 1;
                }
                !found
            },
        };
        assert(keep == pred(devs@[i as int]));
        let ghost before = out@.map_values(|d: &UsbDevice| *d);
        if keep {
            out.push(d);
            assert(out@.map_values(|d: &UsbDevice| *d) =~= before.push(devs@[i as int]));
        }
        i = i + 1;
    }
    assert(devs@.take(i as int) =~= devs@);
    assert(out@.map_values(|d: &UsbDevice| *d) == roots_of(devs@));
    out
}

} // verus!
