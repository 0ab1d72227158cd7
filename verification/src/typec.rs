//! USB Type-C port data model: ports, partners, cables and the UCSI power
//! supply attached to a port.

use vstd::prelude::*;
use std::collections::BTreeMap;
use std::path::PathBuf;
use crate::text::{chars_of, owned, substring};

verus! {

broadcast use vstd::string::group_string_axioms;

/// Decoded `Discover Identity` response from a partner or cable.
#[derive(Debug, Default, PartialEq, Eq)]
pub struct TypeCIdentity {
    /// Vendor ID from the ID Header VDO.
    pub vendor_id: u16,
    /// Product ID from the Product VDO.
    pub product_id: u16,
    /// Raw VDOs in spec order (`id_header`, `cert_stat`, `product`, then
    /// the product-type VDOs).
    pub vdos: Vec<u32>,
}

/// One alternate mode advertised by a partner or cable.
#[derive(Debug, Clone, Copy, Default, PartialEq, Eq, Structural)]
pub struct TypeCAltMode {
    /// Standard or Vendor ID (`0xFF01` DisplayPort, `0x8087` Thunderbolt).
    pub svid: u16,
    /// Mode index within the SVID.
    pub mode: u32,
    /// `true` when the mode has been entered.
    pub active: bool,
}

/// A partner device attached to a port.
#[derive(Debug, Default, PartialEq, Eq)]
pub struct TypeCPartner {
    /// Kernel `type` attribute (e.g. `"upstream"`).
    pub partner_type: String,
    /// Discover Identity, if advertised.
    pub identity: Option<TypeCIdentity>,
    /// Alternate modes advertised by the partner.
    pub altmodes: Vec<TypeCAltMode>,
    /// Every regular file under the partner directory.
    pub raw_attributes: BTreeMap<String, String>,
    /// Name of the partner's USB Power Delivery node (e.g. `"pd1"`), empty
    /// when not linked.
    pub pd_name: String,
    /// `bus_port` of the USB device the partner enumerated as (e.g.
    /// `"2-2"`), empty when none (chargers).
    pub usb_name: String,
}

/// A cable plug attached to a port.
#[derive(Debug, Default, PartialEq, Eq)]
pub struct TypeCCable {
    /// `type` attribute — `"passive"` or `"active"`.
    pub cable_type: String,
    /// `plug_type` attribute.
    pub plug_type: String,
    /// Discover Identity, if the cable has an e-marker.
    pub identity: Option<TypeCIdentity>,
    /// Every regular file under the cable directory.
    pub raw_attributes: BTreeMap<String, String>,
}

/// UCSI power-supply view of an attached source.
#[derive(Debug, Default, PartialEq, Eq)]
pub struct TypeCPowerSupply {
    /// Sysfs path of the power-supply directory.
    pub sysfs_path: PathBuf,
    /// Power-supply name.
    pub name: String,
    /// `online` attribute.
    pub online: bool,
    /// `voltage_now`, µV.
    pub voltage_now_uv: Option<i64>,
    /// `current_now`, µA.
    pub current_now_ua: Option<i64>,
    /// `current_max`, µA.
    pub current_max_ua: Option<i64>,
    /// `voltage_min`, µV.
    pub voltage_min_uv: Option<i64>,
    /// `voltage_max`, µV.
    pub voltage_max_uv: Option<i64>,
    /// `charge_type` attribute.
    pub charge_type: String,
    /// `usb_type` attribute.
    pub usb_type: String,
    /// All regular files under the power-supply directory.
    pub raw_attributes: BTreeMap<String, String>,
}

/// `a` holds what `b` holds: equal fields, and equal contents where a field
/// is a collection.
pub open spec fn identity_copy(a: Option<TypeCIdentity>, b: Option<TypeCIdentity>) -> bool {
    match (a, b) {
        (Some(x), Some(y)) => x.vendor_id == y.vendor_id && x.product_id == y.product_id
            && x.vdos@ == y.vdos@,
        (None, None) => true,
        _ => false,
    }
}

/// `a` holds what the partner `b` holds.
pub open spec fn partner_copy(a: TypeCPartner, b: TypeCPartner) -> bool {
    &&& a.partner_type == b.partner_type
    &&& identity_copy(a.identity, b.identity)
    &&& a.altmodes@ == b.altmodes@
    &&& a.raw_attributes@ == b.raw_attributes@
    &&& a.pd_name == b.pd_name
    &&& a.usb_name == b.usb_name
}

/// `a` holds what the cable `b` holds.
pub open spec fn cable_copy(a: TypeCCable, b: TypeCCable) -> bool {
    &&& a.cable_type == b.cable_type
    &&& a.plug_type == b.plug_type
    &&& identity_copy(a.identity, b.identity)
    &&& a.raw_attributes@ == b.raw_attributes@
}

/// `a` holds what the supply `b` holds.
pub open spec fn supply_copy(a: TypeCPowerSupply, b: TypeCPowerSupply) -> bool {
    &&& a.sysfs_path == b.sysfs_path
    &&& a.name == b.name
    &&& a.online == b.online
    &&& a.voltage_now_uv == b.voltage_now_uv
    &&& a.current_now_ua == b.current_now_ua
    &&& a.current_max_ua == b.current_max_ua
    &&& a.voltage_min_uv == b.voltage_min_uv
    &&& a.voltage_max_uv == b.voltage_max_uv
    &&& a.charge_type == b.charge_type
    &&& a.usb_type == b.usb_type
    &&& a.raw_attributes@ == b.raw_attributes@
}

/// `a` holds what the port `b` holds, down to its supply, partner and cable.
pub open spec fn port_copy(a: TypeCPort, b: TypeCPort) -> bool {
    &&& a.sysfs_path == b.sysfs_path
    &&& a.port_name == b.port_name
    &&& a.port_number == b.port_number
    &&& a.data_role == b.data_role
    &&& a.power_role == b.power_role
    &&& a.port_type == b.port_type
    &&& a.power_op_mode == b.power_op_mode
    &&& a.orientation == b.orientation
    &&& a.pd_revision == b.pd_revision
    &&& a.usb_typec_rev == b.usb_typec_rev
    &&& match (a.power_supply, b.power_supply) {
        (Some(x), Some(y)) => supply_copy(x, y),
        (None, None) => true,
        _ => false,
    }
    &&& match (a.partner, b.partner) {
        (Some(x), Some(y)) => partner_copy(x, y),
        (None, None) => true,
        _ => false,
    }
    &&& match (a.cable, b.cable) {
        (Some(x), Some(y)) => cable_copy(x, y),
        (None, None) => true,
        _ => false,
    }
    &&& a.raw_attributes@ == b.raw_attributes@
}

/// A copy of a VDO list.
fn copy_words(v: &Vec<u32>) -> (r: Vec<u32>)
    ensures
        r@ == v@,
{
    let mut r: Vec<u32> = Vec::new();
    let mut i: usize = 0;
    while i < v.len()
        invariant
            i <= v.len(),
            r@ == v@.take(i as int),
        decreases v.len() - i,
    {
        r.push(v[i]);
        assert(r@ =~= v@.take(i + 1));
        i = i + 1;
    }
    assert(v@.take(i as int) =~= v@);
    r
}

/// A copy of an alternate-mode list.
fn copy_altmodes(v: &Vec<TypeCAltMode>) -> (r: Vec<TypeCAltMode>)
    ensures
        r@ == v@,
{
    let mut r: Vec<TypeCAltMode> = Vec::new();
    let mut i: usize = 0;
    while i < v.len()
        invariant
            i <= v.len(),
            r@ == v@.take(i as int),
        decreases v.len() - i,
    {
        r.push(v[i]);
        assert(r@ =~= v@.take(i + 1));
        i = i + 1;
    }
    assert(v@.take(i as int) =~= v@);
    r
}

/// A copy of an optional identity.
fn copy_identity(id: &Option<TypeCIdentity>) -> (r: Option<TypeCIdentity>)
    ensures
        identity_copy(r, *id),
{
    match id {
        Some(x) => Some(TypeCIdentity { vendor_id: x.vendor_id, product_id: x.product_id, vdos: copy_words(&x.vdos) }),
        None => None,
    }
}

impl Clone for TypeCIdentity {
    /// A copy of the identity.
    fn clone(&self) -> (r: Self)
        ensures
            identity_copy(Some(r), Some(*self)),
    {
        TypeCIdentity { vendor_id: self.vendor_id, product_id: self.product_id, vdos: copy_words(&self.vdos) }
    }
}

impl Clone for TypeCPartner {
    /// A copy of the partner record.
    fn clone(&self) -> (r: Self)
        ensures
            partner_copy(r, *self),
    {
        TypeCPartner {
            partner_type: self.partner_type.clone(),
            identity: copy_identity(&self.identity),
            altmodes: copy_altmodes(&self.altmodes),
            raw_attributes: self.raw_attributes.clone(),
            pd_name: self.pd_name.clone(),
            usb_name: self.usb_name.clone(),
        }
    }
}

impl Clone for TypeCCable {
    /// A copy of the cable record.
    fn clone(&self) -> (r: Self)
        ensures
            cable_copy(r, *self),
    {
        TypeCCable {
            cable_type: self.cable_type.clone(),
            plug_type: self.plug_type.clone(),
            identity: copy_identity(&self.identity),
            raw_attributes: self.raw_attributes.clone(),
        }
    }
}

impl Clone for TypeCPowerSupply {
    /// A copy of the supply record.
    fn clone(&self) -> (r: Self)
        ensures
            supply_copy(r, *self),
    {
        TypeCPowerSupply {
            sysfs_path: self.sysfs_path.clone(),
            name: self.name.clone(),
            online: self.online,
            voltage_now_uv: self.voltage_now_uv,
            current_now_ua: self.current_now_ua,
            current_max_ua: self.current_max_ua,
            voltage_min_uv: self.voltage_min_uv,
            voltage_max_uv: self.voltage_max_uv,
            charge_type: self.charge_type.clone(),
            usb_type: self.usb_type.clone(),
            raw_attributes: self.raw_attributes.clone(),
        }
    }
}

/// Negotiated wattage in mW of a supply reading `v` µV and `i` µA:
/// `v × i / 10^9` (truncated to `i64`), or `None` unless both readings are
/// present and positive.
pub open spec fn negotiated_mw(v: Option<i64>, i: Option<i64>) -> Option<i64> {
    match (v, i) {
        (Some(v), Some(i)) => if v > 0 && i > 0 {
            Some(((v * i) / 1_000_000_000) as i64)
        } else {
            None
        },
        _ => None,
    }
}

impl TypeCPowerSupply {
    /// Negotiated wattage in mW, `voltage_now × current_now`, computed in
    /// 128 bits so that EPR voltages do not overflow. `None` when either
    /// reading is missing or not positive.
    pub fn negotiated_power_mw(&self) -> (r: Option<i64>)
        ensures
            r == negotiated_mw(self.voltage_now_uv, self.current_now_ua),
    {
        let v = match self.voltage_now_uv {
            Some(v) => v,
            None => return None,
        };
        let i = match self.current_now_ua {
            Some(i) => i,
            None => return None,
        };
        if v <= 0 || i <= 0 {
            return None;
        }
        assert((v as i128) * (i as i128) < 0x4000_0000_0000_0000_0000_0000_0000_0000) by (
        nonlinear_arith)
            requires
                0 < v < 0x8000_0000_0000_0000,
                0 < i < 0x8000_0000_0000_0000,
        ;
        let p: i128 = (v as i128) * (i as i128);
        Some((p / 1_000_000_000) as i64)
    }
}

/// One entry under the Type-C port class.
#[derive(Debug, Default, PartialEq, Eq)]
pub struct TypeCPort {
    /// Sysfs path of the port directory.
    pub sysfs_path: PathBuf,
    /// Kernel name (e.g. `"port0"`).
    pub port_name: String,
    /// Port index parsed from the name, or `-1`.
    pub port_number: i32,
    /// Raw `data_role` (e.g. `"host [device]"`).
    pub data_role: String,
    /// Raw `power_role` (e.g. `"[source] sink"`).
    pub power_role: String,
    /// `port_type`.
    pub port_type: String,
    /// `power_operation_mode`.
    pub power_op_mode: String,
    /// Plug `orientation`.
    pub orientation: String,
    /// `usb_power_delivery_revision`.
    pub pd_revision: String,
    /// `usb_typec_revision`.
    pub usb_typec_rev: String,
    /// Companion UCSI power supply, if located.
    pub power_supply: Option<TypeCPowerSupply>,
    /// Attached partner.
    pub partner: Option<TypeCPartner>,
    /// Attached cable.
    pub cable: Option<TypeCCable>,
    /// All regular files under the port directory.
    pub raw_attributes: BTreeMap<String, String>,
}

impl Clone for TypeCPort {
    /// A copy of the port record.
    fn clone(&self) -> (r: Self)
        ensures
            port_copy(r, *self),
    {
        TypeCPort {
            sysfs_path: self.sysfs_path.clone(),
            port_name: self.port_name.clone(),
            port_number: self.port_number,
            data_role: self.data_role.clone(),
            power_role: self.power_role.clone(),
            port_type: self.port_type.clone(),
            power_op_mode: self.power_op_mode.clone(),
            orientation: self.orientation.clone(),
            pd_revision: self.pd_revision.clone(),
            usb_typec_rev: self.usb_typec_rev.clone(),
            power_supply: match &self.power_supply {
                Some(p) => Some(p.clone()),
                None => None,
            },
            partner: match &self.partner {
                Some(p) => Some(p.clone()),
                None => None,
            },
            cable: match &self.cable {
                Some(c) => Some(c.clone()),
                None => None,
            },
            raw_attributes: self.raw_attributes.clone(),
        }
    }
}

/// Position of the first `c` in `s` at or after `i`.
pub open spec fn find_from(s: Seq<char>, c: char, i: nat) -> Option<nat>
    decreases s.len() - i,
{
    if i >= s.len() {
        None
    } else if s[i as int] == c {
        Some(i)
    } else {
        find_from(s, c, i + 1)
    }
}

/// The text inside the first `[...]` of `s`, or `s` itself when there is no
/// `[` followed by a `]`.
pub open spec fn bracketed_text(s: Seq<char>) -> Seq<char> {
    match find_from(s, '[', 0) {
        Some(a) => match find_from(s, ']', a + 1) {
            Some(b) => s.subrange(a + 1int, b as int),
            None => s,
        },
        None => s,
    }
}

pub(crate) proof fn lemma_find_from_bound(s: Seq<char>, c: char, i: nat)
    ensures
        find_from(s, c, i) matches Some(k) ==> i <= k < s.len() && s[k as int] == c,
    decreases s.len() - i,
{
    if i < s.len() && s[i as int] != c {
        lemma_find_from_bound(s, c, i + 1);
    }
}

/// First position of `c` in `cs` at or after `from`.
pub(crate) fn find_char(cs: &Vec<char>, c: char, from: usize) -> (r: Option<usize>)
    requires
        from <= cs.len(),
    ensures
        match r {
            Some(k) => find_from(cs@, c, from as nat) == Some(k as nat),
            None => find_from(cs@, c, from as nat) is None,
        },
{
    let mut i = from;
    while i < cs.len()
        invariant
            from <= i <= cs.len(),
            find_from(cs@, c, from as nat) == find_from(cs@, c, i as nat),
        decreases cs.len() - i,
    {
        if cs[i] == c {
            return Some(i);
        }
        i = i + 1;
    }
    None
}

/// The value inside `[...]` of a sysfs choice list (`"device"` from
/// `"host [device]"`); the whole string when there are no brackets.
pub fn bracketed(s: &str) -> (r: String)
    ensures
        r@ == bracketed_text(s@),
{
    let cs = chars_of(s);
    match find_char(&cs, '[', 0) {
        Some(a) => {
            proof {
                lemma_find_from_bound(s@, '[', 0);
            }
            match find_char(&cs, ']', a + 1) {
                Some(b) => {
                    proof {
                        lemma_find_from_bound(s@, ']', (a + 1) as nat);
                    }
                    substring(s, a + 1, b)
                },
                None => owned(s),
            }
        },
        None => owned(s),
    }
}

impl TypeCPort {
    /// `true` when a partner or a cable is attached.
    pub fn is_connected(&self) -> (r: bool)
        ensures
            r == (self.partner is Some || self.cable is Some),
    {
        self.partner.is_some() || self.cable.is_some()
    }

    /// The active data role (`"device"` from `"host [device]"`).
    pub fn current_data_role(&self) -> (r: String)
        ensures
            r@ == bracketed_text(self.data_role@),
    {
        bracketed(self.data_role.as_str())
    }

    /// The active power role (`"source"` from `"[source] sink"`).
    pub fn current_power_role(&self) -> (r: String)
        ensures
            r@ == bracketed_text(self.power_role@),
    {
        bracketed(self.power_role.as_str())
    }
}

} // verus!
