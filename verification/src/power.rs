//! USB Power Delivery PDO data model.
//!
//! Each PDO a charger or sink advertises is one entry of a port's source or
//! sink capabilities. The kernel lists every advertised PDO but not the
//! contracted one; [`PowerDeliveryPort::infer_active_source_pdo`] recovers it
//! from the live bus voltage.

use vstd::prelude::*;
use std::collections::BTreeMap;
use std::path::PathBuf;
use crate::text::{owned, push_str};
use crate::fixed::{scaled_text, scaled_string};

verus! {

broadcast use vstd::string::group_string_axioms;

/// Kind of a [`PowerDataObject`].
#[derive(Debug, Clone, Copy, PartialEq, Eq, Structural)]
pub enum PdoType {
    /// Fixed-voltage source (5V / 9V / 15V / 20V profiles).
    FixedSupply,
    /// Battery-backed variable voltage.
    Battery,
    /// Variable-voltage supply without PPS regulation.
    VariableSupply,
    /// Programmable Power Supply (PPS / EPR APDO).
    Pps,
    /// Reserved or unrecognised.
    Unknown,
}

impl Default for PdoType {
    fn default() -> (r: Self)
        ensures
            r == PdoType::Unknown,
    {
        PdoType::Unknown
    }
}

/// Short human label of a PDO kind.
pub open spec fn pdo_type_text(t: PdoType) -> Seq<char> {
    match t {
        PdoType::FixedSupply => "Fixed"@,
        PdoType::Battery => "Battery"@,
        PdoType::VariableSupply => "Variable"@,
        PdoType::Pps => "PPS"@,
        PdoType::Unknown => "Unknown"@,
    }
}

impl PdoType {
    /// Short human label (`"Fixed"` / `"Battery"` / `"Variable"` / `"PPS"`).
    pub fn label(self) -> (r: &'static str)
        ensures
            r@ == pdo_type_text(self),
    {
        match self {
            PdoType::FixedSupply => "Fixed",
            PdoType::Battery => "Battery",
            PdoType::VariableSupply => "Variable",
            PdoType::Pps => "PPS",
            PdoType::Unknown => "Unknown",
        }
    }
}

/// One PDO published by a USB-PD source or sink.
#[derive(Debug, Clone, Copy, PartialEq, Eq, Structural)]
pub struct PowerDataObject {
    /// Kind of supply.
    pub pdo_type: PdoType,
    /// Voltage in mV (the minimum for PPS / variable supplies).
    pub voltage_mv: u32,
    /// Maximum voltage in mV, meaningful for PPS / variable supplies.
    pub max_voltage_mv: u32,
    /// Maximum current in mA.
    pub current_ma: u32,
    /// Maximum power in mW.
    pub power_mw: u32,
    /// `true` if this PDO is the negotiated contract.
    pub is_active: bool,
    /// Index in the capabilities array.
    pub index: u32,
}

impl Default for PowerDataObject {
    fn default() -> (r: Self)
        ensures
            r == (PowerDataObject {
                pdo_type: PdoType::Unknown,
                voltage_mv: 0,
                max_voltage_mv: 0,
                current_ma: 0,
                power_mw: 0,
                is_active: false,
                index: 0,
            }),
    {
        PowerDataObject {
            pdo_type: PdoType::Unknown,
            voltage_mv: 0,
            max_voltage_mv: 0,
            current_ma: 0,
            power_mw: 0,
            is_active: false,
            index: 0,
        }
    }
}

/// Voltage label: `"9.0V"`, or a `"3.3-21.0V"` range for a PPS PDO with a
/// maximum voltage.
pub open spec fn voltage_text(p: PowerDataObject) -> Seq<char> {
    if p.pdo_type == PdoType::Pps && p.max_voltage_mv > 0 {
        scaled_text(p.voltage_mv as nat, 3, 1) + "-"@ + scaled_text(p.max_voltage_mv as nat, 3, 1)
            + "V"@
    } else {
        scaled_text(p.voltage_mv as nat, 3, 1) + "V"@
    }
}

impl PowerDataObject {
    /// Voltage label, with a `"3.3-21.0V"`-style range for PPS.
    pub fn voltage_label(&self) -> (r: String)
        ensures
            r@ == voltage_text(*self),
    {
        let mut r = scaled_string(self.voltage_mv as u64, 3, 1);
        if self.pdo_type == PdoType::Pps && self.max_voltage_mv > 0 {
            push_str(&mut r, "-");
            push_str(&mut r, scaled_string(self.max_voltage_mv as u64, 3, 1).as_str());
        }
        push_str(&mut r, "V");
        r
    }

    /// Two-decimal current label (e.g. `"3.00A"`).
    pub fn current_label(&self) -> (r: String)
        ensures
            r@ == scaled_text(self.current_ma as nat, 3, 2) + "A"@,
    {
        let mut r = scaled_string(self.current_ma as u64, 3, 2);
        push_str(&mut r, "A");
        r
    }

    /// Whole-watt power label (e.g. `"60W"`).
    pub fn power_label(&self) -> (r: String)
        ensures
            r@ == scaled_text(self.power_mw as nat, 3, 0) + "W"@,
    {
        let mut r = scaled_string(self.power_mw as u64, 3, 0);
        push_str(&mut r, "W");
        r
    }
}

/// All PDOs published by one USB Power Delivery port.
#[derive(Debug, PartialEq, Eq)]
pub struct PowerDeliveryPort {
    /// Sysfs path of the port directory.
    pub sysfs_path: PathBuf,
    /// Sysfs name (e.g. `"pd0"`).
    pub name: String,
    /// Companion Type-C port type, when published.
    pub parent_port_type: String,
    /// Companion Type-C port number, or `-1` if not linked.
    pub parent_port_number: i32,
    /// Source PDOs.
    pub source_capabilities: Vec<PowerDataObject>,
    /// Sink PDOs.
    pub sink_capabilities: Vec<PowerDataObject>,
    /// Highest `power_mw` across the source PDOs.
    pub max_source_power_mw: u32,
    /// `index` of the active source PDO, if any.
    pub active_source_pdo_index: Option<u32>,
    /// All regular files under the port directory.
    pub raw_attributes: BTreeMap<String, String>,
}

/// `a` holds what the PD port `b` holds: equal fields, and equal contents
/// where a field is a collection.
pub open spec fn pd_copy(a: PowerDeliveryPort, b: PowerDeliveryPort) -> bool {
    &&& a.sysfs_path == b.sysfs_path
    &&& a.name == b.name
    &&& a.parent_port_type == b.parent_port_type
    &&& a.parent_port_number == b.parent_port_number
    &&& a.source_capabilities@ == b.source_capabilities@
    &&& a.sink_capabilities@ == b.sink_capabilities@
    &&& a.max_source_power_mw == b.max_source_power_mw
    &&& a.active_source_pdo_index == b.active_source_pdo_index
    &&& a.raw_attributes@ == b.raw_attributes@
}

impl Clone for PowerDeliveryPort {
    /// A copy of the port record.
    fn clone(&self) -> (r: Self)
        ensures
            pd_copy(r, *self),
    {
        PowerDeliveryPort {
            sysfs_path: self.sysfs_path.clone(),
            name: self.name.clone(),
            parent_port_type: self.parent_port_type.clone(),
            parent_port_number: self.parent_port_number,
            source_capabilities: copy_pdos(&self.source_capabilities),
            sink_capabilities: copy_pdos(&self.sink_capabilities),
            max_source_power_mw: self.max_source_power_mw,
            active_source_pdo_index: self.active_source_pdo_index,
            raw_attributes: self.raw_attributes.clone(),
        }
    }
}

/// A copy of a PDO list.
fn copy_pdos(v: &Vec<PowerDataObject>) -> (r: Vec<PowerDataObject>)
    ensures
        r@ == v@,
{
    let mut r: Vec<PowerDataObject> = Vec::new();
    let mut i: usize = 0;
    while i < v.len()
        invariant
            i <= v.len(),
            r@ == v@.take(i as int),
        decreases v.len() - i,
    {
        r.push(v[i]);
        assert(r@ =~= v@.take(i + 1));
        i = i + 1;
    }
    assert(v@.take(i as int) =~= v@);
    r
}

impl Default for PowerDeliveryPort {
    /// An unlinked, empty port: `parent_port_number` is `-1`, since `0` is a
    /// valid port number and would pair the node with Type-C port 0.
    fn default() -> (r: Self)
        ensures
            r.name@ == Seq::<char>::empty(),
            r.parent_port_type@ == Seq::<char>::empty(),
            r.parent_port_number == -1,
            r.source_capabilities@ == Seq::<PowerDataObject>::empty(),
            r.sink_capabilities@ == Seq::<PowerDataObject>::empty(),
            r.max_source_power_mw == 0,
            r.active_source_pdo_index is None,
            r.raw_attributes@ == Map::<String, String>::empty(),
    {
        PowerDeliveryPort {
            sysfs_path: PathBuf::new(),
            name: String::new(),
            parent_port_type: String::new(),
            parent_port_number: -1,
            source_capabilities: Vec::new(),
            sink_capabilities: Vec::new(),
            max_source_power_mw: 0,
            active_source_pdo_index: None,
            raw_attributes: BTreeMap::new(),
        }
    }
}

/// Voltage tolerance (mV) when matching a live measurement to a PDO: real
/// rails drop a few hundred millivolts under load.
pub const PDO_MATCH_TOLERANCE_MV: u32 = 500;

/// `|a - b|`.
pub open spec fn abs_diff(a: u32, b: u32) -> nat {
    if a >= b {
        (a - b) as nat
    } else {
        (b - a) as nat
    }
}

/// A PPS or variable supply: matched by voltage window.
pub open spec fn is_windowed(p: PowerDataObject) -> bool {
    p.pdo_type == PdoType::Pps || p.pdo_type == PdoType::VariableSupply
}

/// A fixed-voltage (or battery, or unknown) PDO within tolerance of `live`.
pub open spec fn fixed_candidate(p: PowerDataObject, live: u32) -> bool {
    !is_windowed(p) && abs_diff(p.voltage_mv, live) <= PDO_MATCH_TOLERANCE_MV
}

/// A windowed PDO whose `[voltage - 500, max(voltage, max_voltage) + 500]`
/// window (each end saturating in `u32`) contains `live`.
pub open spec fn window_candidate(p: PowerDataObject, live: u32) -> bool {
    let lo: nat = if p.voltage_mv >= PDO_MATCH_TOLERANCE_MV {
        (p.voltage_mv - PDO_MATCH_TOLERANCE_MV) as nat
    } else {
        0
    };
    let top: nat = if p.max_voltage_mv > p.voltage_mv {
        p.max_voltage_mv as nat
    } else {
        p.voltage_mv as nat
    };
    let hi: nat = if top + PDO_MATCH_TOLERANCE_MV > u32::MAX {
        u32::MAX as nat
    } else {
        (top + PDO_MATCH_TOLERANCE_MV) as nat
    };
    is_windowed(p) && lo <= live && live <= hi
}

/// `i` is the closest fixed candidate, the first one among equally close.
pub open spec fn best_fixed(caps: Seq<PowerDataObject>, live: u32, i: int) -> bool {
    &&& 0 <= i < caps.len()
    &&& fixed_candidate(caps[i], live)
    &&& forall|j: int|
        0 <= j < caps.len() && #[trigger] fixed_candidate(caps[j], live) ==> abs_diff(
            caps[i].voltage_mv,
            live,
        ) <= abs_diff(caps[j].voltage_mv, live)
    &&& forall|j: int|
        0 <= j < i && #[trigger] fixed_candidate(caps[j], live) ==> abs_diff(
            caps[i].voltage_mv,
            live,
        ) < abs_diff(caps[j].voltage_mv, live)
}

/// `i` is the first window candidate.
pub open spec fn first_window(caps: Seq<PowerDataObject>, live: u32, i: int) -> bool {
    &&& 0 <= i < caps.len()
    &&& window_candidate(caps[i], live)
    &&& forall|j: int| 0 <= j < i ==> !#[trigger] window_candidate(caps[j], live)
}

/// Some PDO is a fixed candidate.
pub open spec fn any_fixed(caps: Seq<PowerDataObject>, live: u32) -> bool {
    exists|j: int| 0 <= j < caps.len() && #[trigger] fixed_candidate(caps[j], live)
}

/// Some PDO is a window candidate.
pub open spec fn any_window(caps: Seq<PowerDataObject>, live: u32) -> bool {
    exists|j: int| 0 <= j < caps.len() && #[trigger] window_candidate(caps[j], live)
}

/// The PDO the live voltage selects: the closest fixed candidate, or failing
/// that the first window candidate.
pub open spec fn selects(caps: Seq<PowerDataObject>, live: u32, i: int) -> bool {
    best_fixed(caps, live, i) || (!any_fixed(caps, live) && first_window(caps, live, i))
}

/// `caps` with exactly PDO `i` marked active.
pub open spec fn mark_active(caps: Seq<PowerDataObject>, i: int) -> Seq<PowerDataObject> {
    caps.map(|j: int, p: PowerDataObject| PowerDataObject { is_active: j == i, ..p })
}

/// `after` is `before` once the active source PDO has been inferred from
/// the live voltage `live`: the selected PDO alone marked active and its
/// `index` recorded, or the port untouched when nothing matches.
pub open spec fn inferred(before: PowerDeliveryPort, after: PowerDeliveryPort, live: u32) -> bool {
    ||| exists|i: int|
        #[trigger] selects(before.source_capabilities@, live, i) && after.source_capabilities@
            == mark_active(before.source_capabilities@, i) && after.active_source_pdo_index == Some(
            before.source_capabilities@[i].index,
        ) && after.sysfs_path == before.sysfs_path && after.name == before.name
            && after.parent_port_type == before.parent_port_type && after.parent_port_number
            == before.parent_port_number && after.sink_capabilities == before.sink_capabilities
            && after.max_source_power_mw == before.max_source_power_mw && after.raw_attributes
            == before.raw_attributes
    ||| !any_fixed(before.source_capabilities@, live) && !any_window(
        before.source_capabilities@,
        live,
    ) && after == before
}

impl PowerDeliveryPort {
    /// Mark the source PDO that matches `live_voltage_mv` as active and
    /// return its position, or `None` when nothing matches within
    /// [`PDO_MATCH_TOLERANCE_MV`].
    ///
    /// Precedence: the closest fixed / battery PDO within tolerance, else the
    /// first PPS / variable PDO whose window holds the voltage. Any earlier
    /// active flag is cleared. On `None` the port is left untouched.
    pub fn infer_active_source_pdo(&mut self, live_voltage_mv: u32) -> (r: Option<usize>)
        ensures
            inferred(*old(self), *final(self), live_voltage_mv),
            final(self).sysfs_path == old(self).sysfs_path,
            final(self).name == old(self).name,
            final(self).parent_port_type == old(self).parent_port_type,
            final(self).parent_port_number == old(self).parent_port_number,
            final(self).sink_capabilities == old(self).sink_capabilities,
            final(self).max_source_power_mw == old(self).max_source_power_mw,
            final(self).raw_attributes == old(self).raw_attributes,
            match r {
                Some(i) => {
                    &&& selects(old(self).source_capabilities@, live_voltage_mv, i as int)
                    &&& final(self).source_capabilities@ == mark_active(
                        old(self).source_capabilities@,
                        i as int,
                    )
                    &&& final(self).active_source_pdo_index == Some(
                        old(self).source_capabilities@[i as int].index,
                    )
                },
                None => {
                    &&& !any_fixed(old(self).source_capabilities@, live_voltage_mv)
                    &&& !any_window(old(self).source_capabilities@, live_voltage_mv)
                    &&& *final(self) == *old(self)
                },
            },
    {
        let n = self.source_capabilities.len();
        let ghost caps = self.source_capabilities@;
        let mut best: Option<usize> = None;
        let mut best_diff: u32 = 0;
        let mut i: usize = 0;
        while i < n
            invariant
                n == caps.len(),
                caps == self.source_capabilities@,
                i <= n,
                match best {
                    Some(b) => {
                        &&& b < i
                        &&& fixed_candidate(caps[b as int], live_voltage_mv)
                        &&& best_diff as nat == abs_diff(caps[b as int].voltage_mv, live_voltage_mv)
                        &&& forall|j: int|
                            0 <= j < i && #[trigger] fixed_candidate(caps[j], live_voltage_mv)
                                ==> best_diff <= abs_diff(caps[j].voltage_mv, live_voltage_mv)
                        &&& forall|j: int|
                            0 <= j < b && #[trigger] fixed_candidate(caps[j], live_voltage_mv)
                                ==> best_diff < abs_diff(caps[j].voltage_mv, live_voltage_mv)
                    },
                    None => forall|j: int|
                        0 <= j < i ==> !#[trigger] fixed_candidate(caps[j], live_voltage_mv),
                },
            decreases n - i,
        {
            let p = self.source_capabilities[i];
            let windowed = p.pdo_type == PdoType::Pps || p.pdo_type == PdoType::VariableSupply;
            let d: u32 = if p.voltage_mv >= live_voltage_mv {
                p.voltage_mv - live_voltage_mv
            } else {
                live_voltage_mv - p.voltage_mv
            };
            if !windowed && d <= PDO_MATCH_TOLERANCE_MV {
                match best {
                    Some(_) => {
                        if d < best_diff {
                            best = Some(i);
                            best_diff = d;
                        }
                    },
                    None => {
                        best = Some(i);
                        best_diff = d;
                    },
                }
            }
            i = i + 1;
        }
        let idx: usize = match best {
            Some(b) => {
                assert(best_fixed(caps, live_voltage_mv, b as int));
                b
            },
            None => {
                let mut k: usize = 0;
                let mut found: Option<usize> = None;
                while k < n
                    invariant_except_break
                        found is None,
                    invariant
                        n == caps.len(),
                        caps == self.source_capabilities@,
                        k <= n,
                        forall|j: int| 0 <= j < k ==> !#[trigger] window_candidate(caps[j], live_voltage_mv),
                    ensures
                        match found {
                            Some(f) => first_window(caps, live_voltage_mv, f as int),
                            None => forall|j: int|
                                0 <= j < n ==> !#[trigger] window_candidate(caps[j], live_voltage_mv),
                        },
                    decreases n - k,
                {
                    let p = self.source_capabilities[k];
                    let windowed = p.pdo_type == PdoType::Pps || p.pdo_type
                        == PdoType::VariableSupply;
                    let lo: u32 = if p.voltage_mv >= PDO_MATCH_TOLERANCE_MV {
                        p.voltage_mv - PDO_MATCH_TOLERANCE_MV
                    } else {
                        0
                    };
                    let top: u32 = if p.max_voltage_mv > p.voltage_mv {
                        p.max_voltage_mv
                    } else {
                        p.voltage_mv
                    };
                    let hi: u32 = if top > u32::MAX - PDO_MATCH_TOLERANCE_MV {
                        u32::MAX
                    } else {
                        top + PDO_MATCH_TOLERANCE_MV
                    };
                    if windowed && lo <= live_voltage_mv && live_voltage_mv <= hi {
                        found = Some(k);
                        break;
                    }
                    k = k + 1;
                }
                match found {
                    Some(f) => f,
                    None => {
                        return None;
                    },
                }
            },
        };
        let ghost before = self.source_capabilities@;
        let mut j: usize = 0;
        while j < n
            invariant
                n == before.len(),
                idx < n,
                j <= n,
                self.source_capabilities@.len() == n,
                self.sysfs_path == old(self).sysfs_path,
                self.name == old(self).name,
                self.parent_port_type == old(self).parent_port_type,
                self.parent_port_number == old(self).parent_port_number,
                self.sink_capabilities == old(self).sink_capabilities,
                self.max_source_power_mw == old(self).max_source_power_mw,
                self.raw_attributes == old(self).raw_attributes,
                before == old(self).source_capabilities@,
                forall|t: int|
                    0 <= t < j ==> #[trigger] self.source_capabilities@[t] == (PowerDataObject {
                        is_active: t == idx,
                        ..before[t]
                    }),
                forall|t: int| j <= t < n ==> #[trigger] self.source_capabilities@[t] == before[t],
            decreases n - j,
        {
            let mut p = self.source_capabilities[j];
            p.is_active = j == idx;
            self.source_capabilities.set(j, p);
            j = j + 1;
        }
        assert(self.source_capabilities@ =~= mark_active(before, idx as int));
        let chosen = self.source_capabilities[idx].index;
        self.active_source_pdo_index = Some(chosen);
        assert(selects(old(self).source_capabilities@, live_voltage_mv, idx as int));
        Some(idx)
    }
}

} // verus!
