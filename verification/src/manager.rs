//! Snapshots of the USB / Type-C / PD state, the summaries built from
//! them, and what changed between two snapshots.

use vstd::prelude::*;
use std::collections::HashMap;
use crate::cable::{decoded_cable, CableInfo};
use crate::power::{pd_copy, PowerDeliveryPort};
use crate::summary::{
    push_prop, props_view, summary_copy, summary_id, typec_fields, typec_props_of, usb_summary_of,
    DeviceSummary,
};
use crate::text::concat2;
use crate::text::{owned, str_eq};
use crate::thunderbolt::{router_copy, system_has_usb4_link, usb4_link, ThunderboltRouter};
use crate::typec::{port_copy, TypeCCable, TypeCPort};
use crate::usb::{usb_tree_copy, UsbDevice};

verus! {

broadcast use {vstd::string::group_string_axioms, vstd::std_specs::hash::group_hash_axioms};

/// Where the kernel's device tree is read from.
#[derive(Debug, Clone, PartialEq, Eq)]
pub struct Sysfs {
    /// Root of the tree (`"/sys"` on a live system).
    pub root: String,
}

impl Sysfs {
    /// The live system tree, rooted at `/sys`.
    pub fn linux() -> (r: Sysfs)
        ensures
            r.root@ == "/sys"@,
    {
        Sysfs { root: owned("/sys") }
    }

    /// A tree rooted at `root` (a captured fixture, say).
    pub fn with_root(root: &str) -> (r: Sysfs)
        ensures
            r.root@ == root@,
    {
        Sysfs { root: owned(root) }
    }

    /// The USB devices directory, `<root>/bus/usb/devices`.
    pub fn usb_devices_dir(&self) -> (r: String)
        ensures
            r@ == self.root@ + "/bus/usb/devices"@,
    {
        concat2(self.root.as_str(), "/bus/usb/devices")
    }

    /// The Type-C class directory, `<root>/class/typec`.
    pub fn typec_dir(&self) -> (r: String)
        ensures
            r@ == self.root@ + "/class/typec"@,
    {
        concat2(self.root.as_str(), "/class/typec")
    }

    /// The USB Power Delivery class directory,
    /// `<root>/class/usb_power_delivery`.
    pub fn pd_dir(&self) -> (r: String)
        ensures
            r@ == self.root@ + "/class/usb_power_delivery"@,
    {
        concat2(self.root.as_str(), "/class/usb_power_delivery")
    }

    /// The Thunderbolt devices directory, `<root>/bus/thunderbolt/devices`.
    pub fn thunderbolt_dir(&self) -> (r: String)
        ensures
            r@ == self.root@ + "/bus/thunderbolt/devices"@,
    {
        concat2(self.root.as_str(), "/bus/thunderbolt/devices")
    }

    /// The power-supply class directory, `<root>/class/power_supply`.
    pub fn power_supply_dir(&self) -> (r: String)
        ensures
            r@ == self.root@ + "/class/power_supply"@,
    {
        concat2(self.root.as_str(), "/class/power_supply")
    }
}

/// Everything captured by one refresh.
#[derive(Debug, Default)]
pub struct Snapshot {
    /// USB devices.
    pub usb_devices: Vec<UsbDevice>,
    /// Type-C ports.
    pub typec_ports: Vec<TypeCPort>,
    /// USB-PD ports.
    pub pd_ports: Vec<PowerDeliveryPort>,
    /// Thunderbolt / USB4 routers.
    pub thunderbolt_routers: Vec<ThunderboltRouter>,
    /// One summary per Type-C port and per non-root USB device.
    pub summaries: Vec<DeviceSummary>,
}

/// `a` holds what the snapshot `b` holds: a copy of each of its records,
/// in order.
pub open spec fn snapshot_copy(a: Snapshot, b: Snapshot) -> bool {
    &&& a.usb_devices@.len() == b.usb_devices@.len()
    &&& forall|i: int|
        0 <= i < b.usb_devices@.len() ==> usb_tree_copy(
            #[trigger] a.usb_devices@[i],
            b.usb_devices@[i],
        )
    &&& a.typec_ports@.len() == b.typec_ports@.len()
    &&& forall|i: int|
        0 <= i < b.typec_ports@.len() ==> port_copy(#[trigger] a.typec_ports@[i], b.typec_ports@[i])
    &&& a.pd_ports@.len() == b.pd_ports@.len()
    &&& forall|i: int|
        0 <= i < b.pd_ports@.len() ==> pd_copy(#[trigger] a.pd_ports@[i], b.pd_ports@[i])
    &&& a.thunderbolt_routers@.len() == b.thunderbolt_routers@.len()
    &&& forall|i: int|
        0 <= i < b.thunderbolt_routers@.len() ==> router_copy(
            #[trigger] a.thunderbolt_routers@[i],
            b.thunderbolt_routers@[i],
        )
    &&& a.summaries@.len() == b.summaries@.len()
    &&& forall|i: int|
        0 <= i < b.summaries@.len() ==> summary_copy(#[trigger] a.summaries@[i], b.summaries@[i])
}

impl Clone for Snapshot {
    /// A copy of the snapshot, record by record.
    fn clone(&self) -> (r: Self)
        ensures
            snapshot_copy(r, *self),
    {
        let mut usb_devices: Vec<UsbDevice> = Vec::new();
        let mut i: usize = 0;
        while i < self.usb_devices.len()
            invariant
                i <= self.usb_devices@.len(),
                usb_devices@.len() == i,
                forall|k: int|
                    0 <= k < i ==> usb_tree_copy(#[trigger] usb_devices@[k], self.usb_devices@[k]),
            decreases self.usb_devices@.len() - i,
        {
            usb_devices.push(self.usb_devices[i].clone());
            i = i + 1;
        }
        let mut typec_ports: Vec<TypeCPort> = Vec::new();
        let mut i: usize = 0;
        while i < self.typec_ports.len()
            invariant
                i <= self.typec_ports@.len(),
                typec_ports@.len() == i,
                forall|k: int| 0 <= k < i ==> port_copy(#[trigger] typec_ports@[k], self.typec_ports@[k]),
            decreases self.typec_ports@.len() - i,
        {
            typec_ports.push(self.typec_ports[i].clone());
            i = i + 1;
        }
        let mut pd_ports: Vec<PowerDeliveryPort> = Vec::new();
        let mut i: usize = 0;
        while i < self.pd_ports.len()
            invariant
                i <= self.pd_ports@.len(),
                pd_ports@.len() == i,
                forall|k: int| 0 <= k < i ==> pd_copy(#[trigger] pd_ports@[k], self.pd_ports@[k]),
            decreases self.pd_ports@.len() - i,
        {
            pd_ports.push(self.pd_ports[i].clone());
            i = i + 1;
        }
        let mut thunderbolt_routers: Vec<ThunderboltRouter> = Vec::new();
        let mut i: usize = 0;
        while i < self.thunderbolt_routers.len()
            invariant
                i <= self.thunderbolt_routers@.len(),
                thunderbolt_routers@.len() == i,
                forall|k: int|
                    0 <= k < i ==> router_copy(
                        #[trigger] thunderbolt_routers@[k],
                        self.thunderbolt_routers@[k],
                    ),
            decreases self.thunderbolt_routers@.len() - i,
        {
            thunderbolt_routers.push(self.thunderbolt_routers[i].clone());
            i = i + 1;
        }
        let mut summaries: Vec<DeviceSummary> = Vec::new();
        let mut i: usize = 0;
        while i < self.summaries.len()
            invariant
                i <= self.summaries@.len(),
                summaries@.len() == i,
                forall|k: int| 0 <= k < i ==> summary_copy(#[trigger] summaries@[k], self.summaries@[k]),
            decreases self.summaries@.len() - i,
        {
            summaries.push(self.summaries[i].clone());
            i = i + 1;
        }
        Snapshot { usb_devices, typec_ports, pd_ports, thunderbolt_routers, summaries }
    }
}

/// What changed between two snapshots: summary ids that appeared or went
/// away, and Type-C ports whose charging warning was raised or cleared.
#[derive(Debug, Clone, Default, PartialEq, Eq)]
pub struct SnapshotDiff {
    /// Ids present now but not before.
    pub added: Vec<String>,
    /// Ids present before but not now.
    pub removed: Vec<String>,
    /// Port numbers whose diagnostic newly warns.
    pub newly_degraded: Vec<i32>,
    /// Port numbers whose warning has cleared.
    pub resolved: Vec<i32>,
}

/// The diff as plain values.
pub ghost struct DiffView {
    pub added: Seq<Seq<char>>,
    pub removed: Seq<Seq<char>>,
    pub newly_degraded: Seq<i32>,
    pub resolved: Seq<i32>,
}

impl View for SnapshotDiff {
    type V = DiffView;

    open spec fn view(&self) -> DiffView {
        DiffView {
            added: self.added@.map_values(|s: String| s@),
            removed: self.removed@.map_values(|s: String| s@),
            newly_degraded: self.newly_degraded@,
            resolved: self.resolved@,
        }
    }
}

impl SnapshotDiff {
    /// `true` when nothing appeared, went away or changed.
    pub fn is_empty(&self) -> (r: bool)
        ensures
            r == (self.added@.len() == 0 && self.removed@.len() == 0
                && self.newly_degraded@.len() == 0 && self.resolved@.len() == 0),
    {
        self.added.len() == 0 && self.removed.len() == 0 && self.newly_degraded.len() == 0
            && self.resolved.len() == 0
    }
}

/// Ids of a list of summaries.
pub open spec fn ids_of(ss: Seq<DeviceSummary>) -> Seq<Seq<char>> {
    ss.map_values(|s: DeviceSummary| summary_id(s))
}

/// The summary carries a charging diagnostic that warns.
pub open spec fn warns(s: DeviceSummary) -> bool {
    s.charging_diag matches Some(d) && d.is_warning
}

/// Whether the last Type-C summary of `ss` for port `pn` warned; `None`
/// when `ss` has none for that port.
pub open spec fn prev_warning(ss: Seq<DeviceSummary>, pn: i32) -> Option<bool>
    decreases ss.len(),
{
    if ss.len() == 0 {
        None
    } else {
        let s = ss.last();
        if s.typec_port matches Some(p) && p.port_number == pn {
            Some(warns(s))
        } else {
            prev_warning(ss.drop_last(), pn)
        }
    }
}

/// Port numbers, in the order of `cur`, whose Type-C summary warns now
/// while the previous one for that port did not (or there was none).
pub open spec fn degraded_of(cur: Seq<DeviceSummary>, prev: Seq<DeviceSummary>) -> Seq<i32>
    decreases cur.len(),
{
    if cur.len() == 0 {
        Seq::empty()
    } else {
        let rest = degraded_of(cur.drop_last(), prev);
        let s = cur.last();
        match s.typec_port {
            Some(p) => if warns(s) && prev_warning(prev, p.port_number) != Some(true) {
                rest.push(p.port_number)
            } else {
                rest
            },
            None => rest,
        }
    }
}

/// Port numbers, in the order of `cur`, whose previous Type-C summary
/// warned and whose current one does not.
pub open spec fn resolved_of(cur: Seq<DeviceSummary>, prev: Seq<DeviceSummary>) -> Seq<i32>
    decreases cur.len(),
{
    if cur.len() == 0 {
        Seq::empty()
    } else {
        let rest = resolved_of(cur.drop_last(), prev);
        let s = cur.last();
        match s.typec_port {
            Some(p) => if !warns(s) && prev_warning(prev, p.port_number) == Some(true) {
                rest.push(p.port_number)
            } else {
                rest
            },
            None => rest,
        }
    }
}

/// The ids of `ss` in order, with their summaries.
fn ids(ss: &Vec<DeviceSummary>) -> (r: Vec<String>)
    ensures
        r@.map_values(|s: String| s@) == ids_of(ss@),
{
    let mut out: Vec<String> = Vec::new();
    let mut i: usize = 0;
    while i < ss.len()
        invariant
            i <= ss.len(),
            out@.map_values(|s: String| s@) == ids_of(ss@.take(i as int)),
        decreases ss.len() - i,
    {
        let ghost before = out@.map_values(|s: String| s@);
        out.push(ss[i].id());
        assert(ss@.take(i + 1) =~= ss@.take(i as int).push(ss@[i as int]));
        assert(ids_of(ss@.take(i + 1)) =~= ids_of(ss@.take(i as int)).push(summary_id(ss@[i as int])));
        assert(out@.map_values(|s: String| s@) =~= ids_of(ss@.take(i + 1)));
        i = i + 1;
    }
    assert(ss@.take(i as int) =~= ss@);
    out
}

/// `needle` is one of `hay`.
fn contains_text(hay: &Vec<String>, needle: &String) -> (r: bool)
    ensures
        r == hay@.map_values(|s: String| s@).contains(needle@),
{
    let ghost hv = hay@.map_values(|s: String| s@);
    let mut i: usize = 0;
    while i < hay.len()
        invariant
            i <= hay.len(),
            hv == hay@.map_values(|s: String| s@),
            forall|k: int| 0 <= k < i ==> hv[k] != needle@,
        decreases hay.len() - i,
    {
        assert(hv[i as int] == hay@[i as int]@);
        if str_eq(hay[i].as_str(), needle.as_str()) {
            return true;
        }
        i = i + 1;
    }
    false
}

/// The entries of `xs` that are not in `ys`, in order.
fn missing_from(xs: &Vec<String>, ys: &Vec<String>) -> (r: Vec<String>)
    ensures
        r@.map_values(|s: String| s@) == xs@.map_values(|s: String| s@).filter(
            |t: Seq<char>| !ys@.map_values(|s: String| s@).contains(t),
        ),
{
    let ghost xv = xs@.map_values(|s: String| s@);
    let ghost yv = ys@.map_values(|s: String| s@);
    let ghost pred = |t: Seq<char>| !yv.contains(t);
    let mut out: Vec<String> = Vec::new();
    let mut i: usize = 0;
    while i < xs.len()
        invariant
            i <= xs.len(),
            xv == xs@.map_values(|s: String| s@),
            yv == ys@.map_values(|s: String| s@),
            pred == (|t: Seq<char>| !yv.contains(t)),
            out@.map_values(|s: String| s@) == xv.take(i as int).filter(pred),
        decreases xs.len() - i,
    {
        proof {
            assert(xv.take(i + 1).drop_last() =~= xv.take(i as int));
            assert(xv.take(i + 1).last() == xs@[i as int]@);
            reveal(Seq::filter);
        }
        let ghost before = out@.map_values(|s: String| s@);
        if !contains_text(ys, &xs[i]) {
            out.push(xs[i].clone());
            assert(out@.map_values(|s: String| s@) =~= before.push(xs@[i as int]@));
        }
        i = i + 1;
    }
    assert(xv.take(i as int) =~= xv);
    out
}

/// The warning flag of each port number among the Type-C summaries of
/// `ss`; where a number occurs twice, the later summary's flag.
fn warnings_by_port(ss: &Vec<DeviceSummary>) -> (m: HashMap<i32, bool>)
    ensures
        forall|pn: i32|
            #![trigger m@.contains_key(pn)]
            (m@.contains_key(pn) <==> prev_warning(ss@, pn) is Some) && (m@.contains_key(pn)
                ==> prev_warning(ss@, pn) == Some(m@[pn])),
{
    let mut m: HashMap<i32, bool> = HashMap::new();
    let mut i: usize = 0;
    while i < ss.len()
        invariant
            i <= ss@.len(),
            forall|pn: i32|
                #![trigger m@.contains_key(pn)]
                (m@.contains_key(pn) <==> prev_warning(ss@.take(i as int), pn) is Some) && (
                m@.contains_key(pn) ==> prev_warning(ss@.take(i as int), pn) == Some(m@[pn])),
        decreases ss@.len() - i,
    {
        assert(ss@.take(i + 1).drop_last() =~= ss@.take(i as int));
        assert(ss@.take(i + 1).last() == ss@[i as int]);
        let s = &ss[i];
        match &s.typec_port {
            Some(p) => {
                let w = match &s.charging_diag {
                    Some(d) => d.is_warning,
                    None => false,
                };
                m.insert(p.port_number, w);
            },
            None => {},
        }
        i = i + 1;
    }
    assert(ss@.take(i as int) =~= ss@);
    m
}

impl Snapshot {
    /// What changed in `self` relative to `previous`: ids added and
    /// removed, and the Type-C ports whose warning was raised or cleared
    /// (a port already present is only reported when its flag flipped).
    pub fn diff(&self, previous: &Snapshot) -> (d: SnapshotDiff)
        ensures
            d@.added == ids_of(self.summaries@).filter(
                |t: Seq<char>| !ids_of(previous.summaries@).contains(t),
            ),
            d@.removed == ids_of(previous.summaries@).filter(
                |t: Seq<char>| !ids_of(self.summaries@).contains(t),
            ),
            d@.newly_degraded == degraded_of(self.summaries@, previous.summaries@),
            d@.resolved == resolved_of(self.summaries@, previous.summaries@),
    {
        let prev_ids = ids(&previous.summaries);
        let cur_ids = ids(&self.summaries);
        let added = missing_from(&cur_ids, &prev_ids);
        let removed = missing_from(&prev_ids, &cur_ids);
        let ghost cur = self.summaries@;
        let ghost prev = previous.summaries@;
        let prev_warnings = warnings_by_port(&previous.summaries);
        let mut newly_degraded: Vec<i32> = Vec::new();
        let mut resolved: Vec<i32> = Vec::new();
        let mut i: usize = 0;
        while i < self.summaries.len()
            invariant
                i <= cur.len(),
                cur == self.summaries@,
                prev == previous.summaries@,
                forall|pn: i32|
                    #![trigger prev_warnings@.contains_key(pn)]
                    (prev_warnings@.contains_key(pn) <==> prev_warning(prev, pn) is Some) && (
                    prev_warnings@.contains_key(pn) ==> prev_warning(prev, pn) == Some(
                        prev_warnings@[pn],
                    )),
                newly_degraded@ == degraded_of(cur.take(i as int), prev),
                resolved@ == resolved_of(cur.take(i as int), prev),
            decreases cur.len() - i,
        {
            assert(cur.take(i + 1).drop_last() =~= cur.take(i as int));
            assert(cur.take(i + 1).last() == cur[i as int]);
            let s = &self.summaries[i];
            match &s.typec_port {
                Some(tc) => {
                    let now_warn = match &s.charging_diag {
                        Some(d) => d.is_warning,
                        None => false,
                    };
                    let before: Option<bool> = match prev_warnings.get(&tc.port_number) {
                        Some(w) => Some(*w),
                        None => None,
                    };
                    match before {
                        Some(true) => {
                            if !now_warn {
                                resolved.push(tc.port_number);
                            }
                        },
                        _ => {
                            if now_warn {
                                newly_degraded.push(tc.port_number);
                            }
                        },
                    }
                },
                None => {},
            }
            i = i + 1;
        }
        assert(cur.take(i as int) =~= cur);
        SnapshotDiff { added, removed, newly_degraded, resolved }
    }
}

/// First PD port at or after `from` named `name`.
pub open spec fn first_named(pd: Seq<PowerDeliveryPort>, name: Seq<char>, from: int) -> Option<int>
    decreases pd.len() - from,
{
    if from < 0 || from >= pd.len() {
        None
    } else if pd[from].name@ == name {
        Some(from)
    } else {
        first_named(pd, name, from + 1)
    }
}

/// First PD port at or after `from` linked (`>= 0`) to port number `pn`.
pub open spec fn first_linked(pd: Seq<PowerDeliveryPort>, pn: i32, from: int) -> Option<int>
    decreases pd.len() - from,
{
    if from < 0 || from >= pd.len() {
        None
    } else if pd[from].parent_port_number >= 0 && pd[from].parent_port_number == pn {
        Some(from)
    } else {
        first_linked(pd, pn, from + 1)
    }
}

/// Index of the PD port paired with Type-C port `tc`: the first one named
/// by the partner's PD link, else the first linked to the port's number,
/// else the only PD port when there is a single port.
pub open spec fn pd_choice(tc: TypeCPort, pd: Seq<PowerDeliveryPort>, n_ports: nat) -> Option<int> {
    let by_name = match tc.partner {
        Some(pa) => if pa.pd_name@.len() > 0 {
            first_named(pd, pa.pd_name@, 0)
        } else {
            None
        },
        None => None,
    };
    match by_name {
        Some(j) => Some(j),
        None => match first_linked(pd, tc.port_number, 0) {
            Some(j) => Some(j),
            None => if pd.len() == 1 && n_ports == 1 {
                Some(0)
            } else {
                None
            },
        },
    }
}

proof fn lemma_first_named_bound(pd: Seq<PowerDeliveryPort>, name: Seq<char>, from: int)
    ensures
        first_named(pd, name, from) matches Some(j) ==> 0 <= j < pd.len(),
    decreases pd.len() - from,
{
    if 0 <= from < pd.len() && pd[from].name@ != name {
        lemma_first_named_bound(pd, name, from + 1);
    }
}

proof fn lemma_first_linked_bound(pd: Seq<PowerDeliveryPort>, pn: i32, from: int)
    ensures
        first_linked(pd, pn, from) matches Some(j) ==> 0 <= j < pd.len(),
    decreases pd.len() - from,
{
    if 0 <= from < pd.len() && !(pd[from].parent_port_number >= 0 && pd[from].parent_port_number
        == pn) {
        lemma_first_linked_bound(pd, pn, from + 1);
    }
}

fn find_named(pd: &[PowerDeliveryPort], name: &String) -> (r: Option<usize>)
    ensures
        match r {
            Some(j) => first_named(pd@, name@, 0) == Some(j as int) && j < pd@.len(),
            None => first_named(pd@, name@, 0) is None,
        },
{
    let mut j: usize = 0;
    while j < pd.len()
        invariant
            j <= pd.len(),
            first_named(pd@, name@, 0) == first_named(pd@, name@, j as int),
        decreases pd.len() - j,
    {
        if str_eq(pd[j].name.as_str(), name.as_str()) {
            return Some(j);
        }
        j = j + 1;
    }
    None
}

fn find_linked(pd: &[PowerDeliveryPort], pn: i32) -> (r: Option<usize>)
    ensures
        match r {
            Some(j) => first_linked(pd@, pn, 0) == Some(j as int) && j < pd@.len(),
            None => first_linked(pd@, pn, 0) is None,
        },
{
    let mut j: usize = 0;
    while j < pd.len()
        invariant
            j <= pd.len(),
            first_linked(pd@, pn, 0) == first_linked(pd@, pn, j as int),
        decreases pd.len() - j,
    {
        if pd[j].parent_port_number >= 0 && pd[j].parent_port_number == pn {
            return Some(j);
        }
        j = j + 1;
    }
    None
}

/// The PD port paired with `tc` (see [`pd_choice`]), as an index.
fn choose_pd(tc: &TypeCPort, pd: &[PowerDeliveryPort], n_ports: usize) -> (r: Option<usize>)
    ensures
        match r {
            Some(j) => pd_choice(*tc, pd@, n_ports as nat) == Some(j as int) && j < pd@.len(),
            None => pd_choice(*tc, pd@, n_ports as nat) is None,
        },
{
    let by_name: Option<usize> = match &tc.partner {
        Some(pa) => if pa.pd_name.as_str().unicode_len() > 0 {
            find_named(pd, &pa.pd_name)
        } else {
            None
        },
        None => None,
    };
    match by_name {
        Some(j) => {
            return Some(j);
        },
        None => {},
    }
    match find_linked(pd, tc.port_number) {
        Some(j) => {
            return Some(j);
        },
        None => {},
    }
    if pd.len() == 1 && n_ports == 1 {
        Some(0)
    } else {
        None
    }
}

/// First USB device at or after `from` whose `bus_port` is `name`.
pub open spec fn first_bus(usb: Seq<UsbDevice>, name: Seq<char>, from: int) -> Option<int>
    decreases usb.len() - from,
{
    if from < 0 || from >= usb.len() {
        None
    } else if usb[from].bus_port@ == name {
        Some(from)
    } else {
        first_bus(usb, name, from + 1)
    }
}

/// Index of the USB device the partner of `tc` enumerated as: the first
/// whose `bus_port` is the partner's non-empty `usb_name`.
pub open spec fn usb_choice(tc: TypeCPort, usb: Seq<UsbDevice>) -> Option<int> {
    match tc.partner {
        Some(pa) => if pa.usb_name@.len() > 0 {
            first_bus(usb, pa.usb_name@, 0)
        } else {
            None
        },
        None => None,
    }
}

fn find_bus(usb: &[UsbDevice], name: &String) -> (r: Option<usize>)
    ensures
        match r {
            Some(j) => first_bus(usb@, name@, 0) == Some(j as int) && j < usb@.len(),
            None => first_bus(usb@, name@, 0) is None,
        },
{
    let mut j: usize = 0;
    while j < usb.len()
        invariant
            j <= usb.len(),
            first_bus(usb@, name@, 0) == first_bus(usb@, name@, j as int),
        decreases usb.len() - j,
    {
        if str_eq(usb[j].bus_port.as_str(), name.as_str()) {
            return Some(j);
        }
        j = j + 1;
    }
    None
}

fn choose_usb(tc: &TypeCPort, usb: &[UsbDevice]) -> (r: Option<usize>)
    ensures
        match r {
            Some(j) => usb_choice(*tc, usb@) == Some(j as int) && j < usb@.len(),
            None => usb_choice(*tc, usb@) is None,
        },
{
    match &tc.partner {
        Some(pa) => if pa.usb_name.as_str().unicode_len() > 0 {
            find_bus(usb, &pa.usb_name)
        } else {
            None
        },
        None => None,
    }
}

/// The USB devices that get a summary: all but kernel root hubs.
pub open spec fn listed_usb(usb: Seq<UsbDevice>) -> Seq<UsbDevice> {
    usb.filter(|d: UsbDevice| !d.is_root_hub)
}

/// The USB device the partner of `tc` enumerated as (see [`usb_choice`]).
pub open spec fn usb_match_of(tc: TypeCPort, usb: Seq<UsbDevice>) -> Option<UsbDevice> {
    match usb_choice(tc, usb) {
        Some(j) => Some(usb[j]),
        None => None,
    }
}

/// `p` is a copy of the PD port that `choice` picks out of `pd`, or nothing
/// when it picks none.
pub open spec fn pd_picked(
    p: Option<PowerDeliveryPort>,
    choice: Option<int>,
    pd: Seq<PowerDeliveryPort>,
) -> bool {
    match choice {
        Some(j) => p matches Some(q) && pd_copy(q, pd[j]),
        None => p is None,
    }
}

/// `c` is the decoded form of the port's cable, or nothing without one.
pub open spec fn cable_decoded(c: Option<CableInfo>, cable: Option<TypeCCable>) -> bool {
    match cable {
        Some(k) => c matches Some(ci) && ci@ == decoded_cable(
            k.cable_type@,
            k.plug_type@,
            match k.identity {
                Some(id) => Some((id.vendor_id, id.vdos@)),
                None => None,
            },
        ) && ci.raw_attributes@ == k.raw_attributes@,
        None => c is None,
    }
}

/// The property a port with a partner gets when the system has a USB4 link.
pub open spec fn usb4_suffix(flag: bool) -> Seq<(Seq<char>, Seq<char>)> {
    if flag {
        seq![("transport.usb4"@, "true"@)]
    } else {
        Seq::empty()
    }
}

/// `s` is the summary of Type-C port `tc`: what
/// [`DeviceSummary::from_typec_port`] gives for it with a copy of its PD
/// port, its decoded cable and the USB device its partner enumerated as,
/// then `transport.usb4` when `usb4` holds and the port has a partner.
pub open spec fn port_summary_built(
    tc: TypeCPort,
    pd: Seq<PowerDeliveryPort>,
    n_ports: nat,
    usb: Seq<UsbDevice>,
    usb4: bool,
    s: DeviceSummary,
) -> bool {
    exists|p: Option<PowerDeliveryPort>, c: Option<CableInfo>|
        #![trigger typec_fields(tc, p, c, usb_match_of(tc, usb), s)]
        {
            &&& pd_picked(p, pd_choice(tc, pd, n_ports), pd)
            &&& cable_decoded(c, tc.cable)
            &&& typec_fields(tc, p, c, usb_match_of(tc, usb), s)
            &&& props_view(s.properties@) == typec_props_of(
                tc,
                usb_match_of(tc, usb),
                c,
                s.power_delivery,
            ) + usb4_suffix(usb4 && tc.partner is Some)
        }
}

/// What [`build_summaries`] gives for the `i`th Type-C port.
pub open spec fn port_entry(
    usb: Seq<UsbDevice>,
    ports: Seq<TypeCPort>,
    pd: Seq<PowerDeliveryPort>,
    tb: Seq<ThunderboltRouter>,
    i: int,
    s: DeviceSummary,
) -> bool {
    &&& summary_id(s) == "typec:"@ + ports[i].port_name@
    &&& (s.power_delivery is Some <==> pd_choice(ports[i], pd, ports.len() as nat) is Some)
    &&& (pd_choice(ports[i], pd, ports.len() as nat) matches Some(j)
        ==> s.power_delivery->0.name == pd[j].name)
    &&& (usb4_link(tb) && ports[i].partner is Some) ==> props_view(s.properties@).last() == (
        "transport.usb4"@,
        "true"@,
    )
    &&& port_summary_built(ports[i], pd, ports.len() as nat, usb, usb4_link(tb), s)
}

/// What [`build_summaries`] gives: one summary per Type-C port, in order,
/// each as [`port_summary_built`] says; then one per listed USB device, in
/// order, each what [`DeviceSummary::from_usb_device`] gives for it.
pub open spec fn summaries_built(
    usb: Seq<UsbDevice>,
    ports: Seq<TypeCPort>,
    pd: Seq<PowerDeliveryPort>,
    tb: Seq<ThunderboltRouter>,
    r: Seq<DeviceSummary>,
) -> bool {
    &&& r.len() == ports.len() + listed_usb(usb).len()
    &&& forall|i: int| 0 <= i < ports.len() ==> port_entry(usb, ports, pd, tb, i, #[trigger] r[i])
    &&& forall|k: int|
        0 <= k < listed_usb(usb).len() ==> {
            &&& summary_id(#[trigger] r[ports.len() + k]) == "usb:"@ + listed_usb(usb)[k].bus_port@
            &&& usb_summary_of(listed_usb(usb)[k], r[ports.len() + k])
        }
}

/// Build the summaries: one per Type-C port, in order, then one per
/// non-root USB device, in order. Each port is paired with its PD port
/// (see [`pd_choice`]), its decoded cable, and the USB device its partner
/// enumerated as; a port with a partner gets `transport.usb4` last when
/// the system has a USB4 link.
pub fn build_summaries(
    usb: &[UsbDevice],
    ports: &[TypeCPort],
    pd: &[PowerDeliveryPort],
    tb: &[ThunderboltRouter],
) -> (r: Vec<DeviceSummary>)
    ensures
        summaries_built(usb@, ports@, pd@, tb@, r@),
{
    let usb4 = system_has_usb4_link(tb);
    let mut out: Vec<DeviceSummary> = Vec::new();
    let mut i: usize = 0;
    while i < ports.len()
        invariant
            i <= ports.len(),
            out@.len() == i,
            usb4 == usb4_link(tb@),
            forall|t: int| 0 <= t < i ==> port_entry(usb@, ports@, pd@, tb@, t, #[trigger] out@[t]),
        decreases ports.len() - i,
    {
        let tc = &ports[i];
        let pd_match: Option<PowerDeliveryPort> = match choose_pd(tc, pd, ports.len()) {
            Some(j) => Some(pd[j].clone()),
            None => None,
        };
        let usb_match: Option<&UsbDevice> = match choose_usb(tc, usb) {
            Some(j) => Some(&usb[j]),
            None => None,
        };
        let ghost um = usb_match_of(*tc, usb@);
        assert(um == match usb_match {
            Some(u) => Some(*u),
            None => None,
        });
        let cable: Option<CableInfo> = match &tc.cable {
            Some(c) => Some(CableInfo::from_typec_cable(c)),
            None => None,
        };
        let mut summary = DeviceSummary::from_typec_port(tc, pd_match, cable, usb_match);
        let ghost before = props_view(summary.properties@);
        let flag = usb4 && tc.partner.is_some();
        if flag {
            push_prop(&mut summary.properties, "transport.usb4", owned("true"));
        }
        proof {
            reveal_strlit("transport.usb4");
            reveal_strlit("true");
            assert(props_view(summary.properties@) =~= before + usb4_suffix(flag));
            assert(typec_fields(*tc, pd_match, cable, um, summary));
        }
        out.push(summary);
        i = i + 1;
    }
    let ghost listed = listed_usb(usb@);
    let ghost pred = |d: UsbDevice| !d.is_root_hub;
    let mut k: usize = 0;
    while k < usb.len()
        invariant
            k <= usb.len(),
            listed == listed_usb(usb@),
            pred == (|d: UsbDevice| !d.is_root_hub),
            out@.len() == ports@.len() + usb@.take(k as int).filter(pred).len(),
            forall|t: int|
                0 <= t < ports@.len() ==> port_entry(usb@, ports@, pd@, tb@, t, #[trigger] out@[t]),
            forall|t: int|
                0 <= t < usb@.take(k as int).filter(pred).len() ==> {
                    &&& summary_id(#[trigger] out@[ports@.len() + t]) == "usb:"@ + usb@.take(
                        k as int,
                    ).filter(pred)[t].bus_port@
                    &&& usb_summary_of(usb@.take(k as int).filter(pred)[t], out@[ports@.len() + t])
                },
        decreases usb.len() - k,
    {
        proof {
            assert(usb@.take(k + 1).drop_last() =~= usb@.take(k as int));
            reveal(Seq::filter);
        }
        let d = &usb[k];
        if !d.is_root_hub {
            let s = DeviceSummary::from_usb_device(d);
            out.push(s);
        }
        k = k + 1;
    }
    assert(usb@.take(k as int) =~= usb@);
    out
}

/// Stateful enumerator holding the latest snapshot.
#[derive(Debug)]
pub struct DeviceManager {
    sysfs: Sysfs,
    snapshot: Snapshot,
}

/// An empty snapshot.
fn empty_snapshot() -> (s: Snapshot)
    ensures
        s.usb_devices@.len() == 0,
        s.typec_ports@.len() == 0,
        s.pd_ports@.len() == 0,
        s.thunderbolt_routers@.len() == 0,
        s.summaries@.len() == 0,
{
    Snapshot {
        usb_devices: Vec::new(),
        typec_ports: Vec::new(),
        pd_ports: Vec::new(),
        thunderbolt_routers: Vec::new(),
        summaries: Vec::new(),
    }
}

impl DeviceManager {
    /// A manager bound to the live `/sys` tree, with an empty snapshot.
    pub fn new() -> (m: DeviceManager)
        ensures
            m.sysfs().root@ == "/sys"@,
            m.snapshot().summaries@.len() == 0,
    {
        Self::with_sysfs(Sysfs::linux())
    }

    /// A manager bound to `sysfs`, with an empty snapshot.
    pub fn with_sysfs(sysfs: Sysfs) -> (m: DeviceManager)
        ensures
            *m.sysfs() == sysfs,
            m.snapshot().usb_devices@.len() == 0,
            m.snapshot().typec_ports@.len() == 0,
            m.snapshot().pd_ports@.len() == 0,
            m.snapshot().thunderbolt_routers@.len() == 0,
            m.snapshot().summaries@.len() == 0,
    {
        let snapshot = empty_snapshot();
        assert(listed_usb(snapshot.usb_devices@) =~= Seq::<UsbDevice>::empty()) by {
            reveal(Seq::filter);
        }
        DeviceManager { sysfs, snapshot }
    }

    /// Replace the snapshot with freshly enumerated inputs and the
    /// summaries built from them. Reading `/sys` is the caller's part: the
    /// inputs are what [`Sysfs`] enumerated under `self.sysfs()`.
    pub fn refresh(
        &mut self,
        usb_devices: Vec<UsbDevice>,
        typec_ports: Vec<TypeCPort>,
        pd_ports: Vec<PowerDeliveryPort>,
        thunderbolt_routers: Vec<ThunderboltRouter>,
    )
        ensures
            *final(self).sysfs() == *old(self).sysfs(),
            final(self).snapshot().usb_devices == usb_devices,
            final(self).snapshot().typec_ports == typec_ports,
            final(self).snapshot().pd_ports == pd_ports,
            final(self).snapshot().thunderbolt_routers == thunderbolt_routers,
            final(self).snapshot().summaries@.len() == typec_ports@.len() + listed_usb(
                usb_devices@,
            ).len(),
            summaries_built(
                usb_devices@,
                typec_ports@,
                pd_ports@,
                thunderbolt_routers@,
                final(self).snapshot().summaries@,
            ),
    {
        let summaries = build_summaries(
            usb_devices.as_slice(),
            typec_ports.as_slice(),
            pd_ports.as_slice(),
            thunderbolt_routers.as_slice(),
        );
        self.snapshot = Snapshot {
            usb_devices,
            typec_ports,
            pd_ports,
            thunderbolt_routers,
            summaries,
        };
    }

    /// The latest snapshot.
    pub closed spec fn snapshot_spec(&self) -> &Snapshot {
        &self.snapshot
    }

    /// The manager's snapshot always holds the summaries built from its
    /// inputs: one per Type-C port, then one per non-root USB device.
    #[verifier::type_invariant]
    spec fn holds_built_summaries(self) -> bool {
        summaries_built(
            self.snapshot.usb_devices@,
            self.snapshot.typec_ports@,
            self.snapshot.pd_ports@,
            self.snapshot.thunderbolt_routers@,
            self.snapshot.summaries@,
        )
    }

    /// The latest snapshot: its summaries are those built from its inputs
    /// (see [`summaries_built`]), whatever refreshes came before.
    #[verifier::when_used_as_spec(snapshot_spec)]
    pub fn snapshot(&self) -> (r: &Snapshot)
        ensures
            r == self.snapshot_spec(),
            summaries_built(
                r.usb_devices@,
                r.typec_ports@,
                r.pd_ports@,
                r.thunderbolt_routers@,
                r.summaries@,
            ),
    {
        proof {
            use_type_invariant(self);
        }
        &self.snapshot
    }

    /// The sysfs handle.
    pub closed spec fn sysfs_spec(&self) -> &Sysfs {
        &self.sysfs
    }

    /// The sysfs handle this manager was built with.
    #[verifier::when_used_as_spec(sysfs_spec)]
    pub fn sysfs(&self) -> (r: &Sysfs)
        ensures
            r == self.sysfs_spec(),
    {
        &self.sysfs
    }

    /// The summaries of the latest snapshot.
    pub fn devices(&self) -> (r: &[DeviceSummary])
        ensures
            r@ == self.snapshot().summaries@,
    {
        self.snapshot.summaries.as_slice()
    }

    /// The USB devices of the latest snapshot.
    pub fn usb_devices(&self) -> (r: &[UsbDevice])
        ensures
            r@ == self.snapshot().usb_devices@,
    {
        self.snapshot.usb_devices.as_slice()
    }

    /// The Type-C ports of the latest snapshot.
    pub fn typec_ports(&self) -> (r: &[TypeCPort])
        ensures
            r@ == self.snapshot().typec_ports@,
    {
        self.snapshot.typec_ports.as_slice()
    }

    /// The PD ports of the latest snapshot.
    pub fn pd_ports(&self) -> (r: &[PowerDeliveryPort])
        ensures
            r@ == self.snapshot().pd_ports@,
    {
        self.snapshot.pd_ports.as_slice()
    }

    /// The Thunderbolt / USB4 routers of the latest snapshot.
    pub fn thunderbolt_routers(&self) -> (r: &[ThunderboltRouter])
        ensures
            r@ == self.snapshot().thunderbolt_routers@,
    {
        self.snapshot.thunderbolt_routers.as_slice()
    }
}

} // verus!
