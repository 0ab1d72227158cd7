//! Properties of the library as a whole, stated over the models the
//! functions' contracts use, and proved.

use vstd::prelude::*;
use crate::bos::{parse_spec, verdict_of, walk, DataRateVerdict};
use crate::cable::decoded_cable;
use crate::classify::{
    classification, ethernet_driver, first_iface_class, phone, primary_driver_of, security_key,
    serial_driver, DeviceClass,
};
use crate::diagnostic::{bottleneck_of, diagnosis, first_active, Bottleneck};
use crate::pd::{cable_vdo_of, id_header_of, CableCurrent, CableSpeed, ProductType};
use crate::text::{dec_seq, lower_seq};
use crate::cable::CableInfo;
use crate::manager::{
    cable_decoded, degraded_of, first_linked, first_named, ids_of, listed_usb, pd_choice, pd_picked,
    port_entry, prev_warning, resolved_of, summaries_built, usb4_suffix, usb_match_of, warns,
};
use crate::thunderbolt::{usb4_link, ThunderboltRouter};
use crate::power::{
    any_fixed, any_window, best_fixed, first_window, fixed_candidate, inferred, mark_active, selects,
    window_candidate, PowerDataObject, PowerDeliveryPort,
};
use crate::summary::{
    advertised_sink, attached_status, charger_present, inference_mv, live_mw, props_view, role_of,
    sink_mw, source_mw, sourcing, summary_copy, summary_id, typec_diag, typec_fields, typec_props_of,
    usb_summary_of, DeviceSummary, PowerRole, Status,
};
use crate::typec::TypeCPort;
use crate::sysfs::{is_ws, strip_hex_prefix, trim_end_text, trim_start_text, trim_text, unsigned_text};
use crate::topology::{attach_target, attached_at, attached_range, depth_of, max_depth};
use crate::usb::{bit_set, quirk_list, UsbDevice, UsbInterface};
use crate::watch::{debounce_step, WaitResult};

verus! {

// ---- BOS decoding --------------------------------------------------------

proof fn lemma_walk_bound(blob: Seq<u8>, off: nat, end: nat, count: nat)
    requires
        count <= 64,
    ensures
        walk(blob, off, end, count).0.len() + count <= 64,
    decreases end - off,
{
    if off + 3 <= end {
        let len = blob[off as int] as nat;
        if !(len < 3 || off + len > end || blob[off + 1int] != crate::bos::DT_DEVICE_CAPABILITY
            || count >= 64) {
            lemma_walk_bound(blob, off + len, end, count + 1);
        }
    }
}

/// A decoded Binary Object Store never holds more than 64 capabilities,
/// however many descriptors the blob claims.
pub proof fn bos_capabilities_are_bounded(blob: Seq<u8>)
    ensures
        parse_spec(blob) matches Some(b) ==> b.caps.len() <= 64,
{
    if parse_spec(blob) is Some {
        let total = crate::bos::le16(blob[2], blob[3]);
        let end = if total < blob.len() {
            total
        } else {
            blob.len()
        };
        lemma_walk_bound(blob, 5, end, 0);
    }
}

/// A blob is decoded exactly when it starts with a BOS root descriptor;
/// one whose declared total length exceeds the bytes present is marked
/// truncated.
pub proof fn bos_root_descriptor_decides(blob: Seq<u8>)
    ensures
        parse_spec(blob) is Some <==> (blob.len() >= 5 && blob[0] == 5 && blob[1] == 0x0F),
        parse_spec(blob) matches Some(b) ==> (crate::bos::le16(blob[2], blob[3]) > blob.len()
            ==> b.truncated),
{
}

/// A link at or above the vendor's declared floor is never degraded, a
/// link at or above the advertised maximum is at capability, and without
/// a capability or a negotiated speed the verdict is unknown.
pub proof fn data_rate_verdicts(negotiated: nat, capable: nat, floor: Option<nat>)
    ensures
        (floor matches Some(f) && negotiated >= f) ==> verdict_of(negotiated, capable, floor)
            != DataRateVerdict::Degraded,
        floor is None ==> verdict_of(negotiated, capable, floor) != DataRateVerdict::Degraded,
        (capable > 0 && negotiated >= capable) ==> verdict_of(negotiated, capable, floor)
            == DataRateVerdict::AtCapability,
        (capable == 0 || negotiated == 0) ==> verdict_of(negotiated, capable, floor)
            == DataRateVerdict::Unknown,
{
}

// ---- PD contract inference --------------------------------------------

/// After an inference that selected PDO `i`, exactly that PDO is active.
pub proof fn inference_leaves_one_active(caps: Seq<PowerDataObject>, i: int)
    requires
        0 <= i < caps.len(),
    ensures
        forall|j: int|
            0 <= j < caps.len() ==> (#[trigger] mark_active(caps, i)[j]).is_active == (j == i),
        mark_active(caps, i).len() == caps.len(),
{
}

/// The selection does not depend on which PDOs were marked active before:
/// inferring again from the same voltage selects the same PDO and leaves
/// the list as the first inference left it.
pub proof fn inference_is_rerunnable(caps: Seq<PowerDataObject>, live: u32, i: int, k: int)
    requires
        selects(caps, live, i),
        0 <= k < caps.len(),
    ensures
        selects(mark_active(caps, k), live, i),
        mark_active(mark_active(caps, k), i) == mark_active(caps, i),
{
    let m = mark_active(caps, k);
    assert forall|j: int| 0 <= j < caps.len() implies (#[trigger] fixed_candidate(m[j], live)
        == fixed_candidate(caps[j], live) && window_candidate(m[j], live) == window_candidate(
        caps[j],
        live,
    ) && m[j].voltage_mv == caps[j].voltage_mv) by {}
    if best_fixed(caps, live, i) {
        assert(best_fixed(m, live, i));
    } else {
        assert(!any_fixed(m, live)) by {
            if any_fixed(m, live) {
                let j = choose|j: int| 0 <= j < m.len() && #[trigger] fixed_candidate(m[j], live);
                assert(fixed_candidate(caps[j], live));
            }
        }
        assert(first_window(m, live, i));
    }
    assert(mark_active(m, i) =~= mark_active(caps, i));
}

/// A fixed PDO within tolerance is preferred to any PPS or variable
/// window that also covers the voltage.
pub proof fn fixed_beats_windowed(caps: Seq<PowerDataObject>, live: u32, i: int)
    requires
        selects(caps, live, i),
        any_fixed(caps, live),
    ensures
        fixed_candidate(caps[i], live),
{
}

// ---- Charging diagnostic ------------------------------------------------

/// Only a cable rated below the charger is a warning; a cable limit wins
/// over a low contract and over a sink asking for little, and a low
/// contract wins over a sink asking for little.
pub proof fn diagnostic_precedence(charger_w: nat, active_w: nat, cable_w: nat, requested_w: nat)
    ensures
        (0 < cable_w < charger_w) ==> bottleneck_of(charger_w, active_w, cable_w, requested_w)
            == Bottleneck::CableLimit,
        !(0 < cable_w < charger_w) && active_w > 0 && 5 * active_w < 4 * charger_w
            ==> bottleneck_of(charger_w, active_w, cable_w, requested_w) == Bottleneck::DeviceLimit,
        bottleneck_of(charger_w, active_w, cable_w, requested_w) != Bottleneck::NoCharger,
        bottleneck_of(charger_w, active_w, cable_w, requested_w) != Bottleneck::ChargerLimit,
{
}

// ---- Port power summary ------------------------------------------------

/// Power flowing into the host means the port is charging and sinks;
/// power flowing out means it is sourcing; never both.
pub proof fn power_flow_matches_role(port: TypeCPort, pd: Option<PowerDeliveryPort>)
    ensures
        sink_mw(port, pd) > 0 ==> attached_status(port, pd) == Status::Charging && role_of(
            port,
            pd,
        ) == PowerRole::Sink,
        source_mw(port, pd) > 0 ==> attached_status(port, pd) == Status::Sourcing && role_of(
            port,
            pd,
        ) == PowerRole::Source,
        !(sink_mw(port, pd) > 0 && source_mw(port, pd) > 0),
{
    if sink_mw(port, pd) > 0 && !sourcing(port, pd) && live_mw(port) is None {
        assert(advertised_sink(pd) > 0);
        assert(charger_present(pd));
    }
}

// ---- Pairing PD ports with Type-C ports ---------------------------------

proof fn lemma_first_named_hit(pd: Seq<PowerDeliveryPort>, name: Seq<char>, from: int)
    ensures
        first_named(pd, name, from) matches Some(j) ==> from <= j < pd.len() && pd[j].name@
            == name,
    decreases pd.len() - from,
{
    if 0 <= from < pd.len() && pd[from].name@ != name {
        lemma_first_named_hit(pd, name, from + 1);
    }
}

proof fn lemma_first_linked_hit(pd: Seq<PowerDeliveryPort>, pn: i32, from: int)
    ensures
        first_linked(pd, pn, from) matches Some(j) ==> from <= j < pd.len()
            && pd[j].parent_port_number >= 0 && pd[j].parent_port_number == pn,
    decreases pd.len() - from,
{
    if 0 <= from < pd.len() && !(pd[from].parent_port_number >= 0 && pd[from].parent_port_number
        == pn) {
        lemma_first_linked_hit(pd, pn, from + 1);
    }
}

/// A PD port is paired with a Type-C port only through the partner's PD
/// link, a non-negative linked port number equal to the port's, or as the
/// only PD port of a single-port system: an unlinked PD port (`-1`) never
/// pairs with port 0 on a multi-port system.
pub proof fn pd_pairing_is_justified(tc: TypeCPort, pd: Seq<PowerDeliveryPort>, n_ports: nat)
    ensures
        pd_choice(tc, pd, n_ports) matches Some(j) ==> 0 <= j < pd.len() && ((tc.partner is Some
            && tc.partner->0.pd_name@.len() > 0 && pd[j].name@ == tc.partner->0.pd_name@) || (
        pd[j].parent_port_number >= 0 && pd[j].parent_port_number == tc.port_number) || (pd.len()
            == 1 && n_ports == 1)),
{
    match tc.partner {
        Some(pa) => lemma_first_named_hit(pd, pa.pd_name@, 0),
        None => {},
    }
    lemma_first_linked_hit(pd, tc.port_number, 0);
}

/// The partner's PD link wins: when it names a PD port, that port is the
/// one paired, whatever the linked port numbers say.
pub proof fn pd_link_wins(tc: TypeCPort, pd: Seq<PowerDeliveryPort>, n_ports: nat, j: int)
    requires
        tc.partner is Some,
        tc.partner->0.pd_name@.len() > 0,
        0 <= j < pd.len(),
        pd[j].name@ == tc.partner->0.pd_name@,
        forall|k: int| 0 <= k < j ==> pd[k].name@ != tc.partner->0.pd_name@,
    ensures
        pd_choice(tc, pd, n_ports) == Some(j),
{
    lemma_named_from(pd, tc.partner->0.pd_name@, 0, j);
}

proof fn lemma_named_from(pd: Seq<PowerDeliveryPort>, name: Seq<char>, from: int, j: int)
    requires
        0 <= from <= j < pd.len(),
        pd[j].name@ == name,
        forall|k: int| from <= k < j ==> pd[k].name@ != name,
    ensures
        first_named(pd, name, from) == Some(j),
    decreases j - from,
{
    if from < j {
        lemma_named_from(pd, name, from + 1, j);
    }
}

// ---- Snapshot diff ------------------------------------------------------

proof fn lemma_filter_none(s: Seq<Seq<char>>, t: Seq<Seq<char>>)
    requires
        forall|i: int| 0 <= i < s.len() ==> t.contains(#[trigger] s[i]),
    ensures
        s.filter(|x: Seq<char>| !t.contains(x)).len() == 0,
    decreases s.len(),
{
    reveal(Seq::filter);
    if s.len() > 0 {
        lemma_filter_none(s.drop_last(), t);
        assert(t.contains(s[s.len() - 1]));
    }
}

/// Type-C summaries of `ss` for port `pn` all agree on whether they warn.
pub open spec fn consistent_ports(ss: Seq<DeviceSummary>) -> bool {
    forall|a: int, b: int|
        0 <= a < ss.len() && 0 <= b < ss.len() && (#[trigger] ss[a]).typec_port is Some
            && (#[trigger] ss[b]).typec_port is Some && ss[a].typec_port->0.port_number
            == ss[b].typec_port->0.port_number ==> warns(ss[a]) == warns(ss[b])
}

proof fn lemma_prev_warning_of_member(ss: Seq<DeviceSummary>, i: int)
    requires
        consistent_ports(ss),
        0 <= i < ss.len(),
        ss[i].typec_port is Some,
    ensures
        prev_warning(ss, ss[i].typec_port->0.port_number) == Some(warns(ss[i])),
    decreases ss.len(),
{
    let pn = ss[i].typec_port->0.port_number;
    let last = ss.last();
    if last.typec_port matches Some(p) && p.port_number == pn {
        assert(warns(ss[ss.len() - 1]) == warns(ss[i]));
    } else {
        assert(i < ss.len() - 1);
        let rest = ss.drop_last();
        assert(rest[i] == ss[i]);
        assert(consistent_ports(rest)) by {
            assert forall|a: int, b: int|
                0 <= a < rest.len() && 0 <= b < rest.len() && (#[trigger] rest[a]).typec_port is Some
                    && (#[trigger] rest[b]).typec_port is Some && rest[a].typec_port->0.port_number
                    == rest[b].typec_port->0.port_number implies warns(rest[a]) == warns(rest[b]) by {
                assert(rest[a] == ss[a]);
                assert(rest[b] == ss[b]);
            }
        }
        lemma_prev_warning_of_member(rest, i);
    }
}

proof fn lemma_no_flips(cur: Seq<DeviceSummary>, all: Seq<DeviceSummary>)
    requires
        consistent_ports(all),
        cur.len() <= all.len(),
        forall|i: int| 0 <= i < cur.len() ==> cur[i] == all[i],
    ensures
        degraded_of(cur, all).len() == 0,
        resolved_of(cur, all).len() == 0,
    decreases cur.len(),
{
    if cur.len() > 0 {
        lemma_no_flips(cur.drop_last(), all);
        let i = cur.len() - 1;
        if cur.last().typec_port is Some {
            lemma_prev_warning_of_member(all, i);
        }
    }
}

/// A snapshot compared with itself reports nothing, provided no two of its
/// Type-C summaries for the same port disagree on warning.
pub proof fn diff_with_itself_is_empty(ss: Seq<DeviceSummary>)
    requires
        consistent_ports(ss),
    ensures
        ids_of(ss).filter(|t: Seq<char>| !ids_of(ss).contains(t)).len() == 0,
        degraded_of(ss, ss).len() == 0,
        resolved_of(ss, ss).len() == 0,
{
    let ids = ids_of(ss);
    assert forall|i: int| 0 <= i < ids.len() implies ids.contains(#[trigger] ids[i]) by {}
    lemma_filter_none(ids, ids);
    lemma_no_flips(ss, ss);
}

/// Two summary lists that agree entry by entry on Type-C port and warning.
pub open spec fn same_warnings(a: Seq<DeviceSummary>, b: Seq<DeviceSummary>) -> bool {
    &&& a.len() == b.len()
    &&& forall|i: int|
        0 <= i < a.len() ==> {
            &&& ((#[trigger] a[i]).typec_port is Some <==> b[i].typec_port is Some)
            &&& (a[i].typec_port is Some ==> a[i].typec_port->0.port_number
                == b[i].typec_port->0.port_number)
            &&& warns(a[i]) == warns(b[i])
        }
}

proof fn lemma_prev_warning_same(a: Seq<DeviceSummary>, b: Seq<DeviceSummary>, pn: i32)
    requires
        same_warnings(a, b),
    ensures
        prev_warning(a, pn) == prev_warning(b, pn),
    decreases a.len(),
{
    if a.len() > 0 {
        let (ra, rb) = (a.drop_last(), b.drop_last());
        assert(same_warnings(ra, rb)) by {
            assert forall|i: int| 0 <= i < ra.len() implies #[trigger] ra[i] == a[i] && rb[i]
                == b[i] by {}
        }
        assert(a.last() == a[a.len() - 1]);
        assert(b.last() == b[b.len() - 1]);
        lemma_prev_warning_same(ra, rb, pn);
    }
}

proof fn lemma_changes_against_same(cur: Seq<DeviceSummary>, a: Seq<DeviceSummary>, b: Seq<DeviceSummary>)
    requires
        same_warnings(a, b),
    ensures
        degraded_of(cur, a) == degraded_of(cur, b),
        resolved_of(cur, a) == resolved_of(cur, b),
    decreases cur.len(),
{
    if cur.len() > 0 {
        lemma_changes_against_same(cur.drop_last(), a, b);
        if cur.last().typec_port is Some {
            lemma_prev_warning_same(a, b, cur.last().typec_port->0.port_number);
        }
    }
}

/// A snapshot's summaries compared with a copy of them report nothing,
/// provided no two of its Type-C summaries for the same port disagree on
/// warning: no id is added or removed, no port degrades or recovers.
pub proof fn diff_with_copy_is_empty(cur: Seq<DeviceSummary>, copy: Seq<DeviceSummary>)
    requires
        consistent_ports(cur),
        copy.len() == cur.len(),
        forall|i: int| 0 <= i < cur.len() ==> summary_copy(#[trigger] copy[i], cur[i]),
    ensures
        ids_of(cur).filter(|t: Seq<char>| !ids_of(copy).contains(t)).len() == 0,
        ids_of(copy).filter(|t: Seq<char>| !ids_of(cur).contains(t)).len() == 0,
        degraded_of(cur, copy).len() == 0,
        resolved_of(cur, copy).len() == 0,
{
    assert(ids_of(copy) =~= ids_of(cur)) by {
        assert forall|i: int| 0 <= i < cur.len() implies ids_of(copy)[i] == ids_of(cur)[i] by {
            assert(summary_copy(copy[i], cur[i]));
        }
    }
    assert(same_warnings(copy, cur)) by {
        assert forall|i: int| 0 <= i < copy.len() implies {
            &&& ((#[trigger] copy[i]).typec_port is Some <==> cur[i].typec_port is Some)
            &&& (copy[i].typec_port is Some ==> copy[i].typec_port->0.port_number
                == cur[i].typec_port->0.port_number)
            &&& warns(copy[i]) == warns(cur[i])
        } by {
            assert(summary_copy(copy[i], cur[i]));
        }
    }
    lemma_changes_against_same(cur, copy, cur);
    diff_with_itself_is_empty(cur);
}

proof fn lemma_changes_of_same(a: Seq<DeviceSummary>, b: Seq<DeviceSummary>, prev: Seq<DeviceSummary>)
    requires
        same_warnings(a, b),
    ensures
        degraded_of(a, prev) == degraded_of(b, prev),
        resolved_of(a, prev) == resolved_of(b, prev),
    decreases a.len(),
{
    if a.len() > 0 {
        let (ra, rb) = (a.drop_last(), b.drop_last());
        assert(same_warnings(ra, rb)) by {
            assert forall|i: int| 0 <= i < ra.len() implies #[trigger] ra[i] == a[i] && rb[i]
                == b[i] by {}
        }
        assert(a.last() == a[a.len() - 1]);
        assert(b.last() == b[b.len() - 1]);
        lemma_changes_of_same(ra, rb, prev);
    }
}

/// The live voltage selects at most one PDO.
proof fn lemma_selects_unique(caps: Seq<PowerDataObject>, live: u32, i: int, k: int)
    requires
        selects(caps, live, i),
        selects(caps, live, k),
    ensures
        i == k,
{
    if best_fixed(caps, live, i) && best_fixed(caps, live, k) {
        assert(fixed_candidate(caps[i], live) && fixed_candidate(caps[k], live));
    } else if best_fixed(caps, live, i) {
        assert(fixed_candidate(caps[i], live));
    } else if best_fixed(caps, live, k) {
        assert(fixed_candidate(caps[k], live));
    } else {
        if i < k {
            assert(!window_candidate(caps[i], live));
        } else if k < i {
            assert(!window_candidate(caps[k], live));
        }
    }
}

/// Inference from one voltage on two copies of a PD port leaves the same
/// source PDOs and charger maximum.
proof fn lemma_inference_deterministic(
    p1: PowerDeliveryPort,
    q1: PowerDeliveryPort,
    p2: PowerDeliveryPort,
    q2: PowerDeliveryPort,
    live: u32,
)
    requires
        p1.source_capabilities@ == p2.source_capabilities@,
        p1.max_source_power_mw == p2.max_source_power_mw,
        inferred(p1, q1, live),
        inferred(p2, q2, live),
    ensures
        q1.source_capabilities@ == q2.source_capabilities@,
        q1.max_source_power_mw == q2.max_source_power_mw,
{
    let caps = p1.source_capabilities@;
    if exists|i: int| #[trigger] selects(caps, live, i) {
        let i = choose|i: int| #[trigger] selects(caps, live, i);
        assert(any_fixed(caps, live) || any_window(caps, live)) by {
            if best_fixed(caps, live, i) {
                assert(fixed_candidate(caps[i], live));
            } else {
                assert(window_candidate(caps[i], live));
            }
        }
        let i1 = choose|i1: int|
            #[trigger] selects(p1.source_capabilities@, live, i1)
                && q1.source_capabilities@ == mark_active(p1.source_capabilities@, i1)
                && q1.max_source_power_mw == p1.max_source_power_mw;
        let i2 = choose|i2: int|
            #[trigger] selects(p2.source_capabilities@, live, i2)
                && q2.source_capabilities@ == mark_active(p2.source_capabilities@, i2)
                && q2.max_source_power_mw == p2.max_source_power_mw;
        lemma_selects_unique(caps, live, i1, i2);
    }
}

/// The entries that two builds from the same inputs give for the `i`th
/// Type-C port have the same id, port and warning.
proof fn lemma_port_entries_agree(
    usb: Seq<UsbDevice>,
    ports: Seq<TypeCPort>,
    pd: Seq<PowerDeliveryPort>,
    tb: Seq<ThunderboltRouter>,
    i: int,
    s1: DeviceSummary,
    s2: DeviceSummary,
)
    requires
        0 <= i < ports.len(),
        port_entry(usb, ports, pd, tb, i, s1),
        port_entry(usb, ports, pd, tb, i, s2),
    ensures
        summary_id(s1) == summary_id(s2),
        s1.typec_port is Some && s2.typec_port is Some,
        s1.typec_port->0.port_number == s2.typec_port->0.port_number,
        warns(s1) == warns(s2),
{
    let tc = ports[i];
    let um = usb_match_of(tc, usb);
    let choice = pd_choice(tc, pd, ports.len() as nat);
    let (p1, c1) = choose|p: Option<PowerDeliveryPort>, c: Option<CableInfo>|
        #![trigger typec_fields(tc, p, c, um, s1)]
        pd_picked(p, choice, pd) && cable_decoded(c, tc.cable) && typec_fields(tc, p, c, um, s1)
            && props_view(s1.properties@) == typec_props_of(tc, um, c, s1.power_delivery)
            + usb4_suffix(usb4_link(tb) && tc.partner is Some);
    let (p2, c2) = choose|p: Option<PowerDeliveryPort>, c: Option<CableInfo>|
        #![trigger typec_fields(tc, p, c, um, s2)]
        pd_picked(p, choice, pd) && cable_decoded(c, tc.cable) && typec_fields(tc, p, c, um, s2)
            && props_view(s2.properties@) == typec_props_of(tc, um, c, s2.power_delivery)
            + usb4_suffix(usb4_link(tb) && tc.partner is Some);
    if tc.partner is Some || tc.cable is Some {
        let (a1, a2) = (s1.power_delivery, s2.power_delivery);
        let cw1: nat = match c1 {
            Some(c) => c.max_watts as nat,
            None => 0,
        };
        let cw2: nat = match c2 {
            Some(c) => c.max_watts as nat,
            None => 0,
        };
        assert(cw1 == cw2);
        match (p1, p2) {
            (Some(q1), Some(q2)) => {
                let (b1, b2) = (a1->0, a2->0);
                match inference_mv(tc) {
                    Some(v) => {
                        lemma_inference_deterministic(q1, b1, q2, b2, v);
                    },
                    None => {},
                }
                assert(b1.source_capabilities@ == b2.source_capabilities@);
                assert(advertised_sink(a1) == advertised_sink(a2));
                assert(typec_diag(tc, a1, c1) == typec_diag(tc, a2, c2));
            },
            _ => {
                assert(a1 is None && a2 is None);
            },
        }
    }
}

/// Two builds from the same inputs agree entry by entry on id, port and
/// warning.
proof fn lemma_builds_agree(
    usb: Seq<UsbDevice>,
    ports: Seq<TypeCPort>,
    pd: Seq<PowerDeliveryPort>,
    tb: Seq<ThunderboltRouter>,
    r1: Seq<DeviceSummary>,
    r2: Seq<DeviceSummary>,
)
    requires
        summaries_built(usb, ports, pd, tb, r1),
        summaries_built(usb, ports, pd, tb, r2),
    ensures
        ids_of(r1) == ids_of(r2),
        same_warnings(r2, r1),
{
    let n = ports.len();
    assert forall|i: int| 0 <= i < r1.len() implies summary_id(#[trigger] r1[i]) == summary_id(r2[i])
        && (r2[i].typec_port is Some <==> r1[i].typec_port is Some) && (r2[i].typec_port is Some
        ==> r2[i].typec_port->0.port_number == r1[i].typec_port->0.port_number) && warns(r2[i])
        == warns(r1[i]) by {
        if i < n {
            lemma_port_entries_agree(usb, ports, pd, tb, i, r1[i], r2[i]);
        } else {
            let k = i - n;
            assert(r1[n + k] == r1[i] && r2[n + k] == r2[i]);
            assert(usb_summary_of(listed_usb(usb)[k], r1[i]));
            assert(usb_summary_of(listed_usb(usb)[k], r2[i]));
        }
    }
    assert(ids_of(r1) =~= ids_of(r2));
}

/// Building the summaries again from unchanged inputs and diffing them
/// against a copy of the earlier build reports nothing: no id is added or
/// removed, no port degrades or recovers. This is what a second refresh
/// over an unchanged tree reports. It needs the earlier build's Type-C
/// summaries for one port number to agree on warning (two ports can share
/// a number only when their names carry none).
pub proof fn rebuilding_reports_nothing(
    usb: Seq<UsbDevice>,
    ports: Seq<TypeCPort>,
    pd: Seq<PowerDeliveryPort>,
    tb: Seq<ThunderboltRouter>,
    first: Seq<DeviceSummary>,
    baseline: Seq<DeviceSummary>,
    second: Seq<DeviceSummary>,
)
    requires
        summaries_built(usb, ports, pd, tb, first),
        summaries_built(usb, ports, pd, tb, second),
        consistent_ports(first),
        baseline.len() == first.len(),
        forall|i: int| 0 <= i < first.len() ==> summary_copy(#[trigger] baseline[i], first[i]),
    ensures
        ids_of(second).filter(|t: Seq<char>| !ids_of(baseline).contains(t)).len() == 0,
        ids_of(baseline).filter(|t: Seq<char>| !ids_of(second).contains(t)).len() == 0,
        degraded_of(second, baseline).len() == 0,
        resolved_of(second, baseline).len() == 0,
{
    diff_with_copy_is_empty(first, baseline);
    lemma_builds_agree(usb, ports, pd, tb, first, second);
    lemma_changes_of_same(second, first, baseline);
}

// ---- PD VDO decoding ----------------------------------------------------

proof fn lemma_pow2_fields()
    ensures
        vstd::arithmetic::power2::pow2(0) == 1,
        vstd::arithmetic::power2::pow2(1) == 2,
        vstd::arithmetic::power2::pow2(2) == 4,
        vstd::arithmetic::power2::pow2(3) == 8,
        vstd::arithmetic::power2::pow2(4) == 16,
        vstd::arithmetic::power2::pow2(5) == 32,
        vstd::arithmetic::power2::pow2(9) == 512,
        vstd::arithmetic::power2::pow2(16) == 0x10000,
        vstd::arithmetic::power2::pow2(23) == 0x80_0000,
        vstd::arithmetic::power2::pow2(26) == 0x400_0000,
        vstd::arithmetic::power2::pow2(27) == 0x800_0000,
        vstd::arithmetic::power2::pow2(30) == 0x4000_0000,
        vstd::arithmetic::power2::pow2(31) == 0x8000_0000,
{
    vstd::arithmetic::power2::lemma2_to64();
}

/// The Cable VDO speed field (bits 2..0) reads, by the USB-PD encoding:
/// 0 USB 2.0, 1 USB 3.2 Gen 1, 2 USB 3.2 Gen 2, 3 USB4 Gen 3, 4 USB4 Gen 4,
/// and the reserved 5..7 as USB 2.0.
pub proof fn cable_speed_encoding(vdo: u32, is_active: bool)
    ensures
        vdo % 8 == 0 ==> cable_vdo_of(vdo, is_active).speed == CableSpeed::Usb20,
        vdo % 8 == 1 ==> cable_vdo_of(vdo, is_active).speed == CableSpeed::Usb32Gen1,
        vdo % 8 == 2 ==> cable_vdo_of(vdo, is_active).speed == CableSpeed::Usb32Gen2,
        vdo % 8 == 3 ==> cable_vdo_of(vdo, is_active).speed == CableSpeed::Usb4Gen3,
        vdo % 8 == 4 ==> cable_vdo_of(vdo, is_active).speed == CableSpeed::Usb4Gen4,
        vdo % 8 >= 5 ==> cable_vdo_of(vdo, is_active).speed == CableSpeed::Usb20,
{
    lemma_pow2_fields();
}

/// The Cable VDO's current field (bits 6..5: 1 is 3 A, 2 is 5 A, else the
/// USB default), VBUS field (bits 10..9: 20, 30, 40 or 50 V), VBUS-through
/// bit 4 and the active flag; the rating in whole watts is the voltage
/// times 0.9 A, 3 A or 5 A, rounded down.
pub proof fn cable_rating_encoding(vdo: u32, is_active: bool)
    ensures
        ({
            let c = cable_vdo_of(vdo, is_active);
            let cur = (vdo / 32) % 4;
            let volts = (vdo / 512) % 4;
            &&& cur == 1 ==> c.current_rating == CableCurrent::ThreeAmp
            &&& cur == 2 ==> c.current_rating == CableCurrent::FiveAmp
            &&& (cur == 0 || cur == 3) ==> c.current_rating == CableCurrent::UsbDefault
            &&& volts == 0 ==> c.max_vbus_volts == 20
            &&& volts == 1 ==> c.max_vbus_volts == 30
            &&& volts == 2 ==> c.max_vbus_volts == 40
            &&& volts == 3 ==> c.max_vbus_volts == 50
            &&& c.vbus_through_cable == ((vdo / 16) % 2 == 1)
            &&& c.is_active == is_active
            &&& (cur == 1 && volts == 0) ==> c.max_watts == 60
            &&& (cur == 2 && volts == 0) ==> c.max_watts == 100
            &&& (cur == 2 && volts == 3) ==> c.max_watts == 250
            &&& ((cur == 0 || cur == 3) && volts == 0) ==> c.max_watts == 18
            &&& c.current_rating == CableCurrent::ThreeAmp ==> c.max_watts == 3 * c.max_vbus_volts
            &&& c.current_rating == CableCurrent::FiveAmp ==> c.max_watts == 5 * c.max_vbus_volts
            &&& c.current_rating == CableCurrent::UsbDefault ==> c.max_watts == c.max_vbus_volts
                * 9 / 10
        }),
{
    lemma_pow2_fields();
}

/// The ID Header's product types: bits 29..27 in the UFP role (1 hub,
/// 2 peripheral, 3 passive cable, 4 active cable, 5 alternate-mode
/// adapter, 6 VCONN-powered device, else none) and bits 25..23 in the DFP
/// role (1 hub, 2 peripheral, else none); bits 31, 30 and 26 are the host,
/// device and modal flags and bits 15..0 the vendor.
pub proof fn id_header_encoding(vdo: u32)
    ensures
        ({
            let h = id_header_of(vdo);
            let ufp = (vdo / 0x800_0000) % 8;
            let dfp = (vdo / 0x80_0000) % 8;
            &&& ufp == 1 ==> h.ufp_product_type == Some(ProductType::Hub)
            &&& ufp == 2 ==> h.ufp_product_type == Some(ProductType::Peripheral)
            &&& ufp == 3 ==> h.ufp_product_type == Some(ProductType::PassiveCable)
            &&& ufp == 4 ==> h.ufp_product_type == Some(ProductType::ActiveCable)
            &&& ufp == 5 ==> h.ufp_product_type == Some(ProductType::Ama)
            &&& ufp == 6 ==> h.ufp_product_type == Some(ProductType::Vpd)
            &&& (ufp == 0 || ufp == 7) ==> h.ufp_product_type is None
            &&& dfp == 1 ==> h.dfp_product_type == Some(ProductType::Hub)
            &&& dfp == 2 ==> h.dfp_product_type == Some(ProductType::Peripheral)
            &&& (dfp == 0 || dfp >= 3) ==> h.dfp_product_type is None
            &&& h.usb_comm_capable_as_host == ((vdo / 0x8000_0000) % 2 == 1)
            &&& h.usb_comm_capable_as_device == ((vdo / 0x4000_0000) % 2 == 1)
            &&& h.modal_operation == ((vdo / 0x400_0000) % 2 == 1)
            &&& h.vendor_id == vdo % 0x10000
        }),
{
    lemma_pow2_fields();
}

/// Distinct UFP product-type codes decode to distinct product types: a
/// peripheral never reads as a hub.
pub proof fn ufp_types_are_distinct(a: u32, b: u32)
    requires
        1 <= (a / 0x800_0000) % 8 <= 6,
        1 <= (b / 0x800_0000) % 8 <= 6,
        (a / 0x800_0000) % 8 != (b / 0x800_0000) % 8,
    ensures
        id_header_of(a).ufp_product_type != id_header_of(b).ufp_product_type,
{
    id_header_encoding(a);
    id_header_encoding(b);
}

/// A cable with a Cable VDO (the fourth identity VDO) takes its speed,
/// current and watts from that VDO and is active exactly when the ID
/// Header's UFP product type is an active cable (code 4); without an
/// identity it has no speed or rating and the `type` string decides.
pub proof fn cable_decoding_reads_the_cable_vdo(
    cable_type: Seq<char>,
    plug_type: Seq<char>,
    vid: u16,
    vdos: Seq<u32>,
)
    ensures
        vdos.len() >= 4 ==> {
            let c = decoded_cable(cable_type, plug_type, Some((vid, vdos)));
            let sp = vdos[3] % 8;
            let cur = (vdos[3] / 32) % 4;
            let volts = (vdos[3] / 512) % 4;
            &&& sp == 1 ==> c.speed == Some(CableSpeed::Usb32Gen1)
            &&& sp == 2 ==> c.speed == Some(CableSpeed::Usb32Gen2)
            &&& sp == 3 ==> c.speed == Some(CableSpeed::Usb4Gen3)
            &&& sp == 4 ==> c.speed == Some(CableSpeed::Usb4Gen4)
            &&& (sp == 0 || sp >= 5) ==> c.speed == Some(CableSpeed::Usb20)
            &&& cur == 1 ==> c.current_rating == Some(CableCurrent::ThreeAmp)
            &&& cur == 2 ==> c.current_rating == Some(CableCurrent::FiveAmp)
            &&& (cur == 1 && volts == 0) ==> c.max_watts == 60
            &&& (cur == 2 && volts == 0) ==> c.max_watts == 100
            &&& c.is_active <==> (vdos[0] / 0x800_0000) % 8 == 4
            &&& c.is_passive <==> !c.is_active
            &&& c.vendor_id == vid
        },
        ({
            let c = decoded_cable(cable_type, plug_type, None);
            &&& c.speed is None
            &&& c.current_rating is None
            &&& c.max_watts == 0
            &&& c.is_active <==> cable_type == "active"@
            &&& c.is_passive <==> cable_type == "passive"@
        }),
{
    if vdos.len() >= 4 {
        id_header_encoding(vdos[0]);
        cable_speed_encoding(vdos[3], (vdos[0] / 0x800_0000) % 8 == 4);
        cable_rating_encoding(vdos[3], (vdos[0] / 0x800_0000) % 8 == 4);
    }
}

// ---- Charging diagnosis, in terms of the port ----------------------------

proof fn lemma_first_active_at(caps: Seq<PowerDataObject>, i: int)
    requires
        0 <= i < caps.len(),
        caps[i].is_active,
        forall|j: int| 0 <= j < i ==> !(#[trigger] caps[j]).is_active,
    ensures
        first_active(caps) == Some(caps[i]),
    decreases i,
{
    if i > 0 {
        let rest = caps.drop_first();
        assert forall|j: int| 0 <= j < i - 1 implies !(#[trigger] rest[j]).is_active by {
            assert(rest[j] == caps[j + 1]);
        }
        lemma_first_active_at(rest, i - 1);
    }
}

proof fn lemma_first_active_none(caps: Seq<PowerDataObject>)
    requires
        forall|j: int| 0 <= j < caps.len() ==> !(#[trigger] caps[j]).is_active,
    ensures
        first_active(caps) is None,
    decreases caps.len(),
{
    if caps.len() > 0 {
        let rest = caps.drop_first();
        assert forall|j: int| 0 <= j < rest.len() implies !(#[trigger] rest[j]).is_active by {
            assert(rest[j] == caps[j + 1]);
        }
        lemma_first_active_none(rest);
    }
}

/// The diagnosis of a charger whose contracted PDO (the first marked
/// active, `i`) carries at least 1 W. With `c` the charger maximum and `a`
/// the contract in whole watts: a cable rated under `c` limits charging
/// and is the only warning; else a contract under 80% of `c` is reported;
/// else a sink asking for under 80% of `a`; else charging is fine at `a`
/// watts, the contract, whatever the charger's maximum.
pub proof fn diagnosis_reports_the_contract(
    pd: PowerDeliveryPort,
    cable_w: nat,
    requested_mw: u32,
    i: int,
)
    requires
        pd.max_source_power_mw >= 1000,
        0 <= i < pd.source_capabilities@.len(),
        pd.source_capabilities@[i].is_active,
        forall|j: int| 0 <= j < i ==> !(#[trigger] pd.source_capabilities@[j]).is_active,
        pd.source_capabilities@[i].power_mw >= 1000,
    ensures
        ({
            let c = (pd.max_source_power_mw / 1000) as nat;
            let a = (pd.source_capabilities@[i].power_mw / 1000) as nat;
            let req = (requested_mw / 1000) as nat;
            let d = diagnosis(pd, cable_w, requested_mw);
            let t = d->0;
            &&& d is Some
            &&& t.1 <==> (0 < cable_w < c)
            &&& (0 < cable_w < c) ==> t.0 == Bottleneck::CableLimit && t.2
                == "Cable is limiting charging speed"@ && t.3 == "Cable rated for "@ + dec_seq(
                cable_w,
            ) + "W, but charger can deliver "@ + dec_seq(c) + "W"@
            &&& (!(0 < cable_w < c) && 5 * a < 4 * c) ==> t.0 == Bottleneck::DeviceLimit && t.2
                == "Contract limited to "@ + dec_seq(a) + "W"@
            &&& (!(0 < cable_w < c) && 5 * a >= 4 * c && req > 0 && 5 * req < 4 * a) ==> t.0
                == Bottleneck::SinkLimit && t.2 == "Device is limiting its draw to "@ + dec_seq(req)
                + "W"@
            &&& (!(0 < cable_w < c) && 5 * a >= 4 * c && !(req > 0 && 5 * req < 4 * a)) ==> t.0
                == Bottleneck::Fine && t.2 == "Charging at up to "@ + dec_seq(a) + "W"@
        }),
{
    lemma_first_active_at(pd.source_capabilities@, i);
}

/// Without a contracted PDO the diagnosis measures against the charger's
/// maximum: a fine charger is reported at that maximum. No diagnosis comes
/// without source PDOs or with a maximum under 1 W.
pub proof fn diagnosis_without_contract(pd: PowerDeliveryPort, cable_w: nat, requested_mw: u32)
    ensures
        (pd.source_capabilities@.len() == 0 || pd.max_source_power_mw < 1000) ==> diagnosis(
            pd,
            cable_w,
            requested_mw,
        ) is None,
        (pd.source_capabilities@.len() > 0 && pd.max_source_power_mw >= 1000 && (forall|j: int|
            0 <= j < pd.source_capabilities@.len() ==> !(#[trigger] pd.source_capabilities@[j]).is_active)
            && cable_w == 0 && requested_mw == 0) ==> diagnosis(pd, cable_w, requested_mw) == Some(
            (
                Bottleneck::Fine,
                false,
                "Charging at up to "@ + dec_seq((pd.max_source_power_mw / 1000) as nat) + "W"@,
                Seq::<char>::empty(),
            ),
        ),
{
    if forall|j: int|
        0 <= j < pd.source_capabilities@.len() ==> !(#[trigger] pd.source_capabilities@[j]).is_active {
        lemma_first_active_none(pd.source_capabilities@);
    }
}

// ---- USB classification ----------------------------------------------------

/// A hub is classified as a hub, whatever else it reports.
pub proof fn hubs_classify_as_hubs(vid: u16, product: Seq<char>, ifaces: Seq<UsbInterface>)
    ensures
        classification(true, vid, product, ifaces) == (DeviceClass::Hub, Seq::<char>::empty()),
{
}

/// A device that nothing earlier settles (not a hub, security key or
/// phone, no interface of a settling class, no serial or network driver)
/// and that has a HID boot-keyboard interface (class 0x03, protocol 1) is
/// a keyboard, whatever other HID interfaces it has; failing that, one
/// with a HID boot-mouse interface (protocol 2) is a mouse.
pub proof fn boot_keyboard_precedes_mouse(
    vid: u16,
    product: Seq<char>,
    ifaces: Seq<UsbInterface>,
    k: int,
)
    requires
        !security_key(vid, lower_seq(product)),
        !phone(vid, lower_seq(product), ifaces),
        first_iface_class(ifaces, lower_seq(product)) is None,
        !serial_driver(lower_seq(primary_driver_of(ifaces))),
        !ethernet_driver(lower_seq(primary_driver_of(ifaces))),
        0 <= k < ifaces.len(),
        ifaces[k].class_code == 0x03,
        ifaces[k].protocol == 1 || ifaces[k].protocol == 2,
    ensures
        ifaces[k].protocol == 1 ==> classification(false, vid, product, ifaces) == (
            DeviceClass::Keyboard,
            Seq::<char>::empty(),
        ),
        (forall|j: int|
            0 <= j < ifaces.len() && (#[trigger] ifaces[j]).class_code == 0x03 ==> ifaces[j].protocol
                != 1) ==> classification(false, vid, product, ifaces) == (
            DeviceClass::Mouse,
            Seq::<char>::empty(),
        ),
{
    assert(ifaces[k].class_code == 0x03);
}

/// Yubico (0x1050) and Nitrokey (0x20A0) devices that are not hubs are
/// security keys, whatever HID interfaces they advertise.
pub proof fn token_vendors_are_security_keys(vid: u16, product: Seq<char>, ifaces: Seq<UsbInterface>)
    requires
        vid == 0x1050 || vid == 0x20A0,
    ensures
        classification(false, vid, product, ifaces).0 == DeviceClass::SecurityKey,
{
}

/// When nothing earlier settles it (not a hub, security key or phone), the
/// first interface's class decides: 0x0B smartcard reader, 0x07 printer,
/// 0x08 storage, 0x01 audio, 0x0E camera or capture device, 0xE0
/// Bluetooth (subclass 1, protocol 1) or other wireless, 0x02/0x06 wired
/// network, 0x02/0x02 serial.
pub proof fn first_interface_class_decides(vid: u16, product: Seq<char>, ifaces: Seq<UsbInterface>)
    requires
        !security_key(vid, lower_seq(product)),
        !phone(vid, lower_seq(product), ifaces),
        ifaces.len() > 0,
    ensures
        ({
            let k = classification(false, vid, product, ifaces).0;
            let i = ifaces[0];
            &&& i.class_code == 0x0B ==> k == DeviceClass::SmartcardReader
            &&& i.class_code == 0x07 ==> k == DeviceClass::Printer
            &&& i.class_code == 0x08 ==> k == DeviceClass::Storage
            &&& i.class_code == 0x01 ==> k == DeviceClass::Audio
            &&& i.class_code == 0x0E ==> (k == DeviceClass::Camera || k == DeviceClass::VideoCapture)
            &&& (i.class_code == 0xE0 && i.sub_class == 0x01 && i.protocol == 0x01) ==> k
                == DeviceClass::Bluetooth
            &&& (i.class_code == 0xE0 && !(i.sub_class == 0x01 && i.protocol == 0x01)) ==> k
                == DeviceClass::NetworkWireless
            &&& (i.class_code == 0x02 && i.sub_class == 0x06) ==> k == DeviceClass::NetworkWired
            &&& (i.class_code == 0x02 && i.sub_class == 0x02) ==> k == DeviceClass::Serial
        }),
{
}

// ---- Snapshot diffs, in terms of the summaries ----------------------------

proof fn lemma_no_previous_warning(prev: Seq<DeviceSummary>, pn: i32)
    requires
        forall|j: int|
            0 <= j < prev.len() && (#[trigger] prev[j]).typec_port is Some
                && prev[j].typec_port->0.port_number == pn ==> !(prev[j].charging_diag matches Some(
                d) && d.is_warning),
    ensures
        prev_warning(prev, pn) != Some(true),
    decreases prev.len(),
{
    if prev.len() > 0 {
        let rest = prev.drop_last();
        assert(prev.last() == prev[prev.len() - 1]);
        assert forall|j: int|
            0 <= j < rest.len() && (#[trigger] rest[j]).typec_port is Some
                && rest[j].typec_port->0.port_number == pn implies !(rest[j].charging_diag matches Some(
            d) && d.is_warning) by {
            assert(rest[j] == prev[j]);
        }
        lemma_no_previous_warning(rest, pn);
    }
}

proof fn lemma_last_previous_warning(prev: Seq<DeviceSummary>, pn: i32, j: int)
    requires
        0 <= j < prev.len(),
        prev[j].typec_port is Some,
        prev[j].typec_port->0.port_number == pn,
        forall|t: int|
            j < t < prev.len() && (#[trigger] prev[t]).typec_port is Some ==> prev[t].typec_port->0.port_number
                != pn,
    ensures
        prev_warning(prev, pn) == Some(warns(prev[j])),
    decreases prev.len(),
{
    if j < prev.len() - 1 {
        let rest = prev.drop_last();
        assert(prev.last() == prev[prev.len() - 1]);
        assert forall|t: int|
            j < t < rest.len() && (#[trigger] rest[t]).typec_port is Some implies rest[t].typec_port->0.port_number
            != pn by {
            assert(rest[t] == prev[t]);
        }
        assert(rest[j] == prev[j]);
        lemma_last_previous_warning(rest, pn, j);
    } else {
        assert(prev.last() == prev[j]);
    }
}

proof fn lemma_degraded_contains(cur: Seq<DeviceSummary>, prev: Seq<DeviceSummary>, i: int)
    requires
        0 <= i < cur.len(),
        cur[i].typec_port is Some,
        warns(cur[i]),
        prev_warning(prev, cur[i].typec_port->0.port_number) != Some(true),
    ensures
        degraded_of(cur, prev).contains(cur[i].typec_port->0.port_number),
    decreases cur.len(),
{
    let rest = degraded_of(cur.drop_last(), prev);
    assert(cur.last() == cur[cur.len() - 1]);
    if i == cur.len() - 1 {
        assert(degraded_of(cur, prev) == rest.push(cur[i].typec_port->0.port_number));
        assert(degraded_of(cur, prev)[rest.len() as int] == cur[i].typec_port->0.port_number);
    } else {
        assert(cur.drop_last()[i] == cur[i]);
        lemma_degraded_contains(cur.drop_last(), prev, i);
        let pn = cur[i].typec_port->0.port_number;
        let k = choose|k: int| 0 <= k < rest.len() && rest[k] == pn;
        assert(degraded_of(cur, prev)[k] == pn);
    }
}

proof fn lemma_resolved_contains(cur: Seq<DeviceSummary>, prev: Seq<DeviceSummary>, i: int)
    requires
        0 <= i < cur.len(),
        cur[i].typec_port is Some,
        !warns(cur[i]),
        prev_warning(prev, cur[i].typec_port->0.port_number) == Some(true),
    ensures
        resolved_of(cur, prev).contains(cur[i].typec_port->0.port_number),
    decreases cur.len(),
{
    let rest = resolved_of(cur.drop_last(), prev);
    assert(cur.last() == cur[cur.len() - 1]);
    if i == cur.len() - 1 {
        assert(resolved_of(cur, prev) == rest.push(cur[i].typec_port->0.port_number));
        assert(resolved_of(cur, prev)[rest.len() as int] == cur[i].typec_port->0.port_number);
    } else {
        assert(cur.drop_last()[i] == cur[i]);
        lemma_resolved_contains(cur.drop_last(), prev, i);
        let pn = cur[i].typec_port->0.port_number;
        let k = choose|k: int| 0 <= k < rest.len() && rest[k] == pn;
        assert(resolved_of(cur, prev)[k] == pn);
    }
}

/// A Type-C port whose current diagnostic warns is newly degraded unless
/// it already warned: in particular when the previous snapshot had no
/// summary for its port number (a first refresh), or none that warned.
pub proof fn warning_port_is_newly_degraded(cur: Seq<DeviceSummary>, prev: Seq<DeviceSummary>, i: int)
    requires
        0 <= i < cur.len(),
        cur[i].typec_port is Some,
        cur[i].charging_diag matches Some(d) && d.is_warning,
        forall|j: int|
            0 <= j < prev.len() && (#[trigger] prev[j]).typec_port is Some
                && prev[j].typec_port->0.port_number == cur[i].typec_port->0.port_number ==> !(
            prev[j].charging_diag matches Some(d) && d.is_warning),
    ensures
        degraded_of(cur, prev).contains(cur[i].typec_port->0.port_number),
{
    lemma_no_previous_warning(prev, cur[i].typec_port->0.port_number);
    lemma_degraded_contains(cur, prev, i);
}

/// A Type-C port whose last previous summary warned and whose current
/// one does not is resolved; one whose last previous summary warned is
/// never newly degraded.
pub proof fn cleared_port_is_resolved(cur: Seq<DeviceSummary>, prev: Seq<DeviceSummary>, i: int, j: int)
    requires
        0 <= i < cur.len(),
        cur[i].typec_port is Some,
        !(cur[i].charging_diag matches Some(d) && d.is_warning),
        0 <= j < prev.len(),
        prev[j].typec_port is Some,
        prev[j].typec_port->0.port_number == cur[i].typec_port->0.port_number,
        prev[j].charging_diag matches Some(d) && d.is_warning,
        forall|t: int|
            j < t < prev.len() && (#[trigger] prev[t]).typec_port is Some ==> prev[t].typec_port->0.port_number
                != prev[j].typec_port->0.port_number,
    ensures
        resolved_of(cur, prev).contains(cur[i].typec_port->0.port_number),
{
    lemma_last_previous_warning(prev, prev[j].typec_port->0.port_number, j);
    lemma_resolved_contains(cur, prev, i);
}

proof fn lemma_degraded_excludes(cur: Seq<DeviceSummary>, prev: Seq<DeviceSummary>, pn: i32)
    requires
        prev_warning(prev, pn) == Some(true),
    ensures
        !degraded_of(cur, prev).contains(pn),
    decreases cur.len(),
{
    if cur.len() > 0 {
        lemma_degraded_excludes(cur.drop_last(), prev, pn);
        let rest = degraded_of(cur.drop_last(), prev);
        let s = cur.last();
        if s.typec_port is Some {
            let q = s.typec_port->0.port_number;
            if warns(s) && prev_warning(prev, q) != Some(true) {
                assert(q != pn);
                assert forall|k: int| 0 <= k < rest.len() + 1 implies rest.push(q)[k] != pn by {
                    if k < rest.len() {
                        assert(rest.push(q)[k] == rest[k]);
                    }
                }
            }
        }
    }
}

/// A port whose last previous Type-C summary already warned is never
/// reported as newly degraded, whatever it reports now.
pub proof fn warning_port_is_not_degraded_again(
    cur: Seq<DeviceSummary>,
    prev: Seq<DeviceSummary>,
    j: int,
)
    requires
        0 <= j < prev.len(),
        prev[j].typec_port is Some,
        prev[j].charging_diag matches Some(d) && d.is_warning,
        forall|t: int|
            j < t < prev.len() && (#[trigger] prev[t]).typec_port is Some ==> prev[t].typec_port->0.port_number
                != prev[j].typec_port->0.port_number,
    ensures
        !degraded_of(cur, prev).contains(prev[j].typec_port->0.port_number),
{
    lemma_last_previous_warning(prev, prev[j].typec_port->0.port_number, j);
    lemma_degraded_excludes(cur, prev, prev[j].typec_port->0.port_number);
}

// ---- Kernel quirks ------------------------------------------------------

/// Number of set bits of `q` below bit `n`.
pub open spec fn set_bits(q: u32, n: nat) -> nat
    decreases n,
{
    if n == 0 {
        0
    } else {
        set_bits(q, (n - 1) as nat) + if bit_set(q, (n - 1) as u32) {
            1nat
        } else {
            0nat
        }
    }
}

/// Every set quirk bit is reported, known or not: there are exactly as
/// many names as set bits.
pub proof fn every_quirk_bit_is_named(q: u32, n: nat)
    ensures
        quirk_list(q, n).len() == set_bits(q, n),
    decreases n,
{
    if n > 0 {
        every_quirk_bit_is_named(q, (n - 1) as nat);
    }
}

// ---- Hot-plug debounce ----------------------------------------------------

/// A burst of kernel events gives one refresh: once a refresh has fired,
/// waits that time out or are interrupted fire no other until a new event
/// arrives.
pub proof fn refresh_fires_once_per_burst(
    deadline: Option<u64>,
    result: WaitResult,
    now_ms: u64,
    debounce_ms: u64,
    later: WaitResult,
    later_ms: u64,
)
    requires
        debounce_step(deadline, result, now_ms, debounce_ms).0,
        later != WaitResult::Readable,
    ensures
        debounce_step(deadline, result, now_ms, debounce_ms).1 is None,
        !debounce_step(
            debounce_step(deadline, result, now_ms, debounce_ms).1,
            later,
            later_ms,
            debounce_ms,
        ).0,
{
}

/// An event opens a window of `debounce_ms`: with a non-zero window the
/// refresh never fires in the same turn as the event, and a later quiet
/// turn fires exactly when the window has elapsed.
pub proof fn refresh_waits_out_the_window(
    deadline: Option<u64>,
    now_ms: u64,
    debounce_ms: u64,
    later_ms: u64,
)
    requires
        debounce_ms > 0,
        now_ms + debounce_ms <= u64::MAX,
    ensures
        !debounce_step(deadline, WaitResult::Readable, now_ms, debounce_ms).0,
        debounce_step(
            debounce_step(deadline, WaitResult::Readable, now_ms, debounce_ms).1,
            WaitResult::Timeout,
            later_ms,
            debounce_ms,
        ).0 <==> later_ms >= now_ms + debounce_ms,
{
}

// ---- Attribute parsing ------------------------------------------------------

/// A hexadecimal attribute reads the same with or without a `0x` prefix.
pub proof fn hex_prefix_is_optional(t: Seq<char>)
    requires
        t.len() > 0,
        !is_ws(t[0]),
        !is_ws(t.last()),
        t[0] != '0' || t.len() < 2 || (t[1] != 'x' && t[1] != 'X'),
    ensures
        unsigned_text(strip_hex_prefix(trim_text("0x"@ + t)), 16) == unsigned_text(
            strip_hex_prefix(trim_text(t)),
            16,
        ),
{
    reveal_strlit("0x");
    reveal_strlit("0X");
    let p = "0x"@ + t;
    assert(p[0] == '0');
    assert(!is_ws(p[0]));
    assert(trim_start_text(p) == p);
    assert(p.last() == t.last());
    assert(trim_end_text(p) == p);
    assert(trim_start_text(t) == t);
    assert(trim_end_text(t) == t);
    assert(p.subrange(0, 2) =~= "0x"@);
    assert(p.subrange(2, p.len() as int) =~= t);
    if t.len() >= 2 {
        assert(t.subrange(0, 2) != "0x"@ && t.subrange(0, 2) != "0X"@) by {
            if t[0] == '0' {
                assert(t.subrange(0, 2)[1] == t[1]);
            } else {
                assert(t.subrange(0, 2)[0] == t[0]);
            }
        }
    }
}

// ---- USB topology ------------------------------------------------------------

proof fn lemma_attached_at_has(devs: Seq<UsbDevice>, k: nat, d: nat, n: nat, i: int)
    requires
        0 <= i < n <= devs.len(),
        depth_of(devs[i].bus_port@) == d,
        attach_target(devs, i) == Some(k),
    ensures
        attached_at(devs, k, d, n).contains(devs[i].bus_port@),
    decreases n,
{
    if i == n - 1 {
        let a = attached_at(devs, k, d, (n - 1) as nat);
        assert(attached_at(devs, k, d, n) == a + seq![devs[i].bus_port@]);
        assert(attached_at(devs, k, d, n)[a.len() as int] == devs[i].bus_port@);
    } else {
        lemma_attached_at_has(devs, k, d, (n - 1) as nat, i);
        let a = attached_at(devs, k, d, (n - 1) as nat);
        let j = choose|j: int| 0 <= j < a.len() && a[j] == devs[i].bus_port@;
        assert(attached_at(devs, k, d, n)[j] == devs[i].bus_port@);
    }
}

proof fn lemma_range_has(devs: Seq<UsbDevice>, k: nat, hi: int, lo: int, d: nat, x: Seq<char>)
    requires
        lo <= d <= hi,
        attached_at(devs, k, d, devs.len()).contains(x),
    ensures
        attached_range(devs, k, hi, lo).contains(x),
    decreases hi - lo + 1,
{
    let a = attached_at(devs, k, hi as nat, devs.len());
    if d == hi {
        let j = choose|j: int| 0 <= j < a.len() && a[j] == x;
        assert(attached_range(devs, k, hi, lo)[j] == x);
    } else {
        lemma_range_has(devs, k, hi - 1, lo, d, x);
        let r = attached_range(devs, k, hi - 1, lo);
        let j = choose|j: int| 0 <= j < r.len() && r[j] == x;
        assert(attached_range(devs, k, hi, lo)[a.len() + j] == x);
    }
}

proof fn lemma_max_depth(devs: Seq<UsbDevice>, n: nat, i: int)
    requires
        0 <= i < n <= devs.len(),
    ensures
        depth_of(devs[i].bus_port@) <= max_depth(devs, n),
    decreases n,
{
    if i < n - 1 {
        lemma_max_depth(devs, (n - 1) as nat, i);
    }
}

/// Every device that hangs under another is among that device's children
/// once the tree is built: the children gained by device `p` include the
/// name of each device linked under it.
pub proof fn linked_devices_become_children(devs: Seq<UsbDevice>, i: int, p: nat)
    requires
        0 <= i < devs.len(),
        attach_target(devs, i) == Some(p),
    ensures
        attached_range(devs, p, max_depth(devs, devs.len()) as int, 0).contains(devs[i].bus_port@),
{
    let d = depth_of(devs[i].bus_port@);
    lemma_attached_at_has(devs, p, d, devs.len(), i);
    lemma_max_depth(devs, devs.len(), i);
    lemma_range_has(devs, p, max_depth(devs, devs.len()) as int, 0, d, devs[i].bus_port@);
}

} // verus!
