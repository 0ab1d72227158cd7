//! Linking enumerated USB devices into a tree.
//!
//! Each device that is not a root hub hangs under the device named by its
//! parent name (see [`crate::usb::parent_bus_port`]); when several devices
//! share that name, the last one wins. Devices are linked deepest first,
//! so a child's own children are in place before it is copied under its
//! parent; devices of the same depth go in enumeration order.

use vstd::prelude::*;
use crate::text::has_prefix;
use crate::usb::{bus_port_depth, count_char, parent_bus_port, parent_text, UsbDevice};

verus! {

broadcast use vstd::string::group_string_axioms;

/// The name a device hangs under, empty when it has none.
pub open spec fn parent_name(bp: Seq<char>) -> Seq<char> {
    match parent_text(bp) {
        Some(p) => p,
        None => Seq::empty(),
    }
}

/// Depth of a name in the tree: 0 for a root hub, else one more than its
/// dots.
pub open spec fn depth_of(bp: Seq<char>) -> nat {
    if has_prefix(bp, "usb"@) {
        0
    } else {
        count_char(bp, '.') + 1
    }
}

/// Index of the last of the first `n` devices named `name`.
pub open spec fn last_named(devs: Seq<UsbDevice>, name: Seq<char>, n: nat) -> Option<nat>
    decreases n,
{
    if n == 0 || n > devs.len() {
        None
    } else if devs[n - 1].bus_port@ == name {
        Some((n - 1) as nat)
    } else {
        last_named(devs, name, (n - 1) as nat)
    }
}

/// Where device `i` is linked: under the last device carrying its parent
/// name, unless it is a root hub or that device is itself.
pub open spec fn attach_target(devs: Seq<UsbDevice>, i: int) -> Option<nat> {
    if devs[i].is_root_hub {
        None
    } else {
        match last_named(devs, parent_name(devs[i].bus_port@), devs.len()) {
            Some(p) => if p == i {
                None
            } else {
                Some(p)
            },
            None => None,
        }
    }
}

/// Names of the first `n` devices of depth `d` linked under `k`, in order.
pub open spec fn attached_at(devs: Seq<UsbDevice>, k: nat, d: nat, n: nat) -> Seq<Seq<char>>
    decreases n,
{
    if n == 0 || n > devs.len() {
        Seq::empty()
    } else {
        attached_at(devs, k, d, (n - 1) as nat) + (if depth_of(devs[n - 1].bus_port@) == d
            && attach_target(devs, n - 1) == Some(k) {
            seq![devs[n - 1].bus_port@]
        } else {
            Seq::empty()
        })
    }
}

/// Names of the devices linked under `k` from depth `hi` down to depth
/// `lo`: deeper first, enumeration order within a depth.
pub open spec fn attached_range(devs: Seq<UsbDevice>, k: nat, hi: int, lo: int) -> Seq<Seq<char>>
    decreases hi - lo + 1,
{
    if hi < lo || hi < 0 {
        Seq::empty()
    } else {
        attached_at(devs, k, hi as nat, devs.len()) + attached_range(devs, k, hi - 1, lo)
    }
}

/// The deepest depth among the first `n` devices.
pub open spec fn max_depth(devs: Seq<UsbDevice>, n: nat) -> nat
    decreases n,
{
    if n == 0 || n > devs.len() {
        0
    } else {
        let rest = max_depth(devs, (n - 1) as nat);
        let d = depth_of(devs[n - 1].bus_port@);
        if d > rest {
            d
        } else {
            rest
        }
    }
}

/// The names of a device's children, in order.
pub open spec fn child_names(d: UsbDevice) -> Seq<Seq<char>> {
    d.children@.map_values(|c: UsbDevice| c.bus_port@)
}

/// Peeling the lowest depth off a range.
proof fn lemma_range_peel(devs: Seq<UsbDevice>, k: nat, hi: int, lo: int)
    requires
        0 <= lo <= hi,
    ensures
        attached_range(devs, k, hi, lo) == attached_range(devs, k, hi, lo + 1) + attached_at(
            devs,
            k,
            lo as nat,
            devs.len(),
        ),
    decreases hi - lo + 1,
{
    if hi == lo {
        assert(attached_range(devs, k, hi - 1, lo) =~= Seq::<Seq<char>>::empty());
        assert(attached_range(devs, k, hi, lo + 1) =~= Seq::<Seq<char>>::empty());
        assert(attached_range(devs, k, hi, lo) =~= attached_at(devs, k, lo as nat, devs.len()));
    } else {
        lemma_range_peel(devs, k, hi - 1, lo);
        assert(attached_range(devs, k, hi, lo) =~= attached_range(devs, k, hi, lo + 1)
            + attached_at(devs, k, lo as nat, devs.len()));
    }
}

/// The device, its children aside, is unchanged.
pub open spec fn same_but_children(a: UsbDevice, b: UsbDevice) -> bool {
    a == (UsbDevice { children: a.children, ..b })
}

/// Where device `i` of `devices` is linked (see [`attach_target`]).
fn target_of(devices: &Vec<UsbDevice>, i: usize) -> (r: Option<usize>)
    requires
        i < devices@.len(),
    ensures
        match r {
            Some(p) => attach_target(devices@, i as int) == Some(p as nat) && p < devices@.len(),
            None => attach_target(devices@, i as int) is None,
        },
{
    if devices[i].is_root_hub {
        return None;
    }
    let parent = parent_bus_port(devices[i].bus_port.as_str());
    let ghost name = parent_name(devices@[i as int].bus_port@);
    assert(parent@ == name);
    let mut j = devices.len();
    while j > 0
        invariant
            j <= devices@.len(),
            i < devices@.len(),
            !devices@[i as int].is_root_hub,
            name == parent_name(devices@[i as int].bus_port@),
            parent@ == name,
            last_named(devices@, name, devices@.len() as nat) == last_named(devices@, name, j as nat),
        decreases j,
    {
        if crate::text::str_eq(devices[j - 1].bus_port.as_str(), parent.as_str()) {
            if j - 1 == i {
                return None;
            }
            return Some(j - 1);
        }
        j = j - 1;
    }
    None
}

/// Link every device under the one its name hangs under (see the module
/// documentation): each device keeps its place and its other fields, and
/// its children list gains copies of the devices linked under it, deepest
/// first.
pub fn build_topology(devices: &mut Vec<UsbDevice>)
    requires
        forall|i: int| 0 <= i < old(devices)@.len() ==> (#[trigger] old(devices)@[i]).bus_port@.len()
            < usize::MAX,
    ensures
        final(devices)@.len() == old(devices)@.len(),
        forall|k: int|
            0 <= k < final(devices)@.len() ==> {
                &&& same_but_children(#[trigger] final(devices)@[k], old(devices)@[k])
                &&& child_names(final(devices)@[k]) == child_names(old(devices)@[k])
                    + attached_range(
                    old(devices)@,
                    k as nat,
                    max_depth(old(devices)@, old(devices)@.len() as nat) as int,
                    0,
                )
            },
{
    let ghost orig = devices@;
    let n = devices.len();
    let mut targets: Vec<Option<usize>> = Vec::new();
    let mut depths: Vec<usize> = Vec::new();
    let mut maxd: usize = 0;
    let mut i: usize = 0;
    while i < n
        invariant
            i <= n,
            n == devices@.len(),
            devices@ == orig,
            forall|t: int| 0 <= t < n ==> (#[trigger] orig[t]).bus_port@.len() < usize::MAX,
            targets@.len() == i,
            depths@.len() == i,
            maxd == max_depth(orig, i as nat),
            forall|t: int|
                0 <= t < i ==> match #[trigger] targets@[t] {
                    Some(p) => attach_target(orig, t) == Some(p as nat) && p < n,
                    None => attach_target(orig, t) is None,
                },
            forall|t: int| 0 <= t < i ==> #[trigger] depths@[t] == depth_of(orig[t].bus_port@),
        decreases n - i,
    {
        targets.push(target_of(devices, i));
        let d = bus_port_depth(devices[i].bus_port.as_str());
        depths.push(d);
        if d > maxd {
            maxd = d;
        }
        i = i + 1;
    }
    let mut d: usize = maxd;
    assert forall|k: int| 0 <= k < n implies child_names(#[trigger] devices@[k]) == child_names(
        orig[k],
    ) + attached_range(orig, k as nat, maxd as int, maxd + 1) by {
        assert(child_names(orig[k]) + attached_range(orig, k as nat, maxd as int, maxd + 1)
            =~= child_names(orig[k]));
    }
    loop
        invariant_except_break
            forall|k: int|
                0 <= k < n ==> child_names(#[trigger] devices@[k]) == child_names(orig[k])
                    + attached_range(orig, k as nat, maxd as int, d + 1),
        invariant
            d <= maxd,
            maxd == max_depth(orig, n as nat),
            n == devices@.len(),
            n == orig.len(),
            targets@.len() == n,
            depths@.len() == n,
            forall|t: int|
                0 <= t < n ==> match #[trigger] targets@[t] {
                    Some(p) => attach_target(orig, t) == Some(p as nat) && p < n,
                    None => attach_target(orig, t) is None,
                },
            forall|t: int| 0 <= t < n ==> #[trigger] depths@[t] == depth_of(orig[t].bus_port@),
            forall|k: int| 0 <= k < n ==> same_but_children(#[trigger] devices@[k], orig[k]),
        ensures
            forall|k: int|
                0 <= k < n ==> child_names(#[trigger] devices@[k]) == child_names(orig[k])
                    + attached_range(orig, k as nat, maxd as int, 0),
        decreases d,
    {
        let mut i: usize = 0;
        while i < n
            invariant
                i <= n,
                d <= maxd,
                n == devices@.len(),
                n == orig.len(),
                targets@.len() == n,
                depths@.len() == n,
                forall|t: int|
                    0 <= t < n ==> match #[trigger] targets@[t] {
                        Some(p) => attach_target(orig, t) == Some(p as nat) && p < n,
                        None => attach_target(orig, t) is None,
                    },
                forall|t: int| 0 <= t < n ==> #[trigger] depths@[t] == depth_of(orig[t].bus_port@),
                forall|k: int|
                    0 <= k < n ==> {
                        &&& same_but_children(#[trigger] devices@[k], orig[k])
                        &&& child_names(devices@[k]) == child_names(orig[k]) + attached_range(
                            orig,
                            k as nat,
                            maxd as int,
                            d + 1,
                        ) + attached_at(orig, k as nat, d as nat, i as nat)
                    },
            decreases n - i,
        {
            let ghost before = devices@;
            if depths[i] == d {
                match targets[i] {
                    Some(p) => {
                        let child = devices[i].clone();
                        assert(child.bus_port@ == orig[i as int].bus_port@);
                        let mut dev = devices.remove(p);
                        let ghost old_kids = dev.children@;
                        dev.children.push(child);
                        assert(dev.children@.map_values(|c: UsbDevice| c.bus_port@) =~= old_kids.map_values(
                            |c: UsbDevice| c.bus_port@,
                        ).push(orig[i as int].bus_port@));
                        devices.insert(p, dev);
                        assert forall|k: int| 0 <= k < n implies {
                            &&& same_but_children(#[trigger] devices@[k], orig[k])
                            &&& child_names(devices@[k]) == child_names(orig[k]) + attached_range(
                                orig,
                                k as nat,
                                maxd as int,
                                d + 1,
                            ) + attached_at(orig, k as nat, d as nat, (i + 1) as nat)
                        } by {
                            if k == p {
                                assert(devices@[k] == dev);
                            } else {
                                assert(devices@[k] == before[k]);
                            }
                        }
                    },
                    None => {},
                }
            }
            assert forall|k: int| 0 <= k < n implies child_names(#[trigger] devices@[k])
                == child_names(orig[k]) + attached_range(orig, k as nat, maxd as int, d + 1)
                + attached_at(orig, k as nat, d as nat, (i + 1) as nat) by {
                if !(depths@[i as int] == d && targets@[i as int] == Some(k as usize)) {
                    assert(attached_at(orig, k as nat, d as nat, (i + 1) as nat) =~= attached_at(
                        orig,
                        k as nat,
                        d as nat,
                        i as nat,
                    ));
                }
            }
            i = i + 1;
        }
        proof {
            assert forall|k: int| 0 <= k < n implies child_names(#[trigger] devices@[k])
                == child_names(orig[k]) + attached_range(orig, k as nat, maxd as int, d as int) by {
                lemma_range_peel(orig, k as nat, maxd as int, d as int);
                assert(child_names(orig[k]) + attached_range(orig, k as nat, maxd as int, d + 1)
                    + attached_at(orig, k as nat, d as nat, n as nat) =~= child_names(orig[k])
                    + attached_range(orig, k as nat, maxd as int, d as int));
            }
        }
        if d == 0 {
            break;
        }
        d = d - 1;
    }
}

} // verus!
