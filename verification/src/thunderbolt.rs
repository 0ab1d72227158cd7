//! Thunderbolt / USB4 router data model.
//!
//! USB4 is not a Type-C alternate mode: it is negotiated at PD enter-mode
//! and shows only through the Thunderbolt subsystem. A router with
//! `generation == 4` speaks USB4; `generation == 3` is Thunderbolt 3 only.

use vstd::prelude::*;
use std::collections::BTreeMap;
use std::path::PathBuf;

verus! {

/// One router of a Thunderbolt / USB4 domain.
#[derive(Debug, Default, PartialEq, Eq)]
pub struct ThunderboltRouter {
    /// Sysfs path of the router directory.
    pub sysfs_path: PathBuf,
    /// Route string (e.g. `"0-0"`, `"0-1"`).
    pub route: String,
    /// Domain index from the route prefix.
    pub domain: u32,
    /// `true` for a host adapter (route ends with `-0`).
    pub is_host: bool,
    /// Router generation: 1–3 Thunderbolt, 4 USB4; 0 when unreadable.
    pub generation: u8,
    /// `vendor` attribute.
    pub vendor_id: u16,
    /// `device` attribute.
    pub device_id: u16,
    /// `vendor_name` attribute.
    pub vendor_name: String,
    /// `device_name` attribute.
    pub device_name: String,
    /// `unique_id` attribute.
    pub unique_id: String,
    /// All regular files under the router directory.
    pub raw_attributes: BTreeMap<String, String>,
}

/// `a` holds what the router record `b` holds.
pub open spec fn router_copy(a: ThunderboltRouter, b: ThunderboltRouter) -> bool {
    &&& a.sysfs_path == b.sysfs_path
    &&& a.route == b.route
    &&& a.domain == b.domain
    &&& a.is_host == b.is_host
    &&& a.generation == b.generation
    &&& a.vendor_id == b.vendor_id
    &&& a.device_id == b.device_id
    &&& a.vendor_name == b.vendor_name
    &&& a.device_name == b.device_name
    &&& a.unique_id == b.unique_id
    &&& a.raw_attributes@ == b.raw_attributes@
}

impl Clone for ThunderboltRouter {
    /// A copy of the router record.
    fn clone(&self) -> (r: Self)
        ensures
            router_copy(r, *self),
    {
        ThunderboltRouter {
            sysfs_path: self.sysfs_path.clone(),
            route: self.route.clone(),
            domain: self.domain,
            is_host: self.is_host,
            generation: self.generation,
            vendor_id: self.vendor_id,
            device_id: self.device_id,
            vendor_name: self.vendor_name.clone(),
            device_name: self.device_name.clone(),
            unique_id: self.unique_id.clone(),
            raw_attributes: self.raw_attributes.clone(),
        }
    }
}

impl ThunderboltRouter {
    /// `true` when the router negotiated USB4 (`generation >= 4`).
    pub fn supports_usb4(&self) -> (r: bool)
        ensures
            r == (self.generation >= 4),
    {
        self.generation >= 4
    }
}

/// Some host adapter and some non-host router both speak USB4.
pub open spec fn usb4_link(routers: Seq<ThunderboltRouter>) -> bool {
    &&& exists|i: int| 0 <= i < routers.len() && #[trigger] routers[i].is_host && routers[i].generation >= 4
    &&& exists|j: int| 0 <= j < routers.len() && !#[trigger] routers[j].is_host && routers[j].generation >= 4
}

/// `true` when the system has a USB4 host adapter and a non-host router
/// that negotiated USB4: the strongest "USB4 link in use" signal there is,
/// since routers are not linked back to Type-C ports.
pub fn system_has_usb4_link(routers: &[ThunderboltRouter]) -> (r: bool)
    ensures
        r == usb4_link(routers@),
{
    let mut host = false;
    let mut device = false;
    let mut i: usize = 0;
    while i < routers.len()
        invariant
            i <= routers.len(),
            host == exists|k: int| 0 <= k < i && #[trigger] routers@[k].is_host && routers@[k].generation >= 4,
            device == exists|k: int| 0 <= k < i && !#[trigger] routers@[k].is_host && routers@[k].generation >= 4,
        decreases routers.len() - i,
    {
        let usb4 = routers[i].supports_usb4();
        if routers[i].is_host && usb4 {
            host = true;
        }
        if !routers[i].is_host && usb4 {
            device = true;
        }
        i = i + 1;
    }
    host && device
}

} // verus!
