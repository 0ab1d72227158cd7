//! Wire records of the D-Bus device interface, and the state behind it.
//!
//! Each [`DeviceEntry`] mirrors one [`DeviceSummary`]; enum fields travel
//! as their variant name. [`State`] holds the device manager and the
//! snapshot taken at the previous refresh, the baseline of the change
//! signals.

use vstd::prelude::*;
use crate::classify::DeviceClass;
use crate::diagnostic::{Bottleneck, ChargingDiagnostic};
use crate::manager::{
    degraded_of, ids_of, resolved_of, snapshot_copy, summaries_built, DeviceManager, DiffView, Snapshot,
    SnapshotDiff,
};
use crate::watch::RefreshReason;
use crate::power::PowerDeliveryPort;
use crate::thunderbolt::ThunderboltRouter;
use crate::typec::TypeCPort;
use crate::usb::UsbDevice;
use crate::summary::{props_view, summary_id, Category, DeviceSummary, PowerRole, PowerSummary, Status};
use crate::text::{owned, str_eq};

verus! {

broadcast use vstd::string::group_string_axioms;

/// Bus name the daemon requests on the session bus.
pub const BUS_NAME: &'static str = "org.usbeehive.Devices";

/// Object path of the device interface.
pub const OBJECT_PATH: &'static str = "/org/usbeehive/Devices";

/// Variant name of a category.
pub open spec fn category_text(c: Category) -> Seq<char> {
    match c {
        Category::UsbDevice => "UsbDevice"@,
        Category::TypeCPort => "TypeCPort"@,
        Category::Hub => "Hub"@,
    }
}

/// Variant name of a status.
pub open spec fn status_text(s: Status) -> Seq<char> {
    match s {
        Status::Empty => "Empty"@,
        Status::Connected => "Connected"@,
        Status::Charging => "Charging"@,
        Status::Sourcing => "Sourcing"@,
    }
}

/// Variant name of a power role.
pub open spec fn role_text(r: PowerRole) -> Seq<char> {
    match r {
        PowerRole::Source => "Source"@,
        PowerRole::Sink => "Sink"@,
        PowerRole::DualRole => "DualRole"@,
        PowerRole::Unknown => "Unknown"@,
    }
}

/// Variant name of a bottleneck.
pub open spec fn bottleneck_text(b: Bottleneck) -> Seq<char> {
    match b {
        Bottleneck::NoCharger => "NoCharger"@,
        Bottleneck::ChargerLimit => "ChargerLimit"@,
        Bottleneck::CableLimit => "CableLimit"@,
        Bottleneck::DeviceLimit => "DeviceLimit"@,
        Bottleneck::SinkLimit => "SinkLimit"@,
        Bottleneck::Fine => "Fine"@,
    }
}

/// Variant name of a device class.
pub open spec fn class_name_text(c: DeviceClass) -> Seq<char> {
    match c {
        DeviceClass::Keyboard => "Keyboard"@,
        DeviceClass::Mouse => "Mouse"@,
        DeviceClass::InputTablet => "InputTablet"@,
        DeviceClass::Gamepad => "Gamepad"@,
        DeviceClass::Storage => "Storage"@,
        DeviceClass::Display => "Display"@,
        DeviceClass::Audio => "Audio"@,
        DeviceClass::Camera => "Camera"@,
        DeviceClass::VideoCapture => "VideoCapture"@,
        DeviceClass::Printer => "Printer"@,
        DeviceClass::Phone => "Phone"@,
        DeviceClass::Hub => "Hub"@,
        DeviceClass::NetworkWired => "NetworkWired"@,
        DeviceClass::NetworkWireless => "NetworkWireless"@,
        DeviceClass::SecurityKey => "SecurityKey"@,
        DeviceClass::SmartcardReader => "SmartcardReader"@,
        DeviceClass::Bluetooth => "Bluetooth"@,
        DeviceClass::Serial => "Serial"@,
        DeviceClass::Unknown => "Unknown"@,
    }
}

pub(crate) fn category_name(c: Category) -> (r: &'static str)
    ensures
        r@ == category_text(c),
{
    match c {
        Category::UsbDevice => "UsbDevice",
        Category::TypeCPort => "TypeCPort",
        Category::Hub => "Hub",
    }
}

pub(crate) fn status_name(s: Status) -> (r: &'static str)
    ensures
        r@ == status_text(s),
{
    match s {
        Status::Empty => "Empty",
        Status::Connected => "Connected",
        Status::Charging => "Charging",
        Status::Sourcing => "Sourcing",
    }
}

pub(crate) fn role_name(r: PowerRole) -> (t: &'static str)
    ensures
        t@ == role_text(r),
{
    match r {
        PowerRole::Source => "Source",
        PowerRole::Sink => "Sink",
        PowerRole::DualRole => "DualRole",
        PowerRole::Unknown => "Unknown",
    }
}

fn bottleneck_name(b: Bottleneck) -> (t: &'static str)
    ensures
        t@ == bottleneck_text(b),
{
    match b {
        Bottleneck::NoCharger => "NoCharger",
        Bottleneck::ChargerLimit => "ChargerLimit",
        Bottleneck::CableLimit => "CableLimit",
        Bottleneck::DeviceLimit => "DeviceLimit",
        Bottleneck::SinkLimit => "SinkLimit",
        Bottleneck::Fine => "Fine",
    }
}

pub(crate) fn class_variant_name(c: DeviceClass) -> (t: &'static str)
    ensures
        t@ == class_name_text(c),
{
    match c {
        DeviceClass::Keyboard => "Keyboard",
        DeviceClass::Mouse => "Mouse",
        DeviceClass::InputTablet => "InputTablet",
        DeviceClass::Gamepad => "Gamepad",
        DeviceClass::Storage => "Storage",
        DeviceClass::Display => "Display",
        DeviceClass::Audio => "Audio",
        DeviceClass::Camera => "Camera",
        DeviceClass::VideoCapture => "VideoCapture",
        DeviceClass::Printer => "Printer",
        DeviceClass::Phone => "Phone",
        DeviceClass::Hub => "Hub",
        DeviceClass::NetworkWired => "NetworkWired",
        DeviceClass::NetworkWireless => "NetworkWireless",
        DeviceClass::SecurityKey => "SecurityKey",
        DeviceClass::SmartcardReader => "SmartcardReader",
        DeviceClass::Bluetooth => "Bluetooth",
        DeviceClass::Serial => "Serial",
        DeviceClass::Unknown => "Unknown",
    }
}

/// Power flow on the wire.
#[derive(Debug, Clone)]
pub struct PowerEntry {
    /// Power into the host, mW.
    pub power_in_mw: u32,
    /// Power out of the host, mW.
    pub power_out_mw: u32,
    /// What the active contract allows, mW.
    pub contract_mw: u32,
    /// `Source` | `Sink` | `DualRole` | `Unknown`.
    pub power_role: String,
}

impl Default for PowerEntry {
    fn default() -> (r: Self)
        ensures
            r.power_in_mw == 0,
            r.power_out_mw == 0,
            r.contract_mw == 0,
            r.power_role@ == Seq::<char>::empty(),
    {
        PowerEntry { power_in_mw: 0, power_out_mw: 0, contract_mw: 0, power_role: String::new() }
    }
}

impl PowerEntry {
    /// The wire form of a power summary.
    pub fn from_summary(p: &PowerSummary) -> (r: PowerEntry)
        ensures
            r.power_in_mw == p.power_in_mw,
            r.power_out_mw == p.power_out_mw,
            r.contract_mw == p.contract_mw,
            r.power_role@ == role_text(p.power_role),
    {
        PowerEntry {
            power_in_mw: p.power_in_mw,
            power_out_mw: p.power_out_mw,
            contract_mw: p.contract_mw,
            power_role: owned(role_name(p.power_role)),
        }
    }
}

/// Charging diagnostic on the wire: `present == false`, empty strings and
/// no warning when there is none.
#[derive(Debug, Clone)]
pub struct DiagnosticEntry {
    /// A diagnostic was computed.
    pub present: bool,
    /// Bottleneck variant name.
    pub bottleneck: String,
    /// Headline.
    pub summary: String,
    /// Detail.
    pub detail: String,
    /// The bottleneck is user-actionable.
    pub is_warning: bool,
}

impl Default for DiagnosticEntry {
    fn default() -> (r: Self)
        ensures
            !r.present,
            r.bottleneck@ == Seq::<char>::empty(),
            r.summary@ == Seq::<char>::empty(),
            r.detail@ == Seq::<char>::empty(),
            !r.is_warning,
    {
        DiagnosticEntry {
            present: false,
            bottleneck: String::new(),
            summary: String::new(),
            detail: String::new(),
            is_warning: false,
        }
    }
}

/// The wire form of an optional diagnostic, as plain values:
/// `(present, bottleneck, summary, detail, is_warning)`.
pub open spec fn diag_entry(d: Option<ChargingDiagnostic>) -> (bool, Seq<char>, Seq<char>, Seq<char>, bool) {
    match d {
        Some(d) => (true, bottleneck_text(d.bottleneck), d.summary@, d.detail@, d.is_warning),
        None => (false, Seq::empty(), Seq::empty(), Seq::empty(), false),
    }
}

impl DiagnosticEntry {
    /// The wire form of an optional diagnostic.
    pub fn from_diagnostic(diag: Option<&ChargingDiagnostic>) -> (r: DiagnosticEntry)
        ensures
            (r.present, r.bottleneck@, r.summary@, r.detail@, r.is_warning) == diag_entry(
                match diag {
                    Some(d) => Some(*d),
                    None => None,
                },
            ),
    {
        match diag {
            Some(d) => DiagnosticEntry {
                present: true,
                bottleneck: owned(bottleneck_name(d.bottleneck)),
                summary: d.summary.clone(),
                detail: d.detail.clone(),
                is_warning: d.is_warning,
            },
            None => DiagnosticEntry::default(),
        }
    }
}

/// One device or port on the wire.
#[derive(Debug, Clone)]
pub struct DeviceEntry {
    /// Stable identifier.
    pub id: String,
    /// Category variant name.
    pub category: String,
    /// Device class variant name.
    pub device_class: String,
    /// Advisory subclass hint.
    pub device_subclass: String,
    /// Status variant name.
    pub status: String,
    /// Display title.
    pub headline: String,
    /// Display subtitle.
    pub subtitle: String,
    /// Icon name.
    pub icon: String,
    /// Manufacturer.
    pub vendor: String,
    /// Product descriptor.
    pub product: String,
    /// `idVendor`.
    pub vendor_id: u16,
    /// `idProduct`.
    pub product_id: u16,
    /// Driver of the first interface.
    pub primary_driver: String,
    /// `(machine_key, value)` pairs.
    pub properties: Vec<(String, String)>,
    /// Type-C port number, `-1` for other entries.
    pub port_number: i32,
    /// Negotiated link speed, Mbps.
    pub link_speed_mbps: u32,
    /// Canonical USB version.
    pub usb_version: String,
    /// Power flow.
    pub power: PowerEntry,
    /// Charging diagnostic.
    pub charging_diag: DiagnosticEntry,
}

impl DeviceEntry {
    /// The wire form of a summary.
    pub fn from_summary(s: &DeviceSummary) -> (e: DeviceEntry)
        ensures
            e.id@ == summary_id(*s),
            e.category@ == category_text(s.category),
            e.device_class@ == class_name_text(s.device_class),
            e.device_subclass == s.device_subclass,
            e.status@ == status_text(s.status),
            e.headline == s.headline,
            e.subtitle == s.subtitle,
            e.icon == s.icon,
            e.vendor == s.vendor,
            e.product == s.product,
            e.vendor_id == s.vendor_id,
            e.product_id == s.product_id,
            e.primary_driver == s.primary_driver,
            props_view(e.properties@) == props_view(s.properties@),
            e.port_number == match s.typec_port {
                Some(p) => p.port_number,
                None => -1i32,
            },
            e.link_speed_mbps == s.link_speed_mbps,
            e.usb_version == s.usb_version,
            e.power.power_in_mw == s.power.power_in_mw,
            e.power.power_out_mw == s.power.power_out_mw,
            e.power.contract_mw == s.power.contract_mw,
            e.power.power_role@ == role_text(s.power.power_role),
            (
                e.charging_diag.present,
                e.charging_diag.bottleneck@,
                e.charging_diag.summary@,
                e.charging_diag.detail@,
                e.charging_diag.is_warning,
            ) == diag_entry(s.charging_diag),
    {
        let port_number = match &s.typec_port {
            Some(p) => p.port_number,
            None => -1,
        };
        let copy = s.clone();
        DeviceEntry {
            id: s.id(),
            category: owned(category_name(s.category)),
            device_class: owned(class_variant_name(s.device_class)),
            device_subclass: s.device_subclass.clone(),
            status: owned(status_name(s.status)),
            headline: s.headline.clone(),
            subtitle: s.subtitle.clone(),
            icon: s.icon.clone(),
            vendor: s.vendor.clone(),
            product: s.product.clone(),
            vendor_id: s.vendor_id,
            product_id: s.product_id,
            primary_driver: s.primary_driver.clone(),
            properties: copy.properties,
            port_number,
            link_speed_mbps: s.link_speed_mbps,
            usb_version: s.usb_version.clone(),
            power: PowerEntry::from_summary(&s.power),
            charging_diag: DiagnosticEntry::from_diagnostic(
                match &s.charging_diag {
                    Some(d) => Some(d),
                    None => None,
                },
            ),
        }
    }
}

/// State shared between the hot-plug loop and the D-Bus dispatch: the
/// manager and the snapshot of the previous refresh.
pub struct State {
    /// The device manager owning the live snapshot.
    pub manager: DeviceManager,
    /// The snapshot of the previous refresh, the diff baseline.
    pub previous: Snapshot,
}

/// An empty snapshot.
fn no_snapshot() -> (s: Snapshot)
    ensures
        s.usb_devices@.len() == 0,
        s.typec_ports@.len() == 0,
        s.pd_ports@.len() == 0,
        s.thunderbolt_routers@.len() == 0,
        s.summaries@.len() == 0,
{
    Snapshot {
        usb_devices: Vec::new(),
        typec_ports: Vec::new(),
        pd_ports: Vec::new(),
        thunderbolt_routers: Vec::new(),
        summaries: Vec::new(),
    }
}

impl State {
    /// State around `manager` with an empty baseline: the first refresh
    /// reports every device as added.
    pub fn new(manager: DeviceManager) -> (s: State)
        ensures
            s.manager == manager,
            s.previous.summaries@.len() == 0,
    {
        State { manager, previous: no_snapshot() }
    }

    /// The diff of the manager's snapshot against the baseline, which then
    /// becomes that snapshot.
    fn advance(&mut self) -> (d: SnapshotDiff)
        ensures
            final(self).manager == old(self).manager,
            d@.added == ids_of(old(self).manager.snapshot().summaries@).filter(
                |t: Seq<char>| !ids_of(old(self).previous.summaries@).contains(t),
            ),
            d@.removed == ids_of(old(self).previous.summaries@).filter(
                |t: Seq<char>| !ids_of(old(self).manager.snapshot().summaries@).contains(t),
            ),
            d@.newly_degraded == degraded_of(
                old(self).manager.snapshot().summaries@,
                old(self).previous.summaries@,
            ),
            d@.resolved == resolved_of(
                old(self).manager.snapshot().summaries@,
                old(self).previous.summaries@,
            ),
            snapshot_copy(final(self).previous, *old(self).manager.snapshot()),
    {
        let diff = self.manager.snapshot().diff(&self.previous);
        self.previous = self.manager.snapshot().clone();
        diff
    }

    /// Install freshly enumerated inputs in the manager (see
    /// [`DeviceManager::refresh`]), report the diff of the new summaries
    /// against the baseline, and make them the baseline.
    pub fn refresh(
        &mut self,
        usb_devices: Vec<UsbDevice>,
        typec_ports: Vec<TypeCPort>,
        pd_ports: Vec<PowerDeliveryPort>,
        thunderbolt_routers: Vec<ThunderboltRouter>,
    ) -> (d: SnapshotDiff)
        ensures
            *final(self).manager.sysfs() == *old(self).manager.sysfs(),
            final(self).manager.snapshot().usb_devices == usb_devices,
            final(self).manager.snapshot().typec_ports == typec_ports,
            final(self).manager.snapshot().pd_ports == pd_ports,
            final(self).manager.snapshot().thunderbolt_routers == thunderbolt_routers,
            summaries_built(
                usb_devices@,
                typec_ports@,
                pd_ports@,
                thunderbolt_routers@,
                final(self).manager.snapshot().summaries@,
            ),
            d@.added == ids_of(final(self).manager.snapshot().summaries@).filter(
                |t: Seq<char>| !ids_of(old(self).previous.summaries@).contains(t),
            ),
            d@.removed == ids_of(old(self).previous.summaries@).filter(
                |t: Seq<char>| !ids_of(final(self).manager.snapshot().summaries@).contains(t),
            ),
            d@.newly_degraded == degraded_of(
                final(self).manager.snapshot().summaries@,
                old(self).previous.summaries@,
            ),
            d@.resolved == resolved_of(
                final(self).manager.snapshot().summaries@,
                old(self).previous.summaries@,
            ),
            snapshot_copy(final(self).previous, *final(self).manager.snapshot()),
    {
        self.manager.refresh(usb_devices, typec_ports, pd_ports, thunderbolt_routers);
        self.advance()
    }

    /// Headline of the first summary with id `id`, or `id` itself when
    /// none is held.
    pub fn headline_for(&self, id: &str) -> (r: String)
        ensures
            r@ == headline_text(self.manager.snapshot().summaries@, id@),
    {
        let devs = self.manager.devices();
        let mut i: usize = 0;
        assert(devs@.subrange(0, devs@.len() as int) =~= devs@);
        while i < devs.len()
            invariant
                i <= devs@.len(),
                devs@ == self.manager.snapshot().summaries@,
                headline_text(devs@, id@) == headline_text(
                    devs@.subrange(i as int, devs@.len() as int),
                    id@,
                ),
            decreases devs@.len() - i,
        {
            assert(devs@.subrange(i as int, devs@.len() as int).drop_first() =~= devs@.subrange(
                i + 1,
                devs@.len() as int,
            ));
            let sid = devs[i].id();
            if str_eq(sid.as_str(), id) {
                return devs[i].headline.clone();
            }
            i = i + 1;
        }
        owned(id)
    }

    /// One entry per summary of the latest snapshot, in order.
    pub fn snapshot_entries(&self) -> (r: Vec<DeviceEntry>)
        ensures
            r@.len() == self.manager.snapshot().summaries@.len(),
            forall|i: int|
                0 <= i < r@.len() ==> (#[trigger] r@[i]).id@ == summary_id(
                    self.manager.snapshot().summaries@[i],
                ),
    {
        let devs = self.manager.devices();
        let mut out: Vec<DeviceEntry> = Vec::new();
        let mut i: usize = 0;
        while i < devs.len()
            invariant
                i <= devs@.len(),
                devs@ == self.manager.snapshot().summaries@,
                out@.len() == i,
                forall|k: int| 0 <= k < i ==> (#[trigger] out@[k]).id@ == summary_id(devs@[k]),
            decreases devs@.len() - i,
        {
            out.push(DeviceEntry::from_summary(&devs[i]));
            i = i + 1;
        }
        out
    }

    /// The diagnostic of the first summary for Type-C port `port_number`;
    /// absent when there is no such port or it has no diagnostic.
    pub fn diagnose_port(&self, port_number: i32) -> (r: DiagnosticEntry)
        ensures
            (r.present, r.bottleneck@, r.summary@, r.detail@, r.is_warning) == diag_entry(
                port_diag(self.manager.snapshot().summaries@, port_number),
            ),
    {
        let devs = self.manager.devices();
        let mut i: usize = 0;
        assert(devs@.subrange(0, devs@.len() as int) =~= devs@);
        while i < devs.len()
            invariant
                i <= devs@.len(),
                devs@ == self.manager.snapshot().summaries@,
                port_diag(devs@, port_number) == port_diag(devs@.subrange(i as int, devs@.len() as int), port_number),
            decreases devs@.len() - i,
        {
            assert(devs@.subrange(i as int, devs@.len() as int).drop_first() =~= devs@.subrange(
                i + 1,
                devs@.len() as int,
            ));
            match &devs[i].typec_port {
                Some(p) => {
                    if p.port_number == port_number {
                        return DiagnosticEntry::from_diagnostic(
                            match &devs[i].charging_diag {
                                Some(d) => Some(d),
                                None => None,
                            },
                        );
                    }
                },
                None => {},
            }
            i = i + 1;
        }
        DiagnosticEntry::default()
    }

    /// Type-C port numbers of the latest snapshot, in order.
    pub fn list_ports(&self) -> (r: Vec<i32>)
        ensures
            r@ == port_numbers(self.manager.snapshot().summaries@),
    {
        let devs = self.manager.devices();
        let mut out: Vec<i32> = Vec::new();
        let mut i: usize = 0;
        while i < devs.len()
            invariant
                i <= devs@.len(),
                devs@ == self.manager.snapshot().summaries@,
                out@ == port_numbers(devs@.take(i as int)),
            decreases devs@.len() - i,
        {
            assert(devs@.take(i + 1).drop_last() =~= devs@.take(i as int));
            match &devs[i].typec_port {
                Some(p) => out.push(p.port_number),
                None => {},
            }
            i = i + 1;
        }
        assert(devs@.take(i as int) =~= devs@);
        out
    }
}

/// The diagnostic of the first summary for Type-C port `pn`, if any.
pub open spec fn port_diag(ss: Seq<DeviceSummary>, pn: i32) -> Option<ChargingDiagnostic>
    decreases ss.len(),
{
    if ss.len() == 0 {
        None
    } else if ss[0].typec_port matches Some(p) && p.port_number == pn {
        ss[0].charging_diag
    } else {
        port_diag(ss.drop_first(), pn)
    }
}

/// Headline of the first summary of `ss` with id `id`, or `id` itself.
pub open spec fn headline_text(ss: Seq<DeviceSummary>, id: Seq<char>) -> Seq<char>
    decreases ss.len(),
{
    if ss.len() == 0 {
        id
    } else if summary_id(ss[0]) == id {
        ss[0].headline@
    } else {
        headline_text(ss.drop_first(), id)
    }
}

/// Type-C port numbers of the summaries, in order.
pub open spec fn port_numbers(ss: Seq<DeviceSummary>) -> Seq<i32>
    decreases ss.len(),
{
    if ss.len() == 0 {
        Seq::empty()
    } else {
        let rest = port_numbers(ss.drop_last());
        match ss.last().typec_port {
            Some(p) => rest.push(p.port_number),
            None => rest,
        }
    }
}

/// A change signal of the device interface.
#[derive(Debug, Clone, PartialEq, Eq)]
pub enum Signal {
    /// `DeviceAdded(id, headline)`: a newly attached device.
    DeviceAdded {
        /// Summary id.
        id: String,
        /// Its headline.
        headline: String,
    },
    /// `DeviceRemoved(id)`: a device that disappeared.
    DeviceRemoved {
        /// Summary id.
        id: String,
    },
    /// `CapabilityDegraded(port, summary, detail)`: a port's charging
    /// diagnostic newly warns.
    CapabilityDegraded {
        /// Type-C port number.
        port_number: i32,
        /// Diagnostic headline, empty when the port has none.
        summary: String,
        /// Diagnostic detail, empty when the port has none.
        detail: String,
    },
    /// `CapabilityRestored(port)`: a port's warning cleared.
    CapabilityRestored {
        /// Type-C port number.
        port_number: i32,
    },
}

/// A signal as plain values.
pub ghost enum SignalView {
    Added(Seq<char>, Seq<char>),
    Removed(Seq<char>),
    Degraded(i32, Seq<char>, Seq<char>),
    Restored(i32),
}

/// The plain values of a signal.
pub open spec fn signal_view(s: Signal) -> SignalView {
    match s {
        Signal::DeviceAdded { id, headline } => SignalView::Added(id@, headline@),
        Signal::DeviceRemoved { id } => SignalView::Removed(id@),
        Signal::CapabilityDegraded { port_number, summary, detail } => SignalView::Degraded(
            port_number,
            summary@,
            detail@,
        ),
        Signal::CapabilityRestored { port_number } => SignalView::Restored(port_number),
    }
}

/// The plain values of a list of signals.
pub open spec fn signal_views(v: Seq<Signal>) -> Seq<SignalView> {
    v.map_values(|s: Signal| signal_view(s))
}

/// `DeviceAdded` for each added id, with its headline in `ss`.
pub open spec fn added_signals(ss: Seq<DeviceSummary>, ids: Seq<Seq<char>>) -> Seq<SignalView> {
    ids.map_values(|id: Seq<char>| SignalView::Added(id, headline_text(ss, id)))
}

/// `DeviceRemoved` for each removed id.
pub open spec fn removed_signals(ids: Seq<Seq<char>>) -> Seq<SignalView> {
    ids.map_values(|id: Seq<char>| SignalView::Removed(id))
}

/// `CapabilityDegraded` for each port, with the text of its diagnostic in
/// `ss` (empty when it has none).
pub open spec fn degraded_signals(ss: Seq<DeviceSummary>, ports: Seq<i32>) -> Seq<SignalView> {
    ports.map_values(
        |p: i32|
            match port_diag(ss, p) {
                Some(d) => SignalView::Degraded(p, d.summary@, d.detail@),
                None => SignalView::Degraded(p, Seq::empty(), Seq::empty()),
            },
    )
}

/// `CapabilityRestored` for each port.
pub open spec fn restored_signals(ports: Seq<i32>) -> Seq<SignalView> {
    ports.map_values(|p: i32| SignalView::Restored(p))
}

/// The signals a refresh raises: none for the first one, which primes the
/// baseline with what was already plugged in; otherwise added, removed,
/// degraded, then restored, each in the diff's order.
pub open spec fn signals_text(ss: Seq<DeviceSummary>, d: DiffView, initial: bool) -> Seq<SignalView> {
    if initial {
        Seq::empty()
    } else {
        added_signals(ss, d.added) + removed_signals(d.removed) + degraded_signals(
            ss,
            d.newly_degraded,
        ) + restored_signals(d.resolved)
    }
}

impl State {
    /// The signals to raise for `diff`, the result of a refresh for
    /// `reason` (see [`signals_text`]); texts come from the current
    /// snapshot.
    pub fn signals(&self, diff: &SnapshotDiff, reason: RefreshReason) -> (r: Vec<Signal>)
        ensures
            signal_views(r@) == signals_text(
                self.manager.snapshot().summaries@,
                diff@,
                reason == RefreshReason::Initial,
            ),
    {
        let ghost ss = self.manager.snapshot().summaries@;
        let mut out: Vec<Signal> = Vec::new();
        if reason == RefreshReason::Initial {
            assert(signal_views(out@) =~= Seq::<SignalView>::empty());
            return out;
        }
        let ghost d = diff@;
        let mut i: usize = 0;
        while i < diff.added.len()
            invariant
                i <= diff.added@.len(),
                ss == self.manager.snapshot().summaries@,
                d == diff@,
                signal_views(out@) == added_signals(ss, d.added.take(i as int)),
            decreases diff.added@.len() - i,
        {
            let id = diff.added[i].clone();
            let headline = self.headline_for(id.as_str());
            let ghost before = out@;
            out.push(Signal::DeviceAdded { id, headline });
            assert(signal_views(out@) =~= signal_views(before).push(signal_view(out@.last())));
            assert(added_signals(ss, d.added.take(i + 1)) =~= added_signals(ss, d.added.take(i as int)).push(
                SignalView::Added(d.added[i as int], headline_text(ss, d.added[i as int])),
            ));
            i = i + 1;
        }
        assert(d.added.take(d.added.len() as int) =~= d.added);
        let ghost a = signal_views(out@);
        let mut j: usize = 0;
        while j < diff.removed.len()
            invariant
                j <= diff.removed@.len(),
                d == diff@,
                signal_views(out@) == a + removed_signals(d.removed.take(j as int)),
            decreases diff.removed@.len() - j,
        {
            let ghost before = out@;
            out.push(Signal::DeviceRemoved { id: diff.removed[j].clone() });
            assert(signal_views(out@) =~= signal_views(before).push(signal_view(out@.last())));
            assert(removed_signals(d.removed.take(j + 1)) =~= removed_signals(d.removed.take(j as int)).push(
                SignalView::Removed(d.removed[j as int]),
            ));
            j = j + 1;
        }
        assert(d.removed.take(d.removed.len() as int) =~= d.removed);
        let ghost b = signal_views(out@);
        let mut k: usize = 0;
        while k < diff.newly_degraded.len()
            invariant
                k <= diff.newly_degraded@.len(),
                ss == self.manager.snapshot().summaries@,
                d == diff@,
                signal_views(out@) == b + degraded_signals(ss, d.newly_degraded.take(k as int)),
            decreases diff.newly_degraded@.len() - k,
        {
            let port = diff.newly_degraded[k];
            let entry = self.diagnose_port(port);
            let ghost before = out@;
            out.push(
                Signal::CapabilityDegraded {
                    port_number: port,
                    summary: entry.summary,
                    detail: entry.detail,
                },
            );
            assert(signal_views(out@) =~= signal_views(before).push(signal_view(out@.last())));
            assert(degraded_signals(ss, d.newly_degraded.take(k + 1)) =~= degraded_signals(
                ss,
                d.newly_degraded.take(k as int),
            ).push(signal_view(out@.last())));
            k = k + 1;
        }
        assert(d.newly_degraded.take(d.newly_degraded.len() as int) =~= d.newly_degraded);
        let ghost c = signal_views(out@);
        let mut m: usize = 0;
        while m < diff.resolved.len()
            invariant
                m <= diff.resolved@.len(),
                d == diff@,
                signal_views(out@) == c + restored_signals(d.resolved.take(m as int)),
            decreases diff.resolved@.len() - m,
        {
            let ghost before = out@;
            out.push(Signal::CapabilityRestored { port_number: diff.resolved[m] });
            assert(signal_views(out@) =~= signal_views(before).push(signal_view(out@.last())));
            assert(restored_signals(d.resolved.take(m + 1)) =~= restored_signals(d.resolved.take(m as int)).push(
                SignalView::Restored(d.resolved[m as int]),
            ));
            m = m + 1;
        }
        assert(d.resolved.take(d.resolved.len() as int) =~= d.resolved);
        assert(signal_views(out@) =~= signals_text(ss, d, false));
        out
    }
}

} // verus!
