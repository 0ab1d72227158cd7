use whatcable::dbus::{DeviceEntry, DiagnosticEntry, PowerEntry, State};
use whatcable::diagnostic::{Bottleneck, ChargingDiagnostic};
use whatcable::manager::{DeviceManager, Sysfs};
use whatcable::summary::{Category, DeviceSummary, PowerRole, PowerSummary, Status};
use whatcable::typec::{TypeCPartner, TypeCPort};
use whatcable::usb::UsbDevice;

#[test]
fn diagnostic_entry_default_is_absent() {
    let d = DiagnosticEntry::default();
    assert!(!d.present);
    assert_eq!(d.summary, "");
    assert!(!d.is_warning);
}

#[test]
fn power_entry_serializes_enum_as_string() {
    let p = PowerSummary {
        power_in_mw: 60_000,
        power_out_mw: 0,
        contract_mw: 0,
        power_role: PowerRole::Sink,
    };
    let e = PowerEntry::from_summary(&p);
    assert_eq!(e.power_in_mw, 60_000);
    assert_eq!(e.power_role, "Sink");
}

#[test]
fn device_entry_from_typec_summary_carries_structured_fields() {
    let port = TypeCPort {
        port_number: 7,
        partner: Some(TypeCPartner::default()),
        ..Default::default()
    };
    let s = DeviceSummary::from_typec_port(&port, None, None, None);
    let e = DeviceEntry::from_summary(&s);
    assert_eq!(e.port_number, 7);
    assert_eq!(e.category, "TypeCPort");
    assert_eq!(e.device_class, "Unknown");
    assert_eq!(e.status, format!("{:?}", Status::Connected));
    assert_eq!(e.id, "typec:");
    assert!(!e.charging_diag.present);
    // No PD → power_role falls through to capability or Unknown.
    assert!(matches!(
        e.power.power_role.as_str(),
        "Unknown" | "DualRole"
    ));
}

#[test]
fn device_entry_from_usb_summary_marks_no_port_number() {
    let usb = UsbDevice {
        bus_port: "1-1".into(),
        product: "thing".into(),
        vendor_id: 0x1234,
        product_id: 0x5678,
        speed: 480,
        version: "2.10".into(),
        ..Default::default()
    };
    let s = DeviceSummary::from_usb_device(&usb);
    let e = DeviceEntry::from_summary(&s);
    assert_eq!(e.port_number, -1);
    assert_eq!(e.id, "usb:1-1");
    assert_eq!(e.headline, "thing");
    assert_eq!(e.vendor_id, 0x1234);
    assert_eq!(e.product_id, 0x5678);
    assert_eq!(e.link_speed_mbps, 480);
    assert_eq!(e.usb_version, "2.1");
    assert!(!e.charging_diag.present);
    // USB plain device on a hub — power flow is zero, role Unknown.
    assert_eq!(e.power.power_in_mw, 0);
    assert_eq!(e.power.power_role, "Unknown");
}

#[test]
fn device_entry_carries_charging_diag_when_present() {
    let port = TypeCPort {
        port_number: 0,
        partner: Some(TypeCPartner::default()),
        ..Default::default()
    };
    let mut s = DeviceSummary::from_typec_port(&port, None, None, None);
    s.status = Status::Charging;
    s.charging_diag = Some(ChargingDiagnostic {
        bottleneck: Bottleneck::CableLimit,
        summary: "Cable is limiting charging speed".into(),
        detail: "Cable rated for 60W, but charger can deliver 100W".into(),
        is_warning: true,
    });
    let e = DeviceEntry::from_summary(&s);
    assert!(e.charging_diag.present);
    assert_eq!(e.charging_diag.bottleneck, "CableLimit");
    assert_eq!(e.charging_diag.summary, "Cable is limiting charging speed");
    assert!(e.charging_diag.detail.contains("60W"));
    assert!(e.charging_diag.is_warning);
}

#[test]
fn empty_state_yields_empty_iface_responses() {
    let _category_unused = Category::UsbDevice;
    let manager = DeviceManager::with_sysfs(Sysfs::with_root("/no/such/usbeehive"));
    let state = State::new(manager);
    assert!(state.snapshot_entries().is_empty());
    let d = state.diagnose_port(0);
    assert!(!d.present);
}
