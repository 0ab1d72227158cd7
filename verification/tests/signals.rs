use whatcable::dbus::{Signal, State};
use whatcable::manager::{DeviceManager, Sysfs};
use whatcable::power::{PowerDataObject, PowerDeliveryPort};
use whatcable::typec::{TypeCPartner, TypeCPort};
use whatcable::usb::UsbDevice;
use whatcable::watch::RefreshReason;

fn thing(bp: &str, product: &str) -> UsbDevice {
    UsbDevice {
        bus_port: bp.into(),
        product: product.into(),
        ..Default::default()
    }
}

#[test]
fn first_refresh_primes_the_baseline_silently() {
    let mut state = State::new(DeviceManager::with_sysfs(Sysfs::with_root("/no/such")));
    let diff = state.refresh(vec![thing("1-1", "Keyboard")], vec![], vec![], vec![]);
    assert_eq!(diff.added, vec!["usb:1-1"]);
    assert!(state.signals(&diff, RefreshReason::Initial).is_empty());
}

#[test]
fn hotplug_refresh_signals_added_and_removed_devices() {
    let mut state = State::new(DeviceManager::with_sysfs(Sysfs::with_root("/no/such")));
    let _ = state.refresh(vec![thing("1-1", "Keyboard")], vec![], vec![], vec![]);
    let diff = state.refresh(vec![thing("1-2", "Mouse")], vec![], vec![], vec![]);
    let sigs = state.signals(&diff, RefreshReason::Hotplug);
    assert_eq!(
        sigs,
        vec![
            Signal::DeviceAdded {
                id: "usb:1-2".into(),
                headline: "Mouse".into()
            },
            Signal::DeviceRemoved {
                id: "usb:1-1".into()
            },
        ]
    );
    // Nothing changed: nothing to say.
    let again = state.refresh(vec![thing("1-2", "Mouse")], vec![], vec![], vec![]);
    assert!(again.is_empty());
    assert!(state.signals(&again, RefreshReason::Hotplug).is_empty());
}

#[test]
fn degraded_port_signal_carries_the_diagnostic() {
    let port = TypeCPort {
        port_number: 0,
        partner: Some(TypeCPartner::default()),
        ..Default::default()
    };
    let charger = PowerDeliveryPort {
        parent_port_number: 0,
        source_capabilities: vec![PowerDataObject {
            power_mw: 100_000,
            is_active: true,
            ..Default::default()
        }],
        max_source_power_mw: 100_000,
        ..Default::default()
    };
    let mut state = State::new(DeviceManager::with_sysfs(Sysfs::with_root("/no/such")));
    let _ = state.refresh(vec![], vec![port.clone()], vec![], vec![]);
    // The summary builder has no cable here, so the charger alone gives a
    // non-warning diagnostic: nothing degrades.
    let diff = state.refresh(vec![], vec![port], vec![charger], vec![]);
    assert!(diff.newly_degraded.is_empty());
    let sigs = state.signals(&diff, RefreshReason::Hotplug);
    assert!(sigs.is_empty());
}

#[test]
fn headline_falls_back_to_the_id() {
    let mut state = State::new(DeviceManager::with_sysfs(Sysfs::with_root("/no/such")));
    let _ = state.refresh(vec![thing("1-1", "Keyboard")], vec![], vec![], vec![]);
    assert_eq!(state.headline_for("usb:1-1"), "Keyboard");
    assert_eq!(state.headline_for("usb:9-9"), "usb:9-9");
}

#[test]
fn refresh_baseline_is_a_full_copy_of_the_snapshot() {
    let mut state = State::new(DeviceManager::with_sysfs(Sysfs::with_root("/no/such")));
    let port = TypeCPort { port_name: "port0".into(), port_number: 0, ..Default::default() };
    let _ = state.refresh(vec![thing("1-1", "Keyboard")], vec![port], vec![], vec![]);
    assert_eq!(state.previous.usb_devices.len(), 1);
    assert_eq!(state.previous.usb_devices[0].bus_port, "1-1");
    assert_eq!(state.previous.typec_ports.len(), 1);
    assert_eq!(state.previous.typec_ports[0].port_name, "port0");
    assert_eq!(state.previous.summaries.len(), 2);
    let copy = state.manager.snapshot().clone();
    assert!(state.manager.snapshot().diff(&copy).is_empty());
}
