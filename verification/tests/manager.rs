use whatcable::diagnostic::{Bottleneck, ChargingDiagnostic};
use whatcable::manager::{build_summaries, DeviceManager, Snapshot, Sysfs};
use whatcable::power::{PowerDataObject, PowerDeliveryPort};
use whatcable::summary::Category;
use whatcable::thunderbolt::ThunderboltRouter;
use whatcable::typec::{TypeCCable, TypeCPartner, TypeCPort};
use whatcable::usb::UsbDevice;

#[test]
fn manager_root_hubs_are_excluded() {
    let root = UsbDevice {
        is_root_hub: true,
        bus_port: "usb1".into(),
        ..Default::default()
    };
    let child = UsbDevice {
        bus_port: "1-1".into(),
        product: "thing".into(),
        ..Default::default()
    };
    let summaries = build_summaries(&[root, child], &[], &[], &[]);
    assert_eq!(summaries.len(), 1);
    assert_eq!(summaries[0].headline, "thing");
    assert_eq!(summaries[0].category, Category::UsbDevice);
}

#[test]
fn manager_single_port_pd_pairs_with_single_typec() {
    let port = TypeCPort {
        port_number: 0,
        cable: None,
        partner: Some(TypeCPartner::default()),
        ..Default::default()
    };
    let pd = PowerDeliveryPort {
        parent_port_number: -1,
        source_capabilities: vec![PowerDataObject {
            power_mw: 60_000,
            ..Default::default()
        }],
        max_source_power_mw: 60_000,
        ..Default::default()
    };
    let summaries = build_summaries(&[], &[port], &[pd], &[]);
    assert_eq!(summaries.len(), 1);
    assert!(summaries[0].power_delivery.is_some());
}

#[test]
fn manager_multi_port_pd_matches_by_parent_number() {
    let p0 = TypeCPort {
        port_number: 0,
        partner: Some(TypeCPartner::default()),
        ..Default::default()
    };
    let p1 = TypeCPort {
        port_number: 1,
        partner: Some(TypeCPartner::default()),
        ..Default::default()
    };
    let pd_for_p1 = PowerDeliveryPort {
        parent_port_number: 1,
        source_capabilities: vec![PowerDataObject {
            power_mw: 100_000,
            ..Default::default()
        }],
        max_source_power_mw: 100_000,
        ..Default::default()
    };
    let summaries = build_summaries(&[], &[p0, p1], &[pd_for_p1], &[]);
    assert!(summaries[0].power_delivery.is_none());
    assert!(summaries[1].power_delivery.is_some());
}

#[test]
fn partner_symlink_pairs_pd_and_unlinked_pd_never_matches_port0() {
    // Mirrors the real-laptop layout: two ports, charger on port1, and
    // the pd nodes carry no parent_port_number (-1). The partner's
    // pd_name is the only linkage. Regression: the derived Default
    // used to leave parent_port_number at 0, spuriously pairing every
    // unlinked pd node with port 0.
    let p0 = TypeCPort {
        port_number: 0,
        partner: Some(TypeCPartner::default()),
        ..Default::default()
    };
    let p1 = TypeCPort {
        port_number: 1,
        partner: Some(TypeCPartner {
            pd_name: "pd1".into(),
            ..Default::default()
        }),
        ..Default::default()
    };
    let pd0 = PowerDeliveryPort {
        name: "pd0".into(),
        parent_port_number: -1,
        source_capabilities: vec![PowerDataObject {
            power_mw: 45_000,
            ..Default::default()
        }],
        max_source_power_mw: 45_000,
        ..Default::default()
    };
    let pd1 = PowerDeliveryPort {
        name: "pd1".into(),
        parent_port_number: -1,
        source_capabilities: vec![PowerDataObject {
            power_mw: 65_000,
            ..Default::default()
        }],
        max_source_power_mw: 65_000,
        ..Default::default()
    };
    let summaries = build_summaries(&[], &[p0, p1], &[pd0, pd1], &[]);
    assert!(
        summaries[0].power_delivery.is_none(),
        "unlinked pd node must not pair with port 0"
    );
    let paired = summaries[1].power_delivery.as_ref().unwrap();
    assert_eq!(paired.name, "pd1");
    assert_eq!(paired.max_source_power_mw, 65_000);
}

#[test]
fn partner_symlink_wins_over_parent_port_number() {
    // Symlink linkage is the kernel's canonical signal — it must beat
    // a (fixture-style) parent_port_number pointing elsewhere.
    let p0 = TypeCPort {
        port_number: 0,
        partner: Some(TypeCPartner {
            pd_name: "pd1".into(),
            ..Default::default()
        }),
        ..Default::default()
    };
    let pd0 = PowerDeliveryPort {
        name: "pd0".into(),
        parent_port_number: 0,
        source_capabilities: vec![PowerDataObject {
            power_mw: 45_000,
            ..Default::default()
        }],
        max_source_power_mw: 45_000,
        ..Default::default()
    };
    let pd1 = PowerDeliveryPort {
        name: "pd1".into(),
        parent_port_number: -1,
        source_capabilities: vec![PowerDataObject {
            power_mw: 65_000,
            ..Default::default()
        }],
        max_source_power_mw: 65_000,
        ..Default::default()
    };
    let summaries = build_summaries(&[], &[p0], &[pd0, pd1], &[]);
    let paired = summaries[0].power_delivery.as_ref().unwrap();
    assert_eq!(paired.name, "pd1");
}

#[test]
fn snapshot_diff_detects_added_and_removed_summaries() {
    let usb_a = UsbDevice {
        bus_port: "1-1".into(),
        product: "thing-a".into(),
        ..Default::default()
    };
    let usb_b = UsbDevice {
        bus_port: "1-2".into(),
        product: "thing-b".into(),
        ..Default::default()
    };
    let prev = Snapshot {
        summaries: build_summaries(std::slice::from_ref(&usb_a), &[], &[], &[]),
        ..Default::default()
    };
    let cur = Snapshot {
        summaries: build_summaries(std::slice::from_ref(&usb_b), &[], &[], &[]),
        ..Default::default()
    };
    let diff = cur.diff(&prev);
    assert_eq!(diff.added, vec!["usb:1-2"]);
    assert_eq!(diff.removed, vec!["usb:1-1"]);
    assert!(diff.newly_degraded.is_empty());
    assert!(diff.resolved.is_empty());
    assert!(!diff.is_empty());
}

#[test]
fn snapshot_diff_flags_newly_degraded_typec_port() {
    let port = TypeCPort {
        port_number: 0,
        partner: Some(TypeCPartner::default()),
        ..Default::default()
    };
    let charger = PowerDeliveryPort {
        parent_port_number: 0,
        source_capabilities: vec![PowerDataObject {
            power_mw: 100_000,
            ..Default::default()
        }],
        max_source_power_mw: 100_000,
        ..Default::default()
    };

    // Previous: same port, no charger → no diagnostic.
    let prev = Snapshot {
        summaries: build_summaries(&[], std::slice::from_ref(&port), &[], &[]),
        ..Default::default()
    };
    // Current: charger plugged in, but the cable is rated only 60W.
    let mut summaries = build_summaries(
        &[],
        std::slice::from_ref(&port),
        std::slice::from_ref(&charger),
        &[],
    );
    // Inject a CableLimit warning so we don't depend on the cable decoder
    // for this assertion.
    summaries[0].charging_diag = Some(ChargingDiagnostic {
        bottleneck: Bottleneck::CableLimit,
        summary: "Cable is limiting charging speed".into(),
        detail: "Cable rated for 60W, but charger can deliver 100W".into(),
        is_warning: true,
    });
    let cur = Snapshot {
        summaries,
        ..Default::default()
    };
    let diff = cur.diff(&prev);
    assert_eq!(diff.newly_degraded, vec![0]);
    assert!(diff.resolved.is_empty());
}

#[test]
fn snapshot_diff_flags_resolved_when_warning_clears() {
    let port = TypeCPort {
        port_number: 1,
        partner: Some(TypeCPartner::default()),
        ..Default::default()
    };
    let mut prev_summaries = build_summaries(&[], std::slice::from_ref(&port), &[], &[]);
    prev_summaries[0].charging_diag = Some(ChargingDiagnostic {
        bottleneck: Bottleneck::CableLimit,
        summary: "Cable is limiting charging speed".into(),
        detail: "".into(),
        is_warning: true,
    });
    let prev = Snapshot {
        summaries: prev_summaries,
        ..Default::default()
    };
    // Current: same port, no warning anymore.
    let cur = Snapshot {
        summaries: build_summaries(&[], std::slice::from_ref(&port), &[], &[]),
        ..Default::default()
    };
    let diff = cur.diff(&prev);
    assert_eq!(diff.resolved, vec![1]);
    assert!(diff.newly_degraded.is_empty());
}

#[test]
fn snapshot_diff_empty_when_unchanged() {
    let usb = UsbDevice {
        bus_port: "1-1".into(),
        product: "thing".into(),
        ..Default::default()
    };
    let snap = Snapshot {
        summaries: build_summaries(&[usb], &[], &[], &[]),
        ..Default::default()
    };
    let diff = snap.diff(&snap.clone());
    assert!(diff.is_empty(), "{diff:?}");
}

#[test]
fn manager_manager_with_missing_sysfs_yields_empty_snapshot() {
    let mut mgr = DeviceManager::with_sysfs(Sysfs::with_root("/no/such/usbeehive/root"));
    mgr.refresh(Vec::new(), Vec::new(), Vec::new(), Vec::new());
    let s = mgr.snapshot();
    assert!(s.usb_devices.is_empty());
    assert!(s.typec_ports.is_empty());
    assert!(s.pd_ports.is_empty());
    assert!(s.thunderbolt_routers.is_empty());
    assert!(s.summaries.is_empty());
}

#[test]
fn transport_usb4_fires_for_port_with_partner_when_usb4_link_present() {
    let port = TypeCPort {
        port_number: 0,
        partner: Some(TypeCPartner::default()),
        ..Default::default()
    };
    let routers = vec![
        ThunderboltRouter {
            route: "0-0".into(),
            is_host: true,
            generation: 4,
            ..Default::default()
        },
        ThunderboltRouter {
            route: "0-1".into(),
            is_host: false,
            generation: 4,
            ..Default::default()
        },
    ];
    let summaries = build_summaries(&[], std::slice::from_ref(&port), &[], &routers);
    let s = &summaries[0];
    assert!(s
        .properties
        .iter()
        .any(|(k, v)| k == "transport.usb4" && v == "true"));
}

#[test]
fn transport_usb4_silent_when_only_tbt3_partner() {
    // USB4-capable host, but the partner is a TBT3-only dock — link
    // runs at TBT3, not USB4.
    let port = TypeCPort {
        port_number: 0,
        partner: Some(TypeCPartner::default()),
        ..Default::default()
    };
    let routers = vec![
        ThunderboltRouter {
            route: "0-0".into(),
            is_host: true,
            generation: 4,
            ..Default::default()
        },
        ThunderboltRouter {
            route: "0-1".into(),
            is_host: false,
            generation: 3,
            ..Default::default()
        },
    ];
    let summaries = build_summaries(&[], std::slice::from_ref(&port), &[], &routers);
    assert!(!summaries[0]
        .properties
        .iter()
        .any(|(k, _)| k == "transport.usb4"));
}

#[test]
fn transport_usb4_silent_for_empty_port() {
    // No partner attached → don't ascribe USB4 to the port even if the
    // system has an active link elsewhere.
    let port = TypeCPort {
        port_number: 0,
        partner: None,
        cable: None,
        ..Default::default()
    };
    let routers = vec![
        ThunderboltRouter {
            route: "0-0".into(),
            is_host: true,
            generation: 4,
            ..Default::default()
        },
        ThunderboltRouter {
            route: "0-1".into(),
            is_host: false,
            generation: 4,
            ..Default::default()
        },
    ];
    let summaries = build_summaries(&[], std::slice::from_ref(&port), &[], &routers);
    assert!(!summaries[0]
        .properties
        .iter()
        .any(|(k, _)| k == "transport.usb4"));
}

#[test]
fn usb_correlation_via_usb_name() {
    // Port with a partner carrying usb_name "2-2" + a matching USB device
    // → subtitle is the USB product string and usb_device property present.
    let port = TypeCPort {
        port_number: 0,
        partner: Some(TypeCPartner {
            usb_name: "2-2".into(),
            ..Default::default()
        }),
        ..Default::default()
    };
    let usb_dev = UsbDevice {
        bus_port: "2-2".into(),
        product: "Pixel 7".into(),
        ..Default::default()
    };
    let summaries = build_summaries(&[usb_dev], std::slice::from_ref(&port), &[], &[]);
    let s = &summaries[0];
    // Subtitle should be the USB product string.
    assert_eq!(s.subtitle, "Pixel 7", "expected USB product subtitle");
    // usb_device cross-ref property.
    assert!(
        s.properties
            .iter()
            .any(|(k, v)| k == "usb_device" && v == "usb:2-2"),
        "expected usb_device property"
    );
}

#[test]
fn usb_correlation_noop_for_charger_partner() {
    // Charger port whose partner has empty usb_name → no usb_device property.
    let charger_port = TypeCPort {
        port_number: 1,
        partner: Some(TypeCPartner {
            usb_name: String::new(),
            ..Default::default()
        }),
        ..Default::default()
    };
    let summaries = build_summaries(&[], std::slice::from_ref(&charger_port), &[], &[]);
    let s = &summaries[0];
    // usb_device property must be absent for a charger.
    assert!(
        !s.properties.iter().any(|(k, _)| k == "usb_device"),
        "charger must not get usb_device property"
    );
}

#[test]
fn port_summary_carries_decoded_cable_and_matched_usb_device() {
    let port = TypeCPort {
        port_name: "port0".into(),
        port_number: 0,
        partner: Some(TypeCPartner { usb_name: "2-2".into(), ..Default::default() }),
        cable: Some(TypeCCable { cable_type: "active".into(), ..Default::default() }),
        ..Default::default()
    };
    let phone = UsbDevice { bus_port: "2-2".into(), product: "Pixel 8".into(), ..Default::default() };
    let out = build_summaries(&[phone], &[port], &[], &[]);
    assert_eq!(out.len(), 2);
    let cable = out[0].cable.as_ref().expect("decoded cable");
    assert!(cable.is_active);
    assert_eq!(out[0].subtitle, "Pixel 8");
    assert_eq!(out[1].headline, "Pixel 8");
}
