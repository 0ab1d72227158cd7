use whatcable::power::{PdoType, PowerDataObject, PowerDeliveryPort};


#[test]
fn voltage_label_pps_range() {
    let pdo = PowerDataObject {
        pdo_type: PdoType::Pps,
        voltage_mv: 3300,
        max_voltage_mv: 21000,
        ..Default::default()
    };
    assert_eq!(pdo.voltage_label(), "3.3-21.0V");
}

#[test]
fn voltage_label_fixed() {
    let pdo = PowerDataObject {
        pdo_type: PdoType::FixedSupply,
        voltage_mv: 9000,
        ..Default::default()
    };
    assert_eq!(pdo.voltage_label(), "9.0V");
}

#[test]
fn current_and_power_labels() {
    let pdo = PowerDataObject {
        current_ma: 3000,
        power_mw: 60_000,
        ..Default::default()
    };
    assert_eq!(pdo.current_label(), "3.00A");
    assert_eq!(pdo.power_label(), "60W");
}

#[test]
fn pdo_type_labels() {
    assert_eq!(PdoType::FixedSupply.label(), "Fixed");
    assert_eq!(PdoType::Pps.label(), "PPS");
    assert_eq!(PdoType::Unknown.label(), "Unknown");
}

fn fixed(index: u32, voltage_mv: u32, current_ma: u32) -> PowerDataObject {
    PowerDataObject {
        pdo_type: PdoType::FixedSupply,
        voltage_mv,
        current_ma,
        power_mw: voltage_mv.saturating_mul(current_ma) / 1000,
        index,
        ..Default::default()
    }
}

#[test]
fn infer_active_source_pdo_picks_exact_fixed() {
    let mut port = PowerDeliveryPort {
        source_capabilities: vec![
            fixed(1, 5_000, 3_000),
            fixed(2, 9_000, 3_000),
            fixed(3, 15_000, 3_000),
            fixed(4, 20_000, 5_000),
        ],
        ..Default::default()
    };
    // Live 20.0V → index 3.
    let i = port.infer_active_source_pdo(20_000).unwrap();
    assert_eq!(i, 3);
    assert!(port.source_capabilities[3].is_active);
    assert!(!port.source_capabilities[2].is_active);
    assert_eq!(port.active_source_pdo_index, Some(4));
}

#[test]
fn infer_active_source_pdo_tolerates_voltage_drop() {
    let mut port = PowerDeliveryPort {
        source_capabilities: vec![fixed(1, 5_000, 3_000), fixed(2, 20_000, 5_000)],
        ..Default::default()
    };
    // 19.7V under load — should still match the 20V PDO.
    let i = port.infer_active_source_pdo(19_700).unwrap();
    assert_eq!(i, 1);
}

#[test]
fn infer_active_source_pdo_matches_pps_range() {
    let pps = PowerDataObject {
        pdo_type: PdoType::Pps,
        voltage_mv: 3_300,
        max_voltage_mv: 21_000,
        current_ma: 5_000,
        power_mw: 100_000,
        index: 5,
        ..Default::default()
    };
    let mut port = PowerDeliveryPort {
        source_capabilities: vec![fixed(1, 5_000, 3_000), pps],
        ..Default::default()
    };
    // 12.0V inside the PPS [3.3, 21.0] window → PPS wins.
    let i = port.infer_active_source_pdo(12_000).unwrap();
    assert_eq!(i, 1);
    assert!(port.source_capabilities[1].is_active);
}

#[test]
fn infer_active_source_pdo_prefers_fixed_over_pps_when_both_match() {
    // A 20V/5A live contract should match the fixed 20V PDO even if a
    // PPS window also covers it — fixed beats PPS for charging contracts.
    let pps = PowerDataObject {
        pdo_type: PdoType::Pps,
        voltage_mv: 3_300,
        max_voltage_mv: 21_000,
        index: 5,
        ..Default::default()
    };
    let mut port = PowerDeliveryPort {
        source_capabilities: vec![pps, fixed(2, 20_000, 5_000)],
        ..Default::default()
    };
    let i = port.infer_active_source_pdo(20_000).unwrap();
    assert_eq!(i, 1);
    assert!(!port.source_capabilities[0].is_active);
    assert!(port.source_capabilities[1].is_active);
}

#[test]
fn infer_active_source_pdo_returns_none_when_nothing_matches() {
    let mut port = PowerDeliveryPort {
        source_capabilities: vec![fixed(1, 5_000, 3_000), fixed(2, 9_000, 3_000)],
        ..Default::default()
    };
    // 20V — no PDO advertises it.
    assert!(port.infer_active_source_pdo(20_000).is_none());
    assert!(port.source_capabilities.iter().all(|p| !p.is_active));
}

#[test]
fn infer_active_source_pdo_clears_previous_active() {
    let mut port = PowerDeliveryPort {
        source_capabilities: vec![fixed(1, 5_000, 3_000), fixed(2, 20_000, 5_000)],
        ..Default::default()
    };
    port.source_capabilities[0].is_active = true; // stale
    let i = port.infer_active_source_pdo(20_000).unwrap();
    assert_eq!(i, 1);
    assert!(!port.source_capabilities[0].is_active);
    assert!(port.source_capabilities[1].is_active);
}

#[test]
fn infer_active_source_pdo_handles_empty_list() {
    let mut port = PowerDeliveryPort::default();
    assert!(port.infer_active_source_pdo(20_000).is_none());
}
