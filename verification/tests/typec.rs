use whatcable::typec::{bracketed, TypeCCable, TypeCPartner, TypeCPort, TypeCPowerSupply};


#[test]
fn bracketed_extracts_active_role() {
    assert_eq!(bracketed("host [device]"), "device");
    assert_eq!(bracketed("[source] sink"), "source");
    assert_eq!(bracketed("plain"), "plain");
    assert_eq!(bracketed(""), "");
}

#[test]
fn is_connected_logic() {
    let mut p = TypeCPort::default();
    assert!(!p.is_connected());
    p.cable = Some(TypeCCable::default());
    assert!(p.is_connected());
    p.cable = None;
    p.partner = Some(TypeCPartner::default());
    assert!(p.is_connected());
}

#[test]
fn negotiated_power_mw_basic() {
    let psy = TypeCPowerSupply {
        voltage_now_uv: Some(5_000_000),
        current_now_ua: Some(3_000_000),
        ..Default::default()
    };
    assert_eq!(psy.negotiated_power_mw(), Some(15_000));
}

#[test]
fn negotiated_power_mw_epr_no_overflow() {
    // 48V (EPR) × 5A = 240W = 240_000 mW. Naive i32 multiply overflows
    // 48_000_000 µV × 5_000_000 µA — make sure i128 path is reached.
    let psy = TypeCPowerSupply {
        voltage_now_uv: Some(48_000_000),
        current_now_ua: Some(5_000_000),
        ..Default::default()
    };
    assert_eq!(psy.negotiated_power_mw(), Some(240_000));
}

#[test]
fn negotiated_power_mw_returns_none_on_missing() {
    let psy = TypeCPowerSupply::default();
    assert!(psy.negotiated_power_mw().is_none());

    let only_voltage = TypeCPowerSupply {
        voltage_now_uv: Some(5_000_000),
        ..Default::default()
    };
    assert!(only_voltage.negotiated_power_mw().is_none());
}

#[test]
fn negotiated_power_mw_rejects_zero_or_negative() {
    let zero = TypeCPowerSupply {
        voltage_now_uv: Some(0),
        current_now_ua: Some(3_000_000),
        ..Default::default()
    };
    assert!(zero.negotiated_power_mw().is_none());

    let neg = TypeCPowerSupply {
        voltage_now_uv: Some(5_000_000),
        current_now_ua: Some(-1),
        ..Default::default()
    };
    assert!(neg.negotiated_power_mw().is_none());
}

#[test]
fn current_roles_handle_brackets() {
    let p = TypeCPort {
        data_role: "host [device]".into(),
        power_role: "[source] sink".into(),
        ..Default::default()
    };
    assert_eq!(p.current_data_role(), "device");
    assert_eq!(p.current_power_role(), "source");
}
