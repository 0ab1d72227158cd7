use whatcable::cable::CableInfo;
use whatcable::diagnostic::{Bottleneck, ChargingDiagnostic};
use whatcable::power::{PdoType, PowerDataObject, PowerDeliveryPort};


fn pdo(power_mw: u32, active: bool) -> PowerDataObject {
    PowerDataObject {
        pdo_type: PdoType::FixedSupply,
        power_mw,
        is_active: active,
        ..Default::default()
    }
}

fn pd(caps: Vec<PowerDataObject>) -> PowerDeliveryPort {
    let max = caps.iter().map(|p| p.power_mw).max().unwrap_or(0);
    PowerDeliveryPort {
        source_capabilities: caps,
        max_source_power_mw: max,
        ..Default::default()
    }
}

#[test]
fn diagnostic_no_source_caps_returns_none() {
    assert!(ChargingDiagnostic::evaluate(&PowerDeliveryPort::default(), None, 0).is_none());
}

#[test]
fn diagnostic_zero_charger_returns_none() {
    let port = pd(vec![pdo(0, false)]);
    assert!(ChargingDiagnostic::evaluate(&port, None, 0).is_none());
}

#[test]
fn diagnostic_cable_limit_flagged_with_warning() {
    let port = pd(vec![pdo(100_000, true)]);
    let cable = CableInfo {
        max_watts: 60,
        ..Default::default()
    };
    let d = ChargingDiagnostic::evaluate(&port, Some(&cable), 0).unwrap();
    assert_eq!(d.bottleneck, Bottleneck::CableLimit);
    assert!(d.is_warning);
    assert!(d.detail.contains("60W"));
}

#[test]
fn diagnostic_device_limit_when_active_below_80pct() {
    let port = pd(vec![pdo(100_000, false), pdo(15_000, true)]);
    let d = ChargingDiagnostic::evaluate(&port, None, 0).unwrap();
    assert_eq!(d.bottleneck, Bottleneck::DeviceLimit);
    assert!(!d.is_warning);
    assert!(d.summary.contains("15W"));
}

#[test]
fn diagnostic_fine_when_active_meets_charger() {
    let port = pd(vec![pdo(60_000, true)]);
    let d = ChargingDiagnostic::evaluate(&port, None, 0).unwrap();
    assert_eq!(d.bottleneck, Bottleneck::Fine);
    assert!(d.summary.contains("60W"));
}

#[test]
fn diagnostic_fine_when_no_active_pdo_uses_max() {
    let port = pd(vec![pdo(100_000, false)]);
    let cable = CableInfo {
        max_watts: 240,
        ..Default::default()
    };
    let d = ChargingDiagnostic::evaluate(&port, Some(&cable), 0).unwrap();
    assert_eq!(d.bottleneck, Bottleneck::Fine);
    assert!(d.summary.contains("100W"));
}

#[test]
fn sink_limit_when_request_far_below_healthy_contract() {
    // 65W charger, full 65W contract negotiated, but the sink only
    // requests 15W in its RDO (e.g. a laptop with an 80% battery
    // charge limit). Benign — must not raise is_warning.
    let port = pd(vec![pdo(65_000, true)]);
    let d = ChargingDiagnostic::evaluate(&port, None, 15_000).unwrap();
    assert_eq!(d.bottleneck, Bottleneck::SinkLimit);
    assert!(!d.is_warning);
    assert!(d.summary.contains("15W"));
    assert!(d.detail.contains("65W"));
}

#[test]
fn sink_limit_not_raised_when_request_near_contract() {
    // Requesting 60W of a 65W contract (> 80%) is Fine, not SinkLimit.
    let port = pd(vec![pdo(65_000, true)]);
    let d = ChargingDiagnostic::evaluate(&port, None, 60_000).unwrap();
    assert_eq!(d.bottleneck, Bottleneck::Fine);
}

#[test]
fn cable_limit_wins_over_sink_limit() {
    // A bad cable is the actionable fact even when the sink also
    // happens to be requesting little.
    let port = pd(vec![pdo(100_000, true)]);
    let cable = CableInfo {
        max_watts: 60,
        ..Default::default()
    };
    let d = ChargingDiagnostic::evaluate(&port, Some(&cable), 10_000).unwrap();
    assert_eq!(d.bottleneck, Bottleneck::CableLimit);
    assert!(d.is_warning);
}

#[test]
fn device_limit_wins_over_sink_limit() {
    // Contract itself is low (15W of 100W) — that's the dominant
    // story even if the request is lower still.
    let port = pd(vec![pdo(100_000, false), pdo(15_000, true)]);
    let d = ChargingDiagnostic::evaluate(&port, None, 5_000).unwrap();
    assert_eq!(d.bottleneck, Bottleneck::DeviceLimit);
}
