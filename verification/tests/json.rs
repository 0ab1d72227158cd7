use std::collections::BTreeMap;

use whatcable::json::{device_json, JsonValue};
use whatcable::power::{PdoType, PowerDataObject, PowerDeliveryPort};
use whatcable::summary::{DeviceSummary, Status};
use whatcable::typec::{TypeCPartner, TypeCPort, TypeCPowerSupply};
use whatcable::usb::{UsbDevice, UsbInterface};

fn member<'a>(v: &'a JsonValue, key: &str) -> &'a JsonValue {
    match v {
        JsonValue::Object(members) => {
            &members.iter().find(|(k, _)| k == key).unwrap_or_else(|| panic!("no {key}")).1
        }
        _ => panic!("not an object"),
    }
}

fn has(v: &JsonValue, key: &str) -> bool {
    match v {
        JsonValue::Object(members) => members.iter().any(|(k, _)| k == key),
        _ => false,
    }
}

fn text(v: &JsonValue) -> &str {
    match v {
        JsonValue::Str(s) => s.as_str(),
        _ => panic!("not a string"),
    }
}

#[test]
fn json_for_usb_summary_has_expected_keys() {
    let dev = UsbDevice {
        vendor_id: 0x05AC,
        product_id: 0x12A8,
        product: "iPhone".into(),
        version: "2.10".into(),
        speed: 480,
        ..Default::default()
    };
    let summary = DeviceSummary::from_usb_device(&dev);
    let v = device_json(&summary, false);
    assert_eq!(text(member(&v, "category")), "usb");
    assert_eq!(text(member(&v, "headline")), "iPhone");
    let usb = member(&v, "usb");
    assert_eq!(text(member(usb, "vendorId")), "0x05ac");
    assert_eq!(text(member(usb, "productId")), "0x12a8");
    assert_eq!(text(member(usb, "speedLabel")), "High Speed 480 Mbps");
}

#[test]
fn typec_summary_serializes() {
    let port = TypeCPort {
        port_number: 0,
        data_role: "host [device]".into(),
        ..Default::default()
    };
    let s = DeviceSummary::from_typec_port(&port, None, None, None);
    assert_eq!(s.status, Status::Empty);
    let v = device_json(&s, false);
    assert_eq!(text(member(&v, "category")), "typec");
    assert_eq!(text(member(member(&v, "typec"), "dataRole")), "device");
}

#[test]
fn json_top_level_keys_and_numbers() {
    let dev = UsbDevice {
        vendor_id: 0x046D,
        product_id: 0xC31C,
        product: "USB Keyboard".into(),
        speed: 12,
        max_power_ma: 100,
        bus_num: 1,
        dev_num: 4,
        interfaces: vec![UsbInterface {
            class_code: 3,
            sub_class: 1,
            protocol: 1,
            driver: "usbhid".into(),
            ..Default::default()
        }],
        ..Default::default()
    };
    let s = DeviceSummary::from_usb_device(&dev);
    let v = device_json(&s, false);
    assert_eq!(text(member(&v, "vendorId")), "0x046d");
    assert_eq!(text(member(&v, "deviceClass")), format!("{:?}", s.device_class));
    assert_eq!(text(member(&v, "status")), "Connected");
    assert_eq!(member(&v, "linkSpeedMbps"), &JsonValue::UInt(12));
    let usb = member(&v, "usb");
    assert_eq!(member(usb, "maxPowerMA"), &JsonValue::UInt(100));
    assert_eq!(member(usb, "bus"), &JsonValue::UInt(1));
    assert_eq!(member(usb, "device"), &JsonValue::UInt(4));
    assert_eq!(member(usb, "isHub"), &JsonValue::Bool(false));
    match member(usb, "interfaces") {
        JsonValue::Array(items) => {
            assert_eq!(items.len(), 1);
            assert_eq!(text(member(&items[0], "class")), "HID");
            assert_eq!(text(member(&items[0], "driver")), "usbhid");
        }
        _ => panic!("interfaces is not an array"),
    }
    assert!(!has(usb, "raw"));
    let power = member(&v, "power");
    assert_eq!(text(member(power, "powerRole")), "Unknown");
    assert!(!has(&v, "typec"));
    assert!(!has(&v, "charging"));
}

#[test]
fn json_raw_attributes_in_key_order_when_asked() {
    let mut raw = BTreeMap::new();
    raw.insert("speed".to_string(), "480".to_string());
    raw.insert("idVendor".to_string(), "05ac".to_string());
    let dev = UsbDevice { bus_port: "1-2".into(), raw_attributes: raw, ..Default::default() };
    let s = DeviceSummary::from_usb_device(&dev);
    let without = device_json(&s, false);
    assert!(!has(member(&without, "usb"), "raw"));
    let with = device_json(&s, true);
    match member(member(&with, "usb"), "raw") {
        JsonValue::Object(members) => {
            assert_eq!(members.len(), 2);
            assert_eq!(members[0].0, "idVendor");
            assert_eq!(text(&members[0].1), "05ac");
            assert_eq!(members[1].0, "speed");
            assert_eq!(text(&members[1].1), "480");
        }
        _ => panic!("raw is not an object"),
    }
}

#[test]
fn json_charging_port_reports_negotiated_power_and_pd() {
    let port = TypeCPort {
        port_number: 1,
        power_role: "source [sink]".into(),
        partner: Some(TypeCPartner::default()),
        power_supply: Some(TypeCPowerSupply {
            name: "ucsi-source-psy-1".into(),
            online: true,
            voltage_now_uv: Some(20_000_000),
            current_now_ua: Some(3_000_000),
            ..Default::default()
        }),
        ..Default::default()
    };
    let pd = PowerDeliveryPort {
        source_capabilities: vec![PowerDataObject {
            pdo_type: PdoType::FixedSupply,
            voltage_mv: 20_000,
            current_ma: 3_000,
            power_mw: 60_000,
            ..Default::default()
        }],
        max_source_power_mw: 60_000,
        ..Default::default()
    };
    let s = DeviceSummary::from_typec_port(&port, Some(pd), None, None);
    let v = device_json(&s, false);
    let psy = member(member(&v, "typec"), "powerSupply");
    assert_eq!(member(psy, "negotiatedPowerMW"), &JsonValue::Int(60_000));
    assert_eq!(member(psy, "voltageNowUV"), &JsonValue::Int(20_000_000));
    assert!(!has(psy, "currentMaxUA"));
    let pdj = member(&v, "powerDelivery");
    assert_eq!(member(pdj, "maxPowerMW"), &JsonValue::UInt(60_000));
    match member(pdj, "sourceCapabilities") {
        JsonValue::Array(items) => {
            assert_eq!(items.len(), 1);
            assert_eq!(text(member(&items[0], "type")), "Fixed");
            assert_eq!(member(&items[0], "active"), &JsonValue::Bool(true));
        }
        _ => panic!("sourceCapabilities is not an array"),
    }
    assert!(has(&v, "charging"));
    assert_eq!(text(member(&v, "status")), "Charging");
}
