use whatcable::cable::CableInfo;
use whatcable::pd::{CableCurrent, CableSpeed};
use whatcable::power::{PdoType, PowerDataObject, PowerDeliveryPort};
use whatcable::summary::{
    classify_usb, power_contract_label, power_contract_string, Category, DeviceClass, DeviceSummary,
    PowerRole, Status,
};
use whatcable::typec::{TypeCAltMode, TypeCPartner, TypeCPort, TypeCPowerSupply};
use whatcable::usb::{UsbDevice, UsbInterface};
use whatcable::version::canonical_usb_version;

fn dev() -> UsbDevice {
    UsbDevice {
        vendor_id: 0x05AC,
        product_id: 0x12A8,
        product: "iPhone".into(),
        manufacturer: "Apple".into(),
        version: "2.10".into(),
        speed: 480,
        max_power_ma: 500,
        device_class: 0,
        interfaces: vec![UsbInterface {
            class_code: 0x03,
            protocol: 0x01,
            driver: "usbhid".into(),
            ..Default::default()
        }],
        ..Default::default()
    }
}

#[test]
fn usb_summary_extracts_structured_fields() {
    let s = DeviceSummary::from_usb_device(&dev());
    assert_eq!(s.headline, "iPhone");
    assert_eq!(s.vendor, "Apple");
    assert_eq!(s.product, "iPhone");
    assert_eq!(s.vendor_id, 0x05AC);
    assert_eq!(s.product_id, 0x12A8);
    assert_eq!(s.primary_driver, "usbhid");
    assert_eq!(s.link_speed_mbps, 480);
    assert_eq!(s.usb_version, "2.1");
    assert_eq!(s.device_class, DeviceClass::Phone);
    assert_eq!(s.category, Category::UsbDevice);
    // usb_power_ma surfaces in properties, not in `power`.
    assert_eq!(s.power.power_in_mw, 0);
    assert!(s
        .properties
        .iter()
        .any(|(k, v)| k == "usb_power_ma" && v == "500"));
}

#[test]
fn summary_hub_class_marks_hub() {
    let mut d = dev();
    d.device_class = 0x09;
    d.is_hub = true;
    let s = DeviceSummary::from_usb_device(&d);
    assert_eq!(s.category, Category::Hub);
    assert_eq!(s.device_class, DeviceClass::Hub);
    assert_eq!(s.icon, "network-wired");
}

#[test]
fn classify_keyboard_via_hid_protocol() {
    let d = UsbDevice {
        product: "Generic Keyboard".into(),
        interfaces: vec![UsbInterface {
            class_code: 0x03,
            protocol: 0x01,
            ..Default::default()
        }],
        ..Default::default()
    };
    assert_eq!(classify_usb(&d).0, DeviceClass::Keyboard);
}

#[test]
fn classify_mouse_via_hid_protocol() {
    let d = UsbDevice {
        interfaces: vec![UsbInterface {
            class_code: 0x03,
            protocol: 0x02,
            ..Default::default()
        }],
        ..Default::default()
    };
    assert_eq!(classify_usb(&d).0, DeviceClass::Mouse);
}

#[test]
fn classify_storage_via_class_code() {
    let d = UsbDevice {
        interfaces: vec![UsbInterface {
            class_code: 0x08,
            sub_class: 0x06,
            ..Default::default()
        }],
        ..Default::default()
    };
    let (class, sub) = classify_usb(&d);
    assert_eq!(class, DeviceClass::Storage);
    assert_eq!(sub, "scsi");
}

#[test]
fn classify_smartcard_via_ccid_class() {
    let d = UsbDevice {
        interfaces: vec![UsbInterface {
            class_code: 0x0B,
            ..Default::default()
        }],
        ..Default::default()
    };
    assert_eq!(classify_usb(&d).0, DeviceClass::SmartcardReader);
}

#[test]
fn classify_serial_via_cdc_acm() {
    let d = UsbDevice {
        interfaces: vec![UsbInterface {
            class_code: 0x02,
            sub_class: 0x02,
            ..Default::default()
        }],
        ..Default::default()
    };
    assert_eq!(classify_usb(&d).0, DeviceClass::Serial);
}

#[test]
fn classify_serial_via_ftdi_driver() {
    let d = UsbDevice {
        interfaces: vec![UsbInterface {
            class_code: 0xFF,
            driver: "ftdi_sio".into(),
            ..Default::default()
        }],
        ..Default::default()
    };
    assert_eq!(classify_usb(&d).0, DeviceClass::Serial);
}

#[test]
fn classify_bluetooth_via_wireless_subclass() {
    let d = UsbDevice {
        interfaces: vec![UsbInterface {
            class_code: 0xE0,
            sub_class: 0x01,
            protocol: 0x01,
            ..Default::default()
        }],
        ..Default::default()
    };
    assert_eq!(classify_usb(&d).0, DeviceClass::Bluetooth);
}

#[test]
fn classify_security_key_by_vid() {
    // Security keys advertise HID — must take precedence over keyboard.
    let d = UsbDevice {
        vendor_id: 0x1050,
        interfaces: vec![UsbInterface {
            class_code: 0x03,
            protocol: 0x01,
            ..Default::default()
        }],
        ..Default::default()
    };
    assert_eq!(classify_usb(&d).0, DeviceClass::SecurityKey);
}

#[test]
fn classify_phone_iphone_by_vid_and_product() {
    let d = UsbDevice {
        vendor_id: 0x05AC,
        product: "iPhone".into(),
        interfaces: vec![UsbInterface {
            class_code: 0xFF,
            ..Default::default()
        }],
        ..Default::default()
    };
    assert_eq!(classify_usb(&d).0, DeviceClass::Phone);
}

#[test]
fn classify_phone_android_via_adb_signature() {
    // Pixel-like composite with USB debugging enabled — ADB function
    // present alongside MTP (vendor-class) and an ACM serial diag
    // interface. The serial interface would otherwise win the inner
    // CDC-ACM branch and misclassify the device.
    let d = UsbDevice {
        vendor_id: 0x18D1,
        product: "Pixel 7".into(),
        interfaces: vec![
            UsbInterface {
                class_code: 0xFF,
                sub_class: 0x42,
                protocol: 0x01,
                ..Default::default()
            },
            UsbInterface {
                class_code: 0x02,
                sub_class: 0x02,
                ..Default::default()
            },
        ],
        ..Default::default()
    };
    assert_eq!(classify_usb(&d).0, DeviceClass::Phone);
}

#[test]
fn classify_phone_cat_s61_via_vid_and_ptp() {
    // Cat S61 (Bullitt 0x1BBB). iProduct is the model name — no `android`
    // substring — and the device exposes PTP + a CDC-ACM diag function.
    // Without the VID+PTP fallback this gets classified as Serial.
    let d = UsbDevice {
        vendor_id: 0x1BBB,
        product: "Cat S61".into(),
        interfaces: vec![
            UsbInterface {
                class_code: 0x06,
                sub_class: 0x01,
                protocol: 0x01,
                ..Default::default()
            },
            UsbInterface {
                class_code: 0x02,
                sub_class: 0x02,
                ..Default::default()
            },
        ],
        ..Default::default()
    };
    assert_eq!(classify_usb(&d).0, DeviceClass::Phone);
}

#[test]
fn classify_camera_not_misidentified_as_phone() {
    // DSLR exposing pure PTP (no vendor-class interface, unknown VID).
    // Must classify as Camera, not Phone — the heuristic threshold is
    // PTP + vendor-class, OR phone-VID + PTP.
    let d = UsbDevice {
        vendor_id: 0x04A9, // Canon
        product: "EOS R5".into(),
        interfaces: vec![UsbInterface {
            class_code: 0x06,
            sub_class: 0x01,
            protocol: 0x01,
            ..Default::default()
        }],
        ..Default::default()
    };
    assert_ne!(classify_usb(&d).0, DeviceClass::Phone);
}

#[test]
fn classify_capture_card_product_heuristic() {
    let d = UsbDevice {
        product: "Elgato Cam Link 4K".into(),
        interfaces: vec![UsbInterface {
            class_code: 0x0E,
            ..Default::default()
        }],
        ..Default::default()
    };
    assert_eq!(classify_usb(&d).0, DeviceClass::VideoCapture);
}

#[test]
fn canonical_usb_version_normalizes_bcd() {
    assert_eq!(canonical_usb_version(""), "");
    assert_eq!(canonical_usb_version("2.10"), "2.1");
    assert_eq!(canonical_usb_version("3.20"), "3.2");
    assert_eq!(canonical_usb_version("4.00"), "4.0");
    assert_eq!(canonical_usb_version("2.00"), "2.0");
}

#[test]
fn headline_synthesizes_vendor_class_when_iproduct_is_empty() {
    // Intel 8087:0029 Bluetooth radio — built-in chip with no iProduct
    // descriptor. UI clients reading only `headline` should see
    // "Intel Wireless" instead of "8087:0029".
    let d = UsbDevice {
        vendor_id: 0x8087,
        product_id: 0x0029,
        product: String::new(),
        manufacturer: String::new(),
        device_class: 0xE0,
        ..Default::default()
    };
    let s = DeviceSummary::from_usb_device(&d);
    assert_eq!(s.headline, "Intel Wireless");
    // Vendor / product / VID:PID are still exposed structurally for UI
    // clients that want to render the raw identifier.
    assert_eq!(s.vendor_id, 0x8087);
    assert_eq!(s.product_id, 0x0029);
}

#[test]
fn headline_uses_manufacturer_descriptor_over_vendor_db() {
    // When the USB descriptor's `iManufacturer` is populated, prefer
    // that over the vendor DB lookup for the headline.
    let d = UsbDevice {
        vendor_id: 0x8087,
        product_id: 0x0029,
        product: String::new(),
        manufacturer: "Intel Corp.".into(),
        device_class: 0xE0,
        ..Default::default()
    };
    let s = DeviceSummary::from_usb_device(&d);
    assert_eq!(s.headline, "Intel Corp. Wireless");
}

#[test]
fn headline_falls_back_to_class_when_vendor_unknown() {
    let d = UsbDevice {
        vendor_id: 0xDEAD,
        product_id: 0xBEEF,
        product: String::new(),
        manufacturer: String::new(),
        device_class: 0x08, // Mass Storage
        ..Default::default()
    };
    let s = DeviceSummary::from_usb_device(&d);
    assert_eq!(s.headline, "Mass Storage");
}

#[test]
fn headline_falls_back_to_vendor_when_class_unknown() {
    let d = UsbDevice {
        vendor_id: 0x8087,
        product_id: 0x0029,
        product: String::new(),
        manufacturer: String::new(),
        device_class: 0,
        interfaces: vec![],
        ..Default::default()
    };
    let s = DeviceSummary::from_usb_device(&d);
    assert_eq!(s.headline, "Intel");
}

#[test]
fn headline_falls_back_to_vidpid_when_nothing_known() {
    let d = UsbDevice {
        vendor_id: 0xDEAD,
        product_id: 0xBEEF,
        product: String::new(),
        manufacturer: String::new(),
        device_class: 0,
        interfaces: vec![],
        ..Default::default()
    };
    let s = DeviceSummary::from_usb_device(&d);
    assert_eq!(s.headline, "dead:beef");
}

#[test]
fn headline_prefers_iproduct_descriptor_when_present() {
    // Existing behaviour preserved: a real iProduct string wins over
    // the synthesized vendor+class form.
    let d = UsbDevice {
        vendor_id: 0x05AC,
        product_id: 0x12A8,
        product: "iPhone".into(),
        manufacturer: "Apple".into(),
        device_class: 0,
        interfaces: vec![],
        ..Default::default()
    };
    let s = DeviceSummary::from_usb_device(&d);
    assert_eq!(s.headline, "iPhone");
}

#[test]
fn transport_usb3_fires_for_superspeed() {
    let d = UsbDevice {
        speed: 10_000,
        ..Default::default()
    };
    let s = DeviceSummary::from_usb_device(&d);
    assert!(s
        .properties
        .iter()
        .any(|(k, v)| k == "transport.usb3" && v == "true"));
    assert!(!s.properties.iter().any(|(k, _)| k == "transport.usb2"));
}

#[test]
fn transport_usb2_fires_for_highspeed() {
    let d = UsbDevice {
        speed: 480,
        ..Default::default()
    };
    let s = DeviceSummary::from_usb_device(&d);
    assert!(s
        .properties
        .iter()
        .any(|(k, v)| k == "transport.usb2" && v == "true"));
    assert!(!s.properties.iter().any(|(k, _)| k == "transport.usb3"));
}

#[test]
fn transport_dp_and_tb_from_partner_altmodes() {
    let port = TypeCPort {
        port_number: 0,
        partner: Some(TypeCPartner {
            altmodes: vec![
                TypeCAltMode {
                    svid: 0xFF01,
                    mode: 1,
                    active: true,
                },
                TypeCAltMode {
                    svid: 0x8087,
                    mode: 1,
                    active: false,
                },
            ],
            ..Default::default()
        }),
        ..Default::default()
    };
    let s = DeviceSummary::from_typec_port(&port, None, None, None);
    assert!(s
        .properties
        .iter()
        .any(|(k, v)| k == "transport.dp_altmode" && v == "true"));
    assert!(s
        .properties
        .iter()
        .any(|(k, v)| k == "transport.tb" && v == "true"));
}

#[test]
fn summary_empty_typec_port_is_disconnected() {
    let port = TypeCPort {
        port_number: 1,
        ..Default::default()
    };
    let s = DeviceSummary::from_typec_port(&port, None, None, None);
    assert_eq!(s.headline, "USB-C Port 1");
    assert_eq!(s.subtitle, "Nothing connected");
    assert_eq!(s.status, Status::Empty);
    assert_eq!(s.power.power_role, PowerRole::Unknown);
}

#[test]
fn live_ucsi_power_reported_without_linked_pd_port() {
    // Real-hardware regression: a partner sourcing 5V @ 3A into a port the
    // laptop sinks on. The kernel exposes the live wattage only through the
    // online `ucsi-source-psy` — there is no `source-capabilities` directory
    // and no `usb_power_delivery` node paired to the port (so
    // `power_delivery` is None). The 15W must still surface as inbound power.
    let port = TypeCPort {
        port_number: 1,
        data_role: "host [device]".into(),
        power_role: "source [sink]".into(),
        partner: Some(TypeCPartner::default()),
        power_supply: Some(TypeCPowerSupply {
            online: true,
            voltage_now_uv: Some(5_000_000),
            current_now_ua: Some(3_000_000),
            ..Default::default()
        }),
        ..Default::default()
    };
    let s = DeviceSummary::from_typec_port(&port, None, None, None);
    assert_eq!(s.power.power_role, PowerRole::Sink);
    assert_eq!(s.power.power_in_mw, 15_000);
    assert_eq!(s.power.power_out_mw, 0);
    assert_eq!(s.status, Status::Charging);
}

#[test]
fn summary_charging_status_when_pd_source_present() {
    let port = TypeCPort {
        port_number: 0,
        partner: Some(TypeCPartner::default()),
        ..Default::default()
    };
    let pd = PowerDeliveryPort {
        source_capabilities: vec![PowerDataObject {
            pdo_type: PdoType::FixedSupply,
            voltage_mv: 20_000,
            current_ma: 5_000,
            power_mw: 100_000,
            is_active: true,
            ..Default::default()
        }],
        max_source_power_mw: 100_000,
        ..Default::default()
    };
    let s = DeviceSummary::from_typec_port(&port, Some(pd), None, None);
    assert_eq!(s.status, Status::Charging);
    assert!(s
        .properties
        .iter()
        .any(|(k, v)| k == "charger_max" && v == "100W"));
    assert!(s.charging_diag.is_some());
    assert_eq!(s.power.power_role, PowerRole::Sink);
    assert_eq!(s.power.power_in_mw, 100_000);
    assert_eq!(s.power.power_out_mw, 0);
}

#[test]
fn power_contract_string_renders_volts_amps() {
    let psy = TypeCPowerSupply {
        online: true,
        voltage_now_uv: Some(9_000_000),
        current_now_ua: Some(2_000_000),
        ..Default::default()
    };
    let label = power_contract_string(&psy).unwrap();
    assert!(label.contains("9.0V"));
    assert!(label.contains("2.00A"));
}

#[test]
fn active_pdo_inferred_from_live_ucsi_voltage() {
    // Real-hardware path: sysfs publishes every advertised PDO with
    // is_active=false. The UCSI live voltage_now reading tells us which
    // one is contracted — summary builder must cross-reference and
    // populate is_active so the wire's active_pdo_index resolves.
    let port = TypeCPort {
        port_number: 0,
        partner: Some(TypeCPartner::default()),
        power_supply: Some(TypeCPowerSupply {
            online: true,
            voltage_now_uv: Some(20_000_000), // 20.0V live
            current_now_ua: Some(4_500_000),
            ..Default::default()
        }),
        ..Default::default()
    };
    let pd = PowerDeliveryPort {
        source_capabilities: vec![
            PowerDataObject {
                pdo_type: PdoType::FixedSupply,
                voltage_mv: 5_000,
                current_ma: 3_000,
                power_mw: 15_000,
                is_active: false,
                index: 1,
                ..Default::default()
            },
            PowerDataObject {
                pdo_type: PdoType::FixedSupply,
                voltage_mv: 9_000,
                current_ma: 3_000,
                power_mw: 27_000,
                is_active: false,
                index: 2,
                ..Default::default()
            },
            PowerDataObject {
                pdo_type: PdoType::FixedSupply,
                voltage_mv: 20_000,
                current_ma: 5_000,
                power_mw: 100_000,
                is_active: false,
                index: 3,
                ..Default::default()
            },
        ],
        max_source_power_mw: 100_000,
        ..Default::default()
    };
    let s = DeviceSummary::from_typec_port(&port, Some(pd), None, None);
    let pd_out = s.power_delivery.as_ref().unwrap();
    assert!(!pd_out.source_capabilities[0].is_active);
    assert!(!pd_out.source_capabilities[1].is_active);
    assert!(
        pd_out.source_capabilities[2].is_active,
        "20V PDO should be active"
    );
    assert_eq!(pd_out.active_source_pdo_index, Some(3));
}

#[test]
fn active_pdo_inference_skipped_when_no_power_supply() {
    // No UCSI psy → can't infer; is_active stays as advertised. (Tests
    // that use explicit is_active=true still work.)
    let port = TypeCPort {
        port_number: 0,
        partner: Some(TypeCPartner::default()),
        power_supply: None,
        ..Default::default()
    };
    let pd = PowerDeliveryPort {
        source_capabilities: vec![PowerDataObject {
            pdo_type: PdoType::FixedSupply,
            voltage_mv: 5_000,
            is_active: false,
            ..Default::default()
        }],
        ..Default::default()
    };
    let s = DeviceSummary::from_typec_port(&port, Some(pd), None, None);
    assert!(!s.power_delivery.as_ref().unwrap().source_capabilities[0].is_active);
}

#[test]
fn cable_properties_appear() {
    let port = TypeCPort {
        port_number: 0,
        partner: Some(TypeCPartner::default()),
        ..Default::default()
    };
    let cable = CableInfo {
        cable_type: "passive".into(),
        speed: Some(CableSpeed::Usb32Gen2),
        current_rating: Some(CableCurrent::FiveAmp),
        max_watts: 100,
        is_passive: true,
        vendor_name: "Apple".into(),
        ..Default::default()
    };
    let s = DeviceSummary::from_typec_port(&port, None, Some(cable), None);
    let p: std::collections::HashMap<_, _> = s
        .properties
        .iter()
        .map(|(k, v)| (k.as_str(), v.as_str()))
        .collect();
    assert!(p
        .get("cable_speed")
        .is_some_and(|v| v.contains("3.2 Gen 2")));
    assert_eq!(p.get("cable_current").copied(), Some("5A"));
    assert_eq!(p.get("cable_max_power").copied(), Some("100W"));
    assert_eq!(p.get("cable_type").copied(), Some("passive"));
    assert_eq!(p.get("cable_vendor").copied(), Some("Apple"));
}

#[test]
fn power_contract_rounds_watts() {
    let psy = TypeCPowerSupply {
        online: true,
        voltage_now_uv: Some(9_000_000),
        current_now_ua: Some(2_000_000),
        ..Default::default()
    };
    let label = power_contract_label(&psy).unwrap();
    assert!(label.contains("9.0V"));
    assert!(label.contains("2.00A"));
    assert!(label.ends_with("18W"));
}

#[test]
fn sourcing_port_carries_no_charging_diagnostic() {
    let port = TypeCPort {
        port_number: 0,
        power_role: "[source] sink".into(),
        partner: Some(TypeCPartner::default()),
        ..Default::default()
    };
    let pd = PowerDeliveryPort {
        source_capabilities: vec![PowerDataObject {
            pdo_type: PdoType::FixedSupply,
            voltage_mv: 5_000,
            current_ma: 0,
            power_mw: 0,
            is_active: true,
            ..Default::default()
        }],
        max_source_power_mw: 60_000,
        ..Default::default()
    };
    let s = DeviceSummary::from_typec_port(&port, Some(pd), None, None);
    assert_eq!(s.status, Status::Sourcing);
    assert!(s.charging_diag.is_none());
}
