use whatcable::pd::{
    cable_current_label, cable_speed_label, cable_speed_max_gbps, cable_vdo_reserved_bits_set,
    decode_cable_vdo, decode_id_header, decode_ufp_vdo_highest_speed, product_type_label,
    CableCurrent, CableSpeed, ProductType,
};


#[test]
fn id_header_vendor_low16() {
    let h = decode_id_header(0x12345678);
    assert_eq!(h.vendor_id, 0x5678);
}

#[test]
fn id_header_active_cable_ufp() {
    let h = decode_id_header(4 << 27);
    assert_eq!(h.ufp_product_type, Some(ProductType::ActiveCable));
}

#[test]
fn id_header_dfp_field() {
    let h = decode_id_header(2 << 23);
    assert_eq!(h.dfp_product_type, Some(ProductType::Peripheral));
}

#[test]
fn id_header_flag_bits() {
    let h = decode_id_header((1u32 << 31) | (1 << 30) | (1 << 26));
    assert!(h.usb_comm_capable_as_host);
    assert!(h.usb_comm_capable_as_device);
    assert!(h.modal_operation);
}

#[test]
fn id_header_unknown_product_type_is_none() {
    // bits 27..29 = 7 → reserved
    let h = decode_id_header(7 << 27);
    assert_eq!(h.ufp_product_type, None);
}

#[test]
fn cable_vdo_decodes_speed_current_voltage() {
    let v = decode_cable_vdo(2 | (1 << 5), false);
    assert_eq!(v.speed, CableSpeed::Usb32Gen2);
    assert_eq!(v.current_rating, CableCurrent::ThreeAmp);
    assert_eq!(v.max_vbus_volts, 20);
    assert_eq!(v.max_watts, 60);
    assert!(!v.is_active);
}

#[test]
fn cable_vdo_5a_50v_marks_250w() {
    let v = decode_cable_vdo((2 << 5) | (3 << 9), true);
    assert_eq!(v.current_rating, CableCurrent::FiveAmp);
    assert_eq!(v.max_vbus_volts, 50);
    assert_eq!(v.max_watts, 250);
    assert!(v.is_active);
}

#[test]
fn reserved_bits_passive_detect() {
    // Passive cable: bit 3 is reserved.
    assert!(cable_vdo_reserved_bits_set(0b1000, false));
    // Bit 7 reserved in passive.
    assert!(cable_vdo_reserved_bits_set(1 << 7, false));
    // A well-formed passive cable VDO (Gen2, 5A, 50V) sets none of them.
    let clean = 2u32 | (2 << 5) | (3 << 9);
    assert!(!cable_vdo_reserved_bits_set(clean, false));
}

#[test]
fn reserved_bits_active_only_bit_3() {
    // Bit 3 still reserved in active.
    assert!(cable_vdo_reserved_bits_set(0b1000, true));
    // Bit 7 is *not* reserved in active (SBU). Must not fire.
    assert!(!cable_vdo_reserved_bits_set(1 << 7, true));
}

#[test]
fn cable_vdo_unknown_speed_falls_to_usb20() {
    let v = decode_cable_vdo(7, false);
    assert_eq!(v.speed, CableSpeed::Usb20);
}

#[test]
fn cable_vdo_vbus_through_bit() {
    let v = decode_cable_vdo(1 << 4, false);
    assert!(v.vbus_through_cable);
    let v = decode_cable_vdo(0, false);
    assert!(!v.vbus_through_cable);
}

#[test]
fn ufp_vdo_highest_speed_decodes_known_values() {
    // Version bits [31:29] non-zero (PD 3.x UFP VDO version 1.3).
    let v = 0b011u32 << 29;
    assert_eq!(decode_ufp_vdo_highest_speed(v), Some(CableSpeed::Usb20));
    assert_eq!(
        decode_ufp_vdo_highest_speed(v | 2),
        Some(CableSpeed::Usb32Gen2)
    );
    assert_eq!(
        decode_ufp_vdo_highest_speed(v | 4),
        Some(CableSpeed::Usb4Gen4)
    );
}

#[test]
fn ufp_vdo_highest_speed_rejects_zero_and_version_0() {
    // Zero VDO — PD 2.0 identity padded by the sysfs reader.
    assert_eq!(decode_ufp_vdo_highest_speed(0), None);
    // Non-zero payload but version bits [31:29] zero — not a UFP VDO.
    assert_eq!(decode_ufp_vdo_highest_speed(2), None);
}

#[test]
fn ufp_vdo_highest_speed_rejects_reserved_speed() {
    let v = (0b011u32 << 29) | 7;
    assert_eq!(decode_ufp_vdo_highest_speed(v), None);
}

#[test]
fn cable_speed_ord_follows_declaration_order() {
    // The Ord derive backs the cable-vs-device comparison; lock the
    // ascending declaration order.
    assert!(CableSpeed::Usb20 < CableSpeed::Usb32Gen2);
    assert!(CableSpeed::Usb32Gen2 < CableSpeed::Usb4Gen4);
    assert!(CableSpeed::Usb32Gen1 < CableSpeed::Usb32Gen2);
    assert!(CableSpeed::Usb4Gen3 < CableSpeed::Usb4Gen4);
}

#[test]
fn label_helpers() {
    assert_eq!(product_type_label(ProductType::Hub), "USB Hub");
    assert_eq!(
        cable_speed_label(CableSpeed::Usb4Gen4),
        "USB4 Gen 4 (40/80 Gbps)"
    );
    assert_eq!(cable_speed_max_gbps(CableSpeed::Usb32Gen1), 5);
    assert_eq!(cable_speed_max_gbps(CableSpeed::Usb20), 0);
    assert_eq!(cable_current_label(CableCurrent::FiveAmp), "5A");
}
