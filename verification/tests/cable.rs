use std::collections::BTreeMap;
use whatcable::cable::CableInfo;
use whatcable::pd::{CableCurrent, CableSpeed};
use whatcable::typec::{TypeCCable, TypeCIdentity};


fn id(vdos: Vec<u32>, vid: u16) -> TypeCIdentity {
    TypeCIdentity {
        vendor_id: vid,
        product_id: 0,
        vdos,
    }
}

#[test]
fn cable_passive_string_only() {
    let c = TypeCCable {
        cable_type: "passive".into(),
        plug_type: "type-c".into(),
        identity: None,
        raw_attributes: BTreeMap::new(),
    };
    let info = CableInfo::from_typec_cable(&c);
    assert!(info.is_passive);
    assert!(info.speed.is_none());
    assert_eq!(info.max_watts, 0);
}

#[test]
fn cable_cable_vdo_drives_active_flag() {
    let id_hdr = 4u32 << 27;
    let cable_vdo = 2u32 | (2 << 5) | (3 << 9);
    let cable = TypeCCable {
        cable_type: "passive".into(), // overridden by VDO active flag
        plug_type: String::new(),
        identity: Some(id(vec![id_hdr, 0, 0, cable_vdo], 0x05AC)),
        raw_attributes: BTreeMap::new(),
    };
    let info = CableInfo::from_typec_cable(&cable);
    assert_eq!(info.vendor_name, "Apple");
    assert_eq!(info.speed, Some(CableSpeed::Usb32Gen2));
    assert_eq!(info.current_rating, Some(CableCurrent::FiveAmp));
    assert_eq!(info.max_watts, 250);
    assert!(info.is_active);
    assert!(!info.is_passive);
}

#[test]
fn cable_passive_with_vdo_keeps_passive_flag() {
    let id_hdr = 3u32 << 27; // PassiveCable
    let cable_vdo = 1u32 | (1 << 5); // Gen1, 3A
    let cable = TypeCCable {
        cable_type: "passive".into(),
        plug_type: String::new(),
        identity: Some(id(vec![id_hdr, 0, 0, cable_vdo], 0x0BDA)),
        raw_attributes: BTreeMap::new(),
    };
    let info = CableInfo::from_typec_cable(&cable);
    assert_eq!(info.speed, Some(CableSpeed::Usb32Gen1));
    assert_eq!(info.current_rating, Some(CableCurrent::ThreeAmp));
    assert!(info.is_passive);
    assert!(!info.is_active);
    assert_eq!(info.vendor_name, "Realtek");
}

#[test]
fn trust_zero_vid_fires_on_blank_emarker() {
    let cable = TypeCCable {
        cable_type: "passive".into(),
        plug_type: String::new(),
        identity: Some(id(vec![3u32 << 27, 0, 0, 1], 0)),
        raw_attributes: BTreeMap::new(),
    };
    let info = CableInfo::from_typec_cable(&cable);
    assert!(info.trust.zero_vid);
    assert!(!info.trust.vid_unknown);
}

#[test]
fn trust_vid_unknown_fires_on_hex_fallback() {
    // 0xDEAD isn't in the bundled vendor DB — lookup falls back to a
    // hex string and vid_unknown fires.
    let cable = TypeCCable {
        cable_type: "passive".into(),
        plug_type: String::new(),
        identity: Some(id(vec![3u32 << 27, 0, 0, 1], 0xDEAD)),
        raw_attributes: BTreeMap::new(),
    };
    let info = CableInfo::from_typec_cable(&cable);
    assert!(!info.trust.zero_vid);
    assert!(info.trust.vid_unknown);
}

#[test]
fn trust_reserved_bits_fires_on_dirty_vdo() {
    let dirty = 1u32 | (1 << 5) | (1 << 3); // bit 3 is reserved
    let cable = TypeCCable {
        cable_type: "passive".into(),
        plug_type: String::new(),
        identity: Some(id(vec![3u32 << 27, 0, 0, dirty], 0x05AC)),
        raw_attributes: BTreeMap::new(),
    };
    let info = CableInfo::from_typec_cable(&cable);
    assert!(info.trust.reserved_bits_set);
    assert!(!info.trust.vid_unknown); // Apple is in the vendor DB
}

#[test]
fn trust_clean_cable_fires_nothing() {
    let clean = 2u32 | (2 << 5) | (3 << 9);
    let cable = TypeCCable {
        cable_type: "passive".into(),
        plug_type: String::new(),
        identity: Some(id(vec![3u32 << 27, 0, 0, clean], 0x05AC)),
        raw_attributes: BTreeMap::new(),
    };
    let info = CableInfo::from_typec_cable(&cable);
    assert!(!info.trust.any());
}

#[test]
fn cable_missing_cable_vdo_keeps_only_vendor() {
    let cable = TypeCCable {
        cable_type: "passive".into(),
        plug_type: String::new(),
        identity: Some(id(vec![1u32 << 31], 0x05AC)),
        raw_attributes: BTreeMap::new(),
    };
    let info = CableInfo::from_typec_cable(&cable);
    assert_eq!(info.vendor_name, "Apple");
    assert!(info.speed.is_none());
    assert_eq!(info.max_watts, 0);
}
