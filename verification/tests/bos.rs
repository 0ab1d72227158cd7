use whatcable::bos::{
    parse, rate_str, BosCapability, DataRateAssessment, DataRateVerdict, LaneSpeedExponent,
    LinkProtocol, SublinkSpeedAttribute, SublinkType, SuperSpeedCapability,
    SuperSpeedPlusCapability, CAP_SUPERSPEED_USB,
};


/// Real blob — "USB 10/100/1000 LAN" at `5-2.1.1`, negotiated 480 Mbps
/// behind a USB 2.0 hub.
const LAN_5_2_1_1: &[u8] = &[
    0x05, 0x0f, 0x16, 0x00, 0x02, // BOS header, 2 caps, wTotalLength 0x16
    0x07, 0x10, 0x02, 0x06, 0x00, 0x00, 0x00, // USB 2.0 Extension
    0x0a, 0x10, 0x03, 0x02, 0x0e, 0x00, 0x02, 0x0a, 0xff, 0x07, // SuperSpeed
];

/// Real blob — "4-Port USB 2.0 Hub" at `5-2`.
const HUB_5_2: &[u8] = &[
    0x05, 0x0f, 0x2a, 0x00, 0x03, // BOS header, 3 caps
    0x07, 0x10, 0x02, 0x1e, 0xf4, 0x00, 0x00, // USB 2.0 Extension
    0x0a, 0x10, 0x03, 0x00, 0x0e, 0x00, 0x01, 0x0a, 0xff, 0x03, // SuperSpeed
    0x14, 0x10, 0x04, 0x00, // Container ID header + bReserved
    0xf1, 0xad, 0xf5, 0xec, 0x11, 0x50, 0x05, 0x40, 0x91, 0xec, 0x71, 0xca, 0x71, 0x01, 0xb6,
    0xa2,
];

/// Real blob — xHCI root hub `usb2`, SuperSpeedPlus 10 Gbps single lane.
const ROOT_HUB_USB2: &[u8] = &[
    0x05, 0x0f, 0x2b, 0x00, 0x02, // BOS header, 2 caps
    0x0a, 0x10, 0x03, 0x02, 0x08, 0x00, 0x01, 0x00, 0x00, 0x00, // SuperSpeed
    0x1c, 0x10, 0x0a, 0x00, // SSP header + bReserved
    0x23, 0x00, 0x00, 0x00, // bmAttributes: SSAC=3 (4 attrs), SSIC=1
    0x04, 0x11, // wFunctionalitySupport: ssid 4, rx 1, tx 1
    0x00, 0x00, // wReserved
    0x34, 0x00, 0x05, 0x00, // ssid 4, 5 Gbps Rx, SuperSpeed
    0xb4, 0x00, 0x05, 0x00, // ssid 4, 5 Gbps Tx, SuperSpeed
    0x35, 0x40, 0x0a, 0x00, // ssid 5, 10 Gbps Rx, SuperSpeedPlus
    0xb5, 0x40, 0x0a, 0x00, // ssid 5, 10 Gbps Tx, SuperSpeedPlus
];

/// Real blob — Full-Speed-only device at `1-4`, USB 2.0 Extension alone.
const FS_ONLY_1_4: &[u8] = &[
    0x05, 0x0f, 0x0c, 0x00, 0x01, // BOS header, 1 cap
    0x07, 0x10, 0x02, 0x0e, 0x04, 0x00, 0x00, // USB 2.0 Extension
];

#[test]
fn parses_real_lan_adapter_blob() {
    let b = parse(LAN_5_2_1_1).expect("valid BOS");
    assert!(!b.truncated);
    assert_eq!(b.num_device_caps, 2);
    assert_eq!(b.total_length, 0x16);
    assert_eq!(b.capabilities.len(), 2);

    let ext = b.usb2_extension().expect("USB 2.0 Extension");
    assert_eq!(ext.bm_attributes, 0x0000_0006);
    assert!(ext.lpm);
    assert!(ext.besl);
    assert!(!ext.baseline_besl_valid);

    let ss = b.superspeed().expect("SuperSpeed cap");
    assert!(ss.ltm_capable);
    assert_eq!(ss.speeds_supported, 0x000E);
    assert!(!ss.supports_low());
    assert!(ss.supports_full());
    assert!(ss.supports_high());
    assert!(ss.supports_gen1());
    assert_eq!(ss.functionality_support, 2);
    assert_eq!(ss.u1_dev_exit_lat_us, 0x0a);
    assert_eq!(ss.u2_dev_exit_lat_us, 0x07ff);

    assert_eq!(b.max_capable_mbps(), 5_000);
    assert_eq!(b.functional_floor_mbps(), Some(480));
    assert_eq!(b.gen_label(), None);
    assert_eq!(b.container_id(), None);
}

#[test]
fn parses_real_hub_blob_with_container_id() {
    let b = parse(HUB_5_2).expect("valid BOS");
    assert!(!b.truncated);
    assert_eq!(b.num_device_caps, 3);
    assert_eq!(b.capabilities.len(), 3);

    let ext = b.usb2_extension().unwrap();
    assert_eq!(ext.bm_attributes, 0x0000_f41e);
    assert!(ext.lpm && ext.besl && ext.baseline_besl_valid && ext.deep_besl_valid);
    assert_eq!(ext.baseline_besl, 4);
    assert_eq!(ext.deep_besl, 15);

    let ss = b.superspeed().unwrap();
    assert!(!ss.ltm_capable);
    assert_eq!(ss.speeds_supported, 0x000E);
    assert_eq!(ss.functionality_support, 1);

    assert_eq!(b.max_capable_mbps(), 5_000);
    // Vendor says full functionality already at Full Speed.
    assert_eq!(b.functional_floor_mbps(), Some(12));

    let uuid = b.container_id().expect("container id");
    assert_eq!(uuid[0], 0xf1);
    assert_eq!(uuid[15], 0xa2);
    assert_eq!(
        b.container_id_string().as_deref(),
        Some("f1adf5ec-1150-0540-91ec-71ca7101b6a2")
    );
}

#[test]
fn parses_real_root_hub_superspeed_plus_blob() {
    let b = parse(ROOT_HUB_USB2).expect("valid BOS");
    assert!(!b.truncated);
    assert_eq!(b.capabilities.len(), 2);

    let ssp = b.superspeed_plus().expect("SSP cap");
    assert_eq!(ssp.sublink_speed_attr_count, 4);
    assert_eq!(ssp.sublink_speed_id_count, 2);
    assert_eq!(ssp.min_functional_ssid, 4);
    assert_eq!(ssp.min_rx_lane_count, 1);
    assert_eq!(ssp.min_tx_lane_count, 1);
    assert_eq!(ssp.sublink_attrs.len(), 4);

    let a0 = ssp.sublink_attrs[0];
    assert_eq!(a0.ssid, 4);
    assert_eq!(a0.exponent, LaneSpeedExponent::Gbps);
    assert_eq!(a0.sublink_type, SublinkType::SymmetricRx);
    assert!(a0.sublink_type.is_rx());
    assert_eq!(a0.protocol, LinkProtocol::SuperSpeed);
    assert_eq!(a0.mantissa, 5);
    assert_eq!(a0.lane_speed_mbps(), 5_000);

    let a1 = ssp.sublink_attrs[1];
    assert_eq!(a1.sublink_type, SublinkType::SymmetricTx);
    assert!(a1.sublink_type.is_tx());

    let a3 = ssp.sublink_attrs[3];
    assert_eq!(a3.ssid, 5);
    assert_eq!(a3.protocol, LinkProtocol::SuperSpeedPlus);
    assert_eq!(a3.lane_speed_mbps(), 10_000);
    assert_eq!(a3.sublink_type, SublinkType::SymmetricTx);

    assert_eq!(ssp.max_lane_speed_mbps(), 10_000);
    assert_eq!(ssp.effective_lane_count(), 1);
    assert_eq!(b.max_capable_mbps(), 10_000);
    assert_eq!(b.gen_label().as_deref(), Some("Gen 2x1"));
    // SuperSpeed cap declares bit 3 (Gen 1) as the functionality floor.
    assert_eq!(b.functional_floor_mbps(), Some(5_000));
}

#[test]
fn parses_real_full_speed_only_blob() {
    let b = parse(FS_ONLY_1_4).expect("valid BOS");
    assert!(!b.truncated);
    assert_eq!(b.capabilities.len(), 1);
    let ext = b.usb2_extension().unwrap();
    assert_eq!(ext.bm_attributes, 0x0000_040e);
    assert_eq!(ext.baseline_besl, 4);
    assert!(ext.baseline_besl_valid);
    assert!(!ext.deep_besl_valid);
    // No speed-bearing capability at all.
    assert_eq!(b.max_capable_mbps(), 0);
    assert_eq!(b.functional_floor_mbps(), None);
}

#[test]
fn gen1x2_and_gen2x1_are_distinguishable() {
    // Both aggregate to 10 Gbps and both report speed == 10000 in sysfs.
    let gen2x1 = SuperSpeedPlusCapability {
        sublink_speed_attr_count: 2,
        sublink_speed_id_count: 1,
        min_functional_ssid: 0,
        min_rx_lane_count: 1,
        min_tx_lane_count: 1,
        sublink_attrs: vec![
            SublinkSpeedAttribute::from_bits(0x000A_4030),
            SublinkSpeedAttribute::from_bits(0x000A_40B0),
        ],
    };
    let gen1x2 = SuperSpeedPlusCapability {
        sublink_speed_attr_count: 2,
        sublink_speed_id_count: 1,
        min_functional_ssid: 0,
        min_rx_lane_count: 2,
        min_tx_lane_count: 2,
        sublink_attrs: vec![
            SublinkSpeedAttribute::from_bits(0x0005_0030),
            SublinkSpeedAttribute::from_bits(0x0005_00b0),
        ],
    };
    assert_eq!(gen2x1.max_capable_mbps(), 10_000);
    assert_eq!(gen1x2.max_capable_mbps(), 10_000);
    assert_eq!(gen2x1.gen_label().as_deref(), Some("Gen 2x1"));
    assert_eq!(gen1x2.gen_label().as_deref(), Some("Gen 1x2"));
}

#[test]
fn lane_speed_exponents_scale() {
    // mantissa 10, Gbps
    assert_eq!(
        SublinkSpeedAttribute::from_bits(0x000A_0030).lane_speed_mbps(),
        10_000
    );
    // mantissa 480, Mbps (exponent bits = 2)
    assert_eq!(
        SublinkSpeedAttribute::from_bits(0x01E0_0020).lane_speed_mbps(),
        480
    );
    // mantissa 5000, Kbps (exponent bits = 1)
    assert_eq!(
        SublinkSpeedAttribute::from_bits(0x1388_0010).lane_speed_mbps(),
        5
    );
    // mantissa 65535, bps (exponent bits = 0) → sub-Mbps, floors to 0
    assert_eq!(
        SublinkSpeedAttribute::from_bits(0xFFFF_0000).lane_speed_mbps(),
        0
    );
    // Absurd Gbps mantissa saturates instead of overflowing.
    assert_eq!(
        SublinkSpeedAttribute::from_bits(0xFFFF_0030).lane_speed_mbps(),
        65_535_000
    );
}

// ---- malformed / hostile inputs -------------------------------------

#[test]
fn empty_blob_is_not_a_bos() {
    assert!(parse(&[]).is_none());
    assert!(parse(&[0x05]).is_none());
    assert!(parse(&[0x05, 0x0f, 0x16, 0x00]).is_none());
}

#[test]
fn wrong_descriptor_type_is_rejected() {
    assert!(parse(&[0x05, 0x01, 0x05, 0x00, 0x00]).is_none());
}

#[test]
fn wrong_header_length_is_rejected() {
    assert!(parse(&[0x04, 0x0f, 0x05, 0x00, 0x00]).is_none());
    assert!(parse(&[0x00, 0x0f, 0x05, 0x00, 0x00]).is_none());
}

#[test]
fn header_only_blob_parses_with_no_capabilities() {
    let b = parse(&[0x05, 0x0f, 0x05, 0x00, 0x00]).expect("valid header");
    assert!(b.capabilities.is_empty());
    assert!(!b.truncated);
    assert_eq!(b.max_capable_mbps(), 0);
    assert_eq!(b.functional_floor_mbps(), None);
}

#[test]
fn zero_blength_capability_terminates_the_walk() {
    // A zero bLength would advance the offset by nothing — must not loop.
    let blob = [
        0x05, 0x0f, 0x0c, 0x00, 0x02, // header claims 2 caps
        0x00, 0x10, 0x02, 0x00, 0x00, 0x00, 0x00, // bLength == 0
    ];
    let b = parse(&blob).expect("valid header");
    assert!(b.truncated);
    assert!(b.capabilities.is_empty());
}

#[test]
fn short_blength_capability_terminates_the_walk() {
    let blob = [
        0x05, 0x0f, 0x0c, 0x00, 0x02, //
        0x02, 0x10, 0x02, 0x00, 0x00, 0x00, 0x00, // bLength == 2 (< 3)
    ];
    let b = parse(&blob).expect("valid header");
    assert!(b.truncated);
    assert!(b.capabilities.is_empty());
}

#[test]
fn capability_overrunning_the_blob_is_truncated() {
    // Declares a 10-byte SuperSpeed cap but only 5 bytes follow.
    let blob = [
        0x05, 0x0f, 0x0f, 0x00, 0x01, //
        0x0a, 0x10, 0x03, 0x02, 0x0e,
    ];
    let b = parse(&blob).expect("valid header");
    assert!(b.truncated);
    assert!(b.capabilities.is_empty());
    assert_eq!(b.max_capable_mbps(), 0);
}

#[test]
fn blob_shorter_than_declared_total_length_keeps_what_parsed() {
    // wTotalLength claims 0x16 but only the first capability is present.
    let mut blob = LAN_5_2_1_1.to_vec();
    blob.truncate(12);
    let b = parse(&blob).expect("valid header");
    assert!(b.truncated);
    assert_eq!(b.capabilities.len(), 1);
    assert!(b.usb2_extension().is_some());
    assert_eq!(b.max_capable_mbps(), 0);
}

#[test]
fn non_device_capability_descriptor_type_stops_the_walk() {
    let blob = [
        0x05, 0x0f, 0x0c, 0x00, 0x01, //
        0x07, 0x21, 0x02, 0x06, 0x00, 0x00, 0x00, // bDescriptorType 0x21
    ];
    let b = parse(&blob).expect("valid header");
    assert!(b.truncated);
    assert!(b.capabilities.is_empty());
}

#[test]
fn unknown_capability_type_is_preserved_verbatim() {
    let blob = [
        0x05, 0x0f, 0x0b, 0x00, 0x01, //
        0x06, 0x10, 0x0d, 0xde, 0xad, 0xbe, // Billboard (0x0d)
    ];
    let b = parse(&blob).expect("valid header");
    assert!(!b.truncated);
    assert_eq!(b.capabilities.len(), 1);
    match &b.capabilities[0] {
        BosCapability::Other { cap_type, data } => {
            assert_eq!(*cap_type, 0x0d);
            assert_eq!(data, &[0xde, 0xad, 0xbe]);
        }
        other => panic!("expected Other, got {other:?}"),
    }
    assert_eq!(b.capabilities[0].cap_type(), 0x0d);
}

#[test]
fn undersized_typed_capability_falls_back_to_other() {
    // SuperSpeed cap declared but only 4 body bytes (needs 7).
    let blob = [
        0x05, 0x0f, 0x0c, 0x00, 0x01, //
        0x07, 0x10, 0x03, 0x02, 0x0e, 0x00, 0x02,
    ];
    let b = parse(&blob).expect("valid header");
    assert!(b.superspeed().is_none());
    assert_eq!(b.capabilities[0].cap_type(), CAP_SUPERSPEED_USB);
    assert!(matches!(
        b.capabilities[0],
        BosCapability::Other { cap_type: 0x03, .. }
    ));
}

#[test]
fn superspeed_plus_with_truncated_attr_array_keeps_whole_entries() {
    // Claims 4 attributes, supplies 1 and a half.
    let blob = [
        0x05, 0x0f, 0x18, 0x00, 0x01, //
        0x13, 0x10, 0x0a, 0x00, // SSP, bLength 0x13 = 19
        0x23, 0x00, 0x00, 0x00, // SSAC=3 → 4 attrs claimed
        0x04, 0x11, 0x00, 0x00, //
        0x34, 0x00, 0x05, 0x00, // one whole attribute
        0xb4, 0x00, 0x05, // three quarters of the next
    ];
    let b = parse(&blob).expect("valid header");
    let ssp = b.superspeed_plus().expect("SSP");
    assert_eq!(ssp.sublink_speed_attr_count, 4);
    assert_eq!(ssp.sublink_attrs.len(), 1);
    assert_eq!(b.max_capable_mbps(), 5_000);
}

#[test]
fn contradictory_functionality_support_is_not_trusted() {
    // bFunctionalitySupport names bit 3 but bit 3 is not set.
    let ss = SuperSpeedCapability {
        ltm_capable: false,
        speeds_supported: 0x0006, // full + high only
        functionality_support: 3, // claims Gen 1
        u1_dev_exit_lat_us: 0,
        u2_dev_exit_lat_us: 0,
    };
    assert_eq!(ss.functional_floor_mbps(), None);
    assert_eq!(ss.max_speed_mbps(), 480);

    // Out-of-range index is also rejected.
    let ss = SuperSpeedCapability {
        functionality_support: 9,
        speeds_supported: 0xFFFF,
        ..ss
    };
    assert_eq!(ss.functional_floor_mbps(), None);
}

#[test]
fn zero_container_id_is_reported_as_absent() {
    let mut blob = vec![0x05, 0x0f, 0x19, 0x00, 0x01, 0x14, 0x10, 0x04, 0x00];
    blob.extend_from_slice(&[0u8; 16]);
    let b = parse(&blob).expect("valid header");
    assert_eq!(b.container_id(), Some([0u8; 16]));
    assert_eq!(b.container_id_string(), None);
}

// ---- assessment -----------------------------------------------------

#[test]
fn assessment_suppresses_warning_at_vendor_declared_floor() {
    // The headline false-positive case: the LAN adapter advertises
    // SuperSpeed but declares full functionality at High Speed, and it
    // is linked at High Speed. Informational, never a warning.
    let b = parse(LAN_5_2_1_1).unwrap();
    let a = DataRateAssessment::evaluate(480, &b);
    assert_eq!(a.verdict, DataRateVerdict::BelowCapability);
    assert!(!a.is_warning);
    assert_eq!(a.negotiated_mbps, 480);
    assert_eq!(a.capable_mbps, 5_000);
    assert_eq!(a.functional_floor_mbps, 480);
    assert!(a.summary.contains("480 Mbps"));
    assert!(a.detail.contains("not a fault"));
}

#[test]
fn assessment_flags_below_the_declared_floor() {
    // Same device forced onto a Full-Speed link: now below its own floor.
    let b = parse(LAN_5_2_1_1).unwrap();
    let a = DataRateAssessment::evaluate(12, &b);
    assert_eq!(a.verdict, DataRateVerdict::Degraded);
    assert!(a.is_warning);
    assert!(a.summary.contains("12 Mbps"));
    assert!(a.detail.contains("5 Gbps"));
}

#[test]
fn assessment_at_capability_is_never_a_warning() {
    let b = parse(LAN_5_2_1_1).unwrap();
    let a = DataRateAssessment::evaluate(5_000, &b);
    assert_eq!(a.verdict, DataRateVerdict::AtCapability);
    assert!(!a.is_warning);
    assert!(a.detail.is_empty());

    // Negotiated *above* the advertised max is still AtCapability.
    let a = DataRateAssessment::evaluate(10_000, &b);
    assert_eq!(a.verdict, DataRateVerdict::AtCapability);
    assert!(!a.is_warning);
}

#[test]
fn assessment_is_unknown_without_usable_inputs() {
    let b = parse(FS_ONLY_1_4).unwrap();
    // No speed-bearing capability.
    let a = DataRateAssessment::evaluate(12, &b);
    assert_eq!(a.verdict, DataRateVerdict::Unknown);
    assert!(!a.is_warning);
    assert!(a.summary.is_empty());

    // Unknown negotiated speed.
    let b = parse(LAN_5_2_1_1).unwrap();
    let a = DataRateAssessment::evaluate(0, &b);
    assert_eq!(a.verdict, DataRateVerdict::Unknown);
    assert!(!a.is_warning);
}

#[test]
fn assessment_without_declared_floor_is_never_a_warning() {
    // SuperSpeed-capable device that declares no usable floor.
    let blob = [
        0x05, 0x0f, 0x0f, 0x00, 0x01, //
        0x0a, 0x10, 0x03, 0x00, 0x08, 0x00, 0x09, 0x00, 0x00, 0x00,
    ];
    let b = parse(&blob).unwrap();
    assert_eq!(b.max_capable_mbps(), 5_000);
    assert_eq!(b.functional_floor_mbps(), None);
    let a = DataRateAssessment::evaluate(480, &b);
    assert_eq!(a.verdict, DataRateVerdict::BelowCapability);
    assert!(!a.is_warning);
    assert_eq!(a.functional_floor_mbps, 0);
    assert!(a.detail.contains("no minimum speed"));
}

#[test]
fn assessment_carries_gen_label_when_derivable() {
    let b = parse(ROOT_HUB_USB2).unwrap();
    let a = DataRateAssessment::evaluate(10_000, &b);
    assert_eq!(a.capable_gen, "Gen 2x1");
    assert_eq!(a.verdict, DataRateVerdict::AtCapability);
}

#[test]
fn rate_str_formats_tiers() {
    assert_eq!(rate_str(480), "480 Mbps");
    assert_eq!(rate_str(12), "12 Mbps");
    assert_eq!(rate_str(5_000), "5 Gbps");
    assert_eq!(rate_str(10_000), "10 Gbps");
    assert_eq!(rate_str(1_500), "1.5 Gbps");
}

#[test]
fn verdict_labels_are_stable() {
    assert_eq!(DataRateVerdict::AtCapability.label(), "AtCapability");
    assert_eq!(DataRateVerdict::BelowCapability.label(), "BelowCapability");
    assert_eq!(DataRateVerdict::Degraded.label(), "Degraded");
    assert_eq!(DataRateVerdict::Unknown.label(), "Unknown");
}

#[test]
fn lane_counts_come_from_the_superspeed_plus_capability() {
    let b = parse(ROOT_HUB_USB2).unwrap();
    assert_eq!(b.lane_counts(), Some((1, 1)));
    let b = parse(LAN_5_2_1_1).unwrap();
    assert_eq!(b.lane_counts(), None);
}
