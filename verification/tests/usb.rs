use whatcable::usb::{
    bus_port_depth, link_speed_tier, parent_bus_port, parse_max_power, quirk_names, speed_label, tree_roots, LinkSpeed, UsbDevice, USB_QUIRK_NO_BOS,
    USB_QUIRK_NO_LPM,
};


#[test]
fn usb_speed_label_thresholds() {
    assert_eq!(speed_label(0), "Unknown speed");
    assert_eq!(speed_label(2), "Low Speed 1.5 Mbps");
    assert_eq!(speed_label(12), "Full Speed 12 Mbps");
    assert_eq!(speed_label(480), "High Speed 480 Mbps");
    assert_eq!(speed_label(5000), "SuperSpeed 5 Gbps");
    assert_eq!(speed_label(10000), "SuperSpeed+ 10 Gbps");
    assert_eq!(speed_label(20000), "USB4 20 Gbps");
    assert_eq!(speed_label(40000), "USB4 40 Gbps");
}

#[test]
fn link_speed_tier_buckets() {
    assert_eq!(link_speed_tier(0), LinkSpeed::Unknown);
    assert_eq!(link_speed_tier(2), LinkSpeed::Low);
    assert_eq!(link_speed_tier(12), LinkSpeed::Full);
    assert_eq!(link_speed_tier(480), LinkSpeed::High);
    assert_eq!(link_speed_tier(5_000), LinkSpeed::Super);
    assert_eq!(link_speed_tier(10_000), LinkSpeed::SuperPlus);
    assert_eq!(link_speed_tier(20_000), LinkSpeed::SuperPlus20);
    assert_eq!(link_speed_tier(40_000), LinkSpeed::Usb4);
}

#[test]
fn link_speed_label_matches_legacy() {
    for mbps in [0, 2, 12, 480, 5_000, 10_000, 20_000, 40_000] {
        assert_eq!(link_speed_tier(mbps).label(), speed_label(mbps));
    }
}

#[test]
fn parent_bus_port_resolves_levels() {
    let mk = |bp: &str, root: bool| UsbDevice {
        bus_port: bp.into(),
        is_root_hub: root,
        ..Default::default()
    };
    assert_eq!(
        mk("5-2.4.1", false).parent_bus_port().as_deref(),
        Some("5-2.4")
    );
    assert_eq!(mk("1-1", false).parent_bus_port().as_deref(), Some("usb1"));
    assert_eq!(mk("usb5", true).parent_bus_port(), None);
}

#[test]
fn tree_roots_includes_root_hubs_and_orphans() {
    let root = UsbDevice {
        bus_port: "usb1".into(),
        is_root_hub: true,
        ..Default::default()
    };
    let attached = UsbDevice {
        bus_port: "1-1".into(),
        ..Default::default()
    };
    let orphan = UsbDevice {
        bus_port: "9-9".into(),
        ..Default::default()
    };
    let devs = vec![root, attached, orphan];
    let roots: Vec<&str> = tree_roots(&devs)
        .iter()
        .map(|d| d.bus_port.as_str())
        .collect();
    assert!(roots.contains(&"usb1"));
    assert!(roots.contains(&"9-9"));
    assert!(!roots.contains(&"1-1"));
}

#[test]
fn usb_power_label_formats() {
    let d = UsbDevice {
        max_power_ma: 0,
        ..Default::default()
    };
    assert!(d.power_label().is_none());
    let d = UsbDevice {
        max_power_ma: 100,
        ..Default::default()
    };
    assert_eq!(d.power_label().as_deref(), Some("100 mA"));
    let d = UsbDevice {
        max_power_ma: 1500,
        ..Default::default()
    };
    assert_eq!(d.power_label().as_deref(), Some("1.5 W"));
}

#[test]
fn quirk_names_are_ascending_and_prefix_stripped() {
    assert!(quirk_names(0).is_empty());
    // 0x400 is the live value on this project's reference RTL8153.
    assert_eq!(quirk_names(USB_QUIRK_NO_LPM), vec!["NO_LPM"]);
    assert_eq!(quirk_names(USB_QUIRK_NO_BOS), vec!["NO_BOS"]);
    assert_eq!(
        quirk_names(USB_QUIRK_NO_BOS | (1 << 1) | USB_QUIRK_NO_LPM),
        vec!["RESET_RESUME", "NO_LPM", "NO_BOS"]
    );
}

#[test]
fn quirk_names_render_unknown_bits_rather_than_dropping_them() {
    // Bit 19 does not exist in the 7.0 header snapshot; a newer kernel
    // must still be reported, not silently swallowed.
    assert_eq!(quirk_names(1 << 19), vec!["bit19"]);
    assert_eq!(quirk_names(1 << 31), vec!["bit31"]);
    assert_eq!(
        quirk_names(USB_QUIRK_NO_BOS | (1 << 19)),
        ["NO_BOS", "bit19"]
    );
}

#[test]
fn self_powered_reads_bmattributes_bit6() {
    let mk = |bm: u32| UsbDevice {
        bm_attributes: bm,
        ..Default::default()
    };
    // Live values from the reference machine.
    assert_eq!(mk(0xe0).self_powered(), Some(true)); // 3-6, 5-2
    assert_eq!(mk(0xc0).self_powered(), Some(true)); // 5-2.1.2
    assert_eq!(mk(0xa0).self_powered(), Some(false)); // 5-2.4
    assert_eq!(mk(0x80).self_powered(), Some(false)); // 3-5
    assert_eq!(mk(0).self_powered(), None); // attribute absent
}

#[test]
fn hub_power_budget_only_for_bus_powered_hubs() {
    let mk = |is_hub: bool, bm: u32, speed: u32| UsbDevice {
        is_hub,
        bm_attributes: bm,
        speed,
        ..Default::default()
    };
    assert_eq!(mk(true, 0xa0, 12).hub_power_budget_ma(), Some(500));
    assert_eq!(mk(true, 0xa0, 5000).hub_power_budget_ma(), Some(900));
    // Self-powered hub: no bus-derived ceiling worth quoting.
    assert_eq!(mk(true, 0xe0, 480).hub_power_budget_ma(), None);
    // Not a hub, and unread bmAttributes.
    assert_eq!(mk(false, 0xa0, 480).hub_power_budget_ma(), None);
    assert_eq!(mk(true, 0, 480).hub_power_budget_ma(), None);
}

#[test]
fn hub_power_committed_sums_bus_powered_children_only() {
    let child = |ma: u32, bm: u32| UsbDevice {
        max_power_ma: ma,
        bm_attributes: bm,
        ..Default::default()
    };
    let mut hub = UsbDevice {
        is_hub: true,
        bm_attributes: 0xa0,
        ..Default::default()
    };
    assert_eq!(hub.hub_power_committed_ma(), None);

    // Reference machine's 5-2.4: keyboard 90 mA + mouse 98 mA.
    hub.children = vec![child(90, 0xa0), child(98, 0xa0)];
    assert_eq!(hub.hub_power_committed_ma(), Some(188));

    // A self-powered child draws from its own supply, not this budget.
    hub.children.push(child(500, 0xe0));
    assert_eq!(hub.hub_power_committed_ma(), Some(188));

    // A child whose bmAttributes could not be read is counted — the
    // conservative direction for a budget.
    hub.children.push(child(100, 0));
    assert_eq!(hub.hub_power_committed_ma(), Some(288));
}

#[test]
fn usb_display_name_falls_back_to_vidpid() {
    let mut d = UsbDevice {
        vendor_id: 0x05AC,
        product_id: 0x12A8,
        ..Default::default()
    };
    assert_eq!(d.display_name(), "05ac:12a8");
    d.product = "iPhone".into();
    assert_eq!(d.display_name(), "iPhone");
}

#[test]
fn parse_max_power_strips_units() {
    assert_eq!(parse_max_power("500mA"), 500);
    assert_eq!(parse_max_power("100"), 100);
    assert_eq!(parse_max_power(""), 0);
    assert_eq!(parse_max_power("garbage"), 0);
}

#[test]
fn parent_bus_port_rules() {
    assert_eq!(parent_bus_port("1-1.4.2"), "1-1.4");
    assert_eq!(parent_bus_port("1-1"), "usb1");
    assert_eq!(parent_bus_port("usb1"), "");
}

#[test]
fn bus_port_depth_counts_dots() {
    assert_eq!(bus_port_depth("usb1"), 0);
    assert_eq!(bus_port_depth("1-1"), 1);
    assert_eq!(bus_port_depth("1-1.2"), 2);
    assert_eq!(bus_port_depth("1-1.2.3"), 3);
}

#[test]
fn no_bos_quirk_marks_bos_suppressed() {
    let d = UsbDevice {
        quirks: USB_QUIRK_NO_BOS,
        ..Default::default()
    };
    assert!(d.bos_suppressed_by_quirk());
    let d = UsbDevice {
        quirks: USB_QUIRK_NO_LPM,
        ..Default::default()
    };
    assert!(!d.bos_suppressed_by_quirk());
}

#[test]
fn data_rate_needs_a_bos() {
    let d = UsbDevice {
        speed: 480,
        ..Default::default()
    };
    assert!(d.data_rate().is_none());
    let blob = [
        0x05, 0x0f, 0x0f, 0x00, 0x01, //
        0x0a, 0x10, 0x03, 0x02, 0x0e, 0x00, 0x02, 0x0a, 0xff, 0x07,
    ];
    let d = UsbDevice {
        speed: 12,
        bos: whatcable::bos::parse(&blob),
        ..Default::default()
    };
    let a = d.data_rate().unwrap();
    assert_eq!(a.negotiated_mbps, 12);
    assert_eq!(a.capable_mbps, 5_000);
    assert_eq!(a.verdict, whatcable::bos::DataRateVerdict::Degraded);
}
