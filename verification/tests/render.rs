use whatcable::manager::{DeviceManager, Sysfs};
use whatcable::power::{PdoType, PowerDataObject, PowerDeliveryPort};
use whatcable::render::{
    property_line, root_label, speed_color, text_lines, tree_lines, BRIGHT_BLACK, BRIGHT_BLUE,
    BRIGHT_MAGENTA, CYAN, GREEN, MAGENTA, YELLOW,
};
use whatcable::summary::DeviceSummary;
use whatcable::typec::{TypeCPartner, TypeCPort};
use whatcable::usb::{LinkSpeed, UsbDevice};

fn joined(lines: Vec<String>) -> String {
    let mut s = String::new();
    for l in lines {
        s.push_str(&l);
        s.push('\n');
    }
    s
}

#[test]
fn empty_text_says_no_devices() {
    let out = joined(text_lines(&[], &[]));
    assert!(out.contains("No USB devices found."));
}

fn render_property_string(key: &str, value: &str) -> String {
    let mut s = property_line(key, value);
    s.push('\n');
    s
}

#[test]
fn flag_properties_render_label_only_when_true() {
    // `transport.*` and `cable.trust.*` are boolean flags — the
    // renderer should drop the trailing ": true".
    let out = render_property_string("transport.usb4", "true");
    assert!(out.contains("USB4 link"), "{out}");
    assert!(!out.contains("true"), "{out}");

    let out = render_property_string("transport.dp_altmode", "true");
    assert!(out.contains("DisplayPort altmode"), "{out}");

    let out = render_property_string("cable.trust.zero_vid", "true");
    assert!(out.contains("zero VID"), "{out}");
    // Trust flags carry the YELLOW warning colour code.
    assert!(out.contains(YELLOW), "{out}");

    // The no-e-marker hint is informational — label only, no yellow.
    let out = render_property_string("cable.no_emarker", "true");
    assert!(out.contains("No cable e-marker visible"), "{out}");
    assert!(!out.contains(YELLOW), "{out}");
}

#[test]
fn value_bearing_properties_keep_colon_format() {
    let out = render_property_string("charger_max", "100W");
    assert!(out.contains("Charger max: 100W"), "{out}");

    let out = render_property_string("cable_speed", "USB 3.2 Gen 2");
    assert!(out.contains("Cable speed: USB 3.2 Gen 2"), "{out}");
}

#[test]
fn data_speed_limit_renders_yellow_sentence() {
    // Value-bearing warning — prose form, yellow like cable.trust.*.
    let out = render_property_string("cable.data_speed_limit", "USB 2.0");
    assert!(out.contains("Cable limits data to USB 2.0"), "{out}");
    assert!(out.contains(YELLOW), "{out}");
}

#[test]
fn unknown_property_falls_through_to_raw_key() {
    let out = render_property_string("future.unknown.key", "42");
    assert!(out.contains("future.unknown.key: 42"), "{out}");
}

#[test]
fn flag_property_with_non_true_value_falls_through() {
    // Defensive: if the daemon ever emits a non-"true" value on a flag
    // key, we should print it raw rather than silently dropping data.
    let out = render_property_string("transport.usb4", "partial");
    assert!(out.contains("transport.usb4: partial"), "{out}");
}

#[test]
fn speed_color_buckets() {
    assert_eq!(speed_color(LinkSpeed::Unknown), BRIGHT_BLACK);
    assert_eq!(speed_color(LinkSpeed::Low), BRIGHT_BLACK);
    assert_eq!(speed_color(LinkSpeed::Full), YELLOW);
    assert_eq!(speed_color(LinkSpeed::High), GREEN);
    assert_eq!(speed_color(LinkSpeed::Super), CYAN);
    assert_eq!(speed_color(LinkSpeed::SuperPlus), BRIGHT_BLUE);
    assert_eq!(speed_color(LinkSpeed::SuperPlus20), MAGENTA);
    assert_eq!(speed_color(LinkSpeed::Usb4), BRIGHT_MAGENTA);
}

#[test]
fn root_label_picks_spec_for_speed() {
    let mut d = UsbDevice {
        speed: 480,
        ..Default::default()
    };
    assert_eq!(root_label(&d), "USB 2.0 root");
    d.speed = 10_000;
    assert_eq!(root_label(&d), "USB 3.1 root");
    d.speed = 40_000;
    assert_eq!(root_label(&d), "USB4 root");
}

#[test]
fn print_tree_legend_appears_when_devices_exist() {
    let mgr = DeviceManager::with_sysfs(Sysfs::with_root("/no/such/usbeehive/path"));
    let out = joined(tree_lines(&mgr));
    assert!(out.contains("No USB devices found."));
}

#[test]
fn text_output_renders_charger_profiles() {
    let port = TypeCPort {
        port_number: 0,
        partner: Some(TypeCPartner::default()),
        ..Default::default()
    };
    let pd = PowerDeliveryPort {
        source_capabilities: vec![PowerDataObject {
            pdo_type: PdoType::FixedSupply,
            voltage_mv: 20_000,
            current_ma: 5_000,
            power_mw: 100_000,
            is_active: true,
            ..Default::default()
        }],
        max_source_power_mw: 100_000,
        ..Default::default()
    };
    let s = DeviceSummary::from_typec_port(&port, Some(pd), None, None);
    let out = joined(text_lines(&[s], &[Vec::new()]));
    assert!(out.contains("Charger profiles:"));
    assert!(out.contains("20.0V @ 5.00A"));
    assert!(out.contains("◀ active"));
}
