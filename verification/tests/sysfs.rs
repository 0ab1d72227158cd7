use std::collections::BTreeMap;
use std::path::PathBuf;
use whatcable::power::PdoType;
use whatcable::sysfs::{
    first_pd_node, altmode_from, identity_from, iface_from, parse_i64, parse_pdo_type, parse_pdos, parse_u32,
    pd_port_from, pdo_from_files, pdo_int, port_number_of, power_supply_from, read_attr,
    read_hex, read_int, router_from, trim, ucsi_controller, ucsi_psy_name, usb_device_from,
    DeviceFiles, IdentityFiles, PdoFiles, RouterFiles, SupplyFiles,
};

fn some(s: &str) -> Option<String> {
    Some(s.to_string())
}

#[test]
fn pdo_type_parses_known_strings() {
    assert_eq!(parse_pdo_type("fixed_supply"), PdoType::FixedSupply);
    assert_eq!(parse_pdo_type("battery"), PdoType::Battery);
    assert_eq!(parse_pdo_type("variable_supply"), PdoType::VariableSupply);
    assert_eq!(parse_pdo_type("programmable_supply (pps)"), PdoType::Pps);
    assert_eq!(parse_pdo_type("programmable_supply"), PdoType::Pps);
    assert_eq!(parse_pdo_type("???"), PdoType::Unknown);
}

#[test]
fn ucsi_controller_extracts_id() {
    let p = "/sys/devices/platform/USBC000:00/typec/port0";
    assert_eq!(ucsi_controller(p).as_deref(), Some("USBC000:00"));
}

#[test]
fn ucsi_controller_none_when_missing() {
    assert!(ucsi_controller("/sys/class/typec/port0").is_none());
    assert!(ucsi_controller("USBCnope").is_none());
}

#[test]
fn parse_pdos_tolerates_unit_suffixes_and_skips_power_dir() {
    // Real kernels format PDO values with unit suffixes and place a
    // runtime-PM `power` directory among the PDO directories.
    let fixed = PdoFiles {
        pdo_type: some("fixed_supply\n"),
        voltage: some("5000mV\n"),
        maximum_current: some("3000mA\n"),
        ..Default::default()
    };
    // PPS the way real kernels publish it: no `type` file, range voltages.
    let pps = PdoFiles {
        minimum_voltage: some("5000mV\n"),
        maximum_voltage: some("21000mV\n"),
        maximum_current: some("3000mA\n"),
        ..Default::default()
    };
    let entries = vec![
        ("1:fixed_supply".to_string(), fixed),
        ("5:programmable_supply".to_string(), pps),
        ("power".to_string(), PdoFiles::default()),
    ];
    let pdos = parse_pdos(&entries);
    assert_eq!(pdos.len(), 2);
    assert_eq!(pdos[0].pdo_type, PdoType::FixedSupply);
    assert_eq!(pdos[0].voltage_mv, 5000);
    assert_eq!(pdos[0].current_ma, 3000);
    assert_eq!(pdos[0].power_mw, 15_000);
    assert_eq!(pdos[0].index, 1);
    assert_eq!(pdos[1].pdo_type, PdoType::Pps);
    assert_eq!(pdos[1].voltage_mv, 5000);
    assert_eq!(pdos[1].max_voltage_mv, 21000);
    assert_eq!(pdos[1].index, 5);
    assert!(pdos.iter().all(|p| !p.is_active));
}

#[test]
fn pdo_maximum_power_wins_over_product() {
    let f = PdoFiles {
        voltage: some("9000"),
        maximum_current: some("3000"),
        maximum_power: some("25000mW"),
        ..Default::default()
    };
    let p = pdo_from_files("2:fixed_supply", &f);
    assert_eq!(p.power_mw, 25_000);
    assert_eq!(p.index, 2);
    // Without `maximum_current`, `current` is read.
    let g = PdoFiles {
        voltage: some("20000"),
        current: some("5000"),
        ..Default::default()
    };
    let q = pdo_from_files("x", &g);
    assert_eq!(q.current_ma, 5000);
    assert_eq!(q.power_mw, 100_000);
    assert_eq!(q.index, 0);
    assert_eq!(q.pdo_type, PdoType::Unknown);
}

#[test]
fn pdo_values_read_leading_digits() {
    assert_eq!(pdo_int("5000mV\n"), Some(5000));
    assert_eq!(pdo_int("  42 "), Some(42));
    assert_eq!(pdo_int("mV"), None);
    assert_eq!(pdo_int(""), None);
}

#[test]
fn attributes_trim_and_parse() {
    assert_eq!(trim("  a b \n"), "a b");
    assert_eq!(read_attr(" \n\t"), None);
    assert_eq!(read_attr("fixed\n").as_deref(), Some("fixed"));
    assert_eq!(read_int("42\n"), Some(42));
    assert_eq!(read_int("-7"), Some(-7));
    assert_eq!(read_int("+7"), Some(7));
    assert_eq!(read_int("abc"), None);
    assert_eq!(read_int(""), None);
    assert_eq!(read_int("-"), None);
    assert_eq!(read_int("9223372036854775807"), Some(i64::MAX));
    assert_eq!(read_int("-9223372036854775808"), Some(i64::MIN));
    assert_eq!(read_int("9223372036854775808"), None);
    assert_eq!(read_hex("0x05ac\n"), Some(0x05ac));
    assert_eq!(read_hex("0X1F"), Some(0x1f));
    assert_eq!(read_hex("18d1"), Some(0x18d1));
    assert_eq!(read_hex("0x"), None);
    assert_eq!(read_hex("-1"), None);
    assert_eq!(read_hex("100000000"), None);
    assert_eq!(parse_i64("12"), "12".parse::<i64>().ok());
    assert_eq!(parse_u32("ff", 16), u32::from_str_radix("ff", 16).ok());
    assert_eq!(parse_u32("+", 10), u32::from_str_radix("+", 10).ok());
}

#[test]
fn pd_port_needs_a_pdo_and_defaults_unlinked() {
    assert!(pd_port_from(PathBuf::new(), "pd0", None, vec![], vec![], BTreeMap::new()).is_none());
    let caps = parse_pdos(&vec![(
        "1:fixed_supply".to_string(),
        PdoFiles {
            voltage: some("20000"),
            maximum_current: some("5000"),
            ..Default::default()
        },
    )]);
    let p = pd_port_from(PathBuf::new(), "pd0", None, caps.clone(), vec![], BTreeMap::new()).unwrap();
    assert_eq!(p.parent_port_number, -1);
    assert_eq!(p.max_source_power_mw, 100_000);
    assert_eq!(p.name, "pd0");
    let q = pd_port_from(PathBuf::new(), "pd1", Some("1\n"), caps, vec![], BTreeMap::new()).unwrap();
    assert_eq!(q.parent_port_number, 1);
}

#[test]
fn ucsi_psy_name_counts_from_one() {
    assert_eq!(ucsi_psy_name("USBC000:00", 0), "ucsi-source-psy-USBC000:001");
}

#[test]
fn identity_keeps_spec_order_and_drops_trailing_zeros() {
    let f = IdentityFiles {
        id_header: some("0x6c0005ac"),
        product: some("0x12a8"),
        product_type_vdo1: some("0x0"),
        ..Default::default()
    };
    let id = identity_from(&f).unwrap();
    assert_eq!(id.vendor_id, 0x05ac);
    assert_eq!(id.product_id, 0x12a8);
    assert_eq!(id.vdos, vec![0x6c0005ac, 0, 0x12a8]);
    assert!(identity_from(&IdentityFiles::default()).is_none());
}

#[test]
fn port_numbers_come_from_port_names_only() {
    assert_eq!(port_number_of("port0"), Some(0));
    assert_eq!(port_number_of("port12"), Some(12));
    assert_eq!(port_number_of("port0-partner"), None);
    assert_eq!(port_number_of("port"), None);
    assert_eq!(port_number_of("usb1"), None);
    assert_eq!(port_number_of("port99999999999"), Some(-1));
}

#[test]
fn supply_reads_online_and_readings() {
    let f = SupplyFiles {
        online: some("1\n"),
        voltage_now: some("20000000"),
        charge_type: some("Fast\n"),
        ..Default::default()
    };
    let p = power_supply_from(PathBuf::new(), "ucsi-source-psy-USBC000:001", &f, BTreeMap::new());
    assert!(p.online);
    assert_eq!(p.voltage_now_uv, Some(20_000_000));
    assert_eq!(p.current_now_ua, None);
    assert_eq!(p.charge_type, "Fast");
    assert_eq!(p.usb_type, "");
}

#[test]
fn altmodes_need_owner_prefix_and_svid() {
    let m = altmode_from("port0-partner.1", "port0-partner", &some("ff01"), &some("1"), &some("yes"))
        .unwrap();
    assert_eq!(m.svid, 0xff01);
    assert_eq!(m.mode, 1);
    assert!(m.active);
    assert!(altmode_from("port0-cable.1", "port0-partner", &some("ff01"), &None, &None).is_none());
    assert!(altmode_from("port0-partner.x", "port0-partner", &some("ff01"), &None, &None).is_none());
    assert!(altmode_from("port0-partner.1", "port0-partner", &None, &None, &None).is_none());
}

#[test]
fn routers_need_a_generation_and_hosts_end_in_zero() {
    let f = RouterFiles {
        generation: some("4\n"),
        vendor: some("0x8087"),
        vendor_name: some("Intel\n"),
        ..Default::default()
    };
    let r = router_from(PathBuf::new(), "0-0", &f, BTreeMap::new()).unwrap();
    assert!(r.is_host);
    assert_eq!(r.generation, 4);
    assert_eq!(r.vendor_id, 0x8087);
    assert_eq!(r.vendor_name, "Intel");
    let d = router_from(PathBuf::new(), "1-1", &f, BTreeMap::new()).unwrap();
    assert!(!d.is_host);
    assert_eq!(d.domain, 1);
    assert!(router_from(PathBuf::new(), "domain0", &f, BTreeMap::new()).is_none());
    assert!(router_from(PathBuf::new(), "0-1", &RouterFiles::default(), BTreeMap::new()).is_none());
    let zero = RouterFiles {
        generation: some("0"),
        ..Default::default()
    };
    assert!(router_from(PathBuf::new(), "0-1", &zero, BTreeMap::new()).is_none());
}

#[test]
fn interfaces_and_devices_from_files() {
    let i = iface_from("1-1:1.2", &some("03"), &some("01"), &None, "usbhid".to_string()).unwrap();
    assert_eq!(i.number, 2);
    assert_eq!(i.class_code, 3);
    assert_eq!(i.sub_class, 1);
    assert_eq!(i.protocol, 0);
    assert!(iface_from("1-1", &some("03"), &None, &None, String::new()).is_none());
    let f = DeviceFiles {
        id_vendor: some("05ac\n"),
        id_product: some("12a8\n"),
        device_class: some("09"),
        product: some("iPhone\n"),
        speed: some("480"),
        max_power: some("500mA"),
        num_interfaces: some(" 3"),
        ..Default::default()
    };
    let d = usb_device_from(PathBuf::new(), "1-1", &f, vec![i], BTreeMap::new()).unwrap();
    assert_eq!(d.vendor_id, 0x05ac);
    assert_eq!(d.product, "iPhone");
    assert_eq!(d.speed, 480);
    assert_eq!(d.max_power_ma, 500);
    assert_eq!(d.num_interfaces, 3);
    assert!(d.is_hub);
    assert!(!d.is_root_hub);
    assert_eq!(d.interfaces.len(), 1);
    assert!(usb_device_from(PathBuf::new(), "1-1:1.0", &f, vec![], BTreeMap::new()).is_none());
    assert!(usb_device_from(PathBuf::new(), "usb1", &DeviceFiles::default(), vec![], BTreeMap::new()).is_none());
}

#[test]
fn first_pd_node_takes_least_pd_name() {
    let names: Vec<String> = vec!["pd3".into(), "port0-partner".into(), "pd10".into(), "pdx".into()];
    assert_eq!(first_pd_node(&names), "pd10");
    let none: Vec<String> = vec!["identity".into(), "pd".into()];
    assert_eq!(first_pd_node(&none), "");
}
