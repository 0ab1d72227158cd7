use whatcable::bos::parse;
use whatcable::power::{PdoType, PowerDataObject, PowerDeliveryPort};
use whatcable::summary::{DeviceSummary, Status};
use whatcable::sysfs::read_hex;
use whatcable::typec::{TypeCPartner, TypeCPort};
use whatcable::usb::quirk_names;

#[test]
fn bos_with_too_many_capabilities_keeps_sixty_four() {
    // 100 three-byte Other capabilities.
    let total: u16 = 5 + 100 * 3;
    let mut blob = vec![0x05, 0x0f, (total & 0xff) as u8, (total >> 8) as u8, 100];
    for _ in 0..100 {
        blob.extend_from_slice(&[0x03, 0x10, 0x0d]);
    }
    let b = parse(&blob).expect("valid header");
    assert_eq!(b.capabilities.len(), 64);
}

#[test]
fn bos_needs_its_root_descriptor() {
    assert!(parse(&[0x05, 0x0f, 0x05, 0x00, 0x00]).is_some());
    assert!(parse(&[0x05, 0x0e, 0x05, 0x00, 0x00]).is_none());
    let b = parse(&[0x05, 0x0f, 0x20, 0x00, 0x00]).unwrap();
    assert!(b.truncated);
}

fn fixed(index: u32, voltage_mv: u32) -> PowerDataObject {
    PowerDataObject {
        pdo_type: PdoType::FixedSupply,
        voltage_mv,
        current_ma: 3_000,
        power_mw: voltage_mv * 3,
        index,
        ..Default::default()
    }
}

#[test]
fn inferring_twice_gives_the_same_answer() {
    let mut port = PowerDeliveryPort {
        source_capabilities: vec![fixed(1, 5_000), fixed(2, 9_000), fixed(3, 20_000)],
        ..Default::default()
    };
    let first = port.infer_active_source_pdo(8_800);
    let after_first: Vec<bool> = port.source_capabilities.iter().map(|p| p.is_active).collect();
    let second = port.infer_active_source_pdo(8_800);
    let after_second: Vec<bool> = port.source_capabilities.iter().map(|p| p.is_active).collect();
    assert_eq!(first, Some(1));
    assert_eq!(first, second);
    assert_eq!(after_first, after_second);
    assert_eq!(after_second, vec![false, true, false]);
}

#[test]
fn charging_port_sinks_and_does_not_source() {
    let port = TypeCPort {
        port_number: 0,
        partner: Some(TypeCPartner::default()),
        ..Default::default()
    };
    let pd = PowerDeliveryPort {
        source_capabilities: vec![PowerDataObject {
            is_active: true,
            ..fixed(1, 20_000)
        }],
        max_source_power_mw: 60_000,
        ..Default::default()
    };
    let s = DeviceSummary::from_typec_port(&port, Some(pd), None, None);
    assert_eq!(s.status, Status::Charging);
    assert!(s.power.power_in_mw > 0);
    assert_eq!(s.power.power_out_mw, 0);
}

#[test]
fn every_set_quirk_bit_gets_a_name() {
    assert_eq!(quirk_names(u32::MAX).len(), 32);
    assert_eq!(quirk_names(0b1011).len(), 3);
}

#[test]
fn hex_reads_the_same_with_or_without_prefix() {
    for t in ["1f", "05ac", "ffffffff", "0"] {
        assert_eq!(read_hex(t), read_hex(&format!("0x{t}")));
    }
}
