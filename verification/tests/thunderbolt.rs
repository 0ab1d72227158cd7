use whatcable::thunderbolt::{system_has_usb4_link, ThunderboltRouter};


fn router(route: &str, is_host: bool, generation: u8) -> ThunderboltRouter {
    ThunderboltRouter {
        route: route.into(),
        is_host,
        generation,
        ..Default::default()
    }
}

#[test]
fn supports_usb4_requires_generation_4() {
    assert!(router("0-0", true, 4).supports_usb4());
    assert!(!router("0-0", true, 3).supports_usb4());
    assert!(!router("0-0", true, 0).supports_usb4());
}

#[test]
fn system_has_usb4_link_needs_both_sides() {
    // Just a USB4 host, no devices → no active link.
    assert!(!system_has_usb4_link(&[router("0-0", true, 4)]));
    // USB4 device but a TBT3-only host → no USB4 link (host can't drive it).
    assert!(!system_has_usb4_link(&[
        router("0-0", true, 3),
        router("0-1", false, 4),
    ]));
    // Both sides USB4 → link active.
    assert!(system_has_usb4_link(&[
        router("0-0", true, 4),
        router("0-1", false, 4),
    ]));
}

#[test]
fn system_has_usb4_link_ignores_tbt3_partner_under_usb4_host() {
    // Backwards-compat dock — TBT3 partner on a USB4 host. Link runs at
    // TBT3, not USB4.
    assert!(!system_has_usb4_link(&[
        router("0-0", true, 4),
        router("0-1", false, 3),
    ]));
}
