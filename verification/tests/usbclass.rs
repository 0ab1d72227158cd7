use whatcable::usbclass::class_name;


#[test]
fn known_classes() {
    assert_eq!(class_name(0x09), "Hub");
    assert_eq!(class_name(0x03), "HID");
    assert_eq!(class_name(0x08), "Mass Storage");
}

#[test]
fn unknown_class_is_hex() {
    assert_eq!(class_name(0xAA), "0xaa");
    assert_eq!(class_name(0x42), "0x42");
}
