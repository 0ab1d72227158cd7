use whatcable::vendor::{is_hex_fallback, lookup};


#[test]
fn known_vendors() {
    assert_eq!(lookup(0x05AC), "Apple");
    assert_eq!(lookup(0x18D1), "Google");
    assert_eq!(lookup(0x2D01), "Google");
}

#[test]
fn unknown_falls_back_to_hex() {
    let s = lookup(0xDEAD);
    assert_eq!(s, "0xdead");
    assert!(is_hex_fallback(&s));
}

#[test]
fn real_name_is_not_hex_fallback() {
    assert!(!is_hex_fallback("Apple"));
    assert!(!is_hex_fallback(""));
}

#[test]
fn bundled_name_is_never_a_hex_fallback() {
    assert!(!is_hex_fallback(lookup(0x05AC).as_str()));
    assert!(!is_hex_fallback(lookup(0x046D).as_str()));
    assert!(is_hex_fallback(lookup(0xDEAD).as_str()));
    assert_eq!(lookup(0xDEAD), "0xdead");
}
