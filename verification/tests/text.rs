use semantic_editor::text::{push_decimal, to_hex_lower};

#[test]
fn decimal_renderings() {
    for (n, s) in [(0u64, "0"), (9, "9"), (10, "10"), (1234567890, "1234567890"), (u64::MAX, "18446744073709551615")] {
        let mut out = String::from("n=");
        push_decimal(&mut out, n);
        assert_eq!(out, format!("n={}", s));
    }
}

#[test]
fn hex_renderings() {
    assert_eq!(to_hex_lower(&[0xde, 0xad, 0xbe, 0xef, 0x01]), "deadbeef01");
}
