use omen_fan::mode::{get_mode_from_ec, mode, mode_to_int, Mode};

#[test]
fn byte_codec_round_trips_every_writable_mode() {
    for m in [Mode::Default, Mode::Performance, Mode::Cool, Mode::Custom] {
        assert_eq!(Mode::decode(m.encode()), m);
    }
}

#[test]
fn byte_codec_table() {
    assert_eq!(Mode::Default.encode(), 0x30);
    assert_eq!(Mode::Performance.encode(), 0x31);
    assert_eq!(Mode::Cool.encode(), 0x50);
    assert_eq!(Mode::Custom.encode(), 0x00);
}

#[test]
fn unknown_bytes_decode_to_undefined() {
    assert_eq!(Mode::decode(0x01), Mode::Undefined);
    assert_eq!(Mode::decode(0x2F), Mode::Undefined);
    assert_eq!(Mode::decode(0x32), Mode::Undefined);
    assert_eq!(Mode::decode(0x40), Mode::Undefined);
    assert_eq!(Mode::decode(0xFF), Mode::Undefined);
}

#[test]
fn labels_for_read_back_bytes() {
    assert_eq!(get_mode_from_ec(0x30), "Default Mode");
    assert_eq!(get_mode_from_ec(0x31), "Performance Mode");
    assert_eq!(get_mode_from_ec(0x50), "Cool Mode");
    assert_eq!(get_mode_from_ec(0x00), "Custom Mode");
    assert_eq!(get_mode_from_ec(0x77), "Undefined Mode");
}

#[test]
fn labels_for_cell_bytes() {
    assert_eq!(mode(0x30), "Default Mode");
    assert_eq!(mode(0x50), "Cool Mode");
    assert_eq!(mode(0x31), "Performance Mode");
    assert_eq!(mode(0x00), "Custom Mode");
    assert_eq!(mode(0x2A), "Undefined Mode");
}

#[test]
fn label_encoding_table() {
    assert_eq!(mode_to_int("Default Mode"), 0x30);
    assert_eq!(mode_to_int("Cool Mode"), 0x50);
    assert_eq!(mode_to_int("Performance Mode"), 0x31);
    assert_eq!(mode_to_int("Custom Mode"), 0x00);
}

#[test]
fn unknown_label_falls_back_to_custom_sentinel() {
    assert_eq!(mode_to_int("Turbo Mode"), 0x00);
    assert_eq!(mode_to_int(""), 0x00);
}

#[test]
fn label_and_byte_representations_round_trip() {
    for m in [Mode::Default, Mode::Performance, Mode::Cool, Mode::Custom] {
        let label = m.label();
        assert_eq!(mode_to_int(&label), m.encode());
        assert_eq!(mode(m.encode()), label);
    }
}
