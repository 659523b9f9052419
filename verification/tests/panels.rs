use lib::panel::{
    display_off, display_on, invoff, invon, ls016b8uy, madctl, nop, sleep_in, sleep_out, st7735, st7789h2,
    sw_reset, write_ram, ScreenRotation, SendCommand,
};

fn ids(seq: &[SendCommand]) -> Vec<u8> {
    seq.iter()
        .map(|c| match c {
            SendCommand::Nop => 0,
            SendCommand::Default(cmd) => cmd.id,
            SendCommand::Position(cmd, _, _) => cmd.id,
            SendCommand::Repeat(cmd, _, _, _) => cmd.id,
            SendCommand::Slice(cmd, _) => cmd.id,
        })
        .collect()
}

#[test]
fn st7735_model() {
    let s = st7735();
    assert_eq!((s.default_width, s.default_height), (128, 160));
    assert!(!s.inverted);
    assert_eq!(
        ids(s.init_sequence),
        vec![0x01, 0x11, 0xb1, 0xb2, 0xb3, 0xb4, 0xc0, 0xc1, 0xc2, 0xc3, 0xc4, 0xc5, 0x20, 0x36, 0x3a, 0x2a, 0x2b, 0xe0, 0xe1, 0x13]
    );
    assert_eq!(s.offsets.offset(ScreenRotation::Rotated270), (0, 0));
}

#[test]
fn st7789h2_model() {
    let s = st7789h2();
    assert_eq!((s.default_width, s.default_height), (240, 240));
    assert!(s.inverted);
    assert_eq!(s.init_sequence.len(), 22);
    assert_eq!(s.offsets.offset(ScreenRotation::Normal), (0, 0));
    assert_eq!(s.offsets.offset(ScreenRotation::Rotated180), (0, 80));
    assert_eq!(s.offsets.offset(ScreenRotation::Rotated270), (80, 0));
}

#[test]
fn ls016b8uy_model() {
    let s = ls016b8uy();
    assert_eq!((s.default_width, s.default_height), (240, 240));
    assert!(!s.inverted);
    assert_eq!(ids(s.init_sequence)[0], 0x35);
    assert_eq!(s.init_sequence.len(), 23);
}

#[test]
fn command_identifiers_and_delays() {
    let cases = [
        (nop(), 0x00, 0),
        (sw_reset(), 0x01, 150),
        (sleep_in(), 0x10, 10),
        (sleep_out(), 0x11, 255),
        (invoff(), 0x20, 0),
        (invon(), 0x21, 120),
        (display_off(), 0x28, 100),
        (display_on(), 0x29, 100),
        (write_ram(), 0x2c, 0),
        (madctl(), 0x36, 0),
    ];
    for (cmd, id, delay) in cases {
        assert_eq!((cmd.id, cmd.delay), (id, delay));
    }
    assert_eq!(madctl().parameters, Some(&[0x00u8][..]));
}
