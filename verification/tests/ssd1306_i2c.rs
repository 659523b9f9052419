use lib::command::Command;
use lib::error::ErrorCode;
use lib::panel::st7735;
use lib::ssd1306::Ssd1306;
use lib::subslice::SubSliceMut;

fn driver(buffer_len: usize) -> Ssd1306 {
    Ssd1306::new(vec![0u8; buffer_len], st7735(), false, false, true)
}

/// The command frame laid out at the start of the buffer: the length to
/// send is what is left of the buffer after it.
fn frame(r: Result<(Vec<u8>, usize), ErrorCode>) -> Vec<u8> {
    match r {
        Ok((buffer, len)) => buffer[..buffer.len() - len].to_vec(),
        Err(e) => panic!("no frame: {:?}", e),
    }
}

#[test]
fn encodes_each_command() {
    let cases: Vec<(Command, Vec<u8>)> = vec![
        (Command::SetChargePump { enable: true }, vec![0x8d, 0x14]),
        (Command::SetChargePump { enable: false }, vec![0x8d, 0x10]),
        (Command::SetContrast { contrast: 0x7f }, vec![0x81, 0x7f]),
        (Command::EntireDisplayOn { ignore_ram: true }, vec![0xa5]),
        (Command::SetDisplayInvert { inverse: true }, vec![0xa7]),
        (Command::SetDisplayOnOff { on: false }, vec![0xae]),
        (
            Command::ContinuousHorizontalScroll { left: true, page_start: 1, interval: 2, page_end: 3 },
            vec![0x27, 0, 1, 2, 3, 0, 0xff],
        ),
        (
            Command::ContinuousVerticalHorizontalScroll {
                left: true,
                page_start: 1,
                interval: 2,
                page_end: 3,
                vertical_offset: 4,
            },
            vec![0x2a, 0, 1, 2, 3, 4],
        ),
        (
            Command::ContinuousVerticalHorizontalScroll {
                left: false,
                page_start: 1,
                interval: 2,
                page_end: 3,
                vertical_offset: 4,
            },
            vec![0x29, 0, 1, 2, 3, 4],
        ),
        (Command::DeactivateScroll, vec![0x2e]),
        (Command::ActivateScroll, vec![0x2f]),
        (Command::SetVerticalScrollArea { rows_fixed: 8, rows_scroll: 56 }, vec![0xa3, 8, 56]),
        (Command::SetLowerColumnStartAddress { address: 0x1f }, vec![0x0f]),
        (Command::SetHigherColumnStartAddress { address: 0x13 }, vec![0x13]),
        (Command::SetMemoryAddressingMode { mode: 2 }, vec![0x20, 2]),
        (Command::SetColumnAddress { column_start: 0, column_end: 127 }, vec![0x21, 0, 127]),
        (Command::SetPageAddress { page_start: 0, page_end: 7 }, vec![0x22, 0, 7]),
        (Command::SetPageStartAddress { address: 9 }, vec![0xb1]),
        (Command::SetDisplayStartLine { line: 65 }, vec![0x41]),
        (Command::SetSegmentRemap { reverse: true }, vec![0xa1]),
        (Command::SetMultiplexRatio { ratio: 63 }, vec![0xa8, 63]),
        (Command::SetComScanDirection { decrement: true }, vec![0xc8]),
        (Command::SetDisplayOffset { vertical_shift: 5 }, vec![0xd3, 5]),
        (Command::SetComPins { alternative: true, enable_com: true }, vec![0xda, 0x30]),
        (Command::SetDisplayClockDivide { divide_ratio: 1, oscillator_frequency: 8 }, vec![0xd5, 0x81]),
        (Command::SetPrechargePeriod { phase1: 1, phase2: 15 }, vec![0xd9, 0xf1]),
        (Command::SetVcomDeselect { level: 2 }, vec![0xdb, 0x20]),
    ];
    for (cmd, expected) in cases {
        assert_eq!(cmd.to_bytes(), expected, "{:?}", cmd);
        assert_eq!(cmd.encoded_len(), expected.len(), "{:?}", cmd);
    }
}

#[test]
fn encode_writes_at_the_window_and_moves_it() {
    let mut slice = SubSliceMut::new(vec![0xeeu8; 6]);
    slice.slice_from(1);
    Command::SetContrast { contrast: 0x42 }.encode(&mut slice);
    assert_eq!(slice.len(), 3);
    Command::SetDisplayOnOff { on: true }.encode(&mut slice);
    assert_eq!(slice.len(), 2);
    slice.reset();
    assert_eq!(slice.take(), vec![0xee, 0x81, 0x42, 0xaf, 0xee, 0xee]);
}

#[test]
fn on_off_sends_one_command_frame() {
    let mut d = driver(24);
    assert_eq!(frame(d.on_off(true)), vec![0x00, 0xaf]);
    let mut d = driver(24);
    assert_eq!(frame(d.on_off(false)), vec![0x00, 0xae]);
}

#[test]
fn brightness_uses_the_high_byte() {
    let mut d = driver(24);
    assert_eq!(frame(d.brightness(0x7f12)), vec![0x00, 0x81, 0x7f]);
}

#[test]
fn invert_frame() {
    let mut d = driver(24);
    assert_eq!(frame(d.invert(true)), vec![0x00, 0xa7]);
}

#[test]
fn set_window_frame() {
    let mut d = driver(24);
    assert_eq!(frame(d.set_window(2, 1, 10, 3)), vec![0x00, 0x22, 1, 4, 0x21, 2, 12]);
}

#[test]
fn init_screen_frame() {
    let mut d = driver(64);
    let expected = vec![
        0x00, 0xae, 0xd5, 0x81, 0xa8, 0x3f, 0xd3, 0x00, 0x40, 0x8d, 0x14, 0x20, 0x00, 0xa1, 0xc8,
        0xda, 0x10, 0x81, 0xcf, 0xd9, 0xf1, 0xdb, 0x20, 0xa4, 0xa6, 0x2e, 0xaf,
    ];
    assert_eq!(frame(d.init_screen()), expected);
}

#[test]
fn init_screen_without_charge_pump() {
    let mut d = Ssd1306::new(vec![0u8; 64], st7735(), false, false, false);
    let f = frame(d.init_screen());
    assert_eq!(&f[9..11], &[0x8d, 0x10]);
}

#[test]
fn send_sequence_concatenates_commands() {
    let mut d = driver(24);
    let cmds = [Command::DeactivateScroll, Command::SetContrast { contrast: 1 }, Command::ActivateScroll];
    assert_eq!(frame(d.send_sequence(&cmds)), vec![0x00, 0x2e, 0x81, 1, 0x2f]);
}

#[test]
fn frame_keeps_the_rest_of_the_buffer() {
    let mut d = Ssd1306::new(vec![0x55u8; 5], st7735(), false, false, true);
    match d.on_off(true) {
        Ok((buffer, len)) => {
            assert_eq!(len, 3);
            assert_eq!(buffer, vec![0x00, 0xaf, 0x55, 0x55, 0x55]);
        },
        Err(e) => panic!("{:?}", e),
    }
}

#[test]
fn second_send_has_no_buffer() {
    let mut d = driver(24);
    let _ = d.on_off(true);
    assert_eq!(d.on_off(true).err(), Some(ErrorCode::NOMEM));
    assert_eq!(d.write(&[1]).err(), Some(ErrorCode::NOMEM));
}

#[test]
fn write_sends_a_data_frame() {
    let mut d = Ssd1306::new(vec![0x55u8; 8], st7735(), false, false, true);
    match d.write(&[1, 2, 3]) {
        Ok((buffer, len)) => {
            assert_eq!(len, 7);
            assert_eq!(buffer, vec![0x40, 0x55, 1, 2, 3, 0x55, 0x55, 0x55]);
        },
        Err(e) => panic!("{:?}", e),
    }
}

#[test]
fn write_without_data_sends_the_control_byte() {
    let mut d = Ssd1306::new(vec![0x55u8; 1], st7735(), false, false, true);
    match d.write(&[]) {
        Ok((buffer, len)) => {
            assert_eq!(len, 0);
            assert_eq!(buffer, vec![0x40]);
        },
        Err(e) => panic!("{:?}", e),
    }
}

#[test]
fn busy_driver_refuses_command_frames() {
    let mut d = Ssd1306::new(vec![0u8; 24], st7735(), false, true, true);
    let mut actions = Vec::new();
    assert_eq!(d.init(&mut actions), Ok(()));
    assert_eq!(d.on_off(true).err(), Some(ErrorCode::BUSY));
    assert_eq!(d.send_sequence(&[Command::ActivateScroll]).err(), Some(ErrorCode::BUSY));
}

#[test]
fn busy_driver_answers_busy_whatever_the_buffer() {
    let mut d = Ssd1306::new(vec![0u8; 1], st7735(), false, true, true);
    let mut actions = Vec::new();
    assert_eq!(d.init(&mut actions), Ok(()));
    assert_eq!(d.init_screen().err(), Some(ErrorCode::BUSY));
    assert_eq!(d.set_window(0, 0, 10, 10).err(), Some(ErrorCode::BUSY));
}
