use lib::error::ErrorCode;
use lib::panel::{st7735, ScreenPixelFormat, ScreenRotation};
use lib::ssd1306::{Action, BusWidth, Ssd1306, Status, HEIGHT, WIDTH};

fn describe(a: &Action) -> String {
    match a {
        Action::ClearDc => "clear dc".to_string(),
        Action::SetDc => "set dc".to_string(),
        Action::ClearReset => "clear reset".to_string(),
        Action::SetReset => "set reset".to_string(),
        Action::SetAlarm(ms) => format!("alarm {}", ms),
        Action::SetAddress(w, addr) => format!("address {:?} {:#04x}", w, addr),
        Action::BusWrite(w, b, n) => format!("write {:?} {:?} {}", w, &b[..*n], n),
        Action::ScreenIsReady => "ready".to_string(),
        Action::CommandComplete(r) => format!("command complete {:?}", r),
        Action::WriteComplete(b, r) => format!("write complete {:?} {:?}", b, r),
        Action::SetupCommandComplete(r) => format!("setup complete {:?}", r),
    }
}

fn take(actions: &mut Vec<Action>) -> Vec<String> {
    let out = actions.iter().map(describe).collect();
    actions.clear();
    out
}

fn bus_driver() -> Ssd1306 {
    Ssd1306::new(vec![0u8; 24], st7735(), true, true, true)
}

/// Runs the driver through its reset pulses up to the first command of the
/// init sequence.
fn through_reset(d: &mut Ssd1306, actions: &mut Vec<Action>) {
    assert_eq!(d.init(actions), Ok(()));
    for _ in 0..4 {
        assert!(d.can_advance());
        d.alarm(actions);
    }
}

#[test]
fn init_pulses_reset_then_starts_the_init_sequence() {
    let mut d = bus_driver();
    let mut actions = Vec::new();
    assert_eq!(d.init(&mut actions), Ok(()));
    assert_eq!(take(&mut actions), vec!["clear reset", "alarm 10"]);
    assert_eq!(d.status(), Status::Reset2);
    d.alarm(&mut actions);
    assert_eq!(take(&mut actions), vec!["set reset", "alarm 120"]);
    d.alarm(&mut actions);
    assert_eq!(take(&mut actions), vec!["clear reset", "alarm 120"]);
    d.alarm(&mut actions);
    assert_eq!(take(&mut actions), vec!["set reset", "alarm 120"]);
    assert_eq!(d.status(), Status::Init);
    d.alarm(&mut actions);
    // SWRESET: its identifier, no parameters.
    assert_eq!(take(&mut actions), vec!["clear dc", "address Bits8 0x01"]);
    assert_eq!(d.status(), Status::SendCommand(0, 0, 1));
    assert_eq!(d.sequence_position(), (1, 20));
}

#[test]
fn command_without_parameters_waits_its_delay() {
    let mut d = bus_driver();
    let mut actions = Vec::new();
    through_reset(&mut d, &mut actions);
    actions.clear();
    assert!(d.can_complete(&None, Ok(())));
    d.command_complete(None, 0, Ok(()), &mut actions);
    assert_eq!(take(&mut actions), vec!["clear dc", "alarm 150"]);
    assert_eq!(d.status(), Status::Delay);
    // SLPOUT waits 255, which stands for 500 ms.
    d.alarm(&mut actions);
    assert_eq!(take(&mut actions), vec!["clear dc", "address Bits8 0x11"]);
    d.command_complete(None, 0, Ok(()), &mut actions);
    assert_eq!(take(&mut actions), vec!["clear dc", "alarm 500"]);
}

#[test]
fn command_with_parameters_writes_them() {
    let mut d = bus_driver();
    let mut actions = Vec::new();
    through_reset(&mut d, &mut actions);
    d.command_complete(None, 0, Ok(()), &mut actions);
    d.alarm(&mut actions);
    d.command_complete(None, 0, Ok(()), &mut actions);
    actions.clear();
    // FRMCTR1 with its three default parameters.
    d.alarm(&mut actions);
    assert_eq!(take(&mut actions), vec!["clear dc", "address Bits8 0xb1"]);
    d.command_complete(None, 0, Ok(()), &mut actions);
    let buffer = match actions.pop() {
        Some(Action::BusWrite(BusWidth::Bits8, b, 3)) => b,
        _ => panic!("the parameters were not written"),
    };
    assert_eq!(&buffer[..3], &[1, 44, 45]);
    assert_eq!(take(&mut actions), vec!["set dc"]);
    assert_eq!(d.status(), Status::SendCommand(0, 3, 0));
    // The bus hands the buffer back; no delay, so the next entry follows.
    d.command_complete(Some(buffer), 3, Ok(()), &mut actions);
    assert_eq!(take(&mut actions), vec!["clear dc", "clear dc", "address Bits8 0xb2"]);
}

#[test]
fn bus_failure_is_reported_to_the_client() {
    let mut d = bus_driver();
    d.set_client();
    let mut actions = Vec::new();
    through_reset(&mut d, &mut actions);
    actions.clear();
    d.command_complete(None, 0, Err(ErrorCode::FAIL), &mut actions);
    assert_eq!(take(&mut actions), vec!["command complete Err(FAIL)"]);
    assert_eq!(d.status(), Status::Idle);
}

#[test]
fn bus_failure_of_a_setup_command_goes_to_the_setup_client() {
    let mut d = bus_driver();
    d.set_setup_client();
    let mut actions = Vec::new();
    // Without power the rotation is still sent: it is a setup command.
    assert_eq!(d.rotation(ScreenRotation::Rotated90, &mut actions), Ok(()));
    assert_eq!(take(&mut actions), vec!["clear dc", "address Bits8 0x36"]);
    assert_eq!(d.size(), (160, 128));
    d.command_complete(None, 0, Err(ErrorCode::NOACK), &mut actions);
    assert_eq!(take(&mut actions), vec!["setup complete Err(NOACK)"]);
    assert_eq!(d.status(), Status::Idle);
}

#[test]
fn rotation_writes_the_access_control_byte() {
    let mut d = bus_driver();
    let mut actions = Vec::new();
    assert_eq!(d.rotation(ScreenRotation::Rotated180, &mut actions), Ok(()));
    actions.clear();
    d.command_complete(None, 0, Ok(()), &mut actions);
    assert_eq!(take(&mut actions), vec!["set dc", "write Bits8 [192] 1"]);
    assert_eq!(d.size(), (128, 160));
}

#[test]
fn display_commands_need_power() {
    let mut d = bus_driver();
    let mut actions = Vec::new();
    assert_eq!(d.display_on(&mut actions), Err(ErrorCode::OFF));
    assert_eq!(d.display_off(&mut actions), Err(ErrorCode::OFF));
    assert_eq!(d.display_invert_on(&mut actions), Err(ErrorCode::OFF));
    assert_eq!(d.display_invert_off(&mut actions), Err(ErrorCode::OFF));
    assert_eq!(d.set_power(true, &mut actions), Err(ErrorCode::OFF));
    assert_eq!(d.set_invert(false, &mut actions), Err(ErrorCode::OFF));
    assert!(actions.is_empty());
}

#[test]
fn busy_driver_refuses_requests() {
    let mut d = bus_driver();
    let mut actions = Vec::new();
    assert_eq!(d.init(&mut actions), Ok(()));
    actions.clear();
    assert_eq!(d.init(&mut actions), Err(ErrorCode::BUSY));
    assert_eq!(d.display_on(&mut actions), Err(ErrorCode::BUSY));
    assert_eq!(d.rotation(ScreenRotation::Normal, &mut actions), Err(ErrorCode::BUSY));
    assert_eq!(d.send_sequence_buffer(&mut actions), Err(ErrorCode::BUSY));
    assert_eq!(d.screen_write(vec![1, 2], &mut actions), Err(ErrorCode::BUSY));
    assert_eq!(d.write_continue(vec![1, 2], 2, &mut actions), Err(ErrorCode::BUSY));
    assert_eq!(d.set_memory_frame(0, 0, 0, 1, 1), Err(ErrorCode::BUSY));
    assert!(actions.is_empty());
}

/// Brings the driver through the whole init sequence of the ST7735, with
/// every bus operation completing at once and handing back what it wrote.
fn powered_driver(actions: &mut Vec<Action>) -> Ssd1306 {
    let mut d = bus_driver();
    d.set_client();
    through_reset(&mut d, actions);
    let mut seen = 0;
    let mut rounds = 0;
    while d.status() != Status::Idle {
        rounds += 1;
        assert!(rounds < 200);
        match d.status() {
            Status::Delay => {
                assert!(d.can_advance());
                d.alarm(actions);
            },
            _ => {
                let mut buffer = None;
                for a in actions[seen..].iter() {
                    if let Action::BusWrite(_, b, _) = a {
                        buffer = Some(b.clone());
                    }
                }
                seen = actions.len();
                assert!(d.can_complete(&buffer, Ok(())));
                d.command_complete(buffer, 0, Ok(()), actions);
            },
        }
    }
    d
}

#[test]
fn init_sequence_ends_with_the_screen_ready() {
    let mut actions = Vec::new();
    let d = powered_driver(&mut actions);
    assert!(d.is_powered_on());
    assert_eq!(describe(actions.last().unwrap()), "ready");
    assert_eq!(actions.iter().filter(|a| matches!(a, Action::ScreenIsReady)).count(), 1);
    assert_eq!(d.sequence_position(), (21, 20));
}

#[test]
fn display_on_once_powered() {
    let mut actions = Vec::new();
    let mut d = powered_driver(&mut actions);
    actions.clear();
    assert_eq!(d.display_on(&mut actions), Ok(()));
    assert_eq!(take(&mut actions), vec!["clear dc", "address Bits8 0x29"]);
    d.command_complete(None, 0, Ok(()), &mut actions);
    assert_eq!(take(&mut actions), vec!["clear dc", "alarm 100"]);
    assert_eq!(d.status(), Status::Delay);
    d.alarm(&mut actions);
    assert_eq!(take(&mut actions), vec!["command complete Ok(())"]);
    assert_eq!(d.status(), Status::Idle);
}

#[test]
fn invert_follows_the_screen_model() {
    let mut actions = Vec::new();
    let mut d = powered_driver(&mut actions);
    actions.clear();
    assert_eq!(d.set_invert(true, &mut actions), Ok(()));
    assert_eq!(take(&mut actions), vec!["clear dc", "address Bits8 0x21"]);
}

#[test]
fn screen_write_sends_write_ram_and_the_data() {
    let mut actions = Vec::new();
    let mut d = powered_driver(&mut actions);
    actions.clear();
    assert_eq!(d.screen_write(vec![1, 2, 3, 4], &mut actions), Ok(()));
    assert_eq!(take(&mut actions), vec!["clear dc", "address Bits8 0x2c"]);
    assert_eq!(d.status(), Status::SendCommandSlice(4));
    d.command_complete(None, 0, Ok(()), &mut actions);
    assert_eq!(take(&mut actions), vec!["set dc", "write Bits16BE [1, 2] 2"]);
    d.command_complete(Some(vec![1, 2, 3, 4]), 2, Ok(()), &mut actions);
    assert_eq!(take(&mut actions), vec!["clear dc", "write complete [1, 2, 3, 4] Ok(())"]);
    assert_eq!(d.status(), Status::Idle);
}

#[test]
fn memory_frame_checks_its_bounds() {
    let mut d = bus_driver();
    assert_eq!(d.set_memory_frame(0, 10, 10, 5, 20), Err(ErrorCode::INVAL));
    assert_eq!(d.set_memory_frame(0, 0, 0, 200, 20), Err(ErrorCode::INVAL));
    assert_eq!(d.set_memory_frame(0, 1, 2, 0x102, 4), Err(ErrorCode::INVAL));
    assert_eq!(d.set_memory_frame(4, 1, 2, 127, 159), Ok(()));
}

#[test]
fn setup_queries() {
    let d = bus_driver();
    assert_eq!(d.set_resolution((10, 10)), Err(ErrorCode::NOSUPPORT));
    assert_eq!(d.set_pixel_format(ScreenPixelFormat::Mono), Err(ErrorCode::NOSUPPORT));
    assert_eq!(d.set_rotation(ScreenRotation::Rotated90), Err(ErrorCode::NOSUPPORT));
    assert_eq!(d.get_num_supported_resolutions(), 1);
    assert_eq!(d.get_supported_resolution(0), Some((WIDTH, HEIGHT)));
    assert_eq!(d.get_supported_resolution(1), None);
    assert_eq!(d.get_num_supported_pixel_formats(), 1);
    assert_eq!(d.get_supported_pixel_format(0), Some(ScreenPixelFormat::Mono));
    assert_eq!(d.get_supported_pixel_format(3), None);
    assert_eq!(d.get_resolution(), (128, 64));
    assert_eq!(d.get_pixel_format(), ScreenPixelFormat::Mono);
    assert_eq!(d.get_rotation(), ScreenRotation::Normal);
    assert_eq!(d.set_brightness(5), Ok(()));
}

#[test]
fn write_frame_is_recorded() {
    let mut d = bus_driver();
    assert_eq!(d.set_write_frame(1, 2, 3, 4), Ok(()));
}

#[test]
fn bus_width_names() {
    assert_ne!(BusWidth::Bits8, BusWidth::Bits16BE);
}
