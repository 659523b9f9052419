use lib::command_line::ConsoleCommand;
use lib::console::{process_message, ConsoleAction, MemorySnapshot, ProcessConsole, ProcessOutcome, UartError};
use lib::error::ErrorCode;
use lib::memory_map::{KernelMemory, WriterState};

const WELCOME: &str = "Welcome to the process console.\n";
const VALID: &str = "Valid commands are: help status list stop start fault process kernel\n";

fn console() -> ProcessConsole {
    ProcessConsole::new(vec![0u8; 500], vec![0u8; 4], vec![0u8; 300], vec![0u8; 32])
}

fn memory() -> MemorySnapshot {
    MemorySnapshot {
        kernel: KernelMemory {
            init_end: 0x2000_1800,
            bss_end: 0x2000_2000,
            stack_start: 0x2000_0000,
            stack_end: 0x2000_1000,
            rodata_start: 0x0004_0000,
            rodata_end: 0x0004_1000,
            text_start: 0x0003_0000,
        },
        process: None,
    }
}

/// What was transmitted, as text, and what was asked of the receiver.
fn describe(a: &ConsoleAction) -> String {
    match a {
        ConsoleAction::Transmit(b, n) => format!("tx {}", String::from_utf8_lossy(&b[..*n])),
        ConsoleAction::Receive(_, n) => format!("rx {}", n),
        ConsoleAction::Debug(b) => format!("dbg {}", String::from_utf8_lossy(b)),
        ConsoleAction::DebugMessage(b) => format!("msg {}", String::from_utf8_lossy(b)),
    }
}

fn take(actions: &mut Vec<ConsoleAction>) -> Vec<String> {
    let out = actions.iter().map(describe).collect();
    actions.clear();
    out
}

/// The transmit buffer of the last transmission, to hand back.
fn sent_buffer(actions: &[ConsoleAction]) -> Vec<u8> {
    actions
        .iter()
        .rev()
        .find_map(|a| match a {
            ConsoleAction::Transmit(b, _) => Some(b.clone()),
            _ => None,
        })
        .expect("nothing was transmitted")
}

/// Finishes the transmission in progress.
fn finish(c: &mut ProcessConsole, actions: &mut Vec<ConsoleAction>, buffer: Vec<u8>) -> ConsoleCommand {
    let m = memory();
    assert!(c.can_transmit(&buffer, &m));
    c.transmitted_buffer(buffer, 0, Ok(()), &m, actions)
}

/// Types `line` one byte at a time, each echo finishing before the next
/// byte, then a carriage return; gives back the command read once its
/// echo is out.
fn type_line(c: &mut ProcessConsole, line: &str) -> ConsoleCommand {
    let mut actions = Vec::new();
    for byte in line.bytes().chain(std::iter::once(b'\r')) {
        let rx = vec![byte, 0, 0, 0];
        assert!(c.can_receive(&rx, 1, UartError::NoError));
        c.received_buffer(rx, 1, Ok(()), UartError::NoError, &mut actions);
        let buffer = sent_buffer(&actions);
        actions.clear();
        let cmd = finish(c, &mut actions, buffer);
        if byte == b'\r' {
            return cmd;
        }
        assert!(matches!(cmd, ConsoleCommand::Nothing));
        actions.clear();
    }
    unreachable!()
}

fn name(cmd: &ConsoleCommand) -> Option<String> {
    match cmd {
        ConsoleCommand::Start(n) | ConsoleCommand::Stop(n) | ConsoleCommand::Fault(n) | ConsoleCommand::Process(n) => {
            n.as_ref().map(|v| v.iter().collect())
        },
        _ => None,
    }
}

#[test]
fn writes_go_out_at_once_when_idle() {
    let mut c = console();
    let mut actions = Vec::new();
    assert_eq!(c.write_bytes(b"hi", &mut actions), Ok(()));
    assert_eq!(take(&mut actions), vec!["tx hi"]);
    assert_eq!(c.output_state(), (true, 0));
}

#[test]
fn writes_wait_in_the_queue_while_busy() {
    let mut c = console();
    let mut actions = Vec::new();
    let _ = c.write_bytes(b"first", &mut actions);
    let buffer = sent_buffer(&actions);
    actions.clear();
    assert_eq!(c.write_bytes(b"second", &mut actions), Err(ErrorCode::BUSY));
    assert_eq!(c.write_bytes(b" third", &mut actions), Err(ErrorCode::BUSY));
    assert!(actions.is_empty());
    assert_eq!(c.output_state(), (true, 12));
    let cmd = finish(&mut c, &mut actions, buffer);
    assert!(matches!(cmd, ConsoleCommand::Nothing));
    assert_eq!(take(&mut actions), vec!["tx second third"]);
    assert_eq!(c.output_state(), (true, 0));
}

#[test]
fn a_write_is_cut_to_the_transmit_buffer() {
    let mut c = ProcessConsole::new(vec![0u8; 4], vec![0u8; 4], vec![0u8; 8], vec![0u8; 8]);
    let mut actions = Vec::new();
    assert_eq!(c.write_bytes(b"abcdef", &mut actions), Ok(()));
    assert_eq!(take(&mut actions), vec!["tx abcd"]);
}

#[test]
fn the_queue_keeps_what_fits() {
    let mut c = ProcessConsole::new(vec![0u8; 16], vec![0u8; 4], vec![0u8; 3], vec![0u8; 8]);
    let mut actions = Vec::new();
    let _ = c.write_bytes(b"x", &mut actions);
    let buffer = sent_buffer(&actions);
    actions.clear();
    assert_eq!(c.write_bytes(b"abcdef", &mut actions), Err(ErrorCode::BUSY));
    assert_eq!(c.output_state(), (true, 3));
    let _ = finish(&mut c, &mut actions, buffer);
    assert_eq!(take(&mut actions), vec!["tx abc"]);
}

#[test]
fn start_prints_the_version_drivers_and_greeting() {
    let mut c = console();
    let mut actions = Vec::new();
    assert!(!c.is_running());
    assert_eq!(c.start("\tled\n\tbutton\n", "2.1", &mut actions), Ok(()));
    assert!(c.is_running());
    assert_eq!(
        take(&mut actions),
        vec![
            "rx 1".to_string(),
            "dbg Kernel version: 2.1\r\n".to_string(),
            "dbg Drivers:\n".to_string(),
            "dbg \tled\n\tbutton\n".to_string(),
            format!("dbg {}", WELCOME),
            format!("dbg {}", VALID),
        ]
    );
    // The greeting goes to the debug output: the transmitter stays free.
    assert_eq!(c.output_state(), (false, 0));
}

#[test]
fn start_twice_does_nothing_more() {
    let mut c = console();
    let mut actions = Vec::new();
    let _ = c.start("", "2.1", &mut actions);
    actions.clear();
    let before = c.output_state();
    assert_eq!(c.start("\tother\n", "9", &mut actions), Ok(()));
    assert!(actions.is_empty());
    assert_eq!(c.output_state(), before);
}

#[test]
fn typed_characters_are_echoed() {
    let mut c = console();
    let mut actions = Vec::new();
    c.received_buffer(vec![b'h', 0, 0, 0], 1, Ok(()), UartError::NoError, &mut actions);
    assert_eq!(take(&mut actions), vec!["tx h", "rx 1"]);
    let (line, index) = c.command_line();
    assert_eq!(index, 1);
    assert_eq!(&line[..2], b"h\0");
}

#[test]
fn characters_typed_while_busy_wait_in_the_queue() {
    let mut c = console();
    let mut actions = Vec::new();
    c.received_buffer(vec![b'a', 0, 0, 0], 1, Ok(()), UartError::NoError, &mut actions);
    let buffer = sent_buffer(&actions);
    actions.clear();
    c.received_buffer(vec![b'b', 0, 0, 0], 1, Ok(()), UartError::NoError, &mut actions);
    assert_eq!(take(&mut actions), vec!["rx 1"]);
    let _ = finish(&mut c, &mut actions, buffer);
    assert_eq!(take(&mut actions), vec!["tx b"]);
    assert_eq!(&c.command_line().0[..3], b"ab\0");
}

#[test]
fn backspace_erases_the_last_character() {
    let mut c = console();
    let mut actions = Vec::new();
    c.received_buffer(vec![b'a', 0, 0, 0], 1, Ok(()), UartError::NoError, &mut actions);
    let buffer = sent_buffer(&actions);
    actions.clear();
    let _ = finish(&mut c, &mut actions, buffer);
    c.received_buffer(vec![0x08, 0, 0, 0], 1, Ok(()), UartError::NoError, &mut actions);
    assert_eq!(take(&mut actions), vec!["tx \u{8} \u{8}", "rx 1"]);
    let (line, index) = c.command_line();
    assert_eq!(index, 0);
    assert_eq!(line[0], 0);
}

#[test]
fn backspace_on_an_empty_line_is_kept_as_a_character() {
    let mut c = console();
    let mut actions = Vec::new();
    c.received_buffer(vec![0x08, 0, 0, 0], 1, Ok(()), UartError::NoError, &mut actions);
    assert_eq!(take(&mut actions), vec!["tx \u{8}", "rx 1"]);
    let (line, index) = c.command_line();
    assert_eq!(index, 1);
    assert_eq!(&line[..2], &[0x08, 0]);
}

#[test]
fn bytes_above_ascii_are_not_stored() {
    let mut c = console();
    let mut actions = Vec::new();
    c.received_buffer(vec![0xc3, 0, 0, 0], 1, Ok(()), UartError::NoError, &mut actions);
    assert_eq!(take(&mut actions), vec!["rx 1"]);
    assert_eq!(c.command_line().1, 0);
}

#[test]
fn reception_errors_only_ask_for_the_next_byte() {
    let mut c = console();
    let mut actions = Vec::new();
    c.received_buffer(vec![b'a', 0, 0, 0], 1, Err(ErrorCode::FAIL), UartError::FramingError, &mut actions);
    assert_eq!(take(&mut actions), vec!["rx 1"]);
    c.received_buffer(vec![b'a', 0, 0, 0], 0, Ok(()), UartError::NoError, &mut actions);
    assert_eq!(take(&mut actions), vec!["msg ProcessConsole had read of 0 bytes", "rx 1"]);
    c.received_buffer(vec![b'a', b'b', b'c', 0], 3, Ok(()), UartError::NoError, &mut actions);
    assert_eq!(
        take(&mut actions),
        vec!["msg ProcessConsole issues reads of 1 byte, but receive_complete was length 3", "rx 1"]
    );
    c.received_buffer(vec![b'a', 0, 0, 0], 0, Ok(()), UartError::OverrunError, &mut actions);
    assert_eq!(take(&mut actions), vec!["rx 1"]);
    assert_eq!(c.command_line().1, 0);
}

#[test]
fn a_full_line_takes_no_more_characters() {
    let mut c = ProcessConsole::new(vec![0u8; 16], vec![0u8; 4], vec![0u8; 16], vec![0u8; 3]);
    let mut actions = Vec::new();
    for byte in [b'a', b'b', b'c'] {
        c.received_buffer(vec![byte, 0, 0, 0], 1, Ok(()), UartError::NoError, &mut actions);
        if let Some(b) = actions.iter().find_map(|a| match a {
            ConsoleAction::Transmit(b, _) => Some(b.clone()),
            _ => None,
        }) {
            actions.clear();
            let _ = finish(&mut c, &mut actions, b);
        }
        actions.clear();
    }
    let (line, index) = c.command_line();
    assert_eq!(index, 2);
    assert_eq!(line, b"ab\0".to_vec());
}

#[test]
fn newline_echoes_and_the_command_is_read_after() {
    let mut c = console();
    let mut actions = Vec::new();
    c.received_buffer(vec![b'\n', 0, 0, 0], 1, Ok(()), UartError::NoError, &mut actions);
    assert_eq!(take(&mut actions), vec!["tx \r\n", "rx 1"]);
}

#[test]
fn help_prints_the_greeting_and_commands() {
    let mut c = console();
    let cmd = type_line(&mut c, "help");
    assert!(matches!(cmd, ConsoleCommand::Help));
    assert_eq!(c.output_state(), (false, 0));
    assert_eq!(c.command_line().1, 0);
    assert_eq!(c.command_line().0[0], 0);
}

#[test]
fn help_text_goes_out() {
    let mut c = console();
    let mut actions = Vec::new();
    for byte in b"help\r" {
        c.received_buffer(vec![*byte, 0, 0, 0], 1, Ok(()), UartError::NoError, &mut actions);
        let buffer = sent_buffer(&actions);
        actions.clear();
        let _ = finish(&mut c, &mut actions, buffer);
        if *byte != b'\r' {
            actions.clear();
        }
    }
    assert_eq!(take(&mut actions), vec![format!("dbg {}", WELCOME), format!("dbg {}", VALID)]);
}

#[test]
fn commands_are_recognized_by_their_prefix() {
    assert!(matches!(type_line(&mut console(), "status"), ConsoleCommand::Status));
    assert!(matches!(type_line(&mut console(), "list"), ConsoleCommand::List));
    assert!(matches!(type_line(&mut console(), "kernel"), ConsoleCommand::Kernel));
    assert!(matches!(type_line(&mut console(), "helpme"), ConsoleCommand::Help));
    assert!(matches!(type_line(&mut console(), "   list  "), ConsoleCommand::List));
    assert!(matches!(type_line(&mut console(), "panic"), ConsoleCommand::Panic));
}

#[test]
fn process_commands_name_their_process() {
    let cmd = type_line(&mut console(), "stop blink");
    assert!(matches!(cmd, ConsoleCommand::Stop(_)));
    assert_eq!(name(&cmd), Some("blink".to_string()));
    let cmd = type_line(&mut console(), "start   c_hello  extra");
    assert!(matches!(cmd, ConsoleCommand::Start(_)));
    assert_eq!(name(&cmd), Some("c_hello".to_string()));
    let cmd = type_line(&mut console(), "fault blink");
    assert!(matches!(cmd, ConsoleCommand::Fault(_)));
    assert_eq!(name(&cmd), Some("blink".to_string()));
    let cmd = type_line(&mut console(), "process blink");
    assert!(matches!(cmd, ConsoleCommand::Process(_)));
    assert_eq!(name(&cmd), Some("blink".to_string()));
    let cmd = type_line(&mut console(), "stop");
    assert!(matches!(cmd, ConsoleCommand::Stop(None)));
}

#[test]
fn unknown_commands_list_the_valid_ones() {
    let mut c = console();
    let cmd = type_line(&mut c, "reboot");
    assert!(matches!(cmd, ConsoleCommand::Unknown));
    assert_eq!(c.output_state(), (false, 0));
}

#[test]
fn an_empty_line_does_nothing() {
    let mut c = console();
    let cmd = type_line(&mut c, "");
    assert!(matches!(cmd, ConsoleCommand::Nothing));
}

#[test]
fn an_invalid_line_is_reported_with_its_bytes() {
    let mut command = vec![0u8; 8];
    command[0] = 0xff;
    let mut c = ProcessConsole::new(vec![0u8; 500], vec![0u8; 4], vec![0u8; 300], command.clone());
    let mut actions = Vec::new();
    c.received_buffer(vec![b'\r', 0, 0, 0], 1, Ok(()), UartError::NoError, &mut actions);
    let buffer = sent_buffer(&actions);
    actions.clear();
    let cmd = finish(&mut c, &mut actions, buffer);
    assert!(matches!(cmd, ConsoleCommand::Invalid));
    assert_eq!(take(&mut actions), vec![format!("dbg Invalid command: {:?}", &command[..])]);
}

#[test]
fn status_prints_three_lines() {
    let c = console();
    let mut actions = Vec::new();
    c.print_status(2, 1, 0, &mut actions);
    assert_eq!(
        take(&mut actions),
        vec!["dbg Total processes: 2\n", "dbg Active processes: 1\n", "dbg Timeslice expirations: 0\n"]
    );
    assert_eq!(c.output_state(), (false, 0));
}

#[test]
fn process_messages() {
    assert_eq!(process_message(ProcessOutcome::Resumed, "blink"), b"Process blink resumed.\n".to_vec());
    assert_eq!(process_message(ProcessOutcome::Stopped, "blink"), b"Process blink stopped\n".to_vec());
    assert_eq!(process_message(ProcessOutcome::Faulted, "blink"), b"Process blink now faulted\n".to_vec());
}

fn debug_texts(actions: &mut Vec<ConsoleAction>) -> Vec<String> {
    let out = actions
        .iter()
        .filter_map(|a| match a {
            ConsoleAction::Debug(b) => Some(String::from_utf8_lossy(b).to_string()),
            _ => None,
        })
        .collect();
    actions.clear();
    out
}

#[test]
fn kernel_command_prints_the_whole_memory_map() {
    let mut c = console();
    let mut actions = Vec::new();
    let _ = c.start("\tled\n", "2.1", &mut actions);
    actions.clear();
    let m = memory();
    assert!(c.can_print_kernel("2.1", &m));
    c.print_kernel("2.1", &m, &mut actions);
    let printed = debug_texts(&mut actions);
    assert_eq!(printed.len(), 8);
    assert_eq!(printed[0], "Kernel version: 2.1\r\n");
    assert_eq!(printed[1], "Drivers:\n");
    assert_eq!(printed[2], "\tled\n");
    assert!(printed[3].contains("Bss"));
    assert!(printed[4].contains("Init"));
    assert!(printed[5].contains("Stack"));
    assert!(printed[6].contains("RoData"));
    assert!(printed[7].contains("Text"));
    assert_eq!(c.writer().0, WriterState::Empty);
}

#[test]
fn the_memory_map_waits_for_the_echo_to_go_out() {
    let mut c = console();
    let mut actions = Vec::new();
    let _ = c.write_bytes(b"x", &mut actions);
    let buffer = sent_buffer(&actions);
    actions.clear();
    let m = memory();
    c.print_kernel("2.1", &m, &mut actions);
    assert_eq!(debug_texts(&mut actions), vec!["Kernel version: 2.1\r\n"]);
    assert_eq!(c.writer(), (WriterState::KernelStart, None));
    let _ = finish(&mut c, &mut actions, buffer);
    let printed = debug_texts(&mut actions);
    assert_eq!(printed.len(), 5);
    assert!(printed[0].contains("Bss"));
    assert!(printed[4].contains("Text"));
    assert_eq!(c.writer().0, WriterState::Empty);
}
