use lib::command_line::{char_is_whitespace, chars_start_with, read_command_line, second_word, trim_chars, ConsoleCommand};

fn line(s: &str, size: usize) -> Vec<u8> {
    let mut v = s.as_bytes().to_vec();
    v.resize(size, 0);
    v
}

fn name(cmd: &ConsoleCommand) -> Option<String> {
    match cmd {
        ConsoleCommand::Start(n) | ConsoleCommand::Stop(n) | ConsoleCommand::Fault(n) | ConsoleCommand::Process(n) => {
            n.as_ref().map(|v| v.iter().collect())
        },
        _ => None,
    }
}

#[test]
fn each_command_is_recognized() {
    assert!(matches!(read_command_line(&line("help", 32)), ConsoleCommand::Help));
    assert!(matches!(read_command_line(&line("status", 32)), ConsoleCommand::Status));
    assert!(matches!(read_command_line(&line("list", 32)), ConsoleCommand::List));
    assert!(matches!(read_command_line(&line("kernel", 32)), ConsoleCommand::Kernel));
    assert!(matches!(read_command_line(&line("start a", 32)), ConsoleCommand::Start(_)));
    assert!(matches!(read_command_line(&line("stop a", 32)), ConsoleCommand::Stop(_)));
    assert!(matches!(read_command_line(&line("fault a", 32)), ConsoleCommand::Fault(_)));
    assert!(matches!(read_command_line(&line("process a", 32)), ConsoleCommand::Process(_)));
    assert!(matches!(read_command_line(&line("panic", 32)), ConsoleCommand::Panic));
    assert!(matches!(read_command_line(&line("reboot", 32)), ConsoleCommand::Unknown));
}

#[test]
fn the_line_ends_at_the_first_zero() {
    let mut v = line("list", 32);
    v[4] = 0;
    v[5] = b'x';
    assert!(matches!(read_command_line(&v), ConsoleCommand::List));
}

#[test]
fn a_line_without_zero_or_starting_with_one_is_nothing() {
    assert!(matches!(read_command_line(b"help"), ConsoleCommand::Nothing));
    assert!(matches!(read_command_line(&line("", 8)), ConsoleCommand::Nothing));
    assert!(matches!(read_command_line(&[]), ConsoleCommand::Nothing));
}

#[test]
fn invalid_utf8_is_reported() {
    assert!(matches!(read_command_line(&[0xc3, 0x28, 0]), ConsoleCommand::Invalid));
    assert!(matches!(read_command_line(&[b'h', 0xff, 0]), ConsoleCommand::Invalid));
}

#[test]
fn names_are_the_second_word() {
    assert_eq!(name(&read_command_line(&line("  stop   blink  now ", 32))), Some("blink".to_string()));
    assert_eq!(name(&read_command_line(&line("process\tc_hello", 32))), Some("c_hello".to_string()));
    assert_eq!(name(&read_command_line(&line("start", 32))), None);
    assert_eq!(name(&read_command_line(&line("faultx y", 32))), Some("y".to_string()));
}

#[test]
fn utf8_lines_are_read_as_characters() {
    let cmd = read_command_line(&line("stop héllo", 32));
    assert_eq!(name(&cmd), Some("héllo".to_string()));
}

#[test]
fn whitespace_is_unicode_whitespace() {
    for c in [' ', '\t', '\n', '\r', '\u{b}', '\u{c}', '\u{85}', '\u{a0}', '\u{2003}', '\u{3000}'] {
        assert!(char_is_whitespace(c), "{:?}", c);
        assert_eq!(char_is_whitespace(c), c.is_whitespace());
    }
    for c in ['a', '_', '\u{200b}', '0'] {
        assert!(!char_is_whitespace(c), "{:?}", c);
    }
}

#[test]
fn trim_and_prefix() {
    let s: Vec<char> = "  \u{a0}kernel info\t ".chars().collect();
    let t = trim_chars(&s);
    assert_eq!(t.iter().collect::<String>(), "kernel info");
    assert!(chars_start_with(&t, "kernel"));
    assert!(!chars_start_with(&t, "kernels"));
    assert_eq!(second_word(&t).map(|w| w.iter().collect::<String>()), Some("info".to_string()));
    let empty: Vec<char> = Vec::new();
    assert!(trim_chars(&empty).is_empty());
    assert!(second_word(&empty).is_none());
}
