use lib::command_line::ConsoleCommand;
use lib::process_list::{command_targets, list_row, list_row_fits, name_matches, named_indices};

#[test]
fn list_rows_have_the_columns_of_the_header() {
    let row = list_row("ProcessId(0)", "blink", 0, 113, 0, 0, "Yielded", 1, 12);
    assert_eq!(
        String::from_utf8(row).unwrap(),
        format!(
            "  {}\t{:<20}{:6}{:10}{:19}{:10}  {}{:5}/{}\n",
            "ProcessId(0)", "blink", 0, 113, 0, 0, "Yielded", 1, 12
        )
    );
}

#[test]
fn long_and_non_ascii_names_are_padded_by_characters() {
    for name in ["a_name_longer_than_twenty_characters", "héllo", ""] {
        let row = list_row("1", name, 12345678, 1, 2, 3, "Running", 10, 100);
        assert_eq!(
            String::from_utf8(row).unwrap(),
            format!("  {}\t{:<20}{:6}{:10}{:19}{:10}  {}{:5}/{}\n", "1", name, 12345678, 1, 2, 3, "Running", 10, 100)
        );
    }
}

#[test]
fn rows_must_fit_the_formatting_buffer() {
    assert!(list_row_fits("1", "blink", 0, 0, 0, 0, "Yielded", 0, 0));
    let long = "x".repeat(450);
    assert!(!list_row_fits("1", &long, 0, 0, 0, 0, "Yielded", 0, 0));
}

#[test]
fn processes_are_chosen_by_their_whole_name() {
    let wanted: Vec<char> = "blink".chars().collect();
    assert!(name_matches("blink", &wanted));
    assert!(!name_matches("blinky", &wanted));
    assert!(!name_matches("blin", &wanted));
    assert!(!name_matches("Blink", &wanted));
    let accented: Vec<char> = "héllo".chars().collect();
    assert!(name_matches("héllo", &accented));
}

#[test]
fn a_command_acts_on_every_process_with_its_name_once() {
    let names: Vec<String> = ["blink", "c_hello", "blink", "blinky"].iter().map(|s| s.to_string()).collect();
    let blink: Vec<char> = "blink".chars().collect();
    assert_eq!(named_indices(&names, &blink), vec![0, 2]);
    assert_eq!(command_targets(&ConsoleCommand::Stop(Some(blink.clone())), &names), vec![0, 2]);
    assert_eq!(command_targets(&ConsoleCommand::Start(Some("c_hello".chars().collect())), &names), vec![1]);
    assert_eq!(command_targets(&ConsoleCommand::Fault(Some("none".chars().collect())), &names), Vec::<usize>::new());
    assert_eq!(command_targets(&ConsoleCommand::Process(Some(blink)), &names), vec![0, 2]);
    assert_eq!(command_targets(&ConsoleCommand::Stop(None), &names), Vec::<usize>::new());
    assert_eq!(command_targets(&ConsoleCommand::List, &names), Vec::<usize>::new());
}
