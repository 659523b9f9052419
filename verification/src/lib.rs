//! Verified logic of two kernel components: the SSD1306 OLED screen driver
//! and the text console that inspects and controls userspace processes.

pub mod error;
pub mod subslice;
pub mod command;
pub mod panel;
pub mod ssd1306;
pub mod format;
pub mod memory_map;
pub mod command_line;
pub mod console_writer;
pub mod console;
pub mod process_list;
