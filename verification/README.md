# SSD1306 driver and process console, verified

Two kernel components whose decisions are proved with Verus:

- an SSD1306 OLED screen driver: it lays out I2C command and data frames,
  and runs command sequences on a parallel bus, one entry at a time;
- a process console over a UART: it echoes what is typed (queueing the
  echo while a transmission is in progress), reads commands, and prints
  their output, including the memory map of the kernel or of a process, to
  the kernel's debug output.

The library does no I/O. Each operation returns the list of things the
caller must do (drive a pin, set an alarm, write on a bus, transmit on the
UART, write to the debug output, tell a client), and the caller hands the
hardware's events back.

## Layout

- `src/command.rs`: the SSD1306 command set and its byte encoding.
- `src/subslice.rs`: a byte buffer with a movable window.
- `src/panel.rs`: panel commands, command sequences and screen models.
- `src/ssd1306.rs`: the driver, its state machine and its laws.
- `src/format.rs`: numbers and text as bytes.
- `src/memory_map.rs`: the memory map regions and their text.
- `src/command_line.rs`: parsing of typed command lines.
- `src/console_writer.rs`: a fixed-size text buffer.
- `src/console.rs`: the console, its state machine and its laws.
- `src/process_list.rs`: the rows of the process list, and the choice of
  the processes a command acts on by the name it gives.
- `app/`: glue that performs the actions on traits standing for the
  hardware and the kernel.
- `tests/`: tests on concrete inputs.
