//! The process console: a text console over a UART that inspects and
//! controls userspace processes.
//!
//! The console echoes what is typed, collects it into a command line, and
//! when a newline has been echoed, reads the command. Its own transmit
//! buffer carries only the echo: one transmission at a time, with what is
//! echoed while a transmission is in progress waiting in a queue. All other
//! output (greetings, command output, the memory map of the kernel or of a
//! process) goes to the kernel's debug output, which keeps it in order with
//! the kernel's other debug messages; the memory map is printed once no
//! echo is being transmitted. What the console needs of the UART and of the
//! debug output comes out as [`ConsoleAction`]s; commands that act on
//! processes come out as a [`ConsoleCommand`] for the caller to carry out.

use vstd::prelude::*;
use crate::command::splice;
use crate::command_line::{ConsoleCommand, CommandView, parse_command, read_command_line, first_zero_from};
use crate::console_writer::CONSOLE_WRITER_SIZE;
use crate::error::ErrorCode;
use crate::format::{text, digits, push_str, push_bytes, digits_of};
use crate::memory_map::{
    WriterState, KernelMemory, ProcessMemory, spec_next_state, next_state, state_text,
    state_text_defined, create_state_buffer, region_defined, regions_left,
};

verus! {

/// Why a UART reception went wrong.
#[derive(Clone, Copy, Debug, PartialEq, Eq, Structural)]
pub enum UartError {
    ParityError,
    FramingError,
    OverrunError,
    RepeatCallError,
    ResetError,
    Aborted,
    /// Nothing went wrong.
    NoError,
}

/// Something the caller must do on behalf of the console.
pub enum ConsoleAction {
    /// Transmit this many bytes of the buffer, then hand the buffer back.
    Transmit(Vec<u8>, usize),
    /// Receive this many bytes into the buffer, then hand it back.
    Receive(Vec<u8>, usize),
    /// Write this text to the kernel's debug output buffer.
    Debug(Vec<u8>),
    /// Print this message as a kernel debug message.
    DebugMessage(Vec<u8>),
}

/// A [`ConsoleAction`] with its buffer seen as a byte sequence.
#[verifier::ext_equal]
pub enum ConsoleActionView {
    Transmit(Seq<u8>, usize),
    Receive(Seq<u8>, usize),
    Debug(Seq<u8>),
    DebugMessage(Seq<u8>),
}

impl View for ConsoleAction {
    type V = ConsoleActionView;

    open spec fn view(&self) -> ConsoleActionView {
        match self {
            ConsoleAction::Transmit(b, n) => ConsoleActionView::Transmit(b@, *n),
            ConsoleAction::Receive(b, n) => ConsoleActionView::Receive(b@, *n),
            ConsoleAction::Debug(b) => ConsoleActionView::Debug(b@),
            ConsoleAction::DebugMessage(b) => ConsoleActionView::DebugMessage(b@),
        }
    }
}

/// The views of a list of actions.
pub open spec fn cviews(actions: Seq<ConsoleAction>) -> Seq<ConsoleActionView> {
    actions.map_values(|a: ConsoleAction| a@)
}

/// The kernel's memory regions and those of the process whose memory map
/// is being printed, when it exists.
#[derive(Clone, Copy, Debug)]
pub struct MemorySnapshot {
    pub kernel: KernelMemory,
    pub process: Option<ProcessMemory>,
}

/// The state of the console, with its buffers seen as sequences.
#[verifier::ext_equal]
pub struct ConsoleView {
    pub tx_in_progress: bool,
    pub tx_buffer: Option<Seq<u8>>,
    pub queue: Seq<u8>,
    pub queue_size: usize,
    pub writer_state: WriterState,
    pub writer_process: Option<usize>,
    pub rx_in_progress: bool,
    pub rx_buffer: Option<Seq<u8>>,
    pub command: Seq<u8>,
    pub command_index: usize,
    pub drivers: Option<&'static str>,
    pub running: bool,
    pub execute: bool,
}

/// The process console.
pub struct ProcessConsole {
    tx_in_progress: bool,
    tx_buffer: Option<Vec<u8>>,
    queue_buffer: Vec<u8>,
    queue_size: usize,
    writer_state: WriterState,
    writer_process: Option<usize>,
    rx_in_progress: bool,
    rx_buffer: Option<Vec<u8>>,
    command_buffer: Vec<u8>,
    command_index: usize,
    drivers: Option<&'static str>,
    /// The console is active and has asked the UART to receive.
    running: bool,
    /// The command just received is to be read once the newline echo is out.
    execute: bool,
}

/// The bytes of an optional buffer.
pub open spec fn bytes_view(b: Option<Vec<u8>>) -> Option<Seq<u8>> {
    match b {
        Some(v) => Some(v@),
        None => None,
    }
}

impl View for ProcessConsole {
    type V = ConsoleView;

    closed spec fn view(&self) -> ConsoleView {
        ConsoleView {
            tx_in_progress: self.tx_in_progress,
            tx_buffer: bytes_view(self.tx_buffer),
            queue: self.queue_buffer@,
            queue_size: self.queue_size,
            writer_state: self.writer_state,
            writer_process: self.writer_process,
            rx_in_progress: self.rx_in_progress,
            rx_buffer: bytes_view(self.rx_buffer),
            command: self.command_buffer@,
            command_index: self.command_index,
            drivers: self.drivers,
            running: self.running,
            execute: self.execute,
        }
    }
}

/// The queue and the command line stay within their buffers, whose lengths
/// fit in a `usize`.
pub open spec fn console_wf(s: ConsoleView) -> bool {
    &&& s.queue_size <= s.queue.len()
    &&& s.command_index <= s.command.len()
    &&& s.queue.len() <= usize::MAX
    &&& s.command.len() <= usize::MAX
}

/// Everything but the output path is as it was: the command line, the
/// printing of the memory map, reception and the flags.
pub open spec fn same_line(a: ConsoleView, b: ConsoleView) -> bool {
    &&& a.command == b.command
    &&& a.command_index == b.command_index
    &&& a.writer_state == b.writer_state
    &&& a.writer_process == b.writer_process
    &&& a.rx_in_progress == b.rx_in_progress
    &&& a.rx_buffer == b.rx_buffer
    &&& a.drivers == b.drivers
    &&& a.running == b.running
    &&& a.execute == b.execute
}

/// The smaller of two numbers.
pub open spec fn min(a: int, b: int) -> int {
    if a < b { a } else { b }
}

/// Greeting printed when the console starts and on `help`.
pub open spec fn welcome_text() -> Seq<u8> {
    text("Welcome to the process console.\n")
}

/// The list of commands.
pub open spec fn valid_commands_text() -> Seq<u8> {
    text("Valid commands are: help status list stop start fault process kernel\n")
}

/// The header of the process list.
pub open spec fn list_header_text() -> Seq<u8> {
    text(" PID    Name                Quanta  Syscalls  Dropped Upcalls    Restarts    State  Grants\n")
}

/// The kernel version line.
pub open spec fn version_text(version: &str) -> Seq<u8> {
    text("Kernel version: ") + text(version) + text("\r\n")
}

/// The numbers of a byte list, separated by commas.
pub open spec fn debug_items(s: Seq<u8>) -> Seq<u8>
    decreases s.len(),
{
    if s.len() == 0 {
        Seq::empty()
    } else if s.len() == 1 {
        digits(s[0] as nat, 10)
    } else {
        debug_items(s.drop_last()) + text(", ") + digits(s.last() as nat, 10)
    }
}

/// A byte list as Rust's debug format prints it: `[1, 2, 3]`.
pub open spec fn debug_list(s: Seq<u8>) -> Seq<u8> {
    text("[") + debug_items(s) + text("]")
}

/// Writes `bytes`: transmitted at once when no transmission is in progress
/// (as much as fits the transmit buffer), else queued (as much as fits the
/// queue, and only when the queue is at hand).
pub open spec fn write_bytes_spec(s: ConsoleView, bytes: Seq<u8>, queue_at_hand: bool) -> (
    ConsoleView,
    Seq<ConsoleActionView>,
    Result<(), ErrorCode>,
) {
    if s.tx_in_progress {
        if queue_at_hand {
            let size = s.queue_size as int;
            let len = min(bytes.len() as int, s.queue.len() - size);
            (
                ConsoleView {
                    queue: splice(s.queue, size, bytes.take(len)),
                    queue_size: (size + len) as usize,
                    ..s
                },
                Seq::empty(),
                Err(ErrorCode::BUSY),
            )
        } else {
            (s, Seq::empty(), Err(ErrorCode::BUSY))
        }
    } else {
        match s.tx_buffer {
            Some(b) => {
                let len = min(bytes.len() as int, b.len() as int);
                (
                    ConsoleView { tx_in_progress: true, tx_buffer: None, ..s },
                    seq![ConsoleActionView::Transmit(splice(b, 0, bytes.take(len)), len as usize)],
                    Ok(()),
                )
            },
            None => (ConsoleView { tx_in_progress: true, ..s }, Seq::empty(), Ok(())),
        }
    }
}

/// The state and actions after writing `bytes` with the queue at hand.
pub open spec fn wb(s: ConsoleView, bytes: Seq<u8>) -> (ConsoleView, Seq<ConsoleActionView>) {
    let t = write_bytes_spec(s, bytes, true);
    (t.0, t.1)
}

/// Each of `texts`, in turn, as debug output.
pub open spec fn debug_texts(texts: Seq<Seq<u8>>) -> Seq<ConsoleActionView> {
    texts.map_values(|t: Seq<u8>| ConsoleActionView::Debug(t))
}

/// Writes one byte: transmitted at once when no transmission is in
/// progress, else queued.
pub open spec fn write_byte_spec(s: ConsoleView, byte: u8) -> (
    ConsoleView,
    Seq<ConsoleActionView>,
    Result<(), ErrorCode>,
) {
    if s.tx_in_progress {
        (
            ConsoleView {
                queue: s.queue.update(s.queue_size as int, byte),
                queue_size: (s.queue_size + 1) as usize,
                ..s
            },
            Seq::empty(),
            Err(ErrorCode::BUSY),
        )
    } else {
        match s.tx_buffer {
            Some(b) => (
                ConsoleView { tx_in_progress: true, tx_buffer: None, ..s },
                seq![ConsoleActionView::Transmit(b.update(0, byte), 1)],
                Ok(()),
            ),
            None => (ConsoleView { tx_in_progress: true, ..s }, Seq::empty(), Ok(())),
        }
    }
}

/// A byte can be written: there is room in the queue when it must wait, and
/// room in the transmit buffer when it goes at once.
pub open spec fn write_byte_defined(s: ConsoleView) -> bool {
    if s.tx_in_progress {
        s.queue_size < s.queue.len()
    } else {
        s.tx_buffer matches Some(b) ==> b.len() >= 1
    }
}

/// Whether printing a region writes anything: kernel regions always,
/// process regions when the process is known.
pub open spec fn writes_region(state: WriterState, process: Option<ProcessMemory>) -> bool {
    match state {
        WriterState::KernelBss | WriterState::KernelInit | WriterState::KernelStack
        | WriterState::KernelRoData | WriterState::KernelText => true,
        WriterState::ProcessGrant | WriterState::ProcessHeapUnused | WriterState::ProcessHeap
        | WriterState::ProcessData | WriterState::ProcessStack | WriterState::ProcessStackUnused
        | WriterState::ProcessFlash | WriterState::ProcessProtected => process is Some,
        _ => false,
    }
}

/// The memory of the process being shown, when one is chosen and found.
pub open spec fn shown_process(s: ConsoleView, memory: MemorySnapshot) -> Option<ProcessMemory> {
    if s.writer_process is Some {
        memory.process
    } else {
        None
    }
}

/// The regions of the memory map that follow `state`, each as debug
/// output, in order.
pub open spec fn rest_of_map(state: WriterState, k: KernelMemory, p: Option<ProcessMemory>) -> Seq<
    ConsoleActionView,
>
    decreases regions_left(state),
{
    let n = spec_next_state(state);
    if n == WriterState::Empty {
        Seq::empty()
    } else {
        let here = if writes_region(n, p) {
            seq![ConsoleActionView::Debug(state_text(n, k, p))]
        } else {
            Seq::empty()
        };
        here + rest_of_map(n, k, p)
    }
}

/// Every region that follows `state` has no negative size.
pub open spec fn rest_of_map_defined(state: WriterState, k: KernelMemory, p: Option<ProcessMemory>) -> bool
    decreases regions_left(state),
{
    let n = spec_next_state(state);
    n == WriterState::Empty || (state_text_defined(n, k, p) && rest_of_map_defined(n, k, p))
}

/// Where printing the memory map starts: from `state` (about `process`)
/// unless a printing is already waiting.
pub open spec fn map_start(s: ConsoleView, state: WriterState, process: Option<usize>) -> ConsoleView {
    if s.writer_state == WriterState::Empty {
        ConsoleView { writer_state: state, writer_process: process, ..s }
    } else {
        s
    }
}

/// Starts printing from `state` (about `process`) unless a printing is
/// waiting; when no echo is being transmitted, prints every region that
/// follows as debug output, and nothing is left to print.
pub open spec fn write_state_spec(
    s: ConsoleView,
    state: WriterState,
    process: Option<usize>,
    memory: MemorySnapshot,
) -> (ConsoleView, Seq<ConsoleActionView>) {
    let s1 = map_start(s, state, process);
    if !s1.tx_in_progress {
        (
            ConsoleView { writer_state: WriterState::Empty, ..s1 },
            rest_of_map(s1.writer_state, memory.kernel, shown_process(s1, memory)),
        )
    } else {
        (s1, Seq::empty())
    }
}

/// The regions printed by `write_state_spec` have no negative size.
pub open spec fn write_state_defined(
    s: ConsoleView,
    state: WriterState,
    process: Option<usize>,
    memory: MemorySnapshot,
) -> bool {
    let s1 = map_start(s, state, process);
    !s1.tx_in_progress ==> rest_of_map_defined(s1.writer_state, memory.kernel, shown_process(s1, memory))
}

/// Reads the command line: prints as debug output what needs nothing more
/// than the console (help, the list of commands, the process list header,
/// an invalid line), then clears the line.
pub open spec fn read_command_spec(s: ConsoleView) -> (ConsoleView, Seq<ConsoleActionView>, CommandView) {
    let cmd = parse_command(s.command);
    let out = match cmd {
        CommandView::Help => debug_texts(seq![welcome_text(), valid_commands_text()]),
        CommandView::Unknown => debug_texts(seq![valid_commands_text()]),
        CommandView::Invalid => debug_texts(seq![text("Invalid command: ") + debug_list(s.command)]),
        CommandView::List => debug_texts(seq![list_header_text()]),
        _ => Seq::empty(),
    };
    (ConsoleView { command: s.command.update(0, 0), command_index: 0, ..s }, out, cmd)
}

/// Reading the command line is defined: the command buffer is not empty,
/// and an invalid line's message fits the formatting buffer.
pub open spec fn read_command_defined(s: ConsoleView) -> bool {
    &&& s.command.len() >= 1
    &&& parse_command(s.command) is Invalid ==> (text("Invalid command: ") + debug_list(s.command)).len()
        <= CONSOLE_WRITER_SIZE
}

/// A printing under way, past its first region, that a finished
/// transmission moves on.
pub open spec fn printing_under_way(w: WriterState) -> bool {
    w != WriterState::Empty && w != WriterState::KernelStart && w != WriterState::ProcessStart
}

/// Prints the rest of a printing under way.
pub open spec fn finish_region_spec(s: ConsoleView, memory: MemorySnapshot) -> (ConsoleView, Seq<ConsoleActionView>) {
    if printing_under_way(s.writer_state) {
        write_state_spec(s, WriterState::Empty, None, memory)
    } else {
        (s, Seq::empty())
    }
}

/// Sends what waited in the queue (the queue itself is not at hand while it
/// is being sent) and empties it.
pub open spec fn flush_queue_spec(s: ConsoleView) -> (ConsoleView, Seq<ConsoleActionView>) {
    let b = if s.queue_size != 0 {
        let w = write_bytes_spec(s, s.queue.take(s.queue_size as int), false);
        (w.0, w.1)
    } else {
        (s, Seq::empty())
    };
    (ConsoleView { queue_size: 0, ..b.0 }, b.1)
}

/// Prints what is left of a waiting printing once nothing is being
/// transmitted.
pub open spec fn continue_printing_spec(s: ConsoleView, memory: MemorySnapshot) -> (ConsoleView, Seq<ConsoleActionView>) {
    if s.writer_state != WriterState::Empty {
        write_state_spec(s, WriterState::Empty, None, memory)
    } else {
        (s, Seq::empty())
    }
}

/// The stages of a finished transmission: take the buffer back, move the
/// printing on, send what waited in the queue, move the printing on again;
/// the state after the first move, after the queue, at the end, and the
/// actions of all stages.
pub open spec fn transmitted_stages(s: ConsoleView, buffer: Seq<u8>, memory: MemorySnapshot) -> (
    ConsoleView,
    ConsoleView,
    ConsoleView,
    Seq<ConsoleActionView>,
) {
    let s1 = ConsoleView { tx_buffer: Some(buffer), tx_in_progress: false, ..s };
    let a = finish_region_spec(s1, memory);
    let b = flush_queue_spec(a.0);
    let c = continue_printing_spec(b.0, memory);
    (a.0, b.0, c.0, a.1 + b.1 + c.1)
}

/// A finished transmission: the new state, the actions, and the command
/// to carry out when a line was waiting to be read.
pub open spec fn transmitted_spec(s: ConsoleView, buffer: Seq<u8>, memory: MemorySnapshot) -> (
    ConsoleView,
    Seq<ConsoleActionView>,
    CommandView,
) {
    let t = transmitted_stages(s, buffer, memory);
    if t.2.execute {
        let r = read_command_spec(ConsoleView { execute: false, ..t.2 });
        (r.0, t.3 + r.1, r.2)
    } else {
        (t.2, t.3, CommandView::Nothing)
    }
}

/// Every region printed on a finished transmission has no negative size,
/// and the command line can be read when one waits.
pub open spec fn transmitted_defined(s: ConsoleView, buffer: Seq<u8>, memory: MemorySnapshot) -> bool {
    let s1 = ConsoleView { tx_buffer: Some(buffer), tx_in_progress: false, ..s };
    let t = transmitted_stages(s, buffer, memory);
    &&& printing_under_way(s1.writer_state) ==> write_state_defined(s1, WriterState::Empty, None, memory)
    &&& t.1.writer_state != WriterState::Empty ==> write_state_defined(t.1, WriterState::Empty, None, memory)
    &&& t.2.execute ==> read_command_defined(ConsoleView { execute: false, ..t.2 })
}

/// A byte arrived: a newline asks for the line to be read once its echo is
/// out, a backspace erases the last character, other ASCII characters are
/// echoed and stored while there is room; a read of other than one byte
/// without error gives a debug message; then the UART is asked for the
/// next byte.
pub open spec fn received_spec(s: ConsoleView, read_buf: Seq<u8>, rx_len: usize, error: UartError) -> (
    ConsoleView,
    Seq<ConsoleActionView>,
) {
    let r = if error == UartError::NoError && rx_len == 1 {
        let index = s.command_index as int;
        let byte = read_buf[0];
        if byte == 0x0a || byte == 0x0d {
            wb(ConsoleView { execute: true, ..s }, seq![0x0du8, 0x0au8])
        } else if byte == 0x08 && index > 0 {
            let w = wb(s, seq![0x08u8, 0x20u8, 0x08u8]);
            (
                ConsoleView {
                    command: w.0.command.update(index - 1, 0),
                    command_index: (index - 1) as usize,
                    ..w.0
                },
                w.1,
            )
        } else if index < s.command.len() - 1 && byte < 128 {
            let w = write_byte_spec(s, byte);
            (
                ConsoleView {
                    command: w.0.command.update(index, byte).update(index + 1, 0),
                    command_index: (index + 1) as usize,
                    ..w.0
                },
                w.1,
            )
        } else {
            (s, Seq::empty())
        }
    } else if error == UartError::NoError {
        (s, seq![ConsoleActionView::DebugMessage(odd_read_message(rx_len))])
    } else {
        (s, Seq::empty())
    };
    (
        ConsoleView { rx_in_progress: true, ..r.0 },
        r.1.push(ConsoleActionView::Receive(read_buf, 1)),
    )
}

/// The debug message for a read of other than one byte.
pub open spec fn odd_read_message(rx_len: usize) -> Seq<u8> {
    if rx_len == 0 {
        text("ProcessConsole had read of 0 bytes")
    } else {
        text("ProcessConsole issues reads of 1 byte, but receive_complete was length ") + digits(
            rx_len as nat,
            10,
        )
    }
}

/// Handling a received byte is defined: the byte is there, and a character
/// to store fits the command buffer and can be echoed.
pub open spec fn received_defined(s: ConsoleView, read_buf: Seq<u8>, rx_len: usize, error: UartError) -> bool {
    (error == UartError::NoError && rx_len == 1) ==> {
        &&& read_buf.len() >= 1
        &&& {
            let byte = read_buf[0];
            let index = s.command_index as int;
            !(byte == 0x0a || byte == 0x0d || (byte == 0x08 && index > 0)) ==> {
                &&& s.command.len() >= 1
                &&& (index < s.command.len() - 1 && byte < 128) ==> write_byte_defined(s)
            }
        }
    }
}

/// Startup: remembers the drivers, asks the UART for the first byte when
/// the receive buffer is there, and prints the kernel version, the drivers
/// and the greeting as debug output.
pub open spec fn start_spec(s: ConsoleView, driver_str: &'static str, version: &str) -> (
    ConsoleView,
    Seq<ConsoleActionView>,
) {
    let s1 = ConsoleView { drivers: Some(driver_str), ..s };
    let r = match s1.rx_buffer {
        Some(b) => (
            ConsoleView { rx_in_progress: true, running: true, rx_buffer: None, ..s1 },
            seq![ConsoleActionView::Receive(b, 1)],
        ),
        None => (s1, Seq::empty()),
    };
    (
        r.0,
        r.1 + debug_texts(
            seq![version_text(version), text("Drivers:\n"), text(driver_str), welcome_text(), valid_commands_text()],
        ),
    )
}

/// The version line and, when known, the drivers.
pub open spec fn kernel_texts(s: ConsoleView, version: &str) -> Seq<Seq<u8>> {
    match s.drivers {
        Some(d) => seq![version_text(version), text("Drivers:\n"), text(d)],
        None => seq![version_text(version)],
    }
}

/// The `kernel` command: the version, the drivers when known, then the
/// kernel's memory map from its first region, all as debug output.
pub open spec fn print_kernel_spec(s: ConsoleView, version: &str, memory: MemorySnapshot) -> (
    ConsoleView,
    Seq<ConsoleActionView>,
) {
    let k = write_state_spec(s, WriterState::KernelStart, None, memory);
    (k.0, debug_texts(kernel_texts(s, version)) + k.1)
}

/// The `kernel` command's memory map can be printed.
pub open spec fn print_kernel_defined(s: ConsoleView, version: &str, memory: MemorySnapshot) -> bool {
    &&& version_text(version).len() <= CONSOLE_WRITER_SIZE
    &&& s.drivers matches Some(d) ==> text(d).len() <= CONSOLE_WRITER_SIZE
    &&& write_state_defined(s, WriterState::KernelStart, None, memory)
}

/// The lines of the `status` command.
pub open spec fn status_texts(total: usize, active: usize, expirations: usize) -> Seq<Seq<u8>> {
    seq![
        text("Total processes: ") + digits(total as nat, 10) + text("\n"),
        text("Active processes: ") + digits(active as nat, 10) + text("\n"),
        text("Timeslice expirations: ") + digits(expirations as nat, 10) + text("\n"),
    ]
}

/// What a command did to a process.
#[derive(Clone, Copy, Debug, PartialEq, Eq, Structural)]
pub enum ProcessOutcome {
    Resumed,
    Stopped,
    Faulted,
}

/// The message for a process a command acted on.
pub open spec fn process_message_text(outcome: ProcessOutcome, name: &str) -> Seq<u8> {
    match outcome {
        ProcessOutcome::Resumed => text("Process ") + text(name) + text(" resumed.\n"),
        ProcessOutcome::Stopped => text("Process ") + text(name) + text(" stopped\n"),
        ProcessOutcome::Faulted => text("Process ") + text(name) + text(" now faulted\n"),
    }
}

fn push_caction(actions: &mut Vec<ConsoleAction>, a: ConsoleAction)
    ensures
        cviews(final(actions)@) == cviews(old(actions)@).push(a@),
{
    let ghost v = a@;
    actions.push(a);
    assert(cviews(actions@) =~= cviews(old(actions)@).push(v));
}

/// The debug message for a read of other than one byte.
fn odd_read_message_bytes(rx_len: usize) -> (v: Vec<u8>)
    ensures
        v@ == odd_read_message(rx_len),
{
    if rx_len == 0 {
        bytes_of("ProcessConsole had read of 0 bytes")
    } else {
        let mut v = bytes_of("ProcessConsole issues reads of 1 byte, but receive_complete was length ");
        let d = digits_of(rx_len, 10);
        push_bytes(&mut v, d.as_slice());
        v
    }
}

/// The bytes of a string, in a buffer of their own.
fn bytes_of(s: &str) -> (v: Vec<u8>)
    ensures
        v@ == text(s),
{
    let mut v: Vec<u8> = Vec::new();
    push_str(&mut v, s);
    v
}

/// The byte sequences of a list of buffers.
pub open spec fn texts_view(texts: Seq<Vec<u8>>) -> Seq<Seq<u8>> {
    texts.map_values(|t: Vec<u8>| t@)
}

/// Appends each of `texts` in turn as debug output.
fn push_debug_texts(actions: &mut Vec<ConsoleAction>, texts: &Vec<Vec<u8>>)
    ensures
        cviews(final(actions)@) == cviews(old(actions)@) + debug_texts(texts_view(texts@)),
{
    let mut i: usize = 0;
    while i < texts.len()
        invariant
            i <= texts@.len(),
            cviews(actions@) == cviews(old(actions)@) + debug_texts(texts_view(texts@.take(i as int))),
        decreases texts@.len() - i,
    {
        let mut t: Vec<u8> = Vec::new();
        push_bytes(&mut t, texts[i].as_slice());
        push_caction(actions, ConsoleAction::Debug(t));
        proof {
            assert(texts_view(texts@.take(i + 1)) =~= texts_view(texts@.take(i as int)).push(texts@[i as int]@));
            assert(debug_texts(texts_view(texts@.take(i + 1))) =~= debug_texts(texts_view(texts@.take(i as int))).push(
                ConsoleActionView::Debug(texts@[i as int]@),
            ));
        }
        i = i + 1;
    }
    assert(texts@.take(texts@.len() as int) =~= texts@);
}

fn copy_into(dst: &mut Vec<u8>, at: usize, src: &[u8], len: usize)
    requires
        at + len <= old(dst)@.len(),
        len <= src@.len(),
    ensures
        final(dst)@ == splice(old(dst)@, at as int, src@.take(len as int)),
{
    let n = dst.len();
    assert(at + len <= n);
    let mut i: usize = 0;
    while i < len
        invariant
            i <= len,
            len <= src@.len(),
            at + len <= n,
            n == old(dst)@.len(),
            at + len <= old(dst)@.len(),
            dst@.len() == old(dst)@.len(),
            forall|k: int| 0 <= k < dst@.len() ==> #[trigger] dst@[k] == (if at <= k < at + i {
                src@[k - at]
            } else {
                old(dst)@[k]
            }),
        decreases len - i,
    {
        dst.set(at + i, src[i]);
        i = i + 1;
    }
    assert(dst@ =~= splice(old(dst)@, at as int, src@.take(len as int)));
}

/// A byte list as Rust's debug format prints it: `[1, 2, 3]`.
pub fn debug_list_bytes(s: &[u8]) -> (out: Vec<u8>)
    ensures
        out@ == debug_list(s@),
{
    let mut out: Vec<u8> = Vec::new();
    push_str(&mut out, "[");
    let mut i: usize = 0;
    while i < s.len()
        invariant
            i <= s@.len(),
            out@ == text("[") + debug_items(s@.take(i as int)),
        decreases s@.len() - i,
    {
        if i > 0 {
            push_str(&mut out, ", ");
        }
        let d = digits_of(s[i] as usize, 10);
        push_bytes(&mut out, d.as_slice());
        proof {
            assert(s@.take(i + 1).drop_last() =~= s@.take(i as int));
            if i == 0 {
                assert(s@.take(0) =~= Seq::<u8>::empty());
            }
            assert(out@ =~= text("[") + debug_items(s@.take(i + 1)));
        }
        i = i + 1;
    }
    push_str(&mut out, "]");
    assert(s@.take(s@.len() as int) =~= s@);
    out
}

fn writes_region_exec(state: WriterState, process: &Option<ProcessMemory>) -> (r: bool)
    ensures
        r == writes_region(state, *process),
{
    match state {
        WriterState::KernelBss | WriterState::KernelInit | WriterState::KernelStack
        | WriterState::KernelRoData | WriterState::KernelText => true,
        WriterState::ProcessGrant | WriterState::ProcessHeapUnused | WriterState::ProcessHeap
        | WriterState::ProcessData | WriterState::ProcessStack | WriterState::ProcessStackUnused
        | WriterState::ProcessFlash | WriterState::ProcessProtected => process.is_some(),
        _ => false,
    }
}

/// The message for a process a command acted on: `Process <name> resumed.`,
/// `stopped` or `now faulted`, with a newline.
pub fn process_message(outcome: ProcessOutcome, name: &str) -> (out: Vec<u8>)
    requires
        process_message_text(outcome, name).len() <= CONSOLE_WRITER_SIZE,
    ensures
        out@ == process_message_text(outcome, name),
{
    let mut out: Vec<u8> = Vec::new();
    push_str(&mut out, "Process ");
    push_str(&mut out, name);
    match outcome {
        ProcessOutcome::Resumed => push_str(&mut out, " resumed.\n"),
        ProcessOutcome::Stopped => push_str(&mut out, " stopped\n"),
        ProcessOutcome::Faulted => push_str(&mut out, " now faulted\n"),
    }
    assert(out@ =~= process_message_text(outcome, name));
    out
}

impl ProcessConsole {
    /// A console that transmits from `tx_buffer`, receives into `rx_buffer`,
    /// queues output in `queue_buffer` and collects the typed line in
    /// `cmd_buffer`.
    pub fn new(tx_buffer: Vec<u8>, rx_buffer: Vec<u8>, queue_buffer: Vec<u8>, cmd_buffer: Vec<u8>) -> (c:
        ProcessConsole)
        ensures
            console_wf(c@),
            c@ == (ConsoleView {
                tx_in_progress: false,
                tx_buffer: Some(tx_buffer@),
                queue: queue_buffer@,
                queue_size: 0,
                writer_state: WriterState::Empty,
                writer_process: None,
                rx_in_progress: false,
                rx_buffer: Some(rx_buffer@),
                command: cmd_buffer@,
                command_index: 0,
                drivers: None,
                running: false,
                execute: false,
            }),
    {
        let queue_len = queue_buffer.len();
        let command_len = cmd_buffer.len();
        assert(queue_len == queue_buffer@.len() && command_len == cmd_buffer@.len());
        ProcessConsole {
            tx_in_progress: false,
            tx_buffer: Some(tx_buffer),
            queue_buffer,
            queue_size: 0,
            writer_state: WriterState::Empty,
            writer_process: None,
            rx_in_progress: false,
            rx_buffer: Some(rx_buffer),
            command_buffer: cmd_buffer,
            command_index: 0,
            drivers: None,
            running: false,
            execute: false,
        }
    }

    fn write_bytes_inner(&mut self, bytes: &[u8], queue_at_hand: bool, actions: &mut Vec<ConsoleAction>) -> (r:
        Result<(), ErrorCode>)
        requires
            console_wf(old(self)@),
        ensures
            console_wf(final(self)@),
            final(self)@ == write_bytes_spec(old(self)@, bytes@, queue_at_hand).0,
            cviews(final(actions)@) == cviews(old(actions)@) + write_bytes_spec(old(self)@, bytes@, queue_at_hand).1,
            r == write_bytes_spec(old(self)@, bytes@, queue_at_hand).2,
    {
        if self.tx_in_progress {
            if queue_at_hand {
                let size = self.queue_size;
                let room = self.queue_buffer.len() - size;
                let len = if bytes.len() < room { bytes.len() } else { room };
                copy_into(&mut self.queue_buffer, size, bytes, len);
                self.queue_size = size + len;
                assert(self@ =~= write_bytes_spec(old(self)@, bytes@, queue_at_hand).0);
            }
            assert(cviews(actions@) =~= cviews(old(actions)@) + Seq::<ConsoleActionView>::empty());
            Err(ErrorCode::BUSY)
        } else {
            self.tx_in_progress = true;
            match self.tx_buffer.take() {
                Some(mut buffer) => {
                    let len = if bytes.len() < buffer.len() { bytes.len() } else { buffer.len() };
                    copy_into(&mut buffer, 0, bytes, len);
                    push_caction(actions, ConsoleAction::Transmit(buffer, len));
                },
                None => {},
            }
            assert(self@ =~= write_bytes_spec(old(self)@, bytes@, queue_at_hand).0);
            assert(cviews(actions@) =~= cviews(old(actions)@) + write_bytes_spec(old(self)@, bytes@, queue_at_hand).1);
            Ok(())
        }
    }

    /// Writes `bytes`: transmitted at once when nothing is being transmitted
    /// (as much as fits the transmit buffer), else queued (as much as fits
    /// the queue) with `BUSY`.
    pub fn write_bytes(&mut self, bytes: &[u8], actions: &mut Vec<ConsoleAction>) -> (r: Result<(), ErrorCode>)
        requires
            console_wf(old(self)@),
        ensures
            console_wf(final(self)@),
            final(self)@ == write_bytes_spec(old(self)@, bytes@, true).0,
            cviews(final(actions)@) == cviews(old(actions)@) + write_bytes_spec(old(self)@, bytes@, true).1,
            r == write_bytes_spec(old(self)@, bytes@, true).2,
            same_line(final(self)@, old(self)@),
    {
        self.write_bytes_inner(bytes, true, actions)
    }

    fn write_byte(&mut self, byte: u8, actions: &mut Vec<ConsoleAction>) -> (r: Result<(), ErrorCode>)
        requires
            console_wf(old(self)@),
            write_byte_defined(old(self)@),
        ensures
            console_wf(final(self)@),
            final(self)@ == write_byte_spec(old(self)@, byte).0,
            cviews(final(actions)@) == cviews(old(actions)@) + write_byte_spec(old(self)@, byte).1,
            r == write_byte_spec(old(self)@, byte).2,
    {
        if self.tx_in_progress {
            let size = self.queue_size;
            let qlen = self.queue_buffer.len();
            assert(size < qlen);
            self.queue_buffer.set(size, byte);
            self.queue_size = size + 1;
            assert(self@ =~= write_byte_spec(old(self)@, byte).0);
            assert(cviews(actions@) =~= cviews(old(actions)@) + Seq::<ConsoleActionView>::empty());
            Err(ErrorCode::BUSY)
        } else {
            self.tx_in_progress = true;
            match self.tx_buffer.take() {
                Some(mut buffer) => {
                    buffer.set(0, byte);
                    push_caction(actions, ConsoleAction::Transmit(buffer, 1));
                },
                None => {},
            }
            assert(self@ =~= write_byte_spec(old(self)@, byte).0);
            assert(cviews(actions@) =~= cviews(old(actions)@) + write_byte_spec(old(self)@, byte).1);
            Ok(())
        }
    }

    /// Starts printing the memory map from `state` (about the process
    /// `process`) unless a printing is waiting; when no echo is being
    /// transmitted, prints every region that follows as debug output, using
    /// the addresses in `memory`.
    pub fn write_state(
        &mut self,
        state: WriterState,
        process: Option<usize>,
        memory: &MemorySnapshot,
        actions: &mut Vec<ConsoleAction>,
    )
        requires
            console_wf(old(self)@),
            write_state_defined(old(self)@, state, process, *memory),
        ensures
            console_wf(final(self)@),
            final(self)@ == write_state_spec(old(self)@, state, process, *memory).0,
            cviews(final(actions)@) == cviews(old(actions)@) + write_state_spec(old(self)@, state, process, *memory).1,
    {
        if self.writer_state == WriterState::Empty {
            self.writer_state = state;
            self.writer_process = process;
        }
        if !self.tx_in_progress {
            let p = if self.writer_process.is_some() { memory.process } else { None };
            let ghost start = self.writer_state;
            let ghost a0 = cviews(actions@);
            let mut w = self.writer_state;
            assert(a0 + rest_of_map(start, memory.kernel, p) =~= cviews(actions@) + rest_of_map(w, memory.kernel, p));
            while next_state(w) != WriterState::Empty
                invariant
                    a0 + rest_of_map(start, memory.kernel, p) == cviews(actions@) + rest_of_map(w, memory.kernel, p),
                    rest_of_map_defined(w, memory.kernel, p),
                decreases regions_left(w),
            {
                let n = next_state(w);
                let ghost before = cviews(actions@);
                if writes_region_exec(n, &p) {
                    let out = create_state_buffer(n, &memory.kernel, p);
                    push_caction(actions, ConsoleAction::Debug(out));
                }
                proof {
                    let here = if writes_region(n, p) {
                        seq![ConsoleActionView::Debug(state_text(n, memory.kernel, p))]
                    } else {
                        Seq::empty()
                    };
                    assert(cviews(actions@) =~= before + here);
                    assert(before + rest_of_map(w, memory.kernel, p) =~= cviews(actions@) + rest_of_map(
                        n,
                        memory.kernel,
                        p,
                    ));
                }
                w = n;
            }
            assert(rest_of_map(w, memory.kernel, p) =~= Seq::<ConsoleActionView>::empty());
            assert(cviews(actions@) =~= a0 + rest_of_map(start, memory.kernel, p));
            self.writer_state = WriterState::Empty;
            assert(self@ =~= write_state_spec(old(self)@, state, process, *memory).0);
        } else {
            assert(cviews(actions@) =~= cviews(old(actions)@) + Seq::<ConsoleActionView>::empty());
        }
    }

    /// Reads the command line, prints what needs nothing more than the
    /// console, clears the line, and gives the command back.
    fn read_command(&mut self, actions: &mut Vec<ConsoleAction>) -> (cmd: ConsoleCommand)
        requires
            console_wf(old(self)@),
            read_command_defined(old(self)@),
        ensures
            console_wf(final(self)@),
            final(self)@ == read_command_spec(old(self)@).0,
            cviews(final(actions)@) == cviews(old(actions)@) + read_command_spec(old(self)@).1,
            cmd@ == read_command_spec(old(self)@).2,
    {
        let cmd = read_command_line(self.command_buffer.as_slice());
        let ghost a0 = cviews(actions@);
        let mut texts: Vec<Vec<u8>> = Vec::new();
        match cmd {
            ConsoleCommand::Help => {
                texts.push(bytes_of("Welcome to the process console.\n"));
                texts.push(bytes_of("Valid commands are: help status list stop start fault process kernel\n"));
            },
            ConsoleCommand::Unknown => {
                texts.push(bytes_of("Valid commands are: help status list stop start fault process kernel\n"));
            },
            ConsoleCommand::Invalid => {
                let mut out: Vec<u8> = Vec::new();
                push_str(&mut out, "Invalid command: ");
                let listed = debug_list_bytes(self.command_buffer.as_slice());
                push_bytes(&mut out, listed.as_slice());
                texts.push(out);
            },
            ConsoleCommand::List => {
                texts.push(
                    bytes_of(" PID    Name                Quanta  Syscalls  Dropped Upcalls    Restarts    State  Grants\n"),
                );
            },
            _ => {},
        }
        proof {
            let expected = match cmd@ {
                CommandView::Help => seq![welcome_text(), valid_commands_text()],
                CommandView::Unknown => seq![valid_commands_text()],
                CommandView::Invalid => seq![text("Invalid command: ") + debug_list(self@.command)],
                CommandView::List => seq![list_header_text()],
                _ => Seq::<Seq<u8>>::empty(),
            };
            assert(texts_view(texts@) =~= expected);
        }
        push_debug_texts(actions, &texts);
        proof {
            let out = read_command_spec(old(self)@).1;
            assert(cviews(actions@) =~= a0 + out);
        }
        self.command_buffer.set(0, 0);
        self.command_index = 0;
        assert(self@ =~= read_command_spec(old(self)@).0);
        cmd
    }

    fn finish_region(&mut self, memory: &MemorySnapshot, actions: &mut Vec<ConsoleAction>)
        requires
            console_wf(old(self)@),
            printing_under_way(old(self)@.writer_state) ==> write_state_defined(
                old(self)@,
                WriterState::Empty,
                None,
                *memory,
            ),
        ensures
            console_wf(final(self)@),
            final(self)@ == finish_region_spec(old(self)@, *memory).0,
            cviews(final(actions)@) == cviews(old(actions)@) + finish_region_spec(old(self)@, *memory).1,
    {
        if self.writer_state != WriterState::Empty && self.writer_state != WriterState::KernelStart
            && self.writer_state != WriterState::ProcessStart {
            self.write_state(WriterState::Empty, None, memory, actions);
        } else {
            assert(cviews(actions@) =~= cviews(old(actions)@) + Seq::<ConsoleActionView>::empty());
        }
    }

    fn flush_queue(&mut self, actions: &mut Vec<ConsoleAction>)
        requires
            console_wf(old(self)@),
        ensures
            console_wf(final(self)@),
            final(self)@ == flush_queue_spec(old(self)@).0,
            cviews(final(actions)@) == cviews(old(actions)@) + flush_queue_spec(old(self)@).1,
    {
        let len = self.queue_size;
        if len != 0 {
            let mut queued: Vec<u8> = Vec::new();
            let mut i: usize = 0;
            while i < len
                invariant
                    i <= len,
                    len <= self.queue_buffer@.len(),
                    queued@ == self.queue_buffer@.subrange(0, i as int),
                decreases len - i,
            {
                queued.push(self.queue_buffer[i]);
                i = i + 1;
                assert(queued@ =~= self.queue_buffer@.subrange(0, i as int));
            }
            assert(queued@ =~= self.queue_buffer@.take(len as int));
            let _ = self.write_bytes_inner(queued.as_slice(), false, actions);
        } else {
            assert(cviews(actions@) =~= cviews(old(actions)@) + Seq::<ConsoleActionView>::empty());
        }
        self.queue_size = 0;
        assert(self@ =~= flush_queue_spec(old(self)@).0);
    }

    fn continue_printing(&mut self, memory: &MemorySnapshot, actions: &mut Vec<ConsoleAction>)
        requires
            console_wf(old(self)@),
            old(self)@.writer_state != WriterState::Empty ==> write_state_defined(
                old(self)@,
                WriterState::Empty,
                None,
                *memory,
            ),
        ensures
            console_wf(final(self)@),
            final(self)@ == continue_printing_spec(old(self)@, *memory).0,
            cviews(final(actions)@) == cviews(old(actions)@) + continue_printing_spec(old(self)@, *memory).1,
    {
        if self.writer_state != WriterState::Empty {
            self.write_state(WriterState::Empty, None, memory, actions);
        } else {
            assert(cviews(actions@) =~= cviews(old(actions)@) + Seq::<ConsoleActionView>::empty());
        }
    }

    /// A transmission finished and the UART handed `buffer` back: moves the
    /// printing on, sends what waited in the queue, and reads the command
    /// line when its newline echo was the transmission. Gives back the
    /// command to carry out.
    #[verifier::rlimit(40)]
    pub fn transmitted_buffer(
        &mut self,
        buffer: Vec<u8>,
        tx_len: usize,
        rcode: Result<(), ErrorCode>,
        memory: &MemorySnapshot,
        actions: &mut Vec<ConsoleAction>,
    ) -> (cmd: ConsoleCommand)
        requires
            console_wf(old(self)@),
            transmitted_defined(old(self)@, buffer@, *memory),
        ensures
            console_wf(final(self)@),
            final(self)@ == transmitted_spec(old(self)@, buffer@, *memory).0,
            cviews(final(actions)@) == cviews(old(actions)@) + transmitted_spec(old(self)@, buffer@, *memory).1,
            cmd@ == transmitted_spec(old(self)@, buffer@, *memory).2,
    {
        let ghost s0 = self@;
        let ghost b0 = buffer@;
        let ghost a0 = cviews(actions@);
        self.tx_buffer = Some(buffer);
        self.tx_in_progress = false;
        let ghost s1 = self@;
        assert(s1 == ConsoleView { tx_buffer: Some(b0), tx_in_progress: false, ..s0 });
        self.finish_region(memory, actions);
        self.flush_queue(actions);
        self.continue_printing(memory, actions);
        proof {
            let t = transmitted_stages(s0, b0, *memory);
            assert(self@ == t.2);
            assert(cviews(actions@) =~= a0 + t.3);
        }
        if self.execute {
            self.execute = false;
            let cmd = self.read_command(actions);
            assert(cviews(actions@) =~= a0 + transmitted_spec(s0, b0, *memory).1);
            cmd
        } else {
            ConsoleCommand::Nothing
        }
    }

    /// The UART received into `read_buf`: handles the byte (or reports a
    /// read of other than one byte) and asks for the next one.
    pub fn received_buffer(
        &mut self,
        read_buf: Vec<u8>,
        rx_len: usize,
        rcode: Result<(), ErrorCode>,
        error: UartError,
        actions: &mut Vec<ConsoleAction>,
    )
        requires
            console_wf(old(self)@),
            received_defined(old(self)@, read_buf@, rx_len, error),
        ensures
            console_wf(final(self)@),
            final(self)@ == received_spec(old(self)@, read_buf@, rx_len, error).0,
            cviews(final(actions)@) == cviews(old(actions)@) + received_spec(old(self)@, read_buf@, rx_len, error).1,
    {
        let ghost a0 = cviews(actions@);
        if error == UartError::NoError && rx_len == 1 {
            let index = self.command_index;
            let byte = read_buf[0];
            if byte == 0x0a || byte == 0x0d {
                self.execute = true;
                let _ = self.write_bytes(&[0x0d, 0x0a], actions);
            } else if byte == 0x08 && index > 0 {
                // Erase on screen with backspace, space, backspace.
                let _ = self.write_bytes(&[0x08, 0x20, 0x08], actions);
                self.command_buffer.set(index - 1, 0);
                self.command_index = index - 1;
            } else if index < self.command_buffer.len() - 1 && byte < 128 {
                // Bytes above 127 would not be UTF-8 on their own.
                let _ = self.write_byte(byte, actions);
                self.command_buffer.set(index, byte);
                self.command_index = index + 1;
                self.command_buffer.set(index + 1, 0);
            }
        } else if error == UartError::NoError {
            push_caction(actions, ConsoleAction::DebugMessage(odd_read_message_bytes(rx_len)));
        }
        let ghost a1 = cviews(actions@);
        self.rx_in_progress = true;
        let ghost rb = read_buf@;
        push_caction(actions, ConsoleAction::Receive(read_buf, 1));
        proof {
            let r = received_spec(old(self)@, rb, rx_len, error);
            assert(a1 =~= a0 + r.1.drop_last());
            assert(self@ =~= r.0);
            assert(cviews(actions@) =~= a0 + r.1);
        }
    }
}

impl ProcessConsole {
    /// Starts the console when it is not running: remembers the drivers,
    /// asks the UART for the first byte, and prints the kernel version, the
    /// drivers and the greeting as debug output.
    pub fn start(&mut self, driver_str: &'static str, version: &str, actions: &mut Vec<ConsoleAction>) -> (r:
        Result<(), ErrorCode>)
        requires
            console_wf(old(self)@),
            !old(self)@.running ==> version_text(version).len() <= CONSOLE_WRITER_SIZE,
            !old(self)@.running ==> text(driver_str).len() <= CONSOLE_WRITER_SIZE,
        ensures
            console_wf(final(self)@),
            r == Ok::<(), ErrorCode>(()),
            old(self)@.running ==> final(self)@ == old(self)@ && cviews(final(actions)@) == cviews(old(actions)@),
            !old(self)@.running ==> {
                &&& final(self)@ == start_spec(old(self)@, driver_str, version).0
                &&& cviews(final(actions)@) == cviews(old(actions)@) + start_spec(old(self)@, driver_str, version).1
            },
    {
        if !self.running {
            self.drivers = Some(driver_str);
            let ghost a0 = cviews(actions@);
            match self.rx_buffer.take() {
                Some(buffer) => {
                    self.rx_in_progress = true;
                    push_caction(actions, ConsoleAction::Receive(buffer, 1));
                    self.running = true;
                },
                None => {},
            }
            let ghost a1 = cviews(actions@);
            let mut version_line = bytes_of("Kernel version: ");
            push_str(&mut version_line, version);
            push_str(&mut version_line, "\r\n");
            let texts = vec![
                version_line,
                bytes_of("Drivers:\n"),
                bytes_of(driver_str),
                bytes_of("Welcome to the process console.\n"),
                bytes_of("Valid commands are: help status list stop start fault process kernel\n"),
            ];
            assert(texts_view(texts@) =~= seq![
                version_text(version),
                text("Drivers:\n"),
                text(driver_str),
                welcome_text(),
                valid_commands_text(),
            ]);
            push_debug_texts(actions, &texts);
            assert(self@ =~= start_spec(old(self)@, driver_str, version).0);
            assert(cviews(actions@) =~= cviews(old(actions)@) + start_spec(old(self)@, driver_str, version).1);
        }
        Ok(())
    }

    /// The `kernel` command: prints the kernel version and, when known, the
    /// drivers, then the kernel's memory map, as debug output.
    pub fn print_kernel(&mut self, version: &str, memory: &MemorySnapshot, actions: &mut Vec<ConsoleAction>)
        requires
            console_wf(old(self)@),
            print_kernel_defined(old(self)@, version, *memory),
        ensures
            console_wf(final(self)@),
            final(self)@ == print_kernel_spec(old(self)@, version, *memory).0,
            cviews(final(actions)@) == cviews(old(actions)@) + print_kernel_spec(old(self)@, version, *memory).1,
    {
        let ghost a0 = cviews(actions@);
        let mut version_line = bytes_of("Kernel version: ");
        push_str(&mut version_line, version);
        push_str(&mut version_line, "\r\n");
        let texts = match self.drivers {
            Some(d) => vec![version_line, bytes_of("Drivers:\n"), bytes_of(d)],
            None => vec![version_line],
        };
        assert(texts_view(texts@) =~= kernel_texts(self@, version));
        push_debug_texts(actions, &texts);
        self.write_state(WriterState::KernelStart, None, memory, actions);
        assert(cviews(actions@) =~= a0 + print_kernel_spec(old(self)@, version, *memory).1);
    }

    /// The `process` command for a process found by name: prints its memory
    /// map.
    pub fn print_process(&mut self, process: usize, memory: &MemorySnapshot, actions: &mut Vec<ConsoleAction>)
        requires
            console_wf(old(self)@),
            write_state_defined(old(self)@, WriterState::ProcessStart, Some(process), *memory),
        ensures
            console_wf(final(self)@),
            final(self)@ == write_state_spec(old(self)@, WriterState::ProcessStart, Some(process), *memory).0,
            cviews(final(actions)@) == cviews(old(actions)@) + write_state_spec(
                old(self)@,
                WriterState::ProcessStart,
                Some(process),
                *memory,
            ).1,
    {
        self.write_state(WriterState::ProcessStart, Some(process), memory, actions);
    }

    /// The `status` command: prints the number of processes loaded, the
    /// number active, and the number of timeslice expirations, as debug
    /// output.
    pub fn print_status(&self, total: usize, active: usize, expirations: usize, actions: &mut Vec<ConsoleAction>)
        ensures
            cviews(final(actions)@) == cviews(old(actions)@) + debug_texts(status_texts(total, active, expirations)),
    {
        let mut l1 = bytes_of("Total processes: ");
        let d1 = digits_of(total, 10);
        push_bytes(&mut l1, d1.as_slice());
        push_str(&mut l1, "\n");
        let mut l2 = bytes_of("Active processes: ");
        let d2 = digits_of(active, 10);
        push_bytes(&mut l2, d2.as_slice());
        push_str(&mut l2, "\n");
        let mut l3 = bytes_of("Timeslice expirations: ");
        let d3 = digits_of(expirations, 10);
        push_bytes(&mut l3, d3.as_slice());
        push_str(&mut l3, "\n");
        let texts = vec![l1, l2, l3];
        assert(texts_view(texts@) =~= status_texts(total, active, expirations));
        push_debug_texts(actions, &texts);
    }

    /// Whether the console is running.
    pub fn is_running(&self) -> (r: bool)
        ensures
            r == self@.running,
    {
        self.running
    }

    /// The region of the memory map printed last and the process it is
    /// about.
    pub fn writer(&self) -> (r: (WriterState, Option<usize>))
        ensures
            r == (self@.writer_state, self@.writer_process),
    {
        (self.writer_state, self.writer_process)
    }

    /// The characters typed so far, and their count.
    pub fn command_line(&self) -> (r: (Vec<u8>, usize))
        ensures
            r.0@ == self@.command,
            r.1 == self@.command_index,
    {
        let mut v: Vec<u8> = Vec::new();
        push_bytes(&mut v, self.command_buffer.as_slice());
        (v, self.command_index)
    }

    /// Whether a transmission is in progress, and how many bytes wait.
    pub fn output_state(&self) -> (r: (bool, usize))
        ensures
            r == (self@.tx_in_progress, self@.queue_size),
    {
        (self.tx_in_progress, self.queue_size)
    }
}

fn copy_buffer(v: &Vec<u8>) -> (r: Vec<u8>)
    ensures
        r@ == v@,
{
    let mut r: Vec<u8> = Vec::new();
    push_bytes(&mut r, v.as_slice());
    r
}

fn copy_opt_buffer(v: &Option<Vec<u8>>) -> (r: Option<Vec<u8>>)
    ensures
        bytes_view(r) == bytes_view(*v),
{
    match v {
        Some(b) => Some(copy_buffer(b)),
        None => None,
    }
}

impl ProcessConsole {
    fn duplicate(&self) -> (d: ProcessConsole)
        ensures
            d@ == self@,
    {
        let d = ProcessConsole {
            tx_in_progress: self.tx_in_progress,
            tx_buffer: copy_opt_buffer(&self.tx_buffer),
            queue_buffer: copy_buffer(&self.queue_buffer),
            queue_size: self.queue_size,
            writer_state: self.writer_state,
            writer_process: self.writer_process,
            rx_in_progress: self.rx_in_progress,
            rx_buffer: copy_opt_buffer(&self.rx_buffer),
            command_buffer: copy_buffer(&self.command_buffer),
            command_index: self.command_index,
            drivers: self.drivers,
            running: self.running,
            execute: self.execute,
        };
        assert(d@ =~= self@);
        d
    }

    /// Whether the region `write_state` would print has no negative size.
    pub fn can_write_state(&self, state: WriterState, process: Option<usize>, memory: &MemorySnapshot) -> (r: bool)
        ensures
            r == write_state_defined(self@, state, process, *memory),
    {
        let (ws, wp) = if self.writer_state == WriterState::Empty {
            (state, process)
        } else {
            (self.writer_state, self.writer_process)
        };
        if !self.tx_in_progress {
            let p = if wp.is_some() { memory.process } else { None };
            proof {
                let s1 = map_start(self@, state, process);
                assert(s1.writer_state == ws && s1.writer_process == wp);
                assert(shown_process(s1, *memory) == p);
            }
            let mut w = ws;
            while next_state(w) != WriterState::Empty
                invariant
                    write_state_defined(self@, state, process, *memory) == rest_of_map_defined(w, memory.kernel, p),
                decreases regions_left(w),
            {
                let n = next_state(w);
                if !region_defined(n, &memory.kernel, &p) {
                    assert(!rest_of_map_defined(w, memory.kernel, p));
                    return false;
                }
                w = n;
            }
            true
        } else {
            true
        }
    }

    fn can_read_command(&self) -> (r: bool)
        ensures
            r == read_command_defined(self@),
    {
        if self.command_buffer.len() < 1 {
            return false;
        }
        match read_command_line(self.command_buffer.as_slice()) {
            ConsoleCommand::Invalid => {
                let mut out: Vec<u8> = Vec::new();
                push_str(&mut out, "Invalid command: ");
                let listed = debug_list_bytes(self.command_buffer.as_slice());
                push_bytes(&mut out, listed.as_slice());
                out.len() <= CONSOLE_WRITER_SIZE
            },
            _ => true,
        }
    }

    /// Whether handing back `buffer` with the addresses in `memory` prints
    /// only regions without negative sizes, and reads the command line
    /// only when it can be read.
    pub fn can_transmit(&self, buffer: &Vec<u8>, memory: &MemorySnapshot) -> (r: bool)
        requires
            console_wf(self@),
        ensures
            r == transmitted_defined(self@, buffer@, *memory),
    {
        let mut probe = self.duplicate();
        let mut scratch: Vec<ConsoleAction> = Vec::new();
        probe.tx_buffer = Some(copy_buffer(buffer));
        probe.tx_in_progress = false;
        assert(probe@ == ConsoleView { tx_buffer: Some(buffer@), tx_in_progress: false, ..self@ });
        if probe.writer_state != WriterState::Empty && probe.writer_state != WriterState::KernelStart
            && probe.writer_state != WriterState::ProcessStart {
            if !probe.can_write_state(WriterState::Empty, None, memory) {
                return false;
            }
        }
        probe.finish_region(memory, &mut scratch);
        probe.flush_queue(&mut scratch);
        if probe.writer_state != WriterState::Empty {
            if !probe.can_write_state(WriterState::Empty, None, memory) {
                return false;
            }
        }
        probe.continue_printing(memory, &mut scratch);
        if probe.execute {
            probe.execute = false;
            probe.can_read_command()
        } else {
            true
        }
    }

    /// Whether the `kernel` command can print with the addresses in
    /// `memory` and this version string.
    pub fn can_print_kernel(&self, version: &str, memory: &MemorySnapshot) -> (r: bool)
        requires
            console_wf(self@),
        ensures
            r == print_kernel_defined(self@, version, *memory),
    {
        let mut version_line: Vec<u8> = Vec::new();
        push_str(&mut version_line, "Kernel version: ");
        push_str(&mut version_line, version);
        push_str(&mut version_line, "\r\n");
        if version_line.len() > CONSOLE_WRITER_SIZE {
            return false;
        }
        match self.drivers {
            Some(d) => {
                let drivers = bytes_of(d);
                if drivers.len() > CONSOLE_WRITER_SIZE {
                    return false;
                }
            },
            None => {},
        }
        self.can_write_state(WriterState::KernelStart, None, memory)
    }

    /// Whether handling a received byte is defined.
    pub fn can_receive(&self, read_buf: &Vec<u8>, rx_len: usize, error: UartError) -> (r: bool)
        ensures
            r == received_defined(self@, read_buf@, rx_len, error),
    {
        if !(error == UartError::NoError && rx_len == 1) {
            return true;
        }
        if read_buf.len() < 1 {
            return false;
        }
        let byte = read_buf[0];
        let index = self.command_index;
        if byte == 0x0a || byte == 0x0d || (byte == 0x08 && index > 0) {
            return true;
        }
        if self.command_buffer.len() < 1 {
            return false;
        }
        if index < self.command_buffer.len() - 1 && byte < 128 {
            if self.tx_in_progress {
                self.queue_size < self.queue_buffer.len()
            } else {
                match &self.tx_buffer {
                    Some(b) => b.len() >= 1,
                    None => true,
                }
            }
        } else {
            true
        }
    }
}

/// What is typed is echoed: a character received while nothing is being
/// transmitted goes out at once, alone, and the UART is asked for the next
/// byte.
pub proof fn lemma_typed_character_is_echoed(s: ConsoleView, byte: u8, tx: Seq<u8>)
    requires
        console_wf(s),
        !s.tx_in_progress,
        s.tx_buffer == Some(tx),
        tx.len() >= 1,
        byte < 128,
        byte != 0x0a && byte != 0x0d && byte != 0x08,
        s.command_index < s.command.len() - 1,
    ensures
        received_spec(s, seq![byte], 1, UartError::NoError).1 == seq![
            ConsoleActionView::Transmit(tx.update(0, byte), 1),
            ConsoleActionView::Receive(seq![byte], 1),
        ],
        received_spec(s, seq![byte], 1, UartError::NoError).0.command[s.command_index as int] == byte,
        received_spec(s, seq![byte], 1, UartError::NoError).0.command_index == s.command_index + 1,
{
    let r = received_spec(s, seq![byte], 1, UartError::NoError);
    assert(r.1 =~= seq![
        ConsoleActionView::Transmit(tx.update(0, byte), 1),
        ConsoleActionView::Receive(seq![byte], 1),
    ]);
}

/// A backspace undoes a typed character: after a character and then a
/// backspace, the cursor is back where it was, the line before it is as it
/// was, and the line ends at the cursor.
pub proof fn lemma_backspace_undoes_typing(s: ConsoleView, byte: u8)
    requires
        console_wf(s),
        write_byte_defined(s),
        byte < 128,
        byte != 0x0a && byte != 0x0d && byte != 0x08,
        s.command_index < s.command.len() - 1,
    ensures
        ({
            let typed = received_spec(s, seq![byte], 1, UartError::NoError).0;
            let erased = received_spec(typed, seq![0x08u8], 1, UartError::NoError).0;
            &&& erased.command_index == s.command_index
            &&& erased.command.take(s.command_index as int) == s.command.take(s.command_index as int)
            &&& erased.command[s.command_index as int] == 0
            &&& erased.command.len() == s.command.len()
        }),
{
    let i = s.command_index as int;
    let typed = received_spec(s, seq![byte], 1, UartError::NoError).0;
    assert(typed.command_index == i + 1);
    assert(seq![0x08u8][0] == 0x08u8);
    let erased = received_spec(typed, seq![0x08u8], 1, UartError::NoError).0;
    assert(erased.command.take(i) =~= s.command.take(i));
}

/// What is written while a transmission is in progress waits in the queue
/// and goes out, after what already waited and in the order written, when
/// the transmission finishes.
pub proof fn lemma_queued_output_follows(s: ConsoleView, bytes: Seq<u8>, buffer: Seq<u8>, memory: MemorySnapshot)
    requires
        console_wf(s),
        s.tx_in_progress,
        s.writer_state == WriterState::Empty,
        !s.execute,
        bytes.len() > 0,
        s.queue_size + bytes.len() <= s.queue.len(),
        s.queue_size + bytes.len() <= buffer.len(),
    ensures
        ({
            let queued = write_bytes_spec(s, bytes, true);
            let sent = transmitted_spec(queued.0, buffer, memory);
            let out = s.queue.take(s.queue_size as int) + bytes;
            &&& queued.1 == Seq::<ConsoleActionView>::empty()
            &&& queued.2 == Err::<(), ErrorCode>(ErrorCode::BUSY)
            &&& sent.1 == seq![ConsoleActionView::Transmit(splice(buffer, 0, out), out.len() as usize)]
            &&& sent.0.queue_size == 0
            &&& sent.0.tx_in_progress
            &&& sent.2 == CommandView::Nothing
        }),
{
    let queued = write_bytes_spec(s, bytes, true);
    let q = queued.0;
    let size = s.queue_size as int;
    let out = s.queue.take(size) + bytes;
    assert(q.queue_size == size + bytes.len());
    assert(q.queue.take(q.queue_size as int) =~= out);
    let t = transmitted_stages(q, buffer, memory);
    let s1 = ConsoleView { tx_buffer: Some(buffer), tx_in_progress: false, ..q };
    assert(finish_region_spec(s1, memory) == (s1, Seq::<ConsoleActionView>::empty()));
    let b = flush_queue_spec(s1);
    assert(out.take(out.len() as int) =~= out);
    assert(b.1 == seq![ConsoleActionView::Transmit(splice(buffer, 0, out), out.len() as usize)]);
    assert(continue_printing_spec(b.0, memory) == (b.0, Seq::<ConsoleActionView>::empty()));
    assert(t.3 =~= seq![ConsoleActionView::Transmit(splice(buffer, 0, out), out.len() as usize)]);
}

/// The typed line ends at the cursor: the byte under the cursor is zero.
pub open spec fn line_terminated(s: ConsoleView) -> bool {
    s.command_index < s.command.len() && s.command[s.command_index as int] == 0
}

/// The typed line keeps ending at the cursor whatever byte arrives.
pub proof fn lemma_received_keeps_line_terminated(s: ConsoleView, read_buf: Seq<u8>, rx_len: usize, error: UartError)
    requires
        console_wf(s),
        line_terminated(s),
        received_defined(s, read_buf, rx_len, error),
    ensures
        line_terminated(received_spec(s, read_buf, rx_len, error).0),
{
}

/// The typed line keeps ending at the cursor when a transmission finishes,
/// also when the line is read and cleared.
pub proof fn lemma_transmitted_keeps_line_terminated(s: ConsoleView, buffer: Seq<u8>, memory: MemorySnapshot)
    requires
        console_wf(s),
        line_terminated(s),
        transmitted_defined(s, buffer, memory),
    ensures
        line_terminated(transmitted_spec(s, buffer, memory).0),
{
    let s1 = ConsoleView { tx_buffer: Some(buffer), tx_in_progress: false, ..s };
    let t = transmitted_stages(s, buffer, memory);
    lemma_write_state_keeps_line(s1, WriterState::Empty, None, memory);
    lemma_write_state_keeps_line(t.1, WriterState::Empty, None, memory);
    let a = finish_region_spec(s1, memory);
    assert(a.0.command == s.command && a.0.command_index == s.command_index);
    let b = flush_queue_spec(a.0);
    if a.0.queue_size != 0 {
        let w = write_bytes_spec(a.0, a.0.queue.take(a.0.queue_size as int), false);
        assert(w.0.command == a.0.command && w.0.command_index == a.0.command_index);
    }
    assert(b.0.command == s.command && b.0.command_index == s.command_index);
    assert(t.2.command == s.command && t.2.command_index == s.command_index);
    if t.2.execute {
        let u = ConsoleView { execute: false, ..t.2 };
        assert(read_command_spec(u).0.command_index == 0);
        assert(read_command_spec(u).0.command[0] == 0);
    }
}

/// Writing the memory map leaves the typed line alone.
proof fn lemma_write_state_keeps_line(s: ConsoleView, state: WriterState, process: Option<usize>, memory: MemorySnapshot)
    ensures
        write_state_spec(s, state, process, memory).0.command == s.command,
        write_state_spec(s, state, process, memory).0.command_index == s.command_index,
        write_state_spec(s, state, process, memory).0.execute == s.execute,
{
}

/// A character that the console stores on the command line: printable
/// ASCII, not a zero, a newline or a backspace.
pub open spec fn line_character(b: u8) -> bool {
    0 < b < 128 && b != 0x0a && b != 0x0d && b != 0x08
}

/// The console after receiving each byte of `bytes` in turn.
pub open spec fn typed(s: ConsoleView, bytes: Seq<u8>) -> ConsoleView
    decreases bytes.len(),
{
    if bytes.len() == 0 {
        s
    } else {
        typed(received_spec(s, seq![bytes[0]], 1, UartError::NoError).0, bytes.drop_first())
    }
}

/// Typed characters are appended to the command line, which keeps ending
/// at the cursor, as long as there is room for them.
pub proof fn lemma_typing_appends(s: ConsoleView, line: Seq<u8>)
    requires
        line_terminated(s),
        s.command.len() <= usize::MAX,
        s.command_index + line.len() < s.command.len(),
        forall|i: int| 0 <= i < line.len() ==> line_character(#[trigger] line[i]),
    ensures
        ({
            let t = typed(s, line);
            &&& t.command_index == s.command_index + line.len()
            &&& t.command.len() == s.command.len()
            &&& t.command.take(t.command_index as int) == s.command.take(s.command_index as int) + line
            &&& line_terminated(t)
            &&& t.execute == s.execute
        }),
    decreases line.len(),
{
    let i = s.command_index as int;
    if line.len() == 0 {
        assert(s.command.take(i) + line =~= s.command.take(i));
    } else {
        let b = line[0];
        assert(line_character(b));
        assert(seq![b][0] == b);
        let s1 = received_spec(s, seq![b], 1, UartError::NoError).0;
        assert(s1.command_index == i + 1);
        assert(s1.command.take(i + 1) =~= s.command.take(i).push(b));
        assert forall|k: int| 0 <= k < line.drop_first().len() implies line_character(
            #[trigger] line.drop_first()[k],
        ) by {
            assert(line.drop_first()[k] == line[k + 1]);
        }
        lemma_typing_appends(s1, line.drop_first());
        assert(s.command.take(i).push(b) + line.drop_first() =~= s.command.take(i) + line);
    }
}

proof fn lemma_first_zero_from(c: Seq<u8>, i: int, n: int)
    requires
        0 <= i <= n < c.len(),
        c[n] == 0,
        forall|k: int| i <= k < n ==> c[k] != 0,
    ensures
        first_zero_from(c, i) == n,
    decreases n - i,
{
    if i < n {
        lemma_first_zero_from(c, i + 1, n);
    }
}

/// The command read from a buffer that holds `line` and then a zero is the
/// command of `line` followed by a zero, whatever comes after.
proof fn lemma_line_parses_alone(c: Seq<u8>, line: Seq<u8>)
    requires
        line.len() < c.len(),
        c.take(line.len() as int) == line,
        c[line.len() as int] == 0,
        forall|k: int| 0 <= k < line.len() ==> line[k] != 0,
    ensures
        parse_command(c) == parse_command(line.push(0)),
{
    let n = line.len() as int;
    let p = line.push(0);
    assert forall|k: int| 0 <= k < n implies c[k] != 0 by {
        assert(c.take(n)[k] == c[k]);
    }
    lemma_first_zero_from(c, 0, n);
    lemma_first_zero_from(p, 0, n);
    assert(c.subrange(0, n) =~= line);
    assert(p.subrange(0, n) =~= line);
}

/// The console reads the line that was typed: from an empty command line,
/// after a line of characters and a carriage return, the transmission that
/// finishes next gives back the command of that line.
pub proof fn lemma_typed_line_is_read(s: ConsoleView, line: Seq<u8>, buffer: Seq<u8>, memory: MemorySnapshot)
    requires
        line_terminated(s),
        s.command_index == 0,
        s.command.len() <= usize::MAX,
        line.len() < s.command.len(),
        forall|i: int| 0 <= i < line.len() ==> line_character(#[trigger] line[i]),
    ensures
        ({
            let entered = received_spec(typed(s, line), seq![0x0du8], 1, UartError::NoError).0;
            transmitted_spec(entered, buffer, memory).2 == parse_command(line.push(0))
        }),
{
    lemma_typing_appends(s, line);
    let t = typed(s, line);
    assert(s.command.take(0) + line =~= line);
    assert(seq![0x0du8][0] == 0x0du8);
    let entered = received_spec(t, seq![0x0du8], 1, UartError::NoError).0;
    assert(entered.command == t.command && entered.execute);
    let s1 = ConsoleView { tx_buffer: Some(buffer), tx_in_progress: false, ..entered };
    let st = transmitted_stages(entered, buffer, memory);
    lemma_write_state_keeps_line(s1, WriterState::Empty, None, memory);
    lemma_write_state_keeps_line(st.1, WriterState::Empty, None, memory);
    let a = finish_region_spec(s1, memory);
    if a.0.queue_size != 0 {
        let w = write_bytes_spec(a.0, a.0.queue.take(a.0.queue_size as int), false);
        assert(w.0.command == a.0.command && w.0.execute == a.0.execute);
    }
    assert(st.2.command == t.command && st.2.execute);
    assert forall|k: int| 0 <= k < line.len() implies line[k] != 0 by {
        assert(line_character(line[k]));
    }
    lemma_line_parses_alone(t.command, line);
}

/// The `kernel` command prints the whole kernel memory map at once when no
/// echo is being transmitted: after the version and the drivers, the five
/// kernel regions from the bss down to the text, in order, as debug output;
/// then nothing is left to print.
pub proof fn lemma_kernel_map_printed_whole(s: ConsoleView, version: &str, memory: MemorySnapshot)
    requires
        s.writer_state == WriterState::Empty,
        !s.tx_in_progress,
    ensures
        ({
            let r = print_kernel_spec(s, version, memory);
            let k = memory.kernel;
            &&& r.0.writer_state == WriterState::Empty
            &&& r.1 == debug_texts(kernel_texts(s, version)) + seq![
                ConsoleActionView::Debug(state_text(WriterState::KernelBss, k, None)),
                ConsoleActionView::Debug(state_text(WriterState::KernelInit, k, None)),
                ConsoleActionView::Debug(state_text(WriterState::KernelStack, k, None)),
                ConsoleActionView::Debug(state_text(WriterState::KernelRoData, k, None)),
                ConsoleActionView::Debug(state_text(WriterState::KernelText, k, None)),
            ]
        }),
{
    let k = memory.kernel;
    let s1 = map_start(s, WriterState::KernelStart, None);
    assert(shown_process(s1, memory) == None::<ProcessMemory>);
    reveal_with_fuel(rest_of_map, 7);
    assert(rest_of_map(WriterState::KernelStart, k, None) =~= seq![
        ConsoleActionView::Debug(state_text(WriterState::KernelBss, k, None)),
        ConsoleActionView::Debug(state_text(WriterState::KernelInit, k, None)),
        ConsoleActionView::Debug(state_text(WriterState::KernelStack, k, None)),
        ConsoleActionView::Debug(state_text(WriterState::KernelRoData, k, None)),
        ConsoleActionView::Debug(state_text(WriterState::KernelText, k, None)),
    ]);
}

/// The `process` command prints the whole memory map of a known process at
/// once when no echo is being transmitted: eight regions, in order, from
/// its grants down to its protected flash, as debug output; then nothing is
/// left to print.
pub proof fn lemma_process_map_printed_whole(s: ConsoleView, id: usize, memory: MemorySnapshot, p: ProcessMemory)
    requires
        s.writer_state == WriterState::Empty,
        !s.tx_in_progress,
        memory.process == Some(p),
    ensures
        ({
            let r = write_state_spec(s, WriterState::ProcessStart, Some(id), memory);
            let k = memory.kernel;
            &&& r.0.writer_state == WriterState::Empty
            &&& r.1 == seq![
                ConsoleActionView::Debug(state_text(WriterState::ProcessGrant, k, Some(p))),
                ConsoleActionView::Debug(state_text(WriterState::ProcessHeapUnused, k, Some(p))),
                ConsoleActionView::Debug(state_text(WriterState::ProcessHeap, k, Some(p))),
                ConsoleActionView::Debug(state_text(WriterState::ProcessData, k, Some(p))),
                ConsoleActionView::Debug(state_text(WriterState::ProcessStack, k, Some(p))),
                ConsoleActionView::Debug(state_text(WriterState::ProcessStackUnused, k, Some(p))),
                ConsoleActionView::Debug(state_text(WriterState::ProcessFlash, k, Some(p))),
                ConsoleActionView::Debug(state_text(WriterState::ProcessProtected, k, Some(p))),
            ]
        }),
{
    let k = memory.kernel;
    let s1 = map_start(s, WriterState::ProcessStart, Some(id));
    assert(shown_process(s1, memory) == Some(p));
    reveal_with_fuel(rest_of_map, 11);
    assert(rest_of_map(WriterState::ProcessStart, k, Some(p)) =~= seq![
        ConsoleActionView::Debug(state_text(WriterState::ProcessGrant, k, Some(p))),
        ConsoleActionView::Debug(state_text(WriterState::ProcessHeapUnused, k, Some(p))),
        ConsoleActionView::Debug(state_text(WriterState::ProcessHeap, k, Some(p))),
        ConsoleActionView::Debug(state_text(WriterState::ProcessData, k, Some(p))),
        ConsoleActionView::Debug(state_text(WriterState::ProcessStack, k, Some(p))),
        ConsoleActionView::Debug(state_text(WriterState::ProcessStackUnused, k, Some(p))),
        ConsoleActionView::Debug(state_text(WriterState::ProcessFlash, k, Some(p))),
        ConsoleActionView::Debug(state_text(WriterState::ProcessProtected, k, Some(p))),
    ]);
}

/// Without a known process, the `process` command prints nothing.
pub proof fn lemma_unknown_process_prints_nothing(s: ConsoleView, id: usize, memory: MemorySnapshot)
    requires
        s.writer_state == WriterState::Empty,
        !s.tx_in_progress,
        memory.process is None,
    ensures
        write_state_spec(s, WriterState::ProcessStart, Some(id), memory).1 == Seq::<ConsoleActionView>::empty(),
{
    let k = memory.kernel;
    reveal_with_fuel(rest_of_map, 11);
    assert(rest_of_map(WriterState::ProcessStart, k, None) =~= Seq::<ConsoleActionView>::empty());
}

/// What reading a command line prints, as debug output, for each command:
/// `help` the greeting and the list of commands, an unknown command the
/// list of commands, a line that is not UTF-8 the message with its bytes,
/// `list` the header of the process list, any other command nothing (the
/// caller carries it out). The line is then cleared and the command given
/// back.
pub proof fn lemma_read_command_output(s: ConsoleView)
    requires
        s.command.len() >= 1,
    ensures
        ({
            let r = read_command_spec(s);
            let welcome = text("Welcome to the process console.\n");
            let valid = text("Valid commands are: help status list stop start fault process kernel\n");
            &&& r.2 == parse_command(s.command)
            &&& r.0.command_index == 0
            &&& r.0.command[0] == 0
            &&& r.1 == match parse_command(s.command) {
                CommandView::Help => seq![ConsoleActionView::Debug(welcome), ConsoleActionView::Debug(valid)],
                CommandView::Unknown => seq![ConsoleActionView::Debug(valid)],
                CommandView::Invalid => seq![
                    ConsoleActionView::Debug(text("Invalid command: ") + debug_list(s.command)),
                ],
                CommandView::List => seq![
                    ConsoleActionView::Debug(
                        text(" PID    Name                Quanta  Syscalls  Dropped Upcalls    Restarts    State  Grants\n"),
                    ),
                ],
                _ => Seq::<ConsoleActionView>::empty(),
            }
        }),
{
    let texts = match parse_command(s.command) {
        CommandView::Help => seq![welcome_text(), valid_commands_text()],
        CommandView::Unknown => seq![valid_commands_text()],
        CommandView::Invalid => seq![text("Invalid command: ") + debug_list(s.command)],
        CommandView::List => seq![list_header_text()],
        _ => Seq::<Seq<u8>>::empty(),
    };
    assert(debug_texts(texts) =~= read_command_spec(s).1);
}

} // verus!
