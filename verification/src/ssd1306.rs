//! The SSD1306/SSD1315 OLED screen driver.
//!
//! The driver talks to the controller in two ways. Over I2C it sends frames
//! of command bytes (`send_sequence` and the functions built on it) and of
//! pixel data (`write`). Over a parallel bus it runs command sequences one
//! entry at a time (`do_next_op`), waiting on bus completions and alarms.
//! The driver decides; what it asks of the hardware and of its clients comes
//! out as a list of [`Action`]s, which the caller performs in order.

use vstd::prelude::*;
use crate::command::{Command, command_bytes, commands_bytes, splice};
use crate::error::ErrorCode;
use crate::panel::{
    PanelCommand, SendCommand, ScreenRotation, ScreenPixelFormat, ST77XXScreen, nop, write_ram, parameter_bytes, parameter_len,
    display_on, display_off, invon, invoff, madctl, offset_for,
};
use crate::subslice::SubSliceMut;

verus! {

/// Number of bytes of the parameter buffer a board should provide.
pub const BUFFER_SIZE: usize = 24;

/// Number of entries of the command sequence buffer.
pub const SEQUENCE_BUFFER_SIZE: usize = 24;

/// Length of the I2C frame that brings the screen up.
pub const INIT_FRAME_LEN: usize = 27;

/// Width of the screen in pixels.
pub const WIDTH: usize = 128;

/// Height of the screen in pixels.
pub const HEIGHT: usize = 64;

/// Where the driver stands between two operations.
#[derive(Clone, Copy, Debug, PartialEq, Eq, Structural)]
pub enum Status {
    Idle,
    Init,
    Reset1,
    Reset2,
    Reset3,
    Reset4,
    /// Parameter position, parameter length and remaining repeats.
    SendCommand(usize, usize, usize),
    /// Length of the write buffer slice to send.
    SendCommandSlice(usize),
    SendParametersSlice,
    Delay,
    Error(ErrorCode),
}

/// Width of the words written on the bus.
#[derive(Clone, Copy, Debug, PartialEq, Eq, Structural)]
pub enum BusWidth {
    Bits8,
    Bits16BE,
}

/// Something the caller must do on behalf of the driver.
pub enum Action {
    /// Drive the data/command pin low.
    ClearDc,
    /// Drive the data/command pin high.
    SetDc,
    /// Drive the reset pin low.
    ClearReset,
    /// Drive the reset pin high.
    SetReset,
    /// Fire the alarm after this many milliseconds.
    SetAlarm(u32),
    /// Send a command identifier on the bus.
    SetAddress(BusWidth, usize),
    /// Write this many words of the buffer on the bus, then hand the buffer back.
    BusWrite(BusWidth, Vec<u8>, usize),
    /// Tell the screen client that the screen is ready.
    ScreenIsReady,
    /// Tell the screen client that its command completed.
    CommandComplete(Result<(), ErrorCode>),
    /// Give the screen client its buffer back after a write.
    WriteComplete(Vec<u8>, Result<(), ErrorCode>),
    /// Tell the setup client that its command completed.
    SetupCommandComplete(Result<(), ErrorCode>),
}

/// An [`Action`] with its buffers seen as byte sequences.
#[verifier::ext_equal]
pub enum ActionView {
    ClearDc,
    SetDc,
    ClearReset,
    SetReset,
    SetAlarm(u32),
    SetAddress(BusWidth, usize),
    BusWrite(BusWidth, Seq<u8>, usize),
    ScreenIsReady,
    CommandComplete(Result<(), ErrorCode>),
    WriteComplete(Seq<u8>, Result<(), ErrorCode>),
    SetupCommandComplete(Result<(), ErrorCode>),
}

impl View for Action {
    type V = ActionView;

    open spec fn view(&self) -> ActionView {
        match self {
            Action::ClearDc => ActionView::ClearDc,
            Action::SetDc => ActionView::SetDc,
            Action::ClearReset => ActionView::ClearReset,
            Action::SetReset => ActionView::SetReset,
            Action::SetAlarm(ms) => ActionView::SetAlarm(*ms),
            Action::SetAddress(w, a) => ActionView::SetAddress(*w, *a),
            Action::BusWrite(w, b, n) => ActionView::BusWrite(*w, b@, *n),
            Action::ScreenIsReady => ActionView::ScreenIsReady,
            Action::CommandComplete(r) => ActionView::CommandComplete(*r),
            Action::WriteComplete(b, r) => ActionView::WriteComplete(b@, *r),
            Action::SetupCommandComplete(r) => ActionView::SetupCommandComplete(*r),
        }
    }
}

/// The views of a list of actions.
pub open spec fn views(actions: Seq<Action>) -> Seq<ActionView> {
    actions.map_values(|a: Action| a@)
}

/// The state of the driver, with its buffers seen as sequences.
#[verifier::ext_equal]
pub struct Ssd1306View {
    pub status: Status,
    pub width: usize,
    pub height: usize,
    pub has_dc: bool,
    pub has_reset: bool,
    pub has_client: bool,
    pub has_setup_client: bool,
    pub setup_command: bool,
    pub sequence: Seq<SendCommand>,
    pub position_in_sequence: usize,
    pub sequence_len: usize,
    pub command: PanelCommand,
    pub buffer: Option<Seq<u8>>,
    pub power_on: bool,
    pub write_buffer: Option<Seq<u8>>,
    pub current_rotation: ScreenRotation,
    pub screen: ST77XXScreen,
    pub enable_charge_pump: bool,
    pub frame: (usize, usize, usize, usize),
}

/// The SSD1306 driver.
pub struct Ssd1306 {
    status: Status,
    width: usize,
    height: usize,
    has_dc: bool,
    has_reset: bool,
    has_client: bool,
    has_setup_client: bool,
    setup_command: bool,
    sequence_buffer: Vec<SendCommand>,
    position_in_sequence: usize,
    sequence_len: usize,
    command: PanelCommand,
    buffer: Option<Vec<u8>>,
    power_on: bool,
    write_buffer: Option<Vec<u8>>,
    current_rotation: ScreenRotation,
    screen: ST77XXScreen,
    enable_charge_pump: bool,
    frame: (usize, usize, usize, usize),
}

/// The driver under its upper-case name.
pub type SSD1306 = Ssd1306;

/// The bytes of an optional buffer.
pub open spec fn opt_view(b: Option<Vec<u8>>) -> Option<Seq<u8>> {
    match b {
        Some(v) => Some(v@),
        None => None,
    }
}

impl View for Ssd1306 {
    type V = Ssd1306View;

    closed spec fn view(&self) -> Ssd1306View {
        Ssd1306View {
            status: self.status,
            width: self.width,
            height: self.height,
            has_dc: self.has_dc,
            has_reset: self.has_reset,
            has_client: self.has_client,
            has_setup_client: self.has_setup_client,
            setup_command: self.setup_command,
            sequence: self.sequence_buffer@,
            position_in_sequence: self.position_in_sequence,
            sequence_len: self.sequence_len,
            command: self.command,
            buffer: opt_view(self.buffer),
            power_on: self.power_on,
            write_buffer: opt_view(self.write_buffer),
            current_rotation: self.current_rotation,
            screen: self.screen,
            enable_charge_pump: self.enable_charge_pump,
            frame: self.frame,
        }
    }
}

/// The sequence buffer has its fixed size and the sequence fits in it.
pub open spec fn wf(s: Ssd1306View) -> bool {
    &&& s.sequence.len() == SEQUENCE_BUFFER_SIZE
    &&& s.sequence_len <= SEQUENCE_BUFFER_SIZE
}

// ---------------------------------------------------------------------
// I2C frames
// ---------------------------------------------------------------------

/// The buffer is handed out holding `contents`, with `len` as the length
/// to send, and the driver no longer holds it.
pub open spec fn handed_out(
    old: Ssd1306View,
    new: Ssd1306View,
    r: Result<(Vec<u8>, usize), ErrorCode>,
    contents: Seq<u8>,
    len: int,
) -> bool {
    &&& r matches Ok((b, n)) && b@ == contents && n == len
    &&& new == Ssd1306View { buffer: None, ..old }
}

/// How a command frame send ends: busy unless idle (when `check_busy`),
/// out of memory without a buffer, else the buffer is handed out holding
/// `frame` at its start; the length to send is what is left of the buffer
/// after the frame.
pub open spec fn frame_outcome(
    old: Ssd1306View,
    new: Ssd1306View,
    r: Result<(Vec<u8>, usize), ErrorCode>,
    frame: Seq<u8>,
    check_busy: bool,
) -> bool {
    if check_busy && old.status != Status::Idle {
        r == Err::<(Vec<u8>, usize), ErrorCode>(ErrorCode::BUSY) && new == old
    } else if old.buffer is None {
        r == Err::<(Vec<u8>, usize), ErrorCode>(ErrorCode::NOMEM) && new == old
    } else {
        let b = old.buffer.unwrap();
        handed_out(old, new, r, splice(b, 0, frame), b.len() - frame.len())
    }
}

/// The frame that carries a list of commands: a control byte of 0
/// (Co = 0, D/C = 0) followed by the commands' bytes.
pub open spec fn command_frame(cmds: Seq<Command>) -> Seq<u8> {
    seq![0u8] + commands_bytes(cmds)
}

/// How a data frame send ends: out of memory without a buffer, else the
/// buffer is handed out with a control byte of 0x40 (Co = 0, D/C = 1) at
/// its start and the data from its third byte on, the second byte left as
/// it was; the length to send is the buffer's length less one.
pub open spec fn data_frame_outcome(
    old: Ssd1306View,
    new: Ssd1306View,
    r: Result<(Vec<u8>, usize), ErrorCode>,
    data: Seq<u8>,
) -> bool {
    if old.buffer is None {
        r == Err::<(Vec<u8>, usize), ErrorCode>(ErrorCode::NOMEM) && new == old
    } else {
        let b = old.buffer.unwrap();
        let contents = if data.len() == 0 {
            b.update(0, 0x40)
        } else {
            splice(b.update(0, 0x40), 2, data)
        };
        handed_out(old, new, r, contents, b.len() - 1)
    }
}

/// A data frame of `n` bytes can be laid out in the buffer, if there is
/// one: the control byte fits, and data from the third byte on.
pub open spec fn data_frame_fits(s: Ssd1306View, n: int) -> bool {
    s.buffer matches Some(b) ==> b.len() >= 1 && (n > 0 ==> n + 2 <= b.len())
}

/// A send of `frame` would fit the buffer, if there is one.
pub open spec fn frame_fits(s: Ssd1306View, frame_len: int) -> bool {
    s.buffer matches Some(b) ==> frame_len <= b.len()
}

/// The commands that bring the screen up.
pub open spec fn init_commands(enable_charge_pump: bool) -> Seq<Command> {
    seq![
        Command::SetDisplayOnOff { on: false },
        Command::SetDisplayClockDivide { divide_ratio: 1, oscillator_frequency: 0x8 },
        Command::SetMultiplexRatio { ratio: 63 },
        Command::SetDisplayOffset { vertical_shift: 0 },
        Command::SetDisplayStartLine { line: 0 },
        Command::SetChargePump { enable: enable_charge_pump },
        Command::SetMemoryAddressingMode { mode: 0 },
        Command::SetSegmentRemap { reverse: true },
        Command::SetComScanDirection { decrement: true },
        Command::SetComPins { alternative: true, enable_com: false },
        Command::SetContrast { contrast: 0xcf },
        Command::SetPrechargePeriod { phase1: 0x1, phase2: 0xf },
        Command::SetVcomDeselect { level: 2 },
        Command::EntireDisplayOn { ignore_ram: false },
        Command::SetDisplayInvert { inverse: false },
        Command::DeactivateScroll,
        Command::SetDisplayOnOff { on: true },
    ]
}

proof fn lemma_commands_bytes_step(cmds: Seq<Command>, i: int)
    requires
        0 <= i < cmds.len(),
    ensures
        commands_bytes(cmds.take(i + 1)) == commands_bytes(cmds.take(i)) + command_bytes(cmds[i]),
{
    assert(cmds.take(i + 1).drop_last() =~= cmds.take(i));
}

proof fn lemma_commands_bytes_len_mono(cmds: Seq<Command>, i: int)
    requires
        0 <= i <= cmds.len(),
    ensures
        commands_bytes(cmds.take(i)).len() <= commands_bytes(cmds).len(),
    decreases cmds.len() - i,
{
    if i < cmds.len() {
        lemma_commands_bytes_step(cmds, i);
        lemma_commands_bytes_len_mono(cmds, i + 1);
    } else {
        assert(cmds.take(i) =~= cmds);
    }
}

proof fn lemma_splice_extend(d: Seq<u8>, a: Seq<u8>, b: Seq<u8>)
    requires
        a.len() + b.len() <= d.len(),
    ensures
        splice(splice(d, 0, a), a.len() as int, b) == splice(d, 0, a + b),
{
    assert(splice(splice(d, 0, a), a.len() as int, b) =~= splice(d, 0, a + b));
}

impl Ssd1306 {
    /// A driver for a screen model, with the parameter buffer it may use
    /// and whether the board wired a data/command pin and a reset pin.
    pub fn new(
        buffer: Vec<u8>,
        screen: ST77XXScreen,
        has_dc: bool,
        has_reset: bool,
        enable_charge_pump: bool,
    ) -> (d: Ssd1306)
        ensures
            wf(d@),
            d@.status == Status::Idle,
            d@.width == screen.default_width,
            d@.height == screen.default_height,
            d@.has_dc == has_dc,
            d@.has_reset == has_reset,
            !d@.has_client,
            !d@.has_setup_client,
            !d@.setup_command,
            d@.sequence_len == 0,
            d@.position_in_sequence == 0,
            d@.command == nop(),
            d@.buffer == Some(buffer@),
            !d@.power_on,
            d@.write_buffer is None,
            d@.current_rotation == ScreenRotation::Normal,
            d@.screen == screen,
            d@.enable_charge_pump == enable_charge_pump,
            d@.frame == (0usize, 0usize, 0usize, 0usize),
    {
        let mut sequence_buffer: Vec<SendCommand> = Vec::new();
        let mut i: usize = 0;
        while i < SEQUENCE_BUFFER_SIZE
            invariant
                i <= SEQUENCE_BUFFER_SIZE,
                sequence_buffer@.len() == i,
            decreases SEQUENCE_BUFFER_SIZE - i,
        {
            sequence_buffer.push(SendCommand::Nop);
            i = i + 1;
        }
        Ssd1306 {
            status: Status::Idle,
            width: screen.default_width,
            height: screen.default_height,
            has_dc,
            has_reset,
            has_client: false,
            has_setup_client: false,
            setup_command: false,
            sequence_buffer,
            position_in_sequence: 0,
            sequence_len: 0,
            command: nop(),
            buffer: Some(buffer),
            power_on: false,
            write_buffer: None,
            current_rotation: ScreenRotation::Normal,
            screen,
            enable_charge_pump,
            frame: (0, 0, 0, 0),
        }
    }

    /// Sends a list of commands in one I2C frame: when idle and holding the
    /// buffer, the buffer comes out holding the frame, with its length.
    pub fn send_sequence(&mut self, sequence: &[Command]) -> (r: Result<(Vec<u8>, usize), ErrorCode>)
        requires
            wf(old(self)@),
            old(self)@.status == Status::Idle ==> frame_fits(old(self)@, command_frame(sequence@).len() as int),
        ensures
            wf(final(self)@),
            frame_outcome(old(self)@, final(self)@, r, command_frame(sequence@), true),
    {
        if self.status != Status::Idle {
            return Err(ErrorCode::BUSY);
        }
        match self.buffer.take() {
            None => Err(ErrorCode::NOMEM),
            Some(buffer) => {
                let ghost d0 = buffer@;
                let mut buf_slice = SubSliceMut::new(buffer);
                // Co = 0, D/C = 0: a series of command bytes follows.
                buf_slice.set(0, 0);
                buf_slice.slice_from(1);
                let mut i: usize = 0;
                proof {
                    assert(sequence@.take(0) =~= Seq::<Command>::empty());
                    assert(buf_slice.data() =~= splice(d0, 0, seq![0u8] + commands_bytes(sequence@.take(0))));
                }
                while i < sequence.len()
                    invariant
                        i <= sequence@.len(),
                        buf_slice.wf(),
                        1 + commands_bytes(sequence@).len() <= d0.len(),
                        buf_slice.end() == d0.len(),
                        buf_slice.start() == 1 + commands_bytes(sequence@.take(i as int)).len(),
                        buf_slice.data() == splice(d0, 0, seq![0u8] + commands_bytes(sequence@.take(i as int))),
                    decreases sequence@.len() - i,
                {
                    proof {
                        lemma_commands_bytes_step(sequence@, i as int);
                        lemma_commands_bytes_len_mono(sequence@, i + 1);
                        lemma_splice_extend(
                            d0,
                            seq![0u8] + commands_bytes(sequence@.take(i as int)),
                            command_bytes(sequence@[i as int]),
                        );
                        assert(seq![0u8] + commands_bytes(sequence@.take(i as int)) + command_bytes(sequence@[i as int])
                            =~= seq![0u8] + commands_bytes(sequence@.take(i + 1)));
                    }
                    sequence[i].encode(&mut buf_slice);
                    i = i + 1;
                }
                proof {
                    assert(sequence@.take(sequence@.len() as int) =~= sequence@);
                }
                // The length sent is what is left of the window after the frame.
                let tx_len = buf_slice.len();
                let data = buf_slice.take();
                Ok((data, tx_len))
            },
        }
    }

    /// Sends the commands that bring the screen up.
    pub fn init_screen(&mut self) -> (r: Result<(Vec<u8>, usize), ErrorCode>)
        requires
            wf(old(self)@),
            old(self)@.status == Status::Idle ==> frame_fits(old(self)@, INIT_FRAME_LEN as int),
        ensures
            wf(final(self)@),
            frame_outcome(old(self)@, final(self)@, r,
                command_frame(init_commands(old(self)@.enable_charge_pump)), true),
    {
        let commands = [
            Command::SetDisplayOnOff { on: false },
            Command::SetDisplayClockDivide { divide_ratio: 1, oscillator_frequency: 0x8 },
            Command::SetMultiplexRatio { ratio: 63 },
            Command::SetDisplayOffset { vertical_shift: 0 },
            Command::SetDisplayStartLine { line: 0 },
            Command::SetChargePump { enable: self.enable_charge_pump },
            Command::SetMemoryAddressingMode { mode: 0 },
            Command::SetSegmentRemap { reverse: true },
            Command::SetComScanDirection { decrement: true },
            Command::SetComPins { alternative: true, enable_com: false },
            Command::SetContrast { contrast: 0xcf },
            Command::SetPrechargePeriod { phase1: 0x1, phase2: 0xf },
            Command::SetVcomDeselect { level: 2 },
            Command::EntireDisplayOn { ignore_ram: false },
            Command::SetDisplayInvert { inverse: false },
            Command::DeactivateScroll,
            Command::SetDisplayOnOff { on: true },
        ];
        assert(commands@ =~= init_commands(self.enable_charge_pump));
        assert(command_frame(commands@).len() == INIT_FRAME_LEN) by {
            reveal_with_fuel(commands_bytes, 18);
        }
        self.send_sequence(&commands)
    }
}

impl Ssd1306 {
    /// Turns the display on or off.
    pub fn on_off(&mut self, on: bool) -> (r: Result<(Vec<u8>, usize), ErrorCode>)
        requires
            wf(old(self)@),
            old(self)@.status == Status::Idle ==> frame_fits(old(self)@, 2),
        ensures
            wf(final(self)@),
            frame_outcome(old(self)@, final(self)@, r,
                command_frame(seq![Command::SetDisplayOnOff { on }]), true),
    {
        let commands = [Command::SetDisplayOnOff { on: on }];
        assert(command_frame(commands@).len() == 2) by {
            reveal_with_fuel(commands_bytes, 2);
        }
        assert(commands@ =~= seq![Command::SetDisplayOnOff { on }]);
        self.send_sequence(&commands)
    }

    /// Sets the contrast from the high byte of a 16-bit brightness.
    pub fn brightness(&mut self, brightness: u16) -> (r: Result<(Vec<u8>, usize), ErrorCode>)
        requires
            wf(old(self)@),
            old(self)@.status == Status::Idle ==> frame_fits(old(self)@, 3),
        ensures
            wf(final(self)@),
            frame_outcome(old(self)@, final(self)@, r,
                command_frame(seq![Command::SetContrast { contrast: (brightness / 256) as u8 }]), true),
    {
        assert(brightness >> 8u16 == brightness / 256) by (bit_vector);
        let commands = [Command::SetContrast { contrast: (brightness >> 8) as u8 }];
        assert(command_frame(commands@).len() == 3) by {
            reveal_with_fuel(commands_bytes, 2);
        }
        assert(commands@ =~= seq![Command::SetContrast { contrast: (brightness / 256) as u8 }]);
        self.send_sequence(&commands)
    }

    /// Switches between normal and inverse display.
    pub fn invert(&mut self, invert: bool) -> (r: Result<(Vec<u8>, usize), ErrorCode>)
        requires
            wf(old(self)@),
            old(self)@.status == Status::Idle ==> frame_fits(old(self)@, 2),
        ensures
            wf(final(self)@),
            frame_outcome(old(self)@, final(self)@, r,
                command_frame(seq![Command::SetDisplayInvert { inverse: invert }]), true),
    {
        let commands = [Command::SetDisplayInvert { inverse: invert }];
        assert(command_frame(commands@).len() == 2) by {
            reveal_with_fuel(commands_bytes, 2);
        }
        assert(commands@ =~= seq![Command::SetDisplayInvert { inverse: invert }]);
        self.send_sequence(&commands)
    }

    /// Sets the pages and columns that pixel data goes to: pages `y` to
    /// `y + height`, columns `x` to `x + width`.
    pub fn set_window(&mut self, x: u8, y: u8, width: u8, height: u8) -> (r: Result<
        (Vec<u8>, usize),
        ErrorCode,
    >)
        requires
            wf(old(self)@),
            x + width <= u8::MAX,
            y + height <= u8::MAX,
            old(self)@.status == Status::Idle ==> frame_fits(old(self)@, 7),
        ensures
            wf(final(self)@),
            frame_outcome(old(self)@, final(self)@, r,
                command_frame(seq![
                    Command::SetPageAddress { page_start: y, page_end: (y + height) as u8 },
                    Command::SetColumnAddress { column_start: x, column_end: (x + width) as u8 },
                ]), true),
    {
        let commands = [
            Command::SetPageAddress { page_start: y, page_end: y + height },
            Command::SetColumnAddress { column_start: x, column_end: x + width },
        ];
        assert(command_frame(commands@).len() == 7) by {
            reveal_with_fuel(commands_bytes, 3);
        }
        assert(commands@ =~= seq![
            Command::SetPageAddress { page_start: y, page_end: (y + height) as u8 },
            Command::SetColumnAddress { column_start: x, column_end: (x + width) as u8 },
        ]);
        self.send_sequence(&commands)
    }

    /// Sends pixel data in one I2C frame. Unlike command frames this does
    /// not wait for the driver to be idle. The data is written from the
    /// third byte of the buffer on, and the length to send is the buffer's
    /// length less one.
    pub fn write(&mut self, data: &[u8]) -> (r: Result<(Vec<u8>, usize), ErrorCode>)
        requires
            wf(old(self)@),
            data_frame_fits(old(self)@, data@.len() as int),
        ensures
            wf(final(self)@),
            data_frame_outcome(old(self)@, final(self)@, r, data@),
    {
        match self.buffer.take() {
            None => Err(ErrorCode::NOMEM),
            Some(buffer) => {
                let ghost d0 = buffer@;
                let mut buf_slice = SubSliceMut::new(buffer);
                // Co = 0, D/C = 1: data bytes follow.
                buf_slice.set(0, 0x40);
                buf_slice.slice_from(1);
                let ghost d1 = d0.update(0, 0x40);
                let mut i: usize = 0;
                while i < data.len()
                    invariant
                        i <= data@.len(),
                        buf_slice.wf(),
                        buf_slice.start() == 1,
                        buf_slice.end() == d0.len(),
                        d0.len() >= 1,
                        data@.len() > 0 ==> data@.len() + 2 <= d0.len(),
                        d1 == d0.update(0, 0x40),
                        buf_slice.data().len() == d0.len(),
                        forall|k: int| 0 <= k < d0.len() ==> #[trigger] buf_slice.data()[k] == (
                            if 2 <= k < i + 2 { data@[k - 2] } else { d1[k] }),
                    decreases data@.len() - i,
                {
                    buf_slice.set(i + 1, data[i]);
                    i = i + 1;
                }
                if data.len() == 0 {
                    assert(buf_slice.data() =~= d1);
                } else {
                    assert(buf_slice.data() =~= splice(d1, 2, data@));
                }
                let tx_len = buf_slice.len();
                let out = buf_slice.take();
                Ok((out, tx_len))
            },
        }
    }
}

// ---------------------------------------------------------------------
// Bus command sequences
// ---------------------------------------------------------------------

/// Drive the data/command pin low, if the board has one.
pub open spec fn dc_clear(s: Ssd1306View) -> Seq<ActionView> {
    if s.has_dc { seq![ActionView::ClearDc] } else { Seq::empty() }
}

/// Drive the data/command pin high, if the board has one.
pub open spec fn dc_set(s: Ssd1306View) -> Seq<ActionView> {
    if s.has_dc { seq![ActionView::SetDc] } else { Seq::empty() }
}

/// Drive the reset pin low, if the board has one.
pub open spec fn reset_clear(s: Ssd1306View) -> Seq<ActionView> {
    if s.has_reset { seq![ActionView::ClearReset] } else { Seq::empty() }
}

/// Drive the reset pin high, if the board has one.
pub open spec fn reset_set(s: Ssd1306View) -> Seq<ActionView> {
    if s.has_reset { seq![ActionView::SetReset] } else { Seq::empty() }
}

/// Milliseconds to wait for a command delay; 255 stands for 500.
pub open spec fn alarm_ms(delay: u8) -> u32 {
    if delay == 255 { 500 } else { delay as u32 }
}

/// Once the current command is out: wait for its delay if it has one,
/// else go straight on to the next entry.
pub open spec fn after_command(s: Ssd1306View) -> (Ssd1306View, Seq<ActionView>, bool) {
    let s1 = Ssd1306View { status: Status::Delay, ..s };
    if s.command.delay > 0 {
        (s1, dc_clear(s) + seq![ActionView::SetAlarm(alarm_ms(s.command.delay))], false)
    } else {
        (s1, dc_clear(s), true)
    }
}

/// Send a command identifier; its parameters follow once the bus is done.
pub open spec fn send_command_spec(
    s: Ssd1306View,
    cmd: PanelCommand,
    position: usize,
    len: usize,
    repeat: usize,
) -> (Ssd1306View, Seq<ActionView>, bool) {
    (
        Ssd1306View { command: cmd, status: Status::SendCommand(position, len, repeat), ..s },
        dc_clear(s) + seq![ActionView::SetAddress(BusWidth::Bits8, cmd.id as usize)],
        false,
    )
}

/// Send a command identifier; a slice of the write buffer follows.
pub open spec fn send_command_slice_spec(s: Ssd1306View, cmd: PanelCommand, len: usize) -> (
    Ssd1306View,
    Seq<ActionView>,
    bool,
) {
    (
        Ssd1306View { command: cmd, status: Status::SendCommandSlice(len), ..s },
        dc_clear(s) + seq![ActionView::SetAddress(BusWidth::Bits8, cmd.id as usize)],
        false,
    )
}

/// Copy a command's default parameters to the start of the parameter
/// buffer and send the command once with them.
pub open spec fn send_default_spec(s: Ssd1306View, cmd: PanelCommand) -> (
    Ssd1306View,
    Seq<ActionView>,
    bool,
) {
    send_command_spec(
        Ssd1306View { buffer: Some(splice(s.buffer.unwrap(), 0, parameter_bytes(cmd))), ..s },
        cmd,
        0,
        parameter_len(cmd) as usize,
        1,
    )
}

/// The parameter buffer with `len` bytes from `position` moved to its start.
pub open spec fn shifted(b: Seq<u8>, position: int, len: int) -> Seq<u8> {
    if position > 0 {
        splice(b, 0, b.subrange(position, position + len))
    } else {
        b
    }
}

/// Write `len` parameter bytes found at `position`; one repeat fewer remains.
pub open spec fn send_parameters_spec(s: Ssd1306View, position: usize, len: usize, repeat: usize) -> (
    Ssd1306View,
    Seq<ActionView>,
    bool,
) {
    let s1 = Ssd1306View { status: Status::SendCommand(0, len, (repeat - 1) as usize), ..s };
    if len > 0 {
        (
            Ssd1306View { buffer: None, ..s1 },
            dc_set(s) + seq![
                ActionView::BusWrite(
                    BusWidth::Bits8,
                    shifted(s.buffer.unwrap(), position as int, len as int),
                    len,
                ),
            ],
            false,
        )
    } else {
        (s1, Seq::empty(), true)
    }
}

/// Write the write buffer as `len / 2` 16-bit words.
pub open spec fn send_parameters_slice_spec(s: Ssd1306View, len: usize) -> (
    Ssd1306View,
    Seq<ActionView>,
    bool,
) {
    (
        Ssd1306View { status: Status::SendParametersSlice, write_buffer: None, ..s },
        dc_set(s) + seq![ActionView::BusWrite(BusWidth::Bits16BE, s.write_buffer.unwrap(), len / 2)],
        false,
    )
}

/// Tell whoever asked how the operation ended: the setup client for a setup
/// command, else the screen client, with its write buffer if it wrote.
pub open spec fn report(s: Ssd1306View, result: Result<(), ErrorCode>) -> (Ssd1306View, Seq<ActionView>) {
    if s.setup_command {
        (
            Ssd1306View { setup_command: false, ..s },
            if s.has_setup_client {
                seq![ActionView::SetupCommandComplete(result)]
            } else {
                Seq::empty()
            },
        )
    } else if s.has_client {
        match s.write_buffer {
            Some(b) => (Ssd1306View { write_buffer: None, ..s }, seq![ActionView::WriteComplete(b, result)]),
            None => (s, seq![ActionView::CommandComplete(result)]),
        }
    } else {
        (s, Seq::empty())
    }
}

/// The sequence is done: the first time, the screen is ready (and powered
/// on, once a client hears of it); afterwards the requester is told.
pub open spec fn sequence_done(s: Ssd1306View) -> (Ssd1306View, Seq<ActionView>) {
    if !s.power_on {
        if s.has_client {
            (Ssd1306View { power_on: true, ..s }, seq![ActionView::ScreenIsReady])
        } else {
            (s, Seq::empty())
        }
    } else {
        report(s, Ok(()))
    }
}

/// The sequence buffer with `sequence` copied to its start.
pub open spec fn load_sequence(s: Ssd1306View, sequence: Seq<SendCommand>) -> Ssd1306View {
    Ssd1306View {
        sequence: sequence + s.sequence.subrange(sequence.len() as int, s.sequence.len() as int),
        sequence_len: sequence.len() as usize,
        ..s
    }
}

/// Wait `ms` milliseconds, then continue in `next`.
pub open spec fn delay_spec(s: Ssd1306View, ms: u32, next: Status) -> (Ssd1306View, Seq<ActionView>, bool) {
    (Ssd1306View { status: next, ..s }, seq![ActionView::SetAlarm(ms)], false)
}

/// One transition of the driver: the next state, what the caller must do,
/// and whether the driver goes on at once.
pub open spec fn step(s: Ssd1306View) -> (Ssd1306View, Seq<ActionView>, bool) {
    match s.status {
        Status::Delay => {
            let pos = s.position_in_sequence;
            let s1 = Ssd1306View { position_in_sequence: (pos + 1) as usize, ..s };
            if pos < s.sequence_len {
                match s.sequence[pos as int] {
                    SendCommand::Nop => (s1, Seq::empty(), true),
                    SendCommand::Default(cmd) => send_default_spec(s1, cmd),
                    SendCommand::Position(cmd, p, l) => send_command_spec(s1, cmd, p, l, 1),
                    SendCommand::Repeat(cmd, p, l, r) => send_command_spec(s1, cmd, p, l, r),
                    SendCommand::Slice(cmd, l) => send_command_slice_spec(s1, cmd, l),
                }
            } else {
                let done = sequence_done(Ssd1306View { status: Status::Idle, ..s1 });
                (done.0, done.1, false)
            }
        },
        Status::SendCommand(p, l, r) => {
            if r == 0 {
                after_command(s)
            } else {
                send_parameters_spec(s, p, l, r)
            }
        },
        Status::SendCommandSlice(l) => send_parameters_slice_spec(s, l),
        Status::SendParametersSlice => after_command(s),
        Status::Reset1 => {
            let d = delay_spec(s, 10, Status::Reset2);
            (d.0, reset_clear(s) + d.1, d.2)
        },
        Status::Reset2 => {
            let d = delay_spec(s, 120, Status::Reset3);
            (d.0, reset_set(s) + d.1, d.2)
        },
        Status::Reset3 => {
            let d = delay_spec(s, 120, Status::Reset4);
            (d.0, reset_clear(s) + d.1, d.2)
        },
        Status::Reset4 => {
            let d = delay_spec(s, 120, Status::Init);
            (d.0, reset_set(s) + d.1, d.2)
        },
        Status::Init => (
            Ssd1306View {
                status: Status::Delay,
                position_in_sequence: 0,
                ..load_sequence(s, s.screen.init_sequence@)
            },
            Seq::empty(),
            true,
        ),
        Status::Error(e) => {
            let r = report(s, Err(e));
            (Ssd1306View { status: Status::Idle, ..r.0 }, r.1, false)
        },
        Status::Idle => (s, Seq::empty(), false),
    }
}

/// The transition from `s` is defined: the driver is not idle, and every
/// buffer it reads is there and large enough.
pub open spec fn step_safe(s: Ssd1306View) -> bool {
    match s.status {
        Status::Idle => false,
        Status::Delay => {
            &&& s.position_in_sequence < usize::MAX
            &&& s.position_in_sequence < s.sequence_len ==> match s.sequence[s.position_in_sequence as int] {
                SendCommand::Default(cmd) => s.buffer matches Some(b) && parameter_len(cmd) <= b.len(),
                _ => true,
            }
        },
        Status::SendCommand(p, l, r) => (r > 0 && l > 0) ==> (s.buffer matches Some(b) && (p > 0 ==> p + l
            <= b.len())),
        Status::SendCommandSlice(_) => s.write_buffer is Some,
        Status::Init => s.screen.init_sequence@.len() <= SEQUENCE_BUFFER_SIZE,
        _ => true,
    }
}

/// 1 while the driver is about to load the screen's init sequence.
pub open spec fn init_rank(s: Ssd1306View) -> int {
    if s.status is Init { 1 } else { 0 }
}

/// Entries of the sequence not yet started.
pub open spec fn remaining(s: Ssd1306View) -> int {
    if s.position_in_sequence < s.sequence_len {
        s.sequence_len - s.position_in_sequence
    } else {
        0
    }
}

/// 0 between entries, 1 within one.
pub open spec fn rank(s: Ssd1306View) -> int {
    if s.status is Delay { 0 } else { 1 }
}

/// Repeats left of the current command.
pub open spec fn repeats(s: Ssd1306View) -> int {
    match s.status {
        Status::SendCommand(_, _, r) => r as int,
        _ => 0,
    }
}

/// All transitions the driver makes at once from `s`, and what it asks of
/// the caller on the way.
pub open spec fn run(s: Ssd1306View) -> (Ssd1306View, Seq<ActionView>)
    decreases init_rank(s), remaining(s), rank(s), repeats(s),
{
    let t = step(s);
    if t.2 && step_safe(s) && wf(s) {
        let rest = run(t.0);
        (rest.0, t.1 + rest.1)
    } else {
        (t.0, t.1)
    }
}

/// Every transition of the run from `s` is defined.
pub open spec fn runs_safely(s: Ssd1306View) -> bool
    decreases init_rank(s), remaining(s), rank(s), repeats(s),
{
    &&& wf(s)
    &&& step_safe(s)
    &&& step(s).2 ==> runs_safely(step(s).0)
}

fn push_action(actions: &mut Vec<Action>, a: Action)
    ensures
        views(final(actions)@) == views(old(actions)@).push(a@),
{
    let ghost v = a@;
    actions.push(a);
    assert(views(actions@) =~= views(old(actions)@).push(v));
}

impl Ssd1306 {
    fn push_dc_clear(&self, actions: &mut Vec<Action>)
        ensures
            views(final(actions)@) == views(old(actions)@) + dc_clear(self@),
    {
        if self.has_dc {
            push_action(actions, Action::ClearDc);
        }
        assert(views(actions@) =~= views(old(actions)@) + dc_clear(self@));
    }

    fn push_dc_set(&self, actions: &mut Vec<Action>)
        ensures
            views(final(actions)@) == views(old(actions)@) + dc_set(self@),
    {
        if self.has_dc {
            push_action(actions, Action::SetDc);
        }
        assert(views(actions@) =~= views(old(actions)@) + dc_set(self@));
    }

    fn push_reset(&self, high: bool, actions: &mut Vec<Action>)
        ensures
            views(final(actions)@) == views(old(actions)@) + if high {
                reset_set(self@)
            } else {
                reset_clear(self@)
            },
    {
        if self.has_reset {
            if high {
                push_action(actions, Action::SetReset);
            } else {
                push_action(actions, Action::ClearReset);
            }
        }
        assert(views(actions@) =~= views(old(actions)@) + if high {
            reset_set(self@)
        } else {
            reset_clear(self@)
        });
    }

    /// Sets an alarm of `timer` milliseconds and the status to continue in
    /// when it fires.
    fn set_delay(&mut self, timer: u32, next_status: Status, actions: &mut Vec<Action>)
        ensures
            final(self)@ == delay_spec(old(self)@, timer, next_status).0,
            views(final(actions)@) == views(old(actions)@) + delay_spec(old(self)@, timer, next_status).1,
    {
        self.status = next_status;
        push_action(actions, Action::SetAlarm(timer));
        assert(views(actions@) =~= views(old(actions)@) + seq![ActionView::SetAlarm(timer)]);
    }

    fn after_command(&mut self, actions: &mut Vec<Action>) -> (cont: bool)
        ensures
            final(self)@ == after_command(old(self)@).0,
            views(final(actions)@) == views(old(actions)@) + after_command(old(self)@).1,
            cont == after_command(old(self)@).2,
    {
        self.push_dc_clear(actions);
        let delay = self.command.delay;
        if delay > 0 {
            let ms: u32 = if delay == 255 { 500 } else { delay as u32 };
            self.set_delay(ms, Status::Delay, actions);
            assert(views(actions@) =~= views(old(actions)@) + after_command(old(self)@).1);
            false
        } else {
            self.status = Status::Delay;
            true
        }
    }

    fn send_command(
        &mut self,
        cmd: PanelCommand,
        position: usize,
        len: usize,
        repeat: usize,
        actions: &mut Vec<Action>,
    )
        ensures
            final(self)@ == send_command_spec(old(self)@, cmd, position, len, repeat).0,
            views(final(actions)@) == views(old(actions)@) + send_command_spec(
                old(self)@,
                cmd,
                position,
                len,
                repeat,
            ).1,
    {
        self.command = cmd;
        self.status = Status::SendCommand(position, len, repeat);
        self.push_dc_clear(actions);
        push_action(actions, Action::SetAddress(BusWidth::Bits8, cmd.id as usize));
        assert(views(actions@) =~= views(old(actions)@) + send_command_spec(
            old(self)@,
            cmd,
            position,
            len,
            repeat,
        ).1);
    }

    fn send_command_slice(&mut self, cmd: PanelCommand, len: usize, actions: &mut Vec<Action>)
        ensures
            final(self)@ == send_command_slice_spec(old(self)@, cmd, len).0,
            views(final(actions)@) == views(old(actions)@) + send_command_slice_spec(old(self)@, cmd, len).1,
    {
        self.command = cmd;
        self.push_dc_clear(actions);
        self.status = Status::SendCommandSlice(len);
        push_action(actions, Action::SetAddress(BusWidth::Bits8, cmd.id as usize));
        assert(views(actions@) =~= views(old(actions)@) + send_command_slice_spec(old(self)@, cmd, len).1);
    }

    fn send_command_with_default_parameters(&mut self, cmd: PanelCommand, actions: &mut Vec<Action>)
        requires
            old(self)@.buffer matches Some(b) && parameter_len(cmd) <= b.len(),
        ensures
            final(self)@ == send_default_spec(old(self)@, cmd).0,
            views(final(actions)@) == views(old(actions)@) + send_default_spec(old(self)@, cmd).1,
    {
        let mut buffer = self.buffer.take().unwrap();
        let ghost b0 = buffer@;
        let mut len: usize = 0;
        if let Some(parameters) = cmd.parameters {
            while len < parameters.len()
                invariant
                    len <= parameters@.len(),
                    parameters@.len() <= b0.len(),
                    buffer@.len() == b0.len(),
                    forall|k: int| 0 <= k < b0.len() ==> #[trigger] buffer@[k] == (if k < len {
                        parameters@[k]
                    } else {
                        b0[k]
                    }),
                decreases parameters@.len() - len,
            {
                buffer.set(len, parameters[len]);
                len = len + 1;
            }
        }
        assert(buffer@ =~= splice(b0, 0, parameter_bytes(cmd)));
        self.buffer = Some(buffer);
        self.send_command(cmd, 0, len, 1, actions);
    }

    fn send_parameters(&mut self, position: usize, len: usize, repeat: usize, actions: &mut Vec<Action>) -> (cont: bool)
        requires
            repeat > 0,
            len > 0 ==> (old(self)@.buffer matches Some(b) && (position > 0 ==> position + len <= b.len())),
        ensures
            final(self)@ == send_parameters_spec(old(self)@, position, len, repeat).0,
            views(final(actions)@) == views(old(actions)@) + send_parameters_spec(old(self)@, position, len, repeat).1,
            cont == send_parameters_spec(old(self)@, position, len, repeat).2,
    {
        self.status = Status::SendCommand(0, len, repeat - 1);
        if len > 0 {
            let mut buffer = self.buffer.take().unwrap();
            let ghost b0 = buffer@;
            if position > 0 {
                let blen = buffer.len();
                assert(position + len <= blen);
                let end = len + position;
                let mut i: usize = position;
                while i < end
                    invariant
                        end == len + position,
                        position <= i <= len + position,
                        position > 0,
                        len + position <= b0.len(),
                        buffer@.len() == b0.len(),
                        forall|k: int| 0 <= k < b0.len() ==> #[trigger] buffer@[k] == (if k < i - position {
                            b0[k + position]
                        } else {
                            b0[k]
                        }),
                    decreases len + position - i,
                {
                    let v = buffer[i];
                    buffer.set(i - position, v);
                    i = i + 1;
                }
                assert(buffer@ =~= shifted(b0, position as int, len as int));
            }
            self.push_dc_set(actions);
            push_action(actions, Action::BusWrite(BusWidth::Bits8, buffer, len));
            assert(views(actions@) =~= views(old(actions)@) + send_parameters_spec(old(self)@, position, len, repeat).1);
            false
        } else {
            assert(views(actions@) =~= views(old(actions)@) + Seq::<ActionView>::empty());
            true
        }
    }

    fn send_parameters_slice(&mut self, len: usize, actions: &mut Vec<Action>)
        requires
            old(self)@.write_buffer is Some,
        ensures
            final(self)@ == send_parameters_slice_spec(old(self)@, len).0,
            views(final(actions)@) == views(old(actions)@) + send_parameters_slice_spec(old(self)@, len).1,
    {
        let buffer = self.write_buffer.take().unwrap();
        self.status = Status::SendParametersSlice;
        self.push_dc_set(actions);
        push_action(actions, Action::BusWrite(BusWidth::Bits16BE, buffer, len / 2));
        assert(views(actions@) =~= views(old(actions)@) + send_parameters_slice_spec(old(self)@, len).1);
    }

    fn report(&mut self, result: Result<(), ErrorCode>, actions: &mut Vec<Action>)
        ensures
            final(self)@ == report(old(self)@, result).0,
            views(final(actions)@) == views(old(actions)@) + report(old(self)@, result).1,
    {
        if self.setup_command {
            self.setup_command = false;
            if self.has_setup_client {
                push_action(actions, Action::SetupCommandComplete(result));
            }
        } else if self.has_client {
            match self.write_buffer.take() {
                Some(buffer) => {
                    push_action(actions, Action::WriteComplete(buffer, result));
                },
                None => {
                    push_action(actions, Action::CommandComplete(result));
                },
            }
        }
        assert(views(actions@) =~= views(old(actions)@) + report(old(self)@, result).1);
    }

    fn step_delay(&mut self, actions: &mut Vec<Action>) -> (cont: bool)
        requires
            wf(old(self)@),
            step_safe(old(self)@),
            old(self)@.status == Status::Delay,
        ensures
            wf(final(self)@),
            final(self)@ == step(old(self)@).0,
            views(final(actions)@) == views(old(actions)@) + step(old(self)@).1,
            cont == step(old(self)@).2,
    {
        let position = self.position_in_sequence;
        self.position_in_sequence = position + 1;
        if position < self.sequence_len {
            match self.sequence_buffer[position] {
                SendCommand::Nop => {
                    assert(views(actions@) =~= views(old(actions)@) + Seq::<ActionView>::empty());
                    true
                },
                SendCommand::Default(cmd) => {
                    self.send_command_with_default_parameters(cmd, actions);
                    false
                },
                SendCommand::Position(cmd, p, l) => {
                    self.send_command(cmd, p, l, 1, actions);
                    false
                },
                SendCommand::Repeat(cmd, p, l, r) => {
                    self.send_command(cmd, p, l, r, actions);
                    false
                },
                SendCommand::Slice(cmd, l) => {
                    self.send_command_slice(cmd, l, actions);
                    false
                },
            }
        } else {
            self.status = Status::Idle;
            if !self.power_on {
                if self.has_client {
                    self.power_on = true;
                    push_action(actions, Action::ScreenIsReady);
                }
            } else {
                self.report(Ok(()), actions);
            }
            assert(views(actions@) =~= views(old(actions)@) + step(old(self)@).1);
            false
        }
    }

    fn step_reset(&mut self, actions: &mut Vec<Action>)
        requires
            old(self)@.status is Reset1 || old(self)@.status is Reset2 || old(self)@.status is Reset3
                || old(self)@.status is Reset4,
        ensures
            final(self)@ == step(old(self)@).0,
            views(final(actions)@) == views(old(actions)@) + step(old(self)@).1,
            !step(old(self)@).2,
    {
        match self.status {
            Status::Reset1 => {
                self.push_reset(false, actions);
                self.set_delay(10, Status::Reset2, actions);
            },
            Status::Reset2 => {
                self.push_reset(true, actions);
                self.set_delay(120, Status::Reset3, actions);
            },
            Status::Reset3 => {
                self.push_reset(false, actions);
                self.set_delay(120, Status::Reset4, actions);
            },
            _ => {
                self.push_reset(true, actions);
                self.set_delay(120, Status::Init, actions);
            },
        }
        assert(views(actions@) =~= views(old(actions)@) + step(old(self)@).1);
    }

    fn step_init(&mut self)
        requires
            wf(old(self)@),
            step_safe(old(self)@),
            old(self)@.status == Status::Init,
        ensures
            wf(final(self)@),
            final(self)@ == step(old(self)@).0,
    {
        self.status = Status::Idle;
        let init_sequence = self.screen.init_sequence;
        let n = init_sequence.len();
        let mut i: usize = 0;
        while i < n
            invariant
                i <= n,
                n == init_sequence@.len(),
                n <= SEQUENCE_BUFFER_SIZE,
                self.sequence_buffer@.len() == SEQUENCE_BUFFER_SIZE,
                init_sequence == old(self).screen.init_sequence,
                forall|k: int| 0 <= k < SEQUENCE_BUFFER_SIZE ==> #[trigger] self.sequence_buffer@[k] == (
                    if k < i { init_sequence@[k] } else { old(self).sequence_buffer@[k] }),
                self.status == Status::Idle,
                self.position_in_sequence == old(self).position_in_sequence,
                self.sequence_len == old(self).sequence_len,
                self.command == old(self).command,
                self.buffer == old(self).buffer,
                self.write_buffer == old(self).write_buffer,
                self.width == old(self).width,
                self.height == old(self).height,
                self.has_dc == old(self).has_dc,
                self.has_reset == old(self).has_reset,
                self.has_client == old(self).has_client,
                self.has_setup_client == old(self).has_setup_client,
                self.setup_command == old(self).setup_command,
                self.power_on == old(self).power_on,
                self.current_rotation == old(self).current_rotation,
                self.screen == old(self).screen,
                self.enable_charge_pump == old(self).enable_charge_pump,
                self.frame == old(self).frame,
            decreases n - i,
        {
            self.sequence_buffer.set(i, init_sequence[i]);
            i = i + 1;
        }
        self.sequence_len = n;
        self.position_in_sequence = 0;
        self.status = Status::Delay;
        assert(self.sequence_buffer@ =~= load_sequence(old(self)@, old(self)@.screen.init_sequence@).sequence);
        assert(self@ =~= step(old(self)@).0);
    }

    /// One transition of the driver; says whether it goes on at once.
    fn step(&mut self, actions: &mut Vec<Action>) -> (cont: bool)
        requires
            wf(old(self)@),
            step_safe(old(self)@),
        ensures
            wf(final(self)@),
            final(self)@ == step(old(self)@).0,
            views(final(actions)@) == views(old(actions)@) + step(old(self)@).1,
            cont == step(old(self)@).2,
    {
        match self.status {
            Status::Delay => self.step_delay(actions),
            Status::SendCommand(p, l, r) => {
                if r == 0 {
                    self.after_command(actions)
                } else {
                    self.send_parameters(p, l, r, actions)
                }
            },
            Status::SendCommandSlice(l) => {
                self.send_parameters_slice(l, actions);
                false
            },
            Status::SendParametersSlice => self.after_command(actions),
            Status::Init => {
                self.step_init();
                assert(views(actions@) =~= views(old(actions)@) + Seq::<ActionView>::empty());
                true
            },
            Status::Error(error) => {
                self.report(Err(error), actions);
                self.status = Status::Idle;
                false
            },
            Status::Idle => false,
            _ => {
                self.step_reset(actions);
                false
            },
        }
    }
}

/// What the driver holds after the bus hands back `buffer` with `status`:
/// the write buffer while a slice was being written, else the parameter
/// buffer; a failure becomes the status to report.
pub open spec fn returned(s: Ssd1306View, buffer: Option<Seq<u8>>, status: Result<(), ErrorCode>) -> Ssd1306View {
    let s1 = match buffer {
        Some(b) => if s.status == Status::SendParametersSlice {
            Ssd1306View { write_buffer: Some(b), ..s }
        } else {
            Ssd1306View { buffer: Some(b), ..s }
        },
        None => s,
    };
    match status {
        Err(e) => Ssd1306View { status: Status::Error(e), ..s1 },
        Ok(_) => s1,
    }
}

/// The state from which a stored sequence starts running.
pub open spec fn sequence_start(s: Ssd1306View) -> Ssd1306View {
    Ssd1306View { position_in_sequence: 0, status: Status::Delay, ..s }
}

/// The bits of the memory access control byte for a rotation.
pub open spec fn rotation_bits(rotation: ScreenRotation) -> u8 {
    match rotation {
        ScreenRotation::Normal => 0x00,
        ScreenRotation::Rotated90 => 0x60,
        ScreenRotation::Rotated180 => 0xc0,
        ScreenRotation::Rotated270 => 0xa0,
    }
}

/// Rotating by 90 or 270 degrees swaps width and height.
pub open spec fn rotated_size(screen: ST77XXScreen, rotation: ScreenRotation) -> (usize, usize) {
    match rotation {
        ScreenRotation::Normal | ScreenRotation::Rotated180 => (screen.default_width, screen.default_height),
        _ => (screen.default_height, screen.default_width),
    }
}

/// A coordinate as two bytes, high byte first.
pub open spec fn be16(v: int) -> Seq<u8> {
    seq![((v / 256) % 256) as u8, (v % 256) as u8]
}

/// The column and row address window parameters: start and end column,
/// then start and end row, each shifted by the screen offset.
pub open spec fn memory_frame_bytes(sx: int, sy: int, ex: int, ey: int, ox: int, oy: int) -> Seq<u8> {
    be16(sx + ox) + be16(ex + ox) + be16(sy + oy) + be16(ey + oy)
}

fn copy_bytes(v: &Vec<u8>) -> (r: Vec<u8>)
    ensures
        r@ == v@,
{
    let mut r: Vec<u8> = Vec::new();
    let mut i: usize = 0;
    while i < v.len()
        invariant
            i <= v@.len(),
            r@ == v@.subrange(0, i as int),
        decreases v@.len() - i,
    {
        r.push(v[i]);
        i = i + 1;
    }
    assert(r@ =~= v@);
    r
}

fn copy_opt(v: &Option<Vec<u8>>) -> (r: Option<Vec<u8>>)
    ensures
        opt_view(r) == opt_view(*v),
{
    match v {
        Some(b) => Some(copy_bytes(b)),
        None => None,
    }
}

fn copy_sequence(v: &Vec<SendCommand>) -> (r: Vec<SendCommand>)
    ensures
        r@ == v@,
{
    let mut r: Vec<SendCommand> = Vec::new();
    let mut i: usize = 0;
    while i < v.len()
        invariant
            i <= v@.len(),
            r@ == v@.subrange(0, i as int),
        decreases v@.len() - i,
    {
        r.push(v[i]);
        i = i + 1;
    }
    assert(r@ =~= v@);
    r
}

fn be16_bytes(v: usize) -> (r: (u8, u8))
    ensures
        seq![r.0, r.1] == be16(v as int),
{
    assert(((v >> 8usize) & 0xffusize) == (v / 256) % 256) by (bit_vector);
    assert((v & 0xffusize) == v % 256) by (bit_vector);
    ((((v >> 8) & 0xff) as u8), ((v & 0xff) as u8))
}

impl Ssd1306 {
    /// A copy of the driver, buffers included.
    fn duplicate(&self) -> (d: Ssd1306)
        ensures
            d@ == self@,
    {
        let d = Ssd1306 {
            status: self.status,
            width: self.width,
            height: self.height,
            has_dc: self.has_dc,
            has_reset: self.has_reset,
            has_client: self.has_client,
            has_setup_client: self.has_setup_client,
            setup_command: self.setup_command,
            sequence_buffer: copy_sequence(&self.sequence_buffer),
            position_in_sequence: self.position_in_sequence,
            sequence_len: self.sequence_len,
            command: self.command,
            buffer: copy_opt(&self.buffer),
            power_on: self.power_on,
            write_buffer: copy_opt(&self.write_buffer),
            current_rotation: self.current_rotation,
            screen: self.screen,
            enable_charge_pump: self.enable_charge_pump,
            frame: self.frame,
        };
        assert(d@ =~= self@);
        d
    }

    /// Whether the next transition is defined.
    fn step_is_safe(&self) -> (ok: bool)
        requires
            wf(self@),
        ensures
            ok == step_safe(self@),
    {
        match self.status {
            Status::Idle => false,
            Status::Delay => {
                let position = self.position_in_sequence;
                if position == usize::MAX {
                    false
                } else if position < self.sequence_len {
                    match self.sequence_buffer[position] {
                        SendCommand::Default(cmd) => match &self.buffer {
                            Some(b) => match cmd.parameters {
                                Some(p) => p.len() <= b.len(),
                                None => true,
                            },
                            None => false,
                        },
                        _ => true,
                    }
                } else {
                    true
                }
            },
            Status::SendCommand(p, l, r) => {
                if r > 0 && l > 0 {
                    match &self.buffer {
                        Some(b) => p == 0 || (l <= b.len() && p <= b.len() - l),
                        None => false,
                    }
                } else {
                    true
                }
            },
            Status::SendCommandSlice(_) => self.write_buffer.is_some(),
            Status::Init => self.screen.init_sequence.len() <= SEQUENCE_BUFFER_SIZE,
            _ => true,
        }
    }

    /// Whether the driver can go on from where it stands without reaching a
    /// transition that is not defined.
    pub fn can_advance(&self) -> (ok: bool)
        requires
            wf(self@),
        ensures
            ok == runs_safely(self@),
    {
        let mut probe = self.duplicate();
        let mut scratch: Vec<Action> = Vec::new();
        loop
            invariant
                wf(probe@),
                runs_safely(probe@) == runs_safely(self@),
            decreases init_rank(probe@), remaining(probe@), rank(probe@), repeats(probe@),
        {
            if !probe.step_is_safe() {
                return false;
            }
            let cont = probe.step(&mut scratch);
            if !cont {
                return true;
            }
        }
    }

    /// Goes through the transitions the driver makes at once, from where it
    /// stands; what it asks of the caller is appended to `actions`.
    pub fn do_next_op(&mut self, actions: &mut Vec<Action>)
        requires
            runs_safely(old(self)@),
        ensures
            wf(final(self)@),
            final(self)@ == run(old(self)@).0,
            views(final(actions)@) == views(old(actions)@) + run(old(self)@).1,
    {
        let ghost s0 = self@;
        let ghost a0 = views(actions@);
        let mut cont = true;
        while cont
            invariant
                wf(self@),
                cont ==> runs_safely(self@),
                cont ==> run(s0).0 == run(self@).0 && a0 + run(s0).1 == views(actions@) + run(self@).1,
                !cont ==> run(s0).0 == self@ && a0 + run(s0).1 == views(actions@),
            decreases (if cont { 1int } else { 0int }), init_rank(self@), remaining(self@), rank(self@), repeats(self@),
        {
            let ghost s = self@;
            let ghost a = views(actions@);
            let c = self.step(actions);
            proof {
                assert(a + run(s).1 == views(actions@) + (if c { run(self@).1 } else { Seq::empty() }))
                    by {
                    if c {
                        assert(a + (step(s).1 + run(self@).1) =~= (a + step(s).1) + run(self@).1);
                    } else {
                        assert(a + step(s).1 =~= a + step(s).1 + Seq::<ActionView>::empty());
                    }
                }
                if !c {
                    assert(views(actions@) =~= views(actions@) + Seq::<ActionView>::empty());
                }
            }
            cont = c;
        }
    }

    /// Starts running the stored command sequence from its first entry.
    pub fn send_sequence_buffer(&mut self, actions: &mut Vec<Action>) -> (r: Result<(), ErrorCode>)
        requires
            wf(old(self)@),
            old(self)@.status == Status::Idle ==> runs_safely(sequence_start(old(self)@)),
        ensures
            wf(final(self)@),
            old(self)@.status == Status::Idle ==> {
                &&& r == Ok::<(), ErrorCode>(())
                &&& final(self)@ == run(sequence_start(old(self)@)).0
                &&& views(final(actions)@) == views(old(actions)@) + run(sequence_start(old(self)@)).1
            },
            old(self)@.status != Status::Idle ==> {
                &&& r == Err::<(), ErrorCode>(ErrorCode::BUSY)
                &&& final(self)@ == old(self)@
                &&& views(final(actions)@) == views(old(actions)@)
            },
    {
        if self.status == Status::Idle {
            self.position_in_sequence = 0;
            // Delay makes the next operation start the next entry.
            self.status = Status::Delay;
            assert(self@ =~= sequence_start(old(self)@));
            self.do_next_op(actions);
            Ok(())
        } else {
            Err(ErrorCode::BUSY)
        }
    }

    /// Resets the screen through its reset pin, then runs the screen's
    /// init sequence.
    pub fn init(&mut self, actions: &mut Vec<Action>) -> (r: Result<(), ErrorCode>)
        requires
            wf(old(self)@),
        ensures
            wf(final(self)@),
            old(self)@.status == Status::Idle ==> {
                &&& r == Ok::<(), ErrorCode>(())
                &&& final(self)@ == Ssd1306View { status: Status::Reset2, ..old(self)@ }
                &&& views(final(actions)@) == views(old(actions)@) + reset_clear(old(self)@) + seq![
                    ActionView::SetAlarm(10),
                ]
            },
            old(self)@.status != Status::Idle ==> {
                &&& r == Err::<(), ErrorCode>(ErrorCode::BUSY)
                &&& final(self)@ == old(self)@
                &&& views(final(actions)@) == views(old(actions)@)
            },
    {
        if self.status == Status::Idle {
            self.status = Status::Reset1;
            proof {
                let t = step(self@);
                assert(!t.2);
            }
            self.do_next_op(actions);
            assert(self@ =~= Ssd1306View { status: Status::Reset2, ..old(self)@ });
            Ok(())
        } else {
            Err(ErrorCode::BUSY)
        }
    }

    /// The bus is done: takes back its buffer and records a failure, then
    /// goes on.
    pub fn command_complete(
        &mut self,
        buffer: Option<Vec<u8>>,
        len: usize,
        status: Result<(), ErrorCode>,
        actions: &mut Vec<Action>,
    )
        requires
            wf(old(self)@),
            runs_safely(returned(old(self)@, opt_view(buffer), status)),
        ensures
            wf(final(self)@),
            final(self)@ == run(returned(old(self)@, opt_view(buffer), status)).0,
            views(final(actions)@) == views(old(actions)@) + run(
                returned(old(self)@, opt_view(buffer), status),
            ).1,
    {
        self.take_back(buffer, status);
        self.do_next_op(actions);
    }

    fn take_back(&mut self, buffer: Option<Vec<u8>>, status: Result<(), ErrorCode>)
        ensures
            final(self)@ == returned(old(self)@, opt_view(buffer), status),
    {
        if let Some(buffer) = buffer {
            if self.status == Status::SendParametersSlice {
                self.write_buffer = Some(buffer);
            } else {
                self.buffer = Some(buffer);
            }
        }
        if let Err(error) = status {
            self.status = Status::Error(error);
        }
        assert(self@ =~= returned(old(self)@, opt_view(buffer), status));
    }

    /// Whether handing back `buffer` with `status` lets the driver go on
    /// without reaching a transition that is not defined.
    pub fn can_complete(&self, buffer: &Option<Vec<u8>>, status: Result<(), ErrorCode>) -> (ok: bool)
        requires
            wf(self@),
        ensures
            ok == runs_safely(returned(self@, opt_view(*buffer), status)),
    {
        let mut probe = self.duplicate();
        probe.take_back(copy_opt(buffer), status);
        probe.can_advance()
    }

    /// The alarm fired: go on.
    pub fn alarm(&mut self, actions: &mut Vec<Action>)
        requires
            runs_safely(old(self)@),
        ensures
            wf(final(self)@),
            final(self)@ == run(old(self)@).0,
            views(final(actions)@) == views(old(actions)@) + run(old(self)@).1,
    {
        self.do_next_op(actions);
    }
}

/// How a display command request ends: busy unless idle, off until the
/// screen is powered on, else the command goes out with its default
/// parameters as a client (not setup) command. The new state, the actions
/// and the result.
pub open spec fn display_command_result(s: Ssd1306View, cmd: PanelCommand) -> (
    Ssd1306View,
    Seq<ActionView>,
    Result<(), ErrorCode>,
) {
    if s.status != Status::Idle {
        (s, Seq::empty(), Err(ErrorCode::BUSY))
    } else if !s.power_on {
        (s, Seq::empty(), Err(ErrorCode::OFF))
    } else {
        let t = send_default_spec(Ssd1306View { setup_command: false, ..s }, cmd);
        (t.0, t.1, Ok(()))
    }
}

/// A display command can go out: when idle and powered on, the parameter
/// buffer is there.
pub open spec fn display_command_ready(s: Ssd1306View) -> bool {
    (s.status == Status::Idle && s.power_on) ==> s.buffer is Some
}

impl Ssd1306 {
    fn display_command(&mut self, cmd: PanelCommand, actions: &mut Vec<Action>) -> (r: Result<
        (),
        ErrorCode,
    >)
        requires
            wf(old(self)@),
            display_command_ready(old(self)@),
            parameter_len(cmd) == 0,
        ensures
            wf(final(self)@),
            final(self)@ == display_command_result(old(self)@, cmd).0,
            views(final(actions)@) == views(old(actions)@) + display_command_result(old(self)@, cmd).1,
            r == display_command_result(old(self)@, cmd).2,
    {
        if self.status == Status::Idle {
            if !self.power_on {
                assert(views(actions@) =~= views(old(actions)@) + Seq::<ActionView>::empty());
                Err(ErrorCode::OFF)
            } else {
                self.setup_command = false;
                self.send_command_with_default_parameters(cmd, actions);
                Ok(())
            }
        } else {
            assert(views(actions@) =~= views(old(actions)@) + Seq::<ActionView>::empty());
            Err(ErrorCode::BUSY)
        }
    }

    /// Turns the display on.
    pub fn display_on(&mut self, actions: &mut Vec<Action>) -> (r: Result<(), ErrorCode>)
        requires
            wf(old(self)@),
            display_command_ready(old(self)@),
        ensures
            wf(final(self)@),
            final(self)@ == display_command_result(old(self)@, display_on()).0,
            views(final(actions)@) == views(old(actions)@) + display_command_result(old(self)@, display_on()).1,
            r == display_command_result(old(self)@, display_on()).2,
    {
        self.display_command(display_on(), actions)
    }

    /// Turns the display off.
    pub fn display_off(&mut self, actions: &mut Vec<Action>) -> (r: Result<(), ErrorCode>)
        requires
            wf(old(self)@),
            display_command_ready(old(self)@),
        ensures
            wf(final(self)@),
            final(self)@ == display_command_result(old(self)@, display_off()).0,
            views(final(actions)@) == views(old(actions)@) + display_command_result(old(self)@, display_off()).1,
            r == display_command_result(old(self)@, display_off()).2,
    {
        self.display_command(display_off(), actions)
    }

    /// Inverts the colors; on a screen whose colors are inverted already,
    /// this sends the panel's inversion-off command.
    pub fn display_invert_on(&mut self, actions: &mut Vec<Action>) -> (r: Result<(), ErrorCode>)
        requires
            wf(old(self)@),
            display_command_ready(old(self)@),
        ensures
            wf(final(self)@),
            final(self)@ == display_command_result(old(self)@, if old(self)@.screen.inverted { invoff() } else { invon() }).0,
            views(final(actions)@) == views(old(actions)@) + display_command_result(old(self)@, if old(self)@.screen.inverted { invoff() } else { invon() }).1,
            r == display_command_result(old(self)@, if old(self)@.screen.inverted { invoff() } else { invon() }).2,
    {
        let cmd = if self.screen.inverted { invoff() } else { invon() };
        self.display_command(cmd, actions)
    }

    /// Undoes the inversion; on a screen whose colors are inverted already,
    /// this sends the panel's inversion-on command.
    pub fn display_invert_off(&mut self, actions: &mut Vec<Action>) -> (r: Result<(), ErrorCode>)
        requires
            wf(old(self)@),
            display_command_ready(old(self)@),
        ensures
            wf(final(self)@),
            final(self)@ == display_command_result(old(self)@, if old(self)@.screen.inverted { invon() } else { invoff() }).0,
            views(final(actions)@) == views(old(actions)@) + display_command_result(old(self)@, if old(self)@.screen.inverted { invon() } else { invoff() }).1,
            r == display_command_result(old(self)@, if old(self)@.screen.inverted { invon() } else { invoff() }).2,
    {
        let cmd = if self.screen.inverted { invon() } else { invoff() };
        self.display_command(cmd, actions)
    }

    /// Rotates the screen: swaps width and height for quarter turns and sends
    /// the memory access control command with the rotation bits, as a setup
    /// command.
    pub fn rotation(&mut self, rotation: ScreenRotation, actions: &mut Vec<Action>) -> (r: Result<
        (),
        ErrorCode,
    >)
        requires
            wf(old(self)@),
            old(self)@.status == Status::Idle ==> (old(self)@.buffer matches Some(b) && b.len() >= 1),
        ensures
            wf(final(self)@),
            old(self)@.status == Status::Idle ==> {
                let b = old(self)@.buffer.unwrap().update(0, rotation_bits(rotation));
                let size = rotated_size(old(self)@.screen, rotation);
                let t = send_command_spec(
                    Ssd1306View {
                        width: size.0,
                        height: size.1,
                        buffer: Some(b),
                        setup_command: true,
                        ..old(self)@
                    },
                    final(self)@.command,
                    0,
                    1,
                    1,
                );
                &&& r == Ok::<(), ErrorCode>(())
                &&& final(self)@.command.id == 0x36
                &&& final(self)@.command.delay == 0
                &&& parameter_bytes(final(self)@.command) == seq![0x00u8]
                &&& final(self)@ == Ssd1306View { current_rotation: rotation, ..t.0 }
                &&& views(final(actions)@) == views(old(actions)@) + t.1
            },
            old(self)@.status != Status::Idle ==> {
                &&& r == Err::<(), ErrorCode>(ErrorCode::BUSY)
                &&& final(self)@ == old(self)@
                &&& views(final(actions)@) == views(old(actions)@)
            },
    {
        if self.status == Status::Idle {
            let rotation_bits: u8 = match rotation {
                ScreenRotation::Normal => 0x00,
                ScreenRotation::Rotated90 => 0x60,
                ScreenRotation::Rotated180 => 0xc0,
                ScreenRotation::Rotated270 => 0xa0,
            };
            match rotation {
                ScreenRotation::Normal | ScreenRotation::Rotated180 => {
                    self.width = self.screen.default_width;
                    self.height = self.screen.default_height;
                },
                ScreenRotation::Rotated90 | ScreenRotation::Rotated270 => {
                    self.width = self.screen.default_height;
                    self.height = self.screen.default_width;
                },
            }
            let madctl = madctl();
            let default_bits: u8 = match madctl.parameters {
                Some(parameters) => parameters[0],
                None => 0,
            };
            assert(rotation_bits | 0u8 == rotation_bits) by (bit_vector);
            let mut buffer = self.buffer.take().unwrap();
            buffer.set(0, rotation_bits | default_bits);
            self.buffer = Some(buffer);
            self.setup_command = true;
            self.send_command(madctl, 0, 1, 1, actions);
            self.current_rotation = rotation;
            Ok(())
        } else {
            Err(ErrorCode::BUSY)
        }
    }

    /// Writes the column and row address window for the pixels from (sx, sy)
    /// to (ex, ey) into the parameter buffer at `position`, shifted by the
    /// screen offset for the current rotation.
    pub fn set_memory_frame(
        &mut self,
        position: usize,
        sx: usize,
        sy: usize,
        ex: usize,
        ey: usize,
    ) -> (r: Result<(), ErrorCode>)
        requires
            wf(old(self)@),
            ({
                let s = old(self)@;
                let o = offset_for(s.screen.offsets, s.current_rotation);
                (sx <= s.width && sy <= s.height && ex <= s.width && ey <= s.height && sx <= ex && sy <= ey
                    && s.status == Status::Idle) ==> {
                    &&& ex + o.0 <= usize::MAX
                    &&& ey + o.1 <= usize::MAX
                    &&& s.buffer matches Some(b) && position + 8 <= b.len()
                }
            }),
        ensures
            wf(final(self)@),
            ({
                let s = old(self)@;
                let o = offset_for(s.screen.offsets, s.current_rotation);
                if !(sx <= s.width && sy <= s.height && ex <= s.width && ey <= s.height && sx <= ex && sy
                    <= ey) {
                    r == Err::<(), ErrorCode>(ErrorCode::INVAL) && final(self)@ == s
                } else if s.status != Status::Idle {
                    r == Err::<(), ErrorCode>(ErrorCode::BUSY) && final(self)@ == s
                } else {
                    &&& r == Ok::<(), ErrorCode>(())
                    &&& final(self)@ == Ssd1306View {
                        buffer: Some(
                            splice(
                                s.buffer.unwrap(),
                                position as int,
                                memory_frame_bytes(sx as int, sy as int, ex as int, ey as int, o.0 as int, o.1 as int),
                            ),
                        ),
                        ..s
                    }
                    &&& address_window_at(
                        final(self)@.buffer.unwrap(),
                        position as int,
                        sx + o.0,
                        ex + o.0,
                        sy + o.1,
                        ey + o.1,
                    )
                }
            }),
    {
        if sx <= self.width && sy <= self.height && ex <= self.width && ey <= self.height && sx <= ex && sy
            <= ey {
            let (ox, oy) = self.screen.offsets.offset(self.current_rotation);
            if self.status == Status::Idle {
                let mut buffer = self.buffer.take().unwrap();
                let ghost b0 = buffer@;
                let blen = buffer.len();
                assert(position + 8 <= blen);
                let (a0, a1) = be16_bytes(sx + ox);
                let (a2, a3) = be16_bytes(ex + ox);
                let (a4, a5) = be16_bytes(sy + oy);
                let (a6, a7) = be16_bytes(ey + oy);
                // Column address window.
                buffer.set(position, a0);
                buffer.set(position + 1, a1);
                buffer.set(position + 2, a2);
                buffer.set(position + 3, a3);
                // Row address window.
                buffer.set(position + 4, a4);
                buffer.set(position + 5, a5);
                buffer.set(position + 6, a6);
                buffer.set(position + 7, a7);
                assert(buffer@ =~= splice(
                    b0,
                    position as int,
                    memory_frame_bytes(sx as int, sy as int, ex as int, ey as int, ox as int, oy as int),
                ));
                proof {
                    lemma_memory_frame_layout(b0, position as int, sx as int, sy as int, ex as int, ey as int, ox as int, oy as int);
                }
                self.buffer = Some(buffer);
                Ok(())
            } else {
                Err(ErrorCode::BUSY)
            }
        } else {
            Err(ErrorCode::INVAL)
        }
    }
}


// ---------------------------------------------------------------------
// The screen interface
// ---------------------------------------------------------------------

impl Ssd1306 {
    /// Registers the setup client, which hears of completed setup commands.
    pub fn set_setup_client(&mut self)
        ensures
            final(self)@ == (Ssd1306View { has_setup_client: true, ..old(self)@ }),
    {
        self.has_setup_client = true;
        assert(self@ =~= Ssd1306View { has_setup_client: true, ..old(self)@ });
    }

    /// Registers the screen client, which hears of readiness, completed
    /// commands and writes.
    pub fn set_client(&mut self)
        ensures
            final(self)@ == (Ssd1306View { has_client: true, ..old(self)@ }),
    {
        self.has_client = true;
        assert(self@ =~= Ssd1306View { has_client: true, ..old(self)@ });
    }

    /// The resolution cannot be changed.
    pub fn set_resolution(&self, resolution: (usize, usize)) -> (r: Result<(), ErrorCode>)
        ensures
            r == Err::<(), ErrorCode>(ErrorCode::NOSUPPORT),
    {
        Err(ErrorCode::NOSUPPORT)
    }

    /// The pixel format cannot be changed.
    pub fn set_pixel_format(&self, depth: ScreenPixelFormat) -> (r: Result<(), ErrorCode>)
        ensures
            r == Err::<(), ErrorCode>(ErrorCode::NOSUPPORT),
    {
        Err(ErrorCode::NOSUPPORT)
    }

    /// The rotation cannot be changed.
    pub fn set_rotation(&self, rotation: ScreenRotation) -> (r: Result<(), ErrorCode>)
        ensures
            r == Err::<(), ErrorCode>(ErrorCode::NOSUPPORT),
    {
        Err(ErrorCode::NOSUPPORT)
    }

    /// One resolution is supported.
    pub fn get_num_supported_resolutions(&self) -> (n: usize)
        ensures
            n == 1,
    {
        1
    }

    /// The supported resolution at `index`: 128 x 64 at index 0.
    pub fn get_supported_resolution(&self, index: usize) -> (r: Option<(usize, usize)>)
        ensures
            index == 0 ==> r == Some((WIDTH, HEIGHT)),
            index != 0 ==> r is None,
    {
        match index {
            0 => Some((WIDTH, HEIGHT)),
            _ => None,
        }
    }

    /// One pixel format is supported.
    pub fn get_num_supported_pixel_formats(&self) -> (n: usize)
        ensures
            n == 1,
    {
        1
    }

    /// The supported pixel format at `index`: monochrome at index 0.
    pub fn get_supported_pixel_format(&self, index: usize) -> (r: Option<ScreenPixelFormat>)
        ensures
            index == 0 ==> r == Some(ScreenPixelFormat::Mono),
            index != 0 ==> r is None,
    {
        match index {
            0 => Some(ScreenPixelFormat::Mono),
            _ => None,
        }
    }

    /// The resolution: 128 x 64.
    pub fn get_resolution(&self) -> (r: (usize, usize))
        ensures
            r == (WIDTH, HEIGHT),
    {
        (WIDTH, HEIGHT)
    }

    /// The pixel format: monochrome.
    pub fn get_pixel_format(&self) -> (r: ScreenPixelFormat)
        ensures
            r == ScreenPixelFormat::Mono,
    {
        ScreenPixelFormat::Mono
    }

    /// The rotation: normal.
    pub fn get_rotation(&self) -> (r: ScreenRotation)
        ensures
            r == ScreenRotation::Normal,
    {
        ScreenRotation::Normal
    }

    /// Records the frame that the next writes go to.
    pub fn set_write_frame(&mut self, x: usize, y: usize, width: usize, height: usize) -> (r: Result<
        (),
        ErrorCode,
    >)
        ensures
            r == Ok::<(), ErrorCode>(()),
            final(self)@ == (Ssd1306View { frame: (x, y, width, height), ..old(self)@ }),
    {
        self.frame = (x, y, width, height);
        assert(self@ =~= Ssd1306View { frame: (x, y, width, height), ..old(self)@ });
        Ok(())
    }

    /// Writes pixel data through the bus: when idle, the data becomes the
    /// write buffer and a one-entry sequence sends the memory write command
    /// followed by the data. Without room in the parameter buffer the data
    /// is kept and the write fails.
    pub fn screen_write(&mut self, data: Vec<u8>, actions: &mut Vec<Action>) -> (r: Result<(), ErrorCode>)
        requires
            wf(old(self)@),
            old(self)@.status == Status::Idle ==> old(self)@.buffer is Some,
        ensures
            wf(final(self)@),
            old(self)@.status != Status::Idle ==> {
                &&& r == Err::<(), ErrorCode>(ErrorCode::BUSY)
                &&& final(self)@ == old(self)@
                &&& views(final(actions)@) == views(old(actions)@)
            },
            old(self)@.status == Status::Idle && old(self)@.buffer.unwrap().len() == 0 ==> {
                &&& r == Err::<(), ErrorCode>(ErrorCode::NOMEM)
                &&& final(self)@ == Ssd1306View {
                    setup_command: false,
                    write_buffer: Some(data@),
                    ..old(self)@
                }
                &&& views(final(actions)@) == views(old(actions)@)
            },
            old(self)@.status == Status::Idle && old(self)@.buffer.unwrap().len() > 0 ==> {
                let cmd = final(self)@.command;
                &&& r == Ok::<(), ErrorCode>(())
                &&& cmd.id == 0x2c
                &&& cmd.delay == 0
                &&& parameter_len(cmd) == 0
                &&& final(self)@ == Ssd1306View {
                    status: Status::SendCommandSlice(data@.len() as usize),
                    command: cmd,
                    setup_command: false,
                    write_buffer: Some(data@),
                    sequence: old(self)@.sequence.update(0, SendCommand::Slice(cmd, data@.len() as usize)),
                    sequence_len: 1,
                    position_in_sequence: 1,
                    ..old(self)@
                }
                &&& views(final(actions)@) == views(old(actions)@) + dc_clear(old(self)@) + seq![
                    ActionView::SetAddress(BusWidth::Bits8, 0x2c),
                ]
            },
    {
        if self.status == Status::Idle {
            self.setup_command = false;
            let len = data.len();
            self.write_buffer = Some(data);
            let buffer_len = match &self.buffer {
                Some(b) => b.len(),
                None => 0,
            };
            if buffer_len > 0 {
                let cmd = write_ram();
                self.sequence_buffer.set(0, SendCommand::Slice(cmd, len));
                self.sequence_len = 1;
                proof {
                    let st = sequence_start(self@);
                    assert(step_safe(st));
                    assert(!step(st).2);
                    assert(runs_safely(st));
                }
                let _ = self.send_sequence_buffer(actions);
                proof {
                    assert(views(actions@) =~= views(old(actions)@) + dc_clear(old(self)@) + seq![
                        ActionView::SetAddress(BusWidth::Bits8, 0x2c),
                    ]);
                }
                Ok(())
            } else {
                Err(ErrorCode::NOMEM)
            }
        } else {
            Err(ErrorCode::BUSY)
        }
    }

    /// Continues a write with more pixel data: when idle, sends `len` bytes
    /// of `data` as 16-bit words.
    pub fn write_continue(&mut self, data: Vec<u8>, len: usize, actions: &mut Vec<Action>) -> (r: Result<
        (),
        ErrorCode,
    >)
        requires
            wf(old(self)@),
        ensures
            wf(final(self)@),
            old(self)@.status != Status::Idle ==> {
                &&& r == Err::<(), ErrorCode>(ErrorCode::BUSY)
                &&& final(self)@ == old(self)@
                &&& views(final(actions)@) == views(old(actions)@)
            },
            old(self)@.status == Status::Idle ==> {
                let t = send_parameters_slice_spec(
                    Ssd1306View { setup_command: false, write_buffer: Some(data@), ..old(self)@ },
                    len,
                );
                &&& r == Ok::<(), ErrorCode>(())
                &&& final(self)@ == t.0
                &&& views(final(actions)@) == views(old(actions)@) + t.1
            },
    {
        if self.status == Status::Idle {
            self.setup_command = false;
            self.write_buffer = Some(data);
            self.send_parameters_slice(len, actions);
            Ok(())
        } else {
            Err(ErrorCode::BUSY)
        }
    }

    /// Brightness is not adjustable through this interface; accepted as is.
    pub fn set_brightness(&self, brightness: usize) -> (r: Result<(), ErrorCode>)
        ensures
            r == Ok::<(), ErrorCode>(()),
    {
        Ok(())
    }

    /// Turns the display on or off.
    pub fn set_power(&mut self, enabled: bool, actions: &mut Vec<Action>) -> (r: Result<(), ErrorCode>)
        requires
            wf(old(self)@),
            display_command_ready(old(self)@),
        ensures
            wf(final(self)@),
            final(self)@ == display_command_result(
                old(self)@,
                if enabled { display_on() } else { display_off() },
            ).0,
            views(final(actions)@) == views(old(actions)@) + display_command_result(
                old(self)@,
                if enabled { display_on() } else { display_off() },
            ).1,
            r == display_command_result(
                old(self)@,
                if enabled { display_on() } else { display_off() },
            ).2,
    {
        if enabled {
            self.display_on(actions)
        } else {
            self.display_off(actions)
        }
    }

    /// Switches color inversion on or off.
    pub fn set_invert(&mut self, enabled: bool, actions: &mut Vec<Action>) -> (r: Result<(), ErrorCode>)
        requires
            wf(old(self)@),
            display_command_ready(old(self)@),
        ensures
            wf(final(self)@),
            final(self)@ == display_command_result(
                old(self)@,
                if enabled == old(self)@.screen.inverted { invoff() } else { invon() },
            ).0,
            views(final(actions)@) == views(old(actions)@) + display_command_result(
                old(self)@,
                if enabled == old(self)@.screen.inverted { invoff() } else { invon() },
            ).1,
            r == display_command_result(
                old(self)@,
                if enabled == old(self)@.screen.inverted { invoff() } else { invon() },
            ).2,
    {
        if enabled {
            self.display_invert_on(actions)
        } else {
            self.display_invert_off(actions)
        }
    }

    /// Where the stored sequence stands: the next entry and the length.
    pub fn sequence_position(&self) -> (r: (usize, usize))
        ensures
            r == (self@.position_in_sequence, self@.sequence_len),
    {
        (self.position_in_sequence, self.sequence_len)
    }

    /// Where the driver stands.
    pub fn status(&self) -> (r: Status)
        ensures
            r == self@.status,
    {
        self.status
    }

    /// Width and height of the screen under its current rotation.
    pub fn size(&self) -> (r: (usize, usize))
        ensures
            r == (self@.width, self@.height),
    {
        (self.width, self.height)
    }

    /// Whether the screen has been powered on.
    pub fn is_powered_on(&self) -> (r: bool)
        ensures
            r == self@.power_on,
    {
        self.power_on
    }

    /// The rotation last set through `rotation`.
    pub fn current_rotation(&self) -> (r: ScreenRotation)
        ensures
            r == self@.current_rotation,
    {
        self.current_rotation
    }

    /// Length of the parameter buffer, while the driver holds it.
    pub fn buffer_len(&self) -> (r: Option<usize>)
        ensures
            r == (match self@.buffer {
                Some(b) => Some(b.len() as usize),
                None => None::<usize>,
            }),
    {
        match &self.buffer {
            Some(b) => Some(b.len()),
            None => None,
        }
    }
}

/// After `init`, the screen is reset and then brought up: each of three
/// alarms moves the reset pin (high, low, high) and waits 120 ms; the fourth
/// loads the screen's init sequence into the sequence buffer and runs it
/// from its first entry.
pub proof fn lemma_init_resets_then_runs_init_sequence(s: Ssd1306View)
    requires
        wf(s),
        s.status == Status::Reset2,
        s.screen.init_sequence@.len() <= SEQUENCE_BUFFER_SIZE,
    ensures
        ({
            let a1 = run(s);
            let a2 = run(a1.0);
            let a3 = run(a2.0);
            let loaded = Ssd1306View {
                status: Status::Delay,
                position_in_sequence: 0,
                ..load_sequence(s, s.screen.init_sequence@)
            };
            &&& a1 == (Ssd1306View { status: Status::Reset3, ..s }, reset_set(s) + seq![ActionView::SetAlarm(120)])
            &&& a2 == (Ssd1306View { status: Status::Reset4, ..s }, reset_clear(s) + seq![ActionView::SetAlarm(120)])
            &&& a3 == (Ssd1306View { status: Status::Init, ..s }, reset_set(s) + seq![ActionView::SetAlarm(120)])
            &&& run(a3.0) == run(loaded)
            &&& loaded.sequence.take(s.screen.init_sequence@.len() as int) == s.screen.init_sequence@
            &&& loaded.sequence_len == s.screen.init_sequence@.len()
        }),
{
    let a1 = run(s);
    assert(a1 == (Ssd1306View { status: Status::Reset3, ..s }, reset_set(s) + seq![ActionView::SetAlarm(120)]));
    let a2 = run(a1.0);
    assert(a2 == (Ssd1306View { status: Status::Reset4, ..s }, reset_clear(s) + seq![ActionView::SetAlarm(120)]));
    let a3 = run(a2.0);
    assert(a3 == (Ssd1306View { status: Status::Init, ..s }, reset_set(s) + seq![ActionView::SetAlarm(120)]));
    let i = a3.0;
    let loaded = Ssd1306View {
        status: Status::Delay,
        position_in_sequence: 0,
        ..load_sequence(s, s.screen.init_sequence@)
    };
    assert(step(i).0 == loaded);
    assert(step_safe(i));
    assert(run(i).1 =~= run(loaded).1);
    assert(loaded.sequence.take(s.screen.init_sequence@.len() as int) =~= s.screen.init_sequence@);
}

/// A failed bus operation ends what the driver was doing: on the completion
/// that reports the failure the driver becomes idle, having told whoever
/// asked of that failure (the setup client for a setup command, else the
/// screen client) and nothing more.
pub proof fn lemma_bus_failure_is_reported(s: Ssd1306View, buffer: Option<Seq<u8>>, e: ErrorCode)
    requires
        wf(s),
    ensures
        ({
            let failed = returned(s, buffer, Err(e));
            let r = report(failed, Err(e));
            &&& run(failed).0 == Ssd1306View { status: Status::Idle, ..r.0 }
            &&& run(failed).1 == r.1
        }),
{
    let failed = returned(s, buffer, Err(e));
    assert(failed.status == Status::Error(e));
    assert(!step(failed).2);
}

/// A display command is one complete operation: once the driver is idle,
/// powered on and has no stored sequence left to run, the command goes out,
/// the driver waits its delay after the bus is done, and then becomes idle,
/// telling the screen client once that the command completed.
pub proof fn lemma_display_command_completes(s: Ssd1306View, cmd: PanelCommand)
    requires
        wf(s),
        s.status == Status::Idle,
        s.power_on,
        s.buffer is Some,
        s.sequence_len <= s.position_in_sequence < usize::MAX,
        parameter_len(cmd) == 0,
    ensures
        ({
            let a = display_command_result(s, cmd);
            let b = run(returned(a.0, None, Ok(())));
            &&& a.2 == Ok::<(), ErrorCode>(())
            &&& a.1 == dc_clear(s) + seq![ActionView::SetAddress(BusWidth::Bits8, cmd.id as usize)]
            &&& cmd.delay > 0 ==> {
                &&& b.1 == dc_clear(s) + seq![ActionView::SetAlarm(alarm_ms(cmd.delay))]
                &&& run(b.0).0.status == Status::Idle
                &&& run(b.0).1 == report(a.0, Ok(())).1
            }
            &&& cmd.delay == 0 ==> {
                &&& b.0.status == Status::Idle
                &&& b.1 == dc_clear(s) + report(a.0, Ok(())).1
            }
        }),
{
    let a = display_command_result(s, cmd);
    assert(parameter_bytes(cmd) =~= Seq::<u8>::empty());
    assert(splice(s.buffer.unwrap(), 0, parameter_bytes(cmd)) =~= s.buffer.unwrap());
    assert(a.0.status == Status::SendCommand(0, 0, 1));
    let r = returned(a.0, None, Ok(()));
    assert(r == a.0);
    let s1 = step(r).0;
    assert(s1.status == Status::SendCommand(0, 0, 0));
    assert(step_safe(r));
    let s2 = step(s1);
    assert(run(s1) == (s2.0, s2.1) || s2.2);
    if cmd.delay > 0 {
        assert(!s2.2);
        assert(run(r).1 =~= dc_clear(s) + seq![ActionView::SetAlarm(alarm_ms(cmd.delay))]);
        let d = run(r).0;
        assert(d.status == Status::Delay);
        assert(!step(d).2);
        let done = Ssd1306View { status: Status::Idle, position_in_sequence: (d.position_in_sequence + 1) as usize, ..d };
        assert(step(d).1 == report(done, Ok(())).1);
        assert(report(done, Ok(())).1 == report(a.0, Ok(())).1);
    } else {
        assert(s2.2);
        let d = s2.0;
        assert(d.status == Status::Delay);
        assert(step_safe(d));
        assert(!step(d).2);
        let done = Ssd1306View { status: Status::Idle, position_in_sequence: (d.position_in_sequence + 1) as usize, ..d };
        assert(step(d).1 == report(done, Ok(())).1);
        assert(report(done, Ok(())).1 == report(a.0, Ok(())).1);
        assert(run(d).1 == report(a.0, Ok(())).1);
        assert(s2.1 == dc_clear(s));
        assert(run(s1).1 =~= dc_clear(s) + report(a.0, Ok(())).1);
        assert(run(r).1 =~= dc_clear(s) + report(a.0, Ok(())).1);
    }
}

/// The column and row address windows at `at` in `b`: the first column,
/// the last column, the first row and the last row, each as a high byte
/// then a low byte.
pub open spec fn address_window_at(b: Seq<u8>, at: int, first_column: int, last_column: int, first_row: int, last_row: int) -> bool {
    &&& b[at] == ((first_column / 256) % 256) as u8
    &&& b[at + 1] == (first_column % 256) as u8
    &&& b[at + 2] == ((last_column / 256) % 256) as u8
    &&& b[at + 3] == (last_column % 256) as u8
    &&& b[at + 4] == ((first_row / 256) % 256) as u8
    &&& b[at + 5] == (first_row % 256) as u8
    &&& b[at + 6] == ((last_row / 256) % 256) as u8
    &&& b[at + 7] == (last_row % 256) as u8
}

/// Setting the memory frame lays out, from `position`, the column window
/// (its first and last column, shifted by the horizontal offset) and then
/// the row window (its first and last row, shifted by the vertical offset),
/// each coordinate as a 16-bit value with its high byte first; every other
/// byte of the parameter buffer is left as it was.
pub proof fn lemma_memory_frame_layout(
    b: Seq<u8>,
    position: int,
    sx: int,
    sy: int,
    ex: int,
    ey: int,
    ox: int,
    oy: int,
)
    requires
        0 <= position,
        position + 8 <= b.len(),
    ensures
        ({
            let f = splice(b, position, memory_frame_bytes(sx, sy, ex, ey, ox, oy));
            &&& f.len() == b.len()
            &&& address_window_at(f, position, sx + ox, ex + ox, sy + oy, ey + oy)
            &&& forall|i: int| 0 <= i < b.len() && !(position <= i < position + 8) ==> f[i] == b[i]
        }),
{
}

/// The memory access control bits: rows in reverse order (MY), columns in
/// reverse order (MX), and rows and columns exchanged (MV).
pub open spec fn madctl_my() -> u8 {
    0x80
}

/// Columns in reverse order.
pub open spec fn madctl_mx() -> u8 {
    0x40
}

/// Rows and columns exchanged.
pub open spec fn madctl_mv() -> u8 {
    0x20
}

/// The rotation byte sent with the memory access control command says what
/// each rotation does to the image: a quarter turn (90 or 270 degrees)
/// exchanges rows and columns, and so swaps width and height; turning by 90
/// or 180 degrees reverses the columns; turning by 180 or 270 degrees
/// reverses the rows; no other bit is set.
pub proof fn lemma_rotation_access_control(screen: ST77XXScreen, rotation: ScreenRotation)
    ensures
        ({
            let bits = rotation_bits(rotation);
            let quarter = rotation == ScreenRotation::Rotated90 || rotation == ScreenRotation::Rotated270;
            &&& (bits & madctl_mv() != 0) == quarter
            &&& (bits & madctl_mx() != 0) == (rotation == ScreenRotation::Rotated90 || rotation
                == ScreenRotation::Rotated180)
            &&& (bits & madctl_my() != 0) == (rotation == ScreenRotation::Rotated180 || rotation
                == ScreenRotation::Rotated270)
            &&& bits & 0x1f == 0
            &&& quarter ==> rotated_size(screen, rotation) == (screen.default_height, screen.default_width)
            &&& !quarter ==> rotated_size(screen, rotation) == (screen.default_width, screen.default_height)
        }),
{
    assert(0x00u8 & 0x20 == 0 && 0x00u8 & 0x40 == 0 && 0x00u8 & 0x80 == 0 && 0x00u8 & 0x1f == 0) by (bit_vector);
    assert(0x60u8 & 0x20 != 0 && 0x60u8 & 0x40 != 0 && 0x60u8 & 0x80 == 0 && 0x60u8 & 0x1f == 0) by (bit_vector);
    assert(0xc0u8 & 0x20 == 0 && 0xc0u8 & 0x40 != 0 && 0xc0u8 & 0x80 != 0 && 0xc0u8 & 0x1f == 0) by (bit_vector);
    assert(0xa0u8 & 0x20 != 0 && 0xa0u8 & 0x40 == 0 && 0xa0u8 & 0x80 != 0 && 0xa0u8 & 0x1f == 0) by (bit_vector);
}

/// Rotating the screen, once the bus is done with the command identifier,
/// writes the one parameter byte of the memory access control command: the
/// rotation's bits, as `lemma_rotation_access_control` describes them.
pub proof fn lemma_rotation_writes_its_byte(s: Ssd1306View, rotation: ScreenRotation, cmd: PanelCommand)
    requires
        wf(s),
        s.status == Status::Idle,
        s.buffer matches Some(b) && b.len() >= 1,
    ensures
        ({
            let b = s.buffer.unwrap().update(0, rotation_bits(rotation));
            let size = rotated_size(s.screen, rotation);
            let sent = send_command_spec(
                Ssd1306View { width: size.0, height: size.1, buffer: Some(b), setup_command: true, ..s },
                cmd,
                0,
                1,
                1,
            ).0;
            let r = run(returned(Ssd1306View { current_rotation: rotation, ..sent }, None, Ok(())));
            &&& r.1 == dc_set(s) + seq![ActionView::BusWrite(BusWidth::Bits8, b, 1)]
            &&& b[0] == rotation_bits(rotation)
        }),
{
    let b = s.buffer.unwrap().update(0, rotation_bits(rotation));
    let size = rotated_size(s.screen, rotation);
    let sent = send_command_spec(
        Ssd1306View { width: size.0, height: size.1, buffer: Some(b), setup_command: true, ..s },
        cmd,
        0,
        1,
        1,
    ).0;
    let st = returned(Ssd1306View { current_rotation: rotation, ..sent }, None, Ok(()));
    assert(st.status == Status::SendCommand(0, 1, 1));
    assert(step_safe(st));
    assert(!step(st).2);
    assert(shifted(b, 0, 1) == b);
}

} // verus!
