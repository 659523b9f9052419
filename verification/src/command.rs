//! The SSD1306 command set and its byte encoding.

use vstd::prelude::*;
use crate::subslice::SubSliceMut;

verus! {

/// 1 when the flag is set, else 0.
pub open spec fn bit(b: bool) -> int {
    if b { 1 } else { 0 }
}

/// `data` with the bytes from `at` on overwritten by `bytes`.
pub open spec fn splice(data: Seq<u8>, at: int, bytes: Seq<u8>) -> Seq<u8> {
    data.subrange(0, at) + bytes + data.subrange(at + bytes.len(), data.len() as int)
}

/// A command of the SSD1306 controller, with its arguments.
#[derive(Clone, Copy, Debug, PartialEq, Eq)]
pub enum Command {
    /// Charge Pump Setting.
    SetChargePump { enable: bool },
    /// Select 1 out of 256 contrast steps; contrast increases with the value.
    SetContrast { contrast: u8 },
    /// Entire Display On.
    EntireDisplayOn { ignore_ram: bool },
    /// Set Normal or Inverse Display.
    SetDisplayInvert { inverse: bool },
    /// Set Display On or Off.
    SetDisplayOnOff { on: bool },
    /// Continuous Horizontal Scroll, right or left.
    ContinuousHorizontalScroll { left: bool, page_start: u8, interval: u8, page_end: u8 },
    /// Continuous Vertical and Horizontal Scroll.
    ContinuousVerticalHorizontalScroll {
        left: bool,
        page_start: u8,
        interval: u8,
        page_end: u8,
        vertical_offset: u8,
    },
    /// Stop scrolling that is configured by scroll commands.
    DeactivateScroll,
    /// Start scrolling that is configured by scroll commands.
    ActivateScroll,
    /// Number of rows in the top fixed area and in the scroll area.
    SetVerticalScrollArea { rows_fixed: u8, rows_scroll: u8 },
    /// Lower nibble of the column start address (Page Addressing Mode).
    SetLowerColumnStartAddress { address: u8 },
    /// Higher nibble of the column start address (Page Addressing Mode).
    SetHigherColumnStartAddress { address: u8 },
    /// Set Memory Addressing Mode.
    SetMemoryAddressingMode { mode: u8 },
    /// Column start and end address.
    SetColumnAddress { column_start: u8, column_end: u8 },
    /// Page start and end address.
    SetPageAddress { page_start: u8, page_end: u8 },
    /// GDDRAM page start address (PAGE0~PAGE7) for Page Addressing Mode.
    SetPageStartAddress { address: u8 },
    /// Display RAM display start line register, 0-63.
    SetDisplayStartLine { line: u8 },
    /// Set Segment Remap.
    SetSegmentRemap { reverse: bool },
    /// Set Multiplex Ratio.
    SetMultiplexRatio { ratio: u8 },
    /// COM Output Scan Direction.
    SetComScanDirection { decrement: bool },
    /// Vertical shift by COM, 0-63.
    SetDisplayOffset { vertical_shift: u8 },
    /// COM Pins Hardware Configuration.
    SetComPins { alternative: bool, enable_com: bool },
    /// Display Clock Divide Ratio and Oscillator Frequency.
    SetDisplayClockDivide { divide_ratio: u8, oscillator_frequency: u8 },
    /// Pre-charge Period.
    SetPrechargePeriod { phase1: u8, phase2: u8 },
    /// VCOMH Deselect Level.
    SetVcomDeselect { level: u8 },
}

/// The bytes that put a command on the wire.
pub open spec fn command_bytes(cmd: Command) -> Seq<u8> {
    match cmd {
        Command::SetChargePump { enable } => seq![0x8du8, (0x10 + 4 * bit(enable)) as u8],
        Command::SetContrast { contrast } => seq![0x81u8, contrast],
        Command::EntireDisplayOn { ignore_ram } => seq![(0xa4 + bit(ignore_ram)) as u8],
        Command::SetDisplayInvert { inverse } => seq![(0xa6 + bit(inverse)) as u8],
        Command::SetDisplayOnOff { on } => seq![(0xae + bit(on)) as u8],
        Command::ContinuousHorizontalScroll { left, page_start, interval, page_end } => seq![
            (0x26 + bit(left)) as u8,
            0u8,
            page_start,
            interval,
            page_end,
            0u8,
            0xffu8,
        ],
        Command::ContinuousVerticalHorizontalScroll {
            left,
            page_start,
            interval,
            page_end,
            vertical_offset,
        } => seq![(0x29 + bit(left)) as u8, 0u8, page_start, interval, page_end, vertical_offset],
        Command::DeactivateScroll => seq![0x2eu8],
        Command::ActivateScroll => seq![0x2fu8],
        Command::SetVerticalScrollArea { rows_fixed, rows_scroll } => seq![
            0xa3u8,
            rows_fixed,
            rows_scroll,
        ],
        Command::SetLowerColumnStartAddress { address } => seq![(address % 16) as u8],
        Command::SetHigherColumnStartAddress { address } => seq![(0x10 + address % 16) as u8],
        Command::SetMemoryAddressingMode { mode } => seq![0x20u8, mode],
        Command::SetColumnAddress { column_start, column_end } => seq![
            0x21u8,
            column_start,
            column_end,
        ],
        Command::SetPageAddress { page_start, page_end } => seq![0x22u8, page_start, page_end],
        Command::SetPageStartAddress { address } => seq![(0xb0 + address % 8) as u8],
        Command::SetDisplayStartLine { line } => seq![(0x40 + line % 64) as u8],
        Command::SetSegmentRemap { reverse } => seq![(0xa0 + bit(reverse)) as u8],
        Command::SetMultiplexRatio { ratio } => seq![0xa8u8, ratio],
        Command::SetComScanDirection { decrement } => seq![(0xc0 + 8 * bit(decrement)) as u8],
        Command::SetDisplayOffset { vertical_shift } => seq![0xd3u8, vertical_shift],
        Command::SetComPins { alternative, enable_com } => seq![
            0xdau8,
            (16 * bit(alternative) + 32 * bit(enable_com)) as u8,
        ],
        Command::SetDisplayClockDivide { divide_ratio, oscillator_frequency } => seq![
            0xd5u8,
            (16 * (oscillator_frequency % 16) + divide_ratio % 16) as u8,
        ],
        Command::SetPrechargePeriod { phase1, phase2 } => seq![
            0xd9u8,
            (16 * (phase2 % 16) + phase1 % 16) as u8,
        ],
        Command::SetVcomDeselect { level } => seq![0xdbu8, (16 * (level % 16)) as u8],
    }
}

/// The bytes of a list of commands, one after the other.
pub open spec fn commands_bytes(cmds: Seq<Command>) -> Seq<u8>
    decreases cmds.len(),
{
    if cmds.len() == 0 {
        Seq::empty()
    } else {
        commands_bytes(cmds.drop_last()) + command_bytes(cmds.last())
    }
}

fn flag(b: bool) -> (r: u8)
    ensures
        r == bit(b),
{
    if b { 1 } else { 0 }
}

impl Command {
    /// Number of bytes the command takes on the wire.
    pub fn encoded_len(&self) -> (n: usize)
        ensures
            n == command_bytes(*self).len(),
    {
        match self {
            Command::ContinuousHorizontalScroll { .. } => 7,
            Command::ContinuousVerticalHorizontalScroll { .. } => 6,
            Command::SetVerticalScrollArea { .. } | Command::SetColumnAddress { .. }
            | Command::SetPageAddress { .. } => 3,
            Command::SetChargePump { .. } | Command::SetContrast { .. }
            | Command::SetMemoryAddressingMode { .. } | Command::SetMultiplexRatio { .. }
            | Command::SetDisplayOffset { .. } | Command::SetComPins { .. }
            | Command::SetDisplayClockDivide { .. } | Command::SetPrechargePeriod { .. }
            | Command::SetVcomDeselect { .. } => 2,
            _ => 1,
        }
    }

    /// The encoded bytes of the command.
    pub fn to_bytes(&self) -> (v: Vec<u8>)
        ensures
            v@ == command_bytes(*self),
    {
        match *self {
            Command::SetChargePump { enable } => {
                let e = flag(enable);
                assert(e <= 1 ==> 0x10u8 | (e << 2u8) == 0x10 + 4 * e) by (bit_vector);
                vec![0x8d, 0x10 | (e << 2)]
            },
            Command::SetContrast { contrast } => vec![0x81, contrast],
            Command::EntireDisplayOn { ignore_ram } => {
                let e = flag(ignore_ram);
                assert(e <= 1 ==> 0xa4u8 | e == 0xa4 + e) by (bit_vector);
                vec![0xa4 | e]
            },
            Command::SetDisplayInvert { inverse } => {
                let e = flag(inverse);
                assert(e <= 1 ==> 0xa6u8 | e == 0xa6 + e) by (bit_vector);
                vec![0xa6 | e]
            },
            Command::SetDisplayOnOff { on } => {
                let e = flag(on);
                assert(e <= 1 ==> 0xaeu8 | e == 0xae + e) by (bit_vector);
                vec![0xae | e]
            },
            Command::ContinuousHorizontalScroll { left, page_start, interval, page_end } => {
                let e = flag(left);
                assert(e <= 1 ==> 0x26u8 | e == 0x26 + e) by (bit_vector);
                vec![0x26 | e, 0, page_start, interval, page_end, 0, 0xff]
            },
            Command::ContinuousVerticalHorizontalScroll {
                left,
                page_start,
                interval,
                page_end,
                vertical_offset,
            } => {
                let e = flag(left);
                vec![0x29 + e, 0, page_start, interval, page_end, vertical_offset]
            },
            Command::DeactivateScroll => vec![0x2e],
            Command::ActivateScroll => vec![0x2f],
            Command::SetVerticalScrollArea { rows_fixed, rows_scroll } => vec![
                0xa3,
                rows_fixed,
                rows_scroll,
            ],
            Command::SetLowerColumnStartAddress { address } => {
                assert(0x00u8 | (address & 0xf) == address % 16) by (bit_vector);
                vec![0x00 | (address & 0xf)]
            },
            Command::SetHigherColumnStartAddress { address } => {
                assert(0x10u8 | (address & 0xf) == 0x10 + address % 16) by (bit_vector);
                vec![0x10 | (address & 0xf)]
            },
            Command::SetMemoryAddressingMode { mode } => vec![0x20, mode],
            Command::SetColumnAddress { column_start, column_end } => vec![
                0x21,
                column_start,
                column_end,
            ],
            Command::SetPageAddress { page_start, page_end } => vec![0x22, page_start, page_end],
            Command::SetPageStartAddress { address } => {
                assert(0xb0u8 | (address & 0x7) == 0xb0 + address % 8) by (bit_vector);
                vec![0xb0 | (address & 0x7)]
            },
            Command::SetDisplayStartLine { line } => {
                assert(0x40u8 | (line & 0x3f) == 0x40 + line % 64) by (bit_vector);
                vec![0x40 | (line & 0x3f)]
            },
            Command::SetSegmentRemap { reverse } => {
                let e = flag(reverse);
                assert(e <= 1 ==> 0xa0u8 | e == 0xa0 + e) by (bit_vector);
                vec![0xa0 | e]
            },
            Command::SetMultiplexRatio { ratio } => vec![0xa8, ratio],
            Command::SetComScanDirection { decrement } => {
                let e = flag(decrement);
                assert(e <= 1 ==> 0xc0u8 | (e << 3u8) == 0xc0 + 8 * e) by (bit_vector);
                vec![0xc0 | (e << 3)]
            },
            Command::SetDisplayOffset { vertical_shift } => vec![0xd3, vertical_shift],
            Command::SetComPins { alternative, enable_com } => {
                let a = flag(alternative);
                let c = flag(enable_com);
                assert(a <= 1 && c <= 1 ==> (a << 4u8) | (c << 5u8) == 16 * a + 32 * c)
                    by (bit_vector);
                vec![0xda, (a << 4) | (c << 5)]
            },
            Command::SetDisplayClockDivide { divide_ratio, oscillator_frequency } => {
                assert(((oscillator_frequency & 0xf) << 4u8) | (divide_ratio & 0xf) == 16 * (
                oscillator_frequency % 16) + divide_ratio % 16) by (bit_vector);
                vec![0xd5, ((oscillator_frequency & 0xf) << 4) | (divide_ratio & 0xf)]
            },
            Command::SetPrechargePeriod { phase1, phase2 } => {
                assert(((phase2 & 0xf) << 4u8) | (phase1 & 0xf) == 16 * (phase2 % 16) + phase1
                    % 16) by (bit_vector);
                vec![0xd9, ((phase2 & 0xf) << 4) | (phase1 & 0xf)]
            },
            Command::SetVcomDeselect { level } => {
                assert((level & 0xf) << 4u8 == 16 * (level % 16)) by (bit_vector);
                vec![0xdb, (level & 0xf) << 4]
            },
        }
    }

    /// Writes the command at the start of the active window of `buffer` and
    /// moves the window past the bytes written.
    pub fn encode(&self, buffer: &mut SubSliceMut)
        requires
            old(buffer).wf(),
            command_bytes(*self).len() <= old(buffer).spec_len(),
        ensures
            final(buffer).wf(),
            final(buffer).data() == splice(
                old(buffer).data(),
                old(buffer).start(),
                command_bytes(*self),
            ),
            final(buffer).start() == old(buffer).start() + command_bytes(*self).len(),
            final(buffer).end() == old(buffer).end(),
    {
        let bytes = self.to_bytes();
        let take = bytes.len();
        let ghost d0 = buffer.data();
        let ghost s0 = buffer.start();
        let mut i: usize = 0;
        while i < take
            invariant
                i <= take,
                take == bytes@.len(),
                bytes@ == command_bytes(*self),
                buffer.wf(),
                buffer.start() == s0,
                buffer.end() == old(buffer).end(),
                s0 + take <= buffer.end(),
                buffer.data().len() == d0.len(),
                forall|k: int| 0 <= k < d0.len() ==> #[trigger] buffer.data()[k] == (
                    if s0 <= k < s0 + i { bytes@[k - s0] } else { d0[k] }),
            decreases take - i,
        {
            buffer.set(i, bytes[i]);
            i = i + 1;
        }
        assert(buffer.data() =~= splice(d0, s0, command_bytes(*self)));
        buffer.slice_from(take);
    }
}

/// Opcode of a continuous scroll to the right.
pub open spec fn right_horizontal_scroll() -> u8 {
    0x26
}

/// Opcode of a continuous scroll to the left.
pub open spec fn left_horizontal_scroll() -> u8 {
    0x27
}

/// Opcode of a continuous vertical scroll with a scroll to the right.
pub open spec fn vertical_and_right_horizontal_scroll() -> u8 {
    0x29
}

/// Opcode of a continuous vertical scroll with a scroll to the left.
pub open spec fn vertical_and_left_horizontal_scroll() -> u8 {
    0x2a
}

/// A scroll command starts with the opcode of its direction, followed by
/// its parameters: for a horizontal scroll a dummy byte, the start page,
/// the interval, the end page and two dummy bytes (0x00, 0xff); for a
/// vertical and horizontal scroll a dummy byte, the start page, the
/// interval, the end page and the vertical offset.
pub proof fn lemma_scroll_direction_opcodes(left: bool, page_start: u8, interval: u8, page_end: u8, vertical_offset: u8)
    ensures
        command_bytes(Command::ContinuousHorizontalScroll { left, page_start, interval, page_end }) == seq![
            if left { left_horizontal_scroll() } else { right_horizontal_scroll() },
            0u8,
            page_start,
            interval,
            page_end,
            0u8,
            0xffu8,
        ],
        command_bytes(
            Command::ContinuousVerticalHorizontalScroll { left, page_start, interval, page_end, vertical_offset },
        ) == seq![
            if left { vertical_and_left_horizontal_scroll() } else { vertical_and_right_horizontal_scroll() },
            0u8,
            page_start,
            interval,
            page_end,
            vertical_offset,
        ],
{
}

/// The two directions of a scroll differ only in their opcode.
pub proof fn lemma_scroll_directions_differ(page_start: u8, interval: u8, page_end: u8, vertical_offset: u8)
    ensures
        command_bytes(Command::ContinuousHorizontalScroll { left: true, page_start, interval, page_end })[0]
            != command_bytes(Command::ContinuousHorizontalScroll { left: false, page_start, interval, page_end })[0],
        command_bytes(
            Command::ContinuousVerticalHorizontalScroll { left: true, page_start, interval, page_end, vertical_offset },
        )[0] != command_bytes(
            Command::ContinuousVerticalHorizontalScroll { left: false, page_start, interval, page_end, vertical_offset },
        )[0],
{
}

/// Each command starts with its opcode from the controller's command
/// table; a flag of the command sets the lowest bit of the opcode that has
/// one (bit 3 for the COM scan direction), and the address commands carry
/// their address in the opcode's low bits.
pub proof fn lemma_command_opcodes(cmd: Command)
    ensures
        command_bytes(cmd).len() >= 1,
        command_bytes(cmd)[0] == match cmd {
            Command::SetChargePump { .. } => 0x8du8,
            Command::SetContrast { .. } => 0x81u8,
            Command::EntireDisplayOn { ignore_ram } => if ignore_ram { 0xa5u8 } else { 0xa4u8 },
            Command::SetDisplayInvert { inverse } => if inverse { 0xa7u8 } else { 0xa6u8 },
            Command::SetDisplayOnOff { on } => if on { 0xafu8 } else { 0xaeu8 },
            Command::ContinuousHorizontalScroll { left, .. } => if left { 0x27u8 } else { 0x26u8 },
            Command::ContinuousVerticalHorizontalScroll { left, .. } => if left { 0x2au8 } else { 0x29u8 },
            Command::DeactivateScroll => 0x2eu8,
            Command::ActivateScroll => 0x2fu8,
            Command::SetVerticalScrollArea { .. } => 0xa3u8,
            Command::SetLowerColumnStartAddress { address } => (address % 16) as u8,
            Command::SetHigherColumnStartAddress { address } => (0x10 + address % 16) as u8,
            Command::SetMemoryAddressingMode { .. } => 0x20u8,
            Command::SetColumnAddress { .. } => 0x21u8,
            Command::SetPageAddress { .. } => 0x22u8,
            Command::SetPageStartAddress { address } => (0xb0 + address % 8) as u8,
            Command::SetDisplayStartLine { line } => (0x40 + line % 64) as u8,
            Command::SetSegmentRemap { reverse } => if reverse { 0xa1u8 } else { 0xa0u8 },
            Command::SetMultiplexRatio { .. } => 0xa8u8,
            Command::SetComScanDirection { decrement } => if decrement { 0xc8u8 } else { 0xc0u8 },
            Command::SetDisplayOffset { .. } => 0xd3u8,
            Command::SetComPins { .. } => 0xdau8,
            Command::SetDisplayClockDivide { .. } => 0xd5u8,
            Command::SetPrechargePeriod { .. } => 0xd9u8,
            Command::SetVcomDeselect { .. } => 0xdbu8,
        },
{
}

} // verus!
