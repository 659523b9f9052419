//! Commands of bus-attached display panels, the sequences that drive them,
//! and the description of a screen model.

use vstd::prelude::*;

verus! {

/// A panel command: its identifier byte, its default parameter bytes and
/// the delay in milliseconds to wait after it (255 stands for 500 ms).
#[derive(Clone, Copy)]
pub struct PanelCommand {
    pub id: u8,
    pub parameters: Option<&'static [u8]>,
    pub delay: u8,
}

/// Number of default parameter bytes of a command.
pub open spec fn parameter_len(cmd: PanelCommand) -> int {
    match cmd.parameters {
        Some(p) => p@.len() as int,
        None => 0,
    }
}

/// Default parameter bytes of a command (none when it has no parameters).
pub open spec fn parameter_bytes(cmd: PanelCommand) -> Seq<u8> {
    match cmd.parameters {
        Some(p) => p@,
        None => Seq::empty(),
    }
}

/// One entry of a command sequence.
#[derive(Clone, Copy)]
pub enum SendCommand {
    /// Does nothing.
    Nop,
    /// The command with its default parameters.
    Default(PanelCommand),
    /// The command with `len` parameter bytes taken from the parameter
    /// buffer at `position`.
    Position(PanelCommand, usize, usize),
    /// As `Position`, with the parameter bytes sent `repeat` times.
    Repeat(PanelCommand, usize, usize, usize),
    /// The command followed by `len` bytes of the write buffer.
    Slice(PanelCommand, usize),
}

/// The identifier, default parameter bytes and delay of the command of a
/// sequence entry that sends its command with its default parameters.
pub open spec fn default_entry(c: SendCommand) -> Option<(u8, Seq<u8>, u8)> {
    match c {
        SendCommand::Default(cmd) => Some((cmd.id, parameter_bytes(cmd), cmd.delay)),
        _ => None,
    }
}

/// Rotation of the screen contents.
#[derive(Clone, Copy, Debug, PartialEq, Eq, Structural)]
pub enum ScreenRotation {
    Normal,
    Rotated90,
    Rotated180,
    Rotated270,
}

/// How pixels are laid out in memory.
#[allow(non_camel_case_types)]
#[derive(Clone, Copy, Debug, PartialEq, Eq, Structural)]
pub enum ScreenPixelFormat {
    /// One bit per pixel.
    Mono,
    /// Red, green and blue in 2, 3 and 3 bits.
    RGB_233,
    /// Red, green and blue in 5, 6 and 5 bits.
    RGB_565,
    /// Eight bits for each of red, green and blue.
    RGB_888,
    /// Eight bits for each of alpha, red, green and blue.
    ARGB_8888,
}

/// Shift of the image for each rotation, for screens with off-screen
/// pixels in some rotations.
#[derive(Clone, Copy)]
pub struct RotationOffsets {
    pub normal: (usize, usize),
    pub rotated90: (usize, usize),
    pub rotated180: (usize, usize),
    pub rotated270: (usize, usize),
}

/// The offset that applies under a rotation.
pub open spec fn offset_for(offsets: RotationOffsets, rotation: ScreenRotation) -> (usize, usize) {
    match rotation {
        ScreenRotation::Normal => offsets.normal,
        ScreenRotation::Rotated90 => offsets.rotated90,
        ScreenRotation::Rotated180 => offsets.rotated180,
        ScreenRotation::Rotated270 => offsets.rotated270,
    }
}

impl RotationOffsets {
    /// The offset that applies under `rotation`.
    pub fn offset(&self, rotation: ScreenRotation) -> (r: (usize, usize))
        ensures
            r == offset_for(*self, rotation),
    {
        match rotation {
            ScreenRotation::Normal => self.normal,
            ScreenRotation::Rotated90 => self.rotated90,
            ScreenRotation::Rotated180 => self.rotated180,
            ScreenRotation::Rotated270 => self.rotated270,
        }
    }
}

/// A screen model: how to initialize it, its size before rotation, whether
/// its colors are inverted, and the image offset for each rotation.
#[derive(Clone, Copy)]
pub struct ST77XXScreen {
    pub init_sequence: &'static [SendCommand],
    pub default_width: usize,
    pub default_height: usize,
    pub inverted: bool,
    pub offsets: RotationOffsets,
}

/// The command `nop` builds.
pub open spec fn spec_nop() -> PanelCommand {
    PanelCommand { id: 0x00, parameters: None, delay: 0 }
}

/// No operation.
#[verifier::when_used_as_spec(spec_nop)]
pub fn nop() -> (c: PanelCommand)
    ensures
        c == spec_nop(),
{
    PanelCommand { id: 0x00, parameters: None, delay: 0 }
}

/// The command `sw_reset` builds.
pub open spec fn spec_sw_reset() -> PanelCommand {
    PanelCommand { id: 0x01, parameters: None, delay: 150 }
}

/// Software reset.
#[verifier::when_used_as_spec(spec_sw_reset)]
pub fn sw_reset() -> (c: PanelCommand)
    ensures
        c == spec_sw_reset(),
{
    PanelCommand { id: 0x01, parameters: None, delay: 150 }
}

/// The command `sleep_in` builds.
pub open spec fn spec_sleep_in() -> PanelCommand {
    PanelCommand { id: 0x10, parameters: None, delay: 10 }
}

/// Enter sleep mode.
#[verifier::when_used_as_spec(spec_sleep_in)]
pub fn sleep_in() -> (c: PanelCommand)
    ensures
        c == spec_sleep_in(),
{
    PanelCommand { id: 0x10, parameters: None, delay: 10 }
}

/// The command `sleep_out` builds.
pub open spec fn spec_sleep_out() -> PanelCommand {
    PanelCommand { id: 0x11, parameters: None, delay: 255 }
}

/// Leave sleep mode.
#[verifier::when_used_as_spec(spec_sleep_out)]
pub fn sleep_out() -> (c: PanelCommand)
    ensures
        c == spec_sleep_out(),
{
    PanelCommand { id: 0x11, parameters: None, delay: 255 }
}

/// The command `invoff` builds.
pub open spec fn spec_invoff() -> PanelCommand {
    PanelCommand { id: 0x20, parameters: None, delay: 0 }
}

/// Display inversion off.
#[verifier::when_used_as_spec(spec_invoff)]
pub fn invoff() -> (c: PanelCommand)
    ensures
        c == spec_invoff(),
{
    PanelCommand { id: 0x20, parameters: None, delay: 0 }
}

/// The command `invon` builds.
pub open spec fn spec_invon() -> PanelCommand {
    PanelCommand { id: 0x21, parameters: None, delay: 120 }
}

/// Display inversion on.
#[verifier::when_used_as_spec(spec_invon)]
pub fn invon() -> (c: PanelCommand)
    ensures
        c == spec_invon(),
{
    PanelCommand { id: 0x21, parameters: None, delay: 120 }
}

/// The command `display_off` builds.
pub open spec fn spec_display_off() -> PanelCommand {
    PanelCommand { id: 0x28, parameters: None, delay: 100 }
}

/// Display off.
#[verifier::when_used_as_spec(spec_display_off)]
pub fn display_off() -> (c: PanelCommand)
    ensures
        c == spec_display_off(),
{
    PanelCommand { id: 0x28, parameters: None, delay: 100 }
}

/// The command `display_on` builds.
pub open spec fn spec_display_on() -> PanelCommand {
    PanelCommand { id: 0x29, parameters: None, delay: 100 }
}

/// Display on.
#[verifier::when_used_as_spec(spec_display_on)]
pub fn display_on() -> (c: PanelCommand)
    ensures
        c == spec_display_on(),
{
    PanelCommand { id: 0x29, parameters: None, delay: 100 }
}

/// Memory write; its parameters are the pixel data.
pub fn write_ram() -> (c: PanelCommand)
    ensures
        c.id == 0x2c,
        c.delay == 0,
        c.parameters matches Some(p) && p@.len() == 0,
{
    PanelCommand { id: 0x2c, parameters: Some(&[]), delay: 0 }
}

/// Memory data access control (orientation); default parameter 0x00.
pub fn madctl() -> (c: PanelCommand)
    ensures
        c.id == 0x36,
        c.delay == 0,
        c.parameters matches Some(p) && p@ == seq![0x00u8],
{
    PanelCommand { id: 0x36, parameters: Some(&[0x00]), delay: 0 }
}

/// The entries of the ST7735 init sequence: identifier, default parameters
/// and delay of each command.
pub open spec fn st7735_init_entries() -> Seq<Option<(u8, Seq<u8>, u8)>> {
    seq![
        Some((0x01u8, Seq::empty(), 150u8)),
        Some((0x11u8, Seq::empty(), 255u8)),
        Some((0xb1u8, seq![0x01u8, 0x2c, 0x2d], 0u8)),
        Some((0xb2u8, seq![0x01u8, 0x2c, 0x2d], 0u8)),
        Some((0xb3u8, seq![0x01u8, 0x2c, 0x2d, 0x01, 0x2c, 0x2d], 0u8)),
        Some((0xb4u8, seq![0x07u8], 0u8)),
        Some((0xc0u8, seq![0xa2u8, 0x02, 0x84], 0u8)),
        Some((0xc1u8, seq![0xc5u8], 0u8)),
        Some((0xc2u8, seq![0x0au8, 0x00], 0u8)),
        Some((0xc3u8, seq![0x8au8, 0x2a], 0u8)),
        Some((0xc4u8, seq![0x8au8, 0xee], 0u8)),
        Some((0xc5u8, seq![0x0eu8], 0u8)),
        Some((0x20u8, Seq::empty(), 0u8)),
        Some((0x36u8, seq![0x00u8], 0u8)),
        Some((0x3au8, seq![0x05u8], 0u8)),
        Some((0x2au8, seq![0x00u8, 0x00, 0x00, 0x00], 0u8)),
        Some((0x2bu8, seq![0x00u8, 0x00, 0x00, 0x00], 0u8)),
        Some((0xe0u8, seq![0x02u8, 0x1c, 0x07, 0x12, 0x37, 0x32, 0x29, 0x2d, 0x29, 0x25, 0x2b, 0x39, 0x00, 0x01, 0x03, 0x10], 0u8)),
        Some((0xe1u8, seq![0x03u8, 0x1d, 0x07, 0x06, 0x2e, 0x2c, 0x29, 0x2d, 0x2e, 0x2e, 0x37, 0x3f, 0x00, 0x00, 0x02, 0x10], 0u8)),
        Some((0x13u8, Seq::empty(), 10u8)),
    ]
}

/// The ST7735: 128 x 160, colors not inverted, no offsets.
pub fn st7735() -> (s: ST77XXScreen)
    ensures
        s.default_width == 128,
        s.default_height == 160,
        s.inverted == false,
        s.offsets.normal == (0usize, 0usize),
        s.offsets.rotated90 == (0usize, 0usize),
        s.offsets.rotated180 == (0usize, 0usize),
        s.offsets.rotated270 == (0usize, 0usize),
        s.init_sequence@.len() == 20,
        s.init_sequence@.map_values(|c: SendCommand| default_entry(c)) == st7735_init_entries(),
{
    let init_sequence: &'static [SendCommand] = &[
            SendCommand::Default(PanelCommand { id: 0x01, parameters: None, delay: 150 }),
            SendCommand::Default(PanelCommand { id: 0x11, parameters: None, delay: 255 }),
            SendCommand::Default(PanelCommand { id: 0xb1, parameters: Some(&[0x01, 0x2c, 0x2d]), delay: 0 }),
            SendCommand::Default(PanelCommand { id: 0xb2, parameters: Some(&[0x01, 0x2c, 0x2d]), delay: 0 }),
            SendCommand::Default(PanelCommand { id: 0xb3, parameters: Some(&[0x01, 0x2c, 0x2d, 0x01, 0x2c, 0x2d]), delay: 0 }),
            SendCommand::Default(PanelCommand { id: 0xb4, parameters: Some(&[0x07]), delay: 0 }),
            SendCommand::Default(PanelCommand { id: 0xc0, parameters: Some(&[0xa2, 0x02, 0x84]), delay: 0 }),
            SendCommand::Default(PanelCommand { id: 0xc1, parameters: Some(&[0xc5]), delay: 0 }),
            SendCommand::Default(PanelCommand { id: 0xc2, parameters: Some(&[0x0a, 0x00]), delay: 0 }),
            SendCommand::Default(PanelCommand { id: 0xc3, parameters: Some(&[0x8a, 0x2a]), delay: 0 }),
            SendCommand::Default(PanelCommand { id: 0xc4, parameters: Some(&[0x8a, 0xee]), delay: 0 }),
            SendCommand::Default(PanelCommand { id: 0xc5, parameters: Some(&[0x0e]), delay: 0 }),
            SendCommand::Default(PanelCommand { id: 0x20, parameters: None, delay: 0 }),
            SendCommand::Default(PanelCommand { id: 0x36, parameters: Some(&[0x00]), delay: 0 }),
            SendCommand::Default(PanelCommand { id: 0x3a, parameters: Some(&[0x05]), delay: 0 }),
            SendCommand::Default(PanelCommand { id: 0x2a, parameters: Some(&[0x00, 0x00, 0x00, 0x00]), delay: 0 }),
            SendCommand::Default(PanelCommand { id: 0x2b, parameters: Some(&[0x00, 0x00, 0x00, 0x00]), delay: 0 }),
            SendCommand::Default(PanelCommand { id: 0xe0, parameters: Some(&[0x02, 0x1c, 0x07, 0x12, 0x37, 0x32, 0x29, 0x2d, 0x29, 0x25, 0x2b, 0x39, 0x00, 0x01, 0x03, 0x10]), delay: 0 }),
            SendCommand::Default(PanelCommand { id: 0xe1, parameters: Some(&[0x03, 0x1d, 0x07, 0x06, 0x2e, 0x2c, 0x29, 0x2d, 0x2e, 0x2e, 0x37, 0x3f, 0x00, 0x00, 0x02, 0x10]), delay: 0 }),
            SendCommand::Default(PanelCommand { id: 0x13, parameters: None, delay: 10 }),
        ];
    let s = ST77XXScreen {
        init_sequence,
        default_width: 128,
        default_height: 160,
        inverted: false,
        offsets: RotationOffsets {
            normal: (0, 0),
            rotated90: (0, 0),
            rotated180: (0, 0),
            rotated270: (0, 0),
        },
    };
    assert(s.init_sequence@.map_values(|c: SendCommand| default_entry(c)) =~~= st7735_init_entries());
    s
}

/// The entries of the ST7789H2 init sequence: identifier, default parameters
/// and delay of each command.
pub open spec fn st7789h2_init_entries() -> Seq<Option<(u8, Seq<u8>, u8)>> {
    seq![
        Some((0x10u8, Seq::empty(), 10u8)),
        Some((0x01u8, Seq::empty(), 150u8)),
        Some((0x11u8, Seq::empty(), 255u8)),
        Some((0x13u8, Seq::empty(), 10u8)),
        Some((0x3au8, seq![0x05u8], 0u8)),
        Some((0x21u8, Seq::empty(), 120u8)),
        Some((0x2au8, seq![0x00u8, 0x00, 0x00, 0x00], 0u8)),
        Some((0x2bu8, seq![0x00u8, 0x00, 0x00, 0x00], 0u8)),
        Some((0xb2u8, seq![0x0cu8, 0x0c, 0x00, 0x33, 0x33], 0u8)),
        Some((0xb7u8, seq![0x35u8], 0u8)),
        Some((0xbbu8, seq![0x1fu8], 0u8)),
        Some((0xc0u8, seq![0x2cu8], 0u8)),
        Some((0xc2u8, seq![0x01u8, 0xc3], 0u8)),
        Some((0xc4u8, seq![0x20u8], 0u8)),
        Some((0xc6u8, seq![0x0fu8], 0u8)),
        Some((0xd0u8, seq![0xa4u8, 0xa1], 0u8)),
        Some((0xe0u8, seq![0xd0u8, 0x08, 0x11, 0x08, 0x0c, 0x15, 0x39, 0x33, 0x50, 0x36, 0x13, 0x14, 0x29, 0x2d], 0u8)),
        Some((0xe1u8, seq![0xd0u8, 0x08, 0x10, 0x08, 0x06, 0x06, 0x39, 0x44, 0x51, 0x0b, 0x16, 0x14, 0x2f, 0x31], 0u8)),
        Some((0x36u8, seq![0x00u8], 0u8)),
        Some((0x29u8, Seq::empty(), 100u8)),
        Some((0x11u8, Seq::empty(), 255u8)),
        Some((0x35u8, seq![0x00u8], 0u8)),
    ]
}

/// The ST7789H2: 240 x 240, colors inverted, shifted by 80 rows when
/// rotated by 180 degrees and by 80 columns when rotated by 270 degrees.
pub fn st7789h2() -> (s: ST77XXScreen)
    ensures
        s.default_width == 240,
        s.default_height == 240,
        s.inverted == true,
        s.offsets.normal == (0usize, 0usize),
        s.offsets.rotated90 == (0usize, 0usize),
        s.offsets.rotated180 == (0usize, 80usize),
        s.offsets.rotated270 == (80usize, 0usize),
        s.init_sequence@.len() == 22,
        s.init_sequence@.map_values(|c: SendCommand| default_entry(c)) == st7789h2_init_entries(),
{
    let init_sequence: &'static [SendCommand] = &[
            SendCommand::Default(PanelCommand { id: 0x10, parameters: None, delay: 10 }),
            SendCommand::Default(PanelCommand { id: 0x01, parameters: None, delay: 150 }),
            SendCommand::Default(PanelCommand { id: 0x11, parameters: None, delay: 255 }),
            SendCommand::Default(PanelCommand { id: 0x13, parameters: None, delay: 10 }),
            SendCommand::Default(PanelCommand { id: 0x3a, parameters: Some(&[0x05]), delay: 0 }),
            SendCommand::Default(PanelCommand { id: 0x21, parameters: None, delay: 120 }),
            SendCommand::Default(PanelCommand { id: 0x2a, parameters: Some(&[0x00, 0x00, 0x00, 0x00]), delay: 0 }),
            SendCommand::Default(PanelCommand { id: 0x2b, parameters: Some(&[0x00, 0x00, 0x00, 0x00]), delay: 0 }),
            SendCommand::Default(PanelCommand { id: 0xb2, parameters: Some(&[0x0c, 0x0c, 0x00, 0x33, 0x33]), delay: 0 }),
            SendCommand::Default(PanelCommand { id: 0xb7, parameters: Some(&[0x35]), delay: 0 }),
            SendCommand::Default(PanelCommand { id: 0xbb, parameters: Some(&[0x1f]), delay: 0 }),
            SendCommand::Default(PanelCommand { id: 0xc0, parameters: Some(&[0x2c]), delay: 0 }),
            SendCommand::Default(PanelCommand { id: 0xc2, parameters: Some(&[0x01, 0xc3]), delay: 0 }),
            SendCommand::Default(PanelCommand { id: 0xc4, parameters: Some(&[0x20]), delay: 0 }),
            SendCommand::Default(PanelCommand { id: 0xc6, parameters: Some(&[0x0f]), delay: 0 }),
            SendCommand::Default(PanelCommand { id: 0xd0, parameters: Some(&[0xa4, 0xa1]), delay: 0 }),
            SendCommand::Default(PanelCommand { id: 0xe0, parameters: Some(&[0xd0, 0x08, 0x11, 0x08, 0x0c, 0x15, 0x39, 0x33, 0x50, 0x36, 0x13, 0x14, 0x29, 0x2d]), delay: 0 }),
            SendCommand::Default(PanelCommand { id: 0xe1, parameters: Some(&[0xd0, 0x08, 0x10, 0x08, 0x06, 0x06, 0x39, 0x44, 0x51, 0x0b, 0x16, 0x14, 0x2f, 0x31]), delay: 0 }),
            SendCommand::Default(PanelCommand { id: 0x36, parameters: Some(&[0x00]), delay: 0 }),
            SendCommand::Default(PanelCommand { id: 0x29, parameters: None, delay: 100 }),
            SendCommand::Default(PanelCommand { id: 0x11, parameters: None, delay: 255 }),
            SendCommand::Default(PanelCommand { id: 0x35, parameters: Some(&[0x00]), delay: 0 }),
        ];
    let s = ST77XXScreen {
        init_sequence,
        default_width: 240,
        default_height: 240,
        inverted: true,
        offsets: RotationOffsets {
            normal: (0, 0),
            rotated90: (0, 0),
            rotated180: (0, 80),
            rotated270: (80, 0),
        },
    };
    assert(s.init_sequence@.map_values(|c: SendCommand| default_entry(c)) =~~= st7789h2_init_entries());
    s
}

/// The entries of the LS016B8UY init sequence: identifier, default parameters
/// and delay of each command.
pub open spec fn ls016b8uy_init_entries() -> Seq<Option<(u8, Seq<u8>, u8)>> {
    seq![
        Some((0x35u8, seq![0x00u8], 0u8)),
        Some((0x3au8, seq![0x05u8], 0u8)),
        Some((0xb0u8, seq![0x01u8, 0xfe], 0u8)),
        Some((0xb1u8, seq![0xdeu8, 0x21], 0u8)),
        Some((0xb7u8, seq![0x05u8, 0x33], 0u8)),
        Some((0xb8u8, seq![0x05u8, 0x33], 0u8)),
        Some((0xc8u8, seq![0x04u8, 0x03], 0u8)),
        Some((0xc9u8, seq![0x5eu8, 0x08], 0u8)),
        Some((0xcau8, seq![0x0au8, 0x0c, 0x02], 0u8)),
        Some((0xccu8, seq![0x03u8, 0x04], 0u8)),
        Some((0xd0u8, seq![0x0cu8], 0u8)),
        Some((0xb3u8, seq![0x02u8], 0u8)),
        Some((0xc0u8, seq![0x53u8], 0u8)),
        Some((0xc5u8, seq![0x00u8, 0x45], 0u8)),
        Some((0xc2u8, seq![0x03u8, 0x12], 0u8)),
        Some((0xddu8, seq![0x00u8], 0u8)),
        Some((0xb4u8, Seq::empty(), 0u8)),
        Some((0x11u8, Seq::empty(), 255u8)),
        Some((0x36u8, seq![0x83u8], 0u8)),
        Some((0x2au8, seq![0x00u8, 0x00, 0x00, 0x00], 0u8)),
        Some((0x2bu8, seq![0x00u8, 0x00, 0x00, 0x00], 0u8)),
        Some((0x29u8, Seq::empty(), 100u8)),
        Some((0x38u8, Seq::empty(), 20u8)),
    ]
}

/// The LS016B8UY: 240 x 240, colors not inverted, no offsets.
pub fn ls016b8uy() -> (s: ST77XXScreen)
    ensures
        s.default_width == 240,
        s.default_height == 240,
        s.inverted == false,
        s.offsets.normal == (0usize, 0usize),
        s.offsets.rotated90 == (0usize, 0usize),
        s.offsets.rotated180 == (0usize, 0usize),
        s.offsets.rotated270 == (0usize, 0usize),
        s.init_sequence@.len() == 23,
        s.init_sequence@.map_values(|c: SendCommand| default_entry(c)) == ls016b8uy_init_entries(),
{
    let init_sequence: &'static [SendCommand] = &[
            SendCommand::Default(PanelCommand { id: 0x35, parameters: Some(&[0x00]), delay: 0 }),
            SendCommand::Default(PanelCommand { id: 0x3a, parameters: Some(&[0x05]), delay: 0 }),
            SendCommand::Default(PanelCommand { id: 0xb0, parameters: Some(&[0x01, 0xfe]), delay: 0 }),
            SendCommand::Default(PanelCommand { id: 0xb1, parameters: Some(&[0xde, 0x21]), delay: 0 }),
            SendCommand::Default(PanelCommand { id: 0xb7, parameters: Some(&[0x05, 0x33]), delay: 0 }),
            SendCommand::Default(PanelCommand { id: 0xb8, parameters: Some(&[0x05, 0x33]), delay: 0 }),
            SendCommand::Default(PanelCommand { id: 0xc8, parameters: Some(&[0x04, 0x03]), delay: 0 }),
            SendCommand::Default(PanelCommand { id: 0xc9, parameters: Some(&[0x5e, 0x08]), delay: 0 }),
            SendCommand::Default(PanelCommand { id: 0xca, parameters: Some(&[0x0a, 0x0c, 0x02]), delay: 0 }),
            SendCommand::Default(PanelCommand { id: 0xcc, parameters: Some(&[0x03, 0x04]), delay: 0 }),
            SendCommand::Default(PanelCommand { id: 0xd0, parameters: Some(&[0x0c]), delay: 0 }),
            SendCommand::Default(PanelCommand { id: 0xb3, parameters: Some(&[0x02]), delay: 0 }),
            SendCommand::Default(PanelCommand { id: 0xc0, parameters: Some(&[0x53]), delay: 0 }),
            SendCommand::Default(PanelCommand { id: 0xc5, parameters: Some(&[0x00, 0x45]), delay: 0 }),
            SendCommand::Default(PanelCommand { id: 0xc2, parameters: Some(&[0x03, 0x12]), delay: 0 }),
            SendCommand::Default(PanelCommand { id: 0xdd, parameters: Some(&[0x00]), delay: 0 }),
            SendCommand::Default(PanelCommand { id: 0xb4, parameters: None, delay: 0 }),
            SendCommand::Default(PanelCommand { id: 0x11, parameters: None, delay: 255 }),
            SendCommand::Default(PanelCommand { id: 0x36, parameters: Some(&[0x83]), delay: 0 }),
            SendCommand::Default(PanelCommand { id: 0x2a, parameters: Some(&[0x00, 0x00, 0x00, 0x00]), delay: 0 }),
            SendCommand::Default(PanelCommand { id: 0x2b, parameters: Some(&[0x00, 0x00, 0x00, 0x00]), delay: 0 }),
            SendCommand::Default(PanelCommand { id: 0x29, parameters: None, delay: 100 }),
            SendCommand::Default(PanelCommand { id: 0x38, parameters: None, delay: 20 }),
        ];
    let s = ST77XXScreen {
        init_sequence,
        default_width: 240,
        default_height: 240,
        inverted: false,
        offsets: RotationOffsets {
            normal: (0, 0),
            rotated90: (0, 0),
            rotated180: (0, 0),
            rotated270: (0, 0),
        },
    };
    assert(s.init_sequence@.map_values(|c: SendCommand| default_entry(c)) =~~= ls016b8uy_init_entries());
    s
}

} // verus!
