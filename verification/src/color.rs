//! Boards, LED intensities and colors, and the one-byte color encoding.

use vstd::prelude::*;

verus! {

/// A logical LED-control region of a device's firmware.
#[derive(Debug, Copy, Clone, PartialEq, Eq, Structural)]
pub enum BoardType {
    Default,
    AddBoard,
    OnBoard,
    SlaveBoard,
}

impl BoardType {
    /// The byte that names this board on the wire.
    pub open spec fn protocol_value(self) -> u8 {
        match self {
            BoardType::Default => 0x64,
            BoardType::AddBoard => 0x65,
            BoardType::OnBoard => 0x66,
            BoardType::SlaveBoard => 0x67,
        }
    }

    /// The byte that names this board on the wire.
    pub fn protocol_byte(self) -> (byte: u8)
        ensures
            byte == self.protocol_value(),
    {
        match self {
            BoardType::Default => 0x64,
            BoardType::AddBoard => 0x65,
            BoardType::OnBoard => 0x66,
            BoardType::SlaveBoard => 0x67,
        }
    }
}

/// A quantized LED intensity, two bits wide.
#[derive(Debug, Copy, Clone, PartialEq, Eq, Structural)]
pub enum LedPower {
    /// Off
    Zero,
    /// Really 25%
    Thirty,
    /// Really 50%
    Sixty,
    /// 100%
    Full,
}

/// Red, green and blue intensity, in that order.
pub type Color = [LedPower; 3];

impl LedPower {
    pub const OFF: Color = [LedPower::Zero, LedPower::Zero, LedPower::Zero];

    pub const FULL_RED: Color = [LedPower::Full, LedPower::Zero, LedPower::Zero];

    pub const FULL_YELLOW: Color = [LedPower::Full, LedPower::Full, LedPower::Zero];

    pub const FULL_GREEN: Color = [LedPower::Zero, LedPower::Full, LedPower::Zero];

    pub const FULL_CYAN: Color = [LedPower::Zero, LedPower::Full, LedPower::Full];

    pub const FULL_BLUE: Color = [LedPower::Zero, LedPower::Zero, LedPower::Full];

    pub const FULL_MAGENTA: Color = [LedPower::Full, LedPower::Zero, LedPower::Full];

    pub const FULL_WHITE: Color = [LedPower::Full, LedPower::Full, LedPower::Full];

    /// The dim red that LEDs are reset to when a device is shut down.
    pub const DEFAULT_RED: Color = [LedPower::Sixty, LedPower::Zero, LedPower::Zero];

    /// Eighteen steps around the hues, from red through green and blue back
    /// towards red.
    pub const COLOR_PROGRESSION: [Color; 18] = [
        LedPower::FULL_RED,
        [LedPower::Full, LedPower::Thirty, LedPower::Zero],
        [LedPower::Full, LedPower::Sixty, LedPower::Zero],
        LedPower::FULL_YELLOW,
        [LedPower::Sixty, LedPower::Full, LedPower::Zero],
        [LedPower::Thirty, LedPower::Full, LedPower::Zero],
        LedPower::FULL_GREEN,
        [LedPower::Zero, LedPower::Full, LedPower::Thirty],
        [LedPower::Zero, LedPower::Full, LedPower::Sixty],
        LedPower::FULL_CYAN,
        [LedPower::Zero, LedPower::Sixty, LedPower::Full],
        [LedPower::Zero, LedPower::Thirty, LedPower::Full],
        LedPower::FULL_BLUE,
        [LedPower::Thirty, LedPower::Zero, LedPower::Full],
        [LedPower::Sixty, LedPower::Zero, LedPower::Full],
        LedPower::FULL_MAGENTA,
        [LedPower::Full, LedPower::Zero, LedPower::Sixty],
        [LedPower::Full, LedPower::Zero, LedPower::Thirty],
    ];

    /// The intensity as a number from 0 to 3.
    pub open spec fn level(self) -> u8 {
        match self {
            LedPower::Zero => 0,
            LedPower::Thirty => 1,
            LedPower::Sixty => 2,
            LedPower::Full => 3,
        }
    }

    /// The intensity as a number from 0 to 3.
    pub fn to_level(self) -> (level: u8)
        ensures
            level == self.level(),
            level <= 3,
    {
        match self {
            LedPower::Zero => 0,
            LedPower::Thirty => 1,
            LedPower::Sixty => 2,
            LedPower::Full => 3,
        }
    }
}

/// The color byte of an LED feature report: bit 7 set, red in bits 0-1,
/// green in bits 2-3, blue in bits 4-5.
pub open spec fn color_byte(color: Color) -> u8 {
    0x80u8 | color[0].level() | (color[1].level() << 2) | (color[2].level() << 4)
}

/// Whether two colors have the same three intensities.
pub fn same_color(a: Color, b: Color) -> (same: bool)
    ensures
        same == (a == b),
{
    let same = a[0] == b[0] && a[1] == b[1] && a[2] == b[2];
    proof {
        if same {
            assert(a =~= b);
        }
    }
    same
}

/// Encodes a color as the byte that the device expects.
pub fn color_to_byte(color: Color) -> (byte: u8)
    ensures
        byte == color_byte(color),
{
    0x80u8 | color[0].to_level() | (color[1].to_level() << 2) | (color[2].to_level() << 4)
}

/// The color byte keeps each intensity in its own two bits and always has
/// bit 7 set; as a number it is `128 + red + 4 * green + 16 * blue`.
pub proof fn lemma_color_byte_fields(color: Color)
    ensures
        color_byte(color) & 0x03 == color[0].level(),
        (color_byte(color) >> 2) & 0x03 == color[1].level(),
        (color_byte(color) >> 4) & 0x03 == color[2].level(),
        color_byte(color) & 0x80 == 0x80,
        color_byte(color) & 0x40 == 0,
        color_byte(color) == 128 + color[0].level() + 4 * color[1].level() + 16
            * color[2].level(),
{
    let r = color[0].level();
    let g = color[1].level();
    let b = color[2].level();
    let byte = 0x80u8 | r | (g << 2) | (b << 4);
    assert(r <= 3 && g <= 3 && b <= 3);
    assert(byte & 0x03 == r) by (bit_vector)
        requires
            byte == 0x80u8 | r | (g << 2) | (b << 4),
            r <= 3 && g <= 3 && b <= 3,
    ;
    assert((byte >> 2) & 0x03 == g) by (bit_vector)
        requires
            byte == 0x80u8 | r | (g << 2) | (b << 4),
            r <= 3 && g <= 3 && b <= 3,
    ;
    assert((byte >> 4) & 0x03 == b) by (bit_vector)
        requires
            byte == 0x80u8 | r | (g << 2) | (b << 4),
            r <= 3 && g <= 3 && b <= 3,
    ;
    assert(byte & 0x80 == 0x80) by (bit_vector)
        requires
            byte == 0x80u8 | r | (g << 2) | (b << 4),
    ;
    assert(byte & 0x40 == 0) by (bit_vector)
        requires
            byte == 0x80u8 | r | (g << 2) | (b << 4),
            r <= 3 && g <= 3 && b <= 3,
    ;
    assert(byte == 128 + r + 4 * g + 16 * b) by (bit_vector)
        requires
            byte == 0x80u8 | r | (g << 2) | (b << 4),
            r <= 3 && g <= 3 && b <= 3,
    ;
}

} // verus!
