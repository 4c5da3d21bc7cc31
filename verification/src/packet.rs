//! The 38-byte LED feature report.

use vstd::prelude::*;
use crate::color::{color_byte, color_to_byte, BoardType, Color};

verus! {

/// Length of an LED feature report.
pub const PACKET_LEN: usize = 38;

/// First byte of every LED feature report.
pub const PACKET_MARKER: u8 = 0x02;

/// Last byte of every LED feature report.
pub const PACKET_TERMINATOR: u8 = 0xf0;

/// Offset of the color byte of LED number 0.
pub const COLOR_OFFSET: usize = 4;

/// The command id of an LED: each board numbers its LEDs from its own base.
pub open spec fn command_id(board_type: BoardType, led_number: u8) -> int {
    match board_type {
        BoardType::Default => 0,
        BoardType::AddBoard => led_number as int,
        BoardType::OnBoard => led_number + 4,
        BoardType::SlaveBoard => led_number + 24,
    }
}

/// The bytes of the report that sets one LED of a board to a color. The
/// terminator stands in the last byte whatever the LED number is.
pub open spec fn led_packet(board_type: BoardType, led_number: u8, color: Color) -> Seq<u8> {
    Seq::new(
        PACKET_LEN as nat,
        |i: int|
            if i == 0 {
                PACKET_MARKER
            } else if i == 1 {
                board_type.protocol_value()
            } else if i == 2 {
                command_id(board_type, led_number) as u8
            } else if i == PACKET_LEN - 1 {
                PACKET_TERMINATOR
            } else if i == led_number + COLOR_OFFSET {
                color_byte(color)
            } else {
                0u8
            },
    )
}

/// Computes the command id of an LED from its board and its number.
pub fn command_id_for_command(board_type: BoardType, led_number: u8) -> (id: u8)
    requires
        command_id(board_type, led_number) <= u8::MAX,
    ensures
        id == command_id(board_type, led_number),
{
    match board_type {
        BoardType::Default => 0,
        BoardType::AddBoard => led_number,
        BoardType::OnBoard => led_number + 4,
        BoardType::SlaveBoard => led_number + 24,
    }
}

/// Builds the feature report that sets one LED of a board to a color.
pub fn packet_for_command(board_type: BoardType, led_number: u8, color: Color) -> (out: [u8; 38])
    requires
        led_number + COLOR_OFFSET < PACKET_LEN,
    ensures
        out@ == led_packet(board_type, led_number, color),
{
    let mut out = [0u8; 38];
    out[0] = PACKET_MARKER;
    out[1] = board_type.protocol_byte();
    out[2] = command_id_for_command(board_type, led_number);
    out[led_number as usize + COLOR_OFFSET] = color_to_byte(color);
    out[PACKET_LEN - 1] = PACKET_TERMINATOR;
    assert(out@ =~= led_packet(board_type, led_number, color));
    out
}

/// For an LED number that has a color byte of its own, the report reads:
/// marker, board, command id, zeros up to the color byte, the color byte,
/// zeros up to the last byte, terminator.
pub proof fn lemma_led_packet_layout(board_type: BoardType, led_number: u8, color: Color)
    requires
        led_number + COLOR_OFFSET < PACKET_LEN - 1,
    ensures
        led_packet(board_type, led_number, color) == seq![
            PACKET_MARKER,
            board_type.protocol_value(),
            command_id(board_type, led_number) as u8,
        ] + Seq::new((led_number + 1) as nat, |i: int| 0u8) + seq![color_byte(color)] + Seq::new(
            (32 - led_number) as nat,
            |i: int| 0u8,
        ) + seq![PACKET_TERMINATOR],
{
    let layout = seq![
        PACKET_MARKER,
        board_type.protocol_value(),
        command_id(board_type, led_number) as u8,
    ] + Seq::new((led_number + 1) as nat, |i: int| 0u8) + seq![color_byte(color)] + Seq::new(
        (32 - led_number) as nat,
        |i: int| 0u8,
    ) + seq![PACKET_TERMINATOR];
    assert(layout =~= led_packet(board_type, led_number, color));
}

} // verus!
