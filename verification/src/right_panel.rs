//! The right control panel: its LEDs, buttons and axes.

use vstd::prelude::*;
use crate::color::BoardType;
use crate::description::{
    LedList, ToAxisIndex, ToBoardAndLedNumber, ToButtonIndex, VirpilDeviceDescription,
};

verus! {

/// The right control panel.
#[derive(Debug, Copy, Clone)]
pub struct RightPanel;

impl VirpilDeviceDescription for RightPanel {
    type Led = RightPanelLed;

    type Buttons = RightPanelButtons;

    type Axis = RightPanelAxis;

    const PID: u16 = 0x0259;
}

/// The LEDs of the right control panel.
#[derive(Debug, Copy, Clone, PartialEq, Eq, Hash, Structural)]
pub enum RightPanelLed {
    B1,
    B2,
    B3,
    B4,
    B5,
    B6,
    B7,
    B8,
    B9,
    B10,
    B11,
    B12,
}

impl ToBoardAndLedNumber for RightPanelLed {
    open spec fn board_and_led(&self) -> (BoardType, u8) {
        (
            BoardType::OnBoard,
            match self {
                RightPanelLed::B1 => 12u8,
                RightPanelLed::B2 => 9u8,
                RightPanelLed::B3 => 11u8,
                RightPanelLed::B4 => 8u8,
                RightPanelLed::B5 => 10u8,
                RightPanelLed::B6 => 7u8,
                RightPanelLed::B7 => 4u8,
                RightPanelLed::B8 => 5u8,
                RightPanelLed::B9 => 6u8,
                RightPanelLed::B10 => 1u8,
                RightPanelLed::B11 => 2u8,
                RightPanelLed::B12 => 3u8,
            },
        )
    }

    fn to_board_and_led_number(&self) -> (BoardType, u8) {
        let number: u8 = match self {
            RightPanelLed::B1 => 12,
            RightPanelLed::B2 => 9,
            RightPanelLed::B3 => 11,
            RightPanelLed::B4 => 8,
            RightPanelLed::B5 => 10,
            RightPanelLed::B6 => 7,
            RightPanelLed::B7 => 4,
            RightPanelLed::B8 => 5,
            RightPanelLed::B9 => 6,
            RightPanelLed::B10 => 1,
            RightPanelLed::B11 => 2,
            RightPanelLed::B12 => 3,
        };
        (BoardType::OnBoard, number)
    }
}

impl LedList for RightPanelLed {
    open spec fn led_count() -> nat {
        12
    }

    open spec fn led_at(position: usize) -> Self {
        match position {
            0 => RightPanelLed::B1,
            1 => RightPanelLed::B2,
            2 => RightPanelLed::B3,
            3 => RightPanelLed::B4,
            4 => RightPanelLed::B5,
            5 => RightPanelLed::B6,
            6 => RightPanelLed::B7,
            7 => RightPanelLed::B8,
            8 => RightPanelLed::B9,
            9 => RightPanelLed::B10,
            10 => RightPanelLed::B11,
            _ => RightPanelLed::B12,
        }
    }

    open spec fn position_of(&self) -> nat {
        match self {
            RightPanelLed::B1 => 0nat,
            RightPanelLed::B2 => 1nat,
            RightPanelLed::B3 => 2nat,
            RightPanelLed::B4 => 3nat,
            RightPanelLed::B5 => 4nat,
            RightPanelLed::B6 => 5nat,
            RightPanelLed::B7 => 6nat,
            RightPanelLed::B8 => 7nat,
            RightPanelLed::B9 => 8nat,
            RightPanelLed::B10 => 9nat,
            RightPanelLed::B11 => 10nat,
            RightPanelLed::B12 => 11nat,
        }
    }

    fn count() -> usize {
        12
    }

    fn nth(position: usize) -> Self {
        match position {
            0 => RightPanelLed::B1,
            1 => RightPanelLed::B2,
            2 => RightPanelLed::B3,
            3 => RightPanelLed::B4,
            4 => RightPanelLed::B5,
            5 => RightPanelLed::B6,
            6 => RightPanelLed::B7,
            7 => RightPanelLed::B8,
            8 => RightPanelLed::B9,
            9 => RightPanelLed::B10,
            10 => RightPanelLed::B11,
            _ => RightPanelLed::B12,
        }
    }

    fn position(&self) -> usize {
        match self {
            RightPanelLed::B1 => 0,
            RightPanelLed::B2 => 1,
            RightPanelLed::B3 => 2,
            RightPanelLed::B4 => 3,
            RightPanelLed::B5 => 4,
            RightPanelLed::B6 => 5,
            RightPanelLed::B7 => 6,
            RightPanelLed::B8 => 7,
            RightPanelLed::B9 => 8,
            RightPanelLed::B10 => 9,
            RightPanelLed::B11 => 10,
            RightPanelLed::B12 => 11,
        }
    }
}

/// The buttons of the right control panel.
#[derive(Debug, Copy, Clone, PartialEq, Eq, Hash, Structural)]
pub enum RightPanelButtons {
    B1,
    B2,
    B3,
    B4,
    B5,
    B6,
    B7,
    B8,
    B9,
    B10,
    B11,
    B12,
    T1Guard,
    T1,
    T2Guard,
    T2,
    T3Left,
    T3Right,
    T4Left,
    T4Right,
    T5Down,
    T5Up,
    T6Down,
    T6Up,
    T7Down,
    T7Up,
    T8Down,
    T8Up,
    T9Down,
    T9Up,
    T10Down,
    T10Up,
    E1Press,
    E1CounterClockwise,
    E1Clockwise,
    E2Press,
    E2CounterClockwise,
    E2Clockwise,
    E3Press,
    E3CounterClockwise,
    E3Clockwise,
    A1Left,
    A1Middle,
    A1Right,
    A2Left,
    A2Middle,
    A2Right,
}

impl ToButtonIndex for RightPanelButtons {
    open spec fn button_count() -> nat {
        47
    }

    open spec fn button_index(&self) -> u8 {
        match self {
            RightPanelButtons::B1 => 0u8,
            RightPanelButtons::B2 => 1u8,
            RightPanelButtons::B3 => 2u8,
            RightPanelButtons::B4 => 3u8,
            RightPanelButtons::B5 => 4u8,
            RightPanelButtons::B6 => 5u8,
            RightPanelButtons::B7 => 6u8,
            RightPanelButtons::B8 => 7u8,
            RightPanelButtons::B9 => 8u8,
            RightPanelButtons::B10 => 9u8,
            RightPanelButtons::B11 => 10u8,
            RightPanelButtons::B12 => 11u8,
            RightPanelButtons::T1Guard => 12u8,
            RightPanelButtons::T1 => 13u8,
            RightPanelButtons::T2Guard => 14u8,
            RightPanelButtons::T2 => 15u8,
            RightPanelButtons::T3Left => 16u8,
            RightPanelButtons::T3Right => 17u8,
            RightPanelButtons::T4Left => 18u8,
            RightPanelButtons::T4Right => 19u8,
            RightPanelButtons::T5Down => 20u8,
            RightPanelButtons::T5Up => 21u8,
            RightPanelButtons::T6Down => 22u8,
            RightPanelButtons::T6Up => 23u8,
            RightPanelButtons::T7Down => 24u8,
            RightPanelButtons::T7Up => 25u8,
            RightPanelButtons::T8Down => 26u8,
            RightPanelButtons::T8Up => 27u8,
            RightPanelButtons::T9Down => 28u8,
            RightPanelButtons::T9Up => 29u8,
            RightPanelButtons::T10Down => 30u8,
            RightPanelButtons::T10Up => 31u8,
            RightPanelButtons::E1Press => 32u8,
            RightPanelButtons::E1CounterClockwise => 33u8,
            RightPanelButtons::E1Clockwise => 34u8,
            RightPanelButtons::E2Press => 35u8,
            RightPanelButtons::E2CounterClockwise => 36u8,
            RightPanelButtons::E2Clockwise => 37u8,
            RightPanelButtons::E3Press => 38u8,
            RightPanelButtons::E3CounterClockwise => 39u8,
            RightPanelButtons::E3Clockwise => 40u8,
            RightPanelButtons::A1Left => 41u8,
            RightPanelButtons::A1Middle => 42u8,
            RightPanelButtons::A1Right => 43u8,
            RightPanelButtons::A2Left => 44u8,
            RightPanelButtons::A2Middle => 45u8,
            RightPanelButtons::A2Right => 46u8,
        }
    }

    fn count() -> usize {
        47
    }

    fn to_button_index(&self) -> u8 {
        match self {
            RightPanelButtons::B1 => 0,
            RightPanelButtons::B2 => 1,
            RightPanelButtons::B3 => 2,
            RightPanelButtons::B4 => 3,
            RightPanelButtons::B5 => 4,
            RightPanelButtons::B6 => 5,
            RightPanelButtons::B7 => 6,
            RightPanelButtons::B8 => 7,
            RightPanelButtons::B9 => 8,
            RightPanelButtons::B10 => 9,
            RightPanelButtons::B11 => 10,
            RightPanelButtons::B12 => 11,
            RightPanelButtons::T1Guard => 12,
            RightPanelButtons::T1 => 13,
            RightPanelButtons::T2Guard => 14,
            RightPanelButtons::T2 => 15,
            RightPanelButtons::T3Left => 16,
            RightPanelButtons::T3Right => 17,
            RightPanelButtons::T4Left => 18,
            RightPanelButtons::T4Right => 19,
            RightPanelButtons::T5Down => 20,
            RightPanelButtons::T5Up => 21,
            RightPanelButtons::T6Down => 22,
            RightPanelButtons::T6Up => 23,
            RightPanelButtons::T7Down => 24,
            RightPanelButtons::T7Up => 25,
            RightPanelButtons::T8Down => 26,
            RightPanelButtons::T8Up => 27,
            RightPanelButtons::T9Down => 28,
            RightPanelButtons::T9Up => 29,
            RightPanelButtons::T10Down => 30,
            RightPanelButtons::T10Up => 31,
            RightPanelButtons::E1Press => 32,
            RightPanelButtons::E1CounterClockwise => 33,
            RightPanelButtons::E1Clockwise => 34,
            RightPanelButtons::E2Press => 35,
            RightPanelButtons::E2CounterClockwise => 36,
            RightPanelButtons::E2Clockwise => 37,
            RightPanelButtons::E3Press => 38,
            RightPanelButtons::E3CounterClockwise => 39,
            RightPanelButtons::E3Clockwise => 40,
            RightPanelButtons::A1Left => 41,
            RightPanelButtons::A1Middle => 42,
            RightPanelButtons::A1Right => 43,
            RightPanelButtons::A2Left => 44,
            RightPanelButtons::A2Middle => 45,
            RightPanelButtons::A2Right => 46,
        }
    }
}

/// The axes of the right control panel.
#[derive(Debug, Copy, Clone, PartialEq, Eq, Hash, Structural)]
pub enum RightPanelAxis {
    A1,
    A2,
}

impl ToAxisIndex for RightPanelAxis {
    open spec fn axis_count() -> nat {
        2
    }

    open spec fn axis_index(&self) -> u8 {
        match self {
            RightPanelAxis::A1 => 0u8,
            RightPanelAxis::A2 => 1u8,
        }
    }

    fn count() -> usize {
        2
    }

    fn to_axis_index(&self) -> u8 {
        match self {
            RightPanelAxis::A1 => 0,
            RightPanelAxis::A2 => 1,
        }
    }
}

} // verus!
