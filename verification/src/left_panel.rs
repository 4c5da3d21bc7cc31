//! The left control panel: its LEDs, buttons and axes.

use vstd::prelude::*;
use crate::color::BoardType;
use crate::description::{
    LedList, ToAxisIndex, ToBoardAndLedNumber, ToButtonIndex, VirpilDeviceDescription,
};

verus! {

/// The left control panel.
#[derive(Debug, Copy, Clone)]
pub struct LeftPanel;

impl VirpilDeviceDescription for LeftPanel {
    type Led = LeftPanelLed;

    type Buttons = LeftPanelButtons;

    type Axis = LeftPanelAxis;

    const PID: u16 = 0x025b;
}

/// The LEDs of the left control panel.
#[derive(Debug, Copy, Clone, PartialEq, Eq, Hash, Structural)]
pub enum LeftPanelLed {
    B1,
    B2,
    B3,
    B4,
    B5,
    B6,
    B7,
    B8,
    B9,
    B10,
    Airbrake,
    Warning,
    FlapLeft,
    FlapRight,
    GearLeft,
    GearCenter,
    GearRight,
}

impl ToBoardAndLedNumber for LeftPanelLed {
    open spec fn board_and_led(&self) -> (BoardType, u8) {
        (
            BoardType::OnBoard,
            match self {
                LeftPanelLed::B1 => 2u8,
                LeftPanelLed::B2 => 1u8,
                LeftPanelLed::B3 => 4u8,
                LeftPanelLed::B4 => 3u8,
                LeftPanelLed::B5 => 17u8,
                LeftPanelLed::B6 => 14u8,
                LeftPanelLed::B7 => 16u8,
                LeftPanelLed::B8 => 13u8,
                LeftPanelLed::B9 => 15u8,
                LeftPanelLed::B10 => 12u8,
                LeftPanelLed::Airbrake => 5u8,
                LeftPanelLed::Warning => 6u8,
                LeftPanelLed::FlapLeft => 7u8,
                LeftPanelLed::FlapRight => 11u8,
                LeftPanelLed::GearLeft => 8u8,
                LeftPanelLed::GearCenter => 9u8,
                LeftPanelLed::GearRight => 10u8,
            },
        )
    }

    fn to_board_and_led_number(&self) -> (BoardType, u8) {
        let number: u8 = match self {
            LeftPanelLed::B1 => 2,
            LeftPanelLed::B2 => 1,
            LeftPanelLed::B3 => 4,
            LeftPanelLed::B4 => 3,
            LeftPanelLed::B5 => 17,
            LeftPanelLed::B6 => 14,
            LeftPanelLed::B7 => 16,
            LeftPanelLed::B8 => 13,
            LeftPanelLed::B9 => 15,
            LeftPanelLed::B10 => 12,
            LeftPanelLed::Airbrake => 5,
            LeftPanelLed::Warning => 6,
            LeftPanelLed::FlapLeft => 7,
            LeftPanelLed::FlapRight => 11,
            LeftPanelLed::GearLeft => 8,
            LeftPanelLed::GearCenter => 9,
            LeftPanelLed::GearRight => 10,
        };
        (BoardType::OnBoard, number)
    }
}

impl LedList for LeftPanelLed {
    open spec fn led_count() -> nat {
        17
    }

    open spec fn led_at(position: usize) -> Self {
        match position {
            0 => LeftPanelLed::B1,
            1 => LeftPanelLed::B2,
            2 => LeftPanelLed::B3,
            3 => LeftPanelLed::B4,
            4 => LeftPanelLed::B5,
            5 => LeftPanelLed::B6,
            6 => LeftPanelLed::B7,
            7 => LeftPanelLed::B8,
            8 => LeftPanelLed::B9,
            9 => LeftPanelLed::B10,
            10 => LeftPanelLed::Airbrake,
            11 => LeftPanelLed::Warning,
            12 => LeftPanelLed::FlapLeft,
            13 => LeftPanelLed::FlapRight,
            14 => LeftPanelLed::GearLeft,
            15 => LeftPanelLed::GearCenter,
            _ => LeftPanelLed::GearRight,
        }
    }

    open spec fn position_of(&self) -> nat {
        match self {
            LeftPanelLed::B1 => 0nat,
            LeftPanelLed::B2 => 1nat,
            LeftPanelLed::B3 => 2nat,
            LeftPanelLed::B4 => 3nat,
            LeftPanelLed::B5 => 4nat,
            LeftPanelLed::B6 => 5nat,
            LeftPanelLed::B7 => 6nat,
            LeftPanelLed::B8 => 7nat,
            LeftPanelLed::B9 => 8nat,
            LeftPanelLed::B10 => 9nat,
            LeftPanelLed::Airbrake => 10nat,
            LeftPanelLed::Warning => 11nat,
            LeftPanelLed::FlapLeft => 12nat,
            LeftPanelLed::FlapRight => 13nat,
            LeftPanelLed::GearLeft => 14nat,
            LeftPanelLed::GearCenter => 15nat,
            LeftPanelLed::GearRight => 16nat,
        }
    }

    fn count() -> usize {
        17
    }

    fn nth(position: usize) -> Self {
        match position {
            0 => LeftPanelLed::B1,
            1 => LeftPanelLed::B2,
            2 => LeftPanelLed::B3,
            3 => LeftPanelLed::B4,
            4 => LeftPanelLed::B5,
            5 => LeftPanelLed::B6,
            6 => LeftPanelLed::B7,
            7 => LeftPanelLed::B8,
            8 => LeftPanelLed::B9,
            9 => LeftPanelLed::B10,
            10 => LeftPanelLed::Airbrake,
            11 => LeftPanelLed::Warning,
            12 => LeftPanelLed::FlapLeft,
            13 => LeftPanelLed::FlapRight,
            14 => LeftPanelLed::GearLeft,
            15 => LeftPanelLed::GearCenter,
            _ => LeftPanelLed::GearRight,
        }
    }

    fn position(&self) -> usize {
        match self {
            LeftPanelLed::B1 => 0,
            LeftPanelLed::B2 => 1,
            LeftPanelLed::B3 => 2,
            LeftPanelLed::B4 => 3,
            LeftPanelLed::B5 => 4,
            LeftPanelLed::B6 => 5,
            LeftPanelLed::B7 => 6,
            LeftPanelLed::B8 => 7,
            LeftPanelLed::B9 => 8,
            LeftPanelLed::B10 => 9,
            LeftPanelLed::Airbrake => 10,
            LeftPanelLed::Warning => 11,
            LeftPanelLed::FlapLeft => 12,
            LeftPanelLed::FlapRight => 13,
            LeftPanelLed::GearLeft => 14,
            LeftPanelLed::GearCenter => 15,
            LeftPanelLed::GearRight => 16,
        }
    }
}

/// The buttons of the left control panel.
#[derive(Debug, Copy, Clone, PartialEq, Eq, Hash, Structural)]
pub enum LeftPanelButtons {
    B1,
    B2,
    B3,
    B4,
    B5,
    B6,
    B7,
    B8,
    B9,
    B10,
    T1Up,
    T1Down,
    T2Up,
    T2Down,
    T3Up,
    T3Down,
    T4Up,
    T4Down,
    T5Up,
    T5Down,
    T6Up,
    T6Down,
    T7Guard,
    T7,
    T8Guard,
    T8,
    T9Left,
    T9Right,
    T10Left,
    T10Right,
    E1Press,
    E1CounterClockwise,
    E1Clockwise,
    E2Press,
    E2CounterClockwise,
    E2Clockwise,
    E3Press,
    E3CounterClockwise,
    E3Clockwise,
    GearMiddle,
    GearUp,
    GearDown,
}

impl ToButtonIndex for LeftPanelButtons {
    open spec fn button_count() -> nat {
        42
    }

    open spec fn button_index(&self) -> u8 {
        match self {
            LeftPanelButtons::B1 => 0u8,
            LeftPanelButtons::B2 => 1u8,
            LeftPanelButtons::B3 => 2u8,
            LeftPanelButtons::B4 => 3u8,
            LeftPanelButtons::B5 => 4u8,
            LeftPanelButtons::B6 => 5u8,
            LeftPanelButtons::B7 => 6u8,
            LeftPanelButtons::B8 => 7u8,
            LeftPanelButtons::B9 => 8u8,
            LeftPanelButtons::B10 => 9u8,
            LeftPanelButtons::T1Up => 10u8,
            LeftPanelButtons::T1Down => 11u8,
            LeftPanelButtons::T2Up => 12u8,
            LeftPanelButtons::T2Down => 13u8,
            LeftPanelButtons::T3Up => 14u8,
            LeftPanelButtons::T3Down => 15u8,
            LeftPanelButtons::T4Up => 16u8,
            LeftPanelButtons::T4Down => 17u8,
            LeftPanelButtons::T5Up => 18u8,
            LeftPanelButtons::T5Down => 19u8,
            LeftPanelButtons::T6Up => 20u8,
            LeftPanelButtons::T6Down => 21u8,
            LeftPanelButtons::T7Guard => 22u8,
            LeftPanelButtons::T7 => 23u8,
            LeftPanelButtons::T8Guard => 24u8,
            LeftPanelButtons::T8 => 25u8,
            LeftPanelButtons::T9Left => 26u8,
            LeftPanelButtons::T9Right => 27u8,
            LeftPanelButtons::T10Left => 28u8,
            LeftPanelButtons::T10Right => 29u8,
            LeftPanelButtons::E1Press => 30u8,
            LeftPanelButtons::E1CounterClockwise => 31u8,
            LeftPanelButtons::E1Clockwise => 32u8,
            LeftPanelButtons::E2Press => 33u8,
            LeftPanelButtons::E2CounterClockwise => 34u8,
            LeftPanelButtons::E2Clockwise => 35u8,
            LeftPanelButtons::E3Press => 36u8,
            LeftPanelButtons::E3CounterClockwise => 37u8,
            LeftPanelButtons::E3Clockwise => 38u8,
            LeftPanelButtons::GearMiddle => 39u8,
            LeftPanelButtons::GearUp => 40u8,
            LeftPanelButtons::GearDown => 41u8,
        }
    }

    fn count() -> usize {
        42
    }

    fn to_button_index(&self) -> u8 {
        match self {
            LeftPanelButtons::B1 => 0,
            LeftPanelButtons::B2 => 1,
            LeftPanelButtons::B3 => 2,
            LeftPanelButtons::B4 => 3,
            LeftPanelButtons::B5 => 4,
            LeftPanelButtons::B6 => 5,
            LeftPanelButtons::B7 => 6,
            LeftPanelButtons::B8 => 7,
            LeftPanelButtons::B9 => 8,
            LeftPanelButtons::B10 => 9,
            LeftPanelButtons::T1Up => 10,
            LeftPanelButtons::T1Down => 11,
            LeftPanelButtons::T2Up => 12,
            LeftPanelButtons::T2Down => 13,
            LeftPanelButtons::T3Up => 14,
            LeftPanelButtons::T3Down => 15,
            LeftPanelButtons::T4Up => 16,
            LeftPanelButtons::T4Down => 17,
            LeftPanelButtons::T5Up => 18,
            LeftPanelButtons::T5Down => 19,
            LeftPanelButtons::T6Up => 20,
            LeftPanelButtons::T6Down => 21,
            LeftPanelButtons::T7Guard => 22,
            LeftPanelButtons::T7 => 23,
            LeftPanelButtons::T8Guard => 24,
            LeftPanelButtons::T8 => 25,
            LeftPanelButtons::T9Left => 26,
            LeftPanelButtons::T9Right => 27,
            LeftPanelButtons::T10Left => 28,
            LeftPanelButtons::T10Right => 29,
            LeftPanelButtons::E1Press => 30,
            LeftPanelButtons::E1CounterClockwise => 31,
            LeftPanelButtons::E1Clockwise => 32,
            LeftPanelButtons::E2Press => 33,
            LeftPanelButtons::E2CounterClockwise => 34,
            LeftPanelButtons::E2Clockwise => 35,
            LeftPanelButtons::E3Press => 36,
            LeftPanelButtons::E3CounterClockwise => 37,
            LeftPanelButtons::E3Clockwise => 38,
            LeftPanelButtons::GearMiddle => 39,
            LeftPanelButtons::GearUp => 40,
            LeftPanelButtons::GearDown => 41,
        }
    }
}

/// The left control panel has no axes: no value of this type exists.
#[derive(Debug, Copy, Clone, PartialEq, Eq, Hash)]
pub struct LeftPanelAxis {
    never: core::convert::Infallible,
}

impl LeftPanelAxis {
    #[verifier::type_invariant]
    spec fn uninhabited(self) -> bool {
        false
    }
}

impl ToAxisIndex for LeftPanelAxis {
    open spec fn axis_count() -> nat {
        0
    }

    open spec fn axis_index(&self) -> u8 {
        0
    }

    fn count() -> usize {
        0
    }

    fn to_axis_index(&self) -> u8 {
        proof {
            use_type_invariant(self);
        }
        0
    }
}

} // verus!
