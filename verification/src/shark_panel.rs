//! The shark panel: its LEDs, buttons and axes.

use vstd::prelude::*;
use crate::color::BoardType;
use crate::description::{
    LedList, ToAxisIndex, ToBoardAndLedNumber, ToButtonIndex, VirpilDeviceDescription,
};

verus! {

/// The shark panel.
#[derive(Debug, Copy, Clone)]
pub struct SharkPanel;

impl VirpilDeviceDescription for SharkPanel {
    type Led = SharkPanelLed;

    type Buttons = SharkPanelButtons;

    type Axis = SharkPanelAxis;

    const PID: u16 = 0x825d;
}

/// The LEDs of the shark panel.
#[derive(Debug, Copy, Clone, PartialEq, Eq, Hash, Structural)]
pub enum SharkPanelLed {
    B1,
    B2,
    B3,
    B4,
    Rst,
    B5,
    B6,
    Dir,
    B7,
    B8,
}

impl ToBoardAndLedNumber for SharkPanelLed {
    open spec fn board_and_led(&self) -> (BoardType, u8) {
        (
            BoardType::OnBoard,
            match self {
                SharkPanelLed::B1 => 8u8,
                SharkPanelLed::B2 => 9u8,
                SharkPanelLed::B3 => 7u8,
                SharkPanelLed::B4 => 10u8,
                SharkPanelLed::Rst => 1u8,
                SharkPanelLed::B5 => 2u8,
                SharkPanelLed::B6 => 3u8,
                SharkPanelLed::Dir => 4u8,
                SharkPanelLed::B7 => 6u8,
                SharkPanelLed::B8 => 5u8,
            },
        )
    }

    fn to_board_and_led_number(&self) -> (BoardType, u8) {
        let number: u8 = match self {
            SharkPanelLed::B1 => 8,
            SharkPanelLed::B2 => 9,
            SharkPanelLed::B3 => 7,
            SharkPanelLed::B4 => 10,
            SharkPanelLed::Rst => 1,
            SharkPanelLed::B5 => 2,
            SharkPanelLed::B6 => 3,
            SharkPanelLed::Dir => 4,
            SharkPanelLed::B7 => 6,
            SharkPanelLed::B8 => 5,
        };
        (BoardType::OnBoard, number)
    }
}

impl LedList for SharkPanelLed {
    open spec fn led_count() -> nat {
        10
    }

    open spec fn led_at(position: usize) -> Self {
        match position {
            0 => SharkPanelLed::B1,
            1 => SharkPanelLed::B2,
            2 => SharkPanelLed::B3,
            3 => SharkPanelLed::B4,
            4 => SharkPanelLed::Rst,
            5 => SharkPanelLed::B5,
            6 => SharkPanelLed::B6,
            7 => SharkPanelLed::Dir,
            8 => SharkPanelLed::B7,
            _ => SharkPanelLed::B8,
        }
    }

    open spec fn position_of(&self) -> nat {
        match self {
            SharkPanelLed::B1 => 0nat,
            SharkPanelLed::B2 => 1nat,
            SharkPanelLed::B3 => 2nat,
            SharkPanelLed::B4 => 3nat,
            SharkPanelLed::Rst => 4nat,
            SharkPanelLed::B5 => 5nat,
            SharkPanelLed::B6 => 6nat,
            SharkPanelLed::Dir => 7nat,
            SharkPanelLed::B7 => 8nat,
            SharkPanelLed::B8 => 9nat,
        }
    }

    fn count() -> usize {
        10
    }

    fn nth(position: usize) -> Self {
        match position {
            0 => SharkPanelLed::B1,
            1 => SharkPanelLed::B2,
            2 => SharkPanelLed::B3,
            3 => SharkPanelLed::B4,
            4 => SharkPanelLed::Rst,
            5 => SharkPanelLed::B5,
            6 => SharkPanelLed::B6,
            7 => SharkPanelLed::Dir,
            8 => SharkPanelLed::B7,
            _ => SharkPanelLed::B8,
        }
    }

    fn position(&self) -> usize {
        match self {
            SharkPanelLed::B1 => 0,
            SharkPanelLed::B2 => 1,
            SharkPanelLed::B3 => 2,
            SharkPanelLed::B4 => 3,
            SharkPanelLed::Rst => 4,
            SharkPanelLed::B5 => 5,
            SharkPanelLed::B6 => 6,
            SharkPanelLed::Dir => 7,
            SharkPanelLed::B7 => 8,
            SharkPanelLed::B8 => 9,
        }
    }
}

/// The buttons of the shark panel.
#[derive(Debug, Copy, Clone, PartialEq, Eq, Hash, Structural)]
pub enum SharkPanelButtons {
    B1,
    B2,
    Start,
    APU,
    Stop,
    B3,
    B4,
    LHEngine,
    RHEngine,
    StartCrankUp,
    StartCrankDown,
    MasterArmUp,
    MasterArmDown,
    HMSUp,
    HMSDown,
    AutoTsUp,
    AutoTsDown,
    LASUp,
    LASDown,
    Rst,
    B5,
    B6,
    Dir,
    E1Press,
    E1CounterClockwise,
    E1Clockwise,
    B7,
    B8,
    E2Press,
    E2CounterClockwise,
    E2Clockwise,
    ModeMOV,
    ModeFIX,
    ModeMan,
    ModeFail,
    ModeNav,
    ManUp,
    ManDown,
    RangeLng,
    RangeMd,
    RangeShort,
    HE,
    API,
    Low,
    High,
}

impl ToButtonIndex for SharkPanelButtons {
    open spec fn button_count() -> nat {
        45
    }

    open spec fn button_index(&self) -> u8 {
        match self {
            SharkPanelButtons::B1 => 0u8,
            SharkPanelButtons::B2 => 1u8,
            SharkPanelButtons::Start => 2u8,
            SharkPanelButtons::APU => 3u8,
            SharkPanelButtons::Stop => 4u8,
            SharkPanelButtons::B3 => 5u8,
            SharkPanelButtons::B4 => 6u8,
            SharkPanelButtons::LHEngine => 7u8,
            SharkPanelButtons::RHEngine => 8u8,
            SharkPanelButtons::StartCrankUp => 9u8,
            SharkPanelButtons::StartCrankDown => 10u8,
            SharkPanelButtons::MasterArmUp => 11u8,
            SharkPanelButtons::MasterArmDown => 12u8,
            SharkPanelButtons::HMSUp => 13u8,
            SharkPanelButtons::HMSDown => 14u8,
            SharkPanelButtons::AutoTsUp => 15u8,
            SharkPanelButtons::AutoTsDown => 16u8,
            SharkPanelButtons::LASUp => 17u8,
            SharkPanelButtons::LASDown => 18u8,
            SharkPanelButtons::Rst => 19u8,
            SharkPanelButtons::B5 => 20u8,
            SharkPanelButtons::B6 => 21u8,
            SharkPanelButtons::Dir => 22u8,
            SharkPanelButtons::E1Press => 23u8,
            SharkPanelButtons::E1CounterClockwise => 24u8,
            SharkPanelButtons::E1Clockwise => 25u8,
            SharkPanelButtons::B7 => 26u8,
            SharkPanelButtons::B8 => 27u8,
            SharkPanelButtons::E2Press => 28u8,
            SharkPanelButtons::E2CounterClockwise => 29u8,
            SharkPanelButtons::E2Clockwise => 30u8,
            SharkPanelButtons::ModeMOV => 31u8,
            SharkPanelButtons::ModeFIX => 32u8,
            SharkPanelButtons::ModeMan => 33u8,
            SharkPanelButtons::ModeFail => 34u8,
            SharkPanelButtons::ModeNav => 35u8,
            SharkPanelButtons::ManUp => 36u8,
            SharkPanelButtons::ManDown => 37u8,
            SharkPanelButtons::RangeLng => 38u8,
            SharkPanelButtons::RangeMd => 39u8,
            SharkPanelButtons::RangeShort => 40u8,
            SharkPanelButtons::HE => 41u8,
            SharkPanelButtons::API => 42u8,
            SharkPanelButtons::Low => 43u8,
            SharkPanelButtons::High => 44u8,
        }
    }

    fn count() -> usize {
        45
    }

    fn to_button_index(&self) -> u8 {
        match self {
            SharkPanelButtons::B1 => 0,
            SharkPanelButtons::B2 => 1,
            SharkPanelButtons::Start => 2,
            SharkPanelButtons::APU => 3,
            SharkPanelButtons::Stop => 4,
            SharkPanelButtons::B3 => 5,
            SharkPanelButtons::B4 => 6,
            SharkPanelButtons::LHEngine => 7,
            SharkPanelButtons::RHEngine => 8,
            SharkPanelButtons::StartCrankUp => 9,
            SharkPanelButtons::StartCrankDown => 10,
            SharkPanelButtons::MasterArmUp => 11,
            SharkPanelButtons::MasterArmDown => 12,
            SharkPanelButtons::HMSUp => 13,
            SharkPanelButtons::HMSDown => 14,
            SharkPanelButtons::AutoTsUp => 15,
            SharkPanelButtons::AutoTsDown => 16,
            SharkPanelButtons::LASUp => 17,
            SharkPanelButtons::LASDown => 18,
            SharkPanelButtons::Rst => 19,
            SharkPanelButtons::B5 => 20,
            SharkPanelButtons::B6 => 21,
            SharkPanelButtons::Dir => 22,
            SharkPanelButtons::E1Press => 23,
            SharkPanelButtons::E1CounterClockwise => 24,
            SharkPanelButtons::E1Clockwise => 25,
            SharkPanelButtons::B7 => 26,
            SharkPanelButtons::B8 => 27,
            SharkPanelButtons::E2Press => 28,
            SharkPanelButtons::E2CounterClockwise => 29,
            SharkPanelButtons::E2Clockwise => 30,
            SharkPanelButtons::ModeMOV => 31,
            SharkPanelButtons::ModeFIX => 32,
            SharkPanelButtons::ModeMan => 33,
            SharkPanelButtons::ModeFail => 34,
            SharkPanelButtons::ModeNav => 35,
            SharkPanelButtons::ManUp => 36,
            SharkPanelButtons::ManDown => 37,
            SharkPanelButtons::RangeLng => 38,
            SharkPanelButtons::RangeMd => 39,
            SharkPanelButtons::RangeShort => 40,
            SharkPanelButtons::HE => 41,
            SharkPanelButtons::API => 42,
            SharkPanelButtons::Low => 43,
            SharkPanelButtons::High => 44,
        }
    }
}

/// The axes of the shark panel.
#[derive(Debug, Copy, Clone, PartialEq, Eq, Hash, Structural)]
pub enum SharkPanelAxis {
    RightOuter,
    RightInner,
    LeftInner,
    LeftOuter,
}

impl ToAxisIndex for SharkPanelAxis {
    open spec fn axis_count() -> nat {
        4
    }

    open spec fn axis_index(&self) -> u8 {
        match self {
            SharkPanelAxis::RightOuter => 0u8,
            SharkPanelAxis::RightInner => 1u8,
            SharkPanelAxis::LeftInner => 2u8,
            SharkPanelAxis::LeftOuter => 3u8,
        }
    }

    fn count() -> usize {
        4
    }

    fn to_axis_index(&self) -> u8 {
        match self {
            SharkPanelAxis::RightOuter => 0,
            SharkPanelAxis::RightInner => 1,
            SharkPanelAxis::LeftInner => 2,
            SharkPanelAxis::LeftOuter => 3,
        }
    }
}

} // verus!
