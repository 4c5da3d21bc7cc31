//! The right stick: its LEDs, buttons and axes.

use vstd::prelude::*;
use crate::color::BoardType;
use crate::description::{
    LedList, ToAxisIndex, ToBoardAndLedNumber, ToButtonIndex, VirpilDeviceDescription,
};

verus! {

/// The right stick.
#[derive(Debug, Copy, Clone)]
pub struct RightStick;

impl VirpilDeviceDescription for RightStick {
    type Led = RightStickLed;

    type Buttons = RightStickButtons;

    type Axis = RightStickAxis;

    const PID: u16 = 0x4130;
}

/// The LEDs of the right stick.
#[derive(Debug, Copy, Clone, PartialEq, Eq, Hash, Structural)]
pub enum RightStickLed {
    Top,
}

impl ToBoardAndLedNumber for RightStickLed {
    open spec fn board_and_led(&self) -> (BoardType, u8) {
        (
            BoardType::AddBoard,
            match self {
                RightStickLed::Top => 1u8,
            },
        )
    }

    fn to_board_and_led_number(&self) -> (BoardType, u8) {
        let number: u8 = match self {
            RightStickLed::Top => 1,
        };
        (BoardType::AddBoard, number)
    }
}

impl LedList for RightStickLed {
    open spec fn led_count() -> nat {
        1
    }

    open spec fn led_at(position: usize) -> Self {
        match position {
            _ => RightStickLed::Top,
        }
    }

    open spec fn position_of(&self) -> nat {
        match self {
            RightStickLed::Top => 0nat,
        }
    }

    fn count() -> usize {
        1
    }

    fn nth(position: usize) -> Self {
        match position {
            _ => RightStickLed::Top,
        }
    }

    fn position(&self) -> usize {
        match self {
            RightStickLed::Top => 0,
        }
    }
}

/// The buttons of the right stick.
#[derive(Debug, Copy, Clone, PartialEq, Eq, Hash, Structural)]
pub enum RightStickButtons {
    GuardOut,
    GuardTap,
    TriggerFirst,
    TriggerSecond,
    ThumbStickPress,
    UpperBlack,
    LowerHatPress,
    LowerHatUp,
    LowerHatRight,
    LowerHatDown,
    LowerHatLeft,
    UpperRed,
    UpperHatPress,
    UpperHatUp,
    UpperHatRight,
    UpperHatDown,
    UpperHatLeft,
    IndexHatPress,
    IndexHatUp,
    IndexHatDown,
    ScrollFirst,
    ScrollSecond,
    ScrollDown,
    ScrollUp,
    ThumpHatPress,
    ThumbHatUp,
    ThumbHatRight,
    ThumbHatDown,
    ThumbHatLeft,
    Pinky,
    LowerTrigger,
    GuardIn,
}

impl ToButtonIndex for RightStickButtons {
    open spec fn button_count() -> nat {
        32
    }

    open spec fn button_index(&self) -> u8 {
        match self {
            RightStickButtons::GuardOut => 0u8,
            RightStickButtons::GuardTap => 1u8,
            RightStickButtons::TriggerFirst => 2u8,
            RightStickButtons::TriggerSecond => 3u8,
            RightStickButtons::ThumbStickPress => 4u8,
            RightStickButtons::UpperBlack => 5u8,
            RightStickButtons::LowerHatPress => 6u8,
            RightStickButtons::LowerHatUp => 7u8,
            RightStickButtons::LowerHatRight => 8u8,
            RightStickButtons::LowerHatDown => 9u8,
            RightStickButtons::LowerHatLeft => 10u8,
            RightStickButtons::UpperRed => 11u8,
            RightStickButtons::UpperHatPress => 12u8,
            RightStickButtons::UpperHatUp => 13u8,
            RightStickButtons::UpperHatRight => 14u8,
            RightStickButtons::UpperHatDown => 15u8,
            RightStickButtons::UpperHatLeft => 16u8,
            RightStickButtons::IndexHatPress => 17u8,
            RightStickButtons::IndexHatUp => 18u8,
            RightStickButtons::IndexHatDown => 19u8,
            RightStickButtons::ScrollFirst => 20u8,
            RightStickButtons::ScrollSecond => 21u8,
            RightStickButtons::ScrollDown => 22u8,
            RightStickButtons::ScrollUp => 23u8,
            RightStickButtons::ThumpHatPress => 24u8,
            RightStickButtons::ThumbHatUp => 25u8,
            RightStickButtons::ThumbHatRight => 26u8,
            RightStickButtons::ThumbHatDown => 27u8,
            RightStickButtons::ThumbHatLeft => 28u8,
            RightStickButtons::Pinky => 29u8,
            RightStickButtons::LowerTrigger => 30u8,
            RightStickButtons::GuardIn => 31u8,
        }
    }

    fn count() -> usize {
        32
    }

    fn to_button_index(&self) -> u8 {
        match self {
            RightStickButtons::GuardOut => 0,
            RightStickButtons::GuardTap => 1,
            RightStickButtons::TriggerFirst => 2,
            RightStickButtons::TriggerSecond => 3,
            RightStickButtons::ThumbStickPress => 4,
            RightStickButtons::UpperBlack => 5,
            RightStickButtons::LowerHatPress => 6,
            RightStickButtons::LowerHatUp => 7,
            RightStickButtons::LowerHatRight => 8,
            RightStickButtons::LowerHatDown => 9,
            RightStickButtons::LowerHatLeft => 10,
            RightStickButtons::UpperRed => 11,
            RightStickButtons::UpperHatPress => 12,
            RightStickButtons::UpperHatUp => 13,
            RightStickButtons::UpperHatRight => 14,
            RightStickButtons::UpperHatDown => 15,
            RightStickButtons::UpperHatLeft => 16,
            RightStickButtons::IndexHatPress => 17,
            RightStickButtons::IndexHatUp => 18,
            RightStickButtons::IndexHatDown => 19,
            RightStickButtons::ScrollFirst => 20,
            RightStickButtons::ScrollSecond => 21,
            RightStickButtons::ScrollDown => 22,
            RightStickButtons::ScrollUp => 23,
            RightStickButtons::ThumpHatPress => 24,
            RightStickButtons::ThumbHatUp => 25,
            RightStickButtons::ThumbHatRight => 26,
            RightStickButtons::ThumbHatDown => 27,
            RightStickButtons::ThumbHatLeft => 28,
            RightStickButtons::Pinky => 29,
            RightStickButtons::LowerTrigger => 30,
            RightStickButtons::GuardIn => 31,
        }
    }
}

/// The axes of the right stick.
#[derive(Debug, Copy, Clone, PartialEq, Eq, Hash, Structural)]
pub enum RightStickAxis {
    StickX,
    StickY,
    ThumbStickY,
    ThumbStickX,
    LowerTrigger,
}

impl ToAxisIndex for RightStickAxis {
    open spec fn axis_count() -> nat {
        5
    }

    open spec fn axis_index(&self) -> u8 {
        match self {
            RightStickAxis::StickX => 0u8,
            RightStickAxis::StickY => 1u8,
            RightStickAxis::ThumbStickY => 2u8,
            RightStickAxis::ThumbStickX => 3u8,
            RightStickAxis::LowerTrigger => 4u8,
        }
    }

    fn count() -> usize {
        5
    }

    fn to_axis_index(&self) -> u8 {
        match self {
            RightStickAxis::StickX => 0,
            RightStickAxis::StickY => 1,
            RightStickAxis::ThumbStickY => 2,
            RightStickAxis::ThumbStickX => 3,
            RightStickAxis::LowerTrigger => 4,
        }
    }
}

} // verus!
