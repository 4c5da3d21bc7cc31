//! The throttle: its LEDs, buttons and axes.

use vstd::prelude::*;
use crate::color::BoardType;
use crate::description::{
    LedList, ToAxisIndex, ToBoardAndLedNumber, ToButtonIndex, VirpilDeviceDescription,
};

verus! {

/// The throttle.
#[derive(Debug, Copy, Clone)]
pub struct Throttle;

impl VirpilDeviceDescription for Throttle {
    type Led = ThrottleLed;

    type Buttons = ThrottleButtons;

    type Axis = ThrottleAxis;

    const PID: u16 = 0x0194;
}

/// The LEDs of the throttle.
#[derive(Debug, Copy, Clone, PartialEq, Eq, Hash, Structural)]
pub enum ThrottleLed {
    B1,
    B2,
    B3,
    B4,
    B5,
    B6,
}

impl ToBoardAndLedNumber for ThrottleLed {
    open spec fn board_and_led(&self) -> (BoardType, u8) {
        (
            BoardType::OnBoard,
            match self {
                ThrottleLed::B1 => 1u8,
                ThrottleLed::B2 => 2u8,
                ThrottleLed::B3 => 3u8,
                ThrottleLed::B4 => 4u8,
                ThrottleLed::B5 => 5u8,
                ThrottleLed::B6 => 6u8,
            },
        )
    }

    fn to_board_and_led_number(&self) -> (BoardType, u8) {
        let number: u8 = match self {
            ThrottleLed::B1 => 1,
            ThrottleLed::B2 => 2,
            ThrottleLed::B3 => 3,
            ThrottleLed::B4 => 4,
            ThrottleLed::B5 => 5,
            ThrottleLed::B6 => 6,
        };
        (BoardType::OnBoard, number)
    }
}

impl LedList for ThrottleLed {
    open spec fn led_count() -> nat {
        6
    }

    open spec fn led_at(position: usize) -> Self {
        match position {
            0 => ThrottleLed::B1,
            1 => ThrottleLed::B2,
            2 => ThrottleLed::B3,
            3 => ThrottleLed::B4,
            4 => ThrottleLed::B5,
            _ => ThrottleLed::B6,
        }
    }

    open spec fn position_of(&self) -> nat {
        match self {
            ThrottleLed::B1 => 0nat,
            ThrottleLed::B2 => 1nat,
            ThrottleLed::B3 => 2nat,
            ThrottleLed::B4 => 3nat,
            ThrottleLed::B5 => 4nat,
            ThrottleLed::B6 => 5nat,
        }
    }

    fn count() -> usize {
        6
    }

    fn nth(position: usize) -> Self {
        match position {
            0 => ThrottleLed::B1,
            1 => ThrottleLed::B2,
            2 => ThrottleLed::B3,
            3 => ThrottleLed::B4,
            4 => ThrottleLed::B5,
            _ => ThrottleLed::B6,
        }
    }

    fn position(&self) -> usize {
        match self {
            ThrottleLed::B1 => 0,
            ThrottleLed::B2 => 1,
            ThrottleLed::B3 => 2,
            ThrottleLed::B4 => 3,
            ThrottleLed::B5 => 4,
            ThrottleLed::B6 => 5,
        }
    }
}

/// The buttons of the throttle.
#[derive(Debug, Copy, Clone, PartialEq, Eq, Hash, Structural)]
pub enum ThrottleButtons {
    PinkyDialPress,
    PinkyDialReverse,
    PinkyDialForward,
    PinkyButton,
    RingHatPress,
    RingHatDown,
    RingHatUp,
    IndexHatPress,
    IndexHatDown,
    IndexHatRight,
    IndexHatUp,
    IndexHatLeft,
    StickPress,
    ThumbWheelForward,
    ThumbWheelBackward,
    WheelHatPress,
    WheelHatForward,
    WheelHatDown,
    WheelHatBackward,
    WheelHatUp,
    ThumbFrontButton,
    UpperHatPress,
    UpperHatDown,
    UpperHatBackward,
    UpperHatUp,
    UpperHatForward,
    LowerHatPress,
    LowerHatDown,
    LowerHatBackward,
    LowerHatUp,
    LowerHatForward,
    ThumbBackButton,
    ThumbLowerButton,
    T1Up,
    T2Up,
    T3Up,
    T4Up,
    B1,
    B2,
    B3,
    B4,
    B5,
    B6,
    T5Up,
    T5Down,
    T6Up,
    T6Down,
    T7Up,
    T7Down,
    E1Press,
    E1CounterClockwise,
    E1Clockwise,
    E2Press,
    E2CounterClockwise,
    E2Clockwise,
    Mode1,
    Mode2,
    Mode3,
    Mode4,
    Mode5,
    T1Down,
    T2Down,
    T3Down,
    T4Down,
    LeftThrottleZero,
    LeftThrottleAfter,
    RightThrottleZero,
    RightThrottleAfter,
    FlapsDown,
    FlapsMiddle,
    FlapsUp,
    SliderDown,
    SliderMiddle,
    SliderUp,
    ThrottlesLinked,
    ThrottlesUnlinked,
    LeftThrottleNonZero,
    RightThrottleNonZero,
}

impl ToButtonIndex for ThrottleButtons {
    open spec fn button_count() -> nat {
        78
    }

    open spec fn button_index(&self) -> u8 {
        match self {
            ThrottleButtons::PinkyDialPress => 0u8,
            ThrottleButtons::PinkyDialReverse => 1u8,
            ThrottleButtons::PinkyDialForward => 2u8,
            ThrottleButtons::PinkyButton => 3u8,
            ThrottleButtons::RingHatPress => 4u8,
            ThrottleButtons::RingHatDown => 5u8,
            ThrottleButtons::RingHatUp => 6u8,
            ThrottleButtons::IndexHatPress => 7u8,
            ThrottleButtons::IndexHatDown => 8u8,
            ThrottleButtons::IndexHatRight => 9u8,
            ThrottleButtons::IndexHatUp => 10u8,
            ThrottleButtons::IndexHatLeft => 11u8,
            ThrottleButtons::StickPress => 12u8,
            ThrottleButtons::ThumbWheelForward => 13u8,
            ThrottleButtons::ThumbWheelBackward => 14u8,
            ThrottleButtons::WheelHatPress => 15u8,
            ThrottleButtons::WheelHatForward => 16u8,
            ThrottleButtons::WheelHatDown => 17u8,
            ThrottleButtons::WheelHatBackward => 18u8,
            ThrottleButtons::WheelHatUp => 19u8,
            ThrottleButtons::ThumbFrontButton => 20u8,
            ThrottleButtons::UpperHatPress => 21u8,
            ThrottleButtons::UpperHatDown => 22u8,
            ThrottleButtons::UpperHatBackward => 23u8,
            ThrottleButtons::UpperHatUp => 24u8,
            ThrottleButtons::UpperHatForward => 25u8,
            ThrottleButtons::LowerHatPress => 26u8,
            ThrottleButtons::LowerHatDown => 27u8,
            ThrottleButtons::LowerHatBackward => 28u8,
            ThrottleButtons::LowerHatUp => 29u8,
            ThrottleButtons::LowerHatForward => 30u8,
            ThrottleButtons::ThumbBackButton => 31u8,
            ThrottleButtons::ThumbLowerButton => 32u8,
            ThrottleButtons::T1Up => 33u8,
            ThrottleButtons::T2Up => 34u8,
            ThrottleButtons::T3Up => 35u8,
            ThrottleButtons::T4Up => 36u8,
            ThrottleButtons::B1 => 37u8,
            ThrottleButtons::B2 => 38u8,
            ThrottleButtons::B3 => 39u8,
            ThrottleButtons::B4 => 40u8,
            ThrottleButtons::B5 => 41u8,
            ThrottleButtons::B6 => 42u8,
            ThrottleButtons::T5Up => 43u8,
            ThrottleButtons::T5Down => 44u8,
            ThrottleButtons::T6Up => 45u8,
            ThrottleButtons::T6Down => 46u8,
            ThrottleButtons::T7Up => 47u8,
            ThrottleButtons::T7Down => 48u8,
            ThrottleButtons::E1Press => 49u8,
            ThrottleButtons::E1CounterClockwise => 50u8,
            ThrottleButtons::E1Clockwise => 51u8,
            ThrottleButtons::E2Press => 52u8,
            ThrottleButtons::E2CounterClockwise => 53u8,
            ThrottleButtons::E2Clockwise => 54u8,
            ThrottleButtons::Mode1 => 55u8,
            ThrottleButtons::Mode2 => 56u8,
            ThrottleButtons::Mode3 => 57u8,
            ThrottleButtons::Mode4 => 58u8,
            ThrottleButtons::Mode5 => 59u8,
            ThrottleButtons::T1Down => 60u8,
            ThrottleButtons::T2Down => 61u8,
            ThrottleButtons::T3Down => 62u8,
            ThrottleButtons::T4Down => 63u8,
            ThrottleButtons::LeftThrottleZero => 64u8,
            ThrottleButtons::LeftThrottleAfter => 65u8,
            ThrottleButtons::RightThrottleZero => 66u8,
            ThrottleButtons::RightThrottleAfter => 67u8,
            ThrottleButtons::FlapsDown => 68u8,
            ThrottleButtons::FlapsMiddle => 69u8,
            ThrottleButtons::FlapsUp => 70u8,
            ThrottleButtons::SliderDown => 71u8,
            ThrottleButtons::SliderMiddle => 72u8,
            ThrottleButtons::SliderUp => 73u8,
            ThrottleButtons::ThrottlesLinked => 74u8,
            ThrottleButtons::ThrottlesUnlinked => 75u8,
            ThrottleButtons::LeftThrottleNonZero => 76u8,
            ThrottleButtons::RightThrottleNonZero => 77u8,
        }
    }

    fn count() -> usize {
        78
    }

    fn to_button_index(&self) -> u8 {
        match self {
            ThrottleButtons::PinkyDialPress => 0,
            ThrottleButtons::PinkyDialReverse => 1,
            ThrottleButtons::PinkyDialForward => 2,
            ThrottleButtons::PinkyButton => 3,
            ThrottleButtons::RingHatPress => 4,
            ThrottleButtons::RingHatDown => 5,
            ThrottleButtons::RingHatUp => 6,
            ThrottleButtons::IndexHatPress => 7,
            ThrottleButtons::IndexHatDown => 8,
            ThrottleButtons::IndexHatRight => 9,
            ThrottleButtons::IndexHatUp => 10,
            ThrottleButtons::IndexHatLeft => 11,
            ThrottleButtons::StickPress => 12,
            ThrottleButtons::ThumbWheelForward => 13,
            ThrottleButtons::ThumbWheelBackward => 14,
            ThrottleButtons::WheelHatPress => 15,
            ThrottleButtons::WheelHatForward => 16,
            ThrottleButtons::WheelHatDown => 17,
            ThrottleButtons::WheelHatBackward => 18,
            ThrottleButtons::WheelHatUp => 19,
            ThrottleButtons::ThumbFrontButton => 20,
            ThrottleButtons::UpperHatPress => 21,
            ThrottleButtons::UpperHatDown => 22,
            ThrottleButtons::UpperHatBackward => 23,
            ThrottleButtons::UpperHatUp => 24,
            ThrottleButtons::UpperHatForward => 25,
            ThrottleButtons::LowerHatPress => 26,
            ThrottleButtons::LowerHatDown => 27,
            ThrottleButtons::LowerHatBackward => 28,
            ThrottleButtons::LowerHatUp => 29,
            ThrottleButtons::LowerHatForward => 30,
            ThrottleButtons::ThumbBackButton => 31,
            ThrottleButtons::ThumbLowerButton => 32,
            ThrottleButtons::T1Up => 33,
            ThrottleButtons::T2Up => 34,
            ThrottleButtons::T3Up => 35,
            ThrottleButtons::T4Up => 36,
            ThrottleButtons::B1 => 37,
            ThrottleButtons::B2 => 38,
            ThrottleButtons::B3 => 39,
            ThrottleButtons::B4 => 40,
            ThrottleButtons::B5 => 41,
            ThrottleButtons::B6 => 42,
            ThrottleButtons::T5Up => 43,
            ThrottleButtons::T5Down => 44,
            ThrottleButtons::T6Up => 45,
            ThrottleButtons::T6Down => 46,
            ThrottleButtons::T7Up => 47,
            ThrottleButtons::T7Down => 48,
            ThrottleButtons::E1Press => 49,
            ThrottleButtons::E1CounterClockwise => 50,
            ThrottleButtons::E1Clockwise => 51,
            ThrottleButtons::E2Press => 52,
            ThrottleButtons::E2CounterClockwise => 53,
            ThrottleButtons::E2Clockwise => 54,
            ThrottleButtons::Mode1 => 55,
            ThrottleButtons::Mode2 => 56,
            ThrottleButtons::Mode3 => 57,
            ThrottleButtons::Mode4 => 58,
            ThrottleButtons::Mode5 => 59,
            ThrottleButtons::T1Down => 60,
            ThrottleButtons::T2Down => 61,
            ThrottleButtons::T3Down => 62,
            ThrottleButtons::T4Down => 63,
            ThrottleButtons::LeftThrottleZero => 64,
            ThrottleButtons::LeftThrottleAfter => 65,
            ThrottleButtons::RightThrottleZero => 66,
            ThrottleButtons::RightThrottleAfter => 67,
            ThrottleButtons::FlapsDown => 68,
            ThrottleButtons::FlapsMiddle => 69,
            ThrottleButtons::FlapsUp => 70,
            ThrottleButtons::SliderDown => 71,
            ThrottleButtons::SliderMiddle => 72,
            ThrottleButtons::SliderUp => 73,
            ThrottleButtons::ThrottlesLinked => 74,
            ThrottleButtons::ThrottlesUnlinked => 75,
            ThrottleButtons::LeftThrottleNonZero => 76,
            ThrottleButtons::RightThrottleNonZero => 77,
        }
    }
}

/// The axes of the throttle.
#[derive(Debug, Copy, Clone, PartialEq, Eq, Hash, Structural)]
pub enum ThrottleAxis {
    LeftThrottle,
    RightThrottle,
    Flaps,
    StickX,
    StickY,
    Slider,
}

impl ToAxisIndex for ThrottleAxis {
    open spec fn axis_count() -> nat {
        6
    }

    open spec fn axis_index(&self) -> u8 {
        match self {
            ThrottleAxis::LeftThrottle => 0u8,
            ThrottleAxis::RightThrottle => 1u8,
            ThrottleAxis::Flaps => 2u8,
            ThrottleAxis::StickX => 3u8,
            ThrottleAxis::StickY => 4u8,
            ThrottleAxis::Slider => 5u8,
        }
    }

    fn count() -> usize {
        6
    }

    fn to_axis_index(&self) -> u8 {
        match self {
            ThrottleAxis::LeftThrottle => 0,
            ThrottleAxis::RightThrottle => 1,
            ThrottleAxis::Flaps => 2,
            ThrottleAxis::StickX => 3,
            ThrottleAxis::StickY => 4,
            ThrottleAxis::Slider => 5,
        }
    }
}

} // verus!
