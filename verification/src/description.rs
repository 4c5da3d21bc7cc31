//! What a device model declares: its product identity, its LEDs with their
//! board and number, its buttons with their bit index, and its axes with
//! their slot.

use vstd::prelude::*;
use crate::color::BoardType;

verus! {

/// The USB vendor id of every supported device.
pub const VIRPIL_VID: u16 = 0x3344;

/// The highest LED number whose color byte has a place in a feature report.
pub const MAX_LED_NUMBER: u8 = 32;

/// An LED identifier that knows its board and its number on that board.
pub trait ToBoardAndLedNumber {
    /// The board and the number of this LED.
    spec fn board_and_led(&self) -> (BoardType, u8);

    fn to_board_and_led_number(&self) -> (address: (BoardType, u8))
        ensures
            address == self.board_and_led(),
            address.1 <= MAX_LED_NUMBER,
    ;
}

/// The LED identifiers of a model, in their declared order.
pub trait LedList: Sized {
    /// How many LEDs the model has.
    spec fn led_count() -> nat;

    /// The LED at a position of the declared order.
    spec fn led_at(position: usize) -> Self;

    /// The position of this LED in the declared order.
    spec fn position_of(&self) -> nat;

    fn count() -> (count: usize)
        ensures
            count == Self::led_count(),
    ;

    fn nth(position: usize) -> (led: Self)
        requires
            position < Self::led_count(),
        ensures
            led == Self::led_at(position),
            led.position_of() == position,
    ;

    fn position(&self) -> (position: usize)
        ensures
            position == self.position_of(),
            position < Self::led_count(),
            Self::led_at(position) == *self,
    ;
}

/// A button identifier that knows its bit in the button bitmask.
pub trait ToButtonIndex {
    /// How many buttons the model has.
    spec fn button_count() -> nat;

    /// The zero-based bit index of this button.
    spec fn button_index(&self) -> u8;

    fn count() -> (count: usize)
        ensures
            count == Self::button_count(),
    ;

    fn to_button_index(&self) -> (index: u8)
        ensures
            index == self.button_index(),
            index < Self::button_count(),
    ;
}

/// An axis identifier that knows its slot in the axis array.
pub trait ToAxisIndex {
    /// How many axes the model has.
    spec fn axis_count() -> nat;

    /// The zero-based slot of this axis.
    spec fn axis_index(&self) -> u8;

    fn count() -> (count: usize)
        ensures
            count == Self::axis_count(),
    ;

    fn to_axis_index(&self) -> (index: u8)
        ensures
            index == self.axis_index(),
            index < Self::axis_count(),
    ;
}

/// A device model: its identifier types and its USB product id.
pub trait VirpilDeviceDescription {
    type Led: ToBoardAndLedNumber + LedList + Copy;

    type Buttons: ToButtonIndex + Copy;

    type Axis: ToAxisIndex + Copy;

    /// The USB product id of the model.
    const PID: u16;
}

/// Every LED that a device's own board can drive.
#[derive(Debug, Copy, Clone, PartialEq, Eq, Hash, Structural)]
pub enum AllOnBoard {
    L1,
    L2,
    L3,
    L4,
    L5,
    L6,
    L7,
    L8,
    L9,
    L10,
    L11,
    L12,
    L13,
    L14,
    L15,
    L16,
    L17,
    L18,
    L19,
    L20,
}

impl ToBoardAndLedNumber for AllOnBoard {
    open spec fn board_and_led(&self) -> (BoardType, u8) {
        (
            BoardType::OnBoard,
            match self {
                AllOnBoard::L1 => 1u8,
                AllOnBoard::L2 => 2u8,
                AllOnBoard::L3 => 3u8,
                AllOnBoard::L4 => 4u8,
                AllOnBoard::L5 => 5u8,
                AllOnBoard::L6 => 6u8,
                AllOnBoard::L7 => 7u8,
                AllOnBoard::L8 => 8u8,
                AllOnBoard::L9 => 9u8,
                AllOnBoard::L10 => 10u8,
                AllOnBoard::L11 => 11u8,
                AllOnBoard::L12 => 12u8,
                AllOnBoard::L13 => 13u8,
                AllOnBoard::L14 => 14u8,
                AllOnBoard::L15 => 15u8,
                AllOnBoard::L16 => 16u8,
                AllOnBoard::L17 => 17u8,
                AllOnBoard::L18 => 18u8,
                AllOnBoard::L19 => 19u8,
                AllOnBoard::L20 => 20u8,
            },
        )
    }

    fn to_board_and_led_number(&self) -> (BoardType, u8) {
        let number: u8 = match self {
            AllOnBoard::L1 => 1,
            AllOnBoard::L2 => 2,
            AllOnBoard::L3 => 3,
            AllOnBoard::L4 => 4,
            AllOnBoard::L5 => 5,
            AllOnBoard::L6 => 6,
            AllOnBoard::L7 => 7,
            AllOnBoard::L8 => 8,
            AllOnBoard::L9 => 9,
            AllOnBoard::L10 => 10,
            AllOnBoard::L11 => 11,
            AllOnBoard::L12 => 12,
            AllOnBoard::L13 => 13,
            AllOnBoard::L14 => 14,
            AllOnBoard::L15 => 15,
            AllOnBoard::L16 => 16,
            AllOnBoard::L17 => 17,
            AllOnBoard::L18 => 18,
            AllOnBoard::L19 => 19,
            AllOnBoard::L20 => 20,
        };
        (BoardType::OnBoard, number)
    }
}

impl LedList for AllOnBoard {
    open spec fn led_count() -> nat {
        20
    }

    open spec fn led_at(position: usize) -> Self {
        match position {
            0 => AllOnBoard::L1,
            1 => AllOnBoard::L2,
            2 => AllOnBoard::L3,
            3 => AllOnBoard::L4,
            4 => AllOnBoard::L5,
            5 => AllOnBoard::L6,
            6 => AllOnBoard::L7,
            7 => AllOnBoard::L8,
            8 => AllOnBoard::L9,
            9 => AllOnBoard::L10,
            10 => AllOnBoard::L11,
            11 => AllOnBoard::L12,
            12 => AllOnBoard::L13,
            13 => AllOnBoard::L14,
            14 => AllOnBoard::L15,
            15 => AllOnBoard::L16,
            16 => AllOnBoard::L17,
            17 => AllOnBoard::L18,
            18 => AllOnBoard::L19,
            _ => AllOnBoard::L20,
        }
    }

    open spec fn position_of(&self) -> nat {
        match self {
            AllOnBoard::L1 => 0nat,
            AllOnBoard::L2 => 1nat,
            AllOnBoard::L3 => 2nat,
            AllOnBoard::L4 => 3nat,
            AllOnBoard::L5 => 4nat,
            AllOnBoard::L6 => 5nat,
            AllOnBoard::L7 => 6nat,
            AllOnBoard::L8 => 7nat,
            AllOnBoard::L9 => 8nat,
            AllOnBoard::L10 => 9nat,
            AllOnBoard::L11 => 10nat,
            AllOnBoard::L12 => 11nat,
            AllOnBoard::L13 => 12nat,
            AllOnBoard::L14 => 13nat,
            AllOnBoard::L15 => 14nat,
            AllOnBoard::L16 => 15nat,
            AllOnBoard::L17 => 16nat,
            AllOnBoard::L18 => 17nat,
            AllOnBoard::L19 => 18nat,
            AllOnBoard::L20 => 19nat,
        }
    }

    fn count() -> usize {
        20
    }

    fn nth(position: usize) -> Self {
        match position {
            0 => AllOnBoard::L1,
            1 => AllOnBoard::L2,
            2 => AllOnBoard::L3,
            3 => AllOnBoard::L4,
            4 => AllOnBoard::L5,
            5 => AllOnBoard::L6,
            6 => AllOnBoard::L7,
            7 => AllOnBoard::L8,
            8 => AllOnBoard::L9,
            9 => AllOnBoard::L10,
            10 => AllOnBoard::L11,
            11 => AllOnBoard::L12,
            12 => AllOnBoard::L13,
            13 => AllOnBoard::L14,
            14 => AllOnBoard::L15,
            15 => AllOnBoard::L16,
            16 => AllOnBoard::L17,
            17 => AllOnBoard::L18,
            18 => AllOnBoard::L19,
            _ => AllOnBoard::L20,
        }
    }

    fn position(&self) -> usize {
        match self {
            AllOnBoard::L1 => 0,
            AllOnBoard::L2 => 1,
            AllOnBoard::L3 => 2,
            AllOnBoard::L4 => 3,
            AllOnBoard::L5 => 4,
            AllOnBoard::L6 => 5,
            AllOnBoard::L7 => 6,
            AllOnBoard::L8 => 7,
            AllOnBoard::L9 => 8,
            AllOnBoard::L10 => 9,
            AllOnBoard::L11 => 10,
            AllOnBoard::L12 => 11,
            AllOnBoard::L13 => 12,
            AllOnBoard::L14 => 13,
            AllOnBoard::L15 => 14,
            AllOnBoard::L16 => 15,
            AllOnBoard::L17 => 16,
            AllOnBoard::L18 => 17,
            AllOnBoard::L19 => 18,
            AllOnBoard::L20 => 19,
        }
    }
}

/// Every LED that an additional board can drive.
#[derive(Debug, Copy, Clone, PartialEq, Eq, Hash, Structural)]
pub enum AllAddBoard {
    G1,
    G2,
    G3,
    G4,
}

impl ToBoardAndLedNumber for AllAddBoard {
    open spec fn board_and_led(&self) -> (BoardType, u8) {
        (
            BoardType::AddBoard,
            match self {
                AllAddBoard::G1 => 1u8,
                AllAddBoard::G2 => 2u8,
                AllAddBoard::G3 => 3u8,
                AllAddBoard::G4 => 4u8,
            },
        )
    }

    fn to_board_and_led_number(&self) -> (BoardType, u8) {
        let number: u8 = match self {
            AllAddBoard::G1 => 1,
            AllAddBoard::G2 => 2,
            AllAddBoard::G3 => 3,
            AllAddBoard::G4 => 4,
        };
        (BoardType::AddBoard, number)
    }
}

impl LedList for AllAddBoard {
    open spec fn led_count() -> nat {
        4
    }

    open spec fn led_at(position: usize) -> Self {
        match position {
            0 => AllAddBoard::G1,
            1 => AllAddBoard::G2,
            2 => AllAddBoard::G3,
            _ => AllAddBoard::G4,
        }
    }

    open spec fn position_of(&self) -> nat {
        match self {
            AllAddBoard::G1 => 0nat,
            AllAddBoard::G2 => 1nat,
            AllAddBoard::G3 => 2nat,
            AllAddBoard::G4 => 3nat,
        }
    }

    fn count() -> usize {
        4
    }

    fn nth(position: usize) -> Self {
        match position {
            0 => AllAddBoard::G1,
            1 => AllAddBoard::G2,
            2 => AllAddBoard::G3,
            _ => AllAddBoard::G4,
        }
    }

    fn position(&self) -> usize {
        match self {
            AllAddBoard::G1 => 0,
            AllAddBoard::G2 => 1,
            AllAddBoard::G3 => 2,
            AllAddBoard::G4 => 3,
        }
    }
}

} // verus!
