//! Runtime for USB HID flight-simulation control panels: the LED feature-report
//! codec, the input-report decoder, the shared state mirror, and the device
//! handle with its LED write cache.

pub mod color;
pub mod description;
pub mod discovery;
pub mod error;
pub mod left_panel;
pub mod packet;
pub mod queue;
pub mod report;
pub mod right_panel;
pub mod right_stick;
pub mod shark_panel;
pub mod state;
pub mod throttle;
pub mod virpil_device;

pub use description::{
    LedList, ToAxisIndex, ToBoardAndLedNumber, ToButtonIndex, VirpilDeviceDescription,
};
pub use error::DeviceError;
pub use color::{color_to_byte, BoardType, Color, LedPower};
pub use packet::{command_id_for_command, packet_for_command};
pub use report::{decode_input, InputReport, MalformedReport, MAX_AXIS_VALUE};
pub use state::State;
pub use virpil_device::VirpilDevice;
