//! Decoding of the input reports that a device streams: one report-id byte,
//! the axes as little-endian 16-bit values, then the buttons, eight to a byte.

use vstd::prelude::*;

verus! {

/// The axis value that stands for 100%.
pub const MAX_AXIS_VALUE: u16 = 0x4000;

/// The axes and button groups of one input report.
#[derive(Debug)]
pub struct InputReport {
    /// One value per axis, in declared order.
    pub axes: Vec<u16>,
    /// One byte per eight buttons; the low bit is the lowest button of its group.
    pub buttons: Vec<u8>,
}

/// An input report whose length the device's description does not allow.
#[derive(Debug)]
pub struct MalformedReport {
    /// The number of bytes received.
    pub length: usize,
    /// The bytes received.
    pub bytes: Vec<u8>,
}

/// The number of bytes that hold `button_count` buttons.
pub open spec fn button_group_count(button_count: int) -> int {
    button_count / 8 + if button_count % 8 > 0 {
        1int
    } else {
        0int
    }
}

/// The length of a well-formed input report.
pub open spec fn report_len(axis_count: int, button_count: int) -> int {
    1 + 2 * axis_count + button_group_count(button_count)
}

/// The 16-bit value of two bytes, low byte first.
pub open spec fn axis_value(low: u8, high: u8) -> u16 {
    (low + 256 * high) as u16
}

/// The axis values held by the bytes of a report.
pub open spec fn decoded_axes(bytes: Seq<u8>, axis_count: nat) -> Seq<u16> {
    Seq::new(axis_count, |i: int| axis_value(bytes[1 + 2 * i], bytes[2 + 2 * i]))
}

/// The button groups held by the bytes of a report: all that follows the axes.
pub open spec fn decoded_buttons(bytes: Seq<u8>, axis_count: nat) -> Seq<u8> {
    bytes.subrange(1 + 2 * (axis_count as int), bytes.len() as int)
}

/// Whether the button with the given bit index is set in its group's byte.
pub open spec fn button_bit(group: u8, index: u8) -> bool {
    group & (1u8 << (index % 8)) > 0
}

/// The number of bytes that hold `button_count` buttons.
pub fn button_groups(button_count: usize) -> (groups: usize)
    ensures
        groups == button_group_count(button_count as int),
{
    if button_count % 8 > 0 {
        button_count / 8 + 1
    } else {
        button_count / 8
    }
}

/// Reads a little-endian 16-bit value.
pub fn axis_from_bytes(low: u8, high: u8) -> (value: u16)
    ensures
        value == axis_value(low, high),
{
    low as u16 + 256 * (high as u16)
}

/// The group that holds a button: eight buttons to a group, in index order.
pub fn button_group_of(index: u8) -> (group: usize)
    ensures
        group == index / 8,
{
    (index / 8) as usize
}

/// Tells whether a button is set in the byte of its group.
pub fn button_in_group(group: u8, index: u8) -> (pressed: bool)
    ensures
        pressed == button_bit(group, index),
{
    group & (1u8 << (index % 8)) > 0
}

/// Tells whether a received length is that of a well-formed report.
pub fn is_report_length(length: usize, axis_count: usize, button_count: usize) -> (fits: bool)
    ensures
        fits == (length == report_len(axis_count as int, button_count as int)),
{
    let groups = button_groups(button_count);
    if length < 1 || length - 1 < groups {
        return false;
    }
    let axis_bytes = length - 1 - groups;
    axis_bytes % 2 == 0 && axis_bytes / 2 == axis_count
}

/// Decodes one input report of a device with the given numbers of axes and
/// buttons. The report is accepted exactly when its length is the one that
/// those numbers give; otherwise its length and bytes are handed back.
pub fn decode_input(buffer: &[u8], axis_count: usize, button_count: usize) -> (result: Result<
    InputReport,
    MalformedReport,
>)
    ensures
        result.is_ok() <==> buffer@.len() == report_len(axis_count as int, button_count as int),
        match result {
            Ok(report) => {
                &&& report.axes@ == decoded_axes(buffer@, axis_count as nat)
                &&& report.buttons@ == decoded_buttons(buffer@, axis_count as nat)
                &&& report.buttons@.len() == button_group_count(button_count as int)
            },
            Err(error) => error.length == buffer@.len() && error.bytes@ == buffer@,
        },
{
    let length = buffer.len();
    if !is_report_length(length, axis_count, button_count) {
        let mut bytes: Vec<u8> = Vec::with_capacity(length);
        let mut i: usize = 0;
        while i < length
            invariant
                length == buffer@.len(),
                i <= length,
                bytes@ == buffer@.subrange(0, i as int),
            decreases length - i,
        {
            bytes.push(buffer[i]);
            i += 1;
            assert(bytes@ =~= buffer@.subrange(0, i as int));
        }
        assert(bytes@ =~= buffer@);
        return Err(MalformedReport { length, bytes });
    }
    let mut axes: Vec<u16> = Vec::with_capacity(axis_count);
    let mut a: usize = 0;
    while a < axis_count
        invariant
            length == buffer@.len(),
            length == report_len(axis_count as int, button_count as int),
            a <= axis_count,
            axes@ == decoded_axes(buffer@, a as nat),
        decreases axis_count - a,
    {
        axes.push(axis_from_bytes(buffer[1 + 2 * a], buffer[2 + 2 * a]));
        a += 1;
        assert(axes@ =~= decoded_axes(buffer@, a as nat));
    }
    let mut buttons: Vec<u8> = Vec::with_capacity(length - 1 - 2 * axis_count);
    let mut b: usize = 1 + 2 * axis_count;
    while b < length
        invariant
            length == buffer@.len(),
            1 + 2 * axis_count <= b <= length,
            buttons@ == buffer@.subrange(1 + 2 * axis_count, b as int),
        decreases length - b,
    {
        buttons.push(buffer[b]);
        b += 1;
        assert(buttons@ =~= buffer@.subrange(1 + 2 * axis_count, b as int));
    }
    Ok(InputReport { axes, buttons })
}

} // verus!
