//! The handle of an open device: typed reads of its live state, and LED
//! writes that are skipped when the LED already has the color.

use std::sync::Arc;
use crossbeam::channel::{unbounded, Receiver, Sender};
use vstd::prelude::*;
use crate::color::{same_color, Color, LedPower};
use crate::description::{
    LedList, ToAxisIndex, ToBoardAndLedNumber, ToButtonIndex, VirpilDeviceDescription,
};
use crate::error::DeviceError;
use crate::packet::{led_packet, packet_for_command};
use crate::state::State;

verus! {

/// The feature report that sets an LED to a color.
pub open spec fn packet_of_led<L: ToBoardAndLedNumber>(led: L, color: Color) -> Seq<u8> {
    led_packet(led.board_and_led().0, led.board_and_led().1, color)
}

/// The commands that reset every LED of a model, in declared order.
pub open spec fn reset_commands<L: LedList>() -> Seq<(L, Color)> {
    Seq::new(L::led_count(), |i: int| (L::led_at(i as usize), LedPower::DEFAULT_RED))
}

/// How many commands a request to set an LED offers to the queue: one when
/// the color differs from the one last requested for that LED, else none.
pub open spec fn writes_for(colors: Seq<Color>, position: int, color: Color) -> nat {
    if colors[position] == color {
        0
    } else {
        1
    }
}

/// The colors last requested, after a request to set an LED that the queue took.
pub open spec fn colors_after(colors: Seq<Color>, position: int, color: Color) -> Seq<Color> {
    colors.update(position, color)
}

/// Settles a request for a new color once the queue has answered: if the
/// queue took the command, the request succeeds with the color requested
/// before and the cache holds the new color; if the queue refused it, the
/// request fails and the cache keeps the color requested before.
pub fn settle_request(previous: Color, color: Color, taken: bool) -> (outcome: (
    Result<Color, DeviceError>,
    Color,
))
    ensures
        taken ==> outcome == (Ok::<Color, DeviceError>(previous), color),
        !taken ==> outcome == (Err::<Color, DeviceError>(DeviceError::QueueClosed), previous),
{
    if taken {
        (Ok(previous), color)
    } else {
        (Err(DeviceError::QueueClosed), previous)
    }
}

/// Builds the feature report that sets an LED to a color.
pub fn packet_for_led<L: ToBoardAndLedNumber>(led: &L, color: Color) -> (out: [u8; 38])
    ensures
        out@ == packet_of_led(*led, color),
{
    let (board_type, led_number) = led.to_board_and_led_number();
    packet_for_command(board_type, led_number, color)
}

/// The feature reports that set every LED of a model to one color, in
/// declared order. They are written to the device before its workers start.
pub fn priming_packets<D: VirpilDeviceDescription>(starting_color: Color) -> (packets: Vec<
    [u8; 38],
>)
    ensures
        packets@.len() == D::Led::led_count(),
        forall|i: int|
            0 <= i < packets@.len() ==> (#[trigger] packets@[i])@ == packet_of_led(
                D::Led::led_at(i as usize),
                starting_color,
            ),
{
    let count = D::Led::count();
    let mut packets: Vec<[u8; 38]> = Vec::with_capacity(count);
    let mut position: usize = 0;
    while position < count
        invariant
            count == D::Led::led_count(),
            position <= count,
            packets@.len() == position,
            forall|i: int|
                0 <= i < packets@.len() ==> (#[trigger] packets@[i])@ == packet_of_led(
                    D::Led::led_at(i as usize),
                    starting_color,
                ),
        decreases count - position,
    {
        let led = D::Led::nth(position);
        packets.push(packet_for_led(&led, starting_color));
        position += 1;
    }
    packets
}

/// An open device of the model `D`.
pub struct VirpilDevice<D: VirpilDeviceDescription> {
    state: Arc<State>,
    led_write: Option<Sender<(D::Led, Color)>>,
    led_states: Vec<Color>,
    offered: Ghost<Seq<(D::Led, Color)>>,
}

impl<D: VirpilDeviceDescription> VirpilDevice<D> {
    #[verifier::type_invariant]
    spec fn fits_the_model(&self) -> bool {
        &&& self.led_states@.len() == D::Led::led_count()
        &&& self.state.axis_count() == D::Axis::axis_count()
        &&& self.state.button_count() == D::Buttons::button_count()
    }

    /// The color last requested for each LED, by the LED's position.
    pub closed spec fn led_colors(&self) -> Seq<Color> {
        self.led_states@
    }

    /// The color last requested for an LED.
    pub open spec fn cached(&self, led: D::Led) -> Color {
        self.led_colors()[led.position_of() as int]
    }

    /// Every command that this handle offered to the queue since the device
    /// was opened, oldest first, whether the queue took it or refused it.
    pub closed spec fn offered(&self) -> Seq<(D::Led, Color)> {
        self.offered@
    }

    /// Whether the handle still holds the producing end of the queue.
    pub closed spec fn is_open(&self) -> bool {
        self.led_write.is_some()
    }

    /// The state that this handle reads.
    pub closed spec fn shared_state(&self) -> State {
        *self.state
    }

    /// A handle whose cache holds `starting_color` for every LED, with a fresh
    /// state and an empty queue, and the consuming end of that queue.
    pub fn new(starting_color: Color) -> (opened: (Self, Receiver<(D::Led, Color)>))
        ensures
            opened.0.is_open(),
            opened.0.led_colors() == Seq::new(D::Led::led_count(), |i: int| starting_color),
            opened.0.offered() == Seq::<(D::Led, Color)>::empty(),
    {
        let count = D::Led::count();
        let mut led_states: Vec<Color> = Vec::with_capacity(count);
        while led_states.len() < count
            invariant
                count == D::Led::led_count(),
                led_states@.len() <= count,
                forall|i: int| 0 <= i < led_states@.len() ==> led_states@[i] == starting_color,
            decreases count - led_states@.len(),
        {
            led_states.push(starting_color);
        }
        let state = Arc::new(State::new(D::Axis::count(), D::Buttons::count()));
        let (sender, receiver) = unbounded();
        let device = VirpilDevice {
            state,
            led_write: Some(sender),
            led_states,
            offered: Ghost(Seq::empty()),
        };
        assert(device.led_states@ =~= Seq::new(D::Led::led_count(), |i: int| starting_color));
        (device, receiver)
    }

    /// The state that the poller fills and this handle reads.
    pub fn state(&self) -> (state: &Arc<State>)
        ensures
            **state == self.shared_state(),
            state.axis_count() == D::Axis::axis_count(),
            state.button_count() == D::Buttons::button_count(),
    {
        proof {
            use_type_invariant(self);
        }
        &self.state
    }

    /// Whether a button was pressed in the report last stored.
    pub fn button_state(&self, button: D::Buttons) -> bool {
        proof {
            use_type_invariant(self);
        }
        self.state.button_state(button.to_button_index())
    }

    /// The value of an axis in the report last stored.
    pub fn axis_state(&self, axis: D::Axis) -> u16 {
        proof {
            use_type_invariant(self);
        }
        self.state.read_axis(axis.to_axis_index() as usize)
    }

    /// Requests a color for an LED and returns the color requested before.
    ///
    /// A request for the color that the LED already has is answered at once
    /// and offers nothing to the queue. Any other request on an open handle
    /// offers one command to the queue and is settled by `settle_request`:
    /// if the queue takes the command, the cache holds the new color; if the
    /// queue is closed, the request fails and the cache is unchanged.
    pub fn set_led(&mut self, led: D::Led, color: Color) -> (result: Result<Color, DeviceError>)
        ensures
            final(self).is_open() == old(self).is_open(),
            final(self).shared_state() == old(self).shared_state(),
            old(self).led_colors().len() == D::Led::led_count(),
            final(self).led_colors().len() == D::Led::led_count(),
            old(self).cached(led) == color ==> {
                &&& result == Ok::<Color, DeviceError>(color)
                &&& final(self).led_colors() == old(self).led_colors()
                &&& final(self).offered() == old(self).offered()
            },
            old(self).cached(led) != color && !old(self).is_open() ==> {
                &&& result == Err::<Color, DeviceError>(DeviceError::QueueClosed)
                &&& final(self).led_colors() == old(self).led_colors()
                &&& final(self).offered() == old(self).offered()
            },
            old(self).cached(led) != color && old(self).is_open() ==> {
                &&& final(self).offered() == old(self).offered().push((led, color))
                &&& match result {
                    Ok(previous) => {
                        &&& previous == old(self).cached(led)
                        &&& final(self).led_colors() == colors_after(
                            old(self).led_colors(),
                            led.position_of() as int,
                            color,
                        )
                    },
                    Err(error) => {
                        &&& error == DeviceError::QueueClosed
                        &&& final(self).led_colors() == old(self).led_colors()
                    },
                }
            },
            final(self).offered().len() == old(self).offered().len() + (if old(self).is_open() {
                writes_for(old(self).led_colors(), led.position_of() as int, color)
            } else {
                0
            }),
    {
        proof {
            use_type_invariant(&*self);
        }
        let position = led.position();
        let previous = self.led_states[position];
        if same_color(previous, color) {
            return Ok(color);
        }
        match &self.led_write {
            None => Err(DeviceError::QueueClosed),
            Some(sender) => {
                let sent = sender.send((led, color));
                self.offered = Ghost(self.offered@.push((led, color)));
                let (result, cached) = settle_request(previous, color, sent.is_ok());
                self.led_states[position] = cached;
                assert(!sent.is_ok() ==> self.led_states@ =~= old(self).led_states@);
                result
            },
        }
    }

    /// The number of commands that wait in the queue; zero once the handle is
    /// shut down. The writer drains the queue meanwhile.
    pub fn send_queue_size(&self) -> (waiting: usize)
        ensures
            !self.is_open() ==> waiting == 0,
    {
        match &self.led_write {
            Some(sender) => sender.len(),
            None => 0,
        }
    }

    /// Shuts the device down: asks the poller to stop, offers the queue one
    /// reset command for every LED, in declared order, and closes the queue.
    /// On a handle that is shut down already nothing happens.
    pub fn shutdown(&mut self)
        ensures
            !final(self).is_open(),
            final(self).shared_state() == old(self).shared_state(),
            old(self).led_colors().len() == D::Led::led_count(),
            final(self).led_colors().len() == D::Led::led_count(),
            old(self).is_open() ==> {
                &&& final(self).offered() == old(self).offered() + reset_commands::<D::Led>()
                &&& final(self).led_colors() == Seq::new(
                    D::Led::led_count(),
                    |i: int| LedPower::DEFAULT_RED,
                )
            },
            !old(self).is_open() ==> {
                &&& final(self).offered() == old(self).offered()
                &&& final(self).led_colors() == old(self).led_colors()
            },
    {
        proof {
            use_type_invariant(&*self);
        }
        match &self.led_write {
            None => {},
            Some(sender) => {
                self.state.signal_stop();
                let count = D::Led::count();
                let mut position: usize = 0;
                while position < count
                    invariant
                        count == D::Led::led_count(),
                        position <= count,
                        self.led_states@.len() == count,
                        self.state == old(self).state,
                        self.state.axis_count() == D::Axis::axis_count(),
                        self.state.button_count() == D::Buttons::button_count(),
                        self.led_write == old(self).led_write,
                        self.offered@ == old(self).offered@ + reset_commands::<D::Led>().take(
                            position as int,
                        ),
                        forall|i: int|
                            0 <= i < position ==> self.led_states@[i] == LedPower::DEFAULT_RED,
                    decreases count - position,
                {
                    let led = D::Led::nth(position);
                    let _ = sender.send((led, LedPower::DEFAULT_RED));
                    self.offered = Ghost(self.offered@.push((led, LedPower::DEFAULT_RED)));
                    self.led_states[position] = LedPower::DEFAULT_RED;
                    position += 1;
                    assert(self.offered@ =~= old(self).offered@ + reset_commands::<
                        D::Led,
                    >().take(position as int));
                }
                assert(reset_commands::<D::Led>().take(position as int) =~= reset_commands::<
                    D::Led,
                >());
                assert(self.led_states@ =~= Seq::new(
                    D::Led::led_count(),
                    |i: int| LedPower::DEFAULT_RED,
                ));
            },
        }
        self.led_write = None;
    }
}

/// Where the queue took a request for a color, a second request for the same
/// color of the same LED finds the color in the cache, offers no command, and
/// leaves the cache as it was: the two requests together offer what the first
/// alone offers, which is one command where the color was new.
pub proof fn lemma_set_led_idempotent(colors: Seq<Color>, position: int, color: Color)
    requires
        0 <= position < colors.len(),
    ensures
        colors_after(colors, position, color)[position] == color,
        writes_for(colors_after(colors, position, color), position, color) == 0,
        colors_after(colors_after(colors, position, color), position, color) == colors_after(
            colors,
            position,
            color,
        ),
        colors[position] != color ==> writes_for(colors, position, color) + writes_for(
            colors_after(colors, position, color),
            position,
            color,
        ) == 1,
{
    assert(colors_after(colors_after(colors, position, color), position, color) =~= colors_after(
        colors,
        position,
        color,
    ));
}

} // verus!
