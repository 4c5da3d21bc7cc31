//! The live state of a device, shared between the worker that polls it and
//! the callers that read it. Each axis and each group of eight buttons is a
//! cell of its own: a reader may see one report's axes beside another's buttons.

use std::sync::atomic::{AtomicBool, AtomicU16, AtomicU8, Ordering};
use vstd::prelude::*;
use crate::report::{
    button_group_count, button_group_of, button_groups, button_in_group, decode_input, report_len,
    InputReport, MalformedReport,
};

verus! {

/// One cell per axis, one per group of eight buttons, and a stop flag.
pub struct State {
    stop: AtomicBool,
    axis: Vec<AtomicU16>,
    buttons: Vec<AtomicU8>,
    button_count: usize,
}

impl State {
    #[verifier::type_invariant]
    spec fn one_cell_per_group(&self) -> bool {
        self.buttons@.len() == button_group_count(self.button_count as int)
    }

    /// The number of axes that the state mirrors.
    pub closed spec fn axis_count(&self) -> nat {
        self.axis@.len()
    }

    /// The number of buttons that the state mirrors.
    pub closed spec fn button_count(&self) -> nat {
        self.button_count as nat
    }

    /// The number of button-group cells.
    pub open spec fn group_count(&self) -> nat {
        button_group_count(self.button_count() as int) as nat
    }

    /// A state for a device with the given numbers of axes and buttons: every
    /// cell zero, the stop flag clear.
    pub fn new(axis_count: usize, button_count: usize) -> (state: State)
        ensures
            state.axis_count() == axis_count,
            state.button_count() == button_count,
    {
        let groups = button_groups(button_count);
        let mut axis: Vec<AtomicU16> = Vec::with_capacity(axis_count);
        while axis.len() < axis_count
            invariant
                axis@.len() <= axis_count,
            decreases axis_count - axis@.len(),
        {
            axis.push(AtomicU16::new(0));
        }
        let mut buttons: Vec<AtomicU8> = Vec::with_capacity(groups);
        while buttons.len() < groups
            invariant
                buttons@.len() <= groups,
            decreases groups - buttons@.len(),
        {
            buttons.push(AtomicU8::new(0));
        }
        State { stop: AtomicBool::new(false), axis, buttons, button_count }
    }

    /// The number of axes that the state mirrors.
    pub fn axes(&self) -> (count: usize)
        ensures
            count == self.axis_count(),
    {
        self.axis.len()
    }

    /// The number of buttons that the state mirrors.
    pub fn buttons(&self) -> (count: usize)
        ensures
            count == self.button_count(),
    {
        self.button_count
    }

    /// The value last stored for an axis.
    pub fn read_axis(&self, index: usize) -> u16
        requires
            index < self.axis_count(),
    {
        self.axis[index].load(Ordering::SeqCst)
    }

    /// The byte last stored for a group of eight buttons.
    pub fn read_button_group(&self, index: usize) -> u8
        requires
            index < self.group_count(),
    {
        proof {
            use_type_invariant(self);
        }
        self.buttons[index].load(Ordering::SeqCst)
    }

    /// Whether a button was pressed in the report last stored.
    pub fn button_state(&self, index: u8) -> bool
        requires
            index < self.button_count(),
    {
        let group = self.read_button_group(button_group_of(index));
        button_in_group(group, index)
    }

    /// Asks the poller to stop at its next cycle.
    pub fn signal_stop(&self) {
        self.stop.store(true, Ordering::SeqCst);
    }

    /// Whether the poller was asked to stop.
    pub fn is_stopped(&self) -> bool {
        self.stop.load(Ordering::SeqCst)
    }

    /// Stores every field of a decoded report, each in its own cell.
    pub fn store_report(&self, report: &InputReport)
        requires
            report.axes@.len() == self.axis_count(),
            report.buttons@.len() == self.group_count(),
    {
        proof {
            use_type_invariant(self);
        }
        let mut a: usize = 0;
        while a < report.axes.len()
            invariant
                report.axes@.len() == self.axis@.len(),
            decreases report.axes@.len() - a,
        {
            self.axis[a].store(report.axes[a], Ordering::SeqCst);
            a += 1;
        }
        let mut b: usize = 0;
        while b < report.buttons.len()
            invariant
                report.buttons@.len() == self.buttons@.len(),
            decreases report.buttons@.len() - b,
        {
            self.buttons[b].store(report.buttons[b], Ordering::SeqCst);
            b += 1;
        }
    }

    /// Takes the bytes of one read: a report of the right length is decoded
    /// and stored; any other is handed back and leaves the cells alone.
    pub fn accept_report(&self, buffer: &[u8]) -> (result: Result<(), MalformedReport>)
        ensures
            result.is_ok() <==> buffer@.len() == report_len(
                self.axis_count() as int,
                self.button_count() as int,
            ),
            match result {
                Ok(_) => true,
                Err(error) => error.length == buffer@.len() && error.bytes@ == buffer@,
            },
    {
        match decode_input(buffer, self.axis.len(), self.button_count) {
            Ok(report) => {
                self.store_report(&report);
                Ok(())
            },
            Err(error) => Err(error),
        }
    }
}

} // verus!
