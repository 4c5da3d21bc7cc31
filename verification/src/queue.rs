//! The unbounded command queue between a device handle and its writer.

use crossbeam::channel::{Receiver, SendError, Sender};
use vstd::prelude::*;

verus! {

/// The producing end of a `crossbeam::channel` queue, carried as an opaque value.
#[verifier::external_type_specification]
#[verifier::external_body]
#[verifier::reject_recursive_types(T)]
pub struct ExSender<T>(Sender<T>);

/// The consuming end of a `crossbeam::channel` queue, carried as an opaque value.
#[verifier::external_type_specification]
#[verifier::external_body]
#[verifier::reject_recursive_types(T)]
pub struct ExReceiver<T>(Receiver<T>);

/// The error of `Sender::send`, which hands the refused message back.
#[verifier::external_type_specification]
#[verifier::external_body]
#[verifier::reject_recursive_types(T)]
pub struct ExSendError<T>(SendError<T>);

/// `crossbeam::channel::unbounded` makes a queue and returns its two ends.
/// Nothing is claimed of them.
pub assume_specification<T>[ crossbeam::channel::unbounded::<T> ]() -> (ends: (
    Sender<T>,
    Receiver<T>,
));

/// `Sender::send` hands a message to the queue; it fails when every receiver
/// is gone. Which of the two happens depends on the other end, so nothing is
/// claimed of the result. On a queue made by `unbounded` the call does not block.
pub assume_specification<T>[ Sender::<T>::send ](sender: &Sender<T>, msg: T) -> (sent: Result<
    (),
    SendError<T>,
>);

/// `Sender::len` counts the messages that wait in the queue. The consumer
/// drains it meanwhile, so nothing is claimed of the number.
pub assume_specification<T>[ Sender::<T>::len ](sender: &Sender<T>) -> (waiting: usize);

} // verus!
