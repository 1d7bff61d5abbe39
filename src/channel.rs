use vstd::prelude::*;

use std::sync::mpsc::Sender;

verus! {

/// std::sync::mpsc::Sender, carried through as an opaque handle.
#[verifier::external_type_specification]
#[verifier::external_body]
#[verifier::reject_recursive_types(T)]
pub struct ExSender<T>(Sender<T>);

/// A send found the receiving side of the channel gone; the value was dropped.
#[derive(Clone, Copy, Debug, PartialEq, Eq, Structural)]
pub struct ChannelClosed;

/// Relies on std::sync::mpsc::Sender::send: it queues the value and reports
/// success, or reports failure when the receiver has been dropped.
#[verifier::external_body]
fn send_on<T>(tx: &Sender<T>, value: T) -> (delivered: bool) {
    tx.send(value).is_ok()
}

/// Pushes `value` into the channel without waiting for it to be taken.
/// Whether the receiver is still there is decided by the other side; when it
/// is gone the value is dropped and `ChannelClosed` reports it.
pub fn dispatch<T>(tx: &Sender<T>, value: T) -> (r: Result<(), ChannelClosed>) {
    if send_on(tx, value) {
        Ok(())
    } else {
        Err(ChannelClosed)
    }
}

} // verus!
