use vstd::prelude::*;

verus! {

#[verifier::external_type_specification]
#[verifier::external_body]
#[verifier::reject_recursive_types(T)]
pub struct ExSender<T>(crossbeam::channel::Sender<T>);

#[verifier::external_type_specification]
#[verifier::external_body]
#[verifier::reject_recursive_types(T)]
pub struct ExReceiver<T>(crossbeam::channel::Receiver<T>);

/// Relies on crossbeam::channel::bounded with capacity zero: a rendezvous
/// channel, where a send succeeds only while a receiver is waiting.
#[verifier::external_body]
pub(crate) fn rendezvous<T>() -> (crossbeam::channel::Sender<T>, crossbeam::channel::Receiver<T>) {
    crossbeam::channel::bounded(0)
}

/// Relies on crossbeam::channel::Sender::try_send: hands `value` to a waiting
/// receiver without blocking, and reports whether one took it. Whether one was
/// waiting depends on other threads, so nothing is promised of the result.
#[verifier::external_body]
pub(crate) fn offer<T>(sender: &crossbeam::channel::Sender<T>, value: T) -> bool {
    sender.try_send(value).is_ok()
}

/// Relies on crossbeam::channel::Receiver::clone: a second handle on the same
/// channel.
#[verifier::external_body]
pub(crate) fn share<T>(receiver: &crossbeam::channel::Receiver<T>) -> crossbeam::channel::Receiver<T> {
    receiver.clone()
}

} // verus!
