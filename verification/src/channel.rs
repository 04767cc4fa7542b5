use vstd::prelude::*;
use std::sync::mpsc::Receiver;
use std::sync::mpsc::Sender;
use std::time::Duration;

verus! {

/// The sending end of a channel of the standard library. Nothing is known of
/// what is inside.
#[verifier::external_type_specification]
#[verifier::external_body]
#[verifier::reject_recursive_types(T)]
pub struct ExSender<T>(Sender<T>);

/// The receiving end of a channel of the standard library. Nothing is known
/// of what is inside.
#[verifier::external_type_specification]
#[verifier::external_body]
#[verifier::reject_recursive_types(T)]
pub struct ExReceiver<T>(Receiver<T>);

/// `std::sync::mpsc::channel`: a new channel without a bound on what it
/// holds. Nothing is claimed of the two ends.
#[verifier::external_body]
pub(crate) fn channel<T>() -> (ends: (Sender<T>, Receiver<T>)) {
    std::sync::mpsc::channel()
}

/// `Sender::send`: puts `msg` on the channel without blocking. The result
/// says whether the receiving end was still there; nothing is claimed of it,
/// since that depends on what the other side has done.
#[verifier::external_body]
pub(crate) fn send<T>(sender: &Sender<T>, msg: T) -> (sent: bool) {
    match sender.send(msg) {
        Ok(()) => true,
        Err(_) => false,
    }
}

/// `Sender::clone`: another sending end of the same channel. Nothing is
/// claimed of it.
pub assume_specification<T>[ <Sender<T> as Clone>::clone ](sender: &Sender<T>) -> (copy: Sender<T>);

/// `Receiver::recv`: blocks until a message is there or every sending end is
/// gone, and gives `None` in the second case. Nothing is claimed of the
/// message, since that depends on what the other side has sent.
#[verifier::external_body]
pub(crate) fn recv<T>(receiver: &Receiver<T>) -> (msg: Option<T>) {
    match receiver.recv() {
        Ok(msg) => Some(msg),
        Err(_) => None,
    }
}

/// `Receiver::recv_timeout`: as `recv`, but also gives `None` when no
/// message came within `timeout`. Nothing is claimed of the result.
#[verifier::external_body]
pub(crate) fn recv_timeout<T>(receiver: &Receiver<T>, timeout: Duration) -> (msg: Option<T>) {
    match receiver.recv_timeout(timeout) {
        Ok(msg) => Some(msg),
        Err(_) => None,
    }
}

/// `Duration::from_millis`: the span of that many milliseconds. The span is
/// only handed on to `recv_timeout`, so nothing is claimed of it.
#[verifier::external_body]
pub(crate) fn millis(ms: u64) -> (span: Duration) {
    Duration::from_millis(ms)
}

/// `time::precise_time_ns`: the reading of a high-resolution clock, in
/// nanoseconds since a moment that is not fixed. Nothing is claimed of it.
#[verifier::external_body]
pub(crate) fn precise_time_ns() -> (now: u64) {
    time::precise_time_ns()
}

/// The clock was read and showed `now`.
pub open(crate) spec fn clock_showed(now: u64) -> bool {
    call_ensures(precise_time_ns, (), now)
}

/// `msg` was handed to `send` on `sender`.
pub open(crate) spec fn was_sent<T>(sender: Sender<T>, msg: T) -> bool {
    exists|sent: bool| #[trigger] call_ensures(send::<T>, (&sender, msg), sent)
}

/// A blocking receive on `receiver` gave `msg`; it gives `None` only when
/// every sending end is gone.
pub open(crate) spec fn came<T>(receiver: Receiver<T>, msg: Option<T>) -> bool {
    call_ensures(recv::<T>, (&receiver,), msg)
}

/// A receive on `receiver` that was told to wait no longer than `timeout_ms`
/// milliseconds gave `msg`.
pub open(crate) spec fn came_within<T>(receiver: Receiver<T>, timeout_ms: u64, msg: Option<T>) -> bool {
    exists|span: Duration| #[trigger]
        call_ensures(millis, (timeout_ms,), span) && call_ensures(
            recv_timeout::<T>,
            (&receiver, span),
            msg,
        )
}

} // verus!
