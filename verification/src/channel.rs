//! The tokio channel types that the request/response plumbing carries, and
//! the synchronous calls into them.

use vstd::prelude::*;

verus! {

#[verifier::external_type_specification]
#[verifier::external_body]
#[verifier::reject_recursive_types(T)]
pub struct ExOneshotSender<T>(tokio::sync::oneshot::Sender<T>);

#[verifier::external_type_specification]
#[verifier::external_body]
#[verifier::reject_recursive_types(T)]
pub struct ExOneshotReceiver<T>(tokio::sync::oneshot::Receiver<T>);

#[verifier::external_type_specification]
#[verifier::external_body]
pub struct ExOneshotRecvError(tokio::sync::oneshot::error::RecvError);

#[verifier::external_type_specification]
#[verifier::external_body]
#[verifier::reject_recursive_types(T)]
pub struct ExMpscSender<T>(tokio::sync::mpsc::Sender<T>);

#[verifier::external_type_specification]
#[verifier::external_body]
#[verifier::reject_recursive_types(T)]
pub struct ExMpscReceiver<T>(tokio::sync::mpsc::Receiver<T>);

#[verifier::external_type_specification]
#[verifier::external_body]
#[verifier::reject_recursive_types(T)]
pub struct ExMpscUnboundedSender<T>(tokio::sync::mpsc::UnboundedSender<T>);

#[verifier::external_type_specification]
#[verifier::external_body]
#[verifier::reject_recursive_types(T)]
pub struct ExMpscSendError<T>(tokio::sync::mpsc::error::SendError<T>);

#[verifier::external_type_specification]
#[verifier::external_body]
pub struct ExIoError(std::io::Error);

/// `Clone` of `tokio::sync::mpsc::Sender`: another handle to the same
/// channel.  Nothing is stated of it: Verus sees no contents in a handle.
pub assume_specification<T>[ <tokio::sync::mpsc::Sender<T> as std::clone::Clone>::clone ](
    sender: &tokio::sync::mpsc::Sender<T>,
) -> tokio::sync::mpsc::Sender<T>;

/// The text that tokio's channel errors display.
pub open spec fn closed_text() -> Seq<char> {
    seq!['c', 'h', 'a', 'n', 'n', 'e', 'l', ' ', 'c', 'l', 'o', 's', 'e', 'd']
}

/// Calls `tokio::sync::oneshot::channel`: a fresh sender and its receiver.
/// Nothing is stated of the pair: Verus sees no contents in either handle.
#[verifier::external_body]
pub(crate) fn oneshot_channel<T>() -> (pair: (
    tokio::sync::oneshot::Sender<T>,
    tokio::sync::oneshot::Receiver<T>,
)) {
    tokio::sync::oneshot::channel::<T>()
}

/// Calls `tokio::sync::oneshot::Sender::send`.  It fails only where the
/// receiver is gone, which the call cannot know beforehand; when it fails it
/// hands the value back unchanged.
#[verifier::external_body]
pub(crate) fn oneshot_send<T>(sender: tokio::sync::oneshot::Sender<T>, value: T) -> (sent: Result<
    (),
    T,
>)
    ensures
        sent matches Err(back) ==> back == value,
{
    sender.send(value)
}

/// Calls `tokio::sync::mpsc::channel`, which panics where `buffer` is 0 or
/// more than the semaphore's limit `usize::MAX >> 3`.  Nothing is stated of
/// the pair: Verus sees no contents in either handle.
#[verifier::external_body]
pub(crate) fn mpsc_channel<T>(buffer: usize) -> (pair: (
    tokio::sync::mpsc::Sender<T>,
    tokio::sync::mpsc::Receiver<T>,
))
    requires
        0 < buffer <= usize::MAX / 8,
{
    tokio::sync::mpsc::channel::<T>(buffer)
}

/// Calls `tokio::sync::mpsc::UnboundedSender::send`.  It fails only where the
/// receiver is closed or gone, which the call cannot know beforehand; the
/// error then holds the value, which comes back unchanged.
#[verifier::external_body]
pub(crate) fn unbounded_send<T>(sender: &tokio::sync::mpsc::UnboundedSender<T>, value: T) -> (sent:
    Result<(), T>)
    ensures
        sent matches Err(back) ==> back == value,
{
    sender.send(value).map_err(|e| e.0)
}

/// Calls `to_string` on a `tokio::sync::mpsc::error::SendError`, whose
/// `Display` writes `channel closed`.
#[verifier::external_body]
pub(crate) fn send_error_text<T>(err: &tokio::sync::mpsc::error::SendError<T>) -> (text: String)
    ensures
        text@ == closed_text(),
{
    err.to_string()
}

/// Calls `to_string` on a `tokio::sync::oneshot::error::RecvError`, whose
/// `Display` writes `channel closed`.
#[verifier::external_body]
pub(crate) fn recv_error_text(err: &tokio::sync::oneshot::error::RecvError) -> (text: String)
    ensures
        text@ == closed_text(),
{
    err.to_string()
}

} // verus!
