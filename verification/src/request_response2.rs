//! Requests that travel over a bare mpsc channel, each paired with the
//! oneshot sender that answers it.

use vstd::prelude::*;
use tokio::sync::mpsc;
use tokio::sync::oneshot;
use crate::channel::{closed_text, mpsc_channel, oneshot_channel, recv_error_text, send_error_text};
use crate::error::AppError;
use crate::text::{ascii_upper_seq, to_ascii_uppercase};

verus! {

/// A request together with the sender of its answer.
pub type Payload<Req, Res> = (Req, oneshot::Sender<Res>);

/// A request channel that holds up to 100 requests in flight.  Nothing is
/// stated of the two halves: tokio's handles are opaque to Verus, so neither
/// their capacity nor that they belong together can be spoken of.
pub fn channel<Req, Res>() -> (pair: (mpsc::Sender<Payload<Req, Res>>, mpsc::Receiver<Payload<Req, Res>>)) {
    mpsc_channel::<Payload<Req, Res>>(100)
}

/// Packs a request with a fresh answer channel: the payload to send and the
/// channel half that the answer arrives on.
pub fn prepare<Req, Res>(req: Req) -> (prepared: (Payload<Req, Res>, oneshot::Receiver<Res>))
    ensures
        prepared.0.0 == req,
{
    let (os_tx, os_rx) = oneshot_channel::<Res>();
    ((req, os_tx), os_rx)
}

/// What sending a request gives, from what the channel answered: nothing,
/// or, where the answering side is gone, `SendError` with the channel's
/// message.
pub fn sent<T>(outcome: Result<(), mpsc::error::SendError<T>>) -> (done: Result<(), AppError>)
    ensures
        outcome is Ok ==> done is Ok,
        outcome is Err ==> (done matches Err(AppError::SendError(msg)) && msg@ == closed_text()),
{
    match outcome {
        Ok(()) => Ok(()),
        Err(err) => Err(AppError::SendError(send_error_text(&err))),
    }
}

/// What waiting for the answer gives, from what the answer channel yielded:
/// the answer, or `UnknownError` with the channel's message.
pub fn answered<Res>(outcome: Result<Res, oneshot::error::RecvError>) -> (answer: Result<Res, AppError>)
    ensures
        outcome matches Ok(v) ==> answer == Ok::<Res, AppError>(v),
        outcome is Err ==> (answer matches Err(AppError::UnknownError(msg)) && msg@ == closed_text()),
{
    match outcome {
        Ok(v) => Ok(v),
        Err(err) => Err(AppError::UnknownError(recv_error_text(&err))),
    }
}

/// The answer to a request: the request in ASCII upper case.
pub fn get_response(req: String) -> (res: String)
    ensures
        res@ == ascii_upper_seq(req@),
{
    to_ascii_uppercase(req.as_str())
}

} // verus!
