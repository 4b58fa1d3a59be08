//! Requests that travel to an answering task over an mpsc channel, each with
//! a oneshot channel for its answer.

use vstd::prelude::*;
use tokio::sync::mpsc;
use tokio::sync::oneshot;
use crate::channel::{closed_text, mpsc_channel, oneshot_channel, oneshot_send, send_error_text};
use crate::error::{AppError, error_text};
use crate::text::{ascii_upper_seq, to_ascii_uppercase};

verus! {

/// A request together with the handle that answers it.
pub type Payload<Req, Res> = (Req, Responder<Res>);

/// The handle that answers one request.
#[verifier::reject_recursive_types(Res)]
pub struct Responder<Res> {
    sender: oneshot::Sender<Res>,
}

impl<Res> Responder<Res> {
    /// Sends the answer.  Where the requester no longer waits, the answer
    /// comes back as the error.
    pub fn send(self, response: Res) -> (sent: Result<(), Res>)
        ensures
            sent matches Err(back) ==> back == response,
    {
        oneshot_send(self.sender, response)
    }
}

/// The answering side: where the requests arrive.
#[verifier::reject_recursive_types(Req)]
#[verifier::reject_recursive_types(Res)]
pub struct RequestReceiver<Req, Res> {
    receiver: mpsc::Receiver<Payload<Req, Res>>,
}

impl<Req, Res> RequestReceiver<Req, Res> {
    /// The channel half that the requests arrive on.
    pub closed spec fn spec_inbox(&self) -> mpsc::Receiver<Payload<Req, Res>> {
        self.receiver
    }

    /// The channel half that the requests arrive on.
    pub fn inbox(&mut self) -> (inbox: &mut mpsc::Receiver<Payload<Req, Res>>)
        ensures
            *inbox == old(self).spec_inbox(),
            final(self).spec_inbox() == *final(inbox),
    {
        &mut self.receiver
    }

    /// What a receive gives, from what the channel yielded: the request, or,
    /// once every requester is gone, `ReceiveError`.
    pub fn received(payload: Option<Payload<Req, Res>>) -> (outcome: Result<
        Payload<Req, Res>,
        AppError,
    >)
        ensures
            match payload {
                Some(p) => outcome == Ok::<Payload<Req, Res>, AppError>(p),
                None => outcome == Err::<Payload<Req, Res>, AppError>(AppError::ReceiveError),
            },
    {
        match payload {
            Some(p) => Ok(p),
            None => Err(AppError::ReceiveError),
        }
    }
}

/// The requesting side's wait for one answer.
#[verifier::reject_recursive_types(Res)]
pub struct ResponseReceiver<Res> {
    os_rx: Option<oneshot::Receiver<Res>>,
}

impl<Res> ResponseReceiver<Res> {
    /// Whether the answer is still to be received.
    pub closed spec fn is_pending(&self) -> bool {
        self.os_rx is Some
    }

    /// The channel half that the answer arrives on, while it is held.
    pub closed spec fn pending_receiver(&self) -> Option<oneshot::Receiver<Res>> {
        self.os_rx
    }

    /// Takes the channel half that the answer arrives on.  The first call
    /// gets it; every later call fails with `ReceiveError`.
    pub fn take_pending(&mut self) -> (taken: Result<oneshot::Receiver<Res>, AppError>)
        ensures
            !final(self).is_pending(),
            final(self).pending_receiver() is None,
            old(self).is_pending() <==> old(self).pending_receiver() is Some,
            taken == match old(self).pending_receiver() {
                Some(rx) => Ok::<oneshot::Receiver<Res>, AppError>(rx),
                None => Err::<oneshot::Receiver<Res>, AppError>(AppError::ReceiveError),
            },
    {
        match self.os_rx.take() {
            Some(rx) => Ok(rx),
            None => Err(AppError::ReceiveError),
        }
    }

    /// What a receive gives, from what the answer channel yielded: the
    /// answer, or the error that the answering side went away.
    pub fn answered(outcome: Result<Res, oneshot::error::RecvError>) -> (answer: Result<Res, AppError>)
        ensures
            match outcome {
                Ok(v) => answer == Ok::<Res, AppError>(v),
                Err(e) => answer == Err::<Res, AppError>(AppError::TokioRecvErrorError(e)),
            },
    {
        match outcome {
            Ok(v) => Ok(v),
            Err(e) => Err(AppError::from(e)),
        }
    }
}

/// The requesting side: where requests are sent.
#[derive(Clone, Debug)]
#[verifier::reject_recursive_types(Req)]
#[verifier::reject_recursive_types(Res)]
pub struct RequestSender<Req, Res> {
    sender: mpsc::Sender<Payload<Req, Res>>,
}

impl<Req, Res> RequestSender<Req, Res> {
    /// The channel half that the requests leave on.
    pub closed spec fn spec_outbox(&self) -> mpsc::Sender<Payload<Req, Res>> {
        self.sender
    }

    /// The channel half that the requests leave on.
    pub fn outbox(&self) -> (outbox: &mpsc::Sender<Payload<Req, Res>>)
        ensures
            *outbox == self.spec_outbox(),
    {
        &self.sender
    }

    /// Packs a request with a fresh answer channel: the payload to send and
    /// the wait for its answer.
    pub fn prepare(req: Req) -> (prepared: (Payload<Req, Res>, ResponseReceiver<Res>))
        ensures
            prepared.0.0 == req,
            prepared.1.is_pending(),
    {
        let (os_tx, os_rx) = oneshot_channel::<Res>();
        let responder = Responder { sender: os_tx };
        let payload: Payload<Req, Res> = (req, responder);
        let receiver = ResponseReceiver { os_rx: Some(os_rx) };
        (payload, receiver)
    }

    /// What a send gives, from what the channel answered: the wait for the
    /// answer, or, where the answering side is gone, `SendError` with the
    /// channel's message.
    pub fn sent(
        outcome: Result<(), mpsc::error::SendError<Payload<Req, Res>>>,
        receiver: ResponseReceiver<Res>,
    ) -> (waiting: Result<ResponseReceiver<Res>, AppError>)
        ensures
            outcome is Ok ==> waiting == Ok::<ResponseReceiver<Res>, AppError>(receiver),
            outcome is Err ==> (waiting matches Err(AppError::SendError(msg)) && msg@ == closed_text()),
    {
        match outcome {
            Ok(()) => Ok(receiver),
            Err(err) => Err(AppError::SendError(send_error_text(&err))),
        }
    }

    /// What a whole exchange gives, from what receiving the answer gave:
    /// the answer, or `UnknownError` with the message of the error.
    pub fn exchanged(received: Result<Res, AppError>) -> (answer: Result<Res, AppError>)
        ensures
            match received {
                Ok(v) => answer == Ok::<Res, AppError>(v),
                Err(e) => answer matches Err(AppError::UnknownError(msg)) && msg@ == error_text(e),
            },
    {
        match received {
            Ok(v) => Ok(v),
            Err(err) => Err(AppError::UnknownError(err.message())),
        }
    }
}

/// A request channel that holds up to 100 requests in flight.  Nothing is
/// stated of the two halves: tokio's handles are opaque to Verus, so neither
/// their capacity nor that they belong together can be spoken of.
pub fn channel<Req, Res>() -> (pair: (RequestSender<Req, Res>, RequestReceiver<Req, Res>)) {
    let (tx, rx) = mpsc_channel::<Payload<Req, Res>>(100);
    let sender = RequestSender { sender: tx };
    let receiver = RequestReceiver { receiver: rx };
    (sender, receiver)
}

/// The answer to a request: the request in ASCII upper case.
pub fn get_response(req: String) -> (res: String)
    ensures
        res@ == ascii_upper_seq(req@),
{
    to_ascii_uppercase(req.as_str())
}

} // verus!
