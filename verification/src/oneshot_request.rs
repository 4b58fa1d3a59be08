//! A single request handed over a oneshot channel.

use vstd::prelude::*;
use tokio::sync::oneshot;
use crate::channel::oneshot_send;

verus! {

/// A request, with room for its answer.
#[derive(Debug, Clone)]
pub struct OneShotRequest {
    pub req: String,
    pub res: Option<String>,
}

/// The request that the sending task hands over: `From User 1`, not yet
/// answered.
pub fn user_request() -> (request: OneShotRequest)
    ensures
        request.req@ == "From User 1"@,
        request.res is None,
{
    OneShotRequest { req: "From User 1".to_string(), res: None }
}

/// Hands the request over.  Where the receiving side is gone, the request
/// comes back as the error.
pub fn send_request(sender: oneshot::Sender<OneShotRequest>) -> (sent: Result<(), OneShotRequest>)
    ensures
        sent matches Err(back) ==> back.req@ == "From User 1"@ && back.res is None,
{
    oneshot_send(sender, user_request())
}

} // verus!
