//! Raft-style messages and a node that forwards them to a channel.

use vstd::prelude::*;
use tokio::sync::mpsc;
use crate::channel::unbounded_send;

verus! {

/// Who a message is from or for.
#[derive(Debug)]
pub enum Address {
    Peers,
    Peer(String),
    Local,
}

/// The remote procedure calls of the Raft protocol and their answers.
#[derive(Debug)]
pub enum RPCMessage {
    AppendEntries {
        term: u64,
        leader_id: String,
        prev_log_index: u64,
        prev_log_term: u64,
        entries: Vec<String>,
        leader_commit_index: u64,
    },
    AppendEntriesResponse { term: u64, success: bool },
    RequestVote { term: u64, candidate_id: String, last_log_index: u64, last_log_term: u64 },
    RequestVoteResponse { term: u64, vote_granted: bool },
}

/// A message between nodes.
#[derive(Debug)]
pub struct Message {
    pub from: Address,
    pub to: Address,
    pub event: RPCMessage,
}

/// A node that forwards every message it gets to its outgoing channel.
pub struct TokioScratch {
    sender: mpsc::UnboundedSender<Message>,
}

impl TokioScratch {
    /// The channel half that the node forwards to.
    pub closed spec fn outgoing(&self) -> mpsc::UnboundedSender<Message> {
        self.sender
    }

    /// A node that forwards to `sender`.
    pub fn new(sender: mpsc::UnboundedSender<Message>) -> (node: TokioScratch)
        ensures
            node.outgoing() == sender,
    {
        TokioScratch { sender }
    }

    /// Forwards `message` and hands the node back.  Where the receiving side
    /// is gone, the message comes back as the error.
    pub fn on_message(self, message: Message) -> (outcome: Result<TokioScratch, Message>)
        ensures
            match outcome {
                Ok(node) => node == self,
                Err(back) => back == message,
            },
    {
        match unbounded_send(&self.sender, message) {
            Ok(()) => Ok(self),
            Err(back) => Err(back),
        }
    }
}

} // verus!
