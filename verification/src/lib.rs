//! A key-value store with a Redis-style command interface, a sharded
//! variant of it, and the request/response plumbing built on tokio channels.

pub mod store;
pub mod sharded;
pub mod channel;
pub mod error;
pub mod text;
pub mod request_response;
pub mod request_response2;
pub mod request_response3;
pub mod users;
pub mod oneshot_request;
pub mod scratch;
