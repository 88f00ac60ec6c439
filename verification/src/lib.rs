//! Transport-agnostic JSON-RPC 2.0: the message model, the taxonomy of
//! errors, the codec, and the two ends of an exchange over a byte stream.

use vstd::prelude::*;

pub mod error;
pub mod limits;
pub mod proto;
pub mod stream;
pub mod text;
pub mod value;

pub use crate::error::Error;

verus! {

/// What a call returns to the client that made it.
pub type RpcResult<T> = Result<T, Error>;

/// What a service returns to the server that dispatched a call to it.
pub type RpcServerResult<T> = Result<T, proto::ProtocolError>;

} // verus!
