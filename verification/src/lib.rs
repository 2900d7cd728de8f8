//! Verified core of an RPC framework: request contexts and their extensions, trace identifiers,
//! the messages exchanged between clients and servers, the client's bookkeeping of in-flight
//! requests and the decisions of its request dispatch, and the rules of service definitions.

pub mod client;
pub mod context;
pub mod extensions;
pub mod message;
pub mod service;
pub mod trace;
pub mod util;

pub use message::{ClientMessage, Request, Response, ServerError};
