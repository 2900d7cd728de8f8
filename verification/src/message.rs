//! The messages exchanged between clients and servers.

use vstd::prelude::*;
use crate::context::{Context, HasContext};

verus! {

#[verifier::external_type_specification]
#[verifier::external_body]
pub struct ExIoErrorKind(std::io::ErrorKind);

/// A request from a client to a server.
#[derive(Debug)]
#[non_exhaustive]
pub struct Request<T> {
    /// Trace context, deadline, and other cross-cutting concerns.
    pub context: Context,
    /// Uniquely identifies the request across all requests sent over a single channel.
    pub id: u64,
    /// The request body.
    pub message: T,
}

/// A message from a client to a server.
#[derive(Debug)]
#[non_exhaustive]
pub enum ClientMessage<T> {
    /// A request initiated by a user. The server responds to a request by invoking a
    /// service-provided request handler.  The handler completes with a response, which the
    /// server sends back to the client.
    Request(Request<T>),
    /// A command to cancel an in-flight request, automatically sent by the client when a response
    /// future is dropped.
    ///
    /// When received, the server will immediately cancel the main task (top-level future) of the
    /// request handler for the associated request. Any tasks spawned by the request handler will
    /// not be canceled, because the framework layer does not know about them.
    Cancel {
        /// The context of the request to cancel.
        context: Context,
        /// The ID of the request to cancel.
        request_id: u64,
    },
}

/// An error response from a server to a client.
#[derive(Debug)]
#[non_exhaustive]
pub struct ServerError {
    /// The type of error that occurred to fail the request.
    pub kind: std::io::ErrorKind,
    /// A message describing more detail about the error that occurred.
    pub detail: Option<String>,
}

/// A response from a server to a client.
#[derive(Debug)]
#[non_exhaustive]
pub struct Response<T> {
    /// The context of the request that this response answers.
    pub context: Context,
    /// The ID of the request being responded to.
    pub request_id: u64,
    /// The response body, or an error if the request failed.
    pub message: Result<T, ServerError>,
}

impl<T> Request<T> {
    /// Builds a request.
    pub fn new(context: Context, id: u64, message: T) -> (r: Self)
        ensures
            r.context == context,
            r.id == id,
            r.message == message,
    {
        Request { context, id, message }
    }
}

impl<T> Response<T> {
    /// Builds a response.
    pub fn new(context: Context, request_id: u64, message: Result<T, ServerError>) -> (r: Self)
        ensures
            r.context == context,
            r.request_id == request_id,
            r.message == message,
    {
        Response { context, request_id, message }
    }
}

impl ServerError {
    /// Builds a server error.
    pub fn new(kind: std::io::ErrorKind, detail: Option<String>) -> (e: Self)
        ensures
            e.kind == kind,
            e.detail == detail,
    {
        ServerError { kind, detail }
    }
}

impl<T> HasContext for ClientMessage<T> {
    open spec fn context_spec(&self) -> Context {
        match self {
            ClientMessage::Request(r) => r.context,
            ClientMessage::Cancel { context, .. } => *context,
        }
    }

    open spec fn with_context(&self, ctx: Context) -> Self {
        match self {
            ClientMessage::Request(r) => ClientMessage::Request(
                Request { context: ctx, id: r.id, message: r.message },
            ),
            ClientMessage::Cancel { request_id, .. } => ClientMessage::Cancel {
                context: ctx,
                request_id: *request_id,
            },
        }
    }

    fn context(&self) -> (ctx: &Context) {
        match self {
            ClientMessage::Request(r) => &r.context,
            ClientMessage::Cancel { context, .. } => context,
        }
    }

    fn context_mut(&mut self) -> (ctx: &mut Context) {
        match self {
            ClientMessage::Request(r) => &mut r.context,
            ClientMessage::Cancel { context, .. } => context,
        }
    }
}

impl<T> HasContext for Response<T> {
    open spec fn context_spec(&self) -> Context {
        self.context
    }

    open spec fn with_context(&self, ctx: Context) -> Self {
        Response { context: ctx, request_id: self.request_id, message: self.message }
    }

    fn context(&self) -> (ctx: &Context) {
        &self.context
    }

    fn context_mut(&mut self) -> (ctx: &mut Context) {
        &mut self.context
    }
}

/// Reading the context of a client message after writing `ctx` into it gives `ctx`; writing
/// back the context just read leaves the message unchanged.
pub proof fn law_client_message_context<T>(message: ClientMessage<T>, ctx: Context)
    ensures
        message.with_context(ctx).context_spec() == ctx,
        message.with_context(message.context_spec()) == message,
{
}

/// Reading the context of a response after writing `ctx` into it gives `ctx`; writing back the
/// context just read leaves the response unchanged.
pub proof fn law_response_context<T>(response: Response<T>, ctx: Context)
    ensures
        response.with_context(ctx).context_spec() == ctx,
        response.with_context(response.context_spec()) == response,
{
}

} // verus!
