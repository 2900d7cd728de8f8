//! The decisions of request dispatch: which requests are written to the transport, how responses
//! and cancellations update the in-flight requests, and when dispatch shuts down.
//!
//! Polling the transport and the channels is left to the caller, which hands the outcome of each
//! poll to the functions here.

use vstd::prelude::*;
use crate::context::Context;
use crate::extensions::Extensions;
use crate::message::{ClientMessage, Request, Response, ServerError};
use crate::trace::SpanId;
use super::completion::completion_closed;
use super::config::Config;
use super::in_flight::{AlreadyExistsError, InFlightRequests};

verus! {

/// A server-bound request sent from a channel to request dispatch, which will then manage
/// the lifecycle of the request.
#[verifier::reject_recursive_types(Resp)]
#[derive(Debug)]
pub struct DispatchRequest<Req, Resp> {
    /// The context of the call.
    pub ctx: Context,
    /// The ID the channel gave the request.
    pub request_id: u64,
    /// The request body.
    pub request: Req,
    /// Where the response goes.
    pub response_completion: tokio::sync::oneshot::Sender<Response<Resp>>,
}

/// The outcome of one attempt to make progress on one half of dispatch (reading responses or
/// writing requests and cancellations).
#[derive(Clone, Copy, Debug, PartialEq, Eq, Structural)]
pub enum Progress {
    /// Something was done; trying again may do more.
    Ready,
    /// This half is finished: its source of work is closed.
    Closed,
    /// Nothing can be done right now.
    Pending,
}

/// The state of a source of outgoing messages (new requests or cancellations) once nothing more
/// can be taken from it.
#[derive(Clone, Copy, Debug, PartialEq, Eq, Structural)]
pub enum ReceiverStatus {
    /// The source is open but empty for now.
    Pending,
    /// The source is closed.
    Closed,
}

/// What request dispatch does after one round of reading and writing.
#[derive(Clone, Copy, Debug, PartialEq, Eq, Structural)]
pub enum DispatchStep {
    /// Dispatch is finished.
    Shutdown,
    /// Another round may make progress.
    Continue,
    /// Nothing can be done until woken.
    Pending,
}

/// Why a call failed to produce a response.
#[derive(Debug)]
pub enum CallError {
    /// The server answered with an error.
    Server(ServerError),
    /// Dispatch ended before the response arrived.
    ConnectionReset,
}

/// Dispatch shuts down once the read half is closed, or once the write half is closed and no
/// request is left in flight.
pub open spec fn shuts_down(read: Progress, write: Progress, in_flight_empty: bool) -> bool {
    read == Progress::Closed || (write == Progress::Closed && in_flight_empty)
}

/// Decides what dispatch does after one round of reading (`read`) and writing (`write`), given
/// whether any request is still in flight.
pub fn dispatch_step(read: Progress, write: Progress, in_flight_empty: bool) -> (step: DispatchStep)
    ensures
        step == DispatchStep::Shutdown <==> shuts_down(read, write, in_flight_empty),
        step == DispatchStep::Continue <==> !shuts_down(read, write, in_flight_empty) && (read
            == Progress::Ready || write == Progress::Ready),
{
    match (read, write) {
        (Progress::Closed, _) => DispatchStep::Shutdown,
        (read, Progress::Closed) => {
            if in_flight_empty {
                DispatchStep::Shutdown
            } else {
                match read {
                    Progress::Ready => DispatchStep::Continue,
                    _ => DispatchStep::Pending,
                }
            }
        },
        (Progress::Ready, _) | (_, Progress::Ready) => DispatchStep::Continue,
        _ => DispatchStep::Pending,
    }
}

/// The status of a source of outgoing messages after an attempt to write from it that did not
/// write anything: `None` when the attempt did write something.
pub fn receiver_status(attempt: Progress) -> (status: Option<ReceiverStatus>)
    ensures
        status is None <==> attempt == Progress::Ready,
        status == Some(ReceiverStatus::Closed) <==> attempt == Progress::Closed,
        status == Some(ReceiverStatus::Pending) <==> attempt == Progress::Pending,
{
    match attempt {
        Progress::Ready => None,
        Progress::Closed => Some(ReceiverStatus::Closed),
        Progress::Pending => Some(ReceiverStatus::Pending),
    }
}

/// The outcome of the write half when neither new requests nor cancellations could be written:
/// once the transport is flushed (`flushed`), the write half is closed if both sources are closed,
/// and pending otherwise; while the flush is unfinished it is pending.
pub fn write_outcome(pending: ReceiverStatus, canceled: ReceiverStatus, flushed: bool) -> (p:
    Progress)
    ensures
        p == Progress::Closed <==> flushed && pending == ReceiverStatus::Closed && canceled
            == ReceiverStatus::Closed,
        p != Progress::Ready,
{
    if !flushed {
        return Progress::Pending;
    }
    match (pending, canceled) {
        (ReceiverStatus::Closed, ReceiverStatus::Closed) => Progress::Closed,
        _ => Progress::Pending,
    }
}

/// Where one round of writing stands. A round tries, in this order, to write a new request, to
/// write a cancellation, to end an expired request and to flush the transport, and stops at the
/// first of the first three that does something.
#[derive(Clone, Copy, Debug, PartialEq, Eq, Structural)]
pub enum WriteStep {
    /// Next: try to write a new request.
    WriteRequest,
    /// Next: try to write a cancellation. `requests` is how the source of new requests stood.
    WriteCancel { requests: ReceiverStatus },
    /// Next: end a request whose deadline passed, if there is one.
    Expire { requests: ReceiverStatus, cancellations: ReceiverStatus },
    /// Next: flush the transport.
    Flush { requests: ReceiverStatus, cancellations: ReceiverStatus },
    /// The round is over, with this outcome for the write half.
    Done(Progress),
}

impl WriteStep {
    /// The step that follows this one, given the outcome of its attempt: for a write, whether it
    /// wrote (`Ready`), found its source closed (`Closed`) or could do nothing (`Pending`); for
    /// the expiry, `Ready` when a request was ended; for the flush, `Ready` when it finished.
    pub open spec fn next_spec(self, outcome: Progress) -> WriteStep {
        match self {
            WriteStep::WriteRequest => match outcome {
                Progress::Ready => WriteStep::Done(Progress::Ready),
                Progress::Closed => WriteStep::WriteCancel { requests: ReceiverStatus::Closed },
                Progress::Pending => WriteStep::WriteCancel { requests: ReceiverStatus::Pending },
            },
            WriteStep::WriteCancel { requests } => match outcome {
                Progress::Ready => WriteStep::Done(Progress::Ready),
                Progress::Closed => WriteStep::Expire {
                    requests,
                    cancellations: ReceiverStatus::Closed,
                },
                Progress::Pending => WriteStep::Expire {
                    requests,
                    cancellations: ReceiverStatus::Pending,
                },
            },
            WriteStep::Expire { requests, cancellations } => if outcome == Progress::Ready {
                WriteStep::Done(Progress::Ready)
            } else {
                WriteStep::Flush { requests, cancellations }
            },
            WriteStep::Flush { requests, cancellations } => WriteStep::Done(
                if outcome == Progress::Ready && requests == ReceiverStatus::Closed && cancellations
                    == ReceiverStatus::Closed {
                    Progress::Closed
                } else {
                    Progress::Pending
                },
            ),
            WriteStep::Done(p) => WriteStep::Done(p),
        }
    }

    /// The first step of a round: try to write a new request.
    pub fn start() -> (step: WriteStep)
        ensures
            step == WriteStep::WriteRequest,
    {
        WriteStep::WriteRequest
    }

    /// The step that follows this one, given the outcome of its attempt.
    pub fn next(self, outcome: Progress) -> (step: WriteStep)
        ensures
            step == self.next_spec(outcome),
    {
        match self {
            WriteStep::WriteRequest => match receiver_status(outcome) {
                None => WriteStep::Done(Progress::Ready),
                Some(requests) => WriteStep::WriteCancel { requests },
            },
            WriteStep::WriteCancel { requests } => match receiver_status(outcome) {
                None => WriteStep::Done(Progress::Ready),
                Some(cancellations) => WriteStep::Expire { requests, cancellations },
            },
            WriteStep::Expire { requests, cancellations } => match outcome {
                Progress::Ready => WriteStep::Done(Progress::Ready),
                _ => WriteStep::Flush { requests, cancellations },
            },
            WriteStep::Flush { requests, cancellations } => {
                let flushed = match outcome {
                    Progress::Ready => true,
                    _ => false,
                };
                WriteStep::Done(write_outcome(requests, cancellations, flushed))
            },
            WriteStep::Done(p) => WriteStep::Done(p),
        }
    }
}

/// New requests come before cancellations: a round tries to write a cancellation only right
/// after it tried to write a new request and wrote none.
pub proof fn law_requests_before_cancellations(step: WriteStep, outcome: Progress)
    ensures
        step.next_spec(outcome) is WriteCancel ==> step == WriteStep::WriteRequest && outcome
            != Progress::Ready,
{
}

/// A round does at most one thing: as soon as a message is written or an expired request is
/// ended, the round is over and reports progress.
pub proof fn law_round_stops_at_first_progress(step: WriteStep, outcome: Progress)
    requires
        step !is Done,
        step !is Flush,
    ensures
        outcome == Progress::Ready <==> step.next_spec(outcome) == WriteStep::Done(Progress::Ready),
{
}

/// A round reports progress only for real work: the step that ends it with `Ready` is an attempt
/// to write a request, to write a cancellation or to end an expired request, and that attempt
/// succeeded. Finishing a flush is no progress, so an idle dispatch sleeps instead of spinning.
pub proof fn law_progress_only_for_work(step: WriteStep, outcome: Progress)
    requires
        step !is Done,
    ensures
        step.next_spec(outcome) == WriteStep::Done(Progress::Ready) ==> outcome == Progress::Ready
            && (step is WriteRequest || step is WriteCancel || step is Expire),
        step is Flush ==> step.next_spec(outcome) != WriteStep::Done(Progress::Ready),
        step is Flush ==> step.next_spec(outcome) is Done,
{
}

/// A round reports the write half closed only after both sources were found closed and the
/// transport was flushed.
pub proof fn law_closed_only_when_drained(step: WriteStep, outcome: Progress)
    requires
        step !is Done,
    ensures
        step.next_spec(outcome) == WriteStep::Done(Progress::Closed) <==> step == (WriteStep::Flush {
            requests: ReceiverStatus::Closed,
            cancellations: ReceiverStatus::Closed,
        }) && outcome == Progress::Ready,
{
}

/// Keeps a request that was taken from the channel exactly when its caller still waits for the
/// response (`caller_gone` is false); a request whose caller stopped waiting is skipped.
pub fn keep_if_waiting<Req, Resp>(request: DispatchRequest<Req, Resp>, caller_gone: bool) -> (kept:
    Option<DispatchRequest<Req, Resp>>)
    ensures
        kept is Some <==> !caller_gone,
        kept matches Some(r) ==> r == request,
{
    if caller_gone {
        None
    } else {
        Some(request)
    }
}

/// Keeps a request that was taken from the channel only if its caller still waits for the
/// response: a request whose response future was dropped, or whose response receiver was
/// closed, before it was sent is skipped. Whether the caller still waits is read from the
/// request's own response channel; what is kept for each answer is `keep_if_waiting`.
pub fn screen_request<Req, Resp>(request: DispatchRequest<Req, Resp>) -> (admitted: Option<
    DispatchRequest<Req, Resp>,
>)
    ensures
        admitted matches Some(r) ==> r == request,
{
    let caller_gone = completion_closed(&request.response_completion);
    keep_if_waiting(request, caller_gone)
}

/// A request ready to be written to the transport, and what must be recorded once it is.
#[verifier::reject_recursive_types(Resp)]
pub struct StagedRequest<Req, Resp> {
    /// The message to write.
    pub message: ClientMessage<Req>,
    /// The ID of the request.
    pub request_id: u64,
    /// The full context of the request, extensions included, to keep while it is in flight.
    pub ctx: Context,
    /// Where the response goes.
    pub response_completion: tokio::sync::oneshot::Sender<Response<Resp>>,
}

/// Turns a request taken from the channel into the message to write, keeping aside what is to be
/// recorded once the message is written. The message carries the request's deadline and trace
/// context but no extensions: extensions stay on this side of the transport.
pub fn stage<Req, Resp>(request: DispatchRequest<Req, Resp>) -> (staged: StagedRequest<Req, Resp>)
    ensures
        staged.request_id == request.request_id,
        staged.ctx == request.ctx,
        staged.response_completion == request.response_completion,
        staged.message matches ClientMessage::Request(r) && r.id == request.request_id
            && r.message == request.request && r.context.deadline == request.ctx.deadline
            && r.context.trace_context == request.ctx.trace_context && r.context.extensions@ == 0
            && !r.context.extensions.is_allocated(),
{
    let DispatchRequest { ctx, request_id, request, response_completion } = request;
    let context = Context {
        deadline: ctx.deadline,
        trace_context: ctx.trace_context,
        extensions: Extensions::new(),
    };
    StagedRequest {
        message: ClientMessage::Request(Request { context, id: request_id, message: request }),
        request_id,
        ctx,
        response_completion,
    }
}

/// The message that tells the server to cancel the request `request_id`, whose context in flight
/// was `context`. The message carries that request's trace context and deadline but no
/// extensions: extensions stay on this side of the transport.
pub fn cancel_message<Req>(context: &Context, request_id: u64) -> (message: ClientMessage<Req>)
    ensures
        message matches ClientMessage::Cancel { context: sent, request_id: id } && id == request_id
            && sent.trace_context == context.trace_context && sent.deadline == context.deadline
            && sent.extensions@ == 0 && !sent.extensions.is_allocated(),
{
    let sent = Context {
        deadline: context.deadline,
        trace_context: context.trace_context,
        extensions: Extensions::new(),
    };
    ClientMessage::Cancel { context: sent, request_id }
}

/// What a call resolves to once its response channel yields: `received` is the response, or
/// `None` when dispatch ended without sending one.
pub fn resolve_response<Resp>(received: Option<Response<Resp>>) -> (r: Result<Resp, CallError>)
    ensures
        match received {
            Some(response) => match response.message {
                Ok(v) => r == Ok::<Resp, CallError>(v),
                Err(e) => r == Err::<Resp, CallError>(CallError::Server(e)),
            },
            None => r == Err::<Resp, CallError>(CallError::ConnectionReset),
        },
{
    match received {
        Some(response) => match response.message {
            Ok(v) => Ok(v),
            Err(e) => Err(CallError::Server(e)),
        },
        None => Err(CallError::ConnectionReset),
    }
}

/// The context a call is sent with: the caller's context, turned into a new span (`span_id`) whose
/// parent is the caller's span, within the same trace and with the same deadline and extensions.
pub fn call_context(ctx: Context, span_id: SpanId) -> (call: Context)
    ensures
        call.deadline == ctx.deadline,
        call.extensions == ctx.extensions,
        call.trace_context.trace_id == ctx.trace_context.trace_id,
        call.trace_context.span_id == span_id,
        call.trace_context.parent_id == Some(ctx.trace_context.span_id),
{
    let trace_context = ctx.trace_context.child(span_id);
    Context { deadline: ctx.deadline, trace_context, extensions: ctx.extensions }
}

/// The request ID for the `n`th request a channel stages.
pub fn request_id_from(n: usize) -> (id: u64)
    ensures
        id == n,
{
    n as u64
}

/// The state that request dispatch keeps between polls: the requests in flight and the
/// configured limits.
#[verifier::reject_recursive_types(Resp)]
pub struct DispatchState<Resp> {
    /// Requests already written to the wire that haven't yet received responses.
    in_flight_requests: InFlightRequests<Resp>,
    /// Configures limits to prevent unlimited resource usage.
    config: Config,
}

impl<Resp> DispatchState<Resp> {
    /// The contexts of the requests in flight, by request ID.
    pub closed spec fn in_flight(&self) -> Map<u64, Context> {
        self.in_flight_requests@
    }

    /// Where the response to each in-flight request goes, by request ID.
    pub closed spec fn completions(&self) -> Map<u64, tokio::sync::oneshot::Sender<Response<Resp>>> {
        self.in_flight_requests.completions()
    }

    /// The configured limits.
    pub closed spec fn config_spec(&self) -> Config {
        self.config
    }

    /// No more requests are in flight than the configuration allows.
    pub closed spec fn wf(&self) -> bool {
        self.in_flight_requests@.len() <= self.config.max_in_flight_requests
    }

    /// Dispatch state with no request in flight.
    pub fn new(config: Config) -> (state: Self)
        ensures
            state.wf(),
            state.in_flight() == Map::<u64, Context>::empty(),
            state.completions().dom() == Set::<u64>::empty(),
            state.config_spec() == config,
    {
        DispatchState { in_flight_requests: InFlightRequests::new(), config }
    }

    /// The configured limits.
    pub fn config(&self) -> (config: &Config)
        ensures
            *config == self.config_spec(),
    {
        &self.config
    }

    /// The number of requests in flight.
    pub fn in_flight_len(&self) -> (n: usize)
        ensures
            n == self.in_flight().len(),
    {
        self.in_flight_requests.len()
    }

    /// Whether no request is in flight.
    pub fn in_flight_is_empty(&self) -> (empty: bool)
        ensures
            empty <==> self.in_flight().len() == 0,
    {
        self.in_flight_requests.is_empty()
    }

    /// Whether no further request may be written: as many requests are in flight as the
    /// configuration allows.
    pub fn at_capacity(&self) -> (full: bool)
        ensures
            full <==> self.in_flight().len() >= self.config_spec().max_in_flight_requests,
    {
        self.in_flight_requests.len() >= self.config.max_in_flight_requests
    }

    /// Records a request whose message was written to the transport as in flight, with the
    /// context to keep for it and where its response goes. A request whose ID is already in flight
    /// is refused and nothing changes. Called only below capacity: dispatch checks the capacity
    /// before it takes a request from the channel.
    pub fn record_request(
        &mut self,
        request_id: u64,
        ctx: Context,
        response_completion: tokio::sync::oneshot::Sender<Response<Resp>>,
    ) -> (r: Result<(), AlreadyExistsError>)
        requires
            old(self).wf(),
            old(self).in_flight().len() < old(self).config_spec().max_in_flight_requests,
        ensures
            final(self).wf(),
            final(self).config_spec() == old(self).config_spec(),
            r is Err <==> old(self).in_flight().contains_key(request_id),
            r is Err ==> final(self).in_flight() == old(self).in_flight(),
            r is Err ==> final(self).completions() == old(self).completions(),
            r is Ok ==> final(self).in_flight() == old(self).in_flight().insert(request_id, ctx),
            r is Ok ==> final(self).completions() == old(self).completions().insert(
                request_id,
                response_completion,
            ),
    {
        proof {
            self.in_flight_requests.lemma_finitely_many();
            lemma_insert_len(self.in_flight_requests@, request_id, ctx);
        }
        self.in_flight_requests.insert_request(request_id, ctx, response_completion)
    }

    /// Whether a request with the given ID is in flight.
    pub fn in_flight_contains(&self, request_id: u64) -> (found: bool)
        ensures
            found == self.in_flight().contains_key(request_id),
    {
        self.in_flight_requests.contains(request_id)
    }

    /// Settles a request whose message was handed to the transport, given the transport's answer
    /// `written`. Only a written request is recorded as in flight, with the context to keep for
    /// it and where its response goes; when the transport refused the message, nothing changes
    /// and the transport's error is passed on. Called only below capacity, and never for an ID
    /// already in flight: request IDs are unique.
    pub fn settle_write<E>(
        &mut self,
        request_id: u64,
        ctx: Context,
        response_completion: tokio::sync::oneshot::Sender<Response<Resp>>,
        written: Result<(), E>,
    ) -> (r: Result<(), E>)
        requires
            old(self).wf(),
            old(self).in_flight().len() < old(self).config_spec().max_in_flight_requests,
            written is Ok ==> !old(self).in_flight().contains_key(request_id),
        ensures
            final(self).wf(),
            final(self).config_spec() == old(self).config_spec(),
            r == written,
            written is Err ==> final(self).in_flight() == old(self).in_flight(),
            written is Err ==> final(self).completions() == old(self).completions(),
            written is Ok ==> final(self).in_flight() == old(self).in_flight().insert(
                request_id,
                ctx,
            ),
            written is Ok ==> final(self).completions() == old(self).completions().insert(
                request_id,
                response_completion,
            ),
    {
        if written.is_ok() {
            let _ = self.record_request(request_id, ctx, response_completion);
        }
        written
    }

    /// Every request in flight has a completion recorded, and only those.
    pub proof fn lemma_each_has_a_completion(&self)
        ensures
            self.in_flight().dom() == self.completions().dom(),
    {
        self.in_flight_requests.lemma_same_ids();
    }

    /// Takes the request that a response off the wire answers out of flight, and pairs the
    /// response with where it goes: the completion recorded for the request with the response's
    /// ID. `None` when no such request is in flight; the response is then dropped.
    pub fn complete(&mut self, response: Response<Resp>) -> (routed: Option<
        (tokio::sync::oneshot::Sender<Response<Resp>>, Response<Resp>),
    >)
        requires
            old(self).wf(),
        ensures
            final(self).wf(),
            final(self).config_spec() == old(self).config_spec(),
            routed is Some <==> old(self).in_flight().contains_key(response.request_id),
            routed matches Some((completion, r)) ==> completion == old(self).completions()[
                response.request_id
            ] && r == response,
            final(self).in_flight() == old(self).in_flight().remove(response.request_id),
            final(self).completions() == old(self).completions().remove(response.request_id),
    {
        proof {
            self.in_flight_requests.lemma_finitely_many();
        }
        self.in_flight_requests.route_response(response)
    }

    /// Takes a request whose deadline passed out of flight, and pairs where its response goes
    /// with the response that ends it: `error`, sent with the request's context. Expired requests
    /// count as complete: the server is not told to cancel them. `None` when the request is no
    /// longer in flight.
    pub fn expire(&mut self, request_id: u64, error: ServerError) -> (routed: Option<
        (tokio::sync::oneshot::Sender<Response<Resp>>, Response<Resp>),
    >)
        requires
            old(self).wf(),
        ensures
            final(self).wf(),
            final(self).config_spec() == old(self).config_spec(),
            routed is Some <==> old(self).in_flight().contains_key(request_id),
            routed matches Some((completion, r)) ==> completion == old(self).completions()[
                request_id
            ] && r == (Response::<Resp> {
                context: old(self).in_flight()[request_id],
                request_id,
                message: Err(error),
            }),
            final(self).in_flight() == old(self).in_flight().remove(request_id),
            final(self).completions() == old(self).completions().remove(request_id),
    {
        proof {
            self.in_flight_requests.lemma_finitely_many();
        }
        self.in_flight_requests.expire_request(request_id, error)
    }

    /// Stops tracking a request whose caller stopped waiting. Returns the request's context iff it
    /// was in flight: only then must the server be told to cancel it.
    pub fn cancel(&mut self, request_id: u64) -> (ctx: Option<Context>)
        requires
            old(self).wf(),
        ensures
            final(self).wf(),
            final(self).config_spec() == old(self).config_spec(),
            ctx is Some <==> old(self).in_flight().contains_key(request_id),
            ctx matches Some(c) ==> c == old(self).in_flight()[request_id],
            final(self).in_flight() == old(self).in_flight().remove(request_id),
            final(self).completions() == old(self).completions().remove(request_id),
    {
        proof {
            self.in_flight_requests.lemma_finitely_many();
        }
        self.in_flight_requests.cancel_request(request_id)
    }
}

/// Adding one key to a finite map adds at most one entry.
proof fn lemma_insert_len(m: Map<u64, Context>, request_id: u64, ctx: Context)
    requires
        m.dom().finite(),
    ensures
        m.insert(request_id, ctx).len() <= m.len() + 1,
{
    if m.contains_key(request_id) {
        assert(m.insert(request_id, ctx).dom() =~= m.dom());
    } else {
        assert(m.insert(request_id, ctx).dom() =~= m.dom().insert(request_id));
    }
}

/// Recording a request and then canceling it gives back the context it was recorded with, and
/// leaves the requests in flight, and where their responses go, as they were before.
pub proof fn law_cancel_undoes_record<Resp>(
    before: DispatchState<Resp>,
    recorded: DispatchState<Resp>,
    canceled: DispatchState<Resp>,
    request_id: u64,
    ctx: Context,
    completion: tokio::sync::oneshot::Sender<Response<Resp>>,
)
    requires
        !before.in_flight().contains_key(request_id),
        recorded.in_flight() == before.in_flight().insert(request_id, ctx),
        recorded.completions() == before.completions().insert(request_id, completion),
        canceled.in_flight() == recorded.in_flight().remove(request_id),
        canceled.completions() == recorded.completions().remove(request_id),
    ensures
        recorded.in_flight()[request_id] == ctx,
        canceled.in_flight() == before.in_flight(),
        canceled.completions() == before.completions(),
{
    before.in_flight_requests.lemma_same_ids();
    assert(canceled.in_flight() =~= before.in_flight());
    assert(canceled.completions() =~= before.completions());
}

/// A request that has been completed, canceled or expired is no longer in flight: a second
/// response, cancellation or expiry for it finds nothing, and nothing is sent for it again.
pub proof fn law_settled_request_is_gone<Resp>(
    before: DispatchState<Resp>,
    after: DispatchState<Resp>,
    request_id: u64,
)
    requires
        after.in_flight() == before.in_flight().remove(request_id),
        after.completions() == before.completions().remove(request_id),
    ensures
        !after.in_flight().contains_key(request_id),
        !after.completions().contains_key(request_id),
{
}

/// Recording, answering, canceling or expiring other requests does not change where the
/// response to a request in flight goes: its completion stays the one recorded with it, so the
/// response to each call reaches that call.
pub proof fn law_response_reaches_its_caller<Resp>(
    before: DispatchState<Resp>,
    after: DispatchState<Resp>,
    request_id: u64,
    other_id: u64,
    other_completion: tokio::sync::oneshot::Sender<Response<Resp>>,
)
    requires
        before.completions().contains_key(request_id),
        other_id != request_id,
        after.completions() == before.completions().remove(other_id) || after.completions()
            == before.completions().insert(other_id, other_completion),
    ensures
        after.completions().contains_key(request_id),
        after.completions()[request_id] == before.completions()[request_id],
{
}

} // verus!
