//! Provides a request context that carries a deadline and trace context. This context is sent from
//! client to server and is used by the server to enforce response deadlines.

use vstd::prelude::*;
use crate::extensions::Extensions;
use crate::trace::{self, TraceId};

verus! {

/// One billion: the number of nanoseconds in a second.
pub const NANOS_PER_SEC: u32 = 1_000_000_000u32;

/// A point in time, counted from the UNIX epoch: `secs` whole seconds (negative before the epoch)
/// plus `nanos` nanoseconds.
#[derive(Clone, Copy, Debug, PartialEq, Eq, Structural)]
pub struct Timestamp {
    /// Whole seconds since the UNIX epoch, rounded down: negative for a time before the epoch.
    pub secs: i128,
    /// Nanoseconds past `secs`; below one billion in a well-formed timestamp.
    pub nanos: u32,
}

impl Timestamp {
    /// A timestamp is well formed when its nanoseconds make less than one second.
    pub open spec fn wf(self) -> bool {
        self.nanos < NANOS_PER_SEC
    }

    /// The signed number of nanoseconds from the UNIX epoch to this time.
    pub open spec fn nanos_since_epoch(self) -> int {
        self.secs * 1_000_000_000 + self.nanos
    }

    /// The UNIX epoch, 1970-01-01 00:00:00 UTC.
    pub fn unix_epoch() -> (t: Timestamp)
        ensures
            t.secs == 0,
            t.nanos == 0,
            t.wf(),
    {
        Timestamp { secs: 0, nanos: 0 }
    }

    /// The time that lies `secs` seconds and `nanos` nanoseconds after the UNIX epoch, or, when
    /// `before` is set, that long before it.
    pub fn from_epoch_offset(before: bool, secs: u64, nanos: u32) -> (t: Timestamp)
        requires
            nanos < NANOS_PER_SEC,
        ensures
            t.wf(),
            t.nanos_since_epoch() == (if before {
                -(secs * 1_000_000_000 + nanos)
            } else {
                secs * 1_000_000_000 + nanos
            }),
            -(u64::MAX + 1) <= t.secs <= u64::MAX,
    {
        if !before {
            Timestamp { secs: secs as i128, nanos }
        } else if nanos == 0 {
            Timestamp { secs: -(secs as i128), nanos: 0 }
        } else {
            Timestamp { secs: -(secs as i128) - 1, nanos: NANOS_PER_SEC - nanos }
        }
    }

    /// The timestamp `secs` seconds later.
    pub fn plus_secs(self, secs: u64) -> (t: Timestamp)
        requires
            self.secs + secs <= i128::MAX,
        ensures
            t == self.plus_secs_spec(secs),
    {
        Timestamp { secs: self.secs + secs as i128, nanos: self.nanos }
    }
}

#[verifier::external_type_specification]
#[verifier::external_body]
pub struct ExSystemTime(std::time::SystemTime);

/// Reads the system clock with `SystemTime::now`.
///
/// Nothing is promised of the value: it depends on the time of the call.
#[verifier::external_body]
fn system_now() -> std::time::SystemTime {
    std::time::SystemTime::now()
}

/// Measures `t` from the UNIX epoch with `SystemTime::duration_since`, as whole seconds and
/// subsecond nanoseconds: `Ok` with the distance when `t` is not before the epoch, and `Err` with
/// the distance (`SystemTimeError::duration`) when it is.
///
/// Claims, as `Duration::subsec_nanos` documents, that the nanoseconds are below one billion.
#[verifier::external_body]
fn since_unix_epoch(t: std::time::SystemTime) -> (r: Result<(u64, u32), (u64, u32)>)
    ensures
        r matches Ok((_, n)) ==> n < NANOS_PER_SEC,
        r matches Err((_, n)) ==> n < NANOS_PER_SEC,
{
    match t.duration_since(std::time::UNIX_EPOCH) {
        Ok(d) => Ok((d.as_secs(), d.subsec_nanos())),
        Err(e) => Err((e.duration().as_secs(), e.duration().subsec_nanos())),
    }
}

/// The current time read from the system clock, before or after the UNIX epoch.
pub fn now() -> (t: Timestamp)
    ensures
        t.wf(),
        -(u64::MAX + 1) <= t.secs <= u64::MAX,
{
    match since_unix_epoch(system_now()) {
        Ok((secs, nanos)) => Timestamp::from_epoch_offset(false, secs, nanos),
        Err((secs, nanos)) => Timestamp::from_epoch_offset(true, secs, nanos),
    }
}

/// A request context that carries request-scoped information like deadlines and trace information.
/// It is sent from client to server and is used by the server to enforce response deadlines.
///
/// The context should not be stored directly in a server implementation, because the context will
/// be different for each request in scope.
#[derive(Debug)]
#[non_exhaustive]
pub struct Context {
    /// When the client expects the request to be complete by. The server should cancel the request
    /// if it is not complete by this time.
    pub deadline: Timestamp,
    /// Uniquely identifies requests originating from the same source.
    /// When a service handles a request by making requests itself, those requests should
    /// include the same `trace_id` as that included on the original request. This way,
    /// users can trace related actions across a distributed system.
    pub trace_context: trace::Context,
    /// Context extensions. These extensions are not intended to be sent over the transport.
    /// It is intended as a method to pass data between the application and transport layers.
    pub extensions: Extensions,
}

impl Clone for Context {
    fn clone(&self) -> (copy: Self)
        ensures
            copy.deadline == self.deadline,
            copy.trace_context == self.trace_context,
            copy.extensions@ == self.extensions@,
            copy.extensions.is_allocated() == self.extensions.is_allocated(),
    {
        Context {
            deadline: self.deadline,
            trace_context: self.trace_context,
            extensions: self.extensions.clone(),
        }
    }
}

impl Default for Context {
    /// A context whose deadline is the UNIX epoch, with a zero trace context and no extensions.
    fn default() -> (ctx: Self)
        ensures
            ctx.deadline == (Timestamp { secs: 0, nanos: 0 }),
            ctx.trace_context.trace_id.0 == 0,
            ctx.trace_context.span_id.0 == 0,
            ctx.trace_context.parent_id is None,
            ctx.extensions@ == 0,
            !ctx.extensions.is_allocated(),
    {
        Context {
            deadline: Timestamp::unix_epoch(),
            trace_context: trace::Context::default(),
            extensions: Extensions::new(),
        }
    }
}

/// Ten seconds, the default time a request is given to complete.
pub const DEFAULT_TIMEOUT_SECS: u64 = 10u64;

/// The time ten seconds from now.
pub fn ten_seconds_from_now() -> (t: Timestamp)
    ensures
        t.wf(),
        exists|now: Timestamp|
            now.wf() && -(u64::MAX + 1) <= now.secs <= u64::MAX && t == now.plus_secs_spec(
                DEFAULT_TIMEOUT_SECS,
            ),
{
    let now = now();
    let t = now.plus_secs(DEFAULT_TIMEOUT_SECS);
    assert(now.wf() && -(u64::MAX + 1) <= now.secs <= u64::MAX && t == now.plus_secs_spec(
        DEFAULT_TIMEOUT_SECS,
    ));
    t
}

/// Returns the context for the current request, or a default Context if no request is active.
///
/// The deadline is ten seconds from now and the trace context starts a new trace.
pub fn current() -> (ctx: Context)
    ensures
        ctx.deadline.wf(),
        exists|now: Timestamp|
            now.wf() && -(u64::MAX + 1) <= now.secs <= u64::MAX && ctx.deadline
                == now.plus_secs_spec(DEFAULT_TIMEOUT_SECS),
        ctx.trace_context.parent_id is None,
        ctx.extensions@ == 0,
        !ctx.extensions.is_allocated(),
{
    let now = now();
    let ctx = Context::starting_at(now, trace::Context::new_root());
    assert(now.wf() && -(u64::MAX + 1) <= now.secs <= u64::MAX && ctx.deadline
        == now.plus_secs_spec(DEFAULT_TIMEOUT_SECS));
    ctx
}

impl Context {
    /// The context of a request issued at time `now` within the trace `trace_context`: its
    /// deadline is ten seconds after `now`, and it has no extensions.
    pub fn starting_at(now: Timestamp, trace_context: trace::Context) -> (ctx: Context)
        requires
            now.secs + DEFAULT_TIMEOUT_SECS <= i128::MAX,
        ensures
            ctx.deadline == now.plus_secs_spec(DEFAULT_TIMEOUT_SECS),
            ctx.trace_context == trace_context,
            ctx.extensions@ == 0,
            !ctx.extensions.is_allocated(),
    {
        Context {
            deadline: now.plus_secs(DEFAULT_TIMEOUT_SECS),
            trace_context,
            extensions: Extensions::new(),
        }
    }

    /// Returns the ID of the request-scoped trace.
    pub fn trace_id(&self) -> (id: &TraceId)
        ensures
            *id == self.trace_context.trace_id,
    {
        &self.trace_context.trace_id
    }
}

impl Timestamp {
    /// The timestamp `secs` seconds later.
    pub open spec fn plus_secs_spec(self, secs: u64) -> Timestamp {
        Timestamp {
            secs: (self.secs + secs) as i128,
            nanos: self.nanos,
        }
    }
}

/// Types that may contain a Context (i.e. ClientMessage and Response).
pub trait HasContext: Sized {
    /// The contained context.
    spec fn context_spec(&self) -> Context;

    /// This value with its context replaced by `ctx`, all else unchanged.
    spec fn with_context(&self, ctx: Context) -> Self;

    /// Returns a reference to the contained Context.
    fn context(&self) -> (ctx: &Context)
        ensures
            *ctx == self.context_spec(),
    ;

    /// Returns a mutable reference to the contained Context.
    fn context_mut(&mut self) -> (ctx: &mut Context)
        ensures
            *ctx == old(self).context_spec(),
            *final(self) == old(self).with_context(*final(ctx)),
    ;
}

} // verus!
