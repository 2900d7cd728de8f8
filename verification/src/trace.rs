//! Identifiers that tie related requests together across a distributed system.

use vstd::prelude::*;

verus! {

/// A 128-bit identifier shared by every span of one trace.
#[derive(Clone, Copy, Debug, PartialEq, Eq, Structural, Hash)]
pub struct TraceId(pub u128);

/// A 64-bit identifier of one span within a trace.
#[derive(Clone, Copy, Debug, PartialEq, Eq, Structural, Hash)]
pub struct SpanId(pub u64);

/// Trace information carried by every request.
#[derive(Clone, Copy, Debug, PartialEq, Eq, Structural)]
pub struct Context {
    /// The trace this request belongs to.
    pub trace_id: TraceId,
    /// The span of this request.
    pub span_id: SpanId,
    /// The span of the request that caused this one, if any.
    pub parent_id: Option<SpanId>,
}

/// Draws a uniformly random `u64` from the thread-local generator.
///
/// Calls `rand::random::<u64>()`. Nothing is promised of the value: it is random.
#[verifier::external_body]
fn random_u64() -> u64 {
    rand::random::<u64>()
}

/// The value of a trace id assembled from its high and low 64-bit halves.
pub open spec fn trace_id_value(high: u64, low: u64) -> int {
    high * 0x1_0000_0000_0000_0000int + low
}

impl TraceId {
    /// Assembles a trace id from its high and low halves.
    pub fn from_halves(high: u64, low: u64) -> (id: TraceId)
        ensures
            id.0 == trace_id_value(high, low),
    {
        let h: u128 = high as u128;
        let l: u128 = low as u128;
        assert(h * 0x1_0000_0000_0000_0000u128 + l <= u128::MAX) by (nonlinear_arith)
            requires
                h <= u64::MAX,
                l <= u64::MAX,
        ;
        TraceId(h * 0x1_0000_0000_0000_0000u128 + l)
    }

    /// Returns a random trace id.
    pub fn random() -> TraceId {
        let high = random_u64();
        let low = random_u64();
        TraceId::from_halves(high, low)
    }
}

impl SpanId {
    /// Returns a random span id.
    pub fn random() -> SpanId {
        SpanId(random_u64())
    }
}

impl Default for Context {
    /// The all-zero trace context.
    fn default() -> (ctx: Self)
        ensures
            ctx.trace_id.0 == 0,
            ctx.span_id.0 == 0,
            ctx.parent_id is None,
    {
        Context { trace_id: TraceId(0), span_id: SpanId(0), parent_id: None }
    }
}

impl Context {
    /// Returns a context that starts a new trace: random trace and span ids, and no parent.
    pub fn new_root() -> (ctx: Self)
        ensures
            ctx.parent_id is None,
    {
        Context { trace_id: TraceId::random(), span_id: SpanId::random(), parent_id: None }
    }

    /// Returns the context of a new span that is a child of this one: the trace id is kept,
    /// the new span is `span_id`, and the parent is this context's span.
    pub fn child(&self, span_id: SpanId) -> (ctx: Self)
        ensures
            ctx.trace_id == self.trace_id,
            ctx.span_id == span_id,
            ctx.parent_id == Some(self.span_id),
    {
        Context { trace_id: self.trace_id, span_id, parent_id: Some(self.span_id) }
    }
}

} // verus!
