use tarpc::context::{self, current, ten_seconds_from_now, Context, HasContext, Timestamp};
use tarpc::trace::{self, SpanId, TraceId};
use tarpc::{ClientMessage, Request, Response};

#[test]
fn default_context() {
    let ctx = Context::default();
    assert_eq!(ctx.deadline, Timestamp::unix_epoch());
    assert_eq!(ctx.trace_context.trace_id, TraceId(0));
    assert_eq!(ctx.trace_context.span_id, SpanId(0));
    assert_eq!(ctx.trace_context.parent_id, None);
    assert_eq!(ctx.extensions.get::<i32>(), None);
}

#[test]
fn current_context_has_a_ten_second_deadline_and_a_root_trace() {
    let before = context::now();
    let ctx = current();
    let after = context::now();
    assert!(ctx.deadline.secs >= before.secs + 10);
    assert!(ctx.deadline.secs <= after.secs + 10);
    assert!(ctx.deadline.nanos < 1_000_000_000);
    assert_eq!(ctx.trace_context.parent_id, None);
    assert_eq!(ctx.trace_id(), &ctx.trace_context.trace_id);
}

#[test]
fn ten_seconds_from_now_is_ten_seconds_ahead() {
    let before = context::now();
    let t = ten_seconds_from_now();
    assert!(t.secs >= before.secs + 10);
}

#[test]
fn starting_at_sets_deadline_and_trace() {
    let now = Timestamp { secs: 100, nanos: 5 };
    let trace_context = trace::Context { trace_id: TraceId(1), span_id: SpanId(2), parent_id: None };
    let ctx = Context::starting_at(now, trace_context);
    assert_eq!(ctx.deadline, Timestamp { secs: 110, nanos: 5 });
    assert_eq!(ctx.trace_context, trace_context);
}

#[test]
fn deadline_adds_whole_seconds() {
    let late = Timestamp { secs: u64::MAX as i128 - 3, nanos: 1 };
    assert_eq!(late.plus_secs(10), Timestamp { secs: u64::MAX as i128 + 7, nanos: 1 });
    assert_eq!(Timestamp::unix_epoch().plus_secs(7), Timestamp { secs: 7, nanos: 0 });
    let early = Timestamp { secs: -20, nanos: 4 };
    assert_eq!(early.plus_secs(10), Timestamp { secs: -10, nanos: 4 });
}

#[test]
fn times_after_the_epoch() {
    assert_eq!(Timestamp::from_epoch_offset(false, 5, 3), Timestamp { secs: 5, nanos: 3 });
    assert_eq!(Timestamp::from_epoch_offset(false, 0, 0), Timestamp::unix_epoch());
}

#[test]
fn times_before_the_epoch() {
    assert_eq!(
        Timestamp::from_epoch_offset(true, 5, 250_000_000),
        Timestamp { secs: -6, nanos: 750_000_000 }
    );
    assert_eq!(Timestamp::from_epoch_offset(true, 5, 0), Timestamp { secs: -5, nanos: 0 });
    assert_eq!(
        Timestamp::from_epoch_offset(true, u64::MAX, 1),
        Timestamp { secs: -(u64::MAX as i128) - 1, nanos: 999_999_999 }
    );
}

#[test]
fn now_reads_the_clock() {
    let expected = std::time::SystemTime::now()
        .duration_since(std::time::UNIX_EPOCH)
        .unwrap()
        .as_secs() as i128;
    let t = context::now();
    assert!(t.secs >= expected && t.secs <= expected + 1);
    assert!(t.nanos < 1_000_000_000);
}

#[test]
fn clone_copies_every_field() {
    let mut ctx = current();
    ctx.extensions.insert(String::from("ext"));
    let mut copy = ctx.clone();
    assert_eq!(copy.deadline, ctx.deadline);
    assert_eq!(copy.trace_context, ctx.trace_context);
    assert_eq!(copy.extensions.get::<String>().map(|s| s.as_str()), Some("ext"));
    copy.extensions.get_mut::<String>().unwrap().push_str(" changed");
    assert_eq!(ctx.extensions.get::<String>().map(|s| s.as_str()), Some("ext"));
    assert_eq!(copy.extensions.get::<String>().map(|s| s.as_str()), Some("ext changed"));
}

#[test]
fn client_message_context_is_readable_and_writable() {
    let ctx = current();
    let trace = ctx.trace_context;
    let mut message = ClientMessage::Request(Request::new(ctx, 4, "body"));
    assert_eq!(message.context().trace_context, trace);
    message.context_mut().deadline = Timestamp { secs: 1, nanos: 2 };
    assert_eq!(message.context().deadline, Timestamp { secs: 1, nanos: 2 });
    match message {
        ClientMessage::Request(r) => {
            assert_eq!(r.id, 4);
            assert_eq!(r.message, "body");
        }
        _ => panic!("expected a request"),
    }

    let mut cancel: ClientMessage<()> = ClientMessage::Cancel { context: Context::default(), request_id: 8 };
    cancel.context_mut().trace_context.span_id = SpanId(5);
    assert_eq!(cancel.context().trace_context.span_id, SpanId(5));
}

#[test]
fn response_context_is_readable_and_writable() {
    let mut response = Response::new(Context::default(), 3, Ok(1u8));
    response.context_mut().deadline = Timestamp { secs: 9, nanos: 0 };
    assert_eq!(response.context().deadline, Timestamp { secs: 9, nanos: 0 });
    assert_eq!(response.request_id, 3);
}

#[test]
fn trace_context_child() {
    let root = trace::Context { trace_id: TraceId(11), span_id: SpanId(12), parent_id: None };
    let child = root.child(SpanId(13));
    assert_eq!(child.trace_id, TraceId(11));
    assert_eq!(child.span_id, SpanId(13));
    assert_eq!(child.parent_id, Some(SpanId(12)));
    assert_eq!(trace::Context::new_root().parent_id, None);
}

#[test]
fn trace_id_from_halves() {
    assert_eq!(TraceId::from_halves(1, 2), TraceId((1u128 << 64) + 2));
    assert_eq!(TraceId::from_halves(u64::MAX, u64::MAX), TraceId(u128::MAX));
    assert_eq!(TraceId::from_halves(0, 0), TraceId(0));
}
