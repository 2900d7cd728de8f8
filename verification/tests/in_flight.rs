use tarpc::client::in_flight::{AlreadyExistsError, InFlightRequests};
use tarpc::context::{self, Context};
use tarpc::Response;
use tokio::sync::oneshot;

fn response(id: u64, value: &str) -> Response<String> {
    Response::new(Context::default(), id, Ok(value.to_string()))
}

#[test]
fn insert_then_complete_delivers_the_response() {
    let mut in_flight = InFlightRequests::<String>::new();
    assert!(in_flight.is_empty());
    let (tx, mut rx) = oneshot::channel();
    assert_eq!(in_flight.insert_request(7, context::current(), tx), Ok(()));
    assert_eq!(in_flight.len(), 1);
    assert!(in_flight.contains(7));
    let (completion, routed) = in_flight.route_response(response(7, "done")).unwrap();
    completion.send(routed).unwrap();
    assert!(in_flight.is_empty());
    let got = rx.try_recv().unwrap();
    assert_eq!(got.request_id, 7);
    assert_eq!(got.message.unwrap(), "done");
}

#[test]
fn duplicate_request_id_is_refused() {
    let mut in_flight = InFlightRequests::<String>::new();
    let (tx1, _rx1) = oneshot::channel();
    let (tx2, _rx2) = oneshot::channel();
    assert_eq!(in_flight.insert_request(1, context::current(), tx1), Ok(()));
    assert_eq!(in_flight.insert_request(1, context::current(), tx2), Err(AlreadyExistsError));
    assert_eq!(in_flight.len(), 1);
}

#[test]
fn cancel_returns_the_context_and_forgets_the_request() {
    let mut in_flight = InFlightRequests::<String>::new();
    let ctx = context::current();
    let trace_id = *ctx.trace_id();
    let (tx, mut rx) = oneshot::channel();
    in_flight.insert_request(3, ctx, tx).unwrap();
    let canceled = in_flight.cancel_request(3).unwrap();
    assert_eq!(*canceled.trace_id(), trace_id);
    assert!(in_flight.is_empty());
    // A second cancellation, and a late response, find nothing.
    assert!(in_flight.cancel_request(3).is_none());
    assert!(in_flight.route_response(response(3, "late")).is_none());
    // The waiting caller never gets a response: the sender was dropped.
    assert!(rx.try_recv().is_err());
}

#[test]
fn response_to_unknown_request_is_dropped() {
    let mut in_flight = InFlightRequests::<String>::new();
    let (tx, _rx) = oneshot::channel();
    in_flight.insert_request(1, context::current(), tx).unwrap();
    assert!(in_flight.route_response(response(2, "stray")).is_none());
    assert_eq!(in_flight.len(), 1);
}

#[test]
fn completion_to_a_caller_that_stopped_waiting_still_settles_the_request() {
    let mut in_flight = InFlightRequests::<String>::new();
    let (tx, rx) = oneshot::channel();
    in_flight.insert_request(5, context::current(), tx).unwrap();
    drop(rx);
    let (completion, routed) = in_flight.route_response(response(5, "nobody listens")).unwrap();
    assert!(completion.send(routed).is_err());
    assert!(in_flight.is_empty());
}

#[test]
fn each_response_reaches_the_caller_of_its_request() {
    let mut in_flight = InFlightRequests::<String>::new();
    let (tx1, mut rx1) = oneshot::channel();
    let (tx2, mut rx2) = oneshot::channel();
    in_flight.insert_request(1, context::current(), tx1).unwrap();
    in_flight.insert_request(2, context::current(), tx2).unwrap();
    let (completion, routed) = in_flight.route_response(response(2, "two")).unwrap();
    assert_eq!(routed.request_id, 2);
    completion.send(routed).unwrap();
    assert_eq!(rx2.try_recv().unwrap().message.unwrap(), "two");
    assert!(rx1.try_recv().is_err());
    assert!(in_flight.route_response(response(2, "again")).is_none());
    let (completion, routed) = in_flight.route_response(response(1, "one")).unwrap();
    completion.send(routed).unwrap();
    assert_eq!(rx1.try_recv().unwrap().message.unwrap(), "one");
}

#[test]
fn expired_request_ends_with_the_error() {
    let mut in_flight = InFlightRequests::<String>::new();
    let ctx = context::current();
    let trace = ctx.trace_context;
    let (tx, mut rx) = oneshot::channel();
    in_flight.insert_request(4, ctx, tx).unwrap();
    let error = tarpc::ServerError::new(std::io::ErrorKind::TimedOut, None);
    let (completion, expired) = in_flight.expire_request(4, error).unwrap();
    assert_eq!(expired.request_id, 4);
    assert_eq!(expired.context.trace_context, trace);
    completion.send(expired).unwrap();
    let got = rx.try_recv().unwrap();
    assert_eq!(got.message.unwrap_err().kind, std::io::ErrorKind::TimedOut);
    assert!(in_flight.is_empty());
    let again = tarpc::ServerError::new(std::io::ErrorKind::TimedOut, None);
    assert!(in_flight.expire_request(4, again).is_none());
}
