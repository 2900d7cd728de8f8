//! The one-shot channel by which request dispatch hands a response to the waiting caller.

use vstd::prelude::*;
use crate::message::Response;

verus! {

#[verifier::external_type_specification]
#[verifier::external_body]
#[verifier::reject_recursive_types(T)]
pub struct ExOneshotSender<T>(tokio::sync::oneshot::Sender<T>);

/// Whether the caller waiting on `completion` has stopped waiting: calls
/// `tokio::sync::oneshot::Sender::is_closed`, which is `true` once the receiving half has been
/// closed or dropped.
///
/// Nothing is promised of the value: it depends on what the caller's task has done so far.
#[verifier::external_body]
pub fn completion_closed<Resp>(completion: &tokio::sync::oneshot::Sender<Response<Resp>>) -> bool {
    completion.is_closed()
}

} // verus!
