//! Requests that have been written to the transport and await their responses.

use vstd::prelude::*;
use std::collections::HashMap;
use crate::context::Context;
use crate::message::{Response, ServerError};

verus! {

broadcast use vstd::std_specs::hash::group_hash_axioms;

/// What dispatch keeps of a request while it is in flight.
#[verifier::reject_recursive_types(Resp)]
pub struct RequestData<Resp> {
    /// The context the request was sent with.
    pub ctx: Context,
    /// Where the response goes.
    pub response_completion: tokio::sync::oneshot::Sender<Response<Resp>>,
}

/// The request could not be recorded as in flight because a request with the same ID already is.
#[derive(Debug, Clone, Copy, PartialEq, Eq, Structural)]
pub struct AlreadyExistsError;

/// Requests already written to the wire that haven't yet received responses.
#[verifier::reject_recursive_types(Resp)]
pub struct InFlightRequests<Resp> {
    request_data: HashMap<u64, RequestData<Resp>>,
}

impl<Resp> View for InFlightRequests<Resp> {
    /// The context of each in-flight request, by request ID.
    type V = Map<u64, Context>;

    closed spec fn view(&self) -> Map<u64, Context> {
        self.request_data@.map_values(|d: RequestData<Resp>| d.ctx)
    }
}

impl<Resp> InFlightRequests<Resp> {
    /// Where the response to each in-flight request goes, by request ID.
    pub closed spec fn completions(&self) -> Map<
        u64,
        tokio::sync::oneshot::Sender<Response<Resp>>,
    > {
        self.request_data@.map_values(|d: RequestData<Resp>| d.response_completion)
    }

    /// Finitely many requests are in flight.
    pub proof fn lemma_finitely_many(&self)
        ensures
            self@.dom().finite(),
    {
        assert(self@.dom() =~= self.request_data@.dom());
    }

    /// Every request in flight has a completion recorded, and only those.
    pub proof fn lemma_same_ids(&self)
        ensures
            self@.dom() == self.completions().dom(),
    {
        assert(self@.dom() =~= self.completions().dom());
    }

    /// No requests in flight.
    pub fn new() -> (r: Self)
        ensures
            r@ == Map::<u64, Context>::empty(),
            r.completions().dom() == Set::<u64>::empty(),
    {
        let r = InFlightRequests { request_data: HashMap::new() };
        assert(r@ =~= Map::<u64, Context>::empty());
        assert(r.completions().dom() =~= Set::<u64>::empty());
        r
    }

    /// Returns the number of in-flight requests.
    pub fn len(&self) -> (n: usize)
        ensures
            n == self@.len(),
    {
        proof {
            assert(self@.dom() =~= self.request_data@.dom());
        }
        self.request_data.len()
    }

    /// Returns true iff there are no requests in flight.
    pub fn is_empty(&self) -> (empty: bool)
        ensures
            empty <==> self@.len() == 0,
            empty <==> self@ == Map::<u64, Context>::empty(),
    {
        proof {
            assert(self@.dom() =~= self.request_data@.dom());
            if self@.len() == 0 {
                assert(self@ =~= Map::<u64, Context>::empty());
            }
        }
        self.request_data.len() == 0
    }

    /// Returns true iff a request with the given ID is in flight.
    pub fn contains(&self, request_id: u64) -> (found: bool)
        ensures
            found == self@.contains_key(request_id),
    {
        self.request_data.contains_key(&request_id)
    }

    /// Starts a request, unless a request with the same ID is already in flight.
    pub fn insert_request(
        &mut self,
        request_id: u64,
        ctx: Context,
        response_completion: tokio::sync::oneshot::Sender<Response<Resp>>,
    ) -> (r: Result<(), AlreadyExistsError>)
        ensures
            r is Err <==> old(self)@.contains_key(request_id),
            r is Err ==> final(self)@ == old(self)@,
            r is Err ==> final(self).completions() == old(self).completions(),
            r is Ok ==> final(self)@ == old(self)@.insert(request_id, ctx),
            r is Ok ==> final(self).completions() == old(self).completions().insert(
                request_id,
                response_completion,
            ),
    {
        if self.request_data.contains_key(&request_id) {
            return Err(AlreadyExistsError);
        }
        let ghost completion = response_completion;
        self.request_data.insert(request_id, RequestData { ctx, response_completion });
        proof {
            assert(self@ =~= old(self)@.insert(request_id, ctx));
            assert(self.completions() =~= old(self).completions().insert(request_id, completion));
        }
        Ok(())
    }

    /// Removes the request with the given ID, returning what dispatch kept of it.
    fn take(&mut self, request_id: u64) -> (r: Option<RequestData<Resp>>)
        ensures
            r is Some <==> old(self)@.contains_key(request_id),
            r matches Some(d) ==> d.ctx == old(self)@[request_id] && d.response_completion
                == old(self).completions()[request_id],
            final(self)@ == old(self)@.remove(request_id),
            final(self).completions() == old(self).completions().remove(request_id),
    {
        let r = self.request_data.remove(&request_id);
        proof {
            assert(self@ =~= old(self)@.remove(request_id));
            assert(self.completions() =~= old(self).completions().remove(request_id));
        }
        r
    }

    /// Removes a request without completing it. Returns the request's context if it was in
    /// flight.
    pub fn cancel_request(&mut self, request_id: u64) -> (ctx: Option<Context>)
        ensures
            ctx is Some <==> old(self)@.contains_key(request_id),
            ctx matches Some(c) ==> c == old(self)@[request_id],
            final(self)@ == old(self)@.remove(request_id),
            final(self).completions() == old(self).completions().remove(request_id),
    {
        match self.take(request_id) {
            Some(data) => Some(data.ctx),
            None => None,
        }
    }

    /// Removes the request that `response` answers and pairs the response with where it goes:
    /// the completion recorded for the request with the response's ID. `None` when no such
    /// request is in flight (it was already canceled or completed).
    pub fn route_response(&mut self, response: Response<Resp>) -> (routed: Option<
        (tokio::sync::oneshot::Sender<Response<Resp>>, Response<Resp>),
    >)
        ensures
            routed is Some <==> old(self)@.contains_key(response.request_id),
            routed matches Some((completion, r)) ==> completion == old(self).completions()[
                response.request_id
            ] && r == response,
            final(self)@ == old(self)@.remove(response.request_id),
            final(self).completions() == old(self).completions().remove(response.request_id),
    {
        let request_id = response.request_id;
        match self.take(request_id) {
            Some(data) => Some((data.response_completion, response)),
            None => None,
        }
    }

    /// Removes a request whose deadline passed and pairs where its response goes with the
    /// response that ends it: `error`, sent with the request's context. `None` when no such
    /// request is in flight.
    pub fn expire_request(&mut self, request_id: u64, error: ServerError) -> (routed: Option<
        (tokio::sync::oneshot::Sender<Response<Resp>>, Response<Resp>),
    >)
        ensures
            routed is Some <==> old(self)@.contains_key(request_id),
            routed matches Some((completion, r)) ==> completion == old(self).completions()[
                request_id
            ] && r == (Response::<Resp> {
                context: old(self)@[request_id],
                request_id,
                message: Err(error),
            }),
            final(self)@ == old(self)@.remove(request_id),
            final(self).completions() == old(self).completions().remove(request_id),
    {
        match self.take(request_id) {
            Some(data) => Some(
                (
                    data.response_completion,
                    Response { context: data.ctx, request_id, message: Err(error) },
                ),
            ),
            None => None,
        }
    }
}

} // verus!
