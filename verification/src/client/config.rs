use vstd::prelude::*;

verus! {

/// Settings that control the behavior of the client.
#[derive(Clone, Debug)]
#[non_exhaustive]
pub struct Config {
    /// The number of requests that can be in flight at once.
    /// `max_in_flight_requests` controls the size of the map used by the client
    /// for storing pending requests.
    pub max_in_flight_requests: usize,
    /// The number of requests that can be buffered client-side before being sent.
    /// `pending_request_buffer` controls the size of the channel clients use
    /// to communicate with the request dispatch task.
    pub pending_request_buffer: usize,
}

impl Default for Config {
    fn default() -> (config: Self)
        ensures
            config.max_in_flight_requests == 1000,
            config.pending_request_buffer == 100,
    {
        Config { max_in_flight_requests: 1_000, pending_request_buffer: 100 }
    }
}

} // verus!
