//! Bodies of the health-check and invocation endpoints.
use vstd::prelude::*;

verus! {

/// Status reported by a healthy service.
pub const HEALTHY: &'static str = "healthy";

/// Body of the health-check answer.
pub struct StatusResponse {
    pub status_msg: String,
}

/// Body of an invocation: the prompt to forward to the model.
pub struct InvocationsRequest {
    pub prompt: String,
}

/// Answer to an invocation: the model's reply.
pub struct InvocationsResponse {
    pub message: String,
}

/// The health-check answer: the service is up.
pub fn ping() -> (r: StatusResponse)
    ensures
        r.status_msg@ == HEALTHY@,
{
    StatusResponse { status_msg: HEALTHY.to_owned() }
}

impl InvocationsRequest {
    /// A request that forwards `prompt`.
    pub fn new(prompt: String) -> (r: InvocationsRequest)
        ensures
            r.prompt@ == prompt@,
    {
        InvocationsRequest { prompt }
    }

    /// The prompt to forward to the model.
    pub fn into_prompt(self) -> (r: String)
        ensures
            r@ == self.prompt@,
    {
        self.prompt
    }
}

impl InvocationsResponse {
    /// The answer that carries the model's reply `message`.
    pub fn new(message: String) -> (r: InvocationsResponse)
        ensures
            r.message@ == message@,
    {
        InvocationsResponse { message }
    }
}

} // verus!
