use vstd::prelude::*;
use crate::message::{LLMRequest, LLMResponse, LLMServiceError, Prompt, completion_view};
use crate::wire::{HttpCall, HttpOutcome, HttpRequest, health_outcome, health_view};

verus! {

/// The capability every backend adapter offers. The network exchange itself is
/// made by the caller: an adapter says what to send, and what the reply means.
pub trait LLMBridge {
    /// The adapter's stable name.
    spec fn spec_name(&self) -> Seq<char>;

    /// The configured model identifier.
    spec fn spec_model(&self) -> Seq<char>;

    /// The call that asks for a completion of these messages.
    spec fn completion_call(&self, messages: Seq<Prompt>) -> HttpCall;

    /// The cheap call that probes reachability.
    spec fn health_call(&self) -> HttpCall;

    /// What a completion call's outcome yields: the text, or the error message.
    spec fn completion_result(&self, outcome: HttpOutcome) -> Result<Seq<char>, Seq<char>>;

    fn name(&self) -> (r: &str)
        ensures
            r@ == self.spec_name(),
    ;

    fn model(&self) -> (r: &str)
        ensures
            r@ == self.spec_model(),
    ;

    fn complete_request(&self, request: &LLMRequest) -> (r: HttpRequest)
        ensures
            r@ == self.completion_call(request.messages@),
    ;

    fn complete_outcome(&self, outcome: HttpOutcome) -> (r: Result<LLMResponse, LLMServiceError>)
        ensures
            completion_view(r) == self.completion_result(outcome),
    ;

    fn health_request(&self) -> (r: HttpRequest)
        ensures
            r@ == self.health_call(),
    ;

    fn health_outcome(&self, outcome: HttpOutcome) -> (r: Result<bool, LLMServiceError>)
        ensures
            health_view(r) == health_outcome(outcome),
    ;
}

} // verus!
