use vstd::prelude::*;
use vstd::string::StringExecFns;
use crate::bridge::LLMBridge;
use crate::json::{json_quote, json_quoted};
use crate::message::{LLMRequest, LLMResponse, LLMServiceError, Prompt};
use crate::transcript::{format_prompts, transcript, turns};
use crate::wire::{
    HttpCall, HttpOutcome, HttpRequest, ReplyShape, completion_outcome, joined_url, json_post,
    post_json, read_completion, read_health,
};

verus! {

/// An adapter for a hosted text-completion endpoint, which takes one input text.
pub struct AzureBridge {
    pub base_url: String,
    pub model: String,
    pub api_key: String,
}

/// `{"input":...,"parameters":{"max_new_tokens":N,"temperature":0.7}}`.
pub open spec fn text_completion_body(input: Seq<char>, max_new_tokens: Seq<char>) -> Seq<char> {
    "{\"input\":"@ + json_quoted(input) + ",\"parameters\":{\"max_new_tokens\":"@ + max_new_tokens
        + ",\"temperature\":0.7}}"@
}

pub open spec fn text_completion_url(base_url: Seq<char>) -> Seq<char> {
    base_url + "/text/completions?api-version=2023-05-01"@
}

fn text_completion_request(base_url: &str, api_key: &str, input: &str, max_new_tokens: &str) -> (r: HttpRequest)
    ensures
        r@ == json_post(
            text_completion_url(base_url@),
            Some(("api-key"@, api_key@)),
            text_completion_body(input@, max_new_tokens@),
        ),
{
    let mut body = String::from_str("{\"input\":");
    let input = json_quote(input);
    body.append(input.as_str());
    body.append(",\"parameters\":{\"max_new_tokens\":");
    body.append(max_new_tokens);
    body.append(",\"temperature\":0.7}}");
    let auth = (String::from_str("api-key"), String::from_str(api_key));
    post_json(joined_url(base_url, "/text/completions?api-version=2023-05-01"), Some(auth), body)
}

impl AzureBridge {
    pub fn new(base_url: &str, model: &str, api_key: &str) -> (r: AzureBridge)
        ensures
            r.base_url@ == base_url@,
            r.model@ == model@,
            r.api_key@ == api_key@,
    {
        AzureBridge {
            base_url: String::from_str(base_url),
            model: String::from_str(model),
            api_key: String::from_str(api_key),
        }
    }
}

impl LLMBridge for AzureBridge {
    open spec fn spec_name(&self) -> Seq<char> {
        "AzureAI"@
    }

    open spec fn spec_model(&self) -> Seq<char> {
        self.model@
    }

    open spec fn completion_call(&self, messages: Seq<Prompt>) -> HttpCall {
        json_post(
            text_completion_url(self.base_url@),
            Some(("api-key"@, self.api_key@)),
            text_completion_body(transcript(turns(messages)), "800"@),
        )
    }

    open spec fn health_call(&self) -> HttpCall {
        json_post(
            text_completion_url(self.base_url@),
            Some(("api-key"@, self.api_key@)),
            text_completion_body("Hi"@, "1"@),
        )
    }

    open spec fn completion_result(&self, outcome: HttpOutcome) -> Result<Seq<char>, Seq<char>> {
        completion_outcome("Azure"@, ReplyShape::Outputs, outcome)
    }

    fn name(&self) -> (r: &str) {
        "AzureAI"
    }

    fn model(&self) -> (r: &str) {
        self.model.as_str()
    }

    fn complete_request(&self, request: &LLMRequest) -> (r: HttpRequest) {
        let input = format_prompts(&request.messages);
        text_completion_request(self.base_url.as_str(), self.api_key.as_str(), input.as_str(), "800")
    }

    fn complete_outcome(&self, outcome: HttpOutcome) -> (r: Result<LLMResponse, LLMServiceError>) {
        read_completion("Azure", ReplyShape::Outputs, outcome)
    }

    fn health_request(&self) -> (r: HttpRequest) {
        text_completion_request(self.base_url.as_str(), self.api_key.as_str(), "Hi", "1")
    }

    fn health_outcome(&self, outcome: HttpOutcome) -> (r: Result<bool, LLMServiceError>) {
        read_health(outcome)
    }
}

} // verus!
