use vstd::prelude::*;
use vstd::string::StringExecFns;
use crate::bridge::LLMBridge;
use crate::json::{json_quote, json_quoted};
use crate::message::{LLMRequest, LLMResponse, LLMServiceError, Prompt};
use crate::transcript::{format_prompts, transcript, turns};
use crate::wire::{
    HttpCall, HttpOutcome, HttpRequest, ReplyShape, completion_outcome, get, joined_url, json_post,
    plain_get, post_json, read_completion, read_health,
};

verus! {

/// An adapter for a local generation server, which takes one prompt text.
pub struct OllamaBridge {
    pub base_url: String,
    pub model: String,
}

/// `{"model":...,"prompt":...,"stream":false}` with the conversation as one transcript.
pub open spec fn generate_body(model: Seq<char>, ts: Seq<(Seq<char>, Seq<char>)>) -> Seq<char> {
    "{\"model\":"@ + json_quoted(model) + ",\"prompt\":"@ + json_quoted(transcript(ts))
        + ",\"stream\":false}"@
}

impl OllamaBridge {
    pub fn new(base_url: &str, model: &str) -> (r: OllamaBridge)
        ensures
            r.base_url@ == base_url@,
            r.model@ == model@,
    {
        OllamaBridge { base_url: String::from_str(base_url), model: String::from_str(model) }
    }
}

impl LLMBridge for OllamaBridge {
    open spec fn spec_name(&self) -> Seq<char> {
        "Ollama"@
    }

    open spec fn spec_model(&self) -> Seq<char> {
        self.model@
    }

    open spec fn completion_call(&self, messages: Seq<Prompt>) -> HttpCall {
        json_post(self.base_url@ + "/api/generate"@, None, generate_body(self.model@, turns(messages)))
    }

    open spec fn health_call(&self) -> HttpCall {
        plain_get(self.base_url@ + "/api/version"@)
    }

    open spec fn completion_result(&self, outcome: HttpOutcome) -> Result<Seq<char>, Seq<char>> {
        completion_outcome("Ollama"@, ReplyShape::Generate, outcome)
    }

    fn name(&self) -> (r: &str) {
        "Ollama"
    }

    fn model(&self) -> (r: &str) {
        self.model.as_str()
    }

    fn complete_request(&self, request: &LLMRequest) -> (r: HttpRequest) {
        let mut body = String::from_str("{\"model\":");
        let model = json_quote(self.model.as_str());
        body.append(model.as_str());
        body.append(",\"prompt\":");
        let prompt = format_prompts(&request.messages);
        let prompt = json_quote(prompt.as_str());
        body.append(prompt.as_str());
        body.append(",\"stream\":false}");
        post_json(joined_url(self.base_url.as_str(), "/api/generate"), None, body)
    }

    fn complete_outcome(&self, outcome: HttpOutcome) -> (r: Result<LLMResponse, LLMServiceError>) {
        read_completion("Ollama", ReplyShape::Generate, outcome)
    }

    fn health_request(&self) -> (r: HttpRequest) {
        get(joined_url(self.base_url.as_str(), "/api/version"))
    }

    fn health_outcome(&self, outcome: HttpOutcome) -> (r: Result<bool, LLMServiceError>) {
        read_health(outcome)
    }
}

} // verus!
