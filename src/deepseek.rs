use vstd::prelude::*;
use vstd::string::StringExecFns;
use crate::bridge::LLMBridge;
use crate::json::{json_quote, json_quoted};
use crate::message::{LLMRequest, LLMResponse, LLMServiceError, Prompt};
use crate::transcript::{convert_prompts, message_array, turns};
use crate::wire::{
    HttpCall, HttpOutcome, HttpRequest, ReplyShape, completion_outcome, json_post, post_json,
    read_completion, read_health,
};

verus! {

/// An adapter for a hosted chat-completions service with bearer-token access.
pub struct DeepSeekBridge {
    pub api_key: String,
    pub model: String,
}

/// The service's fixed chat-completions address.
pub open spec fn deepseek_url() -> Seq<char> {
    "https://api.deepseek.com/v1/chat/completions"@
}

/// `{"model":...,"messages":[...],"temperature":0.7,"max_tokens":N,"stream":false}`.
pub open spec fn chat_body(model: Seq<char>, ts: Seq<(Seq<char>, Seq<char>)>, max_tokens: Seq<char>) -> Seq<char> {
    "{\"model\":"@ + json_quoted(model) + ",\"messages\":"@ + message_array(ts)
        + ",\"temperature\":0.7,\"max_tokens\":"@ + max_tokens + ",\"stream\":false}"@
}

/// The single greeting a health probe sends.
pub open spec fn greeting() -> Seq<(Seq<char>, Seq<char>)> {
    seq![("user"@, "Hi"@)]
}

/// The greeting as a message list, for health probes.
pub fn greeting_prompts() -> (r: Vec<Prompt>)
    ensures
        turns(r@) == greeting(),
{
    let mut v: Vec<Prompt> = Vec::new();
    v.push(Prompt::new("user", "Hi"));
    assert(turns(v@) =~= greeting());
    v
}

impl DeepSeekBridge {
    pub fn new(api_key: &str, model: &str) -> (r: DeepSeekBridge)
        ensures
            r.api_key@ == api_key@,
            r.model@ == model@,
    {
        DeepSeekBridge { api_key: String::from_str(api_key), model: String::from_str(model) }
    }

    fn chat_request(&self, messages: &Vec<Prompt>, max_tokens: &str) -> (r: HttpRequest)
        ensures
            r@ == json_post(
                deepseek_url(),
                Some(("Authorization"@, "Bearer "@ + self.api_key@)),
                chat_body(self.model@, turns(messages@), max_tokens@),
            ),
    {
        let mut body = String::from_str("{\"model\":");
        let model = json_quote(self.model.as_str());
        body.append(model.as_str());
        body.append(",\"messages\":");
        let array = convert_prompts(messages);
        body.append(array.as_str());
        body.append(",\"temperature\":0.7,\"max_tokens\":");
        body.append(max_tokens);
        body.append(",\"stream\":false}");
        let mut bearer = String::from_str("Bearer ");
        bearer.append(self.api_key.as_str());
        let auth = (String::from_str("Authorization"), bearer);
        post_json(String::from_str("https://api.deepseek.com/v1/chat/completions"), Some(auth), body)
    }
}

impl LLMBridge for DeepSeekBridge {
    open spec fn spec_name(&self) -> Seq<char> {
        "DeepSeek"@
    }

    open spec fn spec_model(&self) -> Seq<char> {
        self.model@
    }

    open spec fn completion_call(&self, messages: Seq<Prompt>) -> HttpCall {
        json_post(
            deepseek_url(),
            Some(("Authorization"@, "Bearer "@ + self.api_key@)),
            chat_body(self.model@, turns(messages), "800"@),
        )
    }

    open spec fn health_call(&self) -> HttpCall {
        json_post(
            deepseek_url(),
            Some(("Authorization"@, "Bearer "@ + self.api_key@)),
            chat_body(self.model@, greeting(), "1"@),
        )
    }

    open spec fn completion_result(&self, outcome: HttpOutcome) -> Result<Seq<char>, Seq<char>> {
        completion_outcome("DeepSeek"@, ReplyShape::Choices, outcome)
    }

    fn name(&self) -> (r: &str) {
        "DeepSeek"
    }

    fn model(&self) -> (r: &str) {
        self.model.as_str()
    }

    fn complete_request(&self, request: &LLMRequest) -> (r: HttpRequest) {
        self.chat_request(&request.messages, "800")
    }

    fn complete_outcome(&self, outcome: HttpOutcome) -> (r: Result<LLMResponse, LLMServiceError>) {
        read_completion("DeepSeek", ReplyShape::Choices, outcome)
    }

    fn health_request(&self) -> (r: HttpRequest) {
        let greeting = greeting_prompts();
        self.chat_request(&greeting, "1")
    }

    fn health_outcome(&self, outcome: HttpOutcome) -> (r: Result<bool, LLMServiceError>) {
        read_health(outcome)
    }
}

} // verus!
