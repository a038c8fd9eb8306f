use vstd::prelude::*;
use vstd::string::StringExecFns;
use crate::bridge::LLMBridge;
use crate::deepseek::{greeting, greeting_prompts};
use crate::message::{LLMRequest, LLMResponse, LLMServiceError, Prompt};
use crate::transcript::{convert_prompts, message_array, turns};
use crate::wire::{
    HttpCall, HttpOutcome, HttpRequest, ReplyShape, completion_outcome, json_post, post_json,
    read_completion, read_health,
};

verus! {

/// An adapter for a chat-completions deployment behind a gateway, with key access.
///
/// The completion call and the health probe use different addresses and
/// credential headers; both are kept as the gateway was first addressed, since
/// which of the two the gateway prefers is not known here.
pub struct AzureDeepSeekBridge {
    pub base_url: String,
    pub model: String,
    pub api_key: String,
}

/// `{"messages":[...],"temperature":0.7,"max_tokens":N,"stream":false}`.
pub open spec fn gateway_chat_body(ts: Seq<(Seq<char>, Seq<char>)>, max_tokens: Seq<char>) -> Seq<char> {
    "{\"messages\":"@ + message_array(ts) + ",\"temperature\":0.7,\"max_tokens\":"@ + max_tokens
        + ",\"stream\":false}"@
}

pub open spec fn gateway_completion_url(base_url: Seq<char>) -> Seq<char> {
    base_url + "/v1/chat/completions"@
}

pub open spec fn gateway_health_url(base_url: Seq<char>, model: Seq<char>) -> Seq<char> {
    base_url + "/deployments/"@ + model + "/chat/completions?api-version=2024-02-15-preview"@
}

fn gateway_chat_text(messages: &Vec<Prompt>, max_tokens: &str) -> (r: String)
    ensures
        r@ == gateway_chat_body(turns(messages@), max_tokens@),
{
    let mut body = String::from_str("{\"messages\":");
    let array = convert_prompts(messages);
    body.append(array.as_str());
    body.append(",\"temperature\":0.7,\"max_tokens\":");
    body.append(max_tokens);
    body.append(",\"stream\":false}");
    body
}

impl AzureDeepSeekBridge {
    pub fn new(base_url: &str, model: &str, api_key: &str) -> (r: AzureDeepSeekBridge)
        ensures
            r.base_url@ == base_url@,
            r.model@ == model@,
            r.api_key@ == api_key@,
    {
        AzureDeepSeekBridge {
            base_url: String::from_str(base_url),
            model: String::from_str(model),
            api_key: String::from_str(api_key),
        }
    }
}

impl LLMBridge for AzureDeepSeekBridge {
    open spec fn spec_name(&self) -> Seq<char> {
        "AzureDeepSeek"@
    }

    open spec fn spec_model(&self) -> Seq<char> {
        self.model@
    }

    open spec fn completion_call(&self, messages: Seq<Prompt>) -> HttpCall {
        json_post(
            gateway_completion_url(self.base_url@),
            Some(("Authorization"@, self.api_key@)),
            gateway_chat_body(turns(messages), "800"@),
        )
    }

    open spec fn health_call(&self) -> HttpCall {
        json_post(
            gateway_health_url(self.base_url@, self.model@),
            Some(("api-key"@, self.api_key@)),
            gateway_chat_body(greeting(), "1"@),
        )
    }

    open spec fn completion_result(&self, outcome: HttpOutcome) -> Result<Seq<char>, Seq<char>> {
        completion_outcome("Azure DeepSeek"@, ReplyShape::Choices, outcome)
    }

    fn name(&self) -> (r: &str) {
        "AzureDeepSeek"
    }

    fn model(&self) -> (r: &str) {
        self.model.as_str()
    }

    fn complete_request(&self, request: &LLMRequest) -> (r: HttpRequest) {
        let body = gateway_chat_text(&request.messages, "800");
        let mut url = String::from_str(self.base_url.as_str());
        url.append("/v1/chat/completions");
        let auth = (String::from_str("Authorization"), String::from_str(self.api_key.as_str()));
        post_json(url, Some(auth), body)
    }

    fn complete_outcome(&self, outcome: HttpOutcome) -> (r: Result<LLMResponse, LLMServiceError>) {
        read_completion("Azure DeepSeek", ReplyShape::Choices, outcome)
    }

    fn health_request(&self) -> (r: HttpRequest) {
        let greeting = greeting_prompts();
        let body = gateway_chat_text(&greeting, "1");
        let mut url = String::from_str(self.base_url.as_str());
        url.append("/deployments/");
        url.append(self.model.as_str());
        url.append("/chat/completions?api-version=2024-02-15-preview");
        let auth = (String::from_str("api-key"), String::from_str(self.api_key.as_str()));
        post_json(url, Some(auth), body)
    }

    fn health_outcome(&self, outcome: HttpOutcome) -> (r: Result<bool, LLMServiceError>) {
        read_health(outcome)
    }
}

} // verus!
