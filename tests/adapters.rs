use chat_bridge::azure::AzureBridge;
use chat_bridge::azure_deepseek::AzureDeepSeekBridge;
use chat_bridge::bridge::LLMBridge;
use chat_bridge::config::{
    AIService, AzureConfig, AzureDeepSeekConfig, ConfigError, DeepSeekConfig, OllamaConfig, Provider,
    select_bridge,
};
use chat_bridge::deepseek::DeepSeekBridge;
use chat_bridge::json::Json;
use chat_bridge::message::{LLMRequest, LLMResponse, LLMServiceError, Prompt};
use chat_bridge::ollama::OllamaBridge;
use chat_bridge::transcript::{convert_prompts, format_prompts};
use chat_bridge::wire::{HttpOutcome, HttpRequest, Method, ReplyShape, reply_content};

fn conversation() -> LLMRequest {
    LLMRequest {
        messages: vec![Prompt::new("user", "Hello"), Prompt::new("assistant", "Hi \"there\"")],
    }
}

fn one_turn() -> LLMRequest {
    LLMRequest { messages: vec![Prompt::new("user", "Hello")] }
}

fn headers(r: &HttpRequest) -> Vec<(&str, &str)> {
    r.headers.iter().map(|(k, v)| (k.as_str(), v.as_str())).collect()
}

fn received(status: u16, body: &str) -> HttpOutcome {
    HttpOutcome::Received(status, Ok(body.to_string()))
}

fn content(r: Result<LLMResponse, LLMServiceError>) -> String {
    r.ok().expect("a completion").content
}

fn error(r: Result<LLMResponse, LLMServiceError>) -> String {
    r.err().expect("an error").error
}

#[test]
fn transcript_joins_lines_in_order() {
    let ps = vec![Prompt::new("system", "be brief"), Prompt::new("user", "a: b"), Prompt::new("assistant", "")];
    assert_eq!(format_prompts(&ps), "system: be brief\nuser: a: b\nassistant: ");
    assert_eq!(format_prompts(&vec![]), "");
}

#[test]
fn transcript_keeps_every_content() {
    let contents = ["multi\nline", "ünïcödé ✓", "  spaced  ", "{\"json\": true}"];
    let ps: Vec<Prompt> = contents.iter().map(|c| Prompt::new("user", c)).collect();
    let t = format_prompts(&ps);
    let mut at = 0;
    for c in contents.iter() {
        let line = format!("user: {}", c);
        let found = t[at..].find(&line).expect("line present") + at;
        assert_eq!(&t[found + 6..found + 6 + c.len()], *c);
        at = found + line.len();
    }
}

#[test]
fn chat_messages_one_for_one() {
    let ps = vec![Prompt::new("user", "say \"hi\"\n"), Prompt::new("assistant", "hi")];
    let text = convert_prompts(&ps);
    assert_eq!(text, r#"[{"role":"user","content":"say \"hi\"\n"},{"role":"assistant","content":"hi"}]"#);
    let parsed: serde_json::Value = serde_json::from_str(&text).unwrap();
    assert_eq!(parsed[0]["content"], "say \"hi\"\n");
    assert_eq!(parsed[1]["role"], "assistant");
    assert_eq!(convert_prompts(&vec![]), "[]");
}

fn text(s: &str) -> Json {
    Json::Str(s.to_string())
}

fn object(members: Vec<(&str, Json)>) -> Json {
    Json::Object(members.into_iter().map(|(k, v)| (k.to_string(), v)).collect())
}

#[test]
fn reply_content_by_shape() {
    let j = object(vec![("response", text("Paris")), ("done", Json::Bool(true))]);
    assert_eq!(reply_content("Ollama", ReplyShape::Generate, &j), Ok("Paris".to_string()));
    let j = object(vec![("outputs", Json::Array(vec![object(vec![("text", text("t1"))]), object(vec![("text", text("t2"))])]))]);
    assert_eq!(reply_content("Azure", ReplyShape::Outputs, &j), Ok("t1".to_string()));
    let j = object(vec![("outputs", Json::Array(vec![object(vec![("text", text("t1"))]), object(vec![("txt", text("t2"))])]))]);
    assert_eq!(
        reply_content("Azure", ReplyShape::Outputs, &j),
        Err("Failed to parse Azure response: unexpected response shape".to_string())
    );
    let j = object(vec![("outputs", text("t1"))]);
    assert_eq!(
        reply_content("Azure", ReplyShape::Outputs, &j),
        Err("Failed to parse Azure response: unexpected response shape".to_string())
    );
    let j = object(vec![("choices", Json::Array(vec![]))]);
    assert_eq!(reply_content("DeepSeek", ReplyShape::Choices, &j), Err("No completion choices returned".to_string()));
    let message = object(vec![("role", text("assistant")), ("content", text("4"))]);
    let j = object(vec![("choices", Json::Array(vec![object(vec![("index", Json::Number("0".to_string())), ("message", message)])]))]);
    assert_eq!(reply_content("DeepSeek", ReplyShape::Choices, &j), Ok("4".to_string()));
    let j = Json::Array(vec![text("Paris")]);
    assert_eq!(
        reply_content("Ollama", ReplyShape::Generate, &j),
        Err("Failed to parse Ollama response: unexpected response shape".to_string())
    );
    let j = object(vec![("response", Json::Null)]);
    assert_eq!(
        reply_content("Ollama", ReplyShape::Generate, &j),
        Err("Failed to parse Ollama response: unexpected response shape".to_string())
    );
}

#[test]
fn reply_bodies_are_parsed_as_json() {
    let b = OllamaBridge::new("http://h", "m");
    let nested = r#"{"response":"a\"quoted\"\ntext","context":[1,2.5,null,true,{"k":"v"}]}"#;
    assert_eq!(content(b.complete_outcome(received(200, nested))), "a\"quoted\"\ntext");
    assert_eq!(content(b.complete_outcome(received(200, "  {\"response\" : \"x\"}  "))), "x");
    assert!(error(b.complete_outcome(received(200, "{not json"))).starts_with("Failed to parse Ollama response: "));
    assert_ne!(error(b.complete_outcome(received(200, "{not json"))), "Failed to parse Ollama response: ");
}

#[test]
fn ollama_request_and_reply() {
    let b = OllamaBridge::new("http://localhost:11434", "llama3");
    assert_eq!(b.name(), "Ollama");
    assert_eq!(b.model(), "llama3");
    let r = b.complete_request(&conversation());
    assert_eq!(r.method, Method::Post);
    assert_eq!(r.url, "http://localhost:11434/api/generate");
    assert_eq!(headers(&r), vec![("Content-Type", "application/json")]);
    assert_eq!(
        r.body.as_deref(),
        Some(r#"{"model":"llama3","prompt":"user: Hello\nassistant: Hi \"there\"","stream":false}"#)
    );
    let h = b.health_request();
    assert_eq!(h.method, Method::Get);
    assert_eq!(h.url, "http://localhost:11434/api/version");
    assert!(h.headers.is_empty());
    assert!(h.body.is_none());
    assert_eq!(content(b.complete_outcome(received(200, r#"{"response":"Paris"}"#))), "Paris");
    assert_eq!(
        error(b.complete_outcome(received(500, "boom"))),
        "Ollama API error: 500 Internal Server Error - boom"
    );
    assert_eq!(
        error(b.complete_outcome(HttpOutcome::Unsent("connection refused".to_string()))),
        "Ollama request failed: connection refused"
    );
    assert_eq!(
        error(b.complete_outcome(HttpOutcome::Received(502, Err("body lost".to_string())))),
        "Failed to read error response: body lost"
    );
    assert_eq!(
        error(b.complete_outcome(received(200, r#"{"other":1}"#))),
        "Failed to parse Ollama response: unexpected response shape"
    );
    assert!(error(b.complete_outcome(received(200, "not json"))).starts_with("Failed to parse Ollama response: "));
}

#[test]
fn azure_request_and_reply() {
    let b = AzureBridge::new("https://host.example", "phi", "SECRET-REDACTED");
    assert_eq!(b.name(), "AzureAI");
    assert_eq!(b.model(), "phi");
    let r = b.complete_request(&one_turn());
    assert_eq!(r.url, "https://host.example/text/completions?api-version=2023-05-01");
    assert_eq!(headers(&r), vec![("api-key", "SECRET-REDACTED"), ("Content-Type", "application/json")]);
    assert_eq!(
        r.body.as_deref(),
        Some(r#"{"input":"user: Hello","parameters":{"max_new_tokens":800,"temperature":0.7}}"#)
    );
    let h = b.health_request();
    assert_eq!(h.method, Method::Post);
    assert_eq!(h.url, r.url);
    assert_eq!(h.body.as_deref(), Some(r#"{"input":"Hi","parameters":{"max_new_tokens":1,"temperature":0.7}}"#));
    assert_eq!(content(b.complete_outcome(received(200, r#"{"outputs":[{"text":"done"}]}"#))), "done");
    assert_eq!(error(b.complete_outcome(received(200, r#"{"outputs":[]}"#))), "No completion outputs returned");
    assert_eq!(error(b.complete_outcome(received(404, "missing"))), "Azure API error: 404 Not Found - missing");
}

#[test]
fn deepseek_request_and_reply() {
    let b = DeepSeekBridge::new("k", "deepseek-chat");
    assert_eq!(b.name(), "DeepSeek");
    assert_eq!(b.model(), "deepseek-chat");
    let r = b.complete_request(&one_turn());
    assert_eq!(r.url, "https://api.deepseek.com/v1/chat/completions");
    assert_eq!(headers(&r), vec![("Authorization", "Bearer k"), ("Content-Type", "application/json")]);
    assert_eq!(
        r.body.as_deref(),
        Some(r#"{"model":"deepseek-chat","messages":[{"role":"user","content":"Hello"}],"temperature":0.7,"max_tokens":800,"stream":false}"#)
    );
    let h = b.health_request();
    assert_eq!(
        h.body.as_deref(),
        Some(r#"{"model":"deepseek-chat","messages":[{"role":"user","content":"Hi"}],"temperature":0.7,"max_tokens":1,"stream":false}"#)
    );
    let ok = r#"{"id":"x","choices":[{"index":0,"message":{"role":"assistant","content":"4"}}]}"#;
    assert_eq!(content(b.complete_outcome(received(200, ok))), "4");
    assert_eq!(error(b.complete_outcome(received(200, r#"{"choices":[]}"#))), "No completion choices returned");
    assert_eq!(
        error(b.complete_outcome(received(200, r#"{"choices":[{"message":{"content":"4"}}]}"#))),
        "Failed to parse DeepSeek response: unexpected response shape"
    );
}

#[test]
fn gateway_request_and_reply() {
    let b = AzureDeepSeekBridge::new("https://gw.example", "DeepSeek-R1", "k");
    assert_eq!(b.name(), "AzureDeepSeek");
    let r = b.complete_request(&conversation());
    assert_eq!(r.url, "https://gw.example/v1/chat/completions");
    assert_eq!(headers(&r), vec![("Authorization", "k"), ("Content-Type", "application/json")]);
    assert_eq!(
        r.body.as_deref(),
        Some(r#"{"messages":[{"role":"user","content":"Hello"},{"role":"assistant","content":"Hi \"there\""}],"temperature":0.7,"max_tokens":800,"stream":false}"#)
    );
    let h = b.health_request();
    assert_eq!(h.url, "https://gw.example/deployments/DeepSeek-R1/chat/completions?api-version=2024-02-15-preview");
    assert_eq!(headers(&h), vec![("api-key", "k"), ("Content-Type", "application/json")]);
    assert_eq!(
        error(b.complete_outcome(received(429, "slow down"))),
        "Azure DeepSeek API error: 429 Too Many Requests - slow down"
    );
}

#[test]
fn health_outcomes() {
    let b = OllamaBridge::new("http://h", "m");
    assert_eq!(b.health_outcome(received(200, "")).ok(), Some(true));
    assert_eq!(b.health_outcome(received(503, "")).ok(), Some(false));
    assert_eq!(b.health_outcome(received(299, "")).ok(), Some(true));
    assert_eq!(b.health_outcome(received(300, "")).ok(), Some(false));
    assert_eq!(
        b.health_outcome(HttpOutcome::Unsent("dns".to_string())).err().unwrap().error,
        "Health check failed: dns"
    );
}

fn service(provider: &str) -> AIService {
    AIService {
        provider: provider.to_string(),
        ollama: Some(OllamaConfig { base_url: "http://o".to_string(), model: "llama3".to_string() }),
        azure: Some(AzureConfig { base_url: "http://a".to_string(), api_key: "ak".to_string(), model: "phi".to_string() }),
        deepseek: Some(DeepSeekConfig { api_key: "dk".to_string(), model: "deepseek-chat".to_string() }),
        azure_deepseek: Some(AzureDeepSeekConfig { api_key: "gk".to_string(), base_url: "http://g".to_string() }),
    }
}

#[test]
fn selector_builds_named_adapter() {
    match select_bridge(&service("ollama")) {
        Ok(Provider::Ollama(b)) => assert_eq!((b.base_url.as_str(), b.model.as_str()), ("http://o", "llama3")),
        _ => panic!("expected the local adapter"),
    }
    match select_bridge(&service("azure")) {
        Ok(Provider::Azure(b)) => assert_eq!(b.api_key, "ak"),
        _ => panic!("expected the text-completion adapter"),
    }
    match select_bridge(&service("deepseek")) {
        Ok(p) => {
            assert_eq!(p.name(), "DeepSeek");
            assert_eq!(p.model(), "deepseek-chat");
        },
        _ => panic!("expected the chat adapter"),
    }
    match select_bridge(&service("azure-deepseek")) {
        Ok(p) => {
            assert_eq!(p.name(), "AzureDeepSeek");
            assert_eq!(p.model(), "DeepSeek-R1");
            assert_eq!(p.complete_request(&one_turn()).url, "http://g/v1/chat/completions");
        },
        _ => panic!("expected the gateway adapter"),
    }
}

#[test]
fn selector_rejects_bad_configuration() {
    let mut s = service("deepseek");
    s.deepseek = None;
    match select_bridge(&s) {
        Err(e @ ConfigError::MissingSettings(_)) => {
            assert_eq!(e.to_string(), "Missing settings for AI service provider: deepseek")
        },
        _ => panic!("expected a missing-settings error"),
    }
    match select_bridge(&service("openai")) {
        Err(e @ ConfigError::UnsupportedProvider(_)) => {
            assert_eq!(e.to_string(), "Unsupported AI service provider: openai")
        },
        _ => panic!("expected an unsupported-provider error"),
    }
}

#[test]
fn error_text_is_its_message() {
    let e = LLMServiceError::new("x failed".to_string());
    assert_eq!(e.to_string(), "x failed");
}
