use vstd::prelude::*;
use vstd::string::StringExecFns;
use crate::message::{LLMResponse, LLMServiceError, completion_view};
use crate::json::{Json, parse_json, json_parse_of, member_of, str_member};

verus! {

/// The HTTP verbs the adapters use.
#[derive(Clone, Copy, Debug, PartialEq, Eq, Structural)]
pub enum Method {
    Get,
    Post,
}

/// One HTTP call as an adapter wants it made: verb, address, headers in order, body.
pub struct HttpRequest {
    pub method: Method,
    pub url: String,
    pub headers: Vec<(String, String)>,
    pub body: Option<String>,
}

/// An HTTP call over plain text.
pub struct HttpCall {
    pub method: Method,
    pub url: Seq<char>,
    pub headers: Seq<(Seq<char>, Seq<char>)>,
    pub body: Option<Seq<char>>,
}

impl View for HttpRequest {
    type V = HttpCall;

    open spec fn view(&self) -> HttpCall {
        HttpCall {
            method: self.method,
            url: self.url@,
            headers: self.headers@.map_values(|h: (String, String)| (h.0@, h.1@)),
            body: match self.body {
                Some(b) => Some(b@),
                None => None,
            },
        }
    }
}

/// What came of an HTTP call.
pub enum HttpOutcome {
    /// No response arrived; the transport's error text.
    Unsent(String),
    /// A response arrived with this status code; its body text, or the error met reading it.
    Received(u16, Result<String, String>),
}

/// Which envelope a backend wraps its completion text in.
#[derive(Clone, Copy, PartialEq, Eq, Structural)]
pub enum ReplyShape {
    /// `{"response": text}`
    Generate,
    /// `{"outputs": [{"text": text}, ...]}`
    Outputs,
    /// `{"choices": [{"message": {"role": r, "content": text}}, ...]}`
    Choices,
}

/// The text reqwest shows for a status code, as in `404 Not Found`.
pub uninterp spec fn status_text_of(code: u16) -> Seq<char>;

/// Relies on reqwest::StatusCode's `Display`: the text depends on the code alone.
#[verifier::external_body]
fn status_text(code: u16) -> (r: String)
    ensures
        r@ == status_text_of(code),
{
    match reqwest::StatusCode::from_u16(code) {
        Ok(s) => s.to_string(),
        Err(_) => code.to_string(),
    }
}

/// A status code in the 2xx range.
pub open spec fn success(code: u16) -> bool {
    200 <= code < 300
}

pub fn is_success(code: u16) -> (r: bool)
    ensures
        r == success(code),
{
    200 <= code && code < 300
}

pub open spec fn parse_failure(label: Seq<char>, detail: Seq<char>) -> Seq<char> {
    "Failed to parse "@ + label + " response: "@ + detail
}

/// Whether one item of `outputs` has the expected shape.
pub open spec fn output_ok(j: Json) -> bool {
    str_member(j, "text"@) is Some
}

/// Whether one item of `choices` has the expected shape.
pub open spec fn choice_ok(j: Json) -> bool {
    match member_of(j, "message"@) {
        Some(m) => str_member(m, "role"@) is Some && str_member(m, "content"@) is Some,
        None => false,
    }
}

pub open spec fn item_ok(shape: ReplyShape, j: Json) -> bool {
    match shape {
        ReplyShape::Outputs => output_ok(j),
        _ => choice_ok(j),
    }
}

/// The completion text held by the first item of a list.
pub open spec fn item_text(shape: ReplyShape, j: Json) -> Seq<char> {
    match shape {
        ReplyShape::Outputs => str_member(j, "text"@).unwrap(),
        _ => str_member(member_of(j, "message"@).unwrap(), "content"@).unwrap(),
    }
}

pub open spec fn list_key(shape: ReplyShape) -> Seq<char> {
    match shape {
        ReplyShape::Outputs => "outputs"@,
        _ => "choices"@,
    }
}

pub open spec fn empty_list_message(shape: ReplyShape) -> Seq<char> {
    match shape {
        ReplyShape::Outputs => "No completion outputs returned"@,
        _ => "No completion choices returned"@,
    }
}

pub open spec fn unexpected_shape() -> Seq<char> {
    "unexpected response shape"@
}

/// What a parsed reply body yields: the completion text, or the error message.
pub open spec fn reply_outcome(label: Seq<char>, shape: ReplyShape, j: Json) -> Result<Seq<char>, Seq<char>> {
    match shape {
        ReplyShape::Generate => match str_member(j, "response"@) {
            Some(s) => Ok(s),
            None => Err(parse_failure(label, unexpected_shape())),
        },
        _ => match member_of(j, list_key(shape)) {
            Some(Json::Array(items)) => if !(forall|k: int| 0 <= k < items@.len() ==> item_ok(shape, #[trigger] items@[k])) {
                Err(parse_failure(label, unexpected_shape()))
            } else if items@.len() == 0 {
                Err(empty_list_message(shape))
            } else {
                Ok(item_text(shape, items@[0]))
            },
            _ => Err(parse_failure(label, unexpected_shape())),
        },
    }
}

/// What a completion call yields, stage by stage: transport, status, body, shape, emptiness.
pub open spec fn completion_outcome(label: Seq<char>, shape: ReplyShape, o: HttpOutcome) -> Result<Seq<char>, Seq<char>> {
    match o {
        HttpOutcome::Unsent(e) => Err(label + " request failed: "@ + e@),
        HttpOutcome::Received(status, body) => if !success(status) {
            match body {
                Err(e) => Err("Failed to read error response: "@ + e@),
                Ok(t) => Err(label + " API error: "@ + status_text_of(status) + " - "@ + t@),
            }
        } else {
            match body {
                Err(e) => Err(parse_failure(label, e@)),
                Ok(t) => match json_parse_of(t@) {
                    Err(e) => Err(parse_failure(label, e)),
                    Ok(j) => reply_outcome(label, shape, j),
                },
            }
        },
    }
}

/// What a health probe yields: reachability, or the transport failure.
pub open spec fn health_outcome(o: HttpOutcome) -> Result<bool, Seq<char>> {
    match o {
        HttpOutcome::Unsent(e) => Err("Health check failed: "@ + e@),
        HttpOutcome::Received(status, _) => Ok(success(status)),
    }
}

pub open spec fn health_view(r: Result<bool, LLMServiceError>) -> Result<bool, Seq<char>> {
    match r {
        Ok(b) => Ok(b),
        Err(e) => Err(e.error@),
    }
}

pub open spec fn text_result(r: Result<String, String>) -> Result<Seq<char>, Seq<char>> {
    match r {
        Ok(s) => Ok(s@),
        Err(e) => Err(e@),
    }
}

fn failed_parse(label: &str, detail: &str) -> (r: String)
    ensures
        r@ == parse_failure(label@, detail@),
{
    let mut m = String::from_str("Failed to parse ");
    m.append(label);
    m.append(" response: ");
    m.append(detail);
    m
}

fn item_fits(shape: ReplyShape, j: &Json) -> (r: bool)
    ensures
        r == item_ok(shape, *j),
{
    match shape {
        ReplyShape::Outputs => j.str_member("text").is_some(),
        _ => match j.member("message") {
            Some(m) => m.str_member("role").is_some() && m.str_member("content").is_some(),
            None => false,
        },
    }
}

/// Takes the completion text out of a parsed reply body, or says what is wrong with it.
pub fn reply_content(label: &str, shape: ReplyShape, j: &Json) -> (r: Result<String, String>)
    ensures
        text_result(r) == reply_outcome(label@, shape, *j),
{
    match shape {
        ReplyShape::Generate => match j.str_member("response") {
            Some(s) => Ok(s),
            None => Err(failed_parse(label, "unexpected response shape")),
        },
        _ => {
            let key = match shape {
                ReplyShape::Outputs => "outputs",
                _ => "choices",
            };
            match j.member(key) {
                Some(Json::Array(items)) => {
                    let mut i: usize = 0;
                    while i < items.len()
                        invariant
                            0 <= i <= items.len(),
                            shape != ReplyShape::Generate,
                            member_of(*j, list_key(shape)) == Some(Json::Array(*items)),
                            forall|k: int| 0 <= k < i ==> item_ok(shape, #[trigger] items@[k]),
                        decreases items.len() - i,
                    {
                        if !item_fits(shape, &items[i]) {
                            assert(!item_ok(shape, items@[i as int]));
                            return Err(failed_parse(label, "unexpected response shape"));
                        }
                        i = i + 1;
                    }
                    if items.len() == 0 {
                        match shape {
                            ReplyShape::Outputs => Err(String::from_str("No completion outputs returned")),
                            _ => Err(String::from_str("No completion choices returned")),
                        }
                    } else {
                        let first = &items[0];
                        let text = match shape {
                            ReplyShape::Outputs => first.str_member("text"),
                            _ => match first.member("message") {
                                Some(m) => m.str_member("content"),
                                None => None,
                            },
                        };
                        match text {
                            Some(t) => Ok(t),
                            None => Err(failed_parse(label, "unexpected response shape")),
                        }
                    }
                },
                _ => Err(failed_parse(label, "unexpected response shape")),
            }
        },
    }
}

/// Turns what came of a completion call into the completion or a `LLMServiceError`.
pub fn read_completion(label: &str, shape: ReplyShape, outcome: HttpOutcome) -> (r: Result<LLMResponse, LLMServiceError>)
    ensures
        completion_view(r) == completion_outcome(label@, shape, outcome),
{
    match outcome {
        HttpOutcome::Unsent(e) => {
            let mut m = String::from_str(label);
            m.append(" request failed: ");
            m.append(e.as_str());
            Err(LLMServiceError { error: m })
        },
        HttpOutcome::Received(status, body) => {
            if !is_success(status) {
                match body {
                    Err(e) => {
                        let mut m = String::from_str("Failed to read error response: ");
                        m.append(e.as_str());
                        Err(LLMServiceError { error: m })
                    },
                    Ok(t) => {
                        let mut m = String::from_str(label);
                        m.append(" API error: ");
                        let st = status_text(status);
                        m.append(st.as_str());
                        m.append(" - ");
                        m.append(t.as_str());
                        Err(LLMServiceError { error: m })
                    },
                }
            } else {
                match body {
                    Err(e) => Err(LLMServiceError { error: failed_parse(label, e.as_str()) }),
                    Ok(t) => match parse_json(t.as_str()) {
                        Err(e) => Err(LLMServiceError { error: failed_parse(label, e.as_str()) }),
                        Ok(j) => match reply_content(label, shape, &j) {
                            Ok(c) => Ok(LLMResponse { content: c }),
                            Err(m) => Err(LLMServiceError { error: m }),
                        },
                    },
                }
            }
        },
    }
}

/// Turns what came of a health probe into reachability or a `LLMServiceError`.
pub fn read_health(outcome: HttpOutcome) -> (r: Result<bool, LLMServiceError>)
    ensures
        health_view(r) == health_outcome(outcome),
{
    match outcome {
        HttpOutcome::Unsent(e) => {
            let mut m = String::from_str("Health check failed: ");
            m.append(e.as_str());
            Err(LLMServiceError { error: m })
        },
        HttpOutcome::Received(status, _) => Ok(is_success(status)),
    }
}

} // verus!

verus! {

/// The header that marks a JSON body.
pub open spec fn json_content_type() -> (Seq<char>, Seq<char>) {
    ("Content-Type"@, "application/json"@)
}

/// A POST of a JSON body, with an optional credential header ahead of the content type.
pub open spec fn json_post(url: Seq<char>, auth: Option<(Seq<char>, Seq<char>)>, body: Seq<char>) -> HttpCall {
    HttpCall {
        method: Method::Post,
        url: url,
        headers: match auth {
            Some(h) => seq![h, json_content_type()],
            None => seq![json_content_type()],
        },
        body: Some(body),
    }
}

/// A bare GET.
pub open spec fn plain_get(url: Seq<char>) -> HttpCall {
    HttpCall { method: Method::Get, url: url, headers: Seq::empty(), body: None }
}

pub fn post_json(url: String, auth: Option<(String, String)>, body: String) -> (r: HttpRequest)
    ensures
        r@ == json_post(url@, match auth {
            Some(h) => Some((h.0@, h.1@)),
            None => None,
        }, body@),
{
    let ghost auth_v = match &auth {
        Some(h) => Some((h.0@, h.1@)),
        None => None::<(Seq<char>, Seq<char>)>,
    };
    let mut headers: Vec<(String, String)> = Vec::new();
    match auth {
        Some(h) => headers.push(h),
        None => {},
    }
    headers.push((String::from_str("Content-Type"), String::from_str("application/json")));
    let r = HttpRequest { method: Method::Post, url, headers, body: Some(body) };
    assert(r@.headers =~= json_post(url@, auth_v, body@).headers);
    r
}

pub fn get(url: String) -> (r: HttpRequest)
    ensures
        r@ == plain_get(url@),
{
    let r = HttpRequest { method: Method::Get, url, headers: Vec::new(), body: None };
    assert(r@.headers =~= Seq::<(Seq<char>, Seq<char>)>::empty());
    r
}

/// `base` followed by `suffix`, as a new text.
pub fn joined_url(base: &str, suffix: &str) -> (r: String)
    ensures
        r@ == base@ + suffix@,
{
    let mut u = String::from_str(base);
    u.append(suffix);
    u
}

} // verus!
