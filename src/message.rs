use vstd::prelude::*;
use vstd::string::StringExecFns;

verus! {

/// One turn of a conversation as every adapter sees it: who spoke, and what.
#[derive(Debug)]
pub struct Prompt {
    pub role: String,
    pub content: String,
}

/// The whole context handed to an adapter for one completion.
#[derive(Debug)]
pub struct LLMRequest {
    pub messages: Vec<Prompt>,
}

/// The single completion text an adapter produced.
#[derive(Debug)]
pub struct LLMResponse {
    pub content: String,
}

/// The one error shape that crosses the adapter boundary.
#[derive(Clone, Debug)]
pub struct LLMServiceError {
    pub error: String,
}

impl Prompt {
    pub fn new(role: &str, content: &str) -> (r: Prompt)
        ensures
            r.role@ == role@,
            r.content@ == content@,
    {
        Prompt { role: String::from_str(role), content: String::from_str(content) }
    }
}

impl LLMServiceError {
    pub fn new(error: String) -> (r: LLMServiceError)
        ensures
            r.error@ == error@,
    {
        LLMServiceError { error }
    }

    /// The text of the error, for logs and display.
    pub fn to_string(&self) -> (r: String)
        ensures
            r@ == self.error@,
    {
        String::from_str(self.error.as_str())
    }
}

/// What a completion outcome says, over plain text: the content, or the error message.
pub open spec fn completion_view(r: Result<LLMResponse, LLMServiceError>) -> Result<Seq<char>, Seq<char>> {
    match r {
        Ok(v) => Ok(v.content@),
        Err(e) => Err(e.error@),
    }
}

/// Whether two texts are the same character sequence.
pub fn same_text(a: &str, b: &str) -> (r: bool)
    ensures
        r == (a@ == b@),
{
    let x = String::from_str(a);
    let y = String::from_str(b);
    x == y
}

} // verus!
