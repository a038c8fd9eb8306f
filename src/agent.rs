use vstd::prelude::*;
use vstd::string::StringExecFns;

verus! {

/// What kind of step of a planning agent failed.
#[derive(Clone, Copy, Debug, PartialEq, Eq, Structural)]
pub enum AgentErrorKind {
    ActionFailed,
    ObservationFailed,
    PlanningFailed,
    InvalidInput,
    LLMError,
}

/// The error a planning agent reports: a message, and the kind of step that failed.
#[derive(Debug)]
pub struct AgentError {
    pub message: String,
    pub kind: AgentErrorKind,
}

impl AgentError {
    /// The text of the error: its message alone.
    pub fn to_string(&self) -> (r: String)
        ensures
            r@ == self.message@,
    {
        String::from_str(self.message.as_str())
    }
}

} // verus!
