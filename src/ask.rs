use vstd::prelude::*;
use vstd::string::StringExecFns;
use crate::chat_history::{
    ChatHistory, appended, distinct_ids, has_session, lemma_index_of_id, message_turns,
    not_found, session_index,
};
use crate::message::{LLMRequest, LLMResponse, LLMServiceError};
use crate::transcript::turns;

verus! {

/// Records the question as a user turn and builds the completion request from
/// the session's whole log, oldest first. The caller then runs the request
/// through the active adapter, without holding the store, and hands the reply
/// to `finish_ask`.
pub fn begin_ask(history: &mut ChatHistory, session_id: &str, question: &str) -> (r: Result<LLMRequest, LLMServiceError>)
    ensures
        distinct_ids(final(history)@),
        match r {
            Ok(request) => {
                let i = session_index(old(history)@, session_id@);
                &&& has_session(old(history)@, session_id@)
                &&& final(history)@ == old(history)@.update(i, final(history)@[i])
                &&& appended(old(history)@[i], final(history)@[i], "user"@, question@)
                &&& turns(request.messages@) == message_turns(final(history)@[i].messages)
            },
            Err(e) => {
                &&& !has_session(old(history)@, session_id@)
                &&& e.error@ == not_found()
                &&& final(history)@ == old(history)@
            },
        },
{
    match history.add_message(session_id, "user", question) {
        Err(e) => Err(LLMServiceError { error: e }),
        Ok(()) => {
            let ghost i = session_index(old(history)@, session_id@);
            proof {
                lemma_index_of_id(history@, i);
            }
            match history.get_session(session_id) {
                Some(session) => {
                    let messages = session.to_prompts();
                    Ok(LLMRequest { messages })
                },
                None => Err(LLMServiceError { error: String::from_str("Session not found") }),
            }
        },
    }
}

/// Records the adapter's reply as an assistant turn and returns its text. A
/// failed reply is handed back as it came, and the log is left as it is: the
/// question stays recorded, and no assistant turn is added.
pub fn finish_ask(history: &mut ChatHistory, session_id: &str, reply: Result<LLMResponse, LLMServiceError>) -> (r: Result<String, LLMServiceError>)
    ensures
        match reply {
            Err(e) => r matches Err(f) && f.error@ == e.error@ && final(history)@ == old(history)@,
            Ok(response) => if has_session(old(history)@, session_id@) {
                let i = session_index(old(history)@, session_id@);
                &&& r matches Ok(content) && content@ == response.content@
                &&& final(history)@ == old(history)@.update(i, final(history)@[i])
                &&& appended(old(history)@[i], final(history)@[i], "assistant"@, response.content@)
            } else {
                &&& r matches Err(f) && f.error@ == not_found()
                &&& final(history)@ == old(history)@
            },
        },
{
    match reply {
        Err(e) => Err(e),
        Ok(response) => match history.add_message(session_id, "assistant", response.content.as_str()) {
            Err(e) => Err(LLMServiceError { error: e }),
            Ok(()) => Ok(response.content),
        },
    }
}

} // verus!
