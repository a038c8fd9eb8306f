use chat_bridge::agent::{AgentError, AgentErrorKind};
use chat_bridge::ask::{begin_ask, finish_ask};
use chat_bridge::chat_history::ChatHistory;
use chat_bridge::message::{LLMResponse, LLMServiceError};

#[test]
fn create_then_add_gives_one_user_message() {
    let mut h = ChatHistory::new();
    let id = h.create_session();
    assert!(h.add_message(&id, "user", "Hello").is_ok());
    let s = h.get_session(&id).expect("session exists");
    assert_eq!(s.messages.len(), 1);
    assert_eq!(s.messages[0].role, "user");
    assert_eq!(s.messages[0].content, "Hello");
    assert_eq!(s.messages[0].timestamp, s.updated_at);
}

#[test]
fn new_session_is_empty_and_fresh() {
    let mut h = ChatHistory::new();
    let a = h.create_session();
    let b = h.create_session();
    let c = h.create_session();
    assert_ne!(a, b);
    assert_ne!(b, c);
    assert_ne!(a, c);
    assert_eq!(a.len(), 36);
    let s = h.get_session(&b).unwrap();
    assert!(s.messages.is_empty());
    assert_eq!(s.created_at, s.updated_at);
    let ids: Vec<String> = h.list_sessions().into_iter().map(|s| s.id).collect();
    assert_eq!(ids, vec![a, b, c]);
}

#[test]
fn appends_keep_count_and_order() {
    let mut h = ChatHistory::new();
    let id = h.create_session();
    let texts = ["one", "two", "three", "four", "five"];
    for (k, t) in texts.iter().enumerate() {
        let role = if k % 2 == 0 { "user" } else { "assistant" };
        h.add_message(&id, role, t).unwrap();
    }
    let s = h.get_session(&id).unwrap();
    assert_eq!(s.messages.len(), texts.len());
    for (k, t) in texts.iter().enumerate() {
        assert_eq!(s.messages[k].content, *t);
    }
}

#[test]
fn add_to_unknown_session_fails() {
    let mut h = ChatHistory::new();
    h.create_session();
    assert_eq!(h.add_message("nope", "user", "x"), Err("Session not found".to_string()));
    assert_eq!(h.list_sessions()[0].messages.len(), 0);
}

#[test]
fn clear_empties_log_and_keeps_identity() {
    let mut h = ChatHistory::new();
    let id = h.create_session();
    h.add_message(&id, "user", "a").unwrap();
    h.add_message(&id, "assistant", "b").unwrap();
    h.add_message(&id, "user", "c").unwrap();
    let before = h.get_session(&id).unwrap();
    assert!(h.clear_session(&id).is_ok());
    let after = h.get_session(&id).unwrap();
    assert_eq!(after.messages.len(), 0);
    assert_eq!(after.created_at, before.created_at);
    assert_eq!(after.id, id);
    assert_eq!(h.clear_session("missing"), Err("Session not found".to_string()));
}

#[test]
fn deleted_session_stays_gone() {
    let mut h = ChatHistory::new();
    let keep = h.create_session();
    let id = h.create_session();
    assert!(h.delete_session(&id).is_ok());
    for _ in 0..3 {
        assert!(h.get_session(&id).is_none());
    }
    assert_eq!(h.delete_session(&id), Err("Session not found".to_string()));
    assert!(h.get_session(&keep).is_some());
    assert_eq!(h.list_sessions().len(), 1);
}

#[test]
fn two_appends_on_one_session_both_kept() {
    let mut h = ChatHistory::new();
    let id = h.create_session();
    h.add_message(&id, "user", "first").unwrap();
    let prior = h.get_session(&id).unwrap().messages.len();
    h.add_message(&id, "user", "from caller A").unwrap();
    h.add_message(&id, "user", "from caller B").unwrap();
    let s = h.get_session(&id).unwrap();
    assert_eq!(s.messages.len(), prior + 2);
    assert_eq!(s.messages[prior].content, "from caller A");
    assert_eq!(s.messages[prior + 1].content, "from caller B");
}

#[test]
fn ask_records_question_and_answer() {
    let mut h = ChatHistory::new();
    let id = h.create_session();
    let request = begin_ask(&mut h, &id, "2+2?").ok().unwrap();
    assert_eq!(request.messages.len(), 1);
    assert_eq!(request.messages[0].role, "user");
    assert_eq!(request.messages[0].content, "2+2?");
    let reply = Ok(LLMResponse { content: "4".to_string() });
    let answer = finish_ask(&mut h, &id, reply).ok().unwrap();
    assert_eq!(answer, "4");
    let s = h.get_session(&id).unwrap();
    assert_eq!(s.messages.len(), 2);
    assert_eq!((s.messages[0].role.as_str(), s.messages[0].content.as_str()), ("user", "2+2?"));
    assert_eq!((s.messages[1].role.as_str(), s.messages[1].content.as_str()), ("assistant", "4"));
}

#[test]
fn ask_sends_whole_history_in_order() {
    let mut h = ChatHistory::new();
    let id = h.create_session();
    h.add_message(&id, "system", "be brief").unwrap();
    h.add_message(&id, "user", "hi").unwrap();
    h.add_message(&id, "assistant", "hello").unwrap();
    let request = begin_ask(&mut h, &id, "and now?").ok().unwrap();
    let got: Vec<(String, String)> = request.messages.into_iter().map(|p| (p.role, p.content)).collect();
    let want = vec![
        ("system".to_string(), "be brief".to_string()),
        ("user".to_string(), "hi".to_string()),
        ("assistant".to_string(), "hello".to_string()),
        ("user".to_string(), "and now?".to_string()),
    ];
    assert_eq!(got, want);
}

#[test]
fn ask_on_unknown_session_builds_no_request() {
    let mut h = ChatHistory::new();
    let r = begin_ask(&mut h, "no-such-id", "hello");
    match r {
        Err(e) => assert_eq!(e.error, "Session not found"),
        Ok(_) => panic!("a request was built for an unknown session"),
    }
    assert!(h.list_sessions().is_empty());
}

#[test]
fn failed_reply_keeps_question_only() {
    let mut h = ChatHistory::new();
    let id = h.create_session();
    begin_ask(&mut h, &id, "2+2?").ok().unwrap();
    let failure = LLMServiceError { error: "Ollama API error: 500 Internal Server Error - boom".to_string() };
    let r = finish_ask(&mut h, &id, Err(failure));
    assert_eq!(r.err().unwrap().error, "Ollama API error: 500 Internal Server Error - boom");
    let s = h.get_session(&id).unwrap();
    assert_eq!(s.messages.len(), 1);
    assert_eq!(s.messages[0].role, "user");
}

#[test]
fn reply_for_deleted_session_is_not_found() {
    let mut h = ChatHistory::new();
    let id = h.create_session();
    begin_ask(&mut h, &id, "q").ok().unwrap();
    h.delete_session(&id).unwrap();
    let r = finish_ask(&mut h, &id, Ok(LLMResponse { content: "a".to_string() }));
    assert_eq!(r.err().unwrap().error, "Session not found");
}

#[test]
fn session_converts_to_prompts_and_messages() {
    let mut h = ChatHistory::new();
    let id = h.create_session();
    h.add_message(&id, "user", "x").unwrap();
    h.add_message(&id, "assistant", "y").unwrap();
    let s = h.get_session(&id).unwrap();
    let prompts = s.to_prompts();
    assert_eq!(prompts.len(), 2);
    assert_eq!(prompts[1].role, "assistant");
    assert_eq!(prompts[1].content, "y");
    let messages = s.to_messages();
    assert_eq!(messages.len(), 2);
    assert_eq!(messages[0].content, "x");
}

#[test]
fn agent_error_text_is_its_message() {
    let e = AgentError { message: "no plan".to_string(), kind: AgentErrorKind::PlanningFailed };
    assert_eq!(e.to_string(), "no plan");
    assert_eq!(e.kind, AgentErrorKind::PlanningFailed);
}

#[test]
fn deleted_identifier_is_not_handed_out_again() {
    let mut h = ChatHistory::new();
    let gone = h.create_session();
    h.delete_session(&gone).unwrap();
    for _ in 0..20 {
        let id = h.create_session();
        assert_ne!(id, gone);
        assert!(h.get_session(&gone).is_none());
    }
    assert_eq!(h.list_sessions().len(), 20);
}
