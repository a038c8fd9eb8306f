use vstd::prelude::*;
use vstd::string::{StrSliceExecFns, StringExecFns};
use crate::message::{Prompt, same_text};

verus! {

/// One recorded turn of a session.
#[derive(Clone, Debug)]
pub struct ChatMessage {
    pub role: String,
    pub content: String,
    pub timestamp: i64,
}

/// An identified, ordered log of turns.
#[derive(Clone, Debug)]
pub struct ChatSession {
    pub id: String,
    pub messages: Vec<ChatMessage>,
    pub created_at: i64,
    pub updated_at: i64,
}

/// A recorded turn over plain text.
pub struct MessageView {
    pub role: Seq<char>,
    pub content: Seq<char>,
    pub timestamp: i64,
}

/// A session over plain text.
pub struct SessionView {
    pub id: Seq<char>,
    pub messages: Seq<MessageView>,
    pub created_at: i64,
    pub updated_at: i64,
}

impl View for ChatMessage {
    type V = MessageView;

    open spec fn view(&self) -> MessageView {
        MessageView { role: self.role@, content: self.content@, timestamp: self.timestamp }
    }
}

impl View for ChatSession {
    type V = SessionView;

    open spec fn view(&self) -> SessionView {
        SessionView {
            id: self.id@,
            messages: self.messages@.map_values(|m: ChatMessage| m@),
            created_at: self.created_at,
            updated_at: self.updated_at,
        }
    }
}

/// The (role, content) pairs of a log, in order.
pub open spec fn message_turns(ms: Seq<MessageView>) -> Seq<(Seq<char>, Seq<char>)> {
    ms.map_values(|m: MessageView| (m.role, m.content))
}

impl ChatMessage {
    pub fn duplicate(&self) -> (r: ChatMessage)
        ensures
            r@ == self@,
    {
        ChatMessage {
            role: String::from_str(self.role.as_str()),
            content: String::from_str(self.content.as_str()),
            timestamp: self.timestamp,
        }
    }
}

impl ChatSession {
    pub fn duplicate(&self) -> (r: ChatSession)
        ensures
            r@ == self@,
    {
        let mut messages: Vec<ChatMessage> = Vec::new();
        let mut i: usize = 0;
        while i < self.messages.len()
            invariant
                0 <= i <= self.messages.len(),
                messages@.len() == i,
                forall|k: int| 0 <= k < i ==> (#[trigger] messages@[k])@ == self.messages@[k]@,
            decreases self.messages.len() - i,
        {
            messages.push(self.messages[i].duplicate());
            i = i + 1;
        }
        assert(messages@.map_values(|m: ChatMessage| m@) =~= self.messages@.map_values(|m: ChatMessage| m@));
        ChatSession { id: String::from_str(self.id.as_str()), messages, created_at: self.created_at, updated_at: self.updated_at }
    }

    /// The session's log as the messages of a completion request, in order.
    pub fn to_prompts(&self) -> (r: Vec<Prompt>)
        ensures
            r@.map_values(|p: Prompt| (p.role@, p.content@)) == message_turns(self@.messages),
    {
        let ghost want = message_turns(self@.messages);
        let mut out: Vec<Prompt> = Vec::new();
        let mut i: usize = 0;
        while i < self.messages.len()
            invariant
                0 <= i <= self.messages.len(),
                want == message_turns(self@.messages),
                out@.len() == i,
                forall|k: int| 0 <= k < i ==> ((#[trigger] out@[k]).role@, out@[k].content@) == want[k],
            decreases self.messages.len() - i,
        {
            out.push(Prompt::new(self.messages[i].role.as_str(), self.messages[i].content.as_str()));
            i = i + 1;
        }
        assert(out@.map_values(|p: Prompt| (p.role@, p.content@)) =~= want);
        out
    }

    /// The session's log.
    pub fn to_messages(&self) -> (r: Vec<ChatMessage>)
        ensures
            r@.map_values(|m: ChatMessage| m@) == self@.messages,
    {
        self.duplicate().messages
    }
}


/// No two sessions share an identifier.
pub open spec fn distinct_ids(v: Seq<SessionView>) -> bool {
    forall|i: int, j: int|
        0 <= i < v.len() && 0 <= j < v.len() && i != j ==> #[trigger] v[i].id != #[trigger] v[j].id
}

/// Some session carries this identifier.
pub open spec fn has_session(v: Seq<SessionView>, id: Seq<char>) -> bool {
    exists|i: int| 0 <= i < v.len() && #[trigger] v[i].id == id
}

/// The position of the session with this identifier.
pub open spec fn session_index(v: Seq<SessionView>, id: Seq<char>) -> int {
    choose|i: int| 0 <= i < v.len() && #[trigger] v[i].id == id
}

/// `after` is `before` with one more turn at the end, stamped with the new update time.
pub open spec fn appended(before: SessionView, after: SessionView, role: Seq<char>, content: Seq<char>) -> bool {
    &&& after.id == before.id
    &&& after.created_at == before.created_at
    &&& after.messages == before.messages.push(
        MessageView { role: role, content: content, timestamp: after.updated_at },
    )
}

/// `after` is `before` with an empty log and the same identity.
pub open spec fn cleared(before: SessionView, after: SessionView) -> bool {
    &&& after.id == before.id
    &&& after.created_at == before.created_at
    &&& after.messages == Seq::<MessageView>::empty()
}

pub open spec fn not_found() -> Seq<char> {
    "Session not found"@
}

/// A fresh random session identifier.
/// Relies on uuid::Uuid::new_v4 and its hyphenated text form; nothing is known of the value.
#[verifier::external_body]
fn new_session_id() -> (r: String) {
    uuid::Uuid::new_v4().to_string()
}

/// The current time in whole seconds since the Unix epoch.
/// Relies on chrono::Utc::now and `timestamp`; nothing is known of the value.
#[verifier::external_body]
fn now_seconds() -> (r: i64) {
    chrono::Utc::now().timestamp()
}

/// Every session's identifier is among those issued.
pub open spec fn all_issued(v: Seq<SessionView>, issued: Seq<Seq<char>>) -> bool {
    forall|i: int| 0 <= i < v.len() ==> issued.contains(#[trigger] v[i].id)
}

/// The in-memory session store. Each operation takes exclusive access for its
/// whole duration; callers that share the store put it behind a lock.
///
/// Besides the sessions, the store keeps every identifier it ever issued, so
/// that no identifier is handed out twice, not even after its session is gone.
pub struct ChatHistory {
    sessions: Vec<ChatSession>,
    issued: Vec<String>,
}

impl View for ChatHistory {
    type V = Seq<SessionView>;

    closed spec fn view(&self) -> Seq<SessionView> {
        self.sessions@.map_values(|s: ChatSession| s@)
    }
}

impl ChatHistory {
    /// Every identifier the store has handed out, oldest first.
    pub closed spec fn issued_ids(&self) -> Seq<Seq<char>> {
        self.issued@.map_values(|s: String| s@)
    }

    #[verifier::type_invariant]
    spec fn ids_distinct(&self) -> bool {
        &&& distinct_ids(self.sessions@.map_values(|s: ChatSession| s@))
        &&& all_issued(self.sessions@.map_values(|s: ChatSession| s@), self.issued@.map_values(|s: String| s@))
    }

    pub fn new() -> (r: ChatHistory)
        ensures
            r@ == Seq::<SessionView>::empty(),
            r.issued_ids() == Seq::<Seq<char>>::empty(),
            distinct_ids(r@),
    {
        let r = ChatHistory { sessions: Vec::new(), issued: Vec::new() };
        assert(r@ =~= Seq::<SessionView>::empty());
        assert(r.issued_ids() =~= Seq::<Seq<char>>::empty());
        r
    }

    fn was_issued(&self, id: &str) -> (r: bool)
        ensures
            r == self.issued_ids().contains(id@),
    {
        let mut i: usize = 0;
        while i < self.issued.len()
            invariant
                0 <= i <= self.issued.len(),
                forall|k: int| 0 <= k < i ==> #[trigger] self.issued_ids()[k] != id@,
            decreases self.issued.len() - i,
        {
            if same_text(self.issued[i].as_str(), id) {
                assert(self.issued_ids()[i as int] == id@);
                return true;
            }
            i = i + 1;
        }
        false
    }

    /// The length of the longest identifier ever issued.
    fn longest_issued(&self) -> (n: usize)
        ensures
            forall|k: int| 0 <= k < self.issued_ids().len() ==> #[trigger] self.issued_ids()[k].len() <= n,
    {
        let mut n: usize = 0;
        let mut i: usize = 0;
        while i < self.issued.len()
            invariant
                0 <= i <= self.issued.len(),
                forall|k: int| 0 <= k < i ==> #[trigger] self.issued_ids()[k].len() <= n,
            decreases self.issued.len() - i,
        {
            let len = self.issued[i].as_str().unicode_len();
            if len > n {
                n = len;
            }
            i = i + 1;
        }
        n
    }

    fn position(&self, id: &str) -> (r: Option<usize>)
        ensures
            match r {
                Some(i) => i < self@.len() && self@[i as int].id == id@ && session_index(self@, id@) == i,
                None => !has_session(self@, id@),
            },
    {
        proof {
            use_type_invariant(self);
        }
        let mut i: usize = 0;
        while i < self.sessions.len()
            invariant
                0 <= i <= self.sessions.len(),
                self@ == self.sessions@.map_values(|s: ChatSession| s@),
                distinct_ids(self@),
                forall|k: int| 0 <= k < i ==> #[trigger] self@[k].id != id@,
            decreases self.sessions.len() - i,
        {
            if same_text(self.sessions[i].id.as_str(), id) {
                assert(self@[i as int].id == id@);
                assert(has_session(self@, id@));
                return Some(i);
            }
            i = i + 1;
        }
        None
    }

    /// Opens a new empty session under an identifier the store never issued before.
    ///
    /// The identifier is a random UUID; in the unlikely event that it was issued
    /// already, it is lengthened with `-` until it is longer than every issued one.
    pub fn create_session(&mut self) -> (id: String)
        ensures
            !old(self).issued_ids().contains(id@),
            !has_session(old(self)@, id@),
            final(self).issued_ids() == old(self).issued_ids().push(id@),
            final(self)@.len() == old(self)@.len() + 1,
            final(self)@.drop_last() == old(self)@,
            final(self)@.last().id == id@,
            final(self)@.last().messages == Seq::<MessageView>::empty(),
            final(self)@.last().created_at == final(self)@.last().updated_at,
            distinct_ids(final(self)@),
    {
        proof {
            use_type_invariant(&*self);
        }
        let mut id = new_session_id();
        if self.was_issued(id.as_str()) {
            let n = self.longest_issued();
            while id.as_str().unicode_len() <= n
                invariant
                    forall|k: int| 0 <= k < self.issued_ids().len() ==> #[trigger] self.issued_ids()[k].len() <= n,
                decreases n + 1 - id@.len(),
            {
                proof {
                    reveal_strlit("-");
                }
                id.append("-");
            }
            assert(!self.issued_ids().contains(id@));
        }
        assert(!has_session(self@, id@));
        let now = now_seconds();
        let session = ChatSession {
            id: String::from_str(id.as_str()),
            messages: Vec::new(),
            created_at: now,
            updated_at: now,
        };
        let mut sessions: Vec<ChatSession> = Vec::new();
        std::mem::swap(&mut sessions, &mut self.sessions);
        let mut issued: Vec<String> = Vec::new();
        std::mem::swap(&mut issued, &mut self.issued);
        let ghost before = sessions@.map_values(|s: ChatSession| s@);
        let ghost issued_before = issued@.map_values(|s: String| s@);
        sessions.push(session);
        issued.push(String::from_str(id.as_str()));
        proof {
            let after = sessions@.map_values(|s: ChatSession| s@);
            let issued_after = issued@.map_values(|s: String| s@);
            assert(after.drop_last() =~= before);
            assert(issued_after =~= issued_before.push(id@));
            assert(after.last().messages =~= Seq::<MessageView>::empty());
            assert forall|i: int, j: int|
                0 <= i < after.len() && 0 <= j < after.len() && i != j implies #[trigger] after[i].id != #[trigger] after[j].id by {
                if i < before.len() && j < before.len() {
                    assert(after[i] == before[i] && after[j] == before[j]);
                } else if i < before.len() {
                    assert(after[i] == before[i]);
                } else {
                    assert(after[j] == before[j]);
                }
            }
            assert forall|i: int| 0 <= i < after.len() implies issued_after.contains(#[trigger] after[i].id) by {
                if i < before.len() {
                    assert(after[i] == before[i]);
                    let k = choose|k: int| 0 <= k < issued_before.len() && issued_before[k] == before[i].id;
                    assert(issued_after[k] == issued_before[k]);
                } else {
                    assert(issued_after[issued_before.len() as int] == id@);
                }
            }
        }
        self.issued = issued;
        self.sessions = sessions;
        id
    }

    /// Appends one turn, stamped with the current time, to the session with this identifier.
    pub fn add_message(&mut self, session_id: &str, role: &str, content: &str) -> (r: Result<(), String>)
        ensures
            final(self).issued_ids() == old(self).issued_ids(),
            distinct_ids(final(self)@),
            match r {
                Ok(()) => {
                    let i = session_index(old(self)@, session_id@);
                    &&& has_session(old(self)@, session_id@)
                    &&& final(self)@ == old(self)@.update(i, final(self)@[i])
                    &&& appended(old(self)@[i], final(self)@[i], role@, content@)
                },
                Err(e) => {
                    &&& !has_session(old(self)@, session_id@)
                    &&& e@ == not_found()
                    &&& final(self)@ == old(self)@
                },
            },
    {
        proof {
            use_type_invariant(&*self);
        }
        match self.position(session_id) {
            None => Err(String::from_str("Session not found")),
            Some(i) => {
                let now = now_seconds();
                let message = ChatMessage {
                    role: String::from_str(role),
                    content: String::from_str(content),
                    timestamp: now,
                };
                let mut sessions: Vec<ChatSession> = Vec::new();
                std::mem::swap(&mut sessions, &mut self.sessions);
                let ghost before = sessions@.map_values(|s: ChatSession| s@);
                let ghost old_session = sessions@[i as int];
                sessions[i].messages.push(message);
                sessions[i].updated_at = now;
                proof {
                    let after = sessions@.map_values(|s: ChatSession| s@);
                    assert(after[i as int].messages =~= before[i as int].messages.push(message@));
                    assert(after =~= before.update(i as int, after[i as int]));
                    assert forall|a: int, b: int|
                        0 <= a < after.len() && 0 <= b < after.len() && a != b implies #[trigger] after[a].id != #[trigger] after[b].id by {
                        assert(before[a].id == after[a].id && before[b].id == after[b].id);
                    }
                }
                self.sessions = sessions;
                Ok(())
            },
        }
    }

    /// A copy of the session with this identifier, if the store holds one.
    pub fn get_session(&self, session_id: &str) -> (r: Option<ChatSession>)
        ensures
            match r {
                Some(s) => has_session(self@, session_id@) && s@ == self@[session_index(self@, session_id@)],
                None => !has_session(self@, session_id@),
            },
    {
        match self.position(session_id) {
            None => None,
            Some(i) => Some(self.sessions[i].duplicate()),
        }
    }

    /// A copy of every session, in the order they were created.
    pub fn list_sessions(&self) -> (r: Vec<ChatSession>)
        ensures
            r@.map_values(|s: ChatSession| s@) == self@,
            distinct_ids(self@),
    {
        proof {
            use_type_invariant(self);
        }
        let mut out: Vec<ChatSession> = Vec::new();
        let mut i: usize = 0;
        while i < self.sessions.len()
            invariant
                0 <= i <= self.sessions.len(),
                out@.len() == i,
                forall|k: int| 0 <= k < i ==> (#[trigger] out@[k])@ == self.sessions@[k]@,
            decreases self.sessions.len() - i,
        {
            out.push(self.sessions[i].duplicate());
            i = i + 1;
        }
        assert(out@.map_values(|s: ChatSession| s@) =~= self@);
        out
    }

    /// Removes the session with this identifier.
    pub fn delete_session(&mut self, session_id: &str) -> (r: Result<(), String>)
        ensures
            final(self).issued_ids() == old(self).issued_ids(),
            distinct_ids(final(self)@),
            match r {
                Ok(()) => {
                    &&& has_session(old(self)@, session_id@)
                    &&& final(self)@ == old(self)@.remove(session_index(old(self)@, session_id@))
                    &&& !has_session(final(self)@, session_id@)
                    &&& old(self).issued_ids().contains(session_id@)
                },
                Err(e) => {
                    &&& !has_session(old(self)@, session_id@)
                    &&& e@ == not_found()
                    &&& final(self)@ == old(self)@
                },
            },
    {
        proof {
            use_type_invariant(&*self);
        }
        match self.position(session_id) {
            None => Err(String::from_str("Session not found")),
            Some(i) => {
                let mut sessions: Vec<ChatSession> = Vec::new();
                std::mem::swap(&mut sessions, &mut self.sessions);
                let ghost before = sessions@.map_values(|s: ChatSession| s@);
                sessions.remove(i);
                proof {
                    let after = sessions@.map_values(|s: ChatSession| s@);
                    assert(after =~= before.remove(i as int));
                    lemma_remove_keeps_distinct(before, i as int);
                    lemma_removed_id_gone(before, i as int);
                }
                self.sessions = sessions;
                Ok(())
            },
        }
    }

    /// Empties the log of the session with this identifier, keeping its identity.
    pub fn clear_session(&mut self, session_id: &str) -> (r: Result<(), String>)
        ensures
            final(self).issued_ids() == old(self).issued_ids(),
            distinct_ids(final(self)@),
            match r {
                Ok(()) => {
                    let i = session_index(old(self)@, session_id@);
                    &&& has_session(old(self)@, session_id@)
                    &&& final(self)@ == old(self)@.update(i, final(self)@[i])
                    &&& cleared(old(self)@[i], final(self)@[i])
                },
                Err(e) => {
                    &&& !has_session(old(self)@, session_id@)
                    &&& e@ == not_found()
                    &&& final(self)@ == old(self)@
                },
            },
    {
        proof {
            use_type_invariant(&*self);
        }
        match self.position(session_id) {
            None => Err(String::from_str("Session not found")),
            Some(i) => {
                let now = now_seconds();
                let mut sessions: Vec<ChatSession> = Vec::new();
                std::mem::swap(&mut sessions, &mut self.sessions);
                let ghost before = sessions@.map_values(|s: ChatSession| s@);
                sessions[i].messages.clear();
                sessions[i].updated_at = now;
                proof {
                    let after = sessions@.map_values(|s: ChatSession| s@);
                    assert(after[i as int].messages =~= Seq::<MessageView>::empty());
                    assert(after =~= before.update(i as int, after[i as int]));
                    assert forall|a: int, b: int|
                        0 <= a < after.len() && 0 <= b < after.len() && a != b implies #[trigger] after[a].id != #[trigger] after[b].id by {
                        assert(before[a].id == after[a].id && before[b].id == after[b].id);
                    }
                }
                self.sessions = sessions;
                Ok(())
            },
        }
    }
}

proof fn lemma_remove_keeps_distinct(v: Seq<SessionView>, i: int)
    requires
        distinct_ids(v),
        0 <= i < v.len(),
    ensures
        distinct_ids(v.remove(i)),
{
    let w = v.remove(i);
    assert forall|a: int, b: int|
        0 <= a < w.len() && 0 <= b < w.len() && a != b implies #[trigger] w[a].id != #[trigger] w[b].id by {
        let a2 = if a < i { a } else { a + 1 };
        let b2 = if b < i { b } else { b + 1 };
        assert(w[a] == v[a2] && w[b] == v[b2]);
    }
}

/// Once the session at position `i` is removed, no session carries its identifier,
/// so every later lookup of that identifier finds nothing.
pub proof fn lemma_removed_id_gone(v: Seq<SessionView>, i: int)
    requires
        distinct_ids(v),
        0 <= i < v.len(),
    ensures
        !has_session(v.remove(i), v[i].id),
{
    let w = v.remove(i);
    assert forall|a: int| 0 <= a < w.len() implies #[trigger] w[a].id != v[i].id by {
        let a2 = if a < i { a } else { a + 1 };
        assert(w[a] == v[a2]);
    }
}

/// In a store whose identifiers are distinct, the session carrying `v[i].id` is the one at `i`.
pub proof fn lemma_index_of_id(v: Seq<SessionView>, i: int)
    requires
        distinct_ids(v),
        0 <= i < v.len(),
    ensures
        has_session(v, v[i].id),
        session_index(v, v[i].id) == i,
{
    assert(v[i].id == v[i].id);
}

/// Appends made one after another on a session land at the end of its log,
/// all of them, in the order they were made.
pub proof fn lemma_appends_in_order(states: Seq<SessionView>, adds: Seq<(Seq<char>, Seq<char>)>)
    requires
        states.len() == adds.len() + 1,
        forall|k: int| 0 <= k < adds.len() ==> appended(#[trigger] states[k], states[k + 1], adds[k].0, adds[k].1),
    ensures
        message_turns(states.last().messages) == message_turns(states[0].messages) + adds,
        states.last().messages.len() == states[0].messages.len() + adds.len(),
    decreases adds.len(),
{
    if adds.len() == 0 {
        assert(message_turns(states[0].messages) + adds =~= message_turns(states[0].messages));
    } else {
        let n = adds.len() - 1;
        let prev = states.drop_last();
        assert forall|k: int| 0 <= k < adds.drop_last().len() implies appended(#[trigger] prev[k], prev[k + 1], adds.drop_last()[k].0, adds.drop_last()[k].1) by {
            assert(appended(states[k], states[k + 1], adds[k].0, adds[k].1));
        }
        lemma_appends_in_order(prev, adds.drop_last());
        assert(appended(states[n], states[n + 1], adds[n].0, adds[n].1));
        assert(message_turns(states.last().messages) =~= message_turns(states[n].messages).push(adds[n]));
        assert(message_turns(states[0].messages) + adds =~= (message_turns(states[0].messages) + adds.drop_last()).push(adds[n]));
    }
}

/// Two appends to one session, serialised in either order by exclusive access,
/// both stay: the log grows by exactly two, holding the two turns in the order applied.
pub proof fn lemma_two_appends_kept(
    s0: SessionView,
    s1: SessionView,
    s2: SessionView,
    first: (Seq<char>, Seq<char>),
    second: (Seq<char>, Seq<char>),
)
    requires
        appended(s0, s1, first.0, first.1),
        appended(s1, s2, second.0, second.1),
    ensures
        s2.messages.len() == s0.messages.len() + 2,
        message_turns(s2.messages) == message_turns(s0.messages).push(first).push(second),
{
    lemma_appends_in_order(seq![s0, s1, s2], seq![first, second]);
    assert(message_turns(s0.messages) + seq![first, second] =~= message_turns(s0.messages).push(first).push(second));
}

/// One operation of the store, seen from outside: the sessions and the issued
/// identifiers before and after it. A creation appends a session under an
/// identifier never issued; an append or a clear keeps every session's
/// identifier in place; a deletion removes one session; a failed operation or
/// a lookup changes nothing.
pub open spec fn store_step(
    before: Seq<SessionView>,
    before_ids: Seq<Seq<char>>,
    after: Seq<SessionView>,
    after_ids: Seq<Seq<char>>,
) -> bool {
    ||| {
        &&& !before_ids.contains(after.last().id)
        &&& after_ids == before_ids.push(after.last().id)
        &&& after.len() == before.len() + 1
        &&& after.drop_last() == before
    }
    ||| {
        &&& after_ids == before_ids
        &&& after.len() == before.len()
        &&& forall|k: int| 0 <= k < before.len() ==> #[trigger] after[k].id == before[k].id
    }
    ||| {
        &&& after_ids == before_ids
        &&& exists|i: int| 0 <= i < before.len() && after == before.remove(i)
    }
}

/// An identifier that was issued and no longer names a session never names one
/// again, whatever operations follow: every later lookup of it finds nothing.
pub proof fn lemma_retired_id_stays_absent(
    stores: Seq<Seq<SessionView>>,
    issued: Seq<Seq<Seq<char>>>,
    id: Seq<char>,
)
    requires
        stores.len() >= 1,
        issued.len() == stores.len(),
        issued[0].contains(id),
        !has_session(stores[0], id),
        forall|k: int| 0 <= k < stores.len() - 1 ==> store_step(#[trigger] stores[k], issued[k], stores[k + 1], issued[k + 1]),
    ensures
        issued.last().contains(id),
        !has_session(stores.last(), id),
    decreases stores.len(),
{
    if stores.len() > 1 {
        let n = stores.len() - 1;
        assert forall|k: int| 0 <= k < stores.drop_last().len() - 1 implies store_step(#[trigger] stores.drop_last()[k], issued.drop_last()[k], stores.drop_last()[k + 1], issued.drop_last()[k + 1]) by {
            assert(store_step(stores[k], issued[k], stores[k + 1], issued[k + 1]));
        }
        lemma_retired_id_stays_absent(stores.drop_last(), issued.drop_last(), id);
        let before = stores[n - 1];
        let after = stores[n];
        assert(store_step(before, issued[n - 1], after, issued[n]));
        assert(issued[n - 1].contains(id));
        assert(!has_session(before, id));
        let prior = issued[n - 1];
        let j = choose|j: int| 0 <= j < prior.len() && #[trigger] prior[j] == id;
        if issued[n].len() == prior.len() + 1 {
            assert(issued[n][j] == id);
            assert forall|a: int| 0 <= a < after.len() implies #[trigger] after[a].id != id by {
                if a < before.len() {
                    assert(after[a] == after.drop_last()[a]);
                }
            }
        } else if after.len() == before.len() && forall|k: int| 0 <= k < before.len() ==> #[trigger] after[k].id == before[k].id {
            assert forall|a: int| 0 <= a < after.len() implies #[trigger] after[a].id != id by {
                assert(after[a].id == before[a].id);
            }
        } else {
            let i = choose|i: int| 0 <= i < before.len() && after == before.remove(i);
            assert forall|a: int| 0 <= a < after.len() implies #[trigger] after[a].id != id by {
                let a2 = if a < i { a } else { a + 1 };
                assert(after[a] == before[a2]);
            }
        }
    }
}

} // verus!
