//! A conversation as it is kept: its messages and the native session id
//! under which the child can resume it.

use vstd::prelude::*;
use crate::chat::{fresh_id, now_millis, Message};

verus! {

/// One conversation.
#[derive(Debug, PartialEq)]
pub struct Session {
    pub id: String,
    pub title: String,
    pub messages: Vec<Message>,
    pub created_at: i64,
    pub updated_at: i64,
    /// The id that the child gave the session; set once it reports one.
    pub claude_session_id: Option<String>,
    pub archived: bool,
}

/// What a list of conversations shows of one.
#[derive(Debug, Clone, PartialEq, Eq)]
pub struct SessionSummary {
    pub id: String,
    pub title: String,
    pub created_at: i64,
    pub updated_at: i64,
    pub message_count: usize,
    pub archived: bool,
}

impl Session {
    /// An empty conversation made now, under a new id.
    pub fn new(title: String) -> (session: Session)
        ensures
            session.title == title,
            session.messages@.len() == 0,
            session.created_at == session.updated_at,
            session.claude_session_id is None,
            !session.archived,
            session.id@.len() == 36,
    {
        let now = now_millis();
        Session {
            id: fresh_id(),
            title,
            messages: Vec::new(),
            created_at: now,
            updated_at: now,
            claude_session_id: None,
            archived: false,
        }
    }

    /// Appends a message and notes the time of the change.
    pub fn add_message(&mut self, message: Message)
        ensures
            final(self).messages@ == old(self).messages@.push(message),
            final(self).id == old(self).id,
            final(self).title == old(self).title,
            final(self).created_at == old(self).created_at,
            final(self).claude_session_id == old(self).claude_session_id,
            final(self).archived == old(self).archived,
    {
        self.messages.push(message);
        self.updated_at = now_millis();
    }

    /// The message added last, if there is one.
    pub fn last_message(&self) -> (last: Option<&Message>)
        ensures
            match last {
                Some(message) => self.messages@.len() > 0 && *message == self.messages@.last(),
                None => self.messages@.len() == 0,
            },
    {
        if self.messages.len() == 0 {
            None
        } else {
            Some(&self.messages[self.messages.len() - 1])
        }
    }

    /// Records the native session id that the child reported; the first
    /// report stays, a later one is ignored. Says whether it was taken.
    pub fn adopt_native_id(&mut self, native: String) -> (taken: bool)
        ensures
            taken == old(self).claude_session_id is None,
            taken ==> final(self).claude_session_id == Some(native),
            !taken ==> final(self).claude_session_id == old(self).claude_session_id,
            final(self).id == old(self).id,
            final(self).title == old(self).title,
            final(self).messages == old(self).messages,
            final(self).created_at == old(self).created_at,
            final(self).updated_at == old(self).updated_at,
            final(self).archived == old(self).archived,
    {
        if self.claude_session_id.is_none() {
            self.claude_session_id = Some(native);
            true
        } else {
            false
        }
    }
}

/// What a list shows of a conversation: its id, title, times and flag,
/// and how many messages it has.
pub open spec fn summary_of(session: Session) -> SessionSummary {
    SessionSummary {
        id: session.id,
        title: session.title,
        created_at: session.created_at,
        updated_at: session.updated_at,
        message_count: session.messages@.len() as usize,
        archived: session.archived,
    }
}

impl From<&Session> for SessionSummary {
    fn from(session: &Session) -> (summary: SessionSummary) {
        SessionSummary {
            id: session.id.clone(),
            title: session.title.clone(),
            created_at: session.created_at,
            updated_at: session.updated_at,
            message_count: session.messages.len(),
            archived: session.archived,
        }
    }
}

impl vstd::std_specs::convert::FromSpecImpl<&Session> for SessionSummary {
    open spec fn obeys_from_spec() -> bool {
        true
    }

    open spec fn from_spec(session: &Session) -> SessionSummary {
        summary_of(*session)
    }
}

} // verus!
