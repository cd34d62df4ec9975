//! The decisions of the session orchestrator: what starting, continuing
//! and interrupting a session do to the registry, what a decoded event
//! does to it, and which phase a session is in. Spawning and killing
//! processes and reading their output are the caller's steps.

use vstd::prelude::*;
use crate::chat::fresh_id;
use crate::error::{labelled, AppError};
use crate::events::{
    copy_text, decoded, event_of, lemma_kinds_differ, optional_event, text_field, EventModel,
    StreamEvent,
};
use crate::json::{lemma_field_of_open_fields, parsed, JsonModel};
use crate::text::trimmed;
use crate::registry::{lookup_in, rekeyed, SessionRegistry};
use crate::text::{optional_text, texts};

verus! {

/// A session as its caller holds it: its id and the process serving it.
#[derive(Debug, Clone, PartialEq, Eq)]
pub struct ChatSession {
    pub id: String,
    pub pid: u32,
}

/// Where a session stands.
#[derive(Debug, Clone, Copy, PartialEq, Eq, Structural)]
pub enum SessionPhase {
    /// A process was asked for and is not confirmed yet.
    Pending,
    /// The registry names a process for the session.
    Running,
    /// The child said it was done, or its output ended.
    Ended,
    /// A termination request was carried out.
    Interrupted,
    /// The process could not be started, or the child reported an error.
    Failed,
}

/// What can happen to a session.
#[derive(Debug, Clone, Copy, PartialEq, Eq, Structural)]
pub enum Signal {
    /// The process was started.
    Spawned,
    /// The process could not be started.
    SpawnFailed,
    /// A `SessionEnd` or `Result` event was decoded.
    Finished,
    /// An `Error` event was decoded.
    Faulted,
    /// Any other event was decoded.
    Progress,
    /// The child's output ended.
    StreamClosed,
    /// A termination request was carried out.
    Interrupt,
}

/// The native session id that an event reports: the string `session_id`
/// among the open fields of a `System` event.
pub open spec fn native_id(event: EventModel) -> Option<Seq<char>> {
    match event {
        EventModel::System { subtype, extra } => text_field(extra, "session_id"@),
        _ => None,
    }
}

/// The registry after an event of the session registered under `key`
/// was seen: an event that reports the native id moves the entry there.
pub open spec fn after_event(
    sessions: Map<Seq<char>, u32>,
    key: Seq<char>,
    event: EventModel,
) -> Map<Seq<char>, u32> {
    match native_id(event) {
        Some(native) => rekeyed(sessions, key, native),
        None => sessions,
    }
}

/// The registry after one line of the session's output was read.
pub open spec fn after_line(sessions: Map<Seq<char>, u32>, key: Seq<char>, line: Seq<char>) -> Map<
    Seq<char>,
    u32,
> {
    match decoded(line) {
        Some(event) => after_event(sessions, key, event),
        None => sessions,
    }
}

/// The events that a run of lines gives, in the order of the lines; a
/// line that gives none is passed over.
pub open spec fn forwarded(lines: Seq<Seq<char>>) -> Seq<EventModel>
    decreases lines.len(),
{
    if lines.len() == 0 {
        Seq::empty()
    } else {
        let before = forwarded(lines.drop_last());
        match decoded(lines.last()) {
            Some(event) => before.push(event),
            None => before,
        }
    }
}

/// The registry after a run of lines of the session's output was read.
pub open spec fn after_lines(
    sessions: Map<Seq<char>, u32>,
    key: Seq<char>,
    lines: Seq<Seq<char>>,
) -> Map<Seq<char>, u32>
    decreases lines.len(),
{
    if lines.len() == 0 {
        sessions
    } else {
        after_line(after_lines(sessions, key, lines.drop_last()), key, lines.last())
    }
}

/// The signal that a decoded event stands for.
pub open spec fn signal_of(event: EventModel) -> Signal {
    match event {
        EventModel::SessionEnd => Signal::Finished,
        EventModel::Result { .. } => Signal::Finished,
        EventModel::Error { .. } => Signal::Faulted,
        _ => Signal::Progress,
    }
}

/// Whether a phase is one that a session never leaves.
pub open spec fn is_terminal(phase: SessionPhase) -> bool {
    phase == SessionPhase::Ended || phase == SessionPhase::Interrupted || phase
        == SessionPhase::Failed
}

/// The phase that follows `phase` on `signal`. A signal that does not
/// apply to the phase leaves it as it is.
pub open spec fn next_phase(phase: SessionPhase, signal: Signal) -> SessionPhase {
    match (phase, signal) {
        (SessionPhase::Pending, Signal::Spawned) => SessionPhase::Running,
        (SessionPhase::Pending, Signal::SpawnFailed) => SessionPhase::Failed,
        (SessionPhase::Running, Signal::Finished) => SessionPhase::Ended,
        (SessionPhase::Running, Signal::StreamClosed) => SessionPhase::Ended,
        (SessionPhase::Running, Signal::Faulted) => SessionPhase::Failed,
        (SessionPhase::Running, Signal::Interrupt) => SessionPhase::Interrupted,
        _ => phase,
    }
}

/// The models of a list of events.
pub open spec fn events_model(events: Seq<StreamEvent>) -> Seq<EventModel> {
    Seq::new(events.len(), |i: int| events[i]@)
}

impl SessionPhase {
    /// The phase that follows this one on `signal`.
    pub fn advance(self, signal: Signal) -> (next: SessionPhase)
        ensures
            next == next_phase(self, signal),
    {
        match self {
            SessionPhase::Pending => match signal {
                Signal::Spawned => SessionPhase::Running,
                Signal::SpawnFailed => SessionPhase::Failed,
                _ => self,
            },
            SessionPhase::Running => match signal {
                Signal::Finished => SessionPhase::Ended,
                Signal::StreamClosed => SessionPhase::Ended,
                Signal::Faulted => SessionPhase::Failed,
                Signal::Interrupt => SessionPhase::Interrupted,
                _ => self,
            },
            _ => self,
        }
    }
}

impl StreamEvent {
    /// The native session id that the event reports, if it reports one.
    pub fn native_session_id(&self) -> (native: Option<String>)
        ensures
            optional_text(native) == native_id(self@),
    {
        match self {
            StreamEvent::System { subtype, extra } => copy_text(extra, "session_id"),
            _ => None,
        }
    }

    /// The signal that the event stands for in a session's life.
    pub fn signal(&self) -> (signal: Signal)
        ensures
            signal == signal_of(self@),
    {
        match self {
            StreamEvent::SessionEnd => Signal::Finished,
            StreamEvent::Result { .. } => Signal::Finished,
            StreamEvent::Error { .. } => Signal::Faulted,
            _ => Signal::Progress,
        }
    }
}

impl ChatSession {
    /// A session with a known id, served by the process `pid`.
    pub fn with_id_and_child(id: String, pid: u32) -> (session: ChatSession)
        ensures
            session.id == id,
            session.pid == pid,
    {
        ChatSession { id, pid }
    }

    /// A new session for the outcome of a spawn: the process under a
    /// fresh temporary id, or the reason why none was started.
    pub fn start(spawned: Result<u32, String>) -> (started: Result<ChatSession, AppError>)
        ensures
            match spawned {
                Ok(pid) => started is Ok && started->Ok_0.pid == pid && started->Ok_0.id@.len()
                    == 36,
                Err(reason) => started matches Err(AppError::ProcessError(text)) && text@
                    == "启动失败: "@ + reason@,
            },
    {
        match spawned {
            Ok(pid) => Ok(ChatSession { id: fresh_id(), pid }),
            Err(reason) => Err(
                AppError::ProcessError(labelled("启动失败: ", reason.as_str())),
            ),
        }
    }

    /// Decodes a run of lines of the child's output: the events, in the
    /// order of their lines.
    pub fn read_events(lines: &Vec<String>) -> (events: Vec<StreamEvent>)
        ensures
            events_model(events@) == forwarded(texts(lines@)),
    {
        let ghost all = texts(lines@);
        let mut events: Vec<StreamEvent> = Vec::new();
        let mut i: usize = 0;
        proof {
            assert(all.take(0) =~= Seq::empty());
            assert(events_model(events@) =~= forwarded(all.take(0)));
        }
        while i < lines.len()
            invariant
                i <= lines.len(),
                all == texts(lines@),
                events_model(events@) == forwarded(all.take(i as int)),
            decreases lines.len() - i,
        {
            let ghost before = events_model(events@);
            proof {
                assert(all.take(i + 1).drop_last() =~= all.take(i as int));
                assert(all.take(i + 1).last() == lines@[i as int]@);
            }
            match StreamEvent::parse_line(lines[i].as_str()) {
                Some(event) => {
                    let ghost model = event@;
                    events.push(event);
                    proof {
                        assert(events_model(events@) =~= before.push(model));
                    }
                },
                None => {},
            }
            i += 1;
        }
        proof {
            assert(all.take(lines.len() as int) =~= all);
        }
        events
    }
}

/// Applies an event of the session registered under `key` to the
/// registry, and says whether the entry moved.
pub fn observe(registry: &mut SessionRegistry, key: &str, event: &StreamEvent) -> (moved: bool)
    ensures
        final(registry)@ == after_event(old(registry)@, key@, event@),
        moved == (native_id(event@) is Some && old(registry)@.contains_key(key@)),
{
    match event.native_session_id() {
        Some(native) => registry.rekey(key, native),
        None => false,
    }
}

/// Reads one line of the output of the session registered under `key`:
/// decodes it, applies it to the registry, and hands back the event to
/// forward, if the line gave one.
pub fn drain_line(registry: &mut SessionRegistry, key: &str, line: &str) -> (event: Option<
    StreamEvent,
>)
    ensures
        optional_event(event) == decoded(line@),
        final(registry)@ == after_line(old(registry)@, key@, line@),
{
    let event = StreamEvent::parse_line(line);
    match &event {
        Some(seen) => {
            observe(registry, key, seen);
        },
        None => {},
    }
    event
}

/// Reads a run of lines of the output of the session registered under
/// `key`, line by line as `drain_line` does, and hands back the events to
/// forward, in the order of their lines.
pub fn drain_lines(registry: &mut SessionRegistry, key: &str, lines: &Vec<String>) -> (events: Vec<
    StreamEvent,
>)
    ensures
        events_model(events@) == forwarded(texts(lines@)),
        final(registry)@ == after_lines(old(registry)@, key@, texts(lines@)),
{
    let ghost all = texts(lines@);
    let ghost start = registry@;
    let mut events: Vec<StreamEvent> = Vec::new();
    let mut i: usize = 0;
    proof {
        assert(all.take(0) =~= Seq::empty());
        assert(events_model(events@) =~= forwarded(all.take(0)));
    }
    while i < lines.len()
        invariant
            i <= lines.len(),
            all == texts(lines@),
            events_model(events@) == forwarded(all.take(i as int)),
            registry@ == after_lines(start, key@, all.take(i as int)),
        decreases lines.len() - i,
    {
        let ghost before = events_model(events@);
        proof {
            assert(all.take(i + 1).drop_last() =~= all.take(i as int));
            assert(all.take(i + 1).last() == lines@[i as int]@);
        }
        match drain_line(registry, key, lines[i].as_str()) {
            Some(event) => {
                let ghost model = event@;
                events.push(event);
                proof {
                    assert(events_model(events@) =~= before.push(model));
                }
            },
            None => {},
        }
        i += 1;
    }
    proof {
        assert(all.take(lines.len() as int) =~= all);
    }
    events
}

/// Registers the session that a spawn started and returns its temporary
/// id; a failed spawn leaves the registry as it is.
pub fn start_chat(registry: &mut SessionRegistry, spawned: Result<u32, String>) -> (started: Result<
    String,
    AppError,
>)
    ensures
        match spawned {
            Ok(pid) => started is Ok && started->Ok_0@.len() == 36 && final(registry)@ == old(
                registry,
            )@.insert(started->Ok_0@, pid),
            Err(reason) => started matches Err(AppError::ProcessError(text)) && text@
                == "启动失败: "@ + reason@ && final(registry)@ == old(registry)@,
        },
{
    match ChatSession::start(spawned) {
        Ok(session) => {
            registry.insert(session.id.clone(), session.pid);
            Ok(session.id)
        },
        Err(error) => Err(error),
    }
}

/// Takes the session's entry out of the registry before it is resumed
/// and returns the process to stop, if one was registered.
pub fn retire_session(registry: &mut SessionRegistry, session_id: &str) -> (old_pid: Option<u32>)
    ensures
        old_pid == lookup_in(old(registry)@, session_id@),
        final(registry)@ == old(registry)@.remove(session_id@),
{
    registry.remove(session_id)
}

/// Registers the process that a spawn in resume mode started for
/// `session_id`, whether or not the id had an entry; a failed spawn
/// leaves the registry as it is.
pub fn continue_chat(
    registry: &mut SessionRegistry,
    session_id: String,
    spawned: Result<u32, String>,
) -> (resumed: Result<(), AppError>)
    ensures
        match spawned {
            Ok(pid) => resumed is Ok && final(registry)@ == old(registry)@.insert(
                session_id@,
                pid,
            ),
            Err(reason) => resumed matches Err(AppError::ProcessError(text)) && text@
                == "继续会话失败: "@ + reason@ && final(registry)@ == old(
                registry,
            )@,
        },
{
    match spawned {
        Ok(pid) => {
            registry.insert(session_id, pid);
            Ok(())
        },
        Err(reason) => Err(
            AppError::ProcessError(labelled("继续会话失败: ", reason.as_str())),
        ),
    }
}

/// Takes the session's entry out of the registry and returns the process
/// to stop; an id without an entry is an error that names the id.
pub fn interrupt_chat(registry: &mut SessionRegistry, session_id: &str) -> (stopped: Result<
    u32,
    AppError,
>)
    ensures
        final(registry)@ == old(registry)@.remove(session_id@),
        match lookup_in(old(registry)@, session_id@) {
            Some(pid) => stopped == Ok::<u32, AppError>(pid),
            None => stopped matches Err(AppError::SessionNotFound(id)) && id@ == session_id@
                && final(registry)@ == old(registry)@,
        },
{
    match registry.remove(session_id) {
        Some(pid) => Ok(pid),
        None => {
            assert(registry@ =~= old(registry)@);
            Err(AppError::SessionNotFound(session_id.to_owned()))
        },
    }
}

/// Lines read one after the other give the events of the first run
/// followed by the events of the second.
pub proof fn lemma_forwarded_in_order(first: Seq<Seq<char>>, second: Seq<Seq<char>>)
    ensures
        forwarded(first + second) == forwarded(first) + forwarded(second),
    decreases second.len(),
{
    if second.len() == 0 {
        assert(first + second =~= first);
        assert(forwarded(first) + forwarded(second) =~= forwarded(first));
    } else {
        lemma_forwarded_in_order(first, second.drop_last());
        assert((first + second).drop_last() =~= first + second.drop_last());
        assert((first + second).last() == second.last());
        match decoded(second.last()) {
            Some(event) => {
                assert((forwarded(first) + forwarded(second.drop_last())).push(event) =~= forwarded(
                    first,
                ) + forwarded(second.drop_last()).push(event));
            },
            None => {},
        }
    }
}

/// A line that decodes to nothing, wherever it stands among other lines,
/// takes no event away and adds none: the lines after it decode as they
/// would without it.
pub proof fn lemma_bad_line_is_skipped(
    before: Seq<Seq<char>>,
    bad: Seq<char>,
    after: Seq<Seq<char>>,
)
    requires
        decoded(bad) is None,
    ensures
        forwarded(before.push(bad) + after) == forwarded(before) + forwarded(after),
        forwarded(before.push(bad) + after) == forwarded(before + after),
{
    lemma_forwarded_in_order(before.push(bad), after);
    lemma_forwarded_in_order(before, after);
    assert(before.push(bad).drop_last() =~= before);
}

/// Interrupting a registered session gives its process and frees the id,
/// so interrupting it again finds nothing and changes nothing.
pub proof fn lemma_interrupt_twice(sessions: Map<Seq<char>, u32>, id: Seq<char>)
    requires
        sessions.contains_key(id),
    ensures
        lookup_in(sessions, id) == Some(sessions[id]),
        lookup_in(sessions.remove(id), id) is None,
        sessions.remove(id).remove(id) == sessions.remove(id),
{
    assert(sessions.remove(id).remove(id) =~= sessions.remove(id));
}

/// Interrupting an id that has no entry leaves the registry as it is.
pub proof fn lemma_interrupt_unknown(sessions: Map<Seq<char>, u32>, id: Seq<char>)
    requires
        !sessions.contains_key(id),
    ensures
        lookup_in(sessions, id) is None,
        sessions.remove(id) == sessions,
{
    assert(sessions.remove(id) =~= sessions);
}

/// Continuing a session registers the new process under its id whether
/// or not the id had an entry before, and touches no other id.
pub proof fn lemma_continue_registers(sessions: Map<Seq<char>, u32>, id: Seq<char>, pid: u32)
    ensures
        lookup_in(sessions.remove(id).insert(id, pid), id) == Some(pid),
        forall|other: Seq<char>|
            other != id ==> lookup_in(sessions.remove(id).insert(id, pid), other) == lookup_in(
                sessions,
                other,
            ),
{
}

/// Once an event has moved a session's entry to its native id, later
/// events of that session leave the registry alone, as long as the
/// temporary id is not registered again.
pub proof fn lemma_first_report_wins(
    sessions: Map<Seq<char>, u32>,
    key: Seq<char>,
    first: EventModel,
    later: EventModel,
)
    requires
        native_id(first) is Some,
        native_id(first) != Some(key),
        sessions.contains_key(key),
    ensures
        after_event(after_event(sessions, key, first), key, later) == after_event(
            sessions,
            key,
            first,
        ),
{
}

/// Whether a document is a `system` object that reports `native` as the
/// native session id, whatever else it holds.
pub open spec fn reports_native_id(doc: JsonModel, native: Seq<char>) -> bool {
    doc matches JsonModel::Object(entries) && text_field(entries, "type"@) == Some("system"@)
        && text_field(entries, "session_id"@) == Some(native)
}

/// Whether a document is a `text_delta` object with the given text,
/// whatever else it holds.
pub open spec fn carries_text(doc: JsonModel, text: Seq<char>) -> bool {
    doc matches JsonModel::Object(entries) && text_field(entries, "type"@) == Some(
        "text_delta"@,
    ) && text_field(entries, "text"@) == Some(text)
}

/// A `system` document that reports a native id denotes a `System`
/// event that reports the same id, and a `text_delta` document denotes
/// the `TextDelta` event with its text.
pub proof fn lemma_reported_events(doc: JsonModel, native: Seq<char>, text: Seq<char>)
    ensures
        reports_native_id(doc, native) ==> (event_of(doc) matches Some(event) && event is System
            && native_id(event) == Some(native)),
        carries_text(doc, text) ==> event_of(doc) == Some(EventModel::TextDelta { text }),
{
    lemma_kinds_differ();
    reveal_strlit("session_id");
    reveal_strlit("type");
    reveal_strlit("subtype");
    if doc is Object {
        let entries = doc->Object_0;
        let modeled = set!["type"@, "subtype"@];
        assert("session_id"@.len() == 10 && "type"@.len() == 4 && "subtype"@.len() == 7);
        assert(!modeled.contains("session_id"@));
        lemma_field_of_open_fields(entries, modeled, "session_id"@);
    }
}

/// The two documents `{"session_id": native, "type": "system"}` and
/// `{"text": text, "type": "text_delta"}` are such documents.
pub proof fn lemma_plain_reports(native: Seq<char>, text: Seq<char>)
    ensures
        reports_native_id(
            JsonModel::Object(
                seq![
                    ("session_id"@, JsonModel::Text(native)),
                    ("type"@, JsonModel::Text("system"@)),
                ],
            ),
            native,
        ),
        carries_text(
            JsonModel::Object(
                seq![("text"@, JsonModel::Text(text)), ("type"@, JsonModel::Text("text_delta"@))],
            ),
            text,
        ),
{
    reveal_strlit("session_id");
    reveal_strlit("type");
    reveal_strlit("text");
    assert("session_id"@.len() == 10 && "type"@.len() == 4 && "text"@.len() == 4);
    assert("type"@[1] == 'y' && "text"@[1] == 'e');
    let first = seq![
        ("session_id"@, JsonModel::Text(native)),
        ("type"@, JsonModel::Text("system"@)),
    ];
    reveal_with_fuel(crate::json::position, 3);
    assert(crate::json::position(first, "type"@, 0) == 1);
    assert(crate::json::position(first, "session_id"@, 0) == 0);
    let second = seq![("text"@, JsonModel::Text(text)), ("type"@, JsonModel::Text("text_delta"@))];
    assert(crate::json::position(second, "type"@, 0) == 1);
    assert(crate::json::position(second, "text"@, 0) == 0);
}

/// A session whose child prints a line that reports its native id and
/// then a line of text: the sink is handed the `System` event with that
/// id and then the `TextDelta` event, in this order, and the registry has
/// moved the session's entry to the native id when the first line is
/// done, before the second is decoded. The lines matter only through the
/// documents they denote.
pub proof fn lemma_native_id_then_text(
    sessions: Map<Seq<char>, u32>,
    key: Seq<char>,
    first: Seq<char>,
    second: Seq<char>,
    native: Seq<char>,
    text: Seq<char>,
)
    requires
        trimmed(first).len() > 0,
        trimmed(second).len() > 0,
        parsed(trimmed(first)) matches Some(doc) && reports_native_id(doc, native),
        parsed(trimmed(second)) matches Some(doc) && carries_text(doc, text),
    ensures
        forwarded(seq![first, second]).len() == 2,
        forwarded(seq![first, second])[0] is System,
        native_id(forwarded(seq![first, second])[0]) == Some(native),
        forwarded(seq![first, second])[1] == (EventModel::TextDelta { text }),
        after_line(sessions, key, first) == rekeyed(sessions, key, native),
        after_lines(sessions, key, seq![first, second]) == rekeyed(sessions, key, native),
        sessions.contains_key(key) && key != native ==> lookup_in(
            after_line(sessions, key, first),
            key,
        ) is None && lookup_in(after_line(sessions, key, first), native) == Some(sessions[key]),
{
    lemma_reported_events(parsed(trimmed(first))->Some_0, native, text);
    lemma_reported_events(parsed(trimmed(second))->Some_0, native, text);
    let both = seq![first, second];
    let one = seq![first];
    assert(both.drop_last() =~= one);
    assert(both.last() == second);
    assert(one.drop_last() =~= Seq::<Seq<char>>::empty());
    assert(one.last() == first);
    reveal_with_fuel(forwarded, 3);
    reveal_with_fuel(after_lines, 3);
}

/// A session never leaves a terminal phase.
pub proof fn lemma_terminal_is_final(phase: SessionPhase, signal: Signal)
    requires
        is_terminal(phase),
    ensures
        next_phase(phase, signal) == phase,
{
}

} // verus!
