//! The typed events of the line protocol and their decoder.

use vstd::prelude::*;
use crate::json::{
    collect_open_fields, entries_model, field, find_field, items_model,
    lemma_open_fields_keep_all, open_fields, parsed, Json, JsonModel,
};
use crate::text::{
    is_blank, lemma_blank_trims_to_nothing, optional_text, same_text, trim_text, trimmed,
};

verus! {

/// The mathematical value of one denial record.
pub struct DenialModel {
    pub tool_name: Seq<char>,
    pub reason: Seq<char>,
    pub extra: Seq<(Seq<char>, JsonModel)>,
}

/// The mathematical value of an event.
#[allow(inconsistent_fields)]
pub enum EventModel {
    System { subtype: Option<Seq<char>>, extra: Seq<(Seq<char>, JsonModel)> },
    Assistant { message: JsonModel },
    User { message: JsonModel },
    TextDelta { text: Seq<char> },
    ToolStart { tool_name: Seq<char>, input: JsonModel },
    ToolEnd { tool_name: Seq<char>, output: Option<Seq<char>> },
    PermissionRequest { session_id: Seq<char>, denials: Seq<DenialModel> },
    Result { subtype: Seq<char>, extra: Seq<(Seq<char>, JsonModel)> },
    Error { error: Seq<char> },
    SessionEnd,
}

/// One refused tool call: the tool, the reason, and every other key of the
/// record.
#[derive(Debug, PartialEq)]
pub struct PermissionDenial {
    pub tool_name: String,
    pub reason: String,
    pub extra: Vec<(String, Json)>,
}

/// One event of the line protocol.
///
/// `System`, `Result` and each denial record keep the keys that the
/// protocol may add later in `extra`, in the order in which the document
/// lists its entries. A document that `Json::parse` read lists them
/// ascending by key, each key once, whatever their order in the line.
#[derive(Debug, PartialEq)]
#[allow(inconsistent_fields)]
pub enum StreamEvent {
    System { subtype: Option<String>, extra: Vec<(String, Json)> },
    Assistant { message: Json },
    User { message: Json },
    TextDelta { text: String },
    ToolStart { tool_name: String, input: Json },
    ToolEnd { tool_name: String, output: Option<String> },
    PermissionRequest { session_id: String, denials: Vec<PermissionDenial> },
    Result { subtype: String, extra: Vec<(String, Json)> },
    Error { error: String },
    SessionEnd,
}

impl View for PermissionDenial {
    type V = DenialModel;

    open spec fn view(&self) -> DenialModel {
        DenialModel {
            tool_name: self.tool_name@,
            reason: self.reason@,
            extra: entries_model(self.extra@),
        }
    }
}

/// The models of a list of denial records, record by record.
pub open spec fn denials_model(denials: Seq<PermissionDenial>) -> Seq<DenialModel> {
    Seq::new(denials.len(), |i: int| denials[i]@)
}

/// The mathematical value of an event.
pub open spec fn event_model(event: StreamEvent) -> EventModel {
    match event {
        StreamEvent::System { subtype, extra } => EventModel::System {
            subtype: optional_text(subtype),
            extra: entries_model(extra@),
        },
        StreamEvent::Assistant { message } => EventModel::Assistant { message: message@ },
        StreamEvent::User { message } => EventModel::User { message: message@ },
        StreamEvent::TextDelta { text } => EventModel::TextDelta { text: text@ },
        StreamEvent::ToolStart { tool_name, input } => EventModel::ToolStart {
            tool_name: tool_name@,
            input: input@,
        },
        StreamEvent::ToolEnd { tool_name, output } => EventModel::ToolEnd {
            tool_name: tool_name@,
            output: optional_text(output),
        },
        StreamEvent::PermissionRequest { session_id, denials } => EventModel::PermissionRequest {
            session_id: session_id@,
            denials: denials_model(denials@),
        },
        StreamEvent::Result { subtype, extra } => EventModel::Result {
            subtype: subtype@,
            extra: entries_model(extra@),
        },
        StreamEvent::Error { error } => EventModel::Error { error: error@ },
        StreamEvent::SessionEnd => EventModel::SessionEnd,
    }
}

impl View for StreamEvent {
    type V = EventModel;

    open spec fn view(&self) -> EventModel {
        event_model(*self)
    }
}

/// The model of an optional event.
pub open spec fn optional_event(event: Option<StreamEvent>) -> Option<EventModel> {
    match event {
        Some(e) => Some(e@),
        None => None,
    }
}

/// The string under `key`, where the first entry with that key holds one.
pub open spec fn text_field(entries: Seq<(Seq<char>, JsonModel)>, key: Seq<char>) -> Option<
    Seq<char>,
> {
    match field(entries, key) {
        Some(JsonModel::Text(s)) => Some(s),
        _ => None,
    }
}

/// The document under `key`, and `null` where no entry has that key.
pub open spec fn payload_field(entries: Seq<(Seq<char>, JsonModel)>, key: Seq<char>) -> JsonModel {
    match field(entries, key) {
        Some(value) => value,
        None => JsonModel::Null,
    }
}

/// The denial record that a document denotes: an object with the strings
/// `tool_name` and `reason`; its other entries are kept.
pub open spec fn denial_of(doc: JsonModel) -> Option<DenialModel> {
    match doc {
        JsonModel::Object(entries) => match (
            text_field(entries, "tool_name"@),
            text_field(entries, "reason"@),
        ) {
            (Some(tool_name), Some(reason)) => Some(
                DenialModel {
                    tool_name,
                    reason,
                    extra: open_fields(entries, set!["tool_name"@, "reason"@]),
                },
            ),
            _ => None,
        },
        _ => None,
    }
}

/// The denial records that a document denotes: an array of which every
/// item denotes one.
pub open spec fn denials_of(doc: JsonModel) -> Option<Seq<DenialModel>> {
    match doc {
        JsonModel::Array(items) => if forall|i: int|
            0 <= i < items.len() ==> (#[trigger] denial_of(items[i])) is Some {
            Some(Seq::new(items.len(), |i: int| denial_of(items[i])->Some_0))
        } else {
            None
        },
        _ => None,
    }
}

/// The event that an object with the discriminator `kind` denotes.
pub open spec fn event_of_kind(kind: Seq<char>, entries: Seq<(Seq<char>, JsonModel)>) -> Option<
    EventModel,
> {
    if kind == "system"@ {
        Some(
            EventModel::System {
                subtype: text_field(entries, "subtype"@),
                extra: open_fields(entries, set!["type"@, "subtype"@]),
            },
        )
    } else if kind == "assistant"@ {
        Some(EventModel::Assistant { message: payload_field(entries, "message"@) })
    } else if kind == "user"@ {
        Some(EventModel::User { message: payload_field(entries, "message"@) })
    } else if kind == "text_delta"@ {
        match text_field(entries, "text"@) {
            Some(text) => Some(EventModel::TextDelta { text }),
            None => None,
        }
    } else if kind == "tool_start"@ {
        match text_field(entries, "tool_name"@) {
            Some(tool_name) => Some(
                EventModel::ToolStart { tool_name, input: payload_field(entries, "input"@) },
            ),
            None => None,
        }
    } else if kind == "tool_end"@ {
        match text_field(entries, "tool_name"@) {
            Some(tool_name) => Some(
                EventModel::ToolEnd { tool_name, output: text_field(entries, "output"@) },
            ),
            None => None,
        }
    } else if kind == "permission_request"@ {
        match (text_field(entries, "session_id"@), denials_of(payload_field(entries, "denials"@))) {
            (Some(session_id), Some(denials)) => Some(
                EventModel::PermissionRequest { session_id, denials },
            ),
            _ => None,
        }
    } else if kind == "result"@ {
        match text_field(entries, "subtype"@) {
            Some(subtype) => Some(
                EventModel::Result {
                    subtype,
                    extra: open_fields(entries, set!["type"@, "subtype"@]),
                },
            ),
            None => None,
        }
    } else if kind == "error"@ {
        match text_field(entries, "error"@) {
            Some(error) => Some(EventModel::Error { error }),
            None => None,
        }
    } else if kind == "session_end"@ {
        Some(EventModel::SessionEnd)
    } else {
        None
    }
}

/// Whether a discriminator names a variant.
pub open spec fn is_known_kind(kind: Seq<char>) -> bool {
    ||| kind == "system"@
    ||| kind == "assistant"@
    ||| kind == "user"@
    ||| kind == "text_delta"@
    ||| kind == "tool_start"@
    ||| kind == "tool_end"@
    ||| kind == "permission_request"@
    ||| kind == "result"@
    ||| kind == "error"@
    ||| kind == "session_end"@
}

/// The names of the variants all differ from one another.
pub proof fn lemma_kinds_differ()
    ensures
        "system"@.len() == 6 && "system"@[0] == 's',
        "assistant"@.len() == 9,
        "user"@.len() == 4,
        "text_delta"@.len() == 10 && "text_delta"@[1] == 'e',
        "tool_start"@.len() == 10 && "tool_start"@[1] == 'o',
        "tool_end"@.len() == 8,
        "permission_request"@.len() == 18,
        "result"@.len() == 6 && "result"@[0] == 'r',
        "error"@.len() == 5,
        "session_end"@.len() == 11,
{
    reveal_strlit("system");
    reveal_strlit("assistant");
    reveal_strlit("user");
    reveal_strlit("text_delta");
    reveal_strlit("tool_start");
    reveal_strlit("tool_end");
    reveal_strlit("permission_request");
    reveal_strlit("result");
    reveal_strlit("error");
    reveal_strlit("session_end");
}

/// When a document with a known discriminator denotes an event:
/// always for `system`, `assistant`, `user` and `session_end`; for each
/// other variant exactly when its required fields are there as strings
/// (and, for a permission request, its denials as a list of records).
pub proof fn lemma_when_an_event_is_denoted(entries: Seq<(Seq<char>, JsonModel)>)
    ensures
        event_of_kind("system"@, entries) is Some,
        event_of_kind("assistant"@, entries) is Some,
        event_of_kind("user"@, entries) is Some,
        event_of_kind("session_end"@, entries) is Some,
        event_of_kind("text_delta"@, entries) is Some <==> text_field(entries, "text"@) is Some,
        event_of_kind("tool_start"@, entries) is Some <==> text_field(entries, "tool_name"@)
            is Some,
        event_of_kind("tool_end"@, entries) is Some <==> text_field(entries, "tool_name"@)
            is Some,
        event_of_kind("permission_request"@, entries) is Some <==> text_field(
            entries,
            "session_id"@,
        ) is Some && denials_of(payload_field(entries, "denials"@)) is Some,
        event_of_kind("result"@, entries) is Some <==> text_field(entries, "subtype"@) is Some,
        event_of_kind("error"@, entries) is Some <==> text_field(entries, "error"@) is Some,
{
    lemma_kinds_differ();
}

/// The event that a document denotes: an object whose `type` is the name
/// of a variant and whose entries have that variant's shape.
pub open spec fn event_of(doc: JsonModel) -> Option<EventModel> {
    match doc {
        JsonModel::Object(entries) => match text_field(entries, "type"@) {
            Some(kind) => event_of_kind(kind, entries),
            None => None,
        },
        _ => None,
    }
}

/// The event that one line of output denotes: nothing for a blank line, for
/// a line that is no JSON document, and for a document that is no event.
pub open spec fn decoded(line: Seq<char>) -> Option<EventModel> {
    let inner = trimmed(line);
    if inner.len() == 0 {
        None
    } else {
        match parsed(inner) {
            Some(doc) => event_of(doc),
            None => None,
        }
    }
}

/// A copy of the string under `key`, where the first entry with that key
/// holds one.
pub fn copy_text(entries: &Vec<(String, Json)>, key: &str) -> (text: Option<String>)
    ensures
        optional_text(text) == text_field(entries_model(entries@), key@),
{
    match find_field(entries, key) {
        Some(value) => match value.as_text() {
            Some(s) => Some(s.clone()),
            None => None,
        },
        None => None,
    }
}

/// A copy of the document under `key`, and `null` where no entry has that
/// key.
pub fn copy_payload(entries: &Vec<(String, Json)>, key: &str) -> (payload: Json)
    ensures
        payload@ == payload_field(entries_model(entries@), key@),
{
    match find_field(entries, key) {
        Some(value) => value.duplicate(),
        None => Json::Null,
    }
}

impl PermissionDenial {
    /// Reads one denial record from a document.
    pub fn from_json(doc: &Json) -> (denial: Option<PermissionDenial>)
        ensures
            match denial {
                Some(d) => denial_of(doc@) == Some(d@),
                None => denial_of(doc@) is None,
            },
    {
        let entries = match doc.as_object() {
            Some(entries) => entries,
            None => {
                return None;
            },
        };
        let tool_name = match copy_text(entries, "tool_name") {
            Some(s) => s,
            None => {
                return None;
            },
        };
        let reason = match copy_text(entries, "reason") {
            Some(s) => s,
            None => {
                return None;
            },
        };
        let extra = collect_open_fields(entries, "tool_name", "reason");
        Some(PermissionDenial { tool_name, reason, extra })
    }

    /// Reads a list of denial records from a document.
    pub fn list_from_json(doc: &Json) -> (denials: Option<Vec<PermissionDenial>>)
        ensures
            match denials {
                Some(list) => denials_of(doc@) == Some(denials_model(list@)),
                None => denials_of(doc@) is None,
            },
    {
        let items = match doc.as_array() {
            Some(items) => items,
            None => {
                return None;
            },
        };
        let ghost models = items_model(items@);
        let mut list: Vec<PermissionDenial> = Vec::new();
        let mut i: usize = 0;
        while i < items.len()
            invariant
                i <= items.len(),
                list.len() == i,
                models == items_model(items@),
                doc@ == JsonModel::Array(models),
                forall|j: int| 0 <= j < i ==> denial_of(models[j]) == Some(#[trigger] list@[j]@),
            decreases items.len() - i,
        {
            match PermissionDenial::from_json(&items[i]) {
                Some(denial) => {
                    list.push(denial);
                },
                None => {
                    assert(denial_of(models[i as int]) is None);
                    return None;
                },
            }
            i += 1;
        }
        proof {
            assert forall|j: int| 0 <= j < models.len() implies (#[trigger] denial_of(
                models[j],
            )) is Some by {
                assert(denial_of(models[j]) == Some(list@[j]@));
            }
            assert(denials_model(list@) =~= Seq::new(
                models.len(),
                |j: int| denial_of(models[j])->Some_0,
            )) by {
                assert forall|j: int| 0 <= j < models.len() implies denials_model(list@)[j]
                    == denial_of(models[j])->Some_0 by {
                    assert(denial_of(models[j]) == Some(list@[j]@));
                }
            }
        }
        Some(list)
    }
}

impl StreamEvent {
    /// Reads the event that a document denotes.
    pub fn from_json(doc: &Json) -> (event: Option<StreamEvent>)
        ensures
            optional_event(event) == event_of(doc@),
    {
        let entries = match doc.as_object() {
            Some(entries) => entries,
            None => {
                return None;
            },
        };
        let kind = match copy_text(entries, "type") {
            Some(kind) => kind,
            None => {
                return None;
            },
        };
        let kind = kind.as_str();
        if same_text(kind, "system") {
            let subtype = copy_text(entries, "subtype");
            let extra = collect_open_fields(entries, "type", "subtype");
            Some(StreamEvent::System { subtype, extra })
        } else if same_text(kind, "assistant") {
            Some(StreamEvent::Assistant { message: copy_payload(entries, "message") })
        } else if same_text(kind, "user") {
            Some(StreamEvent::User { message: copy_payload(entries, "message") })
        } else if same_text(kind, "text_delta") {
            match copy_text(entries, "text") {
                Some(text) => Some(StreamEvent::TextDelta { text }),
                None => None,
            }
        } else if same_text(kind, "tool_start") {
            match copy_text(entries, "tool_name") {
                Some(tool_name) => {
                    let input = copy_payload(entries, "input");
                    Some(StreamEvent::ToolStart { tool_name, input })
                },
                None => None,
            }
        } else if same_text(kind, "tool_end") {
            match copy_text(entries, "tool_name") {
                Some(tool_name) => {
                    let output = copy_text(entries, "output");
                    Some(StreamEvent::ToolEnd { tool_name, output })
                },
                None => None,
            }
        } else if same_text(kind, "permission_request") {
            let session_id = copy_text(entries, "session_id");
            let denials = match find_field(entries, "denials") {
                Some(value) => PermissionDenial::list_from_json(value),
                None => None,
            };
            match (session_id, denials) {
                (Some(session_id), Some(denials)) => Some(
                    StreamEvent::PermissionRequest { session_id, denials },
                ),
                _ => None,
            }
        } else if same_text(kind, "result") {
            match copy_text(entries, "subtype") {
                Some(subtype) => {
                    let extra = collect_open_fields(entries, "type", "subtype");
                    Some(StreamEvent::Result { subtype, extra })
                },
                None => None,
            }
        } else if same_text(kind, "error") {
            match copy_text(entries, "error") {
                Some(error) => Some(StreamEvent::Error { error }),
                None => None,
            }
        } else if same_text(kind, "session_end") {
            Some(StreamEvent::SessionEnd)
        } else {
            None
        }
    }

    /// Decodes one line of a child's output.
    ///
    /// The line is trimmed; a blank line, a line that is no JSON document
    /// and a document that is no event all give nothing.
    pub fn parse_line(line: &str) -> (event: Option<StreamEvent>)
        ensures
            optional_event(event) == decoded(line@),
    {
        let inner = trim_text(line);
        if inner.as_str().is_empty() {
            return None;
        }
        match Json::parse(inner.as_str()) {
            Some(doc) => StreamEvent::from_json(&doc),
            None => None,
        }
    }
}

/// A blank line gives no event.
pub proof fn lemma_blank_line_gives_nothing(line: Seq<char>)
    requires
        is_blank(line),
    ensures
        decoded(line) is None,
{
    lemma_blank_trims_to_nothing(line);
}

/// A line that is no JSON document gives no event, and neither does a
/// document that is no object, that has no string under `type`, whose
/// `type` names no variant, or whose entries do not have the shape of the
/// variant that `type` names.
pub proof fn lemma_unrecognized_line_gives_nothing(line: Seq<char>)
    ensures
        parsed(trimmed(line)) is None ==> decoded(line) is None,
        parsed(trimmed(line)) matches Some(doc) && !(doc is Object) ==> decoded(line) is None,
        parsed(trimmed(line)) matches Some(JsonModel::Object(entries)) && text_field(
            entries,
            "type"@,
        ) is None ==> decoded(line) is None,
        parsed(trimmed(line)) matches Some(JsonModel::Object(entries)) && text_field(
            entries,
            "type"@,
        ) matches Some(kind) && !is_known_kind(kind) ==> decoded(line) is None,
        parsed(trimmed(line)) matches Some(JsonModel::Object(entries)) && text_field(
            entries,
            "type"@,
        ) matches Some(kind) && event_of_kind(kind, entries) is None ==> decoded(line) is None,
{
}

/// Whether `extra` holds exactly the entries of a document whose keys
/// are neither `type` nor `subtype`.
pub open spec fn keeps_the_rest(
    entries: Seq<(Seq<char>, JsonModel)>,
    extra: Seq<(Seq<char>, JsonModel)>,
) -> bool {
    &&& forall|i: int|
        0 <= i < entries.len() && entries[i].0 != "type"@ && entries[i].0 != "subtype"@
            ==> extra.contains(#[trigger] entries[i])
    &&& forall|entry: (Seq<char>, JsonModel)| #[trigger]
        extra.contains(entry) ==> entries.contains(entry) && entry.0 != "type"@ && entry.0
            != "subtype"@
}

/// A document whose `type` is `system` always denotes a `System` event,
/// and in a `System` or `Result` event every entry of the document but
/// those under `type` and `subtype` stands among the open fields, and the
/// open fields hold nothing else.
pub proof fn lemma_open_fields_of_event(entries: Seq<(Seq<char>, JsonModel)>)
    ensures
        event_of_kind("system"@, entries) matches Some(EventModel::System { subtype, extra })
            && keeps_the_rest(entries, extra),
        event_of_kind("result"@, entries) matches Some(EventModel::Result { subtype, extra })
            ==> keeps_the_rest(entries, extra),
{
    lemma_open_fields_keep_all(entries, set!["type"@, "subtype"@]);
    lemma_kinds_differ();
}

} // verus!
