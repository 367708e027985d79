use vstd::prelude::*;
use vstd::string::StringExecFns;

use crate::errors::EventError;

verus! {

/// The severity of a triggered event.
#[derive(Debug, Copy, Clone, PartialEq, Eq, Structural)]
pub enum EventSeverity {
    /// Critical
    Critical,
    /// Error
    Error,
    /// Warning
    Warning,
    /// Informational
    Info,
}

impl EventSeverity {
    /// The lowercase token that stands for the severity on the wire.
    pub open spec fn token(self) -> Seq<char> {
        match self {
            EventSeverity::Critical => "critical"@,
            EventSeverity::Error => "error"@,
            EventSeverity::Warning => "warning"@,
            EventSeverity::Info => "info"@,
        }
    }

    /// The lowercase token of the severity.
    pub fn as_str(&self) -> (r: &'static str)
        ensures
            r@ == self.token(),
    {
        match self {
            EventSeverity::Critical => "critical",
            EventSeverity::Error => "error",
            EventSeverity::Warning => "warning",
            EventSeverity::Info => "info",
        }
    }
}

/// The lowercase hexadecimal digit of `d`, for `d < 16`.
pub open spec fn hex_digit(d: u32) -> char {
    seq!['0', '1', '2', '3', '4', '5', '6', '7', '8', '9', 'a', 'b', 'c', 'd', 'e', 'f'][d as int]
}

/// How one character is written inside a JSON string literal: the quote and
/// the backslash behind a backslash, the five short escapes, every other
/// control character as `\u00xx`, and everything else as it is.
pub open spec fn json_escape_char(c: char) -> Seq<char> {
    if c == '"' {
        seq!['\\', '"']
    } else if c == '\\' {
        seq!['\\', '\\']
    } else if c == '\u{8}' {
        seq!['\\', 'b']
    } else if c == '\t' {
        seq!['\\', 't']
    } else if c == '\n' {
        seq!['\\', 'n']
    } else if c == '\u{c}' {
        seq!['\\', 'f']
    } else if c == '\r' {
        seq!['\\', 'r']
    } else if (c as u32) < 0x20 {
        seq!['\\', 'u', '0', '0', hex_digit((c as u32) / 16), hex_digit((c as u32) % 16)]
    } else {
        seq![c]
    }
}

/// The characters of `s`, each escaped for a JSON string literal.
pub open spec fn json_escaped(s: Seq<char>) -> Seq<char>
    decreases s.len(),
{
    if s.len() == 0 {
        Seq::empty()
    } else {
        json_escaped(s.drop_last()) + json_escape_char(s.last())
    }
}

/// The JSON string literal for `s`: its escaped characters between quotes.
pub open spec fn json_text(s: Seq<char>) -> Seq<char> {
    seq!['"'] + json_escaped(s) + seq!['"']
}

/// Relies on serde_json::to_string applied to a `str`: it writes the escaped
/// string literal into a `Vec`, which cannot fail, so it always succeeds.
#[verifier::external_body]
fn encode_str(s: &str) -> (r: Result<String, serde_json::Error>)
    ensures
        r is Ok,
        r matches Ok(t) ==> t@ == json_text(s@),
{
    serde_json::to_string(s)
}

/// Encodes one string field as a JSON string literal.
fn encode_field(s: &str) -> (r: Result<String, EventError>)
    ensures
        r matches Ok(t) && t@ == json_text(s@),
{
    match encode_str(s) {
        Ok(t) => Ok(t),
        Err(e) => Err(EventError::Encoding(e)),
    }
}

/// The trigger document around string fields that are already JSON-encoded.
pub open spec fn trigger_frame(
    routing_key: Seq<char>,
    dedup_key: Seq<char>,
    summary: Seq<char>,
    source: Seq<char>,
    severity: EventSeverity,
) -> Seq<char> {
    "{\"event_action\":\"trigger\",\"routing_key\":"@ + routing_key + ",\"dedup_key\":"@
        + dedup_key + ",\"links\":[],\"payload\":{\"summary\":"@ + summary + ",\"source\":"@
        + source + ",\"severity\":\""@ + severity.token() + "\"}}"@
}

/// The resolve document around string fields that are already JSON-encoded.
pub open spec fn resolve_frame(routing_key: Seq<char>, dedup_key: Seq<char>) -> Seq<char> {
    "{\"event_action\":\"resolve\",\"routing_key\":"@ + routing_key + ",\"dedup_key\":"@
        + dedup_key + "}"@
}

/// Builds the trigger document from the JSON encodings of its string fields.
pub fn frame_trigger(
    routing_key_json: &str,
    dedup_key_json: &str,
    summary_json: &str,
    source_json: &str,
    severity: EventSeverity,
) -> (r: String)
    ensures
        r@ == trigger_frame(
            routing_key_json@,
            dedup_key_json@,
            summary_json@,
            source_json@,
            severity,
        ),
{
    let mut doc = String::from_str("{\"event_action\":\"trigger\",\"routing_key\":");
    doc.append(routing_key_json);
    doc.append(",\"dedup_key\":");
    doc.append(dedup_key_json);
    doc.append(",\"links\":[],\"payload\":{\"summary\":");
    doc.append(summary_json);
    doc.append(",\"source\":");
    doc.append(source_json);
    doc.append(",\"severity\":\"");
    doc.append(severity.as_str());
    doc.append("\"}}");
    doc
}

/// Builds the resolve document from the JSON encodings of its string fields.
pub fn frame_resolve(routing_key_json: &str, dedup_key_json: &str) -> (r: String)
    ensures
        r@ == resolve_frame(routing_key_json@, dedup_key_json@),
{
    let mut doc = String::from_str("{\"event_action\":\"resolve\",\"routing_key\":");
    doc.append(routing_key_json);
    doc.append(",\"dedup_key\":");
    doc.append(dedup_key_json);
    doc.append("}");
    doc
}

/// A lowercase hexadecimal digit.
pub open spec fn is_hex_digit(c: char) -> bool {
    ('0' <= c && c <= '9') || ('a' <= c && c <= 'f')
}

/// The hyphenated lowercase text of a random (version 4) identifier:
/// 8-4-4-4-12 hexadecimal digits, with the version digit `4` and a variant
/// digit among `8`, `9`, `a` and `b`.
pub open spec fn is_generated_key(k: Seq<char>) -> bool {
    &&& k.len() == 36
    &&& forall|i: int|
        0 <= i < 36 ==> if i == 8 || i == 13 || i == 18 || i == 23 {
            #[trigger] k[i] == '-'
        } else {
            is_hex_digit(k[i])
        }
    &&& k[14] == '4'
    &&& (k[19] == '8' || k[19] == '9' || k[19] == 'a' || k[19] == 'b')
}

/// Relies on uuid::Uuid::new_v4 and its `Display`: a fresh random identifier
/// in hyphenated lowercase form. Nothing is promised of which one.
#[verifier::external_body]
fn random_key() -> (r: String)
    ensures
        is_generated_key(r@),
{
    uuid::Uuid::new_v4().to_string()
}

/// The document sent to open an incident, or to update the one with the same key.
#[derive(Debug)]
pub struct TriggerEvent {
    /// The integration credential that routes the event.
    pub routing_key: String,
    /// The key that ties the event to one incident.
    pub dedup_key: String,
    /// A short description of the event.
    pub summary: String,
    /// Where the event comes from.
    pub source: String,
    /// How severe the event is.
    pub severity: EventSeverity,
}

impl TriggerEvent {
    /// The event holds exactly the given fields.
    pub open spec fn holds(
        self,
        routing_key: Seq<char>,
        dedup_key: Seq<char>,
        summary: Seq<char>,
        source: Seq<char>,
        severity: EventSeverity,
    ) -> bool {
        &&& self.routing_key@ == routing_key
        &&& self.dedup_key@ == dedup_key
        &&& self.summary@ == summary
        &&& self.source@ == source
        &&& self.severity == severity
    }

    /// The event was built from these arguments: the key is the supplied one,
    /// or a freshly generated one where none was supplied.
    pub open spec fn built_from(
        self,
        routing_key: Seq<char>,
        dedup_key: Option<Seq<char>>,
        summary: Seq<char>,
        source: Seq<char>,
        severity: EventSeverity,
    ) -> bool {
        &&& self.holds(routing_key, self.dedup_key@, summary, source, severity)
        &&& match dedup_key {
            Some(k) => self.dedup_key@ == k,
            None => is_generated_key(self.dedup_key@),
        }
    }

    /// The JSON document of the event.
    pub open spec fn document(self) -> Seq<char> {
        trigger_frame(
            json_text(self.routing_key@),
            json_text(self.dedup_key@),
            json_text(self.summary@),
            json_text(self.source@),
            self.severity,
        )
    }

    /// An event under the given key.
    pub fn with_key(
        routing_key: &str,
        dedup_key: String,
        summary: &str,
        source: &str,
        severity: EventSeverity,
    ) -> (r: TriggerEvent)
        ensures
            r.holds(routing_key@, dedup_key@, summary@, source@, severity),
    {
        TriggerEvent {
            routing_key: routing_key.to_owned(),
            dedup_key,
            summary: summary.to_owned(),
            source: source.to_owned(),
            severity,
        }
    }

    /// An event under the supplied key, or under a freshly generated one.
    pub fn new(
        routing_key: &str,
        dedup_key: &Option<String>,
        summary: &str,
        source: &str,
        severity: EventSeverity,
    ) -> (r: TriggerEvent)
        ensures
            r.built_from(
                routing_key@,
                match dedup_key {
                    Some(k) => Some(k@),
                    None => None,
                },
                summary@,
                source@,
                severity,
            ),
    {
        let key = match dedup_key {
            Some(k) => k.clone(),
            None => random_key(),
        };
        TriggerEvent::with_key(routing_key, key, summary, source, severity)
    }

    /// Encodes the event as the JSON document the service expects.
    pub fn to_json(&self) -> (r: Result<String, EventError>)
        ensures
            r matches Ok(d) && d@ == self.document(),
    {
        let routing_key = encode_field(self.routing_key.as_str())?;
        let dedup_key = encode_field(self.dedup_key.as_str())?;
        let summary = encode_field(self.summary.as_str())?;
        let source = encode_field(self.source.as_str())?;
        Ok(
            frame_trigger(
                routing_key.as_str(),
                dedup_key.as_str(),
                summary.as_str(),
                source.as_str(),
                self.severity,
            ),
        )
    }
}

/// The document sent to close the incident with a given key.
#[derive(Debug)]
pub struct ResolveEvent {
    /// The integration credential that routes the event.
    pub routing_key: String,
    /// The key of the incident to close.
    pub dedup_key: String,
}

impl ResolveEvent {
    /// The JSON document of the event.
    pub open spec fn document(self) -> Seq<char> {
        resolve_frame(json_text(self.routing_key@), json_text(self.dedup_key@))
    }

    /// An event that closes the incident under `dedup_key`.
    pub fn new(routing_key: &str, dedup_key: String) -> (r: ResolveEvent)
        ensures
            r.routing_key@ == routing_key@,
            r.dedup_key@ == dedup_key@,
    {
        ResolveEvent { routing_key: routing_key.to_owned(), dedup_key }
    }

    /// Encodes the event as the JSON document the service expects.
    pub fn to_json(&self) -> (r: Result<String, EventError>)
        ensures
            r matches Ok(d) && d@ == self.document(),
    {
        let routing_key = encode_field(self.routing_key.as_str())?;
        let dedup_key = encode_field(self.dedup_key.as_str())?;
        Ok(frame_resolve(routing_key.as_str(), dedup_key.as_str()))
    }
}

/// The HTTP status with which the service accepts an event.
pub const ACCEPTED: u16 = 202;

/// What a trigger reports, given the key it sent and the status the service
/// answered with: the key on acceptance, the status otherwise.
pub open spec fn trigger_reply(dedup_key: Seq<char>, status: u16) -> Result<Seq<char>, u16> {
    if status == ACCEPTED {
        Ok(dedup_key)
    } else {
        Err(status)
    }
}

/// What a resolve reports, given the status the service answered with.
pub open spec fn resolve_reply(status: u16) -> Result<(), u16> {
    if status == ACCEPTED {
        Ok(())
    } else {
        Err(status)
    }
}

/// The result of a trigger whose event the service answered with `status`:
/// the event's key once accepted, so the incident can be resolved later.
pub fn trigger_outcome(event: TriggerEvent, status: u16) -> (r: Result<String, EventError>)
    ensures
        match trigger_reply(event.dedup_key@, status) {
            Ok(k) => r matches Ok(key) && key@ == k,
            Err(c) => r == Err::<String, EventError>(EventError::UnexpectedStatus(c)),
        },
{
    if status == ACCEPTED {
        Ok(event.dedup_key)
    } else {
        Err(EventError::UnexpectedStatus(status))
    }
}

/// The result of a resolve that the service answered with `status`.
pub fn resolve_outcome(status: u16) -> (r: Result<(), EventError>)
    ensures
        match resolve_reply(status) {
            Ok(_) => r is Ok,
            Err(c) => r == Err::<(), EventError>(EventError::UnexpectedStatus(c)),
        },
{
    if status == ACCEPTED {
        Ok(())
    } else {
        Err(EventError::UnexpectedStatus(status))
    }
}

/// A key that the caller supplies to a trigger is the key reported back, unchanged,
/// once the service accepts the event.
pub proof fn supplied_key_is_echoed(
    event: TriggerEvent,
    routing_key: Seq<char>,
    dedup_key: Seq<char>,
    summary: Seq<char>,
    source: Seq<char>,
    severity: EventSeverity,
)
    requires
        event.built_from(routing_key, Some(dedup_key), summary, source, severity),
    ensures
        trigger_reply(event.dedup_key@, ACCEPTED) == Ok::<Seq<char>, u16>(dedup_key),
{
}

/// Every severity is written in the trigger document as its own lowercase token,
/// and no two severities share a token.
pub proof fn severity_tokens_are_distinct(a: EventSeverity, b: EventSeverity)
    ensures
        a.token() == b.token() <==> a == b,
{
    reveal_strlit("critical");
    reveal_strlit("error");
    reveal_strlit("warning");
    reveal_strlit("info");
    if a != b && a.token() == b.token() {
        assert(a.token()[0] != b.token()[0] || a.token().len() != b.token().len());
    }
}

/// Holds the integration credential and shapes the events sent under it.
#[derive(Debug)]
pub struct EventManager {
    integration_key: String,
}

impl View for EventManager {
    type V = Seq<char>;

    /// The integration credential.
    closed spec fn view(&self) -> Seq<char> {
        self.integration_key@
    }
}

impl EventManager {
    /// A manager for the given integration credential.
    pub fn new(integration_key: String) -> (r: EventManager)
        ensures
            r@ == integration_key@,
    {
        EventManager { integration_key }
    }

    /// The integration credential.
    pub fn integration_key(&self) -> (r: &str)
        ensures
            r@ == self@,
    {
        self.integration_key.as_str()
    }

    /// The event for a trigger under this manager's credential: under `event_id`
    /// where given (which re-triggers that incident), else under a fresh key.
    pub fn trigger_event(
        &self,
        event_id: &Option<String>,
        summary: &str,
        source: &str,
        severity: EventSeverity,
    ) -> (r: TriggerEvent)
        ensures
            r.built_from(
                self@,
                match event_id {
                    Some(k) => Some(k@),
                    None => None,
                },
                summary@,
                source@,
                severity,
            ),
    {
        TriggerEvent::new(self.integration_key.as_str(), event_id, summary, source, severity)
    }

    /// The event that resolves the incident under `event_id`.
    pub fn resolve_event(&self, event_id: &String) -> (r: ResolveEvent)
        ensures
            r.routing_key@ == self@,
            r.dedup_key@ == event_id@,
    {
        ResolveEvent::new(self.integration_key.as_str(), event_id.clone())
    }
}

} // verus!
