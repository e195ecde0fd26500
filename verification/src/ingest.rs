//! The per-request protocol of the log listener.
//!
//! A request is answered in two steps. `route` looks at the request line
//! alone. For a request that it lets pass, the caller reads the body and
//! hands it to `handle_body_now`, which says what is answered and what is
//! published.

use vstd::prelude::*;
use vstd::string::*;
use vstd::utf8::*;
use crate::banner::{banner_text, format_banner, normalize_agent, occurs_in, shown_agent};
use crate::banner::lemma_banner_holds_agent_and_content;
use crate::json::{json_document, json_field, lookup, read_document, FieldModel, JsonField};
use crate::text::{decode_text, is_blank, text_is_blank};

verus! {

/// A log event as an agent sends it.
#[derive(Debug)]
pub struct LogPayload {
    pub agent: String,
    pub content: String,
}

/// The mathematical value of a `LogPayload`.
pub struct PayloadModel {
    pub agent: Seq<char>,
    pub content: Seq<char>,
}

impl View for LogPayload {
    type V = PayloadModel;

    open spec fn view(&self) -> PayloadModel {
        PayloadModel { agent: self.agent@, content: self.content@ }
    }
}

/// The method of a request, as the listener tells methods apart.
#[derive(Clone, Copy, Debug, PartialEq, Eq, Structural)]
pub enum RequestMethod {
    Get,
    Head,
    Post,
    Put,
    Delete,
    Connect,
    Options,
    Trace,
    Patch,
    NonStandard,
}

/// The three answers that the listener gives.
#[derive(Clone, Copy, Debug, PartialEq, Eq, Structural)]
pub enum Reply {
    /// `404`, for anything but `POST /log`.
    NotFound,
    /// `200` with body `OK`, for a blank body.
    Alive,
    /// `200` with a JSON body, for a log event.
    Received,
}

impl Reply {
    /// The status code of the answer.
    pub open spec fn status_code(self) -> int {
        match self {
            Reply::NotFound => 404,
            Reply::Alive => 200,
            Reply::Received => 200,
        }
    }

    /// The body of the answer.
    pub open spec fn body_text(self) -> Seq<char> {
        match self {
            Reply::NotFound => "Not Found"@,
            Reply::Alive => "OK"@,
            Reply::Received => "{\"status\":\"received\"}"@,
        }
    }

    /// The `Content-Type` that the answer names, if it names one.
    pub open spec fn content_type_text(self) -> Option<Seq<char>> {
        match self {
            Reply::Received => Some("application/json"@),
            _ => None,
        }
    }

    /// Gives the status code.
    pub fn status(&self) -> (code: u16)
        ensures
            code == self.status_code(),
    {
        match self {
            Reply::NotFound => 404,
            Reply::Alive => 200,
            Reply::Received => 200,
        }
    }

    /// Gives the body.
    pub fn body(&self) -> (text: String)
        ensures
            text@ == self.body_text(),
    {
        match self {
            Reply::NotFound => "Not Found".to_owned(),
            Reply::Alive => "OK".to_owned(),
            Reply::Received => "{\"status\":\"received\"}".to_owned(),
        }
    }

    /// Gives the value of the `Content-Type` header to add, if any.
    pub fn content_type(&self) -> (value: Option<String>)
        ensures
            match value {
                Some(v) => self.content_type_text() == Some(v@),
                None => self.content_type_text() is None,
            },
    {
        match self {
            Reply::Received => Some("application/json".to_owned()),
            _ => None,
        }
    }
}

/// What a body turned out to be.
#[derive(Debug)]
pub enum BodyKind {
    /// Not UTF-8.
    Undecodable,
    /// Empty, or white space only: a liveness probe.
    Blank,
    /// Text that is no log event.
    Malformed,
    /// A log event.
    Event(LogPayload),
}

/// The mathematical value of a `BodyKind`.
pub enum BodyClass {
    Undecodable,
    Blank,
    Malformed,
    Event(PayloadModel),
}

impl View for BodyKind {
    type V = BodyClass;

    open spec fn view(&self) -> BodyClass {
        match self {
            BodyKind::Undecodable => BodyClass::Undecodable,
            BodyKind::Blank => BodyClass::Blank,
            BodyKind::Malformed => BodyClass::Malformed,
            BodyKind::Event(payload) => BodyClass::Event(payload@),
        }
    }
}

/// What the listener does for one request: the answer, if one is sent, and
/// the banner, if one is published.
#[derive(Debug)]
pub struct Outcome {
    pub reply: Option<Reply>,
    pub event: Option<String>,
}

/// The mathematical value of an `Outcome`.
pub struct OutcomeModel {
    pub reply: Option<Reply>,
    pub event: Option<Seq<char>>,
}

impl View for Outcome {
    type V = OutcomeModel;

    open spec fn view(&self) -> OutcomeModel {
        OutcomeModel {
            reply: self.reply,
            event: match self.event {
                Some(banner) => Some(banner@),
                None => None,
            },
        }
    }
}

/// The name under which banners are published.
pub open spec fn event_name_text() -> Seq<char> {
    "log-line"@
}

/// The pattern under which the clock is printed.
pub open spec fn clock_pattern() -> Seq<char> {
    "%H:%M:%S"@
}

/// Whether a request line is exactly `POST /log`.
pub open spec fn is_log_route(method: RequestMethod, url: Seq<char>) -> bool {
    method == RequestMethod::Post && url == "/log"@
}

/// What is done for a request line before its body is read: nothing yet
/// for `POST /log`; for anything else `404` is answered and nothing is
/// published.
pub open spec fn route_outcome(method: RequestMethod, url: Seq<char>) -> Option<OutcomeModel> {
    if is_log_route(method, url) {
        None
    } else {
        Some(OutcomeModel { reply: Some(Reply::NotFound), event: None })
    }
}

/// The text that one member of a log event stands for: empty where the
/// member is missing, nothing where it is no string or the text no object.
pub open spec fn member_text(field: FieldModel) -> Option<Seq<char>> {
    match field {
        FieldModel::Absent => Some(Seq::<char>::empty()),
        FieldModel::Text(s) => Some(s),
        _ => None,
    }
}

/// The log event that the two members make, if they make one.
pub open spec fn payload_of(agent: FieldModel, content: FieldModel) -> Option<PayloadModel> {
    match (member_text(agent), member_text(content)) {
        (Some(a), Some(c)) => Some(PayloadModel { agent: a, content: c }),
        _ => None,
    }
}

/// The log event that a text holds, if it holds one.
pub open spec fn parsed_payload(text: Seq<char>) -> Option<PayloadModel> {
    payload_of(json_field(text, "agent"@), json_field(text, "content"@))
}

/// What a decoded body is.
pub open spec fn classify_text(text: Seq<char>) -> BodyClass {
    if is_blank(text) {
        BodyClass::Blank
    } else {
        match parsed_payload(text) {
            Some(payload) => BodyClass::Event(payload),
            None => BodyClass::Malformed,
        }
    }
}

/// What a body is.
pub open spec fn classify(body: Seq<u8>) -> BodyClass {
    if !valid_utf8(body) {
        BodyClass::Undecodable
    } else {
        classify_text(decode_utf8(body))
    }
}

/// What is answered and published for a body of class `class` that is
/// handled at clock time `time`.
pub open spec fn outcome_of(class: BodyClass, time: Seq<char>) -> OutcomeModel {
    match class {
        BodyClass::Undecodable => OutcomeModel { reply: None, event: None },
        BodyClass::Malformed => OutcomeModel { reply: None, event: None },
        BodyClass::Blank => OutcomeModel { reply: Some(Reply::Alive), event: None },
        BodyClass::Event(payload) => OutcomeModel {
            reply: Some(Reply::Received),
            event: Some(banner_text(time, shown_agent(payload.agent), payload.content)),
        },
    }
}

/// Gives the name under which banners are published.
pub fn event_name() -> (name: String)
    ensures
        name@ == event_name_text(),
{
    "log-line".to_owned()
}

/// Decides on a request line: `None` lets the request pass to the body
/// step, anything else ends it.
pub fn route(method: RequestMethod, url: &str) -> (outcome: Option<Outcome>)
    ensures
        match outcome {
            Some(o) => route_outcome(method, url@) == Some(o@),
            None => route_outcome(method, url@) is None,
        },
{
    proof {
        reveal_strlit("/log");
    }
    let is_post = match method {
        RequestMethod::Post => true,
        _ => false,
    };
    if is_post && url.unicode_len() == 4 && url.get_char(0) == '/' && url.get_char(1) == 'l'
        && url.get_char(2) == 'o' && url.get_char(3) == 'g' {
        assert(url@ =~= "/log"@);
        None
    } else {
        Some(Outcome { reply: Some(Reply::NotFound), event: None })
    }
}

/// Makes a log event of the two members that were read from a text.
pub fn payload_from_fields(agent: JsonField, content: JsonField) -> (payload: Option<LogPayload>)
    ensures
        match payload {
            Some(p) => payload_of(agent@, content@) == Some(p@),
            None => payload_of(agent@, content@) is None,
        },
{
    let agent_text = match agent {
        JsonField::Absent => String::new(),
        JsonField::Text(s) => s,
        _ => {
            return None;
        },
    };
    let content_text = match content {
        JsonField::Absent => String::new(),
        JsonField::Text(s) => s,
        _ => {
            return None;
        },
    };
    Some(LogPayload { agent: agent_text, content: content_text })
}

/// Reads a log event from a text.
pub fn parse_payload(text: &str) -> (payload: Option<LogPayload>)
    ensures
        match payload {
            Some(p) => parsed_payload(text@) == Some(p@),
            None => parsed_payload(text@) is None,
        },
{
    let document = read_document(text);
    let agent = lookup(&document, "agent");
    let content = lookup(&document, "content");
    payload_from_fields(agent, content)
}

/// Says what a body is.
pub fn classify_body(body: &[u8]) -> (kind: BodyKind)
    ensures
        kind@ == classify(body@),
{
    match decode_text(body) {
        None => BodyKind::Undecodable,
        Some(text) => {
            if text_is_blank(text) {
                BodyKind::Blank
            } else {
                match parse_payload(text) {
                    Some(payload) => BodyKind::Event(payload),
                    None => BodyKind::Malformed,
                }
            }
        },
    }
}

/// Says what is answered and published for a body of kind `kind`, handled
/// at clock time `time`.
pub fn outcome_for(kind: BodyKind, time: &str) -> (outcome: Outcome)
    ensures
        outcome@ == outcome_of(kind@, time@),
{
    match kind {
        BodyKind::Undecodable => Outcome { reply: None, event: None },
        BodyKind::Malformed => Outcome { reply: None, event: None },
        BodyKind::Blank => Outcome { reply: Some(Reply::Alive), event: None },
        BodyKind::Event(payload) => {
            let agent = normalize_agent(payload.agent);
            let banner = format_banner(time, agent.as_str(), payload.content.as_str());
            Outcome { reply: Some(Reply::Received), event: Some(banner) }
        },
    }
}

/// Handles the body of a `POST /log` request at a clock time that the
/// caller gives.
pub fn handle_body(body: &[u8], time: &str) -> (outcome: Outcome)
    ensures
        outcome@ == outcome_of(classify(body@), time@),
{
    outcome_for(classify_body(body), time)
}

/// Reads the local wall clock with chrono's `Local::now` and prints it with
/// `format` under `pattern`. Trusted, and nothing is claimed of the text: it
/// depends on the moment and on the machine's time zone. The pattern is
/// held to the one that the listener uses, which chrono can print.
#[verifier::external_body]
fn clock_text(pattern: &str) -> (text: String)
    requires
        pattern@ == clock_pattern(),
{
    chrono::Local::now().format(pattern).to_string()
}

/// Handles the body of a `POST /log` request at the time that the local
/// clock shows. The clock is read for a log event only. The answer does not
/// depend on the clock; the banner is the one of some clock text.
pub fn handle_body_now(body: &[u8]) -> (outcome: Outcome)
    ensures
        exists|time: Seq<char>| outcome@ == #[trigger] outcome_of(classify(body@), time),
        outcome@.reply == outcome_of(classify(body@), Seq::<char>::empty()).reply,
        outcome@.event is Some <==> classify(body@) is Event,
{
    let kind = classify_body(body);
    match kind {
        BodyKind::Event(_) => {
            let time = clock_text("%H:%M:%S");
            let outcome = outcome_for(kind, time.as_str());
            assert(outcome@ == outcome_of(classify(body@), time@));
            outcome
        },
        _ => {
            let outcome = outcome_for(kind, "");
            assert(outcome@ == outcome_of(classify(body@), ""@));
            outcome
        },
    }
}

/// A body of well-formed UTF-8 that is not blank and reads as a JSON object
/// whose `agent` and `content` are strings or missing is a log event. It is
/// answered with `200` and `{"status":"received"}` under
/// `Content-Type: application/json`, and one banner is published for it,
/// which holds the agent name as it is shown and the content.
pub proof fn lemma_event_is_received_and_published(body: Seq<u8>, time: Seq<char>)
    requires
        valid_utf8(body),
        !is_blank(decode_utf8(body)),
        json_document(decode_utf8(body)) is Object,
        member_text(json_field(decode_utf8(body), "agent"@)) is Some,
        member_text(json_field(decode_utf8(body), "content"@)) is Some,
    ensures
        classify(body) == BodyClass::Event(
            PayloadModel {
                agent: member_text(json_field(decode_utf8(body), "agent"@))->0,
                content: member_text(json_field(decode_utf8(body), "content"@))->0,
            },
        ),
        outcome_of(classify(body), time).reply == Some(Reply::Received),
        Reply::Received.status_code() == 200,
        Reply::Received.body_text() == "{\"status\":\"received\"}"@,
        Reply::Received.content_type_text() == Some("application/json"@),
        outcome_of(classify(body), time).event is Some,
        occurs_in(
            shown_agent(classify(body)->Event_0.agent),
            outcome_of(classify(body), time).event->0,
        ),
        occurs_in(classify(body)->Event_0.content, outcome_of(classify(body), time).event->0),
{
    let payload = classify(body)->Event_0;
    lemma_banner_holds_agent_and_content(time, shown_agent(payload.agent), payload.content);
}

/// A log event whose agent name is empty or missing is published under the
/// placeholder name.
pub proof fn lemma_nameless_event_is_unknown(content: Seq<char>, time: Seq<char>)
    ensures
        outcome_of(
            BodyClass::Event(PayloadModel { agent: Seq::<char>::empty(), content }),
            time,
        ).event == Some(banner_text(time, "Unknown"@, content)),
        member_text(FieldModel::Absent) == Some(Seq::<char>::empty()),
        occurs_in("Unknown"@, banner_text(time, "Unknown"@, content)),
{
    lemma_banner_holds_agent_and_content(time, "Unknown"@, content);
}

/// A body of well-formed UTF-8 that is empty or white space only is
/// answered with `200` and `OK`, and nothing is published.
pub proof fn lemma_blank_body_is_probe(body: Seq<u8>, time: Seq<char>)
    requires
        valid_utf8(body),
        is_blank(decode_utf8(body)),
    ensures
        outcome_of(classify(body), time).reply == Some(Reply::Alive),
        Reply::Alive.status_code() == 200,
        Reply::Alive.body_text() == "OK"@,
        outcome_of(classify(body), time).event is None,
{
}

/// A body that is not UTF-8, or whose text is not blank and does not read
/// as a JSON object, gets no answer, and nothing is published.
pub proof fn lemma_noise_is_dropped(body: Seq<u8>, time: Seq<char>)
    requires
        !valid_utf8(body) || (!is_blank(decode_utf8(body)) && !(json_document(
            decode_utf8(body),
        ) is Object)),
    ensures
        outcome_of(classify(body), time).reply is None,
        outcome_of(classify(body), time).event is None,
{
}

/// A request line that is not exactly `POST /log` is answered with `404`
/// and `Not Found`, and nothing is published.
pub proof fn lemma_other_routes_not_found(method: RequestMethod, url: Seq<char>)
    requires
        method != RequestMethod::Post || url != "/log"@,
    ensures
        route_outcome(method, url) == Some(
            OutcomeModel { reply: Some(Reply::NotFound), event: None },
        ),
        Reply::NotFound.status_code() == 404,
        Reply::NotFound.body_text() == "Not Found"@,
        Reply::NotFound.content_type_text() is None,
{
}

} // verus!
