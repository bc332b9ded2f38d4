//! Events sent to browser clients and their JSON text.
use vstd::prelude::*;
use vstd::string::*;

use crate::json;
use crate::text;

verus! {

/// Events sent from the NFC bridge to browser clients over WebSocket. Every event is one
/// flat JSON object whose `type` member names the kind of event.
#[derive(Debug, Clone)]
pub enum NfcEvent {
    /// Card UID successfully read.
    NfcRead { employee_id: String },
    /// Error during NFC operation.
    NfcError { error: String },
    /// Status broadcast (reader list and connection state).
    Status { readers: Vec<String>, connected: bool, version: String },
    /// Progress of a card read, for the browser console.
    NfcDebug { message: String },
}

/// What an [`NfcEvent`] stands for.
#[verifier::ext_equal]
pub enum NfcEventView {
    NfcRead { employee_id: Seq<char> },
    NfcError { error: Seq<char> },
    Status { readers: Seq<Seq<char>>, connected: bool, version: Seq<char> },
    NfcDebug { message: Seq<char> },
}

impl View for NfcEvent {
    type V = NfcEventView;

    open spec fn view(&self) -> NfcEventView {
        match self {
            NfcEvent::NfcRead { employee_id } => NfcEventView::NfcRead {
                employee_id: employee_id@,
            },
            NfcEvent::NfcError { error } => NfcEventView::NfcError { error: error@ },
            NfcEvent::Status { readers, connected, version } => NfcEventView::Status {
                readers: readers@.map_values(|s: String| s@),
                connected: *connected,
                version: version@,
            },
            NfcEvent::NfcDebug { message } => NfcEventView::NfcDebug { message: message@ },
        }
    }
}

/// An optional event by what it stands for.
pub open spec fn option_view(event: Option<NfcEvent>) -> Option<NfcEventView> {
    match event {
        Some(event) => Some(event@),
        None => None,
    }
}

/// The message that carries an event: a flat JSON object, its kind in the `type` member,
/// its data in the members that follow.
pub open spec fn event_json(event: NfcEventView) -> Seq<char> {
    match event {
        NfcEventView::NfcRead { employee_id } => "{\"type\":\"nfc_read\",\"employee_id\":"@
            + json::json_string(employee_id) + "}"@,
        NfcEventView::NfcError { error } => "{\"type\":\"nfc_error\",\"error\":"@
            + json::json_string(error) + "}"@,
        NfcEventView::Status { readers, connected, version } => "{\"type\":\"status\",\"readers\":"@
            + json::json_string_array(readers) + ",\"connected\":"@
            + json::json_bool(connected) + ",\"version\":"@ + json::json_string(
            version,
        ) + "}"@,
        NfcEventView::NfcDebug { message } => "{\"type\":\"nfc_debug\",\"message\":"@
            + json::json_string(message) + "}"@,
    }
}

impl NfcEvent {
    /// The JSON message that carries this event to browser clients.
    pub fn to_json(&self) -> (r: Result<String, serde_json::Error>)
        ensures
            r is Ok,
            r->Ok_0@ == event_json(self@),
    {
        let mut out = String::new();
        match self {
            NfcEvent::NfcRead { employee_id } => {
                out.append("{\"type\":\"nfc_read\",\"employee_id\":");
                json::push_string(&mut out, employee_id.as_str())?;
            },
            NfcEvent::NfcError { error } => {
                out.append("{\"type\":\"nfc_error\",\"error\":");
                json::push_string(&mut out, error.as_str())?;
            },
            NfcEvent::Status { readers, connected, version } => {
                out.append("{\"type\":\"status\",\"readers\":");
                json::push_string_array(&mut out, readers)?;
                out.append(",\"connected\":");
                json::push_bool(&mut out, *connected);
                out.append(",\"version\":");
                json::push_string(&mut out, version.as_str())?;
            },
            NfcEvent::NfcDebug { message } => {
                out.append("{\"type\":\"nfc_debug\",\"message\":");
                json::push_string(&mut out, message.as_str())?;
            },
        }
        out.append("}");
        assert(out@ =~= event_json(self@));
        Ok(out)
    }
}

/// The text in front of an event's data: it opens the object and names the kind of event.
spec fn event_head(event: NfcEventView) -> Seq<char> {
    match event {
        NfcEventView::NfcRead { .. } => "{\"type\":\"nfc_read\",\"employee_id\":"@,
        NfcEventView::NfcError { .. } => "{\"type\":\"nfc_error\",\"error\":"@,
        NfcEventView::Status { .. } => "{\"type\":\"status\",\"readers\":"@,
        NfcEventView::NfcDebug { .. } => "{\"type\":\"nfc_debug\",\"message\":"@,
    }
}

/// The text behind an event's head.
spec fn event_tail(event: NfcEventView) -> Seq<char> {
    match event {
        NfcEventView::NfcRead { employee_id } => json::json_string(employee_id) + "}"@,
        NfcEventView::NfcError { error } => json::json_string(error) + "}"@,
        NfcEventView::Status { readers, connected, version } => json::json_string_array(
            readers,
        ) + status_tail(connected, version),
        NfcEventView::NfcDebug { message } => json::json_string(message) + "}"@,
    }
}

spec fn status_tail(connected: bool, version: Seq<char>) -> Seq<char> {
    ",\"connected\":"@ + (json::json_bool(connected) + (",\"version\":"@
        + (json::json_string(version) + "}"@)))
}

proof fn lemma_event_split(event: NfcEventView)
    ensures
        event_json(event) == event_head(event) + event_tail(event),
{
    assert(event_json(event) =~= event_head(event) + event_tail(event));
}

proof fn lemma_head_names_kind(a: NfcEventView, b: NfcEventView)
    requires
        event_json(a) == event_json(b),
    ensures
        event_head(a) == event_head(b),
        a is NfcRead <==> b is NfcRead,
        a is NfcError <==> b is NfcError,
        a is Status <==> b is Status,
        a is NfcDebug <==> b is NfcDebug,
{
    reveal_strlit("{\"type\":\"nfc_read\",\"employee_id\":");
    reveal_strlit("{\"type\":\"nfc_error\",\"error\":");
    reveal_strlit("{\"type\":\"status\",\"readers\":");
    reveal_strlit("{\"type\":\"nfc_debug\",\"message\":");
    lemma_event_split(a);
    lemma_event_split(b);
    assert(event_json(a)[9] == event_head(a)[9]);
    assert(event_json(b)[9] == event_head(b)[9]);
    assert(event_json(a)[13] == event_head(a)[13]);
    assert(event_json(b)[13] == event_head(b)[13]);
}

proof fn lemma_status_tail_unique(c: bool, v: Seq<char>, d: bool, w: Seq<char>)
    requires
        status_tail(c, v) == status_tail(d, w),
    ensures
        c == d,
        v == w,
{
    let v_end = ",\"version\":"@ + (json::json_string(v) + "}"@);
    let w_end = ",\"version\":"@ + (json::json_string(w) + "}"@);
    let x = json::json_bool(c) + v_end;
    let y = json::json_bool(d) + w_end;
    json::lemma_strip_prefix(",\"connected\":"@, x, y);
    reveal_strlit("true");
    reveal_strlit("false");
    assert(x[0] == json::json_bool(c)[0]);
    assert(y[0] == json::json_bool(d)[0]);
    assert(c == d);
    json::lemma_strip_prefix(json::json_bool(c), v_end, w_end);
    json::lemma_strip_prefix(
        ",\"version\":"@,
        json::json_string(v) + "}"@,
        json::json_string(w) + "}"@,
    );
    json::lemma_string_unique(v, w, "}"@, "}"@);
}

/// A message determines the event it carries: its kind and all of its data can be read back
/// from the text.
pub proof fn law_message_determines_event(a: NfcEventView, b: NfcEventView)
    requires
        event_json(a) == event_json(b),
    ensures
        a == b,
{
    lemma_head_names_kind(a, b);
    lemma_event_split(a);
    lemma_event_split(b);
    json::lemma_strip_prefix(event_head(a), event_tail(a), event_tail(b));
    match (a, b) {
        (NfcEventView::NfcRead { employee_id: s }, NfcEventView::NfcRead { employee_id: t }) => {
            json::lemma_string_unique(s, t, "}"@, "}"@);
        },
        (NfcEventView::NfcError { error: s }, NfcEventView::NfcError { error: t }) => {
            json::lemma_string_unique(s, t, "}"@, "}"@);
        },
        (
            NfcEventView::Status { readers: s, connected: c, version: v },
            NfcEventView::Status { readers: t, connected: d, version: w },
        ) => {
            json::lemma_string_array_unique(s, t, status_tail(c, v), status_tail(d, w));
            lemma_status_tail_unique(c, v, d, w);
        },
        (NfcEventView::NfcDebug { message: s }, NfcEventView::NfcDebug { message: t }) => {
            json::lemma_string_unique(s, t, "}"@, "}"@);
        },
        _ => {},
    }
}

/// The message for a card whose UID was read holds the UID's hexadecimal digits as they are,
/// between quotes.
pub proof fn law_read_message(uid: Seq<u8>)
    ensures
        event_json(NfcEventView::NfcRead { employee_id: text::hex(uid) })
            == "{\"type\":\"nfc_read\",\"employee_id\":\""@ + text::hex(uid) + "\"}"@,
{
    let digits = text::hex(uid);
    text::law_hex_alphabet(uid);
    assert forall|i: int| 0 <= i < digits.len() implies json::is_plain(
        #[trigger] digits[i],
    ) by {}
    json::lemma_plain_string(digits);
    reveal_strlit("{\"type\":\"nfc_read\",\"employee_id\":");
    reveal_strlit("{\"type\":\"nfc_read\",\"employee_id\":\"");
    reveal_strlit("}");
    reveal_strlit("\"}");
    assert(event_json(NfcEventView::NfcRead { employee_id: digits })
        =~= "{\"type\":\"nfc_read\",\"employee_id\":\""@ + digits + "\"}"@);
}

/// The message that tells browser clients that there are no readers.
pub proof fn law_no_readers_message()
    ensures
        event_json(NfcEventView::NfcError { error: "no_readers"@ })
            == "{\"type\":\"nfc_error\",\"error\":\"no_readers\"}"@,
{
    let error = "no_readers"@;
    reveal_strlit("no_readers");
    assert forall|i: int| 0 <= i < error.len() implies json::is_plain(#[trigger] error[i]) by {}
    json::lemma_plain_string(error);
    reveal_strlit("{\"type\":\"nfc_error\",\"error\":");
    reveal_strlit("{\"type\":\"nfc_error\",\"error\":\"no_readers\"}");
    reveal_strlit("}");
    assert(event_json(NfcEventView::NfcError { error })
        =~= "{\"type\":\"nfc_error\",\"error\":\"no_readers\"}"@);
}

/// The message of every event is one flat object: its kind, then its data under the names that
/// browsers expect, whatever the data.
pub proof fn law_message_form(event: NfcEvent)
    ensures
        event matches NfcEvent::NfcRead { employee_id } ==> event_json(event@)
            == "{\"type\":\"nfc_read\",\"employee_id\":"@ + json::json_string(employee_id@) + "}"@,
        event matches NfcEvent::NfcError { error } ==> event_json(event@)
            == "{\"type\":\"nfc_error\",\"error\":"@ + json::json_string(error@) + "}"@,
        event matches NfcEvent::NfcDebug { message } ==> event_json(event@)
            == "{\"type\":\"nfc_debug\",\"message\":"@ + json::json_string(message@) + "}"@,
        event matches NfcEvent::Status { readers, connected, version } ==> event_json(event@)
            == "{\"type\":\"status\",\"readers\":"@ + json::json_string_array(
            readers@.map_values(|s: String| s@),
        ) + ",\"connected\":"@ + (if connected {
            "true"@
        } else {
            "false"@
        }) + ",\"version\":"@ + json::json_string(version@) + "}"@,
{
}

/// An optional event stands for the event.
pub proof fn law_option_view(event: Option<NfcEvent>)
    ensures
        option_view(event) is Some <==> event is Some,
        event is Some ==> option_view(event)->0 == event->0@,
{
}

} // verus!
