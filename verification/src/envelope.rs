//! Envelope protocol: the request/response contract of every indexing
//! backend call. A response body is a tagged JSON envelope, either
//! `{"data": <payload>}` or `{"error": <message>}`. A GET answered with HTTP
//! 404 is a successful absence; a body that is not a well-formed envelope is
//! a client-side fault carrying the raw body for diagnostics; a
//! server-reported error becomes a domain fault. serde_json does the JSON
//! parsing, behind trusted declarations; every decision is made here.

use vstd::prelude::*;

use crate::events::{EmittedEvent, EmittedEventModel, HttpMethod};

verus! {

/// Whether a string is well-formed JSON, as serde_json's parser decides it.
/// The parse outcome depends on the text alone.
pub uninterp spec fn json_text_ok(s: Seq<char>) -> bool;

/// The JSON text of the `data` field of a body, when the body is a JSON
/// object carrying one; a function of the body text alone.
pub uninterp spec fn data_field_of(s: Seq<char>) -> Option<Seq<char>>;

/// The JSON text of the `error` field of a body, when the body is a JSON
/// object carrying one; a function of the body text alone.
pub uninterp spec fn error_field_of(s: Seq<char>) -> Option<Seq<char>>;

/// The model of an optional text.
pub open spec fn text_view(t: Option<String>) -> Option<Seq<char>> {
    match t {
        Some(x) => Some(x@),
        None => None,
    }
}

/// Relies on serde_json::from_str::<Value> and Value::get: whether the body
/// is well-formed JSON (from_str returns `Ok` exactly on well-formed text,
/// deterministically in the text), and the JSON texts (Value's Display form)
/// of the body's `data` and `error` fields, present exactly when the body is
/// a JSON object holding that key. A field can only be present in text that
/// parsed.
#[verifier::external_body]
fn envelope_fields(body: &str) -> (r: (bool, Option<String>, Option<String>))
    ensures
        r.0 == json_text_ok(body@),
        text_view(r.1) == data_field_of(body@),
        text_view(r.2) == error_field_of(body@),
        r.1 is Some ==> r.0,
        r.2 is Some ==> r.0,
{
    match serde_json::from_str::<serde_json::Value>(body) {
        Err(_) => (false, None, None),
        Ok(v) => (
            true,
            v.get("data").map(|f| f.to_string()),
            v.get("error").map(|f| f.to_string()),
        ),
    }
}

/// A decoded response envelope.
#[derive(Debug, Clone, PartialEq, Eq)]
pub enum ResponseEnvelope {
    /// `{"data": <payload>}`; the payload's JSON text.
    DataPayload { payload: String },
    /// `{"error": <message>}`; the message's JSON text.
    ErrorPayload { message: String },
}

pub ghost enum ResponseEnvelopeModel {
    DataPayload { payload: Seq<char> },
    ErrorPayload { message: Seq<char> },
}

impl View for ResponseEnvelope {
    type V = ResponseEnvelopeModel;

    open spec fn view(&self) -> ResponseEnvelopeModel {
        match self {
            ResponseEnvelope::DataPayload { payload } => ResponseEnvelopeModel::DataPayload {
                payload: payload@,
            },
            ResponseEnvelope::ErrorPayload { message } => ResponseEnvelopeModel::ErrorPayload {
                message: message@,
            },
        }
    }
}

/// A failed backend call.
#[derive(Debug, Clone, PartialEq, Eq)]
pub enum ClientFault {
    /// The request could not be sent at all (DNS, connection, timeout).
    SendFailure { detail: String },
    /// A response status outside 2xx (and, for GET, not 404).
    HttpFailure { status: u16, body: String },
    /// The response body was not a well-formed envelope; the raw body.
    UnexpectedResponse { body: String },
    /// The envelope carried a server-reported error.
    ServerReported { message: String },
}

pub ghost enum ClientFaultModel {
    SendFailure { detail: Seq<char> },
    HttpFailure { status: u16, body: Seq<char> },
    UnexpectedResponse { body: Seq<char> },
    ServerReported { message: Seq<char> },
}

impl View for ClientFault {
    type V = ClientFaultModel;

    open spec fn view(&self) -> ClientFaultModel {
        match self {
            ClientFault::SendFailure { detail } => ClientFaultModel::SendFailure {
                detail: detail@,
            },
            ClientFault::HttpFailure { status, body } => ClientFaultModel::HttpFailure {
                status: *status,
                body: body@,
            },
            ClientFault::UnexpectedResponse { body } => ClientFaultModel::UnexpectedResponse {
                body: body@,
            },
            ClientFault::ServerReported { message } => ClientFaultModel::ServerReported {
                message: message@,
            },
        }
    }
}

/// Outcome of a GET: the resource, its designed absence, or a fault.
#[derive(Debug, Clone, PartialEq, Eq)]
pub enum GetOutcome {
    Absent,
    Payload { payload: String },
    Fault { fault: ClientFault },
}

pub ghost enum GetOutcomeModel {
    Absent,
    Payload { payload: Seq<char> },
    Fault { fault: ClientFaultModel },
}

impl View for GetOutcome {
    type V = GetOutcomeModel;

    open spec fn view(&self) -> GetOutcomeModel {
        match self {
            GetOutcome::Absent => GetOutcomeModel::Absent,
            GetOutcome::Payload { payload } => GetOutcomeModel::Payload { payload: payload@ },
            GetOutcome::Fault { fault } => GetOutcomeModel::Fault { fault: fault@ },
        }
    }
}

/// Outcome of a PUT: acceptance (with the success payload's text) or a
/// fault. A PUT has no absence case.
#[derive(Debug, Clone, PartialEq, Eq)]
pub enum PutOutcome {
    Accepted { payload: String },
    Fault { fault: ClientFault },
}

pub ghost enum PutOutcomeModel {
    Accepted { payload: Seq<char> },
    Fault { fault: ClientFaultModel },
}

impl View for PutOutcome {
    type V = PutOutcomeModel;

    open spec fn view(&self) -> PutOutcomeModel {
        match self {
            PutOutcome::Accepted { payload } => PutOutcomeModel::Accepted { payload: payload@ },
            PutOutcome::Fault { fault } => PutOutcomeModel::Fault { fault: fault@ },
        }
    }
}

/// The model of an optional envelope.
pub open spec fn envelope_view(e: Option<ResponseEnvelope>) -> Option<ResponseEnvelopeModel> {
    match e {
        Some(x) => Some(x@),
        None => None,
    }
}

/// The envelope a body text decodes to: its `data` field when present, else
/// its `error` field, else nothing (a malformed envelope).
pub open spec fn spec_envelope(s: Seq<char>) -> Option<ResponseEnvelopeModel> {
    match data_field_of(s) {
        Some(payload) => Some(ResponseEnvelopeModel::DataPayload { payload }),
        None => match error_field_of(s) {
            Some(message) => Some(ResponseEnvelopeModel::ErrorPayload { message }),
            None => None,
        },
    }
}

/// Decodes a response body into an envelope: well-formed JSON whose object
/// carries `data`, else `error`. `None` is a malformed envelope; text that
/// is not JSON at all is never an envelope.
pub fn decode_envelope(body: &str) -> (r: Option<ResponseEnvelope>)
    ensures
        envelope_view(r) == spec_envelope(body@),
        r is Some ==> json_text_ok(body@),
        !json_text_ok(body@) ==> r is None,
{
    let (_well_formed, data, error) = envelope_fields(body);
    match data {
        Some(payload) => Some(ResponseEnvelope::DataPayload { payload }),
        None => match error {
            Some(message) => Some(ResponseEnvelope::ErrorPayload { message }),
            None => None,
        },
    }
}

/// Whether the status is a success (2xx).
pub open spec fn status_is_success(status: u16) -> bool {
    200 <= status && status < 300
}

/// The GET interpretation: 404 is absence with no event; any other
/// non-2xx status is a fault carrying status and body; a 2xx body is decoded
/// as an envelope — a malformed one is a fault carrying the raw body, a
/// server-reported error is a domain fault, a data payload is the resource.
/// Every fault comes with exactly one warning event.
pub open spec fn spec_classify_get(
    status: u16,
    url: Seq<char>,
    body: Seq<char>,
    env: Option<ResponseEnvelopeModel>,
) -> (GetOutcomeModel, Seq<EmittedEventModel>) {
    if status == 404 {
        (GetOutcomeModel::Absent, Seq::empty())
    } else if !status_is_success(status) {
        (
            GetOutcomeModel::Fault { fault: ClientFaultModel::HttpFailure { status, body } },
            seq![EmittedEventModel::UnexpectedResponse { method: HttpMethod::Get, url, body }],
        )
    } else {
        match env {
            None => (
                GetOutcomeModel::Fault { fault: ClientFaultModel::UnexpectedResponse { body } },
                seq![
                    EmittedEventModel::UnexpectedResponse { method: HttpMethod::Get, url, body },
                ],
            ),
            Some(ResponseEnvelopeModel::ErrorPayload { message }) => (
                GetOutcomeModel::Fault { fault: ClientFaultModel::ServerReported { message } },
                seq![
                    EmittedEventModel::ServerReportedError {
                        method: HttpMethod::Get,
                        url,
                        message,
                    },
                ],
            ),
            Some(ResponseEnvelopeModel::DataPayload { payload }) => (
                GetOutcomeModel::Payload { payload },
                Seq::empty(),
            ),
        }
    }
}

/// The PUT interpretation: as GET, except a 404 is no special case —
/// any non-2xx status is a fault.
pub open spec fn spec_classify_put(
    status: u16,
    url: Seq<char>,
    body: Seq<char>,
    env: Option<ResponseEnvelopeModel>,
) -> (PutOutcomeModel, Seq<EmittedEventModel>) {
    if !status_is_success(status) {
        (
            PutOutcomeModel::Fault { fault: ClientFaultModel::HttpFailure { status, body } },
            seq![EmittedEventModel::UnexpectedResponse { method: HttpMethod::Put, url, body }],
        )
    } else {
        match env {
            None => (
                PutOutcomeModel::Fault { fault: ClientFaultModel::UnexpectedResponse { body } },
                seq![
                    EmittedEventModel::UnexpectedResponse { method: HttpMethod::Put, url, body },
                ],
            ),
            Some(ResponseEnvelopeModel::ErrorPayload { message }) => (
                PutOutcomeModel::Fault { fault: ClientFaultModel::ServerReported { message } },
                seq![
                    EmittedEventModel::ServerReportedError {
                        method: HttpMethod::Put,
                        url,
                        message,
                    },
                ],
            ),
            Some(ResponseEnvelopeModel::DataPayload { payload }) => (
                PutOutcomeModel::Accepted { payload },
                Seq::empty(),
            ),
        }
    }
}

/// Classifies a GET response from its status, body and decoded envelope.
pub fn classify_get(status: u16, url: &str, body: String, env: Option<ResponseEnvelope>) -> (r: (
    GetOutcome,
    Vec<EmittedEvent>,
))
    ensures
        r.0@ == spec_classify_get(
            status,
            url@,
            body@,
            match env {
                Some(e) => Some(e@),
                None => None,
            },
        ).0,
        r.1.deep_view() == spec_classify_get(
            status,
            url@,
            body@,
            match env {
                Some(e) => Some(e@),
                None => None,
            },
        ).1,
{
    let ghost envm: Option<ResponseEnvelopeModel> = match &env {
        Some(e) => Some(e@),
        None => None,
    };
    if status == 404 {
        (GetOutcome::Absent, Vec::new())
    } else if !(200 <= status && status < 300) {
        let mut events: Vec<EmittedEvent> = Vec::new();
        events.push(
            EmittedEvent::UnexpectedResponse {
                method: HttpMethod::Get,
                url: url.to_owned(),
                body: body.clone(),
            },
        );
        let r = (
            GetOutcome::Fault { fault: ClientFault::HttpFailure { status, body } },
            events,
        );
        assert(r.1.deep_view() =~= spec_classify_get(status, url@, body@, envm).1);
        r
    } else {
        match env {
            None => {
                let mut events: Vec<EmittedEvent> = Vec::new();
                events.push(
                    EmittedEvent::UnexpectedResponse {
                        method: HttpMethod::Get,
                        url: url.to_owned(),
                        body: body.clone(),
                    },
                );
                let r = (
                    GetOutcome::Fault { fault: ClientFault::UnexpectedResponse { body } },
                    events,
                );
                assert(r.1.deep_view() =~= spec_classify_get(status, url@, body@, envm).1);
                r
            },
            Some(ResponseEnvelope::ErrorPayload { message }) => {
                let mut events: Vec<EmittedEvent> = Vec::new();
                events.push(
                    EmittedEvent::ServerReportedError {
                        method: HttpMethod::Get,
                        url: url.to_owned(),
                        message: message.clone(),
                    },
                );
                let r = (
                    GetOutcome::Fault { fault: ClientFault::ServerReported { message } },
                    events,
                );
                assert(r.1.deep_view() =~= spec_classify_get(status, url@, body@, envm).1);
                r
            },
            Some(ResponseEnvelope::DataPayload { payload }) => (
                GetOutcome::Payload { payload },
                Vec::new(),
            ),
        }
    }
}

/// Classifies a PUT response from its status, body and decoded envelope.
pub fn classify_put(status: u16, url: &str, body: String, env: Option<ResponseEnvelope>) -> (r: (
    PutOutcome,
    Vec<EmittedEvent>,
))
    ensures
        r.0@ == spec_classify_put(
            status,
            url@,
            body@,
            match env {
                Some(e) => Some(e@),
                None => None,
            },
        ).0,
        r.1.deep_view() == spec_classify_put(
            status,
            url@,
            body@,
            match env {
                Some(e) => Some(e@),
                None => None,
            },
        ).1,
{
    let ghost envm: Option<ResponseEnvelopeModel> = match &env {
        Some(e) => Some(e@),
        None => None,
    };
    if !(200 <= status && status < 300) {
        let mut events: Vec<EmittedEvent> = Vec::new();
        events.push(
            EmittedEvent::UnexpectedResponse {
                method: HttpMethod::Put,
                url: url.to_owned(),
                body: body.clone(),
            },
        );
        let r = (
            PutOutcome::Fault { fault: ClientFault::HttpFailure { status, body } },
            events,
        );
        assert(r.1.deep_view() =~= spec_classify_put(status, url@, body@, envm).1);
        r
    } else {
        match env {
            None => {
                let mut events: Vec<EmittedEvent> = Vec::new();
                events.push(
                    EmittedEvent::UnexpectedResponse {
                        method: HttpMethod::Put,
                        url: url.to_owned(),
                        body: body.clone(),
                    },
                );
                let r = (
                    PutOutcome::Fault { fault: ClientFault::UnexpectedResponse { body } },
                    events,
                );
                assert(r.1.deep_view() =~= spec_classify_put(status, url@, body@, envm).1);
                r
            },
            Some(ResponseEnvelope::ErrorPayload { message }) => {
                let mut events: Vec<EmittedEvent> = Vec::new();
                events.push(
                    EmittedEvent::ServerReportedError {
                        method: HttpMethod::Put,
                        url: url.to_owned(),
                        message: message.clone(),
                    },
                );
                let r = (
                    PutOutcome::Fault { fault: ClientFault::ServerReported { message } },
                    events,
                );
                assert(r.1.deep_view() =~= spec_classify_put(status, url@, body@, envm).1);
                r
            },
            Some(ResponseEnvelope::DataPayload { payload }) => (
                PutOutcome::Accepted { payload },
                Vec::new(),
            ),
        }
    }
}

/// Interprets a GET response: decodes the body as an envelope and
/// classifies. The first two clauses pin every case exactly through the
/// decoded envelope of the body; the rest restate the cases the protocol
/// singles out: 404 is absence with no event and no error, a non-JSON
/// success body is a client-side fault with one warning carrying the raw
/// body, and a server-reported error envelope is a domain fault with one
/// warning.
pub fn interpret_get_response(url: &str, status: u16, body: String) -> (r: (
    GetOutcome,
    Vec<EmittedEvent>,
))
    ensures
        r.0@ == spec_classify_get(status, url@, body@, spec_envelope(body@)).0,
        r.1.deep_view() == spec_classify_get(status, url@, body@, spec_envelope(body@)).1,
        status == 404 ==> r.0@ == GetOutcomeModel::Absent && r.1.deep_view() == Seq::<
            EmittedEventModel,
        >::empty(),
        status != 404 && !status_is_success(status) ==> r.0@ == (GetOutcomeModel::Fault {
            fault: ClientFaultModel::HttpFailure { status, body: body@ },
        }) && r.1.deep_view() == seq![
            EmittedEventModel::UnexpectedResponse {
                method: HttpMethod::Get,
                url: url@,
                body: body@,
            },
        ],
        status_is_success(status) && !json_text_ok(body@) ==> r.0@ == (GetOutcomeModel::Fault {
            fault: ClientFaultModel::UnexpectedResponse { body: body@ },
        }) && r.1.deep_view() == seq![
            EmittedEventModel::UnexpectedResponse {
                method: HttpMethod::Get,
                url: url@,
                body: body@,
            },
        ],
        status != 404 && status_is_success(status) ==> (spec_envelope(body@) matches Some(
            ResponseEnvelopeModel::ErrorPayload { message },
        ) ==> r.0@ == (GetOutcomeModel::Fault {
            fault: ClientFaultModel::ServerReported { message },
        }) && r.1.deep_view() == seq![
            EmittedEventModel::ServerReportedError {
                method: HttpMethod::Get,
                url: url@,
                message,
            },
        ]),
{
    let env = decode_envelope(body.as_str());
    classify_get(status, url, body, env)
}

/// Interprets a PUT response: decodes the body as an envelope and
/// classifies. The first two clauses pin every case exactly through the
/// decoded envelope of the body. A failed PUT is always a fault, never an
/// absence; a server-reported error envelope is a domain fault with one
/// warning.
pub fn interpret_put_response(url: &str, status: u16, body: String) -> (r: (
    PutOutcome,
    Vec<EmittedEvent>,
))
    ensures
        r.0@ == spec_classify_put(status, url@, body@, spec_envelope(body@)).0,
        r.1.deep_view() == spec_classify_put(status, url@, body@, spec_envelope(body@)).1,
        !status_is_success(status) ==> r.0@ == (PutOutcomeModel::Fault {
            fault: ClientFaultModel::HttpFailure { status, body: body@ },
        }) && r.1.deep_view() == seq![
            EmittedEventModel::UnexpectedResponse {
                method: HttpMethod::Put,
                url: url@,
                body: body@,
            },
        ],
        status_is_success(status) && !json_text_ok(body@) ==> r.0@ == (PutOutcomeModel::Fault {
            fault: ClientFaultModel::UnexpectedResponse { body: body@ },
        }) && r.1.deep_view() == seq![
            EmittedEventModel::UnexpectedResponse {
                method: HttpMethod::Put,
                url: url@,
                body: body@,
            },
        ],
        status_is_success(status) ==> (spec_envelope(body@) matches Some(
            ResponseEnvelopeModel::ErrorPayload { message },
        ) ==> r.0@ == (PutOutcomeModel::Fault {
            fault: ClientFaultModel::ServerReported { message },
        }) && r.1.deep_view() == seq![
            EmittedEventModel::ServerReportedError {
                method: HttpMethod::Put,
                url: url@,
                message,
            },
        ]),
{
    let env = decode_envelope(body.as_str());
    classify_put(status, url, body, env)
}

/// The authentication attached to a request: a bearer token exactly when
/// the configured token is non-empty.
pub fn request_auth(token: &str) -> (r: Option<String>)
    ensures
        r is Some <==> token@.len() > 0,
        r matches Some(t) ==> t@ == token@,
{
    if token.unicode_len() == 0 {
        None
    } else {
        Some(token.to_owned())
    }
}

/// The debug event emitted before a request is sent: method and URL,
/// and for a PUT the outgoing body, captured without being consumed.
pub fn dispatch_event(method: HttpMethod, url: &str, body: Option<&str>) -> (e: EmittedEvent)
    ensures
        e@ == (EmittedEventModel::RequestDispatched {
            method,
            url: url@,
            body: match body {
                Some(b) => Some(b@),
                None => None,
            },
        }),
{
    EmittedEvent::RequestDispatched {
        method,
        url: url.to_owned(),
        body: match body {
            Some(b) => Some(b.to_owned()),
            None => None,
        },
    }
}

/// The fault and warning event for a request that could not be sent.
/// A send failure is the transport-level case the caller's retry policy
/// treats as recoverable.
pub fn send_failure(method: HttpMethod, url: &str, detail: String) -> (r: (
    ClientFault,
    EmittedEvent,
))
    ensures
        r.0@ == (ClientFaultModel::SendFailure { detail: detail@ }),
        r.1@ == (EmittedEventModel::SendFailed { method, url: url@, detail: detail@ }),
{
    let event = EmittedEvent::SendFailed {
        method,
        url: url.to_owned(),
        detail: detail.clone(),
    };
    (ClientFault::SendFailure { detail }, event)
}

} // verus!
