//! The exchange with the pilot service that counts tokens precisely, and the
//! rewrite of the request headers that carries a count upstream.

use vstd::prelude::*;
use crate::json::{JsonValue, get_member, json_get, parse_json, parsed_json};
use crate::config::PilotConfig;
use crate::table::{NameTable, pairs_map, distinct_names};

verus! {

/// How long, in seconds, the plugin waits for the pilot's reply.
pub const DEFAULT_TIME_OUT: u64 = 2 * 60 * 1000;

/// The HTTP method of a call to the pilot.
pub enum HttpMethod {
    Post,
}

/// The call that asks the pilot for a precise count: the service to reach,
/// the method, path, request headers and body, and the time to wait.
pub struct PilotCall {
    pub service_name: String,
    pub service_domain: String,
    pub service_port: u16,
    pub method: HttpMethod,
    pub path: String,
    pub headers: Vec<(String, String)>,
    pub body: Vec<u8>,
    pub timeout_secs: u64,
}

/// `call` is the call to the pilot configured in `pilot` that forwards
/// `body`: a `POST` to the configured service and path, with a JSON content
/// type, the body as it stands, and the plugin's time-out.
pub open spec fn describes_pilot_call(pilot: PilotConfig, body: Seq<u8>, call: PilotCall) -> bool {
    &&& call.service_name@ == pilot.service_name@
    &&& call.service_domain@ == pilot.service_domain@
    &&& pilot.service_port == Some(call.service_port)
    &&& call.method is Post
    &&& call.path@ == pilot.service_path@
    &&& call.headers@.len() == 1
    &&& call.headers@[0].0@ == "Content-Type"@
    &&& call.headers@[0].1@ == "application/json"@
    &&& call.body@ == body
    &&& call.timeout_secs == DEFAULT_TIME_OUT
}

/// The call to the pilot configured in `pilot` that forwards the request
/// `body`; a pilot without a port cannot be called.
pub fn pilot_call(pilot: &PilotConfig, body: &[u8]) -> (r: PilotCall)
    requires
        pilot.service_port is Some,
    ensures
        describes_pilot_call(*pilot, body@, r),
        r.body@ == body@,
        r.method is Post,
        pilot.service_port == Some(r.service_port),
{
    let mut headers: Vec<(String, String)> = Vec::new();
    headers.push((String::from_str("Content-Type"), String::from_str("application/json")));
    let port = match pilot.service_port {
        Some(p) => p,
        None => 0,
    };
    let mut copy: Vec<u8> = Vec::new();
    let mut i: usize = 0;
    while i < body.len()
        invariant
            i <= body@.len(),
            copy@ == body@.take(i as int),
        decreases body.len() - i,
    {
        copy.push(body[i]);
        proof {
            assert(body@.take(i + 1) =~= body@.take(i as int).push(body@[i as int]));
        }
        i += 1;
    }
    assert(body@.take(i as int) =~= body@);
    PilotCall {
        service_name: pilot.service_name.clone(),
        service_domain: pilot.service_domain.clone(),
        service_port: port,
        method: HttpMethod::Post,
        path: pilot.service_path.clone(),
        headers,
        body: copy,
        timeout_secs: DEFAULT_TIME_OUT,
    }
}

/// What the request-body phase answers the host once it has tried to send
/// the pilot call.
pub enum DataStep {
    /// Let the request go on.
    Continue,
    /// Hold and buffer the request until the pilot's reply resumes it.
    StopIterationAndBuffer,
}

/// The answer to the host after the pilot call: hold and buffer the request
/// when the host accepted the call, let it go on when it refused it.
pub fn dispatch_step(dispatched: bool) -> (r: DataStep)
    ensures
        (r is StopIterationAndBuffer) == dispatched,
{
    if dispatched {
        DataStep::StopIterationAndBuffer
    } else {
        DataStep::Continue
    }
}

/// What the plugin does with the pilot's reply.
pub enum PilotReply {
    /// The reply body is not JSON: resume the response.
    BadBody,
    /// The reply status is not 200: resume the response.
    BadStatus,
    /// Use the count: the text of the reply's numeric `data` member, or
    /// `None` when it has none (the count is then zero).
    Precise(Option<String>),
}

/// The text of the numeric `data` member of a reply document.
pub open spec fn reply_data(doc: JsonValue) -> Option<Seq<char>> {
    match json_get(doc, "data"@) {
        Some(JsonValue::Number(n)) => Some(n@),
        _ => None,
    }
}

/// What a reply with this status and parsed body leads to: a body that did
/// not parse, then a status other than 200, resume the response; otherwise
/// the count in `data` is used.
pub open spec fn reply_outcome(status_code: u16, doc: Option<JsonValue>, r: PilotReply) -> bool {
    match doc {
        None => r is BadBody,
        Some(d) => if status_code != 200 {
            r is BadStatus
        } else {
            r matches PilotReply::Precise(x) && match x {
                Some(t) => reply_data(d) == Some(t@),
                None => reply_data(d) is None,
            }
        },
    }
}

/// The bytes of a reply body; no body reads as no bytes.
pub open spec fn reply_bytes(body: Option<Vec<u8>>) -> Seq<u8> {
    match body {
        Some(b) => b@,
        None => Seq::empty(),
    }
}

/// The decision on a reply whose body has been parsed.
pub fn reply_from_document(status_code: u16, doc: &Option<JsonValue>) -> (r: PilotReply)
    ensures
        reply_outcome(status_code, *doc, r),
        (*doc is None) <==> (r is BadBody),
        (*doc is Some && status_code != 200) <==> (r is BadStatus),
        (*doc is Some && status_code == 200) <==> (r is Precise),
{
    match doc {
        None => PilotReply::BadBody,
        Some(d) => {
            if status_code != 200 {
                return PilotReply::BadStatus;
            }
            match get_member(d, "data") {
                Some(JsonValue::Number(n)) => PilotReply::Precise(Some(n.clone())),
                _ => PilotReply::Precise(None),
            }
        },
    }
}

/// The decision on the pilot's reply, as the reply callback takes it.
pub fn pilot_reply(status_code: u16, body: Option<Vec<u8>>) -> (r: PilotReply)
    ensures
        reply_outcome(status_code, parsed_json(reply_bytes(body)), r),
        (parsed_json(reply_bytes(body)) is None) <==> (r is BadBody),
        (parsed_json(reply_bytes(body)) is Some && status_code != 200) <==> (r is BadStatus),
{
    let bytes = match body {
        Some(b) => b,
        None => Vec::new(),
    };
    let doc = parse_json(bytes.as_slice());
    reply_from_document(status_code, &doc)
}

/// The request headers with `name` set to `value`: the headers are first
/// gathered by name, a later value replacing an earlier one, then `name` is
/// set; each name occurs once in the result.
pub fn headers_with(headers: Vec<(String, String)>, name: &str, value: String) -> (r: Vec<(String, String)>)
    ensures
        distinct_names(r@),
        pairs_map(r@) == pairs_map(headers@).insert(name@, value),
{
    let mut table: NameTable<String> = NameTable::new();
    let mut i: usize = 0;
    assert(headers@.take(0) =~= Seq::<(String, String)>::empty());
    while i < headers.len()
        invariant
            i <= headers@.len(),
            table.wf(),
            table.view() == pairs_map(headers@.take(i as int)),
        decreases headers.len() - i,
    {
        let k = headers[i].0.clone();
        let v = headers[i].1.clone();
        table.insert(k, v);
        proof {
            let t = headers@.take(i + 1);
            assert(t.drop_last() =~= headers@.take(i as int));
        }
        i += 1;
    }
    assert(headers@.take(i as int) =~= headers@);
    table.insert(String::from_str(name), value);
    proof {
        table.lemma_entries();
    }
    table.into_entries()
}

} // verus!
