//! The JSON-RPC side of talking to rust-analyzer: request numbering, the
//! messages sent, and which reply answers a request.
use vstd::prelude::*;
use crate::json::{member, member_seq, object, or_null, Json, JsonNumber, JsonValue};
use crate::text::starts_with;

use crate::wire::{json_parse, parse_json};

verus! {

/// The numbers given to requests, counting up from 1.
pub struct RequestIds {
    next: u32,
}

impl RequestIds {
    /// The number the next request gets.
    pub closed spec fn upcoming(&self) -> u32 {
        self.next
    }

    /// Numbering that starts at 1.
    pub fn new() -> (r: RequestIds)
        ensures
            r.upcoming() == 1,
    {
        RequestIds { next: 1 }
    }

    /// The number the next request gets, without taking it.
    pub fn peek(&self) -> (r: u32)
        ensures
            r == self.upcoming(),
    {
        self.next
    }

    /// Takes the next number.
    pub fn next_id(&mut self) -> (r: u32)
        requires
            old(self).upcoming() < u32::MAX,
        ensures
            r == old(self).upcoming(),
            final(self).upcoming() == r + 1,
    {
        let current = self.next;
        self.next = current + 1;
        current
    }
}

/// Law: numbers taken one after another are strictly increasing, so no two
/// requests share a number.
pub proof fn law_request_ids_increase(first: u32, second: u32, upcoming_after_first: u32)
    requires
        upcoming_after_first == first + 1,
        second >= upcoming_after_first,
    ensures
        first < second,
{
}

/// `{"jsonrpc": "2.0", "id": id, "method": method, "params": params}`.
pub open spec fn request_message(id: u32, method: Seq<char>, params: Json) -> Json {
    Json::Object(
        seq![
            ("jsonrpc"@, Json::Str("2.0"@)),
            ("id"@, Json::PosInt(id as u64)),
            ("method"@, Json::Str(method)),
            ("params"@, params),
        ],
    )
}

/// `{"jsonrpc": "2.0", "method": method, "params": params}`.
pub open spec fn notification_message(method: Seq<char>, params: Json) -> Json {
    Json::Object(
        seq![
            ("jsonrpc"@, Json::Str("2.0"@)),
            ("method"@, Json::Str(method)),
            ("params"@, params),
        ],
    )
}

/// The request message numbered `id`.
pub fn build_request(id: u32, method: &str, params: JsonValue) -> (r: JsonValue)
    ensures
        r.view() == request_message(id, method@, params.view()),
{
    let ghost pv = params.view();
    let m = vec![
        member("jsonrpc", JsonValue::string("2.0")),
        member("id", JsonValue::Number(JsonNumber::PosInt(id as u64))),
        member("method", JsonValue::string(method)),
        member("params", params),
    ];
    proof {
        assert(member_seq(m@) =~= seq![
            ("jsonrpc"@, Json::Str("2.0"@)),
            ("id"@, Json::PosInt(id as u64)),
            ("method"@, Json::Str(method@)),
            ("params"@, pv),
        ]);
    }
    object(m)
}

/// The notification message.
pub fn build_notification(method: &str, params: JsonValue) -> (r: JsonValue)
    ensures
        r.view() == notification_message(method@, params.view()),
{
    let ghost pv = params.view();
    let m = vec![
        member("jsonrpc", JsonValue::string("2.0")),
        member("method", JsonValue::string(method)),
        member("params", params),
    ];
    proof {
        assert(member_seq(m@) =~= seq![
            ("jsonrpc"@, Json::Str("2.0"@)),
            ("method"@, Json::Str(method@)),
            ("params"@, pv),
        ]);
    }
    object(m)
}

/// What a message read from rust-analyzer is to a request that waits.
pub enum ResponseMatch {
    /// Some other message: keep reading.
    Other,
    /// The reply, reporting this error.
    Failure(JsonValue),
    /// The reply, with this result (`null` when it has none).
    Success(JsonValue),
}

/// Whether `msg` answers the request numbered `id`.
pub open spec fn answers(msg: Json, id: u32) -> bool {
    msg.field_u64("id"@) == Some(id as u64)
}

/// How `match_response` sorts a message for the request numbered `id`.
pub open spec fn sorted_as(msg: Json, id: u32, r: ResponseMatch) -> bool {
    &&& !answers(msg, id) ==> r is Other
    &&& answers(msg, id) && msg.field("error"@) is Some ==> (r matches ResponseMatch::Failure(e)
        && Some(e.view()) == msg.field("error"@))
    &&& answers(msg, id) && msg.field("error"@) is None ==> (r matches ResponseMatch::Success(v)
        && v.view() == or_null(msg.field("result"@)))
}

/// Sorts a message read while waiting for the reply to request `expected_id`:
/// a message whose numeric `id` is that number is the reply; its `error`
/// makes it a failure, else its `result` is the outcome.
pub fn match_response(msg: &JsonValue, expected_id: u32) -> (r: ResponseMatch)
    ensures
        sorted_as(msg.view(), expected_id, r),
{
    match msg.get_u64("id") {
        Some(id) => {
            if id == expected_id as u64 {
                match msg.get_cloned("error") {
                    Some(e) => ResponseMatch::Failure(e),
                    None => ResponseMatch::Success(
                        match msg.get_cloned("result") {
                            Some(v) => v,
                            None => JsonValue::Null,
                        },
                    ),
                }
            } else {
                ResponseMatch::Other
            }
        },
        None => ResponseMatch::Other,
    }
}

/// Reads a framed message body as JSON and sorts it for the request
/// numbered `expected_id`; `None` when the body is not JSON.
pub fn match_response_bytes(body: &[u8], expected_id: u32) -> (r: Option<ResponseMatch>)
    ensures
        match json_parse(body@) {
            Some(m) => r matches Some(x) && sorted_as(m, expected_id, x),
            None => r is None,
        },
{
    match parse_json(body) {
        Some(msg) => Some(match_response(&msg, expected_id)),
        None => None,
    }
}

/// `Value::as_str` of a result, the empty text when it is not a string.
pub fn text_or_empty(v: &JsonValue) -> (r: String)
    ensures
        r@ == match v.view().as_str() {
            Some(s) => s,
            None => Seq::empty(),
        },
{
    match v.as_str() {
        Some(s) => String::from_str(s),
        None => String::new(),
    }
}

/// The text of the URL that `url::Url::from_file_path` makes of a path.
pub uninterp spec fn file_url_of(path: Seq<char>) -> Option<Seq<char>>;

/// `url::Url::from_file_path`, written out as text: `None` where the crate
/// refuses the path (one that is not absolute, and on Windows one without a
/// disk or UNC prefix). The URL text always begins with `file://`; what
/// follows (the percent-encoded path) is not stated.
#[verifier::external_body]
pub(crate) fn file_url(path: &str) -> (r: Option<String>)
    ensures
        match r {
            Some(u) => file_url_of(path@) == Some(u@),
            None => file_url_of(path@) is None,
        },
        r matches Some(u) ==> starts_with(u@, "file://"@),
{
    match url::Url::from_file_path(path) {
        Ok(u) => Some(String::from(u)),
        Err(_) => None,
    }
}

/// `{"textDocument": {"uri": uri}, "position": {"line": line, "character": column}}`.
pub open spec fn position_params(uri: Seq<char>, line: u32, column: u32) -> Json {
    Json::Object(
        seq![
            ("textDocument"@, Json::Object(seq![("uri"@, Json::Str(uri))])),
            (
                "position"@,
                Json::Object(
                    seq![
                        ("line"@, Json::PosInt(line as u64)),
                        ("character"@, Json::PosInt(column as u64)),
                    ],
                ),
            ),
        ],
    )
}

fn document_value(uri: String) -> (r: JsonValue)
    ensures
        r.view() == Json::Object(seq![("uri"@, Json::Str(uri@))]),
{
    let ghost u = uri@;
    let m = vec![(String::from_str("uri"), JsonValue::Str(uri))];
    proof {
        assert(member_seq(m@) =~= seq![("uri"@, Json::Str(u))]);
    }
    object(m)
}

/// The parameters of a request at a position in the file `uri`.
pub fn position_params_value(uri: String, line: u32, column: u32) -> (r: JsonValue)
    ensures
        r.view() == position_params(uri@, line, column),
{
    let doc = document_value(uri);
    let ghost dv = doc.view();
    let pos = vec![
        member("line", JsonValue::Number(JsonNumber::PosInt(line as u64))),
        member("character", JsonValue::Number(JsonNumber::PosInt(column as u64))),
    ];
    proof {
        assert(member_seq(pos@) =~= seq![
            ("line"@, Json::PosInt(line as u64)),
            ("character"@, Json::PosInt(column as u64)),
        ]);
    }
    let p = object(pos);
    let ghost pv = p.view();
    let m = vec![member("textDocument", doc), member("position", p)];
    proof {
        assert(member_seq(m@) =~= seq![("textDocument"@, dv), ("position"@, pv)]);
    }
    object(m)
}

/// The parameters of a rust-analyzer request at a position in the file
/// `path`: `None` when the path has no file URL.
pub fn text_document_position(path: &str, line: u32, column: u32) -> (r: Option<JsonValue>)
    ensures
        match file_url_of(path@) {
            Some(u) => r matches Some(v) && v.view() == position_params(u, line, column),
            None => r is None,
        },
{
    match file_url(path) {
        Some(uri) => Some(position_params_value(uri, line, column)),
        None => None,
    }
}

/// The parameters of a `rust-analyzer/runnables` request: `{"textDocument":
/// {"uri": ..}}` for a file, `{"textDocument": null}` for the whole
/// workspace; `None` when the file has no URL.
pub fn runnables_params(path: Option<&str>) -> (r: Option<JsonValue>)
    ensures
        path is None ==> (r matches Some(v) && v.view() == Json::Object(
            seq![("textDocument"@, Json::Null)],
        )),
        path matches Some(p) ==> match file_url_of(p@) {
            Some(u) => r matches Some(v) && v.view() == Json::Object(
                seq![("textDocument"@, Json::Object(seq![("uri"@, Json::Str(u))]))],
            ),
            None => r is None,
        },
{
    match path {
        Some(p) => match file_url(p) {
            Some(uri) => {
                let ghost u = uri@;
                let doc = document_value(uri);
                let ghost dv = doc.view();
                let m = vec![member("textDocument", doc)];
                proof {
                    assert(member_seq(m@) =~= seq![("textDocument"@, dv)]);
                }
                Some(object(m))
            },
            None => None,
        },
        None => {
            let m = vec![member("textDocument", JsonValue::Null)];
            proof {
                assert(member_seq(m@) =~= seq![("textDocument"@, Json::Null)]);
            }
            Some(object(m))
        },
    }
}

} // verus!
