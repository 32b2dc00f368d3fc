//! The protocol codec: the JSON-RPC request and response envelopes, the
//! extraction of a request from a parsed document, and the serialization
//! of a response back into a document.

use vstd::prelude::*;

use crate::json::json_text;
use crate::json::json_view;
use crate::json::lemma_obj_view;
use crate::json::obj_get;
use crate::json::obj_lookup;
use crate::json::obj_view;
use crate::json::Json;
use crate::json::JsonV;
use crate::text::json_to_string;

verus! {

/// The protocol marker every envelope carries.
pub open spec fn k_two() -> Seq<char> {
    ("2.0")@
}

pub open spec fn k_jsonrpc() -> Seq<char> {
    ("jsonrpc")@
}

pub open spec fn k_id() -> Seq<char> {
    ("id")@
}

pub open spec fn k_method() -> Seq<char> {
    ("method")@
}

pub open spec fn k_params() -> Seq<char> {
    ("params")@
}

pub open spec fn k_result() -> Seq<char> {
    ("result")@
}

pub open spec fn k_error() -> Seq<char> {
    ("error")@
}

pub open spec fn k_code() -> Seq<char> {
    ("code")@
}

pub open spec fn k_message() -> Seq<char> {
    ("message")@
}

pub open spec fn k_data() -> Seq<char> {
    ("data")@
}

/// The mathematical value of an error report.
pub struct ErrV {
    pub code: int,
    pub message: Seq<char>,
    pub data: Option<JsonV>,
}

/// The mathematical value of a request envelope.
pub struct ReqV {
    pub jsonrpc: Seq<char>,
    pub id: Option<JsonV>,
    pub method: Seq<char>,
    pub params: Option<JsonV>,
}

/// The mathematical value of a response envelope.
pub struct RespV {
    pub jsonrpc: Seq<char>,
    pub id: Option<JsonV>,
    pub result: Option<JsonV>,
    pub error: Option<ErrV>,
}

/// A JSON-RPC error report: a numeric code, a human-readable message and
/// optional structured data.
pub struct MCPError {
    pub code: i32,
    pub message: String,
    pub data: Option<Json>,
}

/// A JSON-RPC request envelope. A request without an identifier is a
/// notification: an answer is computed but, by convention, not sent.
pub struct MCPRequest {
    pub jsonrpc: String,
    pub id: Option<Json>,
    pub method: String,
    pub params: Option<Json>,
}

/// A JSON-RPC response envelope: the echoed identifier and exactly one of
/// a result or an error.
pub struct MCPResponse {
    pub jsonrpc: String,
    pub id: Option<Json>,
    pub result: Option<Json>,
    pub error: Option<MCPError>,
}

/// The mathematical value of an optional document.
pub open spec fn opt_view(o: Option<Json>) -> Option<JsonV> {
    match o {
        Some(j) => Some(json_view(j)),
        None => None,
    }
}

impl View for MCPError {
    type V = ErrV;

    open spec fn view(&self) -> ErrV {
        ErrV { code: self.code as int, message: self.message@, data: opt_view(self.data) }
    }
}

impl View for MCPRequest {
    type V = ReqV;

    open spec fn view(&self) -> ReqV {
        ReqV {
            jsonrpc: self.jsonrpc@,
            id: opt_view(self.id),
            method: self.method@,
            params: opt_view(self.params),
        }
    }
}

impl View for MCPResponse {
    type V = RespV;

    open spec fn view(&self) -> RespV {
        RespV {
            jsonrpc: self.jsonrpc@,
            id: opt_view(self.id),
            result: opt_view(self.result),
            error: match self.error {
                Some(e) => Some(e@),
                None => None,
            },
        }
    }
}

/// A response carries exactly one of a result or an error.
pub open spec fn resp_wf(r: RespV) -> bool {
    &&& r.jsonrpc == k_two()
    &&& (r.result is Some <==> r.error is None)
}

/// A successful response envelope.
pub open spec fn ok_v(id: Option<JsonV>, result: JsonV) -> RespV {
    RespV { jsonrpc: k_two(), id, result: Some(result), error: None }
}

/// A failed response envelope, with no structured error data.
pub open spec fn err_v(id: Option<JsonV>, code: int, message: Seq<char>) -> RespV {
    RespV {
        jsonrpc: k_two(),
        id,
        result: None,
        error: Some(ErrV { code, message, data: None }),
    }
}

/// The request a document denotes: the marker must be the string "2.0" and
/// the method a string; an identifier or parameter member set to `null`
/// counts as absent.
pub open spec fn req_of(v: JsonV) -> Option<ReqV> {
    match v {
        JsonV::Obj(ms) => {
            match (obj_get(ms, k_jsonrpc()), obj_get(ms, k_method())) {
                (Some(JsonV::Str(ver)), Some(JsonV::Str(m))) => {
                    if ver == k_two() {
                        Some(
                            ReqV {
                                jsonrpc: ver,
                                id: non_null(obj_get(ms, k_id())),
                                method: m,
                                params: non_null(obj_get(ms, k_params())),
                            },
                        )
                    } else {
                        None
                    }
                },
                _ => None,
            }
        },
        _ => None,
    }
}

/// Treats an explicit `null` like an absent member.
pub open spec fn non_null(o: Option<JsonV>) -> Option<JsonV> {
    match o {
        Some(JsonV::Null) => None,
        _ => o,
    }
}

/// Extracts the request envelope a parsed document denotes, or nothing
/// where the document is not a well-formed request.
pub fn request_from_json(doc: &Json) -> (r: Option<MCPRequest>)
    ensures
        r matches Some(rq) ==> req_of(doc@) == Some(rq@),
        r is None ==> req_of(doc@) is None,
{
    let members = match doc {
        Json::Obj(ms) => ms,
        _ => {
            return None;
        },
    };
    let ver = match obj_lookup(members, &("jsonrpc".to_owned())) {
        Some(Json::Str(v)) => v.clone(),
        _ => {
            return None;
        },
    };
    if !ver.eq(&("2.0".to_owned())) {
        return None;
    }
    let method = match obj_lookup(members, &("method".to_owned())) {
        Some(Json::Str(m)) => m.clone(),
        _ => {
            return None;
        },
    };
    let id = match obj_lookup(members, &("id".to_owned())) {
        Some(Json::Null) => None,
        Some(v) => Some(v.duplicate()),
        None => None,
    };
    let params = match obj_lookup(members, &("params".to_owned())) {
        Some(Json::Null) => None,
        Some(v) => Some(v.duplicate()),
        None => None,
    };
    Some(MCPRequest { jsonrpc: ver, id, method, params })
}

/// The error object of a response, as a document value.
pub open spec fn err_jsonv(e: ErrV) -> JsonV {
    JsonV::Obj(
        match e.data {
            Some(d) => seq![
                (k_code(), JsonV::Int(e.code)),
                (k_message(), JsonV::Str(e.message)),
                (k_data(), d),
            ],
            None => seq![(k_code(), JsonV::Int(e.code)), (k_message(), JsonV::Str(e.message))],
        },
    )
}

/// A response envelope as a document value: the marker, the identifier
/// (`null` where the request had none), and the result or the error.
pub open spec fn resp_jsonv(r: RespV) -> JsonV {
    let base = seq![
        (k_jsonrpc(), JsonV::Str(r.jsonrpc)),
        (
            k_id(),
            match r.id {
                Some(v) => v,
                None => JsonV::Null,
            },
        ),
    ];
    let with_result = match r.result {
        Some(v) => base.push((k_result(), v)),
        None => base,
    };
    JsonV::Obj(
        match r.error {
            Some(e) => with_result.push((k_error(), err_jsonv(e))),
            None => with_result,
        },
    )
}

/// Builds the document value of a response envelope.
pub fn response_to_json(r: MCPResponse) -> (j: Json)
    ensures
        j@ == resp_jsonv(r@),
{
    let ghost rv = r@;
    let mut members: Vec<(String, Json)> = Vec::new();
    members.push(("jsonrpc".to_owned(), Json::Str(r.jsonrpc)));
    members.push(
        (
            "id".to_owned(),
            match r.id {
                Some(v) => v,
                None => Json::Null,
            },
        ),
    );
    match r.result {
        Some(v) => {
            members.push(("result".to_owned(), v));
        },
        None => {},
    }
    match r.error {
        Some(e) => {
            let mut err_members: Vec<(String, Json)> = Vec::new();
            err_members.push(("code".to_owned(), Json::Int(e.code as i64)));
            err_members.push(("message".to_owned(), Json::Str(e.message)));
            match e.data {
                Some(d) => {
                    err_members.push(("data".to_owned(), d));
                },
                None => {},
            }
            proof {
                lemma_obj_view(err_members@);
                assert(obj_view(err_members@) =~= (match rv.error {
                    Some(ev) => match ev.data {
                        Some(d) => seq![
                            (k_code(), JsonV::Int(ev.code)),
                            (k_message(), JsonV::Str(ev.message)),
                            (k_data(), d),
                        ],
                        None => seq![
                            (k_code(), JsonV::Int(ev.code)),
                            (k_message(), JsonV::Str(ev.message)),
                        ],
                    },
                    None => Seq::<(Seq<char>, JsonV)>::empty(),
                }));
            }
            members.push(("error".to_owned(), Json::Obj(err_members)));
        },
        None => {},
    }
    proof {
        lemma_obj_view(members@);
        assert(obj_view(members@) =~= (match resp_jsonv(rv) {
            JsonV::Obj(target) => target,
            _ => Seq::<(Seq<char>, JsonV)>::empty(),
        }));
    }
    Json::Obj(members)
}

/// The serialized line of a response envelope.
pub fn response_to_string(r: MCPResponse) -> (s: String)
    ensures
        s@ == json_text(resp_jsonv(r@)),
{
    let j = response_to_json(r);
    json_to_string(&j)
}

} // verus!
