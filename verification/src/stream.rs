//! The stream transport's sequential step: one input line in, at most one
//! response line out. A line that is not a well-formed request envelope
//! but still a document with an `id` member gets a parse-error response
//! referencing that id; a line with no recoverable id is dropped; a
//! notification (a request without an id) is answered to nobody.

use vstd::prelude::*;

use crate::dispatch::dispatch;
use crate::dispatch::spec_dispatch;
use crate::grammar::sp_document;
use crate::json::json_text;
use crate::json::obj_get;
use crate::json::obj_lookup;
use crate::json::Json;
use crate::json::JsonV;
use crate::parse::parse_document;
use crate::protocol::err_v;
use crate::protocol::k_id;
use crate::protocol::req_of;
use crate::protocol::resp_jsonv;
use crate::protocol::response_to_string;
use crate::protocol::MCPError;
use crate::protocol::MCPResponse;
use crate::protocol::RespV;
use crate::registry::AppState;
use crate::registry::RegV;
use crate::registry::StateV;
use crate::registry::ToolRegistry;

verus! {

/// The parse-error response referencing a recovered identifier.
pub open spec fn parse_error_v(id: JsonV) -> RespV {
    err_v(Some(id), -32700, ("Parse error: invalid request envelope")@)
}

/// What the stream transport answers one input line: the serialized
/// response for a well-formed request with an identifier; a parse error
/// referencing the identifier of a document that is no request envelope;
/// nothing for a notification, and nothing for a line with no recoverable
/// identifier.
pub open spec fn line_response(st: StateV, reg: RegV, line: Seq<char>) -> Option<Seq<char>> {
    match sp_document(line) {
        None => None,
        Some(doc) => match req_of(doc) {
            Some(rq) => match rq.id {
                Some(_) => Some(json_text(resp_jsonv(spec_dispatch(st, reg, rq)))),
                None => None,
            },
            None => match doc {
                JsonV::Obj(ms) => match obj_get(ms, k_id()) {
                    Some(idv) => Some(json_text(resp_jsonv(parse_error_v(idv)))),
                    None => None,
                },
                _ => None,
            },
        },
    }
}

/// Handles one line read from the stream: the response line to write, or
/// nothing. The caller writes and flushes the line, then reads the next.
pub fn handle_line(state: &AppState, registry: &ToolRegistry, line: &str) -> (r: Option<String>)
    ensures
        r matches Some(out) ==> line_response(state@, registry@, line@) == Some(out@),
        r is None ==> line_response(state@, registry@, line@) is None,
{
    let doc = match parse_document(line) {
        Some(d) => d,
        None => {
            return None;
        },
    };
    match crate::protocol::request_from_json(&doc) {
        Some(rq) => {
            if rq.id.is_some() {
                let resp = dispatch(state, registry, rq);
                Some(response_to_string(resp))
            } else {
                None
            }
        },
        None => {
            match &doc {
                Json::Obj(ms) => {
                    match obj_lookup(ms, &("id".to_owned())) {
                        Some(idv) => {
                            let resp = MCPResponse {
                                jsonrpc: "2.0".to_owned(),
                                id: Some(idv.duplicate()),
                                result: None,
                                error: Some(
                                    MCPError {
                                        code: -32700,
                                        message: "Parse error: invalid request envelope".to_owned(),
                                        data: None,
                                    },
                                ),
                            };
                            Some(response_to_string(resp))
                        },
                        None => None,
                    }
                },
                _ => None,
            }
        },
    }
}

} // verus!
