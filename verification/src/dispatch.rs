//! The dispatcher: one pure routing step from a request envelope to a
//! response envelope, shared verbatim by both transports. Protocol
//! failures (unknown method, missing parameters, unknown tool) populate
//! the envelope's error; a tool's own failure is carried inside a
//! successful envelope, flagged `isError`.

use vstd::prelude::*;

use crate::json::arr_view;
use crate::json::json_text;
use crate::json::json_view;
use crate::json::lemma_arr_view;
use crate::json::lemma_obj_view;
use crate::json::obj_get;
use crate::json::obj_lookup;
use crate::json::obj_view;
use crate::json::Json;
use crate::json::JsonV;
use crate::protocol::err_v;
use crate::protocol::ok_v;
use crate::protocol::opt_view;
use crate::protocol::MCPError;
use crate::protocol::MCPResponse;
use crate::protocol::MCPRequest;
use crate::protocol::ReqV;
use crate::protocol::RespV;
use crate::registry::assoc_get;
use crate::registry::handler_result;
use crate::registry::AppState;
use crate::registry::RegV;
use crate::registry::StateV;
use crate::registry::ToolRegistry;
use crate::registry::ToolV;
use crate::text::json_to_string;
use vstd::string::StringExecFns;

verus! {

/// The protocol version `initialize` advertises.
pub open spec fn protocol_version() -> Seq<char> {
    ("2024-11-05")@
}

/// The result of `initialize`: the protocol version, a capability
/// advertisement naming tools, and the server identity.
pub open spec fn init_result_v(st: StateV) -> JsonV {
    JsonV::Obj(
        seq![
            (("protocolVersion")@, JsonV::Str(protocol_version())),
            (
                ("capabilities")@,
                JsonV::Obj(seq![(("tools")@, JsonV::Obj(Seq::<(Seq<char>, JsonV)>::empty()))]),
            ),
            (
                ("serverInfo")@,
                JsonV::Obj(
                    seq![(("name")@, JsonV::Str(st.name)), (("version")@, JsonV::Str(st.version))],
                ),
            ),
        ],
    )
}

/// A tool descriptor on the wire: name, description and inputSchema.
pub open spec fn tool_jsonv(t: ToolV) -> JsonV {
    JsonV::Obj(
        seq![
            (("name")@, JsonV::Str(t.name)),
            (("description")@, JsonV::Str(t.description)),
            (("inputSchema")@, t.schema),
        ],
    )
}

/// The result of `tools/list`: every registered descriptor, verbatim, in
/// registration order.
pub open spec fn tools_list_v(tools: Seq<ToolV>) -> JsonV {
    JsonV::Obj(seq![(("tools")@, JsonV::Arr(tools.map_values(|t: ToolV| tool_jsonv(t))))])
}

/// The tool name a `tools/call` parameter document carries, the empty
/// string where none does.
pub open spec fn call_name(p: JsonV) -> Seq<char> {
    match p {
        JsonV::Obj(ms) => match obj_get(ms, ("name")@) {
            Some(JsonV::Str(n)) => n,
            _ => Seq::<char>::empty(),
        },
        _ => Seq::<char>::empty(),
    }
}

/// The arguments a `tools/call` parameter document carries, an empty
/// object where none does.
pub open spec fn call_args(p: JsonV) -> JsonV {
    match p {
        JsonV::Obj(ms) => match obj_get(ms, ("arguments")@) {
            Some(a) => a,
            None => JsonV::Obj(Seq::<(Seq<char>, JsonV)>::empty()),
        },
        _ => JsonV::Obj(Seq::<(Seq<char>, JsonV)>::empty()),
    }
}

/// A tool outcome as a result document: one text content block and the
/// application-level failure flag.
pub open spec fn content_result(txt: Seq<char>, is_err: bool) -> JsonV {
    JsonV::Obj(
        seq![
            (
                ("content")@,
                JsonV::Arr(
                    seq![
                        JsonV::Obj(
                            seq![(("type")@, JsonV::Str(("text")@)), (("text")@, JsonV::Str(txt))],
                        ),
                    ],
                ),
            ),
            (("isError")@, JsonV::Bool(is_err)),
        ],
    )
}

/// The response of `tools/call`: missing parameters and an unknown tool
/// name are protocol errors; a found handler's outcome is a successful
/// envelope whose text content is the serialized result, or the failure
/// message after `Error: ` with the failure flag set.
pub open spec fn tools_call_v(reg: RegV, id: Option<JsonV>, params: Option<JsonV>) -> RespV {
    match params {
        None => err_v(id, -32602, ("Invalid params")@),
        Some(p) => {
            let name = call_name(p);
            match assoc_get(reg.handlers, name) {
                None => err_v(id, -32601, ("Unknown tool: ")@ + name),
                Some(h) => match handler_result(h, call_args(p)) {
                    Ok(v) => ok_v(id, content_result(json_text(v), false)),
                    Err(m) => ok_v(id, content_result(("Error: ")@ + m, true)),
                },
            }
        },
    }
}

/// One routing step: what the server answers a request, over the shared
/// registry and identity.
pub open spec fn spec_dispatch(st: StateV, reg: RegV, rq: ReqV) -> RespV {
    if rq.method == ("initialize")@ {
        ok_v(rq.id, init_result_v(st))
    } else if rq.method == ("tools/list")@ {
        ok_v(rq.id, tools_list_v(reg.tools))
    } else if rq.method == ("tools/call")@ {
        tools_call_v(reg, rq.id, rq.params)
    } else {
        err_v(rq.id, -32601, ("Method not found: ")@ + rq.method)
    }
}

/// A successful response envelope.
fn ok_response(id: Option<Json>, result: Json) -> (r: MCPResponse)
    ensures
        r@ == ok_v(opt_view(id), result@),
{
    MCPResponse { jsonrpc: "2.0".to_owned(), id, result: Some(result), error: None }
}

/// A failed response envelope, with no structured error data.
fn err_response(id: Option<Json>, code: i32, message: String) -> (r: MCPResponse)
    ensures
        r@ == err_v(opt_view(id), code as int, message@),
{
    MCPResponse {
        jsonrpc: "2.0".to_owned(),
        id,
        result: None,
        error: Some(MCPError { code, message, data: None }),
    }
}

/// Builds the result document of a tool outcome.
fn content_block(txt: String, is_err: bool) -> (j: Json)
    ensures
        j@ == content_result(txt@, is_err),
{
    let ghost t = txt@;
    let mut block_members: Vec<(String, Json)> = Vec::new();
    block_members.push(("type".to_owned(), Json::Str("text".to_owned())));
    block_members.push(("text".to_owned(), Json::Str(txt)));
    proof {
        lemma_obj_view(block_members@);
        assert(obj_view(block_members@) =~= seq![
            (("type")@, JsonV::Str(("text")@)),
            (("text")@, JsonV::Str(t)),
        ]);
    }
    let mut content: Vec<Json> = Vec::new();
    content.push(Json::Obj(block_members));
    proof {
        lemma_arr_view(content@);
        assert(arr_view(content@) =~= seq![
            JsonV::Obj(seq![(("type")@, JsonV::Str(("text")@)), (("text")@, JsonV::Str(t))]),
        ]);
    }
    let mut members: Vec<(String, Json)> = Vec::new();
    members.push(("content".to_owned(), Json::Arr(content)));
    members.push(("isError".to_owned(), Json::Bool(is_err)));
    proof {
        lemma_obj_view(members@);
        assert(obj_view(members@) =~= (match content_result(t, is_err) {
            JsonV::Obj(target) => target,
            _ => Seq::<(Seq<char>, JsonV)>::empty(),
        }));
    }
    Json::Obj(members)
}

/// Answers `initialize`: the fixed protocol version and the identity,
/// whatever the registry holds.
pub fn handle_initialize(state: &AppState, id: Option<Json>) -> (r: MCPResponse)
    ensures
        r@ == ok_v(opt_view(id), init_result_v(state@)),
{
    let mut caps: Vec<(String, Json)> = Vec::new();
    caps.push(("tools".to_owned(), Json::Obj(Vec::new())));
    proof {
        lemma_obj_view(caps@);
        assert(obj_view(caps@) =~= seq![
            (("tools")@, JsonV::Obj(Seq::<(Seq<char>, JsonV)>::empty())),
        ]);
    }
    let mut info: Vec<(String, Json)> = Vec::new();
    info.push(("name".to_owned(), Json::Str(state.server_name.clone())));
    info.push(("version".to_owned(), Json::Str(state.server_version.clone())));
    proof {
        lemma_obj_view(info@);
        assert(obj_view(info@) =~= seq![
            (("name")@, JsonV::Str(state@.name)),
            (("version")@, JsonV::Str(state@.version)),
        ]);
    }
    let mut members: Vec<(String, Json)> = Vec::new();
    members.push(("protocolVersion".to_owned(), Json::Str("2024-11-05".to_owned())));
    members.push(("capabilities".to_owned(), Json::Obj(caps)));
    members.push(("serverInfo".to_owned(), Json::Obj(info)));
    proof {
        lemma_obj_view(members@);
        assert(obj_view(members@) =~= (match init_result_v(state@) {
            JsonV::Obj(target) => target,
            _ => Seq::<(Seq<char>, JsonV)>::empty(),
        }));
    }
    ok_response(id, Json::Obj(members))
}

/// One descriptor on the wire.
pub fn tool_json(t: &crate::registry::MCPTool) -> (j: Json)
    ensures
        j@ == tool_jsonv(t@),
{
    let mut members: Vec<(String, Json)> = Vec::new();
    members.push(("name".to_owned(), Json::Str(t.name.clone())));
    members.push(("description".to_owned(), Json::Str(t.description.clone())));
    members.push(("inputSchema".to_owned(), t.input_schema.duplicate()));
    proof {
        lemma_obj_view(members@);
        assert(obj_view(members@) =~= seq![
            (("name")@, JsonV::Str(t@.name)),
            (("description")@, JsonV::Str(t@.description)),
            (("inputSchema")@, t@.schema),
        ]);
    }
    Json::Obj(members)
}

/// Answers `tools/list`: every registered descriptor, in registration
/// order.
pub fn handle_tools_list(registry: &ToolRegistry, id: Option<Json>) -> (r: MCPResponse)
    ensures
        r@ == ok_v(opt_view(id), tools_list_v(registry@.tools)),
{
    let ghost tvs = registry@.tools;
    let mut arr: Vec<Json> = Vec::new();
    let n = registry.tools.len();
    let mut i: usize = 0;
    while i < n
        invariant
            i <= n,
            n == registry.tools@.len(),
            tvs == registry@.tools,
            tvs.len() == n,
            arr@.len() == i,
            forall|k: int| 0 <= k < i ==> json_view(#[trigger] arr@[k]) == tool_jsonv(tvs[k]),
        decreases n - i,
    {
        arr.push(tool_json(&registry.tools[i]));
        i = i + 1;
    }
    proof {
        lemma_arr_view(arr@);
        assert(arr_view(arr@) =~= tvs.map_values(|t: ToolV| tool_jsonv(t)));
    }
    let mut members: Vec<(String, Json)> = Vec::new();
    members.push(("tools".to_owned(), Json::Arr(arr)));
    proof {
        lemma_obj_view(members@);
        assert(obj_view(members@) =~= (match tools_list_v(tvs) {
            JsonV::Obj(target) => target,
            _ => Seq::<(Seq<char>, JsonV)>::empty(),
        }));
    }
    ok_response(id, Json::Obj(members))
}

/// Answers `tools/call`: extracts the tool name and arguments, finds the
/// handler, and wraps its outcome; missing parameters and an unknown name
/// are protocol errors.
pub fn handle_tools_call(registry: &ToolRegistry, id: Option<Json>, params: Option<Json>) -> (r:
    MCPResponse)
    ensures
        r@ == tools_call_v(registry@, opt_view(id), opt_view(params)),
{
    let p = match params {
        Some(p) => p,
        None => {
            return err_response(id, -32602, "Invalid params".to_owned());
        },
    };
    let name = match &p {
        Json::Obj(ms) => match obj_lookup(ms, &("name".to_owned())) {
            Some(Json::Str(n)) => n.clone(),
            _ => String::new(),
        },
        _ => String::new(),
    };
    let args = match &p {
        Json::Obj(ms) => match obj_lookup(ms, &("arguments".to_owned())) {
            Some(a) => a.duplicate(),
            None => Json::Obj(Vec::new()),
        },
        _ => Json::Obj(Vec::new()),
    };
    proof {
        assert(obj_view(Seq::<(String, Json)>::empty()) =~= Seq::<(Seq<char>, JsonV)>::empty());
        assert(name@ == call_name(p@));
        assert(args@ == call_args(p@));
    }
    match registry.lookup(&name) {
        None => {
            let mut m = "Unknown tool: ".to_owned();
            m.append(name.as_str());
            err_response(id, -32601, m)
        },
        Some(h) => {
            match h.call(&args) {
                Ok(v) => {
                    let txt = json_to_string(&v);
                    ok_response(id, content_block(txt, false))
                },
                Err(e) => {
                    let mut t = "Error: ".to_owned();
                    t.append(e.as_str());
                    ok_response(id, content_block(t, true))
                },
            }
        },
    }
}

/// Routes one request to its method handler; an unknown method is a
/// protocol error naming it.
pub fn dispatch(state: &AppState, registry: &ToolRegistry, req: MCPRequest) -> (r: MCPResponse)
    ensures
        r@ == spec_dispatch(state@, registry@, req@),
{
    if req.method.eq(&("initialize".to_owned())) {
        handle_initialize(state, req.id)
    } else if req.method.eq(&("tools/list".to_owned())) {
        handle_tools_list(registry, req.id)
    } else if req.method.eq(&("tools/call".to_owned())) {
        handle_tools_call(registry, req.id, req.params)
    } else {
        let mut m = "Method not found: ".to_owned();
        m.append(req.method.as_str());
        err_response(req.id, -32601, m)
    }
}

} // verus!
