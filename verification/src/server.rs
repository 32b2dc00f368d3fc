//! What the HTTP transport serves besides the protocol endpoint — the
//! liveness payload, the metrics payload, the discovery frame — and the
//! sizing of its worker pool; with the transport-mode selector the process
//! starts from.

use vstd::prelude::*;

use crate::dispatch::tool_jsonv;
use crate::json::arr_view;
use crate::json::json_text;
use crate::json::json_view;
use crate::json::lemma_arr_view;
use crate::json::lemma_obj_view;
use crate::json::obj_view;
use crate::json::Json;
use crate::json::JsonV;
use crate::registry::ToolRegistry;
use crate::registry::ToolV;
use crate::text::json_to_string;
use vstd::string::StringExecFns;

verus! {

/// The liveness payload.
pub open spec fn health_v() -> JsonV {
    JsonV::Obj(
        seq![(("service")@, JsonV::Str(("mcp-server")@)), (("status")@, JsonV::Str(("ok")@))],
    )
}

/// The body the liveness probe answers.
pub fn health_body() -> (r: String)
    ensures
        r@ == json_text(health_v()),
{
    let mut members: Vec<(String, Json)> = Vec::new();
    members.push(("service".to_owned(), Json::Str("mcp-server".to_owned())));
    members.push(("status".to_owned(), Json::Str("ok".to_owned())));
    proof {
        lemma_obj_view(members@);
        assert(obj_view(members@) =~= seq![
            (("service")@, JsonV::Str(("mcp-server")@)),
            (("status")@, JsonV::Str(("ok")@)),
        ]);
    }
    let j = Json::Obj(members);
    json_to_string(&j)
}

/// The metrics payload: the number of requests served so far.
pub open spec fn metrics_v(count: int) -> JsonV {
    JsonV::Obj(
        seq![(("requests_total")@, JsonV::Int(count)), (("status")@, JsonV::Str(("ok")@))],
    )
}

/// The body the metrics endpoint answers. The count must fit the signed
/// numbers the document model carries.
pub fn metrics_body(count: u64) -> (r: String)
    requires
        count <= 0x7FFFFFFFFFFFFFFF,
    ensures
        r@ == json_text(metrics_v(count as int)),
{
    let mut members: Vec<(String, Json)> = Vec::new();
    members.push(("requests_total".to_owned(), Json::Int(count as i64)));
    members.push(("status".to_owned(), Json::Str("ok".to_owned())));
    proof {
        lemma_obj_view(members@);
        assert(obj_view(members@) =~= seq![
            (("requests_total")@, JsonV::Int(count as int)),
            (("status")@, JsonV::Str(("ok")@)),
        ]);
    }
    let j = Json::Obj(members);
    json_to_string(&j)
}

/// The discovery payload: every registered descriptor and their number.
pub open spec fn sse_v(tools: Seq<ToolV>) -> JsonV {
    JsonV::Obj(
        seq![
            (("count")@, JsonV::Int(tools.len() as int)),
            (("tools")@, JsonV::Arr(tools.map_values(|t: ToolV| tool_jsonv(t)))),
        ],
    )
}

/// The one-shot event-stream frame the discovery endpoint answers: the
/// payload in a single `data:` frame, delivered immediately.
pub fn sse_frame(registry: &ToolRegistry) -> (r: String)
    requires
        registry.tools@.len() <= 0x7FFFFFFFFFFFFFFF,
    ensures
        r@ == ("data: ")@ + json_text(sse_v(registry@.tools)) + ("\n\n")@,
{
    let ghost tvs = registry@.tools;
    let mut arr: Vec<Json> = Vec::new();
    let n = registry.tools.len();
    let mut i: usize = 0;
    while i < n
        invariant
            i <= n,
            n == registry.tools@.len(),
            tvs == registry@.tools,
            tvs.len() == n,
            arr@.len() == i,
            forall|k: int|
                0 <= k < i ==> json_view(#[trigger] arr@[k]) == tool_jsonv(tvs[k]),
        decreases n - i,
    {
        arr.push(crate::dispatch::tool_json(&registry.tools[i]));
        i = i + 1;
    }
    proof {
        lemma_arr_view(arr@);
        assert(arr_view(arr@) =~= tvs.map_values(|t: ToolV| tool_jsonv(t)));
    }
    let mut members: Vec<(String, Json)> = Vec::new();
    members.push(("count".to_owned(), Json::Int(n as i64)));
    members.push(("tools".to_owned(), Json::Arr(arr)));
    proof {
        lemma_obj_view(members@);
        assert(obj_view(members@) =~= (match sse_v(tvs) {
            JsonV::Obj(target) => target,
            _ => Seq::<(Seq<char>, JsonV)>::empty(),
        }));
    }
    let j = Json::Obj(members);
    let body = json_to_string(&j);
    let mut out = "data: ".to_owned();
    out.append(body.as_str());
    out.append("\n\n");
    out
}

/// Relies on num_cpus::get: the number of CPUs available to the process,
/// always at least one.
#[verifier::external_body]
fn available_cpus() -> (n: usize)
    ensures
        n >= 1,
{
    num_cpus::get()
}

/// The size of the HTTP worker pool: an explicit override wins; otherwise
/// the number of CPUs, at most 16 and at least 1.
pub fn worker_count(requested: Option<usize>) -> (n: usize)
    ensures
        requested matches Some(w) ==> n == w,
        requested is None ==> 1 <= n <= 16,
{
    match requested {
        Some(w) => w,
        None => {
            let cpus = available_cpus();
            if cpus > 16 {
                16
            } else {
                cpus
            }
        },
    }
}

/// Which transports the process runs.
pub enum TransportMode {
    Stdio,
    Http,
    Both,
}

/// The transport mode a selector string names.
pub open spec fn spec_transport_mode(s: Seq<char>) -> Option<TransportMode> {
    if s == ("stdio")@ {
        Some(TransportMode::Stdio)
    } else if s == ("http")@ {
        Some(TransportMode::Http)
    } else if s == ("both")@ {
        Some(TransportMode::Both)
    } else {
        None
    }
}

/// Parses the transport-mode selector; an unrecognized value yields
/// nothing, on which the process must stop before any transport starts.
pub fn parse_transport_mode(s: &str) -> (r: Option<TransportMode>)
    ensures
        r == spec_transport_mode(s@),
{
    let owned = s.to_owned();
    if owned.eq(&("stdio".to_owned())) {
        Some(TransportMode::Stdio)
    } else if owned.eq(&("http".to_owned())) {
        Some(TransportMode::Http)
    } else if owned.eq(&("both".to_owned())) {
        Some(TransportMode::Both)
    } else {
        None
    }
}

} // verus!
