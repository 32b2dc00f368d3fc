//! The load-bearing guarantees of the dispatch layer, stated and proved
//! once over the specification the executable functions are verified
//! against.

use vstd::prelude::*;

use crate::dispatch::call_args;
use crate::dispatch::call_name;
use crate::dispatch::content_result;
use crate::dispatch::init_result_v;
use crate::dispatch::spec_dispatch;
use crate::dispatch::tool_jsonv;
use crate::dispatch::tools_list_v;
use crate::grammar::sp_document;
use crate::json::obj_get;
use crate::json::JsonV;
use crate::protocol::req_of;
use crate::protocol::resp_wf;
use crate::protocol::ReqV;
use crate::registry::assoc_get;
use crate::registry::handler_result;
use crate::registry::RegV;
use crate::registry::StateV;
use crate::stream::line_response;

verus! {

/// The three method names differ from one another.
proof fn lemma_method_names_differ()
    ensures
        ("tools/list")@ != ("initialize")@,
        ("tools/call")@ != ("initialize")@,
        ("tools/call")@ != ("tools/list")@,
{
    reveal_strlit("initialize");
    reveal_strlit("tools/list");
    reveal_strlit("tools/call");
    assert(("initialize")@[0] == 'i');
    assert(("tools/list")@[0] == 't');
    assert(("tools/call")@[0] == 't');
    assert(("tools/list")@[6] == 'l');
    assert(("tools/call")@[6] == 'c');
}

/// Every dispatched response carries the protocol marker and exactly one
/// of a result or an error.
pub proof fn law_dispatch_wf(st: StateV, reg: RegV, rq: ReqV)
    ensures
        resp_wf(spec_dispatch(st, reg, rq)),
{
}

/// `tools/list` answers with one descriptor per registration, in
/// registration order, each carrying that registration's name,
/// description and schema on the wire.
pub proof fn law_tools_list_order(st: StateV, reg: RegV, id: Option<JsonV>)
    ensures
        ({
            let r = spec_dispatch(
                st,
                reg,
                ReqV { jsonrpc: ("2.0")@, id, method: ("tools/list")@, params: None },
            );
            &&& r.error is None
            &&& r.result == Some(tools_list_v(reg.tools))
            &&& tools_list_v(reg.tools) matches JsonV::Obj(ms) && obj_get(ms, ("tools")@)
                matches Some(JsonV::Arr(ds)) && ds.len() == reg.tools.len() && (forall|k: int|
                0 <= k < reg.tools.len() ==> ds[k] == tool_jsonv(#[trigger] reg.tools[k]))
        }),
{
    lemma_method_names_differ();
    let ms = seq![(("tools")@, JsonV::Arr(reg.tools.map_values(|t| tool_jsonv(t))))];
    assert(ms.last().0 == ("tools")@);
    assert(obj_get(ms, ("tools")@) == Some(ms.last().1));
}

/// Every name in the handler mapping is resolvable by `tools/call`: the
/// call reaches the handler and answers a successful envelope, never
/// an unknown-tool error.
pub proof fn law_registered_name_resolvable(st: StateV, reg: RegV, id: Option<JsonV>, p: JsonV)
    requires
        assoc_get(reg.handlers, call_name(p)) is Some,
    ensures
        ({
            let r = spec_dispatch(
                st,
                reg,
                ReqV { jsonrpc: ("2.0")@, id, method: ("tools/call")@, params: Some(p) },
            );
            &&& r.error is None
            &&& r.result is Some
        }),
{
    lemma_method_names_differ();
}

/// `initialize` always answers the fixed protocol version and the
/// configured identity, whatever the registry holds — it does not read
/// the registry at all.
pub proof fn law_initialize_fixed(st: StateV, reg: RegV, other: RegV, id: Option<JsonV>, params: Option<JsonV>)
    ensures
        ({
            let rq = ReqV { jsonrpc: ("2.0")@, id, method: ("initialize")@, params };
            let r = spec_dispatch(st, reg, rq);
            &&& r.error is None
            &&& r.result == Some(init_result_v(st))
            &&& init_result_v(st) matches JsonV::Obj(ms) && obj_get(ms, ("protocolVersion")@)
                == Some(JsonV::Str(("2024-11-05")@)) && obj_get(ms, ("serverInfo")@) == Some(
                JsonV::Obj(
                    seq![(("name")@, JsonV::Str(st.name)), (("version")@, JsonV::Str(st.version))],
                ),
            )
            &&& r == spec_dispatch(st, other, rq)
        }),
{
    let ms = match init_result_v(st) {
        JsonV::Obj(ms) => ms,
        _ => Seq::<(Seq<char>, JsonV)>::empty(),
    };
    assert(obj_get(ms, ("protocolVersion")@) == Some(JsonV::Str(("2024-11-05")@))) by {
        reveal_strlit("protocolVersion");
        reveal_strlit("capabilities");
        reveal_strlit("serverInfo");
        assert(("serverInfo")@.len() == 10);
        assert(("capabilities")@.len() == 12);
        assert(("protocolVersion")@.len() == 15);
        assert(ms.take(1).last() == ms[0] && ms.take(2).last() == ms[1] && ms.last() == ms[2]);
        assert(ms.take(2).drop_last() =~= ms.take(1));
        assert(ms.drop_last() =~= ms.take(2));
        assert(obj_get(ms.take(1), ("protocolVersion")@) == Some(JsonV::Str(("2024-11-05")@)));
        assert(obj_get(ms.take(2), ("protocolVersion")@) == obj_get(
            ms.take(1),
            ("protocolVersion")@,
        ));
        assert(obj_get(ms, ("protocolVersion")@) == obj_get(ms.take(2), ("protocolVersion")@));
    }
    assert(obj_get(ms, ("serverInfo")@) == Some(ms.last().1));
}

/// `tools/call` with a name absent from the registry answers an envelope
/// error with code -32601 whose message embeds the name, and never a
/// successful envelope.
pub proof fn law_unknown_tool(st: StateV, reg: RegV, id: Option<JsonV>, p: JsonV)
    requires
        assoc_get(reg.handlers, call_name(p)) is None,
    ensures
        ({
            let r = spec_dispatch(
                st,
                reg,
                ReqV { jsonrpc: ("2.0")@, id, method: ("tools/call")@, params: Some(p) },
            );
            &&& r.result is None
            &&& r.error matches Some(e) && e.code == -32601 && e.message == ("Unknown tool: ")@
                + call_name(p)
        }),
{
    lemma_method_names_differ();
}

/// `tools/call` with no parameters answers an envelope error with code
/// -32602.
pub proof fn law_missing_params(st: StateV, reg: RegV, id: Option<JsonV>)
    ensures
        ({
            let r = spec_dispatch(
                st,
                reg,
                ReqV { jsonrpc: ("2.0")@, id, method: ("tools/call")@, params: None },
            );
            &&& r.result is None
            &&& r.error matches Some(e) && e.code == -32602
        }),
{
    lemma_method_names_differ();
}

/// A tool handler's failure is a successful envelope: no error member, and
/// a result whose text content is the failure message after `Error: `,
/// with the failure flag set.
pub proof fn law_handler_failure_is_success(
    st: StateV,
    reg: RegV,
    id: Option<JsonV>,
    p: JsonV,
    m: Seq<char>,
)
    requires
        assoc_get(reg.handlers, call_name(p)) matches Some(h) && handler_result(h, call_args(p))
            == Err::<JsonV, Seq<char>>(m),
    ensures
        ({
            let r = spec_dispatch(
                st,
                reg,
                ReqV { jsonrpc: ("2.0")@, id, method: ("tools/call")@, params: Some(p) },
            );
            &&& r.error is None
            &&& r.result == Some(content_result(("Error: ")@ + m, true))
            &&& content_result(("Error: ")@ + m, true) matches JsonV::Obj(ms) && obj_get(
                ms,
                ("isError")@,
            ) == Some(JsonV::Bool(true))
        }),
{
    lemma_method_names_differ();
    let ms = match content_result(("Error: ")@ + m, true) {
        JsonV::Obj(ms) => ms,
        _ => Seq::<(Seq<char>, JsonV)>::empty(),
    };
    assert(obj_get(ms, ("isError")@) == Some(ms.last().1));
}

/// Registering a tool makes its handler the one its name reaches, and
/// leaves every other name's handler as it was: a second registration of a
/// name overrides the first.
pub proof fn law_register_overrides(hs: Seq<(Seq<char>, crate::registry::HandlerV)>, name: Seq<
    char,
>, h: crate::registry::HandlerV, other: Seq<char>)
    ensures
        assoc_get(hs.push((name, h)), name) == Some(h),
        other != name ==> assoc_get(hs.push((name, h)), other) == assoc_get(hs, other),
{
    let whole = hs.push((name, h));
    assert(whole.last() == (name, h));
    assert(whole.drop_last() =~= hs);
}

/// On the stream transport, a line whose request has no identifier — a
/// notification — produces no output line.
pub proof fn law_notification_silent(st: StateV, reg: RegV, line: Seq<char>)
    requires
        sp_document(line) matches Some(doc) && req_of(doc) matches Some(rq) && rq.id is None,
    ensures
        line_response(st, reg, line) is None,
{
}

/// A line whose document is no request envelope and carries no `id`
/// member produces no output line either.
pub proof fn law_unrecoverable_line_silent(st: StateV, reg: RegV, line: Seq<char>)
    requires
        sp_document(line) matches Some(doc) && req_of(doc) is None && (match doc {
            JsonV::Obj(ms) => obj_get(ms, ("id")@) is None,
            _ => true,
        }),
    ensures
        line_response(st, reg, line) is None,
{
}

/// A line that is not a document at all produces no output line either.
pub proof fn law_undecodable_line_silent(st: StateV, reg: RegV, line: Seq<char>)
    requires
        sp_document(line) is None,
    ensures
        line_response(st, reg, line) is None,
{
}

} // verus!
