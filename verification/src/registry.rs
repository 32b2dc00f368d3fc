//! The tool registry and the server identity: an ordered list of tool
//! descriptors for discovery, and a name-indexed mapping of handlers for
//! invocation. Registering a name twice appends a second descriptor but
//! overrides the earlier handler; the mapping is kept as the registration
//! sequence, of which the latest entry for a name is authoritative.

use vstd::prelude::*;

use crate::json::json_view;
use crate::json::obj_get;
use crate::json::obj_lookup;
use crate::json::Json;
use crate::json::JsonV;
use vstd::string::StringExecFns;

verus! {

/// The server identity reported by `initialize`, fixed for the process
/// lifetime and shared read-only by every transport.
pub struct AppState {
    pub server_name: String,
    pub server_version: String,
}

/// The mathematical value of the server identity.
pub struct StateV {
    pub name: Seq<char>,
    pub version: Seq<char>,
}

impl View for AppState {
    type V = StateV;

    open spec fn view(&self) -> StateV {
        StateV { name: self.server_name@, version: self.server_version@ }
    }
}

/// A tool descriptor: the unique name, a human-readable description, and
/// the declared input schema. The schema is advisory metadata for
/// discovery; neither the registry nor the dispatcher enforces it.
pub struct MCPTool {
    pub name: String,
    pub description: String,
    pub input_schema: Json,
}

/// The mathematical value of a tool descriptor.
pub struct ToolV {
    pub name: Seq<char>,
    pub description: Seq<char>,
    pub schema: JsonV,
}

impl View for MCPTool {
    type V = ToolV;

    open spec fn view(&self) -> ToolV {
        ToolV { name: self.name@, description: self.description@, schema: json_view(self.input_schema) }
    }
}

/// The echoing tool: hands the message argument back, with a configured
/// prefix in front.
pub struct EchoTool {
    pub prefix: String,
}

/// An invocable tool handler. The set of tools is closed, so a handler is
/// one variant per tool.
pub enum ToolHandler {
    Echo(EchoTool),
}

/// The mathematical value of a handler.
pub enum HandlerV {
    Echo { prefix: Seq<char> },
}

impl View for ToolHandler {
    type V = HandlerV;

    open spec fn view(&self) -> HandlerV {
        match self {
            ToolHandler::Echo(t) => HandlerV::Echo { prefix: t.prefix@ },
        }
    }
}

/// What the echoing tool answers: the `message` string argument with the
/// prefix in front, under the key `result`; a missing or non-string
/// message is a failure.
pub open spec fn echo_result(prefix: Seq<char>, args: JsonV) -> Result<JsonV, Seq<char>> {
    match args {
        JsonV::Obj(ms) => match obj_get(ms, ("message")@) {
            Some(JsonV::Str(msg)) => Ok(
                JsonV::Obj(seq![(("result")@, JsonV::Str(prefix + msg))]),
            ),
            _ => Err(("Missing required parameter: message")@),
        },
        _ => Err(("Missing required parameter: message")@),
    }
}

/// What a handler answers for given arguments: a structured result, or a
/// failure message.
pub open spec fn handler_result(h: HandlerV, args: JsonV) -> Result<JsonV, Seq<char>> {
    match h {
        HandlerV::Echo { prefix } => echo_result(prefix, args),
    }
}

impl ToolHandler {
    /// Runs the handler on the given arguments. Each handler validates its
    /// own arguments; the registry and dispatcher do not.
    pub fn call(&self, args: &Json) -> (r: Result<Json, String>)
        ensures
            r matches Ok(v) ==> handler_result(self@, args@) == Ok::<JsonV, Seq<char>>(v@),
            r matches Err(m) ==> handler_result(self@, args@) == Err::<JsonV, Seq<char>>(m@),
    {
        match self {
            ToolHandler::Echo(t) => echo_call(t, args),
        }
    }
}

/// Runs the echoing tool.
fn echo_call(t: &EchoTool, args: &Json) -> (r: Result<Json, String>)
    ensures
        r matches Ok(v) ==> echo_result(t.prefix@, args@) == Ok::<JsonV, Seq<char>>(v@),
        r matches Err(m) ==> echo_result(t.prefix@, args@) == Err::<JsonV, Seq<char>>(m@),
{
    match args {
        Json::Obj(ms) => {
            match obj_lookup(ms, &("message".to_owned())) {
                Some(Json::Str(msg)) => {
                    let mut out = t.prefix.clone();
                    out.append(msg.as_str());
                    let mut members: Vec<(String, Json)> = Vec::new();
                    members.push(("result".to_owned(), Json::Str(out)));
                    proof {
                        crate::json::lemma_obj_view(members@);
                        assert(crate::json::obj_view(members@) =~= seq![
                            (("result")@, JsonV::Str(t.prefix@ + msg@)),
                        ]);
                    }
                    Ok(Json::Obj(members))
                },
                _ => Err("Missing required parameter: message".to_owned()),
            }
        },
        _ => Err("Missing required parameter: message".to_owned()),
    }
}

/// The handler the registration sequence gives a name: the latest entry
/// wins, as a later registration overrides an earlier one.
pub open spec fn assoc_get(hs: Seq<(Seq<char>, HandlerV)>, name: Seq<char>) -> Option<HandlerV>
    decreases hs.len(),
{
    if hs.len() == 0 {
        None
    } else if hs.last().0 == name {
        Some(hs.last().1)
    } else {
        assoc_get(hs.drop_last(), name)
    }
}

/// The registry of available tools: the descriptor list, in registration
/// order, and the handler mapping.
pub struct ToolRegistry {
    pub tools: Vec<MCPTool>,
    pub handlers: Vec<(String, ToolHandler)>,
}

/// The mathematical value of a registry.
pub struct RegV {
    pub tools: Seq<ToolV>,
    pub handlers: Seq<(Seq<char>, HandlerV)>,
}

impl View for ToolRegistry {
    type V = RegV;

    open spec fn view(&self) -> RegV {
        RegV {
            tools: self.tools@.map_values(|t: MCPTool| t@),
            handlers: self.handlers@.map_values(|p: (String, ToolHandler)| (p.0@, p.1@)),
        }
    }
}

/// Every name in the handler mapping has at least one descriptor.
pub open spec fn registry_wf(r: RegV) -> bool {
    forall|k: int|
        0 <= k < r.handlers.len() ==> exists|t: int|
            0 <= t < r.tools.len() && (#[trigger] r.tools[t]).name == (#[trigger] r.handlers[k]).0
}

impl ToolRegistry {
    /// An empty registry.
    pub fn new() -> (r: Self)
        ensures
            r@.tools == Seq::<ToolV>::empty(),
            r@.handlers == Seq::<(Seq<char>, HandlerV)>::empty(),
            registry_wf(r@),
    {
        let r = ToolRegistry { tools: Vec::new(), handlers: Vec::new() };
        proof {
            assert(r@.tools =~= Seq::<ToolV>::empty());
            assert(r@.handlers =~= Seq::<(Seq<char>, HandlerV)>::empty());
        }
        r
    }

    /// Appends the descriptor and makes the handler the one a call of the
    /// tool's name reaches.
    pub fn register(&mut self, tool: MCPTool, handler: ToolHandler)
        ensures
            final(self)@.tools == old(self)@.tools.push(tool@),
            final(self)@.handlers == old(self)@.handlers.push((tool@.name, handler@)),
            registry_wf(old(self)@) ==> registry_wf(final(self)@),
    {
        let ghost pre = self@;
        let name = tool.name.clone();
        let ghost tv = tool@;
        let ghost hv = handler@;
        self.tools.push(tool);
        self.handlers.push((name, handler));
        proof {
            assert(self@.tools =~= pre.tools.push(tv));
            assert(self@.handlers =~= pre.handlers.push((tv.name, hv)));
            if registry_wf(pre) {
                assert forall|k: int| 0 <= k < self@.handlers.len() implies exists|t: int|
                    0 <= t < self@.tools.len() && (#[trigger] self@.tools[t]).name == (
                    #[trigger] self@.handlers[k]).0 by {
                    if k < pre.handlers.len() {
                        let t = choose|t: int|
                            0 <= t < pre.tools.len() && (#[trigger] pre.tools[t]).name
                                == pre.handlers[k].0;
                        assert(self@.tools[t].name == self@.handlers[k].0);
                    } else {
                        assert(self@.tools[pre.tools.len() as int].name == self@.handlers[k].0);
                    }
                }
            }
        }
    }

    /// The handler registered under a name, if any.
    pub fn lookup(&self, name: &String) -> (r: Option<&ToolHandler>)
        ensures
            r matches Some(h) ==> assoc_get(self@.handlers, name@) == Some(h@),
            r is None ==> assoc_get(self@.handlers, name@) is None,
    {
        let ghost hs = self@.handlers;
        proof {
            assert(hs.take(self.handlers@.len() as int) =~= hs);
        }
        let mut i = self.handlers.len();
        let mut res: Option<usize> = None;
        while i > 0
            invariant
                i <= self.handlers@.len(),
                hs == self@.handlers,
                hs.len() == self.handlers@.len(),
                res is None ==> assoc_get(hs, name@) == assoc_get(hs.take(i as int), name@),
                res matches Some(f) ==> f < self.handlers@.len() && assoc_get(hs, name@) == Some(
                    self.handlers@[f as int].1@,
                ),
            decreases i,
        {
            let idx = i - 1;
            proof {
                assert(hs[idx as int] == (self.handlers@[idx as int].0@, self.handlers@[idx as int].1@));
                assert(hs.take(idx as int + 1).last() == hs[idx as int]);
                assert(hs.take(idx as int + 1).drop_last() =~= hs.take(idx as int));
            }
            if res.is_none() && self.handlers[idx].0.eq(name) {
                proof {
                    assert(assoc_get(hs.take(idx as int + 1), name@) == Some(hs[idx as int].1));
                }
                res = Some(idx);
            }
            i = idx;
        }
        proof {
            assert(hs.take(0) =~= Seq::<(Seq<char>, HandlerV)>::empty());
        }
        match res {
            Some(f) => Some(&self.handlers[f].1),
            None => None,
        }
    }
}

} // verus!
