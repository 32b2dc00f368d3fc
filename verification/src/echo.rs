//! The echoing example tool: its descriptor, its registration, and the
//! mathematical values of both.

use vstd::prelude::*;

use crate::config::get_tool_config;
use crate::json::lemma_arr_view;
use crate::json::lemma_obj_view;
use crate::json::arr_view;
use crate::json::obj_lookup;
use crate::json::obj_view;
use crate::json::Json;
use crate::json::JsonV;
use crate::registry::EchoTool;
use crate::registry::HandlerV;
use crate::registry::MCPTool;
use crate::registry::ToolHandler;
use crate::registry::ToolRegistry;
use crate::registry::ToolV;

verus! {

/// The declared input schema of the echoing tool: an object with a
/// required string member `message`.
pub open spec fn echo_schema_v() -> JsonV {
    JsonV::Obj(
        seq![
            (("type")@, JsonV::Str(("object")@)),
            (
                ("properties")@,
                JsonV::Obj(
                    seq![
                        (
                            ("message")@,
                            JsonV::Obj(
                                seq![
                                    (("type")@, JsonV::Str(("string")@)),
                                    (("description")@, JsonV::Str(("The message to echo")@)),
                                ],
                            ),
                        ),
                    ],
                ),
            ),
            (("required")@, JsonV::Arr(seq![JsonV::Str(("message")@)])),
        ],
    )
}

/// The descriptor of the echoing tool.
pub open spec fn echo_tool_v() -> ToolV {
    ToolV {
        name: ("echo")@,
        description: ("Echo a message back to the client.")@,
        schema: echo_schema_v(),
    }
}

/// Builds the echoing tool's input schema.
fn echo_schema() -> (j: Json)
    ensures
        j@ == echo_schema_v(),
{
    let mut message_members: Vec<(String, Json)> = Vec::new();
    message_members.push(("type".to_owned(), Json::Str("string".to_owned())));
    message_members.push(
        ("description".to_owned(), Json::Str("The message to echo".to_owned())),
    );
    proof {
        lemma_obj_view(message_members@);
        assert(obj_view(message_members@) =~= seq![
            (("type")@, JsonV::Str(("string")@)),
            (("description")@, JsonV::Str(("The message to echo")@)),
        ]);
    }
    let mut properties: Vec<(String, Json)> = Vec::new();
    properties.push(("message".to_owned(), Json::Obj(message_members)));
    proof {
        lemma_obj_view(properties@);
        assert(obj_view(properties@) =~= seq![
            (
                ("message")@,
                JsonV::Obj(
                    seq![
                        (("type")@, JsonV::Str(("string")@)),
                        (("description")@, JsonV::Str(("The message to echo")@)),
                    ],
                ),
            ),
        ]);
    }
    let mut required: Vec<Json> = Vec::new();
    required.push(Json::Str("message".to_owned()));
    proof {
        lemma_arr_view(required@);
        assert(arr_view(required@) =~= seq![JsonV::Str(("message")@)]);
    }
    let mut schema_members: Vec<(String, Json)> = Vec::new();
    schema_members.push(("type".to_owned(), Json::Str("object".to_owned())));
    schema_members.push(("properties".to_owned(), Json::Obj(properties)));
    schema_members.push(("required".to_owned(), Json::Arr(required)));
    proof {
        lemma_obj_view(schema_members@);
        assert(obj_view(schema_members@) =~= (match echo_schema_v() {
            JsonV::Obj(target) => target,
            _ => Seq::<(Seq<char>, JsonV)>::empty(),
        }));
    }
    Json::Obj(schema_members)
}

/// Registers the echoing tool: its descriptor, and a handler whose prefix
/// comes from the tool's configuration — empty while loading is a stub.
pub fn register(registry: &mut ToolRegistry)
    ensures
        final(registry)@.tools == old(registry)@.tools.push(echo_tool_v()),
        final(registry)@.handlers == old(registry)@.handlers.push(
            (("echo")@, HandlerV::Echo { prefix: Seq::<char>::empty() }),
        ),
        crate::registry::registry_wf(old(registry)@) ==> crate::registry::registry_wf(
            final(registry)@,
        ),
{
    let tool = MCPTool {
        name: "echo".to_owned(),
        description: "Echo a message back to the client.".to_owned(),
        input_schema: echo_schema(),
    };
    let config = get_tool_config("echo");
    proof {
        assert(obj_view(config@) =~= Seq::<(Seq<char>, JsonV)>::empty());
    }
    let prefix = match obj_lookup(&config, &("prefix".to_owned())) {
        Some(Json::Str(p)) => p.clone(),
        _ => String::new(),
    };
    let handler = ToolHandler::Echo(EchoTool { prefix });
    registry.register(tool, handler);
}

/// Builds the registry every transport shares: the echoing tool alone, for
/// now. New tools are registered here.
pub fn initialize_tools() -> (r: ToolRegistry)
    ensures
        r@.tools == seq![echo_tool_v()],
        r@.handlers == seq![(("echo")@, HandlerV::Echo { prefix: Seq::<char>::empty() })],
        crate::registry::registry_wf(r@),
{
    let mut registry = ToolRegistry::new();
    register(&mut registry);
    proof {
        assert(registry@.tools =~= seq![echo_tool_v()]);
        assert(registry@.handlers =~= seq![
            (("echo")@, HandlerV::Echo { prefix: Seq::<char>::empty() }),
        ]);
    }
    registry
}

} // verus!
