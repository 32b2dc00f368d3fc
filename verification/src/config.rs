//! Configuration access for tools. Loading is a stub for now: every tool
//! sees an empty configuration.

use vstd::prelude::*;

use crate::json::duplicate_members;
use crate::json::obj_lookup;
use crate::json::Json;

verus! {

/// The loaded configuration, as the members of a structured document.
/// Loading from a file is not implemented yet: the configuration is empty.
pub fn load_config() -> (r: Vec<(String, Json)>)
    ensures
        r@.len() == 0,
{
    Vec::new()
}

/// The configuration section of one tool: the members under the tool's
/// name inside the `tools` section, or nothing where the configuration
/// has none. With the loading stub this is always empty.
pub fn get_tool_config(tool_name: &str) -> (r: Vec<(String, Json)>)
    ensures
        r@.len() == 0,
{
    let config = load_config();
    proof {
        assert(crate::json::obj_view(config@) =~= Seq::<(Seq<char>, crate::json::JsonV)>::empty());
    }
    match obj_lookup(&config, &("tools".to_owned())) {
        Some(Json::Obj(tools_members)) => {
            match obj_lookup(tools_members, &tool_name.to_owned()) {
                Some(Json::Obj(tool_members)) => duplicate_members(tool_members),
                _ => Vec::new(),
            }
        },
        _ => Vec::new(),
    }
}

} // verus!
