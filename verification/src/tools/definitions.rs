//! The tool catalog exposed to the completion API: the closed set of six
//! platform-native tools, each with its name, description and JSON-schema
//! parameters.

use vstd::prelude::*;

verus! {

use vstd::string::StringExecFns;

use crate::jsonval::json_null;
use crate::jsonval::parse_json;
use crate::openrouter::FunctionDefinition;
use crate::openrouter::Tool;

fn make_tool(name: &str, description: &str, schema: &str) -> (t: Tool)
    ensures
        t.tool_type@ == "function"@,
        t.function.name@ == name@,
        t.function.description@ == description@,
{
    let parameters = match parse_json(schema) {
        Some(v) => v,
        None => json_null(),
    };
    Tool {
        tool_type: String::from_str("function"),
        function: FunctionDefinition {
            name: String::from_str(name),
            description: String::from_str(description),
            parameters,
        },
    }
}

/// Returns the tool definitions for the completion API: the closed set
/// that the model may invoke, in a fixed order, each under its stable name.
pub fn get_tool_definitions() -> (r: Vec<Tool>)
    ensures
        r@.len() == 6,
        forall|i: int| 0 <= i < r@.len() ==> (#[trigger] r@[i]).tool_type@ == "function"@,
        r@[0].function.name@ == "search_channel_history"@,
        r@[1].function.name@ == "get_user_info"@,
        r@[2].function.name@ == "get_server_info"@,
        r@[3].function.name@ == "web_search"@,
        r@[4].function.name@ == "generate_image"@,
        r@[5].function.name@ == "generate_audio"@,
{
    let mut tools: Vec<Tool> = Vec::new();
    tools.push(
        make_tool(
            "search_channel_history",
            "Search recent messages in the current Discord channel using semantic search. Understands meaning, not just keywords - 'food discussion' finds messages about pizza, dinner, etc. Searches up to 100 recent messages.",
            "{\"type\":\"object\",\"properties\":{\"query\":{\"type\":\"string\",\"description\":\"What to search for (semantic search - understands meaning)\"},\"username\":{\"type\":\"string\",\"description\":\"Filter messages by author name (fuzzy match)\"},\"limit\":{\"type\":\"integer\",\"description\":\"Maximum number of results to return (default: 20, max: 100)\"}},\"required\":[]}",
        ),
    );
    tools.push(
        make_tool(
            "get_user_info",
            "Get detailed information about a Discord user in the current server, including their user ID, mention string, roles, join date, and avatar.",
            "{\"type\":\"object\",\"properties\":{\"username\":{\"type\":\"string\",\"description\":\"Username or display name to search for (fuzzy match)\"},\"user_id\":{\"type\":\"string\",\"description\":\"Discord user ID (exact match)\"}},\"required\":[]}",
        ),
    );
    tools.push(
        make_tool(
            "get_server_info",
            "Get detailed information about the current Discord server, including member count, boost level, channels, and roles.",
            "{\"type\":\"object\",\"properties\":{},\"required\":[]}",
        ),
    );
    tools.push(
        make_tool(
            "web_search",
            "Search the web for current information, news, or facts. Use when the user asks about recent events or topics that may have changed since your knowledge cutoff.",
            "{\"type\":\"object\",\"properties\":{\"query\":{\"type\":\"string\",\"description\":\"The search query\"}},\"required\":[\"query\"]}",
        ),
    );
    tools.push(
        make_tool(
            "generate_image",
            "Generate or edit images using AI. Creates new images from text descriptions, or edits images from the conversation if the prompt requests modifications. The model automatically sees recent images from the conversation.",
            "{\"type\":\"object\",\"properties\":{\"prompt\":{\"type\":\"string\",\"description\":\"Description of image to generate, or editing instructions (e.g., 'make it purple', 'add a hat')\"},\"aspect_ratio\":{\"type\":\"string\",\"description\":\"Aspect ratio (1:1, 16:9, 9:16, 2:3, 3:2, 3:4, 4:3, 4:5, 5:4, 21:9). Default: 1:1\"},\"size\":{\"type\":\"string\",\"description\":\"Image resolution (1K, 2K, 4K). Default: 1K\"}},\"required\":[\"prompt\"]}",
        ),
    );
    tools.push(
        make_tool(
            "generate_audio",
            "Generate spoken audio from text using AI text-to-speech. Reads the given text aloud in one of the supported voices.",
            "{\"type\":\"object\",\"properties\":{\"text\":{\"type\":\"string\",\"description\":\"The text to speak\"},\"voice\":{\"type\":\"string\",\"description\":\"Voice to use (alloy, echo, fable, onyx, nova, shimmer). Default: alloy\"}},\"required\":[\"text\"]}",
        ),
    );
    tools
}

} // verus!
