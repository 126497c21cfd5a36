//! Tool executor: matches a requested tool name against the closed set,
//! parses and validates its JSON arguments, and hands back a typed request
//! for the caller to perform.  The argument text fully determines the
//! outcome: the contract says, field by field, which request or which
//! error a given text resolves to.

use vstd::prelude::*;

verus! {

use vstd::string::StringExecFns;

use crate::error::BotError;
use crate::jsonval::has_field_of;
use crate::jsonval::json_has_field;
use crate::jsonval::json_object_of;
use crate::jsonval::json_object_text;
use crate::jsonval::json_str_field;
use crate::jsonval::json_u64_field;
use crate::jsonval::str_field_of;
use crate::jsonval::u64_field_of;
use crate::strutil::digits_val;
use crate::strutil::parse_u64;
use crate::strutil::parse_u64_ok;
use crate::strutil::str_eq;

/// Context needed to execute tools.
pub struct ToolContext {
    pub channel_id: u64,
    pub guild_id: Option<u64>,
    /// Image URLs from the conversation history (most recent first)
    pub recent_images: Vec<String>,
}

/// Image attachment data to be sent back to the platform.
pub struct ImageAttachment {
    /// Raw image bytes (decoded from base64)
    pub data: Vec<u8>,
    /// Filename for the attachment
    pub filename: String,
}

/// Audio attachment data to be sent back to the platform.
pub struct AudioAttachment {
    /// Raw audio bytes
    pub data: Vec<u8>,
    /// Filename for the attachment
    pub filename: String,
}

/// Output from a tool execution.
pub struct ToolOutput {
    /// Text result for the conversation
    pub text: String,
    /// Optional image to send as an attachment
    pub image: Option<ImageAttachment>,
    /// Optional audio to send as an attachment
    pub audio: Option<AudioAttachment>,
}

impl ToolOutput {
    /// Create a text-only output.
    pub fn text(text: String) -> (r: Self)
        ensures
            r.text == text,
            r.image is None,
            r.audio is None,
    {
        Self { text, image: None, audio: None }
    }

    /// Create an output with both text and an image.
    pub fn with_image(text: String, data: Vec<u8>, filename: String) -> (r: Self)
        ensures
            r.text == text,
            r.image matches Some(img) && img.data == data && img.filename == filename,
            r.audio is None,
    {
        Self { text, image: Some(ImageAttachment { data, filename }), audio: None }
    }

    /// Create an output with both text and audio.
    pub fn with_audio(text: String, data: Vec<u8>, filename: String) -> (r: Self)
        ensures
            r.text == text,
            r.image is None,
            r.audio matches Some(aud) && aud.data == data && aud.filename == filename,
    {
        Self { text, image: None, audio: Some(AudioAttachment { data, filename }) }
    }
}

/// The closed set of tools.
#[derive(Debug, Clone, Copy, PartialEq, Eq, Structural)]
pub enum ToolKind {
    SearchChannelHistory,
    GetUserInfo,
    GetServerInfo,
    WebSearch,
    GenerateImage,
    GenerateAudio,
}

/// Which tool a name denotes, if any.
pub open spec fn tool_kind_of(name: Seq<char>) -> Option<ToolKind> {
    if name == "search_channel_history"@ {
        Some(ToolKind::SearchChannelHistory)
    } else if name == "get_user_info"@ {
        Some(ToolKind::GetUserInfo)
    } else if name == "get_server_info"@ {
        Some(ToolKind::GetServerInfo)
    } else if name == "web_search"@ {
        Some(ToolKind::WebSearch)
    } else if name == "generate_image"@ {
        Some(ToolKind::GenerateImage)
    } else if name == "generate_audio"@ {
        Some(ToolKind::GenerateAudio)
    } else {
        None
    }
}

/// Matches a tool name against the closed set.
pub fn resolve_tool_name(name: &str) -> (r: Option<ToolKind>)
    ensures
        r == tool_kind_of(name@),
{
    if str_eq(name, "search_channel_history") {
        Some(ToolKind::SearchChannelHistory)
    } else if str_eq(name, "get_user_info") {
        Some(ToolKind::GetUserInfo)
    } else if str_eq(name, "get_server_info") {
        Some(ToolKind::GetServerInfo)
    } else if str_eq(name, "web_search") {
        Some(ToolKind::WebSearch)
    } else if str_eq(name, "generate_image") {
        Some(ToolKind::GenerateImage)
    } else if str_eq(name, "generate_audio") {
        Some(ToolKind::GenerateAudio)
    } else {
        None
    }
}

/// A validated tool invocation, ready to perform.
pub enum ToolRequest {
    SearchChannelHistory { query: Option<String>, username: Option<String>, limit: usize },
    GetUserInfo { user_id: Option<u64>, username: Option<String> },
    GetServerInfo,
    WebSearch { query: String },
    GenerateImage { prompt: String, aspect_ratio: Option<String>, size: Option<String> },
    GenerateAudio { text: String, voice: Option<String> },
}

/// The kind a request belongs to.
pub open spec fn request_kind(req: ToolRequest) -> ToolKind {
    match req {
        ToolRequest::SearchChannelHistory { .. } => ToolKind::SearchChannelHistory,
        ToolRequest::GetUserInfo { .. } => ToolKind::GetUserInfo,
        ToolRequest::GetServerInfo => ToolKind::GetServerInfo,
        ToolRequest::WebSearch { .. } => ToolKind::WebSearch,
        ToolRequest::GenerateImage { .. } => ToolKind::GenerateImage,
        ToolRequest::GenerateAudio { .. } => ToolKind::GenerateAudio,
    }
}

/// The effective result limit for a history search: the requested limit,
/// defaulting to twenty, capped at one hundred.
pub open spec fn clamp_limit_spec(limit: Option<u64>) -> int {
    let l = match limit {
        Some(l) => l as int,
        None => 20,
    };
    if l <= 100 {
        l
    } else {
        100
    }
}

/// Applies the default and the cap to a requested result limit.
pub fn clamp_limit(limit: Option<u64>) -> (r: usize)
    ensures
        r == clamp_limit_spec(limit),
{
    let l: u64 = match limit {
        Some(l) => l,
        None => 20,
    };
    if l <= 100 {
        l as usize
    } else {
        100
    }
}

/// Whether the named field is there but does not hold a string.
pub open spec fn bad_str_field(args: Seq<char>, key: Seq<char>) -> bool {
    has_field_of(args, key) && str_field_of(args, key) is None
}

/// Whether the named field is there but does not hold an unsigned number.
pub open spec fn bad_u64_field(args: Seq<char>, key: Seq<char>) -> bool {
    has_field_of(args, key) && u64_field_of(args, key) is None
}

/// The parse error that refuses an ill-typed field.
pub open spec fn json_field_err(r: Result<ToolRequest, BotError>, key: Seq<char>) -> bool {
    r matches Err(e) && e matches BotError::Json(s) && s@ == "invalid field `"@ + key + "`"@
}

/// Whether an optional request value carries exactly the field's string.
pub open spec fn opt_str_matches(v: Option<String>, f: Option<Seq<char>>) -> bool {
    match f {
        Some(x) => v matches Some(s) && s@ == x,
        None => v is None,
    }
}

/// What a history search resolves to: each ill-typed field is refused by
/// name; otherwise the request carries the given query and username and
/// the clamped limit.
pub open spec fn search_resolve_rel(args: Seq<char>, r: Result<ToolRequest, BotError>) -> bool {
    if bad_str_field(args, "query"@) {
        json_field_err(r, "query"@)
    } else if bad_str_field(args, "username"@) {
        json_field_err(r, "username"@)
    } else if bad_u64_field(args, "limit"@) {
        json_field_err(r, "limit"@)
    } else {
        r matches Ok(req) && req matches ToolRequest::SearchChannelHistory {
            query,
            username,
            limit,
        } && opt_str_matches(query, str_field_of(args, "query"@)) && opt_str_matches(
            username,
            str_field_of(args, "username"@),
        ) && limit == clamp_limit_spec(u64_field_of(args, "limit"@))
    }
}

/// What a user lookup resolves to: ill-typed fields are refused by name;
/// then a server is needed; then the id (which must read as a number)
/// takes precedence over the username; with neither, the lookup is
/// refused.
pub open spec fn user_info_resolve_rel(
    args: Seq<char>,
    guild_id: Option<u64>,
    r: Result<ToolRequest, BotError>,
) -> bool {
    if bad_str_field(args, "user_id"@) {
        json_field_err(r, "user_id"@)
    } else if bad_str_field(args, "username"@) {
        json_field_err(r, "username"@)
    } else if guild_id is None {
        r matches Err(e) && e matches BotError::ToolExecution(s) && s@
            == "Not in a server (DM context)"@
    } else {
        match str_field_of(args, "user_id"@) {
            Some(id) => {
                if parse_u64_ok(id) {
                    r matches Ok(req) && req matches ToolRequest::GetUserInfo {
                        user_id: uid,
                        username: un,
                    } && uid == Some(digits_val(id) as u64) && opt_str_matches(
                        un,
                        str_field_of(args, "username"@),
                    )
                } else {
                    r matches Err(e) && e matches BotError::Parse(s) && s@ == "invalid user id"@
                }
            },
            None => match str_field_of(args, "username"@) {
                Some(u) => r matches Ok(req) && req matches ToolRequest::GetUserInfo {
                    user_id: uid,
                    username: un,
                } && un matches Some(us) && uid is None && us@ == u,
                None => r matches Err(e) && e matches BotError::ToolExecution(s) && s@
                    == "Must provide either username or user_id"@,
            },
        }
    }
}

/// What a server lookup resolves to: without a server it is the
/// not-in-server error, with one it is the bare request.
pub open spec fn server_info_resolve_rel(
    guild_id: Option<u64>,
    r: Result<ToolRequest, BotError>,
) -> bool {
    match guild_id {
        None => r matches Err(e) && e is NotInServer,
        Some(_) => r matches Ok(req) && req is GetServerInfo,
    }
}

/// What a web search resolves to: the query is required and must be a
/// string.
pub open spec fn web_search_resolve_rel(args: Seq<char>, r: Result<ToolRequest, BotError>) -> bool {
    if bad_str_field(args, "query"@) {
        json_field_err(r, "query"@)
    } else {
        match str_field_of(args, "query"@) {
            Some(q) => r matches Ok(req) && req matches ToolRequest::WebSearch { query } && query@
                == q,
            None => r matches Err(e) && e matches BotError::Json(s) && s@
                == "missing field `query`"@,
        }
    }
}

/// What an image generation resolves to: the prompt is required, the
/// aspect ratio and size optional; every ill-typed field is refused by
/// name.
pub open spec fn image_resolve_rel(args: Seq<char>, r: Result<ToolRequest, BotError>) -> bool {
    if bad_str_field(args, "prompt"@) {
        json_field_err(r, "prompt"@)
    } else if bad_str_field(args, "aspect_ratio"@) {
        json_field_err(r, "aspect_ratio"@)
    } else if bad_str_field(args, "size"@) {
        json_field_err(r, "size"@)
    } else {
        match str_field_of(args, "prompt"@) {
            Some(p) => r matches Ok(req) && req matches ToolRequest::GenerateImage {
                prompt,
                aspect_ratio,
                size,
            } && prompt@ == p && opt_str_matches(aspect_ratio, str_field_of(args, "aspect_ratio"@))
                && opt_str_matches(size, str_field_of(args, "size"@)),
            None => r matches Err(e) && e matches BotError::Json(s) && s@
                == "missing field `prompt`"@,
        }
    }
}

/// What an audio generation resolves to: the text is required, the voice
/// optional; ill-typed fields are refused by name.
pub open spec fn audio_resolve_rel(args: Seq<char>, r: Result<ToolRequest, BotError>) -> bool {
    if bad_str_field(args, "text"@) {
        json_field_err(r, "text"@)
    } else if bad_str_field(args, "voice"@) {
        json_field_err(r, "voice"@)
    } else {
        match str_field_of(args, "text"@) {
            Some(t) => r matches Ok(req) && req matches ToolRequest::GenerateAudio {
                text,
                voice,
            } && text@ == t && opt_str_matches(voice, str_field_of(args, "voice"@)),
            None => r matches Err(e) && e matches BotError::Json(s) && s@
                == "missing field `text`"@,
        }
    }
}

/// Reads an optional string field: the value when well-typed, the parse
/// error naming the field when it is there but holds something else.
fn read_str_field(arguments: &str, key: &str) -> (r: Result<Option<String>, BotError>)
    ensures
        bad_str_field(arguments@, key@) ==> (r matches Err(e) && e matches BotError::Json(s) && s@
            == "invalid field `"@ + key@ + "`"@),
        !bad_str_field(arguments@, key@) ==> (r matches Ok(v) && opt_str_matches(
            v,
            str_field_of(arguments@, key@),
        )),
{
    let present = json_has_field(arguments, key);
    let value = json_str_field(arguments, key);
    if present && value.is_none() {
        let mut s = String::from_str("invalid field `");
        s.append(key);
        s.append("`");
        proof {
            assert(s@ =~= "invalid field `"@ + key@ + "`"@);
        }
        return Err(BotError::Json(s));
    }
    Ok(value)
}

/// Reads an optional unsigned number field, in the same way.
fn read_u64_field(arguments: &str, key: &str) -> (r: Result<Option<u64>, BotError>)
    ensures
        bad_u64_field(arguments@, key@) ==> (r matches Err(e) && e matches BotError::Json(s) && s@
            == "invalid field `"@ + key@ + "`"@),
        !bad_u64_field(arguments@, key@) ==> (r matches Ok(v) && v == u64_field_of(
            arguments@,
            key@,
        )),
{
    let present = json_has_field(arguments, key);
    let value = json_u64_field(arguments, key);
    if present && value.is_none() {
        let mut s = String::from_str("invalid field `");
        s.append(key);
        s.append("`");
        proof {
            assert(s@ =~= "invalid field `"@ + key@ + "`"@);
        }
        return Err(BotError::Json(s));
    }
    Ok(value)
}

/// Validates a user lookup on already-extracted fields: it needs a server,
/// and either an id (which must read as a number) or a username; with
/// neither, it fails.
pub fn user_info_request(
    user_id: Option<String>,
    username: Option<String>,
    guild_id: Option<u64>,
) -> (r: Result<ToolRequest, BotError>)
    ensures
        guild_id is None ==> (r matches Err(e) && e matches BotError::ToolExecution(s) && s@
            == "Not in a server (DM context)"@),
        guild_id is Some ==> match user_id {
            Some(id) => {
                if parse_u64_ok(id@) {
                    r matches Ok(req) && req matches ToolRequest::GetUserInfo {
                        user_id: uid,
                        username: un,
                    } && uid == Some(digits_val(id@) as u64) && un == username
                } else {
                    r matches Err(e) && e matches BotError::Parse(s) && s@
                        == "invalid user id"@
                }
            },
            None => match username {
                Some(un) => r matches Ok(req) && req matches ToolRequest::GetUserInfo {
                    user_id: uid,
                    username: un2,
                } && uid is None && un2 == Some(un),
                None => r matches Err(e) && e matches BotError::ToolExecution(s) && s@
                    == "Must provide either username or user_id"@,
            },
        },
{
    if guild_id.is_none() {
        return Err(BotError::ToolExecution(String::from_str("Not in a server (DM context)")));
    }
    match user_id {
        Some(id) => match parse_u64(id.as_str()) {
            Some(uid) => Ok(ToolRequest::GetUserInfo { user_id: Some(uid), username }),
            None => Err(BotError::Parse(String::from_str("invalid user id"))),
        },
        None => match username {
            Some(un) => Ok(ToolRequest::GetUserInfo { user_id: None, username: Some(un) }),
            None => Err(
                BotError::ToolExecution(
                    String::from_str("Must provide either username or user_id"),
                ),
            ),
        },
    }
}

/// Validates a web search on an already-extracted field: the query is
/// required.
pub fn web_search_request(query: Option<String>) -> (r: Result<ToolRequest, BotError>)
    ensures
        match query {
            Some(q) => r matches Ok(req) && req matches ToolRequest::WebSearch { query: q2 } && q2
                == q,
            None => r matches Err(e) && e matches BotError::Json(s) && s@
                == "missing field `query`"@,
        },
{
    match query {
        Some(q) => Ok(ToolRequest::WebSearch { query: q }),
        None => Err(BotError::Json(String::from_str("missing field `query`"))),
    }
}

/// Executor for the platform-native tools.
pub struct ToolExecutor;

impl ToolExecutor {
    /// Resolves a tool call into a validated request.  An unknown name is
    /// refused outright; arguments that are not a JSON object are refused
    /// as a parse error; for a known tool, the argument text alone
    /// determines, field by field, the request that comes back or the
    /// error that refuses it.
    pub fn resolve(name: &str, arguments: &str, guild_id: Option<u64>) -> (r: Result<
        ToolRequest,
        BotError,
    >)
        ensures
            tool_kind_of(name@) is None ==> (r matches Err(e) && e matches BotError::ToolExecution(
                s,
            ) && s@ == "Unknown tool: "@ + name@),
            r matches Ok(req) ==> tool_kind_of(name@) == Some(request_kind(req)),
            (tool_kind_of(name@) is Some && !json_object_of(arguments@)) ==> (r matches Err(e)
                && e matches BotError::Json(s) && s@ == "arguments must be a JSON object"@),
            (tool_kind_of(name@) == Some(ToolKind::SearchChannelHistory) && json_object_of(
                arguments@,
            )) ==> search_resolve_rel(arguments@, r),
            (tool_kind_of(name@) == Some(ToolKind::GetUserInfo) && json_object_of(arguments@))
                ==> user_info_resolve_rel(arguments@, guild_id, r),
            (tool_kind_of(name@) == Some(ToolKind::GetServerInfo) && json_object_of(arguments@))
                ==> server_info_resolve_rel(guild_id, r),
            (tool_kind_of(name@) == Some(ToolKind::WebSearch) && json_object_of(arguments@))
                ==> web_search_resolve_rel(arguments@, r),
            (tool_kind_of(name@) == Some(ToolKind::GenerateImage) && json_object_of(arguments@))
                ==> image_resolve_rel(arguments@, r),
            (tool_kind_of(name@) == Some(ToolKind::GenerateAudio) && json_object_of(arguments@))
                ==> audio_resolve_rel(arguments@, r),
    {
        let kind = match resolve_tool_name(name) {
            Some(kind) => kind,
            None => {
                let mut s = String::from_str("Unknown tool: ");
                s.append(name);
                proof {
                    assert(s@ =~= "Unknown tool: "@ + name@);
                }
                return Err(BotError::ToolExecution(s));
            },
        };
        if !json_object_text(arguments) {
            return Err(BotError::Json(String::from_str("arguments must be a JSON object")));
        }
        match kind {
            ToolKind::SearchChannelHistory => {
                let query = match read_str_field(arguments, "query") {
                    Ok(v) => v,
                    Err(e) => {
                        return Err(e);
                    },
                };
                let username = match read_str_field(arguments, "username") {
                    Ok(v) => v,
                    Err(e) => {
                        return Err(e);
                    },
                };
                let limit = match read_u64_field(arguments, "limit") {
                    Ok(v) => v,
                    Err(e) => {
                        return Err(e);
                    },
                };
                Ok(
                    ToolRequest::SearchChannelHistory {
                        query,
                        username,
                        limit: clamp_limit(limit),
                    },
                )
            },
            ToolKind::GetUserInfo => {
                let user_id = match read_str_field(arguments, "user_id") {
                    Ok(v) => v,
                    Err(e) => {
                        return Err(e);
                    },
                };
                let username = match read_str_field(arguments, "username") {
                    Ok(v) => v,
                    Err(e) => {
                        return Err(e);
                    },
                };
                user_info_request(user_id, username, guild_id)
            },
            ToolKind::GetServerInfo => {
                if guild_id.is_none() {
                    return Err(BotError::NotInServer);
                }
                Ok(ToolRequest::GetServerInfo)
            },
            ToolKind::WebSearch => {
                let query = match read_str_field(arguments, "query") {
                    Ok(v) => v,
                    Err(e) => {
                        return Err(e);
                    },
                };
                web_search_request(query)
            },
            ToolKind::GenerateImage => {
                let prompt = match read_str_field(arguments, "prompt") {
                    Ok(v) => v,
                    Err(e) => {
                        return Err(e);
                    },
                };
                let aspect_ratio = match read_str_field(arguments, "aspect_ratio") {
                    Ok(v) => v,
                    Err(e) => {
                        return Err(e);
                    },
                };
                let size = match read_str_field(arguments, "size") {
                    Ok(v) => v,
                    Err(e) => {
                        return Err(e);
                    },
                };
                let prompt = match prompt {
                    Some(p) => p,
                    None => {
                        return Err(BotError::Json(String::from_str("missing field `prompt`")));
                    },
                };
                Ok(ToolRequest::GenerateImage { prompt, aspect_ratio, size })
            },
            ToolKind::GenerateAudio => {
                let text = match read_str_field(arguments, "text") {
                    Ok(v) => v,
                    Err(e) => {
                        return Err(e);
                    },
                };
                let voice = match read_str_field(arguments, "voice") {
                    Ok(v) => v,
                    Err(e) => {
                        return Err(e);
                    },
                };
                let text = match text {
                    Some(t) => t,
                    None => {
                        return Err(BotError::Json(String::from_str("missing field `text`")));
                    },
                };
                Ok(ToolRequest::GenerateAudio { text, voice })
            },
        }
    }
}

} // verus!
