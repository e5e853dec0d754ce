//! The Google Docs MCP server: the tools it offers, how a call is
//! dispatched and answered, and how the Google APIs' answers are read.

use vstd::prelude::*;
use crate::text::{decimal, push_decimal, push_str, str_equals, to_owned_string};

verus! {

/// The tools of the Google Docs server.
#[derive(PartialEq, Eq, Structural, Clone, Copy, Debug)]
pub enum GDocsTool {
    /// `gdocs_list`
    List,
    /// `gdocs_extract`
    Extract,
    /// `gdocs_get_content`
    GetContent,
    /// `gdocs_get_info`
    GetInfo,
}

/// The name under which a tool is called.
pub open spec fn tool_name_spec(t: GDocsTool) -> Seq<char> {
    match t {
        GDocsTool::List => "gdocs_list"@,
        GDocsTool::Extract => "gdocs_extract"@,
        GDocsTool::GetContent => "gdocs_get_content"@,
        GDocsTool::GetInfo => "gdocs_get_info"@,
    }
}

pub fn tool_name(t: GDocsTool) -> (r: &'static str)
    ensures
        r@ == tool_name_spec(t),
{
    match t {
        GDocsTool::List => "gdocs_list",
        GDocsTool::Extract => "gdocs_extract",
        GDocsTool::GetContent => "gdocs_get_content",
        GDocsTool::GetInfo => "gdocs_get_info",
    }
}

proof fn lemma_tool_names_distinct()
    ensures
        forall|a: GDocsTool, b: GDocsTool| tool_name_spec(a) == tool_name_spec(b) ==> a == b,
{
    reveal_strlit("gdocs_list");
    reveal_strlit("gdocs_extract");
    reveal_strlit("gdocs_get_content");
    reveal_strlit("gdocs_get_info");
    assert("gdocs_list"@ != "gdocs_extract"@) by {
        assert("gdocs_list"@.len() != "gdocs_extract"@.len());
    }
    assert("gdocs_list"@ != "gdocs_get_content"@) by {
        assert("gdocs_list"@.len() != "gdocs_get_content"@.len());
    }
    assert("gdocs_list"@ != "gdocs_get_info"@) by {
        assert("gdocs_list"@[6] != "gdocs_get_info"@[6]);
    }
    assert("gdocs_extract"@ != "gdocs_get_content"@) by {
        assert("gdocs_extract"@.len() != "gdocs_get_content"@.len());
    }
    assert("gdocs_extract"@ != "gdocs_get_info"@) by {
        assert("gdocs_extract"@.len() != "gdocs_get_info"@.len());
    }
    assert("gdocs_get_content"@ != "gdocs_get_info"@) by {
        assert("gdocs_get_content"@.len() != "gdocs_get_info"@.len());
    }
}

/// The tool called `name`, if the server has one.
pub fn tool_named(name: &str) -> (r: Option<GDocsTool>)
    ensures
        r matches Some(t) ==> tool_name_spec(t) == name@,
        r is None ==> forall|t: GDocsTool| tool_name_spec(t) != name@,
{
    proof {
        lemma_tool_names_distinct();
    }
    if str_equals(name, "gdocs_list") {
        Some(GDocsTool::List)
    } else if str_equals(name, "gdocs_extract") {
        Some(GDocsTool::Extract)
    } else if str_equals(name, "gdocs_get_content") {
        Some(GDocsTool::GetContent)
    } else if str_equals(name, "gdocs_get_info") {
        Some(GDocsTool::GetInfo)
    } else {
        proof {
            assert forall|t: GDocsTool| tool_name_spec(t) != name@ by {
                match t {
                    GDocsTool::List => {},
                    GDocsTool::Extract => {},
                    GDocsTool::GetContent => {},
                    GDocsTool::GetInfo => {},
                }
            }
        }
        None
    }
}

/// The answer to an unauthenticated call.
pub open spec fn not_authenticated_text() -> Seq<char> {
    "Error: Not authenticated. Please complete OAuth flow first."@
}

/// The reply to a call made without an access token.
pub fn not_authenticated_reply() -> (r: ToolReply)
    ensures
        r.is_error,
        r.text@ == not_authenticated_text(),
{
    ToolReply { is_error: true, text: to_owned_string("Error: Not authenticated. Please complete OAuth flow first.") }
}

/// The first step of a tool call: without an access token the call is
/// refused; an unknown name is refused as `Unknown tool: {name}`.
pub fn begin_tool_call(authenticated: bool, name: &str) -> (r: Result<GDocsTool, String>)
    ensures
        !authenticated ==> (r matches Err(e) && e@ == not_authenticated_text()),
        authenticated ==> match r {
            Ok(t) => tool_name_spec(t) == name@,
            Err(e) => e@ == "Unknown tool: "@ + name@ && forall|t: GDocsTool| tool_name_spec(t) != name@,
        },
        authenticated && (exists|t: GDocsTool| tool_name_spec(t) == name@) ==> r is Ok,
{
    if !authenticated {
        return Err(to_owned_string("Error: Not authenticated. Please complete OAuth flow first."));
    }
    match tool_named(name) {
        Some(t) => Ok(t),
        None => {
            let mut e = to_owned_string("Unknown tool: ");
            push_str(&mut e, name);
            Err(e)
        },
    }
}

/// A call whose arguments do not fit the tool is answered with the parser's
/// error.
pub fn invalid_arguments_text(error: &str) -> (r: String)
    ensures
        r@ == "Invalid arguments: "@ + error@,
{
    let mut e = to_owned_string("Invalid arguments: ");
    push_str(&mut e, error);
    e
}

/// What a tool call asks of the Google APIs, its arguments settled.
pub enum GDocsRequest {
    List { query: Option<String>, limit: usize },
    Extract { doc_id: String },
    Content { doc_id: String, as_text: bool },
    Info { doc_id: String },
}

/// `gdocs_list`: at most `limit` documents, 20 when not given.
pub fn list_request(query: Option<String>, limit: Option<usize>) -> (r: GDocsRequest)
    ensures
        r matches GDocsRequest::List { query: q, limit: l } && q == query && l == (match limit {
            Some(n) => n,
            None => 20,
        }),
{
    let l = match limit {
        Some(n) => n,
        None => 20,
    };
    GDocsRequest::List { query, limit: l }
}

/// `gdocs_get_content`: plain text when the format is `text`, Markdown
/// otherwise.
pub fn content_request(doc_id: String, format: Option<String>) -> (r: GDocsRequest)
    ensures
        r matches GDocsRequest::Content { doc_id: d, as_text } && d == doc_id && as_text == (
        format matches Some(f) && f@ == "text"@),
{
    let as_text = match &format {
        Some(f) => str_equals(f.as_str(), "text"),
        None => false,
    };
    GDocsRequest::Content { doc_id, as_text }
}

/// The answer of a tool call: its text, and whether it reports an error.
pub struct ToolReply {
    pub is_error: bool,
    pub text: String,
}

/// How a failure of each tool is reported.
pub open spec fn failure_prefix(t: GDocsTool) -> Seq<char> {
    match t {
        GDocsTool::List => "Error listing documents: "@,
        GDocsTool::Extract => "Error extracting document: "@,
        GDocsTool::GetContent => "Error getting document content: "@,
        GDocsTool::GetInfo => "Error getting document info: "@,
    }
}

/// The reply to a tool call from what the APIs gave: the result text as a
/// success, or the failure under the tool's prefix as an error.
pub fn tool_reply(t: GDocsTool, outcome: Result<String, String>) -> (r: ToolReply)
    ensures
        match outcome {
            Ok(text) => !r.is_error && r.text == text,
            Err(e) => r.is_error && r.text@ == failure_prefix(t) + e@,
        },
{
    match outcome {
        Ok(text) => ToolReply { is_error: false, text },
        Err(e) => {
            let mut m = match t {
                GDocsTool::List => to_owned_string("Error listing documents: "),
                GDocsTool::Extract => to_owned_string("Error extracting document: "),
                GDocsTool::GetContent => to_owned_string("Error getting document content: "),
                GDocsTool::GetInfo => to_owned_string("Error getting document info: "),
            };
            push_str(&mut m, e.as_str());
            ToolReply { is_error: true, text: m }
        },
    }
}

/// The refusal replies of a call (not authenticated, unknown tool, bad
/// arguments) are errors too.
pub fn refusal_reply(text: String) -> (r: ToolReply)
    ensures
        r.is_error,
        r.text == text,
{
    ToolReply { is_error: true, text }
}

/// Which Google API answered.
#[derive(PartialEq, Eq, Structural, Clone, Copy, Debug)]
pub enum GoogleApi {
    /// Drive file listing.
    Drive,
    /// Docs documents.
    Docs,
    /// Drive exports.
    DriveExport,
}

/// The error for an API answer with a failure status (`status` is the
/// status line, such as `404 Not Found`).
pub open spec fn api_error_spec(api: GoogleApi, status: Seq<char>, body: Seq<char>) -> Seq<char> {
    (match api {
        GoogleApi::Drive => "Drive API error ("@,
        GoogleApi::Docs => "Docs API error ("@,
        GoogleApi::DriveExport => "Drive API export error ("@,
    }) + status + "): "@ + body
}

pub fn api_error(api: GoogleApi, status: &str, body: &str) -> (r: String)
    ensures
        r@ == api_error_spec(api, status@, body@),
{
    let mut m = match api {
        GoogleApi::Drive => to_owned_string("Drive API error ("),
        GoogleApi::Docs => to_owned_string("Docs API error ("),
        GoogleApi::DriveExport => to_owned_string("Drive API export error ("),
    };
    push_str(&mut m, status);
    push_str(&mut m, "): ");
    push_str(&mut m, body);
    m
}

/// The error for an image the Docs API links to but does not serve.
pub fn image_fetch_error(status: &str) -> (r: String)
    ensures
        r@ == "Failed to fetch image ("@ + status@ + ")"@,
{
    let mut m = to_owned_string("Failed to fetch image (");
    push_str(&mut m, status);
    push_str(&mut m, ")");
    m
}

/// The type of a tool parameter in its JSON schema.
#[derive(PartialEq, Eq, Structural, Clone, Copy, Debug)]
pub enum ParamType {
    Text,
    Integer,
}

/// A parameter of a tool as its input schema describes it.
pub struct ParamSpec {
    pub name: String,
    pub kind: ParamType,
    pub description: String,
    /// The default value, as JSON text.
    pub default_value: Option<String>,
    /// The values a text parameter may take, when restricted.
    pub allowed: Vec<String>,
    pub required: bool,
}

/// A tool as the server lists it.
pub struct ToolSpec {
    pub name: String,
    pub description: String,
    pub params: Vec<ParamSpec>,
}

fn param(name: &str, kind: ParamType, description: &str, default_value: Option<&str>, required: bool) -> (r:
    ParamSpec)
    ensures
        r.name@ == name@,
        r.kind == kind,
        r.description@ == description@,
        r.default_value matches Some(d) ==> default_value matches Some(x) && d@ == x@,
        r.default_value is None ==> default_value is None,
        r.allowed@.len() == 0,
        r.required == required,
{
    ParamSpec {
        name: to_owned_string(name),
        kind,
        description: to_owned_string(description),
        default_value: match default_value {
            Some(d) => Some(to_owned_string(d)),
            None => None,
        },
        allowed: Vec::new(),
        required,
    }
}

/// The one parameter of the tools that act on a document.
pub open spec fn is_doc_id_param(p: ParamSpec) -> bool {
    &&& p.name@ == "doc_id"@
    &&& p.kind == ParamType::Text
    &&& p.description@ == "The Google Doc ID"@
    &&& p.default_value is None
    &&& p.allowed@.len() == 0
    &&& p.required
}

/// The tools the Google Docs server lists, in order: `gdocs_list` (optional
/// `query` and `limit`, default 20), `gdocs_extract`, `gdocs_get_content`
/// (with a `format` of `text` or `markdown`, default `markdown`) and
/// `gdocs_get_info`, each of the last three requiring a `doc_id`.
pub fn gdocs_tool_specs() -> (r: Vec<ToolSpec>)
    ensures
        r@.len() == 4,
        r@[0].name@ == tool_name_spec(GDocsTool::List),
        r@[0].description@ == "List Google Docs from the user's Drive"@,
        r@[0].params@.len() == 2,
        r@[0].params@[0].name@ == "query"@ && r@[0].params@[0].kind == ParamType::Text
            && !r@[0].params@[0].required && r@[0].params@[0].default_value is None,
        r@[0].params@[0].description@ == "Optional search query to filter documents"@,
        r@[0].params@[1].name@ == "limit"@ && r@[0].params@[1].kind == ParamType::Integer
            && !r@[0].params@[1].required,
        r@[0].params@[1].default_value matches Some(d) && d@ == "20"@,
        r@[0].params@[1].description@ == "Maximum number of documents to return (default: 20, max: 100)"@,
        r@[1].name@ == tool_name_spec(GDocsTool::Extract),
        r@[1].description@ == "Extract a Google Doc with all tabs and images. Returns raw tab content (HTML) and base64-encoded images for storage by noema-core."@,
        r@[1].params@.len() == 1 && is_doc_id_param(r@[1].params@[0]),
        r@[2].name@ == tool_name_spec(GDocsTool::GetContent),
        r@[2].description@ == "Get the content of a Google Doc as markdown (simple export, no multi-tab support)"@,
        r@[2].params@.len() == 2 && is_doc_id_param(r@[2].params@[0]),
        r@[2].params@[1].name@ == "format"@ && r@[2].params@[1].kind == ParamType::Text
            && !r@[2].params@[1].required,
        r@[2].params@[1].default_value matches Some(d) && d@ == "\"markdown\""@,
        r@[2].params@[1].description@ == "Output format (default: markdown)"@,
        r@[2].params@[1].allowed@.len() == 2 && r@[2].params@[1].allowed@[0]@ == "text"@
            && r@[2].params@[1].allowed@[1]@ == "markdown"@,
        r@[3].name@ == tool_name_spec(GDocsTool::GetInfo),
        r@[3].description@ == "Get metadata about a Google Doc"@,
        r@[3].params@.len() == 1 && is_doc_id_param(r@[3].params@[0]),
{
    let mut tools: Vec<ToolSpec> = Vec::new();

    let mut list_params: Vec<ParamSpec> = Vec::new();
    list_params.push(param("query", ParamType::Text, "Optional search query to filter documents", None, false));
    list_params.push(
        param(
            "limit",
            ParamType::Integer,
            "Maximum number of documents to return (default: 20, max: 100)",
            Some("20"),
            false,
        ),
    );
    tools.push(
        ToolSpec {
            name: to_owned_string(tool_name(GDocsTool::List)),
            description: to_owned_string("List Google Docs from the user's Drive"),
            params: list_params,
        },
    );

    let mut extract_params: Vec<ParamSpec> = Vec::new();
    extract_params.push(param("doc_id", ParamType::Text, "The Google Doc ID", None, true));
    tools.push(
        ToolSpec {
            name: to_owned_string(tool_name(GDocsTool::Extract)),
            description: to_owned_string(
                "Extract a Google Doc with all tabs and images. Returns raw tab content (HTML) and base64-encoded images for storage by noema-core.",
            ),
            params: extract_params,
        },
    );

    let mut content_params: Vec<ParamSpec> = Vec::new();
    content_params.push(param("doc_id", ParamType::Text, "The Google Doc ID", None, true));
    let mut format = param(
        "format",
        ParamType::Text,
        "Output format (default: markdown)",
        Some("\"markdown\""),
        false,
    );
    format.allowed.push(to_owned_string("text"));
    format.allowed.push(to_owned_string("markdown"));
    content_params.push(format);
    tools.push(
        ToolSpec {
            name: to_owned_string(tool_name(GDocsTool::GetContent)),
            description: to_owned_string(
                "Get the content of a Google Doc as markdown (simple export, no multi-tab support)",
            ),
            params: content_params,
        },
    );

    let mut info_params: Vec<ParamSpec> = Vec::new();
    info_params.push(param("doc_id", ParamType::Text, "The Google Doc ID", None, true));
    tools.push(
        ToolSpec {
            name: to_owned_string(tool_name(GDocsTool::GetInfo)),
            description: to_owned_string("Get metadata about a Google Doc"),
            params: info_params,
        },
    );
    tools
}

/// The instructions the server gives its clients.
pub fn server_instructions() -> (r: &'static str)
    ensures
        r@ == "Google Docs MCP server for Noema. Provides tools to list, read, and extract Google Docs with full multi-tab and image support."@,
{
    "Google Docs MCP server for Noema. Provides tools to list, read, and extract Google Docs with full multi-tab and image support."
}

/// The URL of the server's MCP endpoint on the loopback interface.
pub fn mcp_endpoint_url(port: u16) -> (r: String)
    ensures
        r@ == "http://127.0.0.1:"@ + decimal(port as nat) + "/mcp"@,
{
    let mut s = to_owned_string("http://127.0.0.1:");
    push_decimal(&mut s, port as u64);
    push_str(&mut s, "/mcp");
    s
}

} // verus!
