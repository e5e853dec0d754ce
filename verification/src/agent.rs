//! The core MCP server: `spawn_agent`, which runs a task in a
//! subconversation of the conversation that asked for it.

use vstd::prelude::*;
use crate::gdocs_tools::{ParamSpec, ParamType, ToolReply, ToolSpec};
use crate::model::{ChatMessage, ChatPayload, ContentBlock, Role, clone_opt_string, opt_view};
use crate::text::{push_str, str_equals, to_owned_string};

verus! {

/// The identifiers an agent injects into a tool call (`_context`).
pub struct ExecutionContext {
    pub user_id: Option<String>,
    pub conversation_id: Option<String>,
    pub turn_id: Option<String>,
    pub span_id: Option<String>,
    pub model_id: Option<String>,
}

impl ExecutionContext {
    /// A context names the user, the conversation, the turn and the model.
    pub open spec fn ready(&self) -> bool {
        &&& self.user_id is Some
        &&& self.conversation_id is Some
        &&& self.turn_id is Some
        &&& self.model_id is Some
    }

    pub fn is_ready(&self) -> (b: bool)
        ensures
            b == self.ready(),
    {
        self.user_id.is_some() && self.conversation_id.is_some() && self.turn_id.is_some()
            && self.model_id.is_some()
    }
}

/// The arguments of `spawn_agent`, with the context the agent injected.
pub struct SpawnAgentArgs {
    pub prompt: String,
    pub system_prompt: Option<String>,
    pub name: Option<String>,
    pub context: ExecutionContext,
}

/// A subconversation to spawn, its identifiers settled.
pub struct SpawnPlan {
    pub conversation_id: String,
    pub user_id: String,
    pub turn_id: String,
    pub span_id: Option<String>,
    pub model_id: String,
    pub prompt: String,
    pub system_prompt: Option<String>,
    pub name: Option<String>,
}

/// The name of the tool.
pub open spec fn spawn_tool_name() -> Seq<char> {
    "spawn_agent"@
}

/// The answer when the arguments do not parse.
pub open spec fn spawn_invalid_arguments(e: Seq<char>) -> Seq<char> {
    "Invalid arguments: "@ + e + ". Make sure the agent is enriching tool calls with context."@
}

/// The answer when the injected context is incomplete.
pub open spec fn context_not_ready() -> Seq<char> {
    "spawn_agent: execution context not ready. The agent should inject _context."@
}

/// Checks a `spawn_agent` call: its arguments (or the parser's error) must
/// parse and carry a ready context.
pub fn plan_spawn(args: Result<SpawnAgentArgs, String>) -> (r: Result<SpawnPlan, String>)
    ensures
        (match args {
            Err(e) => r matches Err(x) && x@ == spawn_invalid_arguments(e@),
            Ok(a) => if !a.context.ready() {
                r matches Err(x) && x@ == context_not_ready()
            } else {
                &&& r matches Ok(p)
                &&& Some(p.conversation_id) == a.context.conversation_id
                &&& Some(p.user_id) == a.context.user_id
                &&& Some(p.turn_id) == a.context.turn_id
                &&& p.span_id == a.context.span_id
                &&& Some(p.model_id) == a.context.model_id
                &&& p.prompt == a.prompt
                &&& p.system_prompt == a.system_prompt
                &&& p.name == a.name
            },
        }),
{
    match args {
        Err(e) => {
            let mut m = to_owned_string("Invalid arguments: ");
            push_str(&mut m, e.as_str());
            push_str(&mut m, ". Make sure the agent is enriching tool calls with context.");
            Err(m)
        },
        Ok(a) => {
            let SpawnAgentArgs { prompt, system_prompt, name, context } = a;
            let ExecutionContext { user_id, conversation_id, turn_id, span_id, model_id } = context;
            match (conversation_id, user_id, turn_id, model_id) {
                (Some(conversation_id), Some(user_id), Some(turn_id), Some(model_id)) => Ok(
                    SpawnPlan {
                        conversation_id,
                        user_id,
                        turn_id,
                        span_id,
                        model_id,
                        prompt,
                        system_prompt,
                        name,
                    },
                ),
                _ => Err(
                    to_owned_string("spawn_agent: execution context not ready. The agent should inject _context."),
                ),
            }
        },
    }
}

/// The answer when no model can be made from the context's model id.
pub fn model_failure_text(model_id: &str, error: &str) -> (r: String)
    ensures
        r@ == "Failed to create model '"@ + model_id@ + "': "@ + error@,
{
    let mut m = to_owned_string("Failed to create model '");
    push_str(&mut m, model_id);
    push_str(&mut m, "': ");
    push_str(&mut m, error);
    m
}

/// The context of the agent that runs in the subconversation: the same
/// user, turn, span and model, in the subconversation.
pub fn subconversation_context(plan: &SpawnPlan, sub_id: &str) -> (r: ExecutionContext)
    ensures
        r.user_id matches Some(u) && u == plan.user_id,
        r.conversation_id matches Some(c) && c@ == sub_id@,
        r.turn_id matches Some(t) && t == plan.turn_id,
        r.span_id == plan.span_id,
        r.model_id matches Some(m) && m == plan.model_id,
        r.ready(),
{
    ExecutionContext {
        user_id: Some(plan.user_id.clone()),
        conversation_id: Some(to_owned_string(sub_id)),
        turn_id: Some(plan.turn_id.clone()),
        span_id: clone_opt_string(&plan.span_id),
        model_id: Some(plan.model_id.clone()),
    }
}

/// The most tool rounds an agent runs in a subconversation.
pub const SUBAGENT_MAX_ITERATIONS: usize = 5;

/// The messages added to the subconversation before its agent runs: the
/// system prompt, if any, then the task as a user message.
pub fn subconversation_messages(prompt: String, system_prompt: Option<String>) -> (r: Vec<ChatMessage>)
    ensures
        r@.len() == (if system_prompt is Some { 2int } else { 1int }),
        system_prompt matches Some(s) ==> {
            &&& r@[0].role == Role::System
            &&& r@[0].payload.content@.len() == 1
            &&& r@[0].payload.content@[0] matches ContentBlock::Text { text } && text == s
        },
        r@.last().role == Role::User,
        r@.last().payload.content@.len() == 1,
        r@.last().payload.content@[0] matches ContentBlock::Text { text } && text == prompt,
{
    let mut v: Vec<ChatMessage> = Vec::new();
    match system_prompt {
        Some(s) => {
            let mut c: Vec<ContentBlock> = Vec::new();
            c.push(ContentBlock::Text { text: s });
            v.push(ChatMessage { role: Role::System, payload: ChatPayload { content: c } });
        },
        None => {},
    }
    let mut c: Vec<ContentBlock> = Vec::new();
    c.push(ContentBlock::Text { text: prompt });
    v.push(ChatMessage { role: Role::User, payload: ChatPayload { content: c } });
    v
}

/// How each step of a spawn that can fail reports its failure.
#[derive(PartialEq, Eq, Structural, Clone, Copy, Debug)]
pub enum SpawnStage {
    /// Creating the subconversation.
    Spawn,
    /// Running the agent in it.
    Run,
    /// Reading its result.
    Result,
}

pub open spec fn stage_prefix(s: SpawnStage) -> Seq<char> {
    match s {
        SpawnStage::Spawn => "Failed to spawn subconversation: "@,
        SpawnStage::Run => "Failed to run agent: "@,
        SpawnStage::Result => "Failed to get result: "@,
    }
}

/// The error reply of a failed stage.
pub fn stage_failure(stage: SpawnStage, error: &str) -> (r: ToolReply)
    ensures
        r.is_error,
        r.text@ == stage_prefix(stage) + error@,
{
    let mut m = match stage {
        SpawnStage::Spawn => to_owned_string("Failed to spawn subconversation: "),
        SpawnStage::Run => to_owned_string("Failed to run agent: "),
        SpawnStage::Result => to_owned_string("Failed to get result: "),
    };
    push_str(&mut m, error);
    ToolReply { is_error: true, text: m }
}

/// The reply once the subconversation ran: its last answer, `(no result)`
/// when it has none.
pub open spec fn completion_text(sub_id: Seq<char>, result: Option<Seq<char>>) -> Seq<char> {
    "Subconversation completed.\n\nSubconversation ID: "@ + sub_id + "\n\nResult:\n"@ + match result {
        Some(r) => r,
        None => "(no result)"@,
    }
}

pub fn completion_reply(sub_id: &str, result: Option<String>) -> (r: ToolReply)
    ensures
        !r.is_error,
        r.text@ == completion_text(sub_id@, opt_view(result)),
{
    let mut m = to_owned_string("Subconversation completed.\n\nSubconversation ID: ");
    push_str(&mut m, sub_id);
    push_str(&mut m, "\n\nResult:\n");
    match result {
        Some(r) => push_str(&mut m, r.as_str()),
        None => push_str(&mut m, "(no result)"),
    }
    ToolReply { is_error: false, text: m }
}

/// The core server dispatches `spawn_agent` and refuses anything else as
/// `Unknown tool: {name}`.
pub fn core_tool_call(name: &str) -> (r: Result<(), String>)
    ensures
        name@ == spawn_tool_name() ==> r is Ok,
        name@ != spawn_tool_name() ==> (r matches Err(e) && e@ == "Unknown tool: "@ + name@),
{
    if str_equals(name, "spawn_agent") {
        Ok(())
    } else {
        let mut e = to_owned_string("Unknown tool: ");
        push_str(&mut e, name);
        Err(e)
    }
}

/// Only `spawn_agent` calls get the execution context injected.
pub fn enriches_tool(name: &str) -> (b: bool)
    ensures
        b == (name@ == spawn_tool_name()),
{
    str_equals(name, "spawn_agent")
}

fn text_param(name: &str, description: &str, required: bool) -> (r: ParamSpec)
    ensures
        r.name@ == name@,
        r.kind == ParamType::Text,
        r.description@ == description@,
        r.default_value is None,
        r.allowed@.len() == 0,
        r.required == required,
{
    ParamSpec {
        name: to_owned_string(name),
        kind: ParamType::Text,
        description: to_owned_string(description),
        default_value: None,
        allowed: Vec::new(),
        required,
    }
}

/// The tools of the core server: `spawn_agent`, with a required `prompt`
/// and optional `system_prompt` and `name`.
pub fn core_tool_specs() -> (r: Vec<ToolSpec>)
    ensures
        r@.len() == 1,
        r@[0].name@ == spawn_tool_name(),
        r@[0].description@ == "Spawn a subconversation to handle a complex subtask. The spawned agent runs independently and returns its result. Use this for tasks that require focused attention or multiple tool calls that are separate from the main conversation flow."@,
        r@[0].params@.len() == 3,
        r@[0].params@[0].name@ == "prompt"@ && r@[0].params@[0].required,
        r@[0].params@[0].description@ == "The task/prompt for the spawned agent"@,
        r@[0].params@[1].name@ == "system_prompt"@ && !r@[0].params@[1].required,
        r@[0].params@[1].description@ == "Optional system prompt for the spawned agent"@,
        r@[0].params@[2].name@ == "name"@ && !r@[0].params@[2].required,
        r@[0].params@[2].description@ == "Optional name for the subconversation (e.g., 'Research API docs')"@,
        forall|i: int| 0 <= i < 3 ==> {
            &&& (#[trigger] r@[0].params@[i]).kind == ParamType::Text
            &&& r@[0].params@[i].default_value is None
            &&& r@[0].params@[i].allowed@.len() == 0
        },
{
    let mut params: Vec<ParamSpec> = Vec::new();
    params.push(text_param("prompt", "The task/prompt for the spawned agent", true));
    params.push(text_param("system_prompt", "Optional system prompt for the spawned agent", false));
    params.push(
        text_param("name", "Optional name for the subconversation (e.g., 'Research API docs')", false),
    );
    let mut tools: Vec<ToolSpec> = Vec::new();
    tools.push(
        ToolSpec {
            name: to_owned_string("spawn_agent"),
            description: to_owned_string(
                "Spawn a subconversation to handle a complex subtask. The spawned agent runs independently and returns its result. Use this for tasks that require focused attention or multiple tool calls that are separate from the main conversation flow.",
            ),
            params,
        },
    );
    tools
}

} // verus!
