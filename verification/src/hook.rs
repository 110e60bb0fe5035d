//! The hook protocol: what a hook says it is about, and what the bridge answers.
use crate::action::BufferStatus;
use vstd::prelude::*;
use vstd::string::*;

verus! {

/// The tool events a tool hook can report.
#[non_exhaustive]
#[derive(Debug, Clone, Copy, PartialEq, Eq, Structural)]
pub enum HookEvent {
    PreToolUse,
    PostToolUse,
}

/// A hook sent before or after a tool runs.
#[derive(Debug)]
pub struct ToolHook {
    pub session_id: String,
    pub transcript_path: String,
    pub cwd: String,
    pub hook_event_name: HookEvent,
    pub tool: Tool,
}

/// A hook the bridge handles.
#[derive(Debug)]
pub enum Hook {
    Tool(ToolHook),
    UserPrompt,
}

/// The tool a tool hook is about, with its input.
#[non_exhaustive]
#[derive(Debug)]
pub enum Tool {
    Read(FileToolInput),
    Write(FileToolInput),
    Edit(FileToolInput),
    MultiEdit(FileToolInput),
    Bash(BashToolInput),
}

/// The input of a tool that works on one file.
#[derive(Debug)]
pub struct FileToolInput {
    pub file_path: String,
    pub content: Option<String>,
    pub old_string: Option<String>,
    pub new_string: Option<String>,
}

/// The input of the shell tool.
#[derive(Debug)]
pub struct BashToolInput {
    pub command: String,
    pub description: String,
}

/// The decision a hook answer can carry about a tool call.
#[non_exhaustive]
#[derive(Debug, Clone, Copy, PartialEq, Eq, Structural)]
pub enum PermissionDecision {
    Allow,
    Deny,
    Ask,
}

/// The event-specific part of a hook answer.
#[derive(Debug, Clone)]
pub struct HookSpecificOutput {
    pub hook_event_name: String,
    pub permission_decision: Option<PermissionDecision>,
    pub permission_decision_reason: Option<String>,
    pub additional_context: Option<String>,
}

/// The answer to a hook.
#[derive(Debug, Clone)]
pub struct HookOutput {
    pub hook_specific_output: Option<HookSpecificOutput>,
}

impl HookOutput {
    /// An answer that carries nothing.
    pub fn new() -> (output: Self)
        ensures
            output.hook_specific_output is None,
    {
        HookOutput { hook_specific_output: None }
    }

    /// This answer with its event part replaced by a `PreToolUse` decision about the
    /// tool call, with the reason given.
    pub fn with_permission_decision(self, decision: PermissionDecision, reason: Option<String>) -> (output: Self)
        ensures
            output.hook_specific_output matches Some(h) && {
                &&& h.hook_event_name@ == "PreToolUse"@
                &&& h.permission_decision == Some(decision)
                &&& h.permission_decision_reason == reason
                &&& h.additional_context is None
            },
    {
        let mut output = self;
        output.hook_specific_output = Some(
            HookSpecificOutput {
                hook_event_name: String::from_str("PreToolUse"),
                permission_decision: Some(decision),
                permission_decision_reason: reason,
                additional_context: None,
            },
        );
        output
    }

    /// This answer with its event part replaced by `UserPromptSubmit` context to add
    /// to the prompt.
    pub fn with_additional_context(self, context: String) -> (output: Self)
        ensures
            output.hook_specific_output matches Some(h) && {
                &&& h.hook_event_name@ == "UserPromptSubmit"@
                &&& h.permission_decision is None
                &&& h.permission_decision_reason is None
                &&& h.additional_context == Some(context)
            },
    {
        let mut output = self;
        output.hook_specific_output = Some(
            HookSpecificOutput {
                hook_event_name: String::from_str("UserPromptSubmit"),
                permission_decision: None,
                permission_decision_reason: None,
                additional_context: Some(context),
            },
        );
        output
    }
}

impl Default for HookOutput {
    fn default() -> (output: Self)
        ensures
            output.hook_specific_output is None,
    {
        HookOutput::new()
    }
}

/// What a hook's event name says is to be done with it.
#[derive(Debug, Clone, Copy, PartialEq, Eq, Structural)]
pub enum HookRoute {
    /// A prompt was submitted.
    UserPrompt,
    /// A tool is about to run or has run: the input is read as a tool hook.
    Tool,
}

/// Why a hook's input was refused.
#[derive(Debug, Clone, Copy, PartialEq, Eq, Structural)]
pub enum HookError {
    /// The input is not JSON.
    InvalidJson,
    /// The input has no `hook_event_name` string.
    MissingEventName,
    /// The event name is none the bridge handles.
    UnrecognizedEvent,
    /// A tool hook whose tool or fields the bridge does not know.
    UnrecognizedTool,
}

impl HookError {
    /// The message shown for this error.
    pub fn message(&self) -> (text: &'static str)
        ensures
            text@ == (match *self {
                HookError::InvalidJson => "couldn't parse hook input"@,
                HookError::MissingEventName => "hook is missing event name"@,
                HookError::UnrecognizedEvent => "unrecognized hook event"@,
                HookError::UnrecognizedTool => "unrecognized tool in hook"@,
            }),
    {
        match self {
            HookError::InvalidJson => "couldn't parse hook input",
            HookError::MissingEventName => "hook is missing event name",
            HookError::UnrecognizedEvent => "unrecognized hook event",
            HookError::UnrecognizedTool => "unrecognized tool in hook",
        }
    }
}

/// What `serde_json` reads from `input` for the string member `key` of the top-level
/// object: `None` when `input` is not JSON, `Some(None)` when there is no such member
/// or it is not a string, `Some(Some(text))` otherwise.
pub uninterp spec fn json_str_member(input: Seq<char>, key: Seq<char>) -> Option<Option<Seq<char>>>;

/// The texts inside an optional optional string.
pub open spec fn member_view(member: Option<Option<String>>) -> Option<Option<Seq<char>>> {
    match member {
        None => None,
        Some(None) => Some(None),
        Some(Some(s)) => Some(Some(s@)),
    }
}

/// Parses `input` with `serde_json::from_str` into a `serde_json::Value`, then reads
/// the member `key` with `Value::get` and `Value::as_str`. Claimed: the result is the
/// named reading of these two texts; nothing more is claimed of which texts parse.
#[verifier::external_body]
fn read_str_member(input: &str, key: &str) -> (member: Option<Option<String>>)
    ensures
        member_view(member) == json_str_member(input@, key@),
{
    match serde_json::from_str::<serde_json::Value>(input) {
        Err(_) => None,
        Ok(value) => Some(value.get(key).and_then(serde_json::Value::as_str).map(str::to_string)),
    }
}

/// Where a hook goes, given what was read of its event name.
pub open spec fn route_of(member: Option<Option<Seq<char>>>) -> Result<HookRoute, HookError> {
    match member {
        None => Err(HookError::InvalidJson),
        Some(None) => Err(HookError::MissingEventName),
        Some(Some(name)) => if name == "UserPromptSubmit"@ {
            Ok(HookRoute::UserPrompt)
        } else if name == "PreToolUse"@ || name == "PostToolUse"@ {
            Ok(HookRoute::Tool)
        } else {
            Err(HookError::UnrecognizedEvent)
        },
    }
}

/// Routes a hook by what was read of its event name: input that is not JSON, a
/// missing name and an unknown name are refused; `UserPromptSubmit` is a prompt
/// hook; `PreToolUse` and `PostToolUse` are tool hooks.
pub fn route_event_member(member: Option<Option<String>>) -> (route: Result<HookRoute, HookError>)
    ensures
        route == route_of(member_view(member)),
{
    match member {
        None => Err(HookError::InvalidJson),
        Some(None) => Err(HookError::MissingEventName),
        Some(Some(name)) => {
            let user_prompt = String::from_str("UserPromptSubmit");
            let pre_tool = String::from_str("PreToolUse");
            let post_tool = String::from_str("PostToolUse");
            if name == user_prompt {
                Ok(HookRoute::UserPrompt)
            } else if name == pre_tool || name == post_tool {
                Ok(HookRoute::Tool)
            } else {
                Err(HookError::UnrecognizedEvent)
            }
        },
    }
}

/// Routes the raw input of a hook by its `hook_event_name` member.
pub fn route_hook(input: &str) -> (route: Result<HookRoute, HookError>)
    ensures
        route == route_of(json_str_member(input@, "hook_event_name"@)),
{
    let member = read_str_member(input, "hook_event_name");
    route_event_member(member)
}

/// The file a tool call writes: the path given to `Write`, `Edit` and `MultiEdit`;
/// none for `Read` and `Bash`.
pub open spec fn edited_file(tool: Tool) -> Option<String> {
    match tool {
        Tool::Write(f) => Some(f.file_path),
        Tool::Edit(f) => Some(f.file_path),
        Tool::MultiEdit(f) => Some(f.file_path),
        _ => None,
    }
}

/// What the bridge does for a hook: guard the file a tool is about to write, reload
/// the file a tool wrote, nothing otherwise.
pub open spec fn plan_of(hook: Hook) -> HookPlan {
    match hook {
        Hook::UserPrompt => HookPlan::Nothing,
        Hook::Tool(t) => match edited_file(t.tool) {
            None => HookPlan::Nothing,
            Some(path) => if t.hook_event_name == HookEvent::PreToolUse {
                HookPlan::GuardEdit(path)
            } else {
                HookPlan::Reload(path)
            },
        },
    }
}

/// What the bridge does for a hook.
#[derive(Debug, Clone, PartialEq, Eq)]
pub enum HookPlan {
    /// A tool is about to write this file: check whether Neovim holds unsaved changes to it.
    GuardEdit(String),
    /// A tool has written this file: reload it in Neovim.
    Reload(String),
    /// Nothing to do.
    Nothing,
}

/// Decides what to do for a hook: before a tool writes a file, guard that file; after
/// a tool wrote a file, reload it; nothing for tools that write no file and for prompts.
pub fn plan_hook(hook: &Hook) -> (plan: HookPlan)
    ensures
        plan == plan_of(*hook),
{
    match hook {
        Hook::UserPrompt => HookPlan::Nothing,
        Hook::Tool(t) => {
            let path = match &t.tool {
                Tool::Write(f) => Some(f.file_path.clone()),
                Tool::Edit(f) => Some(f.file_path.clone()),
                Tool::MultiEdit(f) => Some(f.file_path.clone()),
                _ => None,
            };
            match path {
                None => HookPlan::Nothing,
                Some(path) => if t.hook_event_name == HookEvent::PreToolUse {
                    HookPlan::GuardEdit(path)
                } else {
                    HookPlan::Reload(path)
                },
            }
        },
    }
}

/// The reason given when an edit is denied.
pub const UNSAVED_REASON: &'static str =
    "the file has unsaved changes in Neovim; save or discard them before editing it";

/// The answer before a tool writes a file whose status in Neovim is `status`: the
/// edit is denied when Neovim holds unsaved changes to the file, so that they are not
/// lost; otherwise the answer carries nothing and the edit goes ahead as usual.
pub fn pre_tool_use_answer(status: BufferStatus) -> (output: HookOutput)
    ensures
        status.has_unsaved_changes ==> (output.hook_specific_output matches Some(h) && {
            &&& h.hook_event_name@ == "PreToolUse"@
            &&& h.permission_decision == Some(PermissionDecision::Deny)
            &&& (h.permission_decision_reason matches Some(r) && r@ == UNSAVED_REASON@)
            &&& h.additional_context is None
        }),
        !status.has_unsaved_changes ==> output.hook_specific_output is None,
{
    if status.has_unsaved_changes {
        HookOutput::new().with_permission_decision(
            PermissionDecision::Deny,
            Some(String::from_str(UNSAVED_REASON)),
        )
    } else {
        HookOutput::new()
    }
}

/// A hook is routed by its event name alone: `UserPromptSubmit` and nothing else is a
/// prompt; `PreToolUse` and `PostToolUse` and nothing else are tool hooks; every other
/// name is refused as unrecognized; input that is not JSON and input without the name
/// are refused as such.
pub proof fn law_route_by_event_name(name: Seq<char>)
    ensures
        (route_of(Some(Some(name))) == Ok::<HookRoute, HookError>(HookRoute::UserPrompt))
            <==> name == "UserPromptSubmit"@,
        (route_of(Some(Some(name))) == Ok::<HookRoute, HookError>(HookRoute::Tool)) <==> (name
            == "PreToolUse"@ || name == "PostToolUse"@),
        name != "UserPromptSubmit"@ && name != "PreToolUse"@ && name != "PostToolUse"@
            ==> route_of(Some(Some(name))) == Err::<HookRoute, HookError>(
            HookError::UnrecognizedEvent,
        ),
        route_of(None) == Err::<HookRoute, HookError>(HookError::InvalidJson),
        route_of(Some(None)) == Err::<HookRoute, HookError>(HookError::MissingEventName),
{
    reveal_strlit("UserPromptSubmit");
    reveal_strlit("PreToolUse");
    reveal_strlit("PostToolUse");
    assert("UserPromptSubmit"@ != "PreToolUse"@) by {
        assert("UserPromptSubmit"@.len() != "PreToolUse"@.len());
    }
    assert("UserPromptSubmit"@ != "PostToolUse"@) by {
        assert("UserPromptSubmit"@[1] != "PostToolUse"@[1]);
    }
}

/// Before a tool writes a file (`Write`, `Edit` or `MultiEdit`) the file it names is
/// guarded, and after it the file is reloaded, whatever text the tool carries; `Read`,
/// `Bash` and prompts need nothing.
pub proof fn law_plan_follows_tool(
    session_id: String,
    transcript_path: String,
    cwd: String,
    event: HookEvent,
    f: FileToolInput,
    b: BashToolInput,
)
    ensures
        ({
            let plan = |tool: Tool|
                plan_of(
                    Hook::Tool(
                        ToolHook {
                            session_id: session_id,
                            transcript_path: transcript_path,
                            cwd: cwd,
                            hook_event_name: event,
                            tool: tool,
                        },
                    ),
                );
            let written = if event == HookEvent::PreToolUse {
                HookPlan::GuardEdit(f.file_path)
            } else {
                HookPlan::Reload(f.file_path)
            };
            &&& plan(Tool::Write(f)) == written
            &&& plan(Tool::Edit(f)) == written
            &&& plan(Tool::MultiEdit(f)) == written
            &&& plan(Tool::Read(f)) == HookPlan::Nothing
            &&& plan(Tool::Bash(b)) == HookPlan::Nothing
        }),
        plan_of(Hook::UserPrompt) == HookPlan::Nothing,
{
}

} // verus!
