use bridge_opencode::handler::{connect, ConnectError};
use bridge_opencode::action::BufferStatus;
use bridge_opencode::hook::{
    plan_hook, pre_tool_use_answer, route_event_member, route_hook, BashToolInput, FileToolInput,
    Hook, HookError, HookEvent, HookOutput, HookPlan, HookRoute, PermissionDecision, Tool,
    ToolHook, UNSAVED_REASON,
};

fn file(path: &str) -> FileToolInput {
    FileToolInput { file_path: path.to_string(), content: None, old_string: None, new_string: None }
}

fn tool_hook(event: HookEvent, tool: Tool) -> Hook {
    Hook::Tool(ToolHook {
        session_id: "s".to_string(),
        transcript_path: "/t".to_string(),
        cwd: "/p".to_string(),
        hook_event_name: event,
        tool,
    })
}

#[test]
fn plan_guards_writes_before_and_reloads_after() {
    assert_eq!(
        plan_hook(&tool_hook(HookEvent::PreToolUse, Tool::Edit(file("/p/a.rs")))),
        HookPlan::GuardEdit("/p/a.rs".to_string())
    );
    assert_eq!(
        plan_hook(&tool_hook(HookEvent::PreToolUse, Tool::Write(file("/p/b.rs")))),
        HookPlan::GuardEdit("/p/b.rs".to_string())
    );
    assert_eq!(
        plan_hook(&tool_hook(HookEvent::PostToolUse, Tool::MultiEdit(file("/p/c.rs")))),
        HookPlan::Reload("/p/c.rs".to_string())
    );
}

#[test]
fn plan_ignores_reads_shell_and_prompts() {
    assert_eq!(plan_hook(&tool_hook(HookEvent::PreToolUse, Tool::Read(file("/p/a.rs")))), HookPlan::Nothing);
    let bash = Tool::Bash(BashToolInput { command: "ls".to_string(), description: "list".to_string() });
    assert_eq!(plan_hook(&tool_hook(HookEvent::PostToolUse, bash)), HookPlan::Nothing);
    assert_eq!(plan_hook(&Hook::UserPrompt), HookPlan::Nothing);
}

#[test]
fn unsaved_changes_deny_the_edit() {
    let out = pre_tool_use_answer(BufferStatus { is_current: false, has_unsaved_changes: true });
    let h = out.hook_specific_output.unwrap();
    assert_eq!(h.hook_event_name, "PreToolUse");
    assert_eq!(h.permission_decision, Some(PermissionDecision::Deny));
    assert_eq!(h.permission_decision_reason, Some(UNSAVED_REASON.to_string()));
    let clean = pre_tool_use_answer(BufferStatus { is_current: true, has_unsaved_changes: false });
    assert!(clean.hook_specific_output.is_none());
}

#[test]
fn route_user_prompt() {
    assert_eq!(
        route_hook(r#"{"hook_event_name":"UserPromptSubmit","prompt":"hi"}"#),
        Ok(HookRoute::UserPrompt)
    );
}

#[test]
fn route_tool_events() {
    assert_eq!(route_hook(r#"{"hook_event_name":"PreToolUse"}"#), Ok(HookRoute::Tool));
    assert_eq!(route_hook(r#"{"hook_event_name":"PostToolUse","x":[1,2]}"#), Ok(HookRoute::Tool));
}

#[test]
fn route_errors() {
    assert_eq!(route_hook("not json"), Err(HookError::InvalidJson));
    assert_eq!(route_hook(r#"{"hook_event_name":"Stop"}"#), Err(HookError::UnrecognizedEvent));
    assert_eq!(route_hook(r#"{"session_id":"s"}"#), Err(HookError::MissingEventName));
    assert_eq!(route_hook(r#"{"hook_event_name":3}"#), Err(HookError::MissingEventName));
    assert_eq!(route_hook(r#"["hook_event_name"]"#), Err(HookError::MissingEventName));
}

#[test]
fn route_member_cases() {
    assert_eq!(route_event_member(None), Err(HookError::InvalidJson));
    assert_eq!(route_event_member(Some(None)), Err(HookError::MissingEventName));
    assert_eq!(route_event_member(Some(Some("PreToolUse".to_string()))), Ok(HookRoute::Tool));
    assert_eq!(route_event_member(Some(Some("pretooluse".to_string()))), Err(HookError::UnrecognizedEvent));
}

#[test]
fn hook_error_messages() {
    assert_eq!(HookError::InvalidJson.message(), "couldn't parse hook input");
    assert_eq!(HookError::MissingEventName.message(), "hook is missing event name");
    assert_eq!(HookError::UnrecognizedEvent.message(), "unrecognized hook event");
    assert_eq!(HookError::UnrecognizedTool.message(), "unrecognized tool in hook");
}

#[test]
fn hook_output_new_and_default_are_empty() {
    assert!(HookOutput::new().hook_specific_output.is_none());
    assert!(HookOutput::default().hook_specific_output.is_none());
}

#[test]
fn hook_output_permission_decision() {
    let out = HookOutput::new().with_permission_decision(PermissionDecision::Deny, Some("unsaved".to_string()));
    let h = out.hook_specific_output.unwrap();
    assert_eq!(h.hook_event_name, "PreToolUse");
    assert_eq!(h.permission_decision, Some(PermissionDecision::Deny));
    assert_eq!(h.permission_decision_reason, Some("unsaved".to_string()));
    assert_eq!(h.additional_context, None);
}

#[test]
fn hook_output_additional_context_replaces_decision() {
    let out = HookOutput::new()
        .with_permission_decision(PermissionDecision::Allow, None)
        .with_additional_context("selection".to_string());
    let h = out.hook_specific_output.unwrap();
    assert_eq!(h.hook_event_name, "UserPromptSubmit");
    assert_eq!(h.permission_decision, None);
    assert_eq!(h.permission_decision_reason, None);
    assert_eq!(h.additional_context, Some("selection".to_string()));
}

#[test]
fn connect_needs_a_socket() {
    assert_eq!(connect(vec![]).err(), Some(ConnectError::NoInstances));
    assert_eq!(ConnectError::NoInstances.message(), "no Neovim instances found");
    let action = connect(vec!["/tmp/bridge-9.sock".to_string()]).ok().unwrap();
    assert_eq!(action.socket_paths(), &vec!["/tmp/bridge-9.sock".to_string()]);
}
