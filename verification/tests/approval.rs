use sabi_agent::approval::{approval_required_for, approval_summary, risk_level_for, tool_requires_approval, ToolApprovalRequest, ToolRiskLevel};

#[test]
fn mutating_and_shell_tools_require_approval() {
    assert!(tool_requires_approval("write"));
    assert!(tool_requires_approval("edit"));
    assert!(tool_requires_approval("bash"));
    assert!(!tool_requires_approval("read"));
    assert!(!tool_requires_approval("ls"));
    assert!(!tool_requires_approval("grep"));
    assert!(!tool_requires_approval("find"));
    assert!(!tool_requires_approval("web_search"));
    assert!(!tool_requires_approval("exa_search"));
}

#[test]
fn approval_request_contains_risk_and_summary() {
    let request = ToolApprovalRequest::new("call-1", "bash", "{\"command\":\"cargo test\",\"timeout\":120}");

    assert_eq!(request.id, "call-1");
    assert_eq!(request.name, "bash");
    assert_eq!(request.risk_level, ToolRiskLevel::Shell);
    assert!(request.approval_required);
    assert_eq!(request.summary, "command=\"cargo test\"");
}

#[test]
fn file_tool_summary_uses_path() {
    let request = ToolApprovalRequest::new("call-2", "edit", "{\"path\":\"src/lib.rs\",\"old_text\":\"a\",\"new_text\":\"b\"}");

    assert_eq!(request.risk_level, ToolRiskLevel::FileMutation);
    assert_eq!(request.summary, "path=\"src/lib.rs\"");
}

#[test]
fn risk_levels_by_tool() {
    assert_eq!(risk_level_for("bash"), ToolRiskLevel::Shell);
    assert_eq!(risk_level_for("write"), ToolRiskLevel::FileMutation);
    assert_eq!(risk_level_for("web_search"), ToolRiskLevel::ExternalNetwork);
    assert_eq!(risk_level_for("exa_search"), ToolRiskLevel::ExternalNetwork);
    assert_eq!(risk_level_for("read"), ToolRiskLevel::ReadOnly);
    assert_eq!(risk_level_for("anything-else"), ToolRiskLevel::ReadOnly);
    assert!(approval_required_for(ToolRiskLevel::Shell));
    assert!(approval_required_for(ToolRiskLevel::FileMutation));
    assert!(!approval_required_for(ToolRiskLevel::ExternalNetwork));
    assert!(!approval_required_for(ToolRiskLevel::ReadOnly));
}

#[test]
fn summary_escapes_and_falls_back_to_arguments() {
    assert_eq!(approval_summary("bash", "{\"command\":\"echo \\\"hi\\\"\"}"), "command=\"echo \\\"hi\\\"\"");
    assert_eq!(approval_summary("write", "{\"content\":\"x\"}"), "{\"content\":\"x\"}");
    assert_eq!(approval_summary("read", "{ \"path\" : \"a\" }"), "{\"path\":\"a\"}");
    assert_eq!(approval_summary("bash", "not json"), "not json");
}
