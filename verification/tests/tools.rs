use audio::llm::tools::{create_default_registry, BuiltinTool, Tool, ToolError, ToolRegistry};

#[test]
fn test_tool_registry_creation() {
    let registry = ToolRegistry::new();
    assert_eq!(registry.get_tools().len(), 0);
}

#[test]
fn mod_test_tool_registration() {
    let mut registry = ToolRegistry::new();

    let tool = Tool {
        name: "test_tool".to_string(),
        description: "A test tool".to_string(),
        parameters: serde_json::from_str(
            r#"{"type":"object","properties":{"input":{"type":"string","description":"Test input"}},"required":["input"]}"#,
        )
        .unwrap(),
    };

    registry.register_tool(tool);
    assert_eq!(registry.get_tools().len(), 1);
    assert_eq!(registry.get_tools()[0].name, "test_tool");
}

#[test]
fn test_default_registry() {
    let registry = create_default_registry();
    assert!(!registry.get_tools().is_empty());

    // Check that get_time tool is registered
    let time_tool = registry.find_tool("get_current_time");
    assert!(time_tool.is_some());
    assert_eq!(time_tool.unwrap().name, "get_current_time");
}

#[test]
fn registry_lookup_and_dispatch() {
    let registry = create_default_registry();
    assert_eq!(registry.get_tools().len(), 3);
    assert_eq!(registry.find_tool("tell_user").unwrap().parameters["required"][0], "message");
    assert!(registry.find_tool("get_weather").is_none());
    assert_eq!(ToolRegistry::builtin_tool("get_current_date", false).unwrap(), BuiltinTool::CurrentDate);
    assert!(matches!(ToolRegistry::builtin_tool("get_current_date", true), Err(ToolError::Cancelled)));
    match ToolRegistry::builtin_tool("get_weather", false) {
        Err(ToolError::NotFound(m)) => assert_eq!(m, "Tool 'get_weather' not found"),
        _ => panic!("expected not found"),
    }
}

#[test]
fn tools_test_tool_registration() {
    let mut manager = ToolRegistry::new();

    let tool = Tool {
        name: "test_tool".to_string(),
        description: "A test tool".to_string(),
        parameters: serde_json::from_str(
            r#"{"type":"object","properties":{"input":{"type":"string","description":"Test input"}},"required":["input"]}"#,
        )
        .unwrap(),
    };

    manager.register_tool(tool);
    assert_eq!(manager.get_tools().len(), 1);
    assert_eq!(manager.get_tools()[0].name, "test_tool");
}
