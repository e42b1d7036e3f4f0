use audio::llm::prompts::{ConversationTemplates, PromptBuilder, SystemPrompts};

#[test]
fn test_system_prompts() {
    assert!(!SystemPrompts::default_assistant().is_empty());
    assert!(!SystemPrompts::voice_assistant().is_empty());
    assert!(!SystemPrompts::smart_home_assistant().is_empty());
    assert!(!SystemPrompts::technical_assistant().is_empty());
    assert!(!SystemPrompts::creative_assistant().is_empty());

    // Voice assistant should mention conversation style
    assert!(SystemPrompts::voice_assistant().contains("conversational"));
}

#[test]
fn test_conversation_templates() {
    let greeting = ConversationTemplates::wake_word_greeting("Jarvis");
    assert!(greeting.contains("Jarvis"));
    assert!(greeting.contains("help"));

    let error = ConversationTemplates::voice_error("audio");
    assert!(error.contains("trouble hearing"));

    let _unknown_error = ConversationTemplates::voice_error("unknown");
    assert!(error.contains("wrong"));
}

#[test]
fn voice_error_unknown_kind() {
    let unknown_error = ConversationTemplates::voice_error("unknown");
    assert_eq!(unknown_error, "Sorry, something went wrong. Please try again.");
}

#[test]
fn test_prompt_builder() {
    let prompt = PromptBuilder::new()
        .add_system_role("You are a helpful assistant")
        .add_context("The user is asking about weather")
        .add_instruction("Provide current weather information")
        .add_constraint("Keep response under 50 words")
        .build();

    assert!(prompt.contains("System:"));
    assert!(prompt.contains("Context:"));
    assert!(prompt.contains("Instruction:"));
    assert!(prompt.contains("Constraint:"));
    assert!(prompt.contains("helpful assistant"));
    assert!(prompt.contains("weather"));
}

#[test]
fn test_tool_messages() {
    let tool_msg = ConversationTemplates::tool_execution("calculator");
    assert!(tool_msg.contains("calculator"));

    let completion_msg = ConversationTemplates::task_completed("your calculation");
    assert!(completion_msg.contains("calculation"));
    assert!(completion_msg.contains("completed"));
}

#[test]
fn prompt_builder_joins_parts_in_order() {
    let prompt = PromptBuilder::new().add_example("a").add_context("b").build();
    assert_eq!(prompt, "Example: a\n\nContext: b");
    assert_eq!(PromptBuilder::new().build(), "");
    assert_eq!(PromptBuilder::default().add_system_role("x").build(), "System: x");
}

#[test]
fn templates_exact_text() {
    assert_eq!(
        ConversationTemplates::wake_word_greeting("Jarvis"),
        "Hello! I heard you say 'Jarvis'. How can I help you?"
    );
    assert_eq!(
        ConversationTemplates::voice_error("busy"),
        "I'm currently busy with another task. Please wait a moment and try again."
    );
    assert_eq!(
        ConversationTemplates::voice_error("network"),
        "I'm having connectivity issues. Please check your connection and try again."
    );
    assert_eq!(
        ConversationTemplates::voice_error("processing"),
        "I'm having some trouble processing that. Please try again."
    );
    assert_eq!(
        ConversationTemplates::clarification_request("timers"),
        "I want to make sure I understand correctly. You're asking about timers. Is that right?"
    );
    assert_eq!(ConversationTemplates::goodbye(), "Goodbye! Feel free to call on me anytime you need assistance.");
    assert_eq!(ConversationTemplates::processing(), "Let me think about that for a moment...");
    assert!(ConversationTemplates::conversation_timeout().starts_with("I haven't heard from you"));
    assert!(SystemPrompts::default_assistant().starts_with("You are a helpful, harmless, and honest AI assistant. You provide"));
}
