use libretune::agent::{
    apply_outcomes, assistant_gate, config_from_settings, history_messages, AgentStatus, ApplyResult,
    AssistantSettings, ChatMessage, MessageRole, SerializedMessage,
};

fn settings(enabled: bool, ack: bool, provider: &str, model: &str) -> AssistantSettings {
    AssistantSettings {
        ai_assistant_enabled: enabled,
        ai_risk_acknowledged: ack,
        ai_provider: provider.to_string(),
        ai_base_url: "http://localhost:11434".to_string(),
        ai_api_key: "SECRET-REDACTED".to_string(),
        ai_model: model.to_string(),
        ai_capability_tier: "basic".to_string(),
    }
}

#[test]
fn provider_config_copies_settings() {
    let c = config_from_settings(&settings(true, true, "ollama", "llama3"));
    assert_eq!(c.provider, "ollama");
    assert_eq!(c.base_url, "http://localhost:11434");
    assert_eq!(c.api_key, "SECRET-REDACTED");
    assert_eq!(c.model, "llama3");
}

#[test]
fn status_is_configured_with_provider_and_model() {
    let s = AgentStatus::from_settings(&settings(true, false, "ollama", "llama3"));
    assert!(s.enabled);
    assert!(!s.risk_acknowledged);
    assert!(s.configured);
    assert_eq!(s.capability_tier, "basic");
    assert!(!AgentStatus::from_settings(&settings(true, true, "", "llama3")).configured);
    assert!(!AgentStatus::from_settings(&settings(true, true, "ollama", "")).configured);
}

#[test]
fn gate_requires_enable_then_acknowledgement() {
    assert_eq!(assistant_gate(&settings(false, false, "p", "m")).unwrap_err(), "AI assistant is not enabled");
    assert_eq!(
        assistant_gate(&settings(true, false, "p", "m")).unwrap_err(),
        "AI assistant risk acknowledgement is missing"
    );
    assert!(assistant_gate(&settings(true, true, "p", "m")).is_ok());
}

#[test]
fn serialized_roles_map_to_message_roles() {
    let m = ChatMessage::from_serialized(SerializedMessage { role: "system".to_string(), content: "c".to_string() });
    assert_eq!(m.role, MessageRole::System);
    assert_eq!(m.content, "c");
    let history = vec![
        SerializedMessage { role: "assistant".to_string(), content: "a".to_string() },
        SerializedMessage { role: "tool".to_string(), content: "t".to_string() },
        SerializedMessage { role: "user".to_string(), content: "u".to_string() },
    ];
    let msgs = history_messages(history);
    assert_eq!(msgs.len(), 3);
    assert_eq!(msgs[0].role, MessageRole::Assistant);
    assert_eq!(msgs[1].role, MessageRole::User);
    assert_eq!(msgs[1].content, "t");
    assert_eq!(msgs[2].role, MessageRole::User);
}

#[test]
fn validation_outcomes_become_apply_results() {
    let ok: ApplyResult<u8> = ApplyResult::from_validation::<Vec<String>>(Ok(vec!["warn".to_string()]), Some(2));
    assert!(ok.applied);
    assert!(ok.error.is_none());
    assert_eq!(ok.safety_tier, Some(2));
    let bad: ApplyResult<u8> =
        ApplyResult::from_validation::<()>(Err(vec!["no such table".to_string(), "bad value".to_string()]), None);
    assert!(!bad.applied);
    assert_eq!(bad.error, Some("no such table; bad value".to_string()));
}

#[test]
fn tune_is_flagged_only_when_something_applied() {
    let (results, modified) = apply_outcomes::<u8, ()>(vec![
        (Err(vec!["x".to_string()]), None),
        (Ok(()), Some(1)),
    ]);
    assert_eq!(results.len(), 2);
    assert!(!results[0].applied);
    assert!(results[1].applied);
    assert!(modified);
    let (results, modified) = apply_outcomes::<u8, ()>(vec![(Err(vec![]), None)]);
    assert_eq!(results[0].error, Some(String::new()));
    assert!(!modified);
    let (results, modified) = apply_outcomes::<u8, ()>(vec![]);
    assert!(results.is_empty());
    assert!(!modified);
}
