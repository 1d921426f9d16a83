//! Decisions behind the AI assistant commands.
//!
//! A turn never applies anything: it yields a proposal the user reviews.
//! Applying approved actions only validates them and reports, per action,
//! whether it applied; the tune is flagged as modified when at least one did.
use crate::text::{joined, join_strings, owned, str_equal};
use vstd::prelude::*;

verus! {

/// The assistant settings the commands read from the stored application
/// settings.
#[derive(Debug, Clone)]
pub struct AssistantSettings {
    pub ai_assistant_enabled: bool,
    pub ai_risk_acknowledged: bool,
    pub ai_provider: String,
    pub ai_base_url: String,
    pub ai_api_key: String,
    pub ai_model: String,
    pub ai_capability_tier: String,
}

/// Connection settings for the language-model provider.
#[derive(Debug, Clone)]
pub struct ProviderConfig {
    pub provider: String,
    pub base_url: String,
    pub api_key: String,
    pub model: String,
}

/// Construct a `ProviderConfig` from stored settings.
pub fn config_from_settings(s: &AssistantSettings) -> (c: ProviderConfig)
    ensures
        c.provider@ == s.ai_provider@,
        c.base_url@ == s.ai_base_url@,
        c.api_key@ == s.ai_api_key@,
        c.model@ == s.ai_model@,
{
    ProviderConfig {
        provider: s.ai_provider.clone(),
        base_url: s.ai_base_url.clone(),
        api_key: s.ai_api_key.clone(),
        model: s.ai_model.clone(),
    }
}

/// Request payload from the frontend for one assistant turn.
#[derive(Debug)]
pub struct AgentTurnRequest {
    /// The user's message this turn.
    pub user_message: String,
    /// Prior conversation as the frontend has it (serialized messages).
    pub history: Vec<SerializedMessage>,
    /// Pre-rendered system prompt describing the ECU/tune context.
    pub system_prompt: String,
}

/// A serialized chat message that round-trips through JSON.
#[derive(Debug, Clone)]
pub struct SerializedMessage {
    pub role: String,
    pub content: String,
}

/// Who speaks in a chat message.
#[derive(Debug, Clone, Copy, PartialEq, Eq, Structural)]
pub enum MessageRole {
    System,
    Assistant,
    User,
}

/// The role named by a serialized role string: "system" and "assistant"
/// name themselves, anything else is the user.
pub open spec fn role_named(role: Seq<char>) -> MessageRole {
    if role == "system"@ {
        MessageRole::System
    } else if role == "assistant"@ {
        MessageRole::Assistant
    } else {
        MessageRole::User
    }
}

/// A chat message as the provider client takes it.
#[derive(Debug, Clone)]
pub struct ChatMessage {
    pub role: MessageRole,
    pub content: String,
}

impl ChatMessage {
    /// The message a serialized message stands for.
    pub fn from_serialized(s: SerializedMessage) -> (m: ChatMessage)
        ensures
            m.role == role_named(s.role@),
            m.content@ == s.content@,
    {
        let role = if str_equal(s.role.as_str(), "system") {
            MessageRole::System
        } else if str_equal(s.role.as_str(), "assistant") {
            MessageRole::Assistant
        } else {
            MessageRole::User
        };
        ChatMessage { role, content: s.content }
    }
}

/// The conversation history as chat messages, in order.
pub fn history_messages(history: Vec<SerializedMessage>) -> (msgs: Vec<ChatMessage>)
    ensures
        msgs@.len() == history@.len(),
        forall|i: int|
            0 <= i < history@.len() ==> (#[trigger] msgs@[i]).role == role_named(history@[i].role@)
                && msgs@[i].content@ == history@[i].content@,
{
    let mut msgs: Vec<ChatMessage> = Vec::new();
    let mut i: usize = 0;
    while i < history.len()
        invariant
            i <= history@.len(),
            msgs@.len() == i,
            forall|j: int|
                0 <= j < i ==> (#[trigger] msgs@[j]).role == role_named(history@[j].role@)
                    && msgs@[j].content@ == history@[j].content@,
        decreases history@.len() - i,
    {
        let s = SerializedMessage { role: history[i].role.clone(), content: history[i].content.clone() };
        msgs.push(ChatMessage::from_serialized(s));
        i = i + 1;
    }
    msgs
}

/// What the frontend learns from the assistant status check.
#[derive(Debug, Clone)]
pub struct AgentStatus {
    pub enabled: bool,
    pub risk_acknowledged: bool,
    pub provider: String,
    pub model: String,
    pub capability_tier: String,
    pub configured: bool,
}

impl AgentStatus {
    /// The status for the stored settings; the assistant is configured when
    /// both provider and model are set (the key is optional for local
    /// providers).
    pub fn from_settings(s: &AssistantSettings) -> (st: AgentStatus)
        ensures
            st.enabled == s.ai_assistant_enabled,
            st.risk_acknowledged == s.ai_risk_acknowledged,
            st.provider@ == s.ai_provider@,
            st.model@ == s.ai_model@,
            st.capability_tier@ == s.ai_capability_tier@,
            st.configured == (s.ai_provider@.len() > 0 && s.ai_model@.len() > 0),
    {
        AgentStatus {
            enabled: s.ai_assistant_enabled,
            risk_acknowledged: s.ai_risk_acknowledged,
            provider: s.ai_provider.clone(),
            model: s.ai_model.clone(),
            capability_tier: s.ai_capability_tier.clone(),
            configured: !s.ai_provider.as_str().is_empty() && !s.ai_model.as_str().is_empty(),
        }
    }
}

/// Whether a turn may run: the assistant must be enabled, then its risk
/// acknowledged.
pub fn assistant_gate(s: &AssistantSettings) -> (r: Result<(), String>)
    ensures
        !s.ai_assistant_enabled ==> (r matches Err(e) && e@ == "AI assistant is not enabled"@),
        s.ai_assistant_enabled && !s.ai_risk_acknowledged ==> (r matches Err(e) && e@
            == "AI assistant risk acknowledgement is missing"@),
        s.ai_assistant_enabled && s.ai_risk_acknowledged ==> r is Ok,
{
    if !s.ai_assistant_enabled {
        return Err(owned("AI assistant is not enabled"));
    }
    if !s.ai_risk_acknowledged {
        return Err(owned("AI assistant risk acknowledgement is missing"));
    }
    Ok(())
}

/// Request payload for applying a subset of a proposal: the actions exactly
/// as the user approved them.
#[derive(Debug)]
pub struct ApplyProposalsRequest<A> {
    pub actions: Vec<A>,
}

/// Result of applying one action.
#[derive(Debug, Clone)]
pub struct ApplyResult<T> {
    pub applied: bool,
    pub error: Option<String>,
    /// Safety tier (constants only) so the UI can show what was applied.
    pub safety_tier: Option<T>,
}

/// `r` reports a validation outcome: applied with no error when validation
/// passed, otherwise not applied with the errors joined by "; ".
pub open spec fn reports<T, W>(r: ApplyResult<T>, outcome: Result<W, Seq<Seq<char>>>, tier: Option<T>) -> bool {
    &&& r.safety_tier == tier
    &&& match outcome {
        Ok(_) => r.applied && r.error is None,
        Err(errors) => !r.applied && (r.error matches Some(e) && e@ == joined(errors, "; "@)),
    }
}

/// The validation outcome with its error list taken by view.
pub open spec fn outcome_view<W>(outcome: Result<W, Vec<String>>) -> Result<W, Seq<Seq<char>>> {
    match outcome {
        Ok(w) => Ok(w),
        Err(errors) => Err(errors.deep_view()),
    }
}

impl<T> ApplyResult<T> {
    /// The result of one action after validation: validation warnings are
    /// dropped, errors are joined with "; ".
    pub fn from_validation<W>(outcome: Result<W, Vec<String>>, safety_tier: Option<T>) -> (r: ApplyResult<T>)
        ensures
            reports(r, outcome_view(outcome), safety_tier),
    {
        match outcome {
            Ok(_warnings) => ApplyResult { applied: true, error: None, safety_tier },
            Err(errors) => {
                let message = join_strings(&errors, "; ");
                ApplyResult { applied: false, error: Some(message), safety_tier }
            },
        }
    }
}

/// The results of applying approved actions, one per validation outcome in
/// order, and whether the tune must be flagged as modified (at least one
/// action applied).
pub fn apply_outcomes<T, W>(outcomes: Vec<(Result<W, Vec<String>>, Option<T>)>) -> (r: (
    Vec<ApplyResult<T>>,
    bool,
))
    ensures
        r.0@.len() == outcomes@.len(),
        forall|i: int|
            0 <= i < outcomes@.len() ==> reports(
                #[trigger] r.0@[i],
                outcome_view(outcomes@[i].0),
                outcomes@[i].1,
            ),
        r.1 == exists|i: int| 0 <= i < outcomes@.len() && (#[trigger] outcomes@[i].0) is Ok,
{
    let mut results: Vec<ApplyResult<T>> = Vec::new();
    let mut any_applied = false;
    let mut rest = outcomes;
    let ghost all = rest@;
    let n = rest.len();
    let mut i: usize = 0;
    while i < n
        invariant
            i <= n == all.len(),
            all == outcomes@,
            rest@ == all.subrange(i as int, n as int),
            results@.len() == i,
            forall|k: int| 0 <= k < i ==> reports(#[trigger] results@[k], outcome_view(all[k].0), all[k].1),
            any_applied == exists|k: int| 0 <= k < i && (#[trigger] all[k].0) is Ok,
        decreases n - i,
    {
        let (outcome, tier) = rest.remove(0);
        assert(all[i as int] == (outcome, tier));
        let passed = outcome.is_ok();
        results.push(ApplyResult::from_validation(outcome, tier));
        if passed {
            any_applied = true;
        }
        assert(rest@ =~= all.subrange(i + 1, n as int));
        i = i + 1;
    }
    (results, any_applied)
}

} // verus!
