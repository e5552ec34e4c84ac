//! The conversation with the Ollama server: request timeouts, credentials, the messages
//! of each planning attempt, when another attempt is made, and HTTP failures.
use vstd::prelude::*;
use crate::hue::config::opt_chars;
use crate::ollama::models::{OllamaSettings, PlannedResponse};
use crate::ollama::planning::{
    planning_prompt, planning_prompt_head, repair_prompt_for_empty_actions, repair_prompt_text,
    strict_repair_prompt_for_empty_actions, strict_repair_prompt_text,
};
use crate::ollama::retry::{force_retry, should_force_execution_retry};
use crate::ollama::rules::{cleaned, clean_optional_string, truncatable, truncate_for_error, truncated_for_error};
use crate::text::{decimal, decimal_string, owned};

verus! {

/// The request timeout in seconds: the configured value brought into 5..=120.
pub fn request_timeout_seconds(settings: &OllamaSettings) -> (r: u64)
    ensures
        r == (if settings.request_timeout_seconds < 5 {
            5
        } else if settings.request_timeout_seconds > 120 {
            120
        } else {
            settings.request_timeout_seconds
        }),
{
    if settings.request_timeout_seconds < 5 {
        5
    } else if settings.request_timeout_seconds > 120 {
        120
    } else {
        settings.request_timeout_seconds
    }
}

/// The bearer token sent with each request: the API key trimmed, none when blank.
pub fn bearer_token(settings: &OllamaSettings) -> (r: Option<String>)
    ensures
        opt_chars(r) == cleaned(opt_chars(settings.api_key)),
{
    let key = match &settings.api_key {
        Some(k) => Some(k.clone()),
        None => None,
    };
    clean_optional_string(key)
}

/// The error for a response with a failure status.
pub fn http_failure_message(status: u16, body: &str) -> (r: String)
    requires
        truncatable(body@),
    ensures
        r@ == "Ollama returned HTTP "@ + decimal(status as nat) + ": "@ + truncated_for_error(body@),
{
    String::from_str("Ollama returned HTTP ").concat(decimal_string(status as u64).as_str()).concat(": ").concat(
        truncate_for_error(body).as_str(),
    )
}

/// A probe of the server succeeds on a success status and fails with the status and body
/// otherwise.
pub fn probe_outcome(success: bool, status: u16, body: &str) -> (r: Result<(), String>)
    requires
        !success ==> truncatable(body@),
    ensures
        success ==> r is Ok,
        !success ==> (r matches Err(e) && e@ == "Ollama returned HTTP "@ + decimal(status as nat) + ": "@
            + truncated_for_error(body@)),
{
    if success {
        Ok(())
    } else {
        Err(http_failure_message(status, body))
    }
}

/// One message of a chat request.
#[derive(Clone, Debug, PartialEq, Eq)]
pub struct ChatMessage {
    pub role: String,
    pub content: String,
}

/// The views of a chat message.
pub open spec fn message_view(m: ChatMessage) -> (Seq<char>, Seq<char>) {
    (m.role@, m.content@)
}

/// The views of a list of chat messages.
pub open spec fn messages_view(ms: Seq<ChatMessage>) -> Seq<(Seq<char>, Seq<char>)> {
    ms.map_values(|m: ChatMessage| message_view(m))
}

/// Which planning request is being made: the first, the repair after a plan without
/// actions, or the stricter repair after that.
#[derive(Clone, Copy, Debug, PartialEq, Eq, Structural)]
pub enum PlanStage {
    Initial,
    Repair,
    StrictRepair,
}

fn chat_message(role: &str, content: &str) -> (r: ChatMessage)
    ensures
        message_view(r) == (role@, content@),
{
    ChatMessage { role: owned(role), content: owned(content) }
}

/// The conversation of a planning request, before the system prompt: the command, and
/// for a repair the earlier plan and the repair prompt.
pub open spec fn stage_messages(stage: PlanStage, user_input: Seq<char>, previous_plan: Seq<char>, repair: Seq<
    char,
>, strict: Seq<char>) -> Seq<(Seq<char>, Seq<char>)> {
    match stage {
        PlanStage::Initial => seq![("user"@, user_input)],
        PlanStage::Repair => seq![("user"@, user_input), ("assistant"@, previous_plan), ("user"@, repair)],
        PlanStage::StrictRepair => seq![
            ("user"@, user_input),
            ("assistant"@, previous_plan),
            ("user"@, strict),
        ],
    }
}

/// The messages of a planning request at `stage`, the system prompt with the bridge
/// context first.
pub fn plan_messages(stage: PlanStage, context_json: &str, user_input: &str, previous_plan_json: &str) -> (r: Vec<
    ChatMessage,
>)
    ensures
        messages_view(r@) == seq![("system"@, planning_prompt_head() + context_json@)] + stage_messages(
            stage,
            user_input@,
            previous_plan_json@,
            repair_prompt_text(),
            strict_repair_prompt_text(),
        ),
{
    let mut out: Vec<ChatMessage> = Vec::new();
    out.push(ChatMessage { role: String::from_str("system"), content: planning_prompt(context_json) });
    out.push(chat_message("user", user_input));
    match stage {
        PlanStage::Initial => {},
        PlanStage::Repair => {
            out.push(chat_message("assistant", previous_plan_json));
            out.push(chat_message("user", repair_prompt_for_empty_actions()));
        },
        PlanStage::StrictRepair => {
            out.push(chat_message("assistant", previous_plan_json));
            out.push(chat_message("user", strict_repair_prompt_for_empty_actions()));
        },
    }
    assert(messages_view(out@) =~= seq![("system"@, planning_prompt_head() + context_json@)] + stage_messages(
        stage,
        user_input@,
        previous_plan_json@,
        repair_prompt_text(),
        strict_repair_prompt_text(),
    ));
    out
}

/// After the plan of `stage` came back: the next stage when it should be asked again, or
/// `None` to keep it.
pub open spec fn next_stage_spec(stage: PlanStage, user_input: Seq<char>, planned: PlannedResponse) -> Option<PlanStage> {
    if !force_retry(user_input, planned) {
        None
    } else {
        match stage {
            PlanStage::Initial => Some(PlanStage::Repair),
            PlanStage::Repair => Some(PlanStage::StrictRepair),
            PlanStage::StrictRepair => None,
        }
    }
}

/// Whether to ask for the plan again, and at which stage.
pub fn next_plan_stage(stage: PlanStage, user_input: &str, planned: &PlannedResponse) -> (r: Option<PlanStage>)
    ensures
        r == next_stage_spec(stage, user_input@, *planned),
{
    if !should_force_execution_retry(user_input, planned) {
        return None;
    }
    match stage {
        PlanStage::Initial => Some(PlanStage::Repair),
        PlanStage::Repair => Some(PlanStage::StrictRepair),
        PlanStage::StrictRepair => None,
    }
}

} // verus!
