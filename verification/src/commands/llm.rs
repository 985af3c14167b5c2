//! The chat-completion commands.

use vstd::prelude::*;
use vstd::string::StringExecFns;
use crate::services::llm_service::{
    or_default,
    setting_or,
    LLMError,
    LLMResponse,
    LLMService,
    LLMUsage,
    DEFAULT_BASE_URL,
    DEFAULT_MODEL,
};
use crate::text::{clone_text, prefixed, text_of};

verus! {

/// A completion, as the front end sees it.
#[derive(Debug)]
pub struct ChatCompletionResponse {
    pub id: String,
    pub content: String,
    pub finish_reason: Option<String>,
    pub usage: Option<ChatUsage>,
}

/// What a completion cost, in tokens.
#[derive(Debug, Clone, Copy, PartialEq, Eq, Structural)]
pub struct ChatUsage {
    pub prompt_tokens: u32,
    pub completion_tokens: u32,
    pub total_tokens: u32,
}

/// The settings of the chat-completion service.
#[derive(Debug)]
pub struct LLMConfig {
    pub api_key: String,
    pub base_url: String,
    pub model: String,
}

/// The cost of a completion, as the front end sees it.
pub open spec fn usage_of(usage: Option<LLMUsage>) -> Option<ChatUsage> {
    match usage {
        Some(u) => Some(
            ChatUsage {
                prompt_tokens: u.prompt_tokens,
                completion_tokens: u.completion_tokens,
                total_tokens: u.total_tokens,
            },
        ),
        None => None,
    }
}

/// Answers a request for a completion: `response` is what the service
/// returned. The answer is the first choice of the completion; a completion
/// without a choice, and any failure of the service, is answered in words.
pub fn chat_completion(response: Result<LLMResponse, LLMError>) -> (answer: Result<
    ChatCompletionResponse,
    String,
>)
    ensures
        match response {
            Err(error) => answer matches Err(message) && message@ == error@.message(),
            Ok(completion) => if completion.choices@.len() == 0 {
                answer matches Err(message) && message@ == "No choices in response"@
            } else {
                &&& answer matches Ok(shown)
                &&& shown.id@ == completion.id@
                &&& shown.content@ == completion.choices@[0].message.content@
                &&& text_of(shown.finish_reason) == text_of(completion.choices@[0].finish_reason)
                &&& shown.usage == usage_of(completion.usage)
            },
        },
{
    match response {
        Err(error) => Err(error.to_string()),
        Ok(completion) => {
            if completion.choices.len() == 0 {
                return Err(String::from_str("No choices in response"));
            }
            let content = completion.choices[0].message.content.clone();
            let finish_reason = clone_text(&completion.choices[0].finish_reason);
            let usage = match completion.usage {
                Some(u) => Some(
                    ChatUsage {
                        prompt_tokens: u.prompt_tokens,
                        completion_tokens: u.completion_tokens,
                        total_tokens: u.total_tokens,
                    },
                ),
                None => None,
            };
            Ok(ChatCompletionResponse { id: completion.id, content, finish_reason, usage })
        },
    }
}

/// The settings that the environment gives: each argument is the value of
/// its variable, `None` where the variable is not set. A key that is not set
/// is empty; the address and the model have defaults.
pub fn get_llm_config(
    api_key: Option<String>,
    base_url: Option<String>,
    model: Option<String>,
) -> (config: Result<LLMConfig, String>)
    ensures
        config matches Ok(settings) && settings.api_key@ == or_default(api_key, Seq::empty())
            && settings.base_url@ == or_default(base_url, DEFAULT_BASE_URL@) && settings.model@
            == or_default(model, DEFAULT_MODEL@),
{
    Ok(
        LLMConfig {
            api_key: match api_key {
                Some(key) => key,
                None => String::new(),
            },
            base_url: setting_or(base_url, DEFAULT_BASE_URL),
            model: setting_or(model, DEFAULT_MODEL),
        },
    )
}

/// Says whether the service can be reached with the settings at hand:
/// `made` is what came of making the service.
pub fn test_llm_connection(made: Result<LLMService, LLMError>) -> (answer: Result<String, String>)
    ensures
        match made {
            Ok(_) => answer matches Ok(text) && text@ == "Connection successful"@,
            Err(error) => answer matches Err(text) && text@ == "Connection failed: "@
                + error@.message(),
        },
{
    match made {
        Ok(_) => Ok(String::from_str("Connection successful")),
        Err(error) => {
            let message = error.to_string();
            Err(prefixed("Connection failed: ", message.as_str()))
        },
    }
}

} // verus!
