//! The settings of the chat-completion service, as the front end sees them.

use vstd::prelude::*;
use crate::services::llm_service::{or_default, setting_or, DEFAULT_BASE_URL, DEFAULT_MODEL};

verus! {

/// The settings of the chat-completion service.
#[derive(Debug)]
pub struct LLMConfig {
    pub api_key: String,
    pub base_url: String,
    pub model: String,
}

/// The settings that the environment gives: each argument is the value of
/// its variable, `None` where the variable is not set. A key that is not set
/// is empty; the address and the model have defaults.
pub fn get_llm_config(
    api_key: Option<String>,
    base_url: Option<String>,
    model: Option<String>,
) -> (config: Result<LLMConfig, String>)
    ensures
        config matches Ok(settings) && settings.api_key@ == or_default(api_key, Seq::empty())
            && settings.base_url@ == or_default(base_url, DEFAULT_BASE_URL@) && settings.model@
            == or_default(model, DEFAULT_MODEL@),
{
    Ok(
        LLMConfig {
            api_key: match api_key {
                Some(key) => key,
                None => String::new(),
            },
            base_url: setting_or(base_url, DEFAULT_BASE_URL),
            model: setting_or(model, DEFAULT_MODEL),
        },
    )
}

} // verus!
