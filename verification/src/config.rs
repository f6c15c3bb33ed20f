//! The settings that the planner's provider needs, and their validation.

use crate::text::{chars_of, matches_at, starts_with};
use vstd::prelude::*;

verus! {

/// The settings of one session.
#[derive(Debug, Clone)]
pub struct Config {
    pub deepseek_api_key: String,
}

/// Why a configuration is refused.
#[derive(Clone, Copy, Debug, PartialEq, Eq, Structural)]
pub enum ConfigError {
    /// The key is the empty string.
    EmptyKey,
    /// The key does not begin with `sk-`.
    MalformedKey,
}

/// The verdict on a key: it must not be empty, and it must begin with `sk-`.
pub open spec fn key_verdict(key: Seq<char>) -> Result<(), ConfigError> {
    if key.len() == 0 {
        Err(ConfigError::EmptyKey)
    } else if !starts_with(key, "sk-"@) {
        Err(ConfigError::MalformedKey)
    } else {
        Ok(())
    }
}

impl ConfigError {
    /// The text that tells the operator what is wrong.
    pub open spec fn message_text(self) -> Seq<char> {
        match self {
            ConfigError::EmptyKey => "API密钥为空"@,
            ConfigError::MalformedKey => "API密钥格式错误"@,
        }
    }

    /// The text that tells the operator what is wrong.
    pub fn message(&self) -> (text: String)
        ensures
            text@ == self.message_text(),
    {
        match self {
            ConfigError::EmptyKey => String::from_str("API密钥为空"),
            ConfigError::MalformedKey => String::from_str("API密钥格式错误"),
        }
    }
}

impl Config {
    /// The settings with the key that the environment gave.
    pub fn new(deepseek_api_key: String) -> (config: Config)
        ensures
            config.deepseek_api_key@ == deepseek_api_key@,
    {
        Config { deepseek_api_key }
    }

    /// Checks the key's shape.
    pub fn validate(&self) -> (verdict: Result<(), ConfigError>)
        ensures
            verdict == key_verdict(self.deepseek_api_key@),
    {
        let key = chars_of(self.deepseek_api_key.as_str());
        if key.len() == 0 {
            return Err(ConfigError::EmptyKey);
        }
        let prefix = chars_of("sk-");
        if !matches_at(&key, &prefix, 0) {
            return Err(ConfigError::MalformedKey);
        }
        Ok(())
    }
}

} // verus!
