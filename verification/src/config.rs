//! Configuration values the pipeline is constructed with: the stored
//! credential and the selected model, plus the rule that picks the effective
//! credential from the environment override and the stored value. Reading and
//! writing the configuration file is the embedding program's job.

use vstd::prelude::*;

verus! {

/// The persisted configuration: an optional credential and an optional model
/// selection.
#[derive(Debug, Clone)]
pub struct Config {
    pub api_key: Option<String>,
    pub model: Option<String>,
}

/// The model used when the configuration selects none.
pub open spec fn default_model_spec() -> Seq<char> {
    "gpt-oss-120b"@
}

/// The model the configuration selects.
pub open spec fn model_spec(c: Config) -> Seq<char> {
    match c.model {
        Some(m) => m@,
        None => default_model_spec(),
    }
}

impl Config {
    /// The model used when the configuration selects none.
    pub fn default_model() -> (r: &'static str)
        ensures
            r@ == default_model_spec(),
    {
        "gpt-oss-120b"
    }

    /// The selected model, or the default.
    pub fn model(&self) -> (r: &str)
        ensures
            r@ == model_spec(*self),
    {
        match &self.model {
            Some(m) => m.as_str(),
            None => Self::default_model(),
        }
    }

    /// The same configuration with the credential replaced.
    pub fn with_api_key(self, key: String) -> (r: Config)
        ensures
            r.api_key == Some(key),
            r.model == self.model,
    {
        Config { api_key: Some(key), model: self.model }
    }
}

/// The effective credential: a non-empty environment override wins over the
/// stored value.
pub open spec fn effective_api_key_spec(env_key: Option<Seq<char>>, stored: Option<Seq<char>>) -> Option<
    Seq<char>,
> {
    match env_key {
        Some(k) => if k.len() > 0 {
            Some(k)
        } else {
            stored
        },
        None => stored,
    }
}

/// Picks the effective credential from the environment override and the
/// stored configuration value.
pub fn get_effective_api_key(env_key: Option<String>, config: &Config) -> (r: Option<String>)
    ensures
        r.deep_view() == effective_api_key_spec(env_key.deep_view(), config.api_key.deep_view()),
{
    match env_key {
        Some(k) => {
            if k.as_str().unicode_len() > 0 {
                Some(k)
            } else {
                match &config.api_key {
                    Some(s) => Some(s.clone()),
                    None => None,
                }
            }
        },
        None => match &config.api_key {
            Some(s) => Some(s.clone()),
            None => None,
        },
    }
}

/// The command-line switches the pipeline reacts to.
#[derive(Debug, Clone, Copy)]
pub struct Args {
    pub help: bool,
    pub dry_run: bool,
    pub reset_key: bool,
    pub reset_cache: bool,
}

} // verus!
