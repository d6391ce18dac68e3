//! Configuration that the session reads: the active provider, the registry
//! of provider settings, and the flags for how a commit's prefix is shown.

use vstd::prelude::*;
use vstd::string::*;

verus! {

/// The services that can be asked for suggestions.
#[derive(Clone, Copy, Debug, PartialEq, Eq)]
pub enum Provider {
    OpenAI,
    Claude,
    Gemini,
}

impl Provider {
    /// The provider's name as shown to the user.
    pub open spec fn label(self) -> Seq<char> {
        match self {
            Provider::OpenAI => "OpenAI"@,
            Provider::Claude => "Anthropic"@,
            Provider::Gemini => "Gemini"@,
        }
    }

    /// The provider's name as shown to the user.
    pub fn name(self) -> (word: &'static str)
        ensures
            word@ == self.label(),
    {
        match self {
            Provider::OpenAI => "OpenAI",
            Provider::Claude => "Anthropic",
            Provider::Gemini => "Gemini",
        }
    }
}

/// What is needed to reach one provider.
#[derive(Clone, Debug, PartialEq, Eq)]
pub struct ProviderSettings {
    pub model: String,
    pub api_key: String,
    pub endpoint: String,
}

impl ProviderSettings {
    /// Equal settings.
    pub fn duplicate(&self) -> (copy: ProviderSettings)
        ensures
            copy == *self,
    {
        ProviderSettings {
            model: self.model.clone(),
            api_key: self.api_key.clone(),
            endpoint: self.endpoint.clone(),
        }
    }
}

/// The settings of each provider that has been configured.
#[derive(Clone, Debug, PartialEq, Eq)]
pub struct ProviderRegistry {
    pub openai: Option<ProviderSettings>,
    pub claude: Option<ProviderSettings>,
    pub gemini: Option<ProviderSettings>,
}

impl ProviderRegistry {
    /// The settings registered for `kind`, if any.
    pub open spec fn entry(&self, kind: Provider) -> Option<ProviderSettings> {
        match kind {
            Provider::OpenAI => self.openai,
            Provider::Claude => self.claude,
            Provider::Gemini => self.gemini,
        }
    }

    /// The settings registered for `kind`, if any.
    pub fn get(&self, kind: Provider) -> (found: Option<&ProviderSettings>)
        ensures
            found is Some == self.entry(kind) is Some,
            found matches Some(settings) ==> Some(*settings) == self.entry(kind),
    {
        match kind {
            Provider::OpenAI => self.openai.as_ref(),
            Provider::Claude => self.claude.as_ref(),
            Provider::Gemini => self.gemini.as_ref(),
        }
    }
}

/// The active provider and the registry.
#[derive(Clone, Debug, PartialEq, Eq)]
pub struct AiConfig {
    pub provider: Provider,
    pub providers: ProviderRegistry,
}

impl AiConfig {
    /// The settings of the active provider, if it is registered.
    pub open spec fn active(&self) -> Option<ProviderSettings> {
        self.providers.entry(self.provider)
    }
}

/// How the prefix of a suggestion is shown in the list of commits.
#[derive(Clone, Copy, Debug, PartialEq, Eq)]
pub struct CommitConfig {
    pub capitalize_prefix: bool,
    pub include_scope: bool,
}

/// Settings of the assistant itself.
#[derive(Clone, Copy, Debug, PartialEq, Eq)]
pub struct GaiConfig {
    pub commit_config: CommitConfig,
}

/// The whole configuration.
#[derive(Clone, Debug, PartialEq, Eq)]
pub struct Config {
    pub ai: AiConfig,
    pub gai: GaiConfig,
}

} // verus!
