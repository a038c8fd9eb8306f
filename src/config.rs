use vstd::prelude::*;
use vstd::string::StringExecFns;
use crate::azure::AzureBridge;
use crate::azure_deepseek::AzureDeepSeekBridge;
use crate::bridge::LLMBridge;
use crate::deepseek::DeepSeekBridge;
use crate::message::{LLMRequest, LLMResponse, LLMServiceError, Prompt, same_text};
use crate::ollama::OllamaBridge;
use crate::wire::{HttpCall, HttpOutcome, HttpRequest};

verus! {

/// Settings of the local generation server.
#[derive(Clone, Debug)]
pub struct OllamaConfig {
    pub base_url: String,
    pub model: String,
}

/// Settings of the hosted text-completion endpoint.
#[derive(Clone, Debug)]
pub struct AzureConfig {
    pub base_url: String,
    pub api_key: String,
    pub model: String,
}

/// Settings of the hosted chat-completions service.
#[derive(Clone, Debug)]
pub struct DeepSeekConfig {
    pub api_key: String,
    pub model: String,
}

/// Settings of the chat-completions gateway.
#[derive(Clone, Debug)]
pub struct AzureDeepSeekConfig {
    pub api_key: String,
    pub base_url: String,
}

/// The provider name and one optional settings block per supported provider.
#[derive(Clone, Debug)]
pub struct AIService {
    pub provider: String,
    pub ollama: Option<OllamaConfig>,
    pub azure: Option<AzureConfig>,
    pub deepseek: Option<DeepSeekConfig>,
    pub azure_deepseek: Option<AzureDeepSeekConfig>,
}

/// The whole configuration record.
#[derive(Clone, Debug)]
pub struct Config {
    pub ai_service: AIService,
}

/// A loaded configuration, and whether it is the built-in default.
#[derive(Clone, Debug)]
pub struct LoadConfigResponse {
    pub config: Config,
    pub using_default: bool,
}

/// Why a configuration cannot give an adapter. Both are fatal at load time.
pub enum ConfigError {
    /// The provider name is none of the known ones.
    UnsupportedProvider(String),
    /// The named provider has no settings block.
    MissingSettings(String),
}

impl ConfigError {
    pub fn to_string(&self) -> (r: String)
        ensures
            r@ == match self {
                ConfigError::UnsupportedProvider(p) => "Unsupported AI service provider: "@ + p@,
                ConfigError::MissingSettings(p) => "Missing settings for AI service provider: "@ + p@,
            },
    {
        match self {
            ConfigError::UnsupportedProvider(p) => {
                let mut m = String::from_str("Unsupported AI service provider: ");
                m.append(p.as_str());
                m
            },
            ConfigError::MissingSettings(p) => {
                let mut m = String::from_str("Missing settings for AI service provider: ");
                m.append(p.as_str());
                m
            },
        }
    }
}

/// The one active adapter, chosen by configuration.
pub enum Provider {
    Ollama(OllamaBridge),
    Azure(AzureBridge),
    DeepSeek(DeepSeekBridge),
    AzureDeepSeek(AzureDeepSeekBridge),
}

/// The model the gateway adapter is always configured with.
pub open spec fn gateway_model() -> Seq<char> {
    "DeepSeek-R1"@
}

pub open spec fn known_provider(name: Seq<char>) -> bool {
    name == "ollama"@ || name == "azure"@ || name == "deepseek"@ || name == "azure-deepseek"@
}

/// Builds the adapter the provider name selects, from that provider's settings block.
pub fn select_bridge(service: &AIService) -> (r: Result<Provider, ConfigError>)
    ensures
        service.provider@ == "ollama"@ ==> match service.ollama {
            Some(c) => r matches Ok(Provider::Ollama(b)) && b.base_url@ == c.base_url@ && b.model@ == c.model@,
            None => r matches Err(ConfigError::MissingSettings(p)) && p@ == service.provider@,
        },
        service.provider@ == "azure"@ ==> match service.azure {
            Some(c) => r matches Ok(Provider::Azure(b)) && b.base_url@ == c.base_url@ && b.model@ == c.model@
                && b.api_key@ == c.api_key@,
            None => r matches Err(ConfigError::MissingSettings(p)) && p@ == service.provider@,
        },
        service.provider@ == "deepseek"@ ==> match service.deepseek {
            Some(c) => r matches Ok(Provider::DeepSeek(b)) && b.api_key@ == c.api_key@ && b.model@ == c.model@,
            None => r matches Err(ConfigError::MissingSettings(p)) && p@ == service.provider@,
        },
        service.provider@ == "azure-deepseek"@ ==> match service.azure_deepseek {
            Some(c) => r matches Ok(Provider::AzureDeepSeek(b)) && b.base_url@ == c.base_url@
                && b.model@ == gateway_model() && b.api_key@ == c.api_key@,
            None => r matches Err(ConfigError::MissingSettings(p)) && p@ == service.provider@,
        },
        !known_provider(service.provider@) ==> (r matches Err(ConfigError::UnsupportedProvider(p))
            && p@ == service.provider@),
{
    proof {
        reveal_strlit("ollama");
        reveal_strlit("azure");
        reveal_strlit("deepseek");
        reveal_strlit("azure-deepseek");
        assert("ollama"@.len() == 6 && "azure"@.len() == 5);
        assert("deepseek"@.len() == 8 && "azure-deepseek"@.len() == 14);
        assert("azure"@ != "ollama"@);
        assert("deepseek"@ != "ollama"@ && "deepseek"@ != "azure"@);
        assert("azure-deepseek"@ != "ollama"@ && "azure-deepseek"@ != "azure"@);
        assert("azure-deepseek"@ != "deepseek"@);
    }
    let name = service.provider.as_str();
    let missing = ConfigError::MissingSettings(String::from_str(name));
    if same_text(name, "ollama") {
        match &service.ollama {
            Some(c) => Ok(Provider::Ollama(OllamaBridge::new(c.base_url.as_str(), c.model.as_str()))),
            None => Err(missing),
        }
    } else if same_text(name, "azure") {
        match &service.azure {
            Some(c) => Ok(Provider::Azure(AzureBridge::new(c.base_url.as_str(), c.model.as_str(), c.api_key.as_str()))),
            None => Err(missing),
        }
    } else if same_text(name, "deepseek") {
        match &service.deepseek {
            Some(c) => Ok(Provider::DeepSeek(DeepSeekBridge::new(c.api_key.as_str(), c.model.as_str()))),
            None => Err(missing),
        }
    } else if same_text(name, "azure-deepseek") {
        match &service.azure_deepseek {
            Some(c) => Ok(Provider::AzureDeepSeek(AzureDeepSeekBridge::new(c.base_url.as_str(), "DeepSeek-R1", c.api_key.as_str()))),
            None => Err(missing),
        }
    } else {
        Err(ConfigError::UnsupportedProvider(String::from_str(name)))
    }
}

impl LLMBridge for Provider {
    open spec fn spec_name(&self) -> Seq<char> {
        match self {
            Provider::Ollama(b) => b.spec_name(),
            Provider::Azure(b) => b.spec_name(),
            Provider::DeepSeek(b) => b.spec_name(),
            Provider::AzureDeepSeek(b) => b.spec_name(),
        }
    }

    open spec fn spec_model(&self) -> Seq<char> {
        match self {
            Provider::Ollama(b) => b.spec_model(),
            Provider::Azure(b) => b.spec_model(),
            Provider::DeepSeek(b) => b.spec_model(),
            Provider::AzureDeepSeek(b) => b.spec_model(),
        }
    }

    open spec fn completion_call(&self, messages: Seq<Prompt>) -> HttpCall {
        match self {
            Provider::Ollama(b) => b.completion_call(messages),
            Provider::Azure(b) => b.completion_call(messages),
            Provider::DeepSeek(b) => b.completion_call(messages),
            Provider::AzureDeepSeek(b) => b.completion_call(messages),
        }
    }

    open spec fn health_call(&self) -> HttpCall {
        match self {
            Provider::Ollama(b) => b.health_call(),
            Provider::Azure(b) => b.health_call(),
            Provider::DeepSeek(b) => b.health_call(),
            Provider::AzureDeepSeek(b) => b.health_call(),
        }
    }

    open spec fn completion_result(&self, outcome: HttpOutcome) -> Result<Seq<char>, Seq<char>> {
        match self {
            Provider::Ollama(b) => b.completion_result(outcome),
            Provider::Azure(b) => b.completion_result(outcome),
            Provider::DeepSeek(b) => b.completion_result(outcome),
            Provider::AzureDeepSeek(b) => b.completion_result(outcome),
        }
    }

    fn name(&self) -> (r: &str) {
        match self {
            Provider::Ollama(b) => b.name(),
            Provider::Azure(b) => b.name(),
            Provider::DeepSeek(b) => b.name(),
            Provider::AzureDeepSeek(b) => b.name(),
        }
    }

    fn model(&self) -> (r: &str) {
        match self {
            Provider::Ollama(b) => b.model(),
            Provider::Azure(b) => b.model(),
            Provider::DeepSeek(b) => b.model(),
            Provider::AzureDeepSeek(b) => b.model(),
        }
    }

    fn complete_request(&self, request: &LLMRequest) -> (r: HttpRequest) {
        match self {
            Provider::Ollama(b) => b.complete_request(request),
            Provider::Azure(b) => b.complete_request(request),
            Provider::DeepSeek(b) => b.complete_request(request),
            Provider::AzureDeepSeek(b) => b.complete_request(request),
        }
    }

    fn complete_outcome(&self, outcome: HttpOutcome) -> (r: Result<LLMResponse, LLMServiceError>) {
        match self {
            Provider::Ollama(b) => b.complete_outcome(outcome),
            Provider::Azure(b) => b.complete_outcome(outcome),
            Provider::DeepSeek(b) => b.complete_outcome(outcome),
            Provider::AzureDeepSeek(b) => b.complete_outcome(outcome),
        }
    }

    fn health_request(&self) -> (r: HttpRequest) {
        match self {
            Provider::Ollama(b) => b.health_request(),
            Provider::Azure(b) => b.health_request(),
            Provider::DeepSeek(b) => b.health_request(),
            Provider::AzureDeepSeek(b) => b.health_request(),
        }
    }

    fn health_outcome(&self, outcome: HttpOutcome) -> (r: Result<bool, LLMServiceError>) {
        match self {
            Provider::Ollama(b) => b.health_outcome(outcome),
            Provider::Azure(b) => b.health_outcome(outcome),
            Provider::DeepSeek(b) => b.health_outcome(outcome),
            Provider::AzureDeepSeek(b) => b.health_outcome(outcome),
        }
    }
}

} // verus!
