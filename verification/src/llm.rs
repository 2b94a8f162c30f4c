use crate::codec::{decode_opt_string, encode_opt_string};
use crate::errors::GitError;
use crate::keychain::KeychainService;
use crate::prompt::Provider;
use crate::store::AppDatabase;
use crate::text::{
    chars_to_string, ends_with_lit, starts_with_lit, str_eq_lit, str_to_chars, string_eq_lit,
};
use std::sync::Arc;
use vstd::prelude::*;

verus! {

/// One model backend as the user-wide settings store records it: which
/// provider it is, the model to ask for, where its endpoint is, and where its
/// API key comes from ("direct", "keychain" or "env_var"); `api_key_ref` is a
/// vault account or environment-variable name, never the secret itself.
#[derive(Clone, Debug)]
pub struct LLMProviderConfig {
    pub name: String,
    pub provider: String,
    pub model: String,
    pub base_url: Option<String>,
    pub api_key_source: String,
    pub api_key_ref: Option<String>,
    pub api_key: Option<String>,
    /// Uninterpreted parameter text, handed through to the model call.
    pub parameters: Option<String>,
}

/// A configuration resolved and ready for one model call.
#[derive(Clone, Debug)]
pub struct ResolvedLLMConfig {
    pub provider: Provider,
    pub model: String,
    pub base_url: Option<String>,
    pub api_key: String,
    /// Uninterpreted parameter text, handed through to the model call.
    pub parameters: Option<String>,
}

/// Resolves stored provider references to ready configurations.
pub struct LLMConfigResolver {
    app_db: Arc<AppDatabase>,
}

/// The provider a stored name denotes, if any.
pub open spec fn spec_parse_provider(s: Seq<char>) -> Option<Provider> {
    if s == "openai"@ {
        Some(Provider::OpenAI)
    } else if s == "anthropic"@ {
        Some(Provider::Anthropic)
    } else if s == "deepseek"@ {
        Some(Provider::DeepSeek)
    } else if s == "openrouter"@ {
        Some(Provider::OpenRouter)
    } else if s == "ollama"@ {
        Some(Provider::Ollama)
    } else if s == "azure_openai"@ {
        Some(Provider::AzureOpenAI)
    } else if s == "google"@ {
        Some(Provider::Google)
    } else if s == "aihubmix"@ {
        Some(Provider::AiHubMix)
    } else if s == "github"@ {
        Some(Provider::GitHub)
    } else if s == "custom"@ {
        Some(Provider::Custom)
    } else {
        None
    }
}

impl LLMConfigResolver {
    /// A resolver over the user-wide settings store.
    pub fn new(app_db: Arc<AppDatabase>) -> (r: LLMConfigResolver) {
        LLMConfigResolver { app_db }
    }

    /// The provider a stored name denotes: exactly the names
    /// `spec_parse_provider` accepts, anything else rejected by name.
    pub fn parse_provider(&self, provider_str: &str) -> (r: Result<Provider, String>)
        ensures
            r is Ok <==> spec_parse_provider(provider_str@) is Some,
            r matches Ok(p) ==> spec_parse_provider(provider_str@) == Some(p),
            r matches Err(e) ==> e@ == "Unknown provider: "@ + provider_str@,
    {
        if str_eq_lit(provider_str, "openai") {
            Ok(Provider::OpenAI)
        } else if str_eq_lit(provider_str, "anthropic") {
            Ok(Provider::Anthropic)
        } else if str_eq_lit(provider_str, "deepseek") {
            Ok(Provider::DeepSeek)
        } else if str_eq_lit(provider_str, "openrouter") {
            Ok(Provider::OpenRouter)
        } else if str_eq_lit(provider_str, "ollama") {
            Ok(Provider::Ollama)
        } else if str_eq_lit(provider_str, "azure_openai") {
            Ok(Provider::AzureOpenAI)
        } else if str_eq_lit(provider_str, "google") {
            Ok(Provider::Google)
        } else if str_eq_lit(provider_str, "aihubmix") {
            Ok(Provider::AiHubMix)
        } else if str_eq_lit(provider_str, "github") {
            Ok(Provider::GitHub)
        } else if str_eq_lit(provider_str, "custom") {
            Ok(Provider::Custom)
        } else {
            let mut e = String::from_str("Unknown provider: ");
            e.append(provider_str);
            Err(e)
        }
    }

    /// The stored record of one provider reference; an error names the
    /// reference when the store holds no such provider.
    pub fn get_llm_provider(&self, provider_ref: &str) -> (r: Result<LLMProviderConfig, String>) {
        let name = match self.app_db.get_optional_setting(
            provider_key(provider_ref, "name").as_str(),
        ) {
            Some(n) => n,
            None => {
                let mut e = String::from_str("Provider '");
                e.append(provider_ref);
                e.append("' not found in global config");
                return Err(e);
            },
        };
        let provider = match self.app_db.get_optional_setting(
            provider_key(provider_ref, "provider").as_str(),
        ) {
            Some(p) => p,
            None => String::new(),
        };
        let model = match self.app_db.get_optional_setting(
            provider_key(provider_ref, "model").as_str(),
        ) {
            Some(m) => m,
            None => String::new(),
        };
        let api_key_source = match self.app_db.get_optional_setting(
            provider_key(provider_ref, "api_key_source").as_str(),
        ) {
            Some(s) => s,
            None => String::new(),
        };
        let base_url = decode_opt_string(
            &self.app_db.get_optional_setting(provider_key(provider_ref, "base_url").as_str()),
        );
        let api_key_ref = decode_opt_string(
            &self.app_db.get_optional_setting(provider_key(provider_ref, "api_key_ref").as_str()),
        );
        let api_key = decode_opt_string(
            &self.app_db.get_optional_setting(provider_key(provider_ref, "api_key").as_str()),
        );
        let parameters = decode_opt_string(
            &self.app_db.get_optional_setting(provider_key(provider_ref, "parameters").as_str()),
        );
        Ok(
            LLMProviderConfig {
                name,
                provider,
                model,
                base_url,
                api_key_source,
                api_key_ref,
                api_key,
                parameters,
            },
        )
    }

    /// Stores one provider record under its name.
    pub fn save_llm_provider(&self, config: &LLMProviderConfig) -> (r: Result<(), GitError>) {
        let name = config.name.as_str();
        self.app_db.save_app_setting(provider_key(name, "name").as_str(), &config.name)?;
        self.app_db.save_app_setting(provider_key(name, "provider").as_str(), &config.provider)?;
        self.app_db.save_app_setting(provider_key(name, "model").as_str(), &config.model)?;
        self.app_db.save_app_setting(
            provider_key(name, "api_key_source").as_str(),
            &config.api_key_source,
        )?;
        self.app_db.save_app_setting(
            provider_key(name, "base_url").as_str(),
            &encode_opt_string(&config.base_url),
        )?;
        self.app_db.save_app_setting(
            provider_key(name, "api_key_ref").as_str(),
            &encode_opt_string(&config.api_key_ref),
        )?;
        self.app_db.save_app_setting(
            provider_key(name, "api_key").as_str(),
            &encode_opt_string(&config.api_key),
        )?;
        self.app_db.save_app_setting(
            provider_key(name, "parameters").as_str(),
            &encode_opt_string(&config.parameters),
        )?;
        Ok(())
    }

    /// Every stored provider record, by the order of their names.
    pub fn list_llm_providers(&self) -> (r: Result<Vec<LLMProviderConfig>, String>) {
        let pairs = match self.app_db.all_settings() {
            Ok(p) => p,
            Err(_) => {
                return Err(String::from_str("Failed to list providers"));
            },
        };
        let mut out: Vec<LLMProviderConfig> = Vec::new();
        let mut i: usize = 0;
        while i < pairs.len()
            invariant
                i <= pairs@.len(),
            decreases pairs@.len() - i,
        {
            let key_chars = str_to_chars(pairs[i].0.as_str());
            if starts_with_lit(&key_chars, "llm_provider:") && ends_with_lit(&key_chars, ":name") {
                match self.get_llm_provider(pairs[i].1.as_str()) {
                    Ok(config) => out.push(config),
                    Err(_) => (),
                }
            }
            i = i + 1;
        }
        Ok(out)
    }

    /// The names of every stored provider.
    pub fn list_available_providers(&self) -> (r: Result<Vec<String>, String>) {
        let providers = self.list_llm_providers()?;
        let mut names: Vec<String> = Vec::new();
        let mut i: usize = 0;
        while i < providers.len()
            invariant
                i <= providers@.len(),
                names@.len() == i,
                forall|j: int| 0 <= j < i ==> #[trigger] names@[j] == providers@[j].name,
            decreases providers@.len() - i,
        {
            names.push(providers[i].name.clone());
            i = i + 1;
        }
        Ok(names)
    }

    /// Whether the store holds a provider under this reference.
    pub fn provider_exists(&self, provider_ref: &str) -> (r: bool) {
        match self.get_llm_provider(provider_ref) {
            Ok(_) => true,
            Err(_) => false,
        }
    }

    /// The API key a provider record calls for. A "direct" key must be
    /// present and non-empty; a "keychain" reference is resolved against the
    /// vault; an "env_var" reference is resolved against `env_value`, the
    /// value the caller read from that variable, since reading the
    /// environment is the caller's business.
    pub fn api_key_for(&self, config: &LLMProviderConfig, env_value: Option<String>) -> (r: Result<
        String,
        String,
    >)
        ensures
            config.api_key_source@ == "direct"@ ==> match config.api_key {
                Some(k) => if k@.len() > 0 {
                    r matches Ok(key) && key@ == k@
                } else {
                    r matches Err(e) && e@ == "Direct API key is empty"@
                },
                None => r matches Err(e) && e@ == "No API key found in direct config"@,
            },
            config.api_key_source@ == "env_var"@ ==> match config.api_key_ref {
                Some(_) => match env_value {
                    Some(v) => r matches Ok(key) && key@ == v@,
                    None => r is Err,
                },
                None => r matches Err(e) && e@
                    == "No environment variable specified for API key"@,
            },
    {
        proof {
            reveal_strlit("direct");
            reveal_strlit("keychain");
            reveal_strlit("env_var");
            assert("direct"@.len() == 6);
            assert("keychain"@.len() == 8);
            assert("env_var"@.len() == 7);
            assert("direct"@ != "keychain"@ && "direct"@ != "env_var"@ && "keychain"@
                != "env_var"@);
        }
        if string_eq_lit(&config.api_key_source, "direct") {
            match &config.api_key {
                Some(k) => {
                    if k.as_str().unicode_len() > 0 {
                        let chars = str_to_chars(k.as_str());
                        Ok(chars_to_string(&chars))
                    } else {
                        Err(String::from_str("Direct API key is empty"))
                    }
                },
                None => Err(String::from_str("No API key found in direct config")),
            }
        } else if string_eq_lit(&config.api_key_source, "keychain") {
            match &config.api_key_ref {
                Some(key_ref) => KeychainService::get_api_key(key_ref.as_str()),
                None => Err(String::from_str("No API key reference found in keychain config")),
            }
        } else if string_eq_lit(&config.api_key_source, "env_var") {
            match &config.api_key_ref {
                Some(name) => match env_value {
                    Some(v) => Ok(v),
                    None => {
                        let mut e = String::from_str("Environment variable '");
                        e.append(name.as_str());
                        e.append("' not found");
                        Err(e)
                    },
                },
                None => Err(String::from_str("No environment variable specified for API key")),
            }
        } else {
            let mut e = String::from_str("Invalid API key source: ");
            e.append(config.api_key_source.as_str());
            Err(e)
        }
    }
}

/// The settings-store key of one field of one provider record.
fn provider_key(name: &str, field: &str) -> (r: String)
    ensures
        r@ == "llm_provider:"@ + name@ + ":"@ + field@,
{
    let mut r = String::from_str("llm_provider:");
    r.append(name);
    r.append(":");
    r.append(field);
    r
}

} // verus!
