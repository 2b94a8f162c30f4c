use std::sync::Arc;
use vibebase::llm::{LLMConfigResolver, LLMProviderConfig};
use vibebase::prompt::Provider;
use vibebase::store::AppDatabase;

#[test]
fn test_parse_provider() {
    let app_db = Arc::new(AppDatabase::new().unwrap());
    let resolver = LLMConfigResolver::new(app_db);

    assert!(matches!(resolver.parse_provider("openai").unwrap(), Provider::OpenAI));
    assert!(matches!(resolver.parse_provider("anthropic").unwrap(), Provider::Anthropic));
    assert!(resolver.parse_provider("invalid").is_err());
}

#[test]
fn parse_provider_covers_every_backend() {
    let resolver = LLMConfigResolver::new(Arc::new(AppDatabase::new().unwrap()));
    assert!(matches!(resolver.parse_provider("deepseek").unwrap(), Provider::DeepSeek));
    assert!(matches!(resolver.parse_provider("openrouter").unwrap(), Provider::OpenRouter));
    assert!(matches!(resolver.parse_provider("ollama").unwrap(), Provider::Ollama));
    assert!(matches!(resolver.parse_provider("azure_openai").unwrap(), Provider::AzureOpenAI));
    assert!(matches!(resolver.parse_provider("google").unwrap(), Provider::Google));
    assert!(matches!(resolver.parse_provider("aihubmix").unwrap(), Provider::AiHubMix));
    assert!(matches!(resolver.parse_provider("github").unwrap(), Provider::GitHub));
    assert!(matches!(resolver.parse_provider("custom").unwrap(), Provider::Custom));
    let err = resolver.parse_provider("gpt").unwrap_err();
    assert_eq!(err, "Unknown provider: gpt");
}

#[test]
fn provider_records_round_trip_through_the_store() {
    let resolver = LLMConfigResolver::new(Arc::new(AppDatabase::new().unwrap()));
    let config = LLMProviderConfig {
        name: "round-trip-probe".to_string(),
        provider: "openai".to_string(),
        model: "gpt-4o".to_string(),
        base_url: Some("http://localhost:11434/v1".to_string()),
        api_key_source: "direct".to_string(),
        api_key_ref: None,
        api_key: Some("local-test-key".to_string()),
        parameters: None,
    };
    resolver.save_llm_provider(&config).unwrap();
    assert!(resolver.provider_exists("round-trip-probe"));
    let loaded = resolver.get_llm_provider("round-trip-probe").unwrap();
    assert_eq!(loaded.name, "round-trip-probe");
    assert_eq!(loaded.provider, "openai");
    assert_eq!(loaded.model, "gpt-4o");
    assert_eq!(loaded.base_url.as_deref(), Some("http://localhost:11434/v1"));
    assert_eq!(loaded.api_key_source, "direct");
    assert_eq!(loaded.api_key_ref, None);
    assert_eq!(loaded.parameters, None);
    let names = resolver.list_available_providers().unwrap();
    assert!(names.contains(&"round-trip-probe".to_string()));
    assert!(!resolver.provider_exists("never-saved-probe"));
}

#[test]
fn api_key_resolution_follows_the_source() {
    let resolver = LLMConfigResolver::new(Arc::new(AppDatabase::new().unwrap()));
    let mut config = LLMProviderConfig {
        name: "key-probe".to_string(),
        provider: "openai".to_string(),
        model: "m".to_string(),
        base_url: None,
        api_key_source: "direct".to_string(),
        api_key_ref: None,
        api_key: Some("local-test-key".to_string()),
        parameters: None,
    };
    assert_eq!(resolver.api_key_for(&config, None).unwrap(), "local-test-key");

    config.api_key = Some(String::new());
    assert_eq!(resolver.api_key_for(&config, None).unwrap_err(), "Direct API key is empty");

    config.api_key = None;
    assert_eq!(resolver.api_key_for(&config, None).unwrap_err(), "No API key found in direct config");

    config.api_key_source = "env_var".to_string();
    config.api_key_ref = Some("PROBE_VAR".to_string());
    assert_eq!(resolver.api_key_for(&config, Some("from-env".to_string())).unwrap(), "from-env");
    assert_eq!(
        resolver.api_key_for(&config, None).unwrap_err(),
        "Environment variable 'PROBE_VAR' not found"
    );

    config.api_key_source = "smoke".to_string();
    assert_eq!(resolver.api_key_for(&config, None).unwrap_err(), "Invalid API key source: smoke");
}
