use openai::client::{
    auth_header, request_url, set_api_type, set_base_url, set_key, ApiResponse, ApiType,
    ClientConfig, OpenAiError, Usage,
};

#[test]
fn fresh_configuration() {
    let config = ClientConfig::new();
    assert_eq!(config.key, "");
    assert_eq!(config.base_url, "https://api.openai.com/v1/");
    assert_eq!(config.api_type, ApiType::OpenAi);
}

#[test]
fn setters_replace_one_field() {
    let mut config = ClientConfig::new();
    set_key(&mut config, "sk-test".to_string());
    assert_eq!(config.key, "sk-test");
    set_base_url(&mut config, "https://example.test/".to_string());
    assert_eq!(config.base_url, "https://example.test/");
    assert_eq!(config.key, "sk-test");
    set_api_type(&mut config, ApiType::Azure);
    assert_eq!(config.api_type, ApiType::Azure);
    assert_eq!(config.base_url, "https://example.test/");
}

#[test]
fn bearer_header_by_default() {
    let mut config = ClientConfig::new();
    set_key(&mut config, "sk-test".to_string());
    assert_eq!(auth_header(&config), ("Authorization".to_string(), "Bearer sk-test".to_string()));
    assert_eq!(request_url(&config, "models"), "https://api.openai.com/v1/models");
}

#[test]
fn azure_flavour_uses_api_key_header_and_version() {
    let mut config = ClientConfig::new();
    set_key(&mut config, "k".to_string());
    set_base_url(&mut config, "https://x.openai.azure.com/openai/deployments/d/".to_string());
    set_api_type(&mut config, ApiType::Azure);
    assert_eq!(auth_header(&config), ("api-key".to_string(), "k".to_string()));
    assert_eq!(
        request_url(&config, "chat/completions"),
        "https://x.openai.azure.com/openai/deployments/d/chat/completions?api-version=2023-03-15-preview"
    );
}

#[test]
fn response_envelope_becomes_result() {
    let ok: ApiResponse<u32> = ApiResponse::Success(7);
    assert_eq!(ok.into_result().unwrap(), 7);
    let error = OpenAiError {
        message: "bad key".to_string(),
        error_type: "invalid_request_error".to_string(),
        param: None,
        code: Some("invalid_api_key".to_string()),
    };
    let failed: ApiResponse<u32> = ApiResponse::Failure { error };
    let e = failed.into_result().unwrap_err();
    assert_eq!(e.to_text(), "bad key");
    assert_eq!(e.code.as_deref(), Some("invalid_api_key"));
}

#[test]
fn usage_counts() {
    let u = Usage { prompt_tokens: 3, completion_tokens: 4, total_tokens: 7 };
    assert_eq!(u, Usage { prompt_tokens: 3, completion_tokens: 4, total_tokens: 7 });
}
