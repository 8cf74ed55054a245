use azure_dispatch::credentials::{auth_header, resolve, Credential};
use azure_dispatch::endpoint::{api_version_or_default, build_request_url, EndpointConfig};
use azure_dispatch::errors::ProviderError;
use azure_dispatch::usage::{usage_or_zero, Usage};

fn config(base: &str) -> EndpointConfig {
    EndpointConfig {
        base_url: String::from(base),
        deployment: String::from("gpt-4o"),
        api_version: String::from("2024-10-21"),
    }
}

#[test]
fn url_composes_base_deployment_and_version() {
    let u = build_request_url(&config("https://example.com")).unwrap();
    assert_eq!(
        u,
        "https://example.com/openai/deployments/gpt-4o/chat/completions?api-version=2024-10-21"
    );
}

#[test]
fn trailing_slash_makes_no_difference() {
    let with = build_request_url(&config("https://example.com/base/")).unwrap();
    let without = build_request_url(&config("https://example.com/base")).unwrap();
    assert_eq!(with, without);
    assert_eq!(
        with,
        "https://example.com/base/openai/deployments/gpt-4o/chat/completions?api-version=2024-10-21"
    );
    let many = build_request_url(&config("https://example.com/base///")).unwrap();
    assert_eq!(many, with);
}

#[test]
fn unparseable_base_is_a_transport_error() {
    match build_request_url(&config("not a url")) {
        Err(ProviderError::TransportFailed(m)) => {
            assert!(m.starts_with("Invalid base URL: "))
        }
        other => panic!("expected a transport error, got {:?}", other),
    }
}

#[test]
fn api_version_defaults_only_when_absent() {
    assert_eq!(api_version_or_default(None), "2024-10-21");
    assert_eq!(
        api_version_or_default(Some(String::from("2025-04-01"))),
        "2025-04-01"
    );
}

#[test]
fn credential_mode_follows_key_presence() {
    assert_eq!(resolve(true), Credential::ApiKey);
    assert_eq!(resolve(false), Credential::DefaultChain);
}

#[test]
fn header_selection_matches_credential_mode() {
    let (name, value) = auth_header(&Credential::ApiKey, "SECRET-REDACTED");
    assert_eq!(name, "api-key");
    assert_eq!(value, "SECRET-REDACTED");
    let (name, value) = auth_header(&Credential::DefaultChain, "tok123");
    assert_eq!(name, "Authorization");
    assert_eq!(value, "Bearer tok123");
}

#[test]
fn missing_usage_becomes_zero_record() {
    let got = usage_or_zero(Err(ProviderError::UsageUnavailable(String::from(
        "no usage field",
    ))))
    .unwrap();
    assert_eq!(
        got,
        Usage {
            input_tokens: 0,
            output_tokens: 0,
            total_tokens: 0
        }
    );
    assert_eq!(got, Usage::default());
}

#[test]
fn present_usage_is_kept_and_other_errors_propagate() {
    let u = Usage {
        input_tokens: 10,
        output_tokens: 20,
        total_tokens: 30,
    };
    assert_eq!(usage_or_zero(Ok(u)).unwrap(), u);
    assert!(matches!(
        usage_or_zero(Err(ProviderError::RequestTimedOut)),
        Err(ProviderError::RequestTimedOut)
    ));
}
