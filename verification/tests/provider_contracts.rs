//! The provider contracts and who may use them.

use csswitch_gateway::duration::Duration;
use csswitch_gateway::provider_contracts::{
    catalog_digest, check_catalog, load_codex_runtime_contract, load_runtime_contract,
    validate_managed_identity, AuthScheme, CachePolicy, EndpointJoin, InferenceRetryConfig,
    ProviderContract, ProviderContractCatalog, TimeoutPolicy,
};

const CATALOG_TEXT: &str = "{\"schema_version\":1}";

fn contract(id: &str, adapter: &str, transport: &str, scheme: &str, join: &str) -> ProviderContract {
    let statuses: &[&str] = if transport == "anthropic_messages" {
        &["408", "429", "5xx"]
    } else {
        &["408", "409", "429", "5xx"]
    };
    ProviderContract {
        id: id.into(),
        template_ids: vec![id.into()],
        api_formats: vec![transport.into()],
        adapter: adapter.into(),
        auth_mode: "api_key".into(),
        auth_scheme: scheme.into(),
        credential_sources: vec!["profile".into()],
        default_credential_source: "profile".into(),
        model_policies: vec!["static".into()],
        default_model_policy: "static".into(),
        model_discovery: "models_endpoint".into(),
        transport: transport.into(),
        endpoint_policy: "profile".into(),
        endpoint_join: join.into(),
        api_key_env: Some("PROVIDER_API_KEY".into()),
        scratch_policy: "profile".into(),
        thinking_policy: "".into(),
        inference_retry: Some(InferenceRetryConfig {
            max_posts: 3,
            fallback_delays_ms: [500, 1_000],
            retry_after_cap_seconds: 60,
            retry_statuses: statuses.iter().map(|status| status.to_string()).collect(),
            retry_network_kinds: vec!["connect".into(), "timeout".into()],
        }),
        upstream_client_version: None,
        timeouts: TimeoutPolicy { connect_ms: 10_000, total_ms: 30_000, read_idle_ms: 300_000 },
        cache: CachePolicy { normal_ttl_seconds: 300, stale_ttl_seconds: 86_400 },
    }
}

fn codex() -> ProviderContract {
    ProviderContract {
        id: "codex-oauth".into(),
        template_ids: vec!["codex".into()],
        api_formats: vec!["openai_responses".into()],
        adapter: "codex".into(),
        auth_mode: "csswitch_oauth".into(),
        auth_scheme: "csswitch_oauth".into(),
        credential_sources: vec!["csswitch_oauth".into()],
        default_credential_source: "csswitch_oauth".into(),
        model_policies: vec!["dynamic_catalog".into()],
        default_model_policy: "dynamic_catalog".into(),
        model_discovery: "codex_account_catalog".into(),
        transport: "codex_responses_sse".into(),
        endpoint_policy: "gateway_managed_official".into(),
        endpoint_join: "managed_official".into(),
        api_key_env: None,
        scratch_policy: "gateway_owned_auth".into(),
        thinking_policy: "".into(),
        inference_retry: None,
        upstream_client_version: Some("0.144.4".into()),
        timeouts: TimeoutPolicy { connect_ms: 10_000, total_ms: 30_000, read_idle_ms: 300_000 },
        cache: CachePolicy { normal_ttl_seconds: 300, stale_ttl_seconds: 86_400 },
    }
}

fn catalog() -> ProviderContractCatalog {
    ProviderContractCatalog {
        schema_version: 1,
        contracts: vec![
            codex(),
            contract(
                "deepseek",
                "deepseek",
                "anthropic_messages",
                "anthropic_x_api_key",
                "anthropic_v1",
            ),
            contract(
                "kimi-anthropic-relay",
                "relay",
                "anthropic_messages",
                "anthropic_dual",
                "anthropic_v1",
            ),
            contract(
                "opencode-go-anthropic",
                "relay",
                "anthropic_messages",
                "bearer",
                "anthropic_v1",
            ),
            contract("gemini-openai-chat", "openai-custom", "openai_chat", "bearer", "openai_path"),
            contract("responses", "openai-responses", "openai_responses", "bearer", "openai_v1"),
        ],
    }
}

fn first_api_key(catalog: &mut ProviderContractCatalog) -> &mut InferenceRetryConfig {
    catalog
        .contracts
        .iter_mut()
        .find(|contract| contract.auth_mode == "api_key")
        .unwrap()
        .inference_retry
        .as_mut()
        .unwrap()
}

#[test]
fn every_api_key_contract_has_the_exact_closed_retry_policy() {
    let catalog = catalog();
    assert!(check_catalog(&catalog).is_ok());
    for contract in catalog.contracts.iter().filter(|contract| contract.auth_mode == "api_key") {
        let policy = contract.inference_retry.as_ref().expect("API-key retry policy");
        assert_eq!(policy.max_posts, 3, "{}", contract.id);
        assert_eq!(policy.fallback_delays_ms, [500, 1_000], "{}", contract.id);
        assert_eq!(policy.retry_after_cap_seconds, 60, "{}", contract.id);
        assert_eq!(policy.retry_network_kinds, ["connect", "timeout"], "{}", contract.id);
        let expected = match contract.transport.as_str() {
            "anthropic_messages" => vec!["408", "429", "5xx"],
            "openai_chat" | "openai_responses" => vec!["408", "409", "429", "5xx"],
            other => panic!("unexpected API-key transport {other}"),
        };
        assert_eq!(policy.retry_statuses, expected, "{}", contract.id);
    }
}

#[test]
fn retry_policy_tokens_reject_duplicates_unknowns_and_codex_attachment() {
    let mut duplicate = catalog();
    first_api_key(&mut duplicate).retry_statuses = vec!["429".into(), "429".into()];
    assert!(check_catalog(&duplicate).is_err());

    let mut unknown_status = catalog();
    first_api_key(&mut unknown_status).retry_statuses = vec!["425".into()];
    assert!(check_catalog(&unknown_status).is_err());

    let mut unknown_network = catalog();
    first_api_key(&mut unknown_network).retry_network_kinds = vec!["read".into()];
    assert!(check_catalog(&unknown_network).is_err());

    let mut codex_attachment = catalog();
    let policy = first_api_key(&mut codex_attachment).clone();
    codex_attachment
        .contracts
        .iter_mut()
        .find(|contract| contract.adapter == "codex")
        .unwrap()
        .inference_retry = Some(policy);
    assert_eq!(
        check_catalog(&codex_attachment),
        Err("non-API-key provider contract has inference retry policy".to_string())
    );
}

#[test]
fn unsound_catalogs_are_refused_with_a_reason() {
    let mut schema = catalog();
    schema.schema_version = 2;
    assert_eq!(
        check_catalog(&schema),
        Err("provider contract catalog schema is unsupported".to_string())
    );
    let mut twice = catalog();
    twice.contracts[1].id = "codex-oauth".into();
    assert_eq!(
        check_catalog(&twice),
        Err("provider contract catalog contains an invalid id".to_string())
    );
    let mut bounds = catalog();
    bounds.contracts[1].timeouts.total_ms = 1;
    assert_eq!(
        check_catalog(&bounds),
        Err("provider contract catalog contains invalid runtime bounds".to_string())
    );
    let mut adapter = catalog();
    adapter.contracts[1].adapter = "unknown".into();
    assert_eq!(
        check_catalog(&adapter),
        Err("provider contract adapter is unsupported".to_string())
    );
    let mut join = catalog();
    join.contracts[1].endpoint_join = "elsewhere".into();
    assert_eq!(
        check_catalog(&join),
        Err("provider contract endpoint join is unsupported".to_string())
    );
    let mut scheme = catalog();
    scheme.contracts[1].auth_scheme = "basic".into();
    assert_eq!(
        check_catalog(&scheme),
        Err("provider contract auth scheme is unsupported".to_string())
    );
    let mut shape = catalog();
    shape.contracts[1].template_ids = Vec::new();
    assert_eq!(
        check_catalog(&shape),
        Err("provider contract catalog contains an invalid capability shape".to_string())
    );
    let mut missing = catalog();
    missing.contracts[1].inference_retry = None;
    assert_eq!(
        check_catalog(&missing),
        Err("API-key provider contract is missing inference retry policy".to_string())
    );
}

#[test]
fn static_codex_contract_drives_gateway_runtime_values() {
    let contract = load_codex_runtime_contract(&catalog(), CATALOG_TEXT).unwrap();
    assert_eq!(contract.contract_id, "codex-oauth");
    assert_eq!(contract.catalog_digest.len(), 64);
    assert_eq!(contract.connect_timeout, Duration::from_secs(10));
    assert_eq!(contract.request_timeout, Duration::from_secs(30));
    assert_eq!(contract.read_idle_timeout, Duration::from_secs(300));
    assert_eq!(contract.normal_ttl_seconds, 300);
    assert_eq!(contract.stale_ttl_seconds, 86_400);
    assert_eq!(contract.model_catalog_client_version, "0.144.4");
}

#[test]
fn managed_identity_is_optional_for_standalone_but_fail_closed_when_present() {
    let contract = load_codex_runtime_contract(&catalog(), CATALOG_TEXT).unwrap();
    assert!(validate_managed_identity(&contract, None, None).is_ok());
    assert!(validate_managed_identity(
        &contract,
        Some(&contract.contract_id),
        Some(&contract.catalog_digest)
    )
    .is_ok());
    assert!(validate_managed_identity(&contract, Some("wrong"), None).is_err());
    assert!(
        validate_managed_identity(&contract, Some(&contract.contract_id), Some("wrong")).is_err()
    );
}

#[test]
fn managed_identity_selects_exact_non_codex_contract_and_rejects_cross_adapter_ids() {
    let catalog = catalog();
    let load = |provider: &str, id: Option<&str>, digest: Option<&str>| {
        load_runtime_contract(&catalog, CATALOG_TEXT, provider, id, digest)
    };
    let digest = catalog_digest(CATALOG_TEXT);
    let kimi = load("relay", Some("kimi-anthropic-relay"), Some(&digest)).unwrap();
    assert_eq!(kimi.contract_id, "kimi-anthropic-relay");
    assert_eq!(kimi.endpoint_join, EndpointJoin::AnthropicV1);
    assert_eq!(kimi.transport, "anthropic_messages");

    let opencode = load("relay", Some("opencode-go-anthropic"), Some(&digest)).unwrap();
    assert_eq!(opencode.auth_scheme, AuthScheme::Bearer);
    assert_eq!(opencode.endpoint_join, EndpointJoin::AnthropicV1);

    let gemini = load("openai-custom", Some("gemini-openai-chat"), Some(&digest)).unwrap();
    assert_eq!(gemini.auth_scheme, AuthScheme::Bearer);
    assert_eq!(gemini.endpoint_join, EndpointJoin::OpenaiPath);

    assert!(load("openai-custom", Some("kimi-anthropic-relay"), Some(&digest)).is_err());
    assert!(load("relay", Some("kimi-anthropic-relay"), None).is_err());
    assert!(load("relay", Some("kimi-anthropic-relay"), Some(&"0".repeat(64))).is_err());
    assert_eq!(
        load("relay", None, None),
        Err("provider contract identity is required for this adapter".to_string())
    );
}

#[test]
fn catalog_digest_is_the_sha_256_of_the_text() {
    assert_eq!(
        catalog_digest("abc"),
        "ba7816bf8f01cfea414140de5dae2223b00361a396177a9cb410ff61f20015ad"
    );
}
