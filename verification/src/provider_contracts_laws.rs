//! What holds of every provider contract.

use vstd::prelude::*;

use crate::crypto::sha256_of;
use crate::provider_contracts::{
    catalog_digest, check_catalog,
    codex_contract_from_runtime, contract_fault, find_adapter, find_codex, find_id, first_fault,
    is_exact_retry, is_new_id, load_codex_runtime_contract, load_runtime_contract, retry_policy,
    retry_route, retry_statuses_of, runtime_contract, same_routing, select_contract,
    shape_holds, touches_codex, validate_managed_identity, words, AuthScheme, CodexRuntimeContract,
    EndpointJoin, InferenceRetryConfig, ProviderContract, ProviderContractCatalog,
    ProviderRuntimeContract,
};
use crate::provider_failure::{ProviderId, RetryPolicy, RouteMode};
use crate::text::is_blank;
use vstd::utf8::encode_utf8;

verus! {

/// The four words of an authentication scheme: each names one scheme, and no other
/// word names any.
pub proof fn law_words_of_a_scheme(value: &str, scheme: Result<AuthScheme, String>)
    requires
        call_ensures(AuthScheme::parse, (value,), scheme),
    ensures
        (scheme == Ok::<AuthScheme, String>(AuthScheme::AnthropicXApiKey)) == (value@
            == "anthropic_x_api_key"@),
        (scheme == Ok::<AuthScheme, String>(AuthScheme::AnthropicDual)) == (value@
            == "anthropic_dual"@),
        (scheme == Ok::<AuthScheme, String>(AuthScheme::Bearer)) == (value@ == "bearer"@),
        (scheme == Ok::<AuthScheme, String>(AuthScheme::CsswitchOauth)) == (value@
            == "csswitch_oauth"@),
        scheme matches Err(error) ==> error@ == "provider contract auth scheme is unsupported"@,
{
    reveal_strlit("anthropic_x_api_key");
    reveal_strlit("anthropic_dual");
    reveal_strlit("bearer");
    reveal_strlit("csswitch_oauth");
    assert("anthropic_x_api_key"@.len() == 19);
    assert("anthropic_dual"@.len() == 14);
    assert("bearer"@.len() == 6);
    assert("csswitch_oauth"@.len() == 14);
    assert("anthropic_dual"@[0] == 'a');
    assert("csswitch_oauth"@[0] == 'c');
}

/// The four words of an endpoint join: each names one join, and no other word names
/// any.
pub proof fn law_words_of_a_join(value: &str, join: Result<EndpointJoin, String>)
    requires
        call_ensures(EndpointJoin::parse, (value,), join),
    ensures
        (join == Ok::<EndpointJoin, String>(EndpointJoin::ManagedOfficial)) == (value@
            == "managed_official"@),
        (join == Ok::<EndpointJoin, String>(EndpointJoin::AnthropicV1)) == (value@
            == "anthropic_v1"@),
        (join == Ok::<EndpointJoin, String>(EndpointJoin::OpenaiV1)) == (value@ == "openai_v1"@),
        (join == Ok::<EndpointJoin, String>(EndpointJoin::OpenaiPath)) == (value@
            == "openai_path"@),
        join matches Err(error) ==> error@ == "provider contract endpoint join is unsupported"@,
{
    reveal_strlit("managed_official");
    reveal_strlit("anthropic_v1");
    reveal_strlit("openai_v1");
    reveal_strlit("openai_path");
    assert("managed_official"@.len() == 16);
    assert("anthropic_v1"@.len() == 12);
    assert("openai_v1"@.len() == 9);
    assert("openai_path"@.len() == 11);
}

/// The six adapters: each names one provider, and no other word names any.
pub proof fn law_adapters_of_the_providers(adapter: &str, provider: Option<ProviderId>)
    requires
        call_ensures(ProviderId::from_adapter, (adapter,), provider),
    ensures
        (provider == Some(ProviderId::Codex)) == (adapter@ == "codex"@),
        (provider == Some(ProviderId::Deepseek)) == (adapter@ == "deepseek"@),
        (provider == Some(ProviderId::Qwen)) == (adapter@ == "qwen"@),
        (provider == Some(ProviderId::Relay)) == (adapter@ == "relay"@),
        (provider == Some(ProviderId::OpenaiCustom)) == (adapter@ == "openai-custom"@),
        (provider == Some(ProviderId::OpenaiResponses)) == (adapter@ == "openai-responses"@),
{
    lemma_adapters_differ();
}

proof fn lemma_adapters_differ()
    ensures
        "codex"@.len() == 5,
        "codex"@[0] == 'c',
        "deepseek"@.len() == 8,
        "qwen"@.len() == 4,
        "relay"@.len() == 5,
        "relay"@[0] == 'r',
        "openai-custom"@.len() == 13,
        "openai-responses"@.len() == 16,
{
    reveal_strlit("codex");
    reveal_strlit("deepseek");
    reveal_strlit("qwen");
    reveal_strlit("relay");
    reveal_strlit("openai-custom");
    reveal_strlit("openai-responses");
}

/// The three transports that take an API key: each names one route, and no other word
/// names any.
pub proof fn law_transports_with_an_api_key(transport: &str, route: Option<RouteMode>)
    requires
        call_ensures(RouteMode::from_api_key_transport, (transport,), route),
    ensures
        (route == Some(RouteMode::AnthropicMessages)) == (transport@ == "anthropic_messages"@),
        (route == Some(RouteMode::OpenaiChat)) == (transport@ == "openai_chat"@),
        (route == Some(RouteMode::OpenaiResponses)) == (transport@ == "openai_responses"@),
        !(route == Some(RouteMode::Responses)),
        !(route == Some(RouteMode::ResponsesLite)),
{
    lemma_transports_differ();
}

proof fn lemma_transports_differ()
    ensures
        "anthropic_messages"@.len() == 18,
        "openai_chat"@.len() == 11,
        "openai_responses"@.len() == 16,
{
    reveal_strlit("anthropic_messages");
    reveal_strlit("openai_chat");
    reveal_strlit("openai_responses");
}

/// Every provider and every route is shown under a name of its own.
pub proof fn law_shown_names(
    provider: &ProviderId,
    provider_name: &'static str,
    route: &RouteMode,
    route_name: &'static str,
)
    requires
        call_ensures(ProviderId::as_str, (provider,), provider_name),
        call_ensures(RouteMode::as_str, (route,), route_name),
    ensures
        *provider is Codex ==> provider_name@ == "codex"@,
        *provider is Deepseek ==> provider_name@ == "deepseek"@,
        *provider is Qwen ==> provider_name@ == "qwen"@,
        *provider is Relay ==> provider_name@ == "relay"@,
        *provider is OpenaiCustom ==> provider_name@ == "openai_custom"@,
        *provider is OpenaiResponses ==> provider_name@ == "openai_responses"@,
        *route is Responses ==> route_name@ == "responses"@,
        *route is ResponsesLite ==> route_name@ == "responses_lite"@,
        *route is AnthropicMessages ==> route_name@ == "anthropic_messages"@,
        *route is OpenaiChat ==> route_name@ == "openai_chat"@,
        *route is OpenaiResponses ==> route_name@ == "openai_responses"@,
{
}

/// The list holds these texts, in this order, and nothing else.
pub open spec fn lists(list: Seq<String>, texts: Seq<Seq<char>>) -> bool {
    &&& list.len() == texts.len()
    &&& forall|i: int| 0 <= i < list.len() ==> (#[trigger] list[i])@ == texts[i]
}

proof fn lemma_lists(list: Seq<String>, texts: Seq<Seq<char>>)
    ensures
        lists(list, texts) == (words(list) == texts),
{
    if lists(list, texts) {
        assert(words(list) =~= texts);
    }
    if words(list) == texts {
        assert forall|i: int| 0 <= i < list.len() implies (#[trigger] list[i])@ == texts[i] by {
            assert(words(list)[i] == texts[i]);
        }
    }
}

/// The transport takes an API key.
pub open spec fn takes_api_key(transport: Seq<char>) -> bool {
    transport == "anthropic_messages"@ || transport == "openai_chat"@ || transport
        == "openai_responses"@
}

/// The one retry table that a contract of this transport may hold.
pub open spec fn is_the_retry_table(config: InferenceRetryConfig, transport: Seq<char>) -> bool {
    &&& config.max_posts == 3
    &&& config.fallback_delays_ms@[0] == 500
    &&& config.fallback_delays_ms@[1] == 1_000
    &&& config.retry_after_cap_seconds == 60
    &&& lists(
        config.retry_statuses@,
        if transport == "anthropic_messages"@ {
            seq!["408"@, "429"@, "5xx"@]
        } else {
            seq!["408"@, "409"@, "429"@, "5xx"@]
        },
    )
    &&& lists(config.retry_network_kinds@, seq!["connect"@, "timeout"@])
}

/// A contract with an API key has the retry table of its transport, and a contract
/// without one has none.
pub open spec fn retries_are_sound(contract: ProviderContract) -> bool {
    if contract.auth_mode@ == "api_key"@ {
        &&& contract.inference_retry matches Some(config)
        &&& takes_api_key(contract.transport@)
        &&& is_the_retry_table(config, contract.transport@)
    } else {
        contract.inference_retry is None
    }
}

proof fn lemma_retry_table(config: InferenceRetryConfig, transport: Seq<char>, route: RouteMode)
    requires
        RouteMode::of_api_key_transport(transport) == Some(route),
    ensures
        is_the_retry_table(config, transport) == is_exact_retry(config, route),
{
    lemma_transports_differ();
    lemma_lists(config.retry_statuses@, retry_statuses_of(route));
    lemma_lists(config.retry_network_kinds@, seq!["connect"@, "timeout"@]);
    let delays = config.fallback_delays_ms@;
    if delays[0] == 500 && delays[1] == 1_000 {
        assert(delays =~= seq![500u64, 1_000u64]);
    }
    if delays == seq![500u64, 1_000u64] {
        assert(delays[0] == 500);
        assert(delays[1] == 1_000);
    }
}

proof fn lemma_sound_retries(contract: ProviderContract)
    ensures
        retries_are_sound(contract) == (retry_route(contract) is Ok),
{
    lemma_transports_differ();
    if contract.inference_retry is Some && RouteMode::of_api_key_transport(
        contract.transport@,
    ) is Some {
        lemma_retry_table(
            contract.inference_retry->Some_0,
            contract.transport@,
            RouteMode::of_api_key_transport(contract.transport@)->Some_0,
        );
    }
}

/// What a retry policy of an API-key contract is: three posts, half a second and one
/// second between them, a minute at most where the provider asks for a time; a
/// conflict is retried on every transport but that of Anthropic messages.
pub open spec fn is_the_policy(policy: RetryPolicy, transport: Seq<char>) -> bool {
    &&& policy.max_posts == 3
    &&& policy.fallback_delays_ms@[0] == 500
    &&& policy.fallback_delays_ms@[1] == 1_000
    &&& policy.retry_after_cap_seconds == 60
    &&& policy.retry_408
    &&& policy.retry_409 == (transport != "anthropic_messages"@)
    &&& policy.retry_429
    &&& policy.retry_5xx
    &&& policy.retry_connect
    &&& policy.retry_timeout
    &&& policy.retry_unknown_429
}

/// A contract gives a retry policy if and only if it has an API key and the table of
/// its transport, and gives none without an API key and a table; every other contract
/// is refused, by the first thing that is wrong with it.
pub proof fn law_retry_policy_of_a_contract(
    contract: &ProviderContract,
    policy: Result<Option<RetryPolicy>, String>,
)
    requires
        call_ensures(retry_policy, (contract,), policy),
    ensures
        policy is Ok <==> retries_are_sound(*contract),
        policy matches Ok(given) ==> (given is Some) == (contract.auth_mode@ == "api_key"@),
        policy matches Ok(Some(given)) ==> is_the_policy(given, contract.transport@),
        contract.auth_mode@ == "api_key"@ && contract.inference_retry is None ==> (policy matches Err(
            error,
        ) && error@ == "API-key provider contract is missing inference retry policy"@),
        contract.auth_mode@ != "api_key"@ && contract.inference_retry is Some ==> (policy matches Err(
            error,
        ) && error@ == "non-API-key provider contract has inference retry policy"@),
        contract.auth_mode@ == "api_key"@ && contract.inference_retry is Some && !takes_api_key(
            contract.transport@,
        ) ==> (policy matches Err(error) && error@
            == "API-key provider contract transport is unsupported"@),
        contract.auth_mode@ == "api_key"@ && takes_api_key(contract.transport@) && (
        contract.inference_retry matches Some(config) && !is_the_retry_table(
            config,
            contract.transport@,
        )) ==> (policy matches Err(error) && error@
            == "provider contract inference retry policy is invalid"@),
{
    lemma_sound_retries(*contract);
    lemma_transports_differ();
    if policy matches Ok(Some(given)) {
        let given = policy->Ok_0->Some_0;
        assert(given.fallback_delays_ms@ == seq![500u64, 1_000u64]);
        assert(given.fallback_delays_ms@[0] == 500);
        assert(given.fallback_delays_ms@[1] == 1_000);
    }
}

/// The text is one of the six adapters.
pub open spec fn is_an_adapter(adapter: Seq<char>) -> bool {
    adapter == "codex"@ || adapter == "deepseek"@ || adapter == "qwen"@ || adapter == "relay"@
        || adapter == "openai-custom"@ || adapter == "openai-responses"@
}

/// The text is one of the four endpoint joins.
pub open spec fn is_a_join(join: Seq<char>) -> bool {
    join == "managed_official"@ || join == "anthropic_v1"@ || join == "openai_v1"@ || join
        == "openai_path"@
}

/// The text is one of the four authentication schemes.
pub open spec fn is_a_scheme(scheme: Seq<char>) -> bool {
    scheme == "anthropic_x_api_key"@ || scheme == "anthropic_dual"@ || scheme == "bearer"@ || scheme
        == "csswitch_oauth"@
}

/// Time limits are above zero, the whole request has no less time than the
/// connection, and what is stale lives no shorter than what is fresh.
pub open spec fn limits_are_sound(contract: ProviderContract) -> bool {
    &&& contract.timeouts.connect_ms > 0
    &&& contract.timeouts.connect_ms <= contract.timeouts.total_ms
    &&& contract.timeouts.read_idle_ms > 0
    &&& contract.cache.normal_ttl_seconds <= contract.cache.stale_ttl_seconds
}

/// One of the texts of the list is this one.
pub open spec fn holds_text(list: Seq<String>, text: Seq<char>) -> bool {
    exists|i: int| 0 <= i < list.len() && (#[trigger] list[i])@ == text
}

/// The lists are there, the defaults are among the choices, and thinking is left out
/// or one of its two words.
pub open spec fn capabilities_are_sound(contract: ProviderContract) -> bool {
    &&& contract.template_ids@.len() > 0
    &&& contract.api_formats@.len() > 0
    &&& holds_text(contract.credential_sources@, contract.default_credential_source@)
    &&& holds_text(contract.model_policies@, contract.default_model_policy@)
    &&& contract.model_discovery@.len() > 0
    &&& contract.scratch_policy@.len() > 0
    &&& (contract.thinking_policy@.len() == 0 || contract.thinking_policy@ == "adaptive"@
        || contract.thinking_policy@ == "enabled"@)
}

/// The id is not blank, and no contract before this one has it.
pub open spec fn id_is_sound(contracts: Seq<ProviderContract>, i: int) -> bool {
    &&& !is_blank(contracts[i].id@)
    &&& forall|k: int| 0 <= k < i ==> (#[trigger] contracts[k]).id@ != contracts[i].id@
}

/// Nothing is wrong with one contract of a catalog.
pub open spec fn is_sound(contracts: Seq<ProviderContract>, i: int) -> bool {
    &&& id_is_sound(contracts, i)
    &&& limits_are_sound(contracts[i])
    &&& is_an_adapter(contracts[i].adapter@)
    &&& is_a_join(contracts[i].endpoint_join@)
    &&& is_a_scheme(contracts[i].auth_scheme@)
    &&& retries_are_sound(contracts[i])
    &&& capabilities_are_sound(contracts[i])
}

proof fn lemma_holds_text(list: Seq<String>, text: Seq<char>)
    ensures
        holds_text(list, text) == words(list).contains(text),
{
    if holds_text(list, text) {
        let i = choose|i: int| 0 <= i < list.len() && (#[trigger] list[i])@ == text;
        assert(words(list)[i] == text);
    }
    if words(list).contains(text) {
        let i = choose|i: int| 0 <= i < words(list).len() && words(list)[i] == text;
        assert(list[i]@ == text);
    }
}

proof fn lemma_sound_contract(contracts: Seq<ProviderContract>, i: int)
    ensures
        is_sound(contracts, i) == (contract_fault(contracts, i) is None),
        id_is_sound(contracts, i) == (!is_blank(contracts[i].id@) && is_new_id(contracts, i)),
        capabilities_are_sound(contracts[i]) == shape_holds(contracts[i]),
{
    let contract = contracts[i];
    lemma_holds_text(contract.credential_sources@, contract.default_credential_source@);
    lemma_holds_text(contract.model_policies@, contract.default_model_policy@);
    lemma_sound_retries(contract);
}

proof fn lemma_sound_from(contracts: Seq<ProviderContract>, from: int)
    requires
        0 <= from,
    ensures
        first_fault(contracts, from) is None <==> (forall|i: int|
            from <= i < contracts.len() ==> #[trigger] is_sound(contracts, i)),
    decreases contracts.len() - from,
{
    if from < contracts.len() {
        lemma_sound_contract(contracts, from);
        lemma_sound_from(contracts, from + 1);
        if first_fault(contracts, from) is None {
            assert forall|i: int| from <= i < contracts.len() implies #[trigger] is_sound(
                contracts,
                i,
            ) by {
                if i > from {
                    assert(first_fault(contracts, from + 1) is None);
                }
            }
        } else if is_sound(contracts, from) {
            assert(first_fault(contracts, from + 1) is Some);
        }
    }
}

proof fn lemma_fault_at(contracts: Seq<ProviderContract>, from: int, i: int)
    requires
        0 <= from <= i < contracts.len(),
        forall|k: int| from <= k < i ==> #[trigger] is_sound(contracts, k),
        !is_sound(contracts, i),
    ensures
        first_fault(contracts, from) == contract_fault(contracts, i),
        contract_fault(contracts, i) is Some,
    decreases i - from,
{
    lemma_sound_contract(contracts, i);
    if from < i {
        lemma_sound_contract(contracts, from);
        assert(is_sound(contracts, from));
        lemma_fault_at(contracts, from + 1, i);
    }
}

/// A catalog passes if and only if it is of the first schema, is not empty, and
/// nothing is wrong with any of its contracts.
pub proof fn law_sound_catalogs_pass(catalog: &ProviderContractCatalog, checked: Result<(), String>)
    requires
        call_ensures(check_catalog, (catalog,), checked),
    ensures
        checked is Ok <==> catalog.schema_version == 1 && catalog.contracts@.len() > 0 && (forall|
            i: int,
        |
            0 <= i < catalog.contracts@.len() ==> #[trigger] is_sound(catalog.contracts@, i)),
        catalog.schema_version != 1 || catalog.contracts@.len() == 0 ==> (checked matches Err(error)
            && error@ == "provider contract catalog schema is unsupported"@),
{
    lemma_sound_from(catalog.contracts@, 0);
}

/// A catalog is refused by the first thing that is wrong with the first contract
/// with which anything is wrong.
pub proof fn law_first_fault_is_told(
    catalog: &ProviderContractCatalog,
    checked: Result<(), String>,
    i: int,
)
    requires
        call_ensures(check_catalog, (catalog,), checked),
        catalog.schema_version == 1,
        0 <= i < catalog.contracts@.len(),
        forall|k: int| 0 <= k < i ==> #[trigger] is_sound(catalog.contracts@, k),
        !is_sound(catalog.contracts@, i),
    ensures
        checked matches Err(error) && ({
            let contract = catalog.contracts@[i];
            if !id_is_sound(catalog.contracts@, i) {
                error@ == "provider contract catalog contains an invalid id"@
            } else if !limits_are_sound(contract) {
                error@ == "provider contract catalog contains invalid runtime bounds"@
            } else if !is_an_adapter(contract.adapter@) {
                error@ == "provider contract adapter is unsupported"@
            } else if !is_a_join(contract.endpoint_join@) {
                error@ == "provider contract endpoint join is unsupported"@
            } else if !is_a_scheme(contract.auth_scheme@) {
                error@ == "provider contract auth scheme is unsupported"@
            } else if !retries_are_sound(contract) {
                if contract.inference_retry is None {
                    error@ == "API-key provider contract is missing inference retry policy"@
                } else if contract.auth_mode@ != "api_key"@ {
                    error@ == "non-API-key provider contract has inference retry policy"@
                } else if !takes_api_key(contract.transport@) {
                    error@ == "API-key provider contract transport is unsupported"@
                } else {
                    error@ == "provider contract inference retry policy is invalid"@
                }
            } else {
                error@ == "provider contract catalog contains an invalid capability shape"@
            }
        }),
{
    lemma_fault_at(catalog.contracts@, 0, i);
    lemma_sound_contract(catalog.contracts@, i);
    lemma_sound_retries(catalog.contracts@[i]);
}

/// A catalog is known by the SHA-256 digest of its text, in 64 hexadecimal digits in
/// lower case, the high half of a byte before the low one.
pub proof fn law_digest_of_a_catalog(text: &str, digest: String, i: int)
    requires
        call_ensures(catalog_digest, (text,), digest),
        0 <= i < 32,
    ensures
        digest@.len() == 64,
        ({
            let byte = sha256_of(encode_utf8(text@))[i];
            let high = byte / 16;
            let low = byte % 16;
            &&& digest@[2 * i] as nat == if high < 10 {
                48 + high
            } else {
                87 + high
            }
            &&& digest@[2 * i + 1] as nat == if low < 10 {
                48 + low
            } else {
                87 + low
            }
        }),
{
    assert((2 * i) % 2 == 0);
    assert((2 * i) / 2 == i);
    assert((2 * i + 1) % 2 == 1);
    assert((2 * i + 1) / 2 == i);
}

/// The first contract of a catalog with this id.
pub open spec fn is_first_with_id(contracts: Seq<ProviderContract>, id: Seq<char>, i: int) -> bool {
    &&& 0 <= i < contracts.len()
    &&& contracts[i].id@ == id
    &&& forall|k: int| 0 <= k < i ==> (#[trigger] contracts[k]).id@ != id
}

/// The first contract of a catalog with this adapter.
pub open spec fn is_first_with_adapter(
    contracts: Seq<ProviderContract>,
    adapter: Seq<char>,
    i: int,
) -> bool {
    &&& 0 <= i < contracts.len()
    &&& contracts[i].adapter@ == adapter
    &&& forall|k: int| 0 <= k < i ==> (#[trigger] contracts[k]).adapter@ != adapter
}

proof fn lemma_find_id(contracts: Seq<ProviderContract>, id: Seq<char>, from: int)
    requires
        0 <= from,
    ensures
        match find_id(contracts, id, from) {
            Some(i) => {
                &&& from <= i < contracts.len()
                &&& contracts[i].id@ == id
                &&& forall|k: int| from <= k < i ==> (#[trigger] contracts[k]).id@ != id
            },
            None => forall|k: int|
                from <= k < contracts.len() ==> (#[trigger] contracts[k]).id@ != id,
        },
    decreases contracts.len() - from,
{
    if from < contracts.len() && contracts[from].id@ != id {
        lemma_find_id(contracts, id, from + 1);
    }
}

proof fn lemma_find_adapter(contracts: Seq<ProviderContract>, adapter: Seq<char>, from: int)
    requires
        0 <= from,
    ensures
        match find_adapter(contracts, adapter, from) {
            Some(i) => {
                &&& from <= i < contracts.len()
                &&& contracts[i].adapter@ == adapter
                &&& forall|k: int| from <= k < i ==> (#[trigger] contracts[k]).adapter@ != adapter
            },
            None => forall|k: int|
                from <= k < contracts.len() ==> (#[trigger] contracts[k]).adapter@ != adapter,
        },
    decreases contracts.len() - from,
{
    if from < contracts.len() && contracts[from].adapter@ != adapter {
        lemma_find_adapter(contracts, adapter, from + 1);
    }
}

/// A caller that names id and digest gets the first contract with that id, if the
/// digest is that of the catalog and the contract is of the caller's adapter.
pub proof fn law_managed_contracts(
    catalog: &ProviderContractCatalog,
    digest: &str,
    provider: &str,
    id: &str,
    expected: &str,
    choice: Result<usize, String>,
    i: int,
)
    requires
        call_ensures(
            select_contract,
            (catalog, digest, provider, Some(id), Some(expected)),
            choice,
        ),
    ensures
        choice matches Ok(at) ==> expected@ == digest@ && is_first_with_id(
            catalog.contracts@,
            id@,
            at as int,
        ) && catalog.contracts@[at as int].adapter@ == provider@,
        expected@ != digest@ ==> (choice matches Err(error) && error@
            == "managed provider contract identity mismatch"@),
        expected@ == digest@ && (forall|k: int|
            0 <= k < catalog.contracts@.len() ==> (#[trigger] catalog.contracts@[k]).id@ != id@)
            ==> (choice matches Err(error) && error@ == "managed provider contract is unavailable"@),
        expected@ == digest@ && is_first_with_id(catalog.contracts@, id@, i)
            && catalog.contracts@[i].adapter@ != provider@ ==> (choice matches Err(error) && error@
            == "managed provider contract adapter mismatch"@),
        expected@ == digest@ && is_first_with_id(catalog.contracts@, id@, i)
            && catalog.contracts@[i].adapter@ == provider@ ==> (choice matches Ok(at) && at == i),
{
    let contracts = catalog.contracts@;
    lemma_find_id(contracts, id@, 0);
    if is_first_with_id(contracts, id@, i) {
        assert(contracts[i].id@ == id@);
        let found = find_id(contracts, id@, 0)->Some_0;
        if found < i {
            assert(contracts[found].id@ != id@);
        }
        if i < found {
            assert(contracts[i].id@ != id@);
        }
    }
}

/// Two contracts send their requests the same way.
pub open spec fn send_alike(a: ProviderContract, b: ProviderContract) -> bool {
    &&& a.auth_mode@ == b.auth_mode@
    &&& a.auth_scheme@ == b.auth_scheme@
    &&& (a.api_key_env is None) == (b.api_key_env is None)
    &&& a.api_key_env is Some ==> a.api_key_env->Some_0@ == b.api_key_env->Some_0@
    &&& a.transport@ == b.transport@
    &&& a.endpoint_policy@ == b.endpoint_policy@
    &&& a.endpoint_join@ == b.endpoint_join@
    &&& a.timeouts.connect_ms == b.timeouts.connect_ms
    &&& a.timeouts.total_ms == b.timeouts.total_ms
    &&& a.timeouts.read_idle_ms == b.timeouts.read_idle_ms
}

/// A caller that names neither id nor digest gets the first contract of its adapter,
/// if every other contract of the adapter sends its requests the same way.
pub proof fn law_standalone_contracts(
    catalog: &ProviderContractCatalog,
    digest: &str,
    provider: &str,
    choice: Result<usize, String>,
    i: int,
)
    requires
        call_ensures(select_contract, (catalog, digest, provider, None, None), choice),
    ensures
        (forall|k: int|
            0 <= k < catalog.contracts@.len() ==> (#[trigger] catalog.contracts@[k]).adapter@
                != provider@) ==> (choice matches Err(error) && error@
            == "provider contract is unavailable"@),
        is_first_with_adapter(catalog.contracts@, provider@, i) ==> if forall|k: int|
            i < k < catalog.contracts@.len() && (#[trigger] catalog.contracts@[k]).adapter@
                == provider@ ==> send_alike(catalog.contracts@[k], catalog.contracts@[i]) {
            choice matches Ok(at) && at == i
        } else {
            choice matches Err(error) && error@
                == "provider contract identity is required for this adapter"@
        },
{
    let contracts = catalog.contracts@;
    lemma_find_adapter(contracts, provider@, 0);
    if is_first_with_adapter(contracts, provider@, i) {
        assert(contracts[i].adapter@ == provider@);
        let found = find_adapter(contracts, provider@, 0)->Some_0;
        if found < i {
            assert(contracts[found].adapter@ != provider@);
        }
        if i < found {
            assert(contracts[i].adapter@ != provider@);
        }
        assert(found == i);
        assert forall|k: int| #![trigger contracts[k]] send_alike(contracts[k], contracts[i])
            == same_routing(contracts[k], contracts[i]) by {}
    }
}

/// An id without a digest, or a digest without an id, chooses nothing.
pub proof fn law_half_an_identity_is_refused(
    catalog: &ProviderContractCatalog,
    digest: &str,
    provider: &str,
    id: Option<&str>,
    expected: Option<&str>,
    choice: Result<usize, String>,
)
    requires
        call_ensures(select_contract, (catalog, digest, provider, id, expected), choice),
        (id is Some) != (expected is Some),
    ensures
        choice matches Err(error) && error@ == "managed provider contract identity is incomplete"@,
{
}

/// A contract is put to use with everything that it says, if its scheme, its join and
/// its retries are sound; otherwise it is refused by the first that is not.
pub proof fn law_contracts_are_put_to_use(
    contract: &ProviderContract,
    digest: &str,
    runtime: Result<ProviderRuntimeContract, String>,
    scheme_word: &str,
    scheme: Result<AuthScheme, String>,
    join_word: &str,
    join: Result<EndpointJoin, String>,
)
    requires
        call_ensures(runtime_contract, (contract, digest), runtime),
        scheme_word@ == contract.auth_scheme@,
        call_ensures(AuthScheme::parse, (scheme_word,), scheme),
        join_word@ == contract.endpoint_join@,
        call_ensures(EndpointJoin::parse, (join_word,), join),
    ensures
        runtime is Ok <==> is_a_scheme(contract.auth_scheme@) && is_a_join(contract.endpoint_join@)
            && retries_are_sound(*contract),
        !is_a_scheme(contract.auth_scheme@) ==> (runtime matches Err(error) && error@
            == "provider contract auth scheme is unsupported"@),
        is_a_scheme(contract.auth_scheme@) && !is_a_join(contract.endpoint_join@) ==> (
        runtime matches Err(error) && error@ == "provider contract endpoint join is unsupported"@),
        runtime matches Ok(used) ==> {
            &&& used.contract_id@ == contract.id@
            &&& used.catalog_digest@ == digest@
            &&& used.auth_mode@ == contract.auth_mode@
            &&& scheme == Ok::<AuthScheme, String>(used.auth_scheme)
            &&& (used.api_key_env is Some) == (contract.api_key_env is Some)
            &&& used.api_key_env is Some ==> used.api_key_env->Some_0@
                == contract.api_key_env->Some_0@
            &&& used.transport@ == contract.transport@
            &&& used.endpoint_policy@ == contract.endpoint_policy@
            &&& join == Ok::<EndpointJoin, String>(used.endpoint_join)
            &&& used.connect_timeout.millis == contract.timeouts.connect_ms
            &&& used.request_timeout.millis == contract.timeouts.total_ms
            &&& used.read_idle_timeout.millis == contract.timeouts.read_idle_ms
            &&& used.normal_ttl_seconds == contract.cache.normal_ttl_seconds
            &&& used.stale_ttl_seconds == contract.cache.stale_ttl_seconds
            &&& (used.upstream_client_version is Some) == (contract.upstream_client_version is Some)
            &&& used.upstream_client_version is Some ==> used.upstream_client_version->Some_0@
                == contract.upstream_client_version->Some_0@
            &&& (used.inference_retry is Some) == (contract.auth_mode@ == "api_key"@)
            &&& used.inference_retry matches Some(policy) ==> is_the_policy(
                policy,
                contract.transport@,
            )
        },
{
    lemma_sound_retries(*contract);
    lemma_transports_differ();
    if runtime is Ok && runtime->Ok_0.inference_retry is Some {
        let policy = runtime->Ok_0.inference_retry->Some_0;
        assert(policy.fallback_delays_ms@ == seq![500u64, 1_000u64]);
        assert(policy.fallback_delays_ms@[0] == 500);
        assert(policy.fallback_delays_ms@[1] == 1_000);
    }
}

/// To load a contract is to check the catalog, to choose in it by the digest of its
/// text, and to put the chosen contract to use; the first of these that refuses is
/// told.
pub proof fn law_loading_a_contract(
    catalog: &ProviderContractCatalog,
    text: &str,
    provider: &str,
    id: Option<&str>,
    expected: Option<&str>,
    loaded: Result<ProviderRuntimeContract, String>,
    checked: Result<(), String>,
    digest_text: String,
    digest: &str,
    choice: Result<usize, String>,
)
    requires
        call_ensures(load_runtime_contract, (catalog, text, provider, id, expected), loaded),
        call_ensures(check_catalog, (catalog,), checked),
        call_ensures(catalog_digest, (text,), digest_text),
        digest@ == digest_text@,
        call_ensures(select_contract, (catalog, digest, provider, id, expected), choice),
    ensures
        loaded is Ok <==> checked is Ok && choice is Ok,
        checked matches Err(fault) ==> (loaded matches Err(error) && error@ == fault@),
        checked is Ok && choice is Err ==> (loaded matches Err(error) && error@
            == choice->Err_0@),
        loaded matches Ok(used) ==> {
            let contract = catalog.contracts@[choice->Ok_0 as int];
            &&& choice->Ok_0 < catalog.contracts@.len()
            &&& used.contract_id@ == contract.id@
            &&& used.catalog_digest@ == digest@
            &&& used.auth_mode@ == contract.auth_mode@
            &&& used.transport@ == contract.transport@
            &&& used.endpoint_policy@ == contract.endpoint_policy@
            &&& (used.api_key_env is Some) == (contract.api_key_env is Some)
            &&& used.api_key_env is Some ==> used.api_key_env->Some_0@
                == contract.api_key_env->Some_0@
            &&& used.auth_scheme is AnthropicXApiKey ==> contract.auth_scheme@
                == "anthropic_x_api_key"@
            &&& used.auth_scheme is AnthropicDual ==> contract.auth_scheme@ == "anthropic_dual"@
            &&& used.auth_scheme is Bearer ==> contract.auth_scheme@ == "bearer"@
            &&& used.auth_scheme is CsswitchOauth ==> contract.auth_scheme@ == "csswitch_oauth"@
            &&& used.endpoint_join is ManagedOfficial ==> contract.endpoint_join@
                == "managed_official"@
            &&& used.endpoint_join is AnthropicV1 ==> contract.endpoint_join@ == "anthropic_v1"@
            &&& used.endpoint_join is OpenaiV1 ==> contract.endpoint_join@ == "openai_v1"@
            &&& used.endpoint_join is OpenaiPath ==> contract.endpoint_join@ == "openai_path"@
            &&& used.connect_timeout.millis == contract.timeouts.connect_ms
            &&& used.request_timeout.millis == contract.timeouts.total_ms
            &&& used.read_idle_timeout.millis == contract.timeouts.read_idle_ms
            &&& used.normal_ttl_seconds == contract.cache.normal_ttl_seconds
            &&& used.stale_ttl_seconds == contract.cache.stale_ttl_seconds
        },
{
}

/// The Codex contract is the one with these words and no API key; every other
/// contract is refused. It keeps its digest, its limits and its lifetimes.
pub proof fn law_codex_contract(
    runtime: &ProviderRuntimeContract,
    codex: Result<CodexRuntimeContract, String>,
)
    requires
        call_ensures(codex_contract_from_runtime, (runtime,), codex),
    ensures
        codex is Ok <==> {
            &&& runtime.contract_id@ == "codex-oauth"@
            &&& runtime.auth_mode@ == "csswitch_oauth"@
            &&& runtime.auth_scheme == AuthScheme::CsswitchOauth
            &&& runtime.transport@ == "codex_responses_sse"@
            &&& runtime.endpoint_policy@ == "gateway_managed_official"@
            &&& runtime.endpoint_join == EndpointJoin::ManagedOfficial
            &&& runtime.api_key_env is None
            &&& runtime.upstream_client_version matches Some(version) && version@ == "0.144.4"@
            &&& runtime.inference_retry is None
        },
        codex matches Err(error) ==> error@ == "Codex provider contract is invalid"@,
        codex matches Ok(codex) ==> {
            &&& codex.contract_id@ == "codex-oauth"@
            &&& codex.catalog_digest@ == runtime.catalog_digest@
            &&& codex.connect_timeout == runtime.connect_timeout
            &&& codex.request_timeout == runtime.request_timeout
            &&& codex.read_idle_timeout == runtime.read_idle_timeout
            &&& codex.normal_ttl_seconds == runtime.normal_ttl_seconds
            &&& codex.stale_ttl_seconds == runtime.stale_ttl_seconds
            &&& codex.model_catalog_client_version@ == "0.144.4"@
        },
{
}

/// A contract that bears any of the words of the Codex contract.
pub open spec fn speaks_of_codex(contract: ProviderContract) -> bool {
    contract.id@ == "codex-oauth"@ || contract.adapter@ == "codex"@ || contract.auth_mode@
        == "csswitch_oauth"@ || contract.auth_scheme@ == "csswitch_oauth"@ || contract.transport@
        == "codex_responses_sse"@
}

/// The contract bears every word of the Codex contract.
pub open spec fn is_the_codex_contract(contract: ProviderContract) -> bool {
    &&& contract.id@ == "codex-oauth"@
    &&& lists(contract.template_ids@, seq!["codex"@])
    &&& lists(contract.api_formats@, seq!["openai_responses"@])
    &&& contract.adapter@ == "codex"@
    &&& contract.auth_mode@ == "csswitch_oauth"@
    &&& contract.auth_scheme@ == "csswitch_oauth"@
    &&& lists(contract.credential_sources@, seq!["csswitch_oauth"@])
    &&& contract.default_credential_source@ == "csswitch_oauth"@
    &&& lists(contract.model_policies@, seq!["dynamic_catalog"@])
    &&& contract.default_model_policy@ == "dynamic_catalog"@
    &&& contract.model_discovery@ == "codex_account_catalog"@
    &&& contract.transport@ == "codex_responses_sse"@
    &&& contract.endpoint_policy@ == "gateway_managed_official"@
    &&& contract.endpoint_join@ == "managed_official"@
    &&& contract.api_key_env is None
    &&& contract.scratch_policy@ == "gateway_owned_auth"@
    &&& contract.thinking_policy@.len() == 0
    &&& contract.upstream_client_version matches Some(version) && version@ == "0.144.4"@
}

proof fn lemma_find_codex(contracts: Seq<ProviderContract>, from: int)
    requires
        0 <= from,
    ensures
        match find_codex(contracts, from) {
            Some(i) => {
                &&& from <= i < contracts.len()
                &&& speaks_of_codex(contracts[i])
                &&& forall|k: int| from <= k < i ==> !speaks_of_codex(#[trigger] contracts[k])
            },
            None => forall|k: int|
                from <= k < contracts.len() ==> !speaks_of_codex(#[trigger] contracts[k]),
        },
    decreases contracts.len() - from,
{
    if from < contracts.len() && !touches_codex(contracts[from]) {
        lemma_find_codex(contracts, from + 1);
    }
}

proof fn lemma_codex_lists(contract: ProviderContract)
    ensures
        lists(contract.template_ids@, seq!["codex"@]) == (words(contract.template_ids@) == seq![
            "codex"@,
        ]),
        lists(contract.api_formats@, seq!["openai_responses"@]) == (words(contract.api_formats@)
            == seq!["openai_responses"@]),
        lists(contract.credential_sources@, seq!["csswitch_oauth"@]) == (words(
            contract.credential_sources@,
        ) == seq!["csswitch_oauth"@]),
        lists(contract.model_policies@, seq!["dynamic_catalog"@]) == (words(
            contract.model_policies@,
        ) == seq!["dynamic_catalog"@]),
{
    lemma_lists(contract.template_ids@, seq!["codex"@]);
    lemma_lists(contract.api_formats@, seq!["openai_responses"@]);
    lemma_lists(contract.credential_sources@, seq!["csswitch_oauth"@]);
    lemma_lists(contract.model_policies@, seq!["dynamic_catalog"@]);
}

/// The Codex contract is loaded from a sound catalog in which it stands whole and is
/// the only one to bear any of its words.
pub proof fn law_loading_the_codex_contract(
    catalog: &ProviderContractCatalog,
    text: &str,
    codex: Result<CodexRuntimeContract, String>,
    checked: Result<(), String>,
    digest: String,
    i: int,
)
    requires
        call_ensures(load_codex_runtime_contract, (catalog, text), codex),
        call_ensures(check_catalog, (catalog,), checked),
        call_ensures(catalog_digest, (text,), digest),
    ensures
        checked matches Err(fault) ==> (codex matches Err(error) && error@ == fault@),
        checked is Ok && (forall|k: int|
            0 <= k < catalog.contracts@.len() ==> !speaks_of_codex(#[trigger] catalog.contracts@[k]))
            ==> (codex matches Err(error) && error@ == "Codex provider contract is unavailable"@),
        checked is Ok && 0 <= i < catalog.contracts@.len() && speaks_of_codex(catalog.contracts@[i])
            ==> if is_the_codex_contract(catalog.contracts@[i]) && (forall|k: int|
            0 <= k < catalog.contracts@.len() && k != i ==> !speaks_of_codex(
                #[trigger] catalog.contracts@[k],
            )) {
            let contract = catalog.contracts@[i];
            &&& codex matches Ok(codex)
            &&& codex.contract_id@ == "codex-oauth"@
            &&& codex.catalog_digest@ == digest@
            &&& codex.connect_timeout.millis == contract.timeouts.connect_ms
            &&& codex.request_timeout.millis == contract.timeouts.total_ms
            &&& codex.read_idle_timeout.millis == contract.timeouts.read_idle_ms
            &&& codex.normal_ttl_seconds == contract.cache.normal_ttl_seconds
            &&& codex.stale_ttl_seconds == contract.cache.stale_ttl_seconds
            &&& codex.model_catalog_client_version@ == "0.144.4"@
        } else {
            codex matches Err(error) && error@ == "Codex provider contract is invalid"@
        },
{
    let contracts = catalog.contracts@;
    lemma_find_codex(contracts, 0);
    if checked is Ok && 0 <= i < contracts.len() && speaks_of_codex(contracts[i]) {
        assert(!(find_codex(contracts, 0) is None));
        let first = find_codex(contracts, 0)->Some_0;
        if i < first {
            assert(!speaks_of_codex(contracts[i]));
        }
        lemma_find_codex(contracts, first + 1);
        lemma_codex_lists(contracts[first]);
        lemma_sound_from(contracts, 0);
        assert(is_sound(contracts, first));
        if first < i {
            assert(find_codex(contracts, first + 1) is Some);
            assert(speaks_of_codex(contracts[first]));
        } else if find_codex(contracts, first + 1) is Some {
            assert(speaks_of_codex(contracts[find_codex(contracts, first + 1)->Some_0]));
        }
    }
}

/// A caller is served by the Codex contract if it names nothing, or both the
/// contract's id and the catalog's digest.
pub proof fn law_identity_of_the_codex_contract(
    contract: &CodexRuntimeContract,
    id: Option<&str>,
    digest: Option<&str>,
    result: Result<(), String>,
)
    requires
        call_ensures(validate_managed_identity, (contract, id, digest), result),
    ensures
        id is None && digest is None ==> result is Ok,
        id is Some && digest is Some ==> (result is Ok <==> id->Some_0@ == contract.contract_id@
            && digest->Some_0@ == contract.catalog_digest@),
        (id is Some) != (digest is Some) ==> result is Err,
        result matches Err(error) ==> error@ == "managed provider contract identity mismatch"@,
{
}

} // verus!
