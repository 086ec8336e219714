//! The provider contracts that the gateway is shipped with, and what they allow.

use vstd::prelude::*;
use vstd::utf8::encode_utf8;

use crate::crypto::{sha256, sha256_of};
use crate::duration::Duration;
use crate::provider_failure::{ProviderId, RetryPolicy, RouteMode};
use crate::text::{
    as_text, hex_of, is_blank, is_text, str_eq, text_is_blank, to_hex, view_of, view_of_str,
};

verus! {

#[derive(Clone, Debug)]
pub struct TimeoutPolicy {
    pub connect_ms: u64,
    pub total_ms: u64,
    pub read_idle_ms: u64,
}

#[derive(Clone, Debug)]
pub struct CachePolicy {
    pub normal_ttl_seconds: u64,
    pub stale_ttl_seconds: u64,
}

#[derive(Clone, Debug)]
pub struct InferenceRetryConfig {
    pub max_posts: u8,
    pub fallback_delays_ms: [u64; 2],
    pub retry_after_cap_seconds: u64,
    pub retry_statuses: Vec<String>,
    pub retry_network_kinds: Vec<String>,
}

/// One provider contract as the catalog writes it.
#[derive(Clone, Debug)]
pub struct ProviderContract {
    pub id: String,
    pub template_ids: Vec<String>,
    pub api_formats: Vec<String>,
    pub adapter: String,
    pub auth_mode: String,
    pub auth_scheme: String,
    pub credential_sources: Vec<String>,
    pub default_credential_source: String,
    pub model_policies: Vec<String>,
    pub default_model_policy: String,
    pub model_discovery: String,
    pub transport: String,
    pub endpoint_policy: String,
    pub endpoint_join: String,
    pub api_key_env: Option<String>,
    pub scratch_policy: String,
    pub thinking_policy: String,
    pub inference_retry: Option<InferenceRetryConfig>,
    pub upstream_client_version: Option<String>,
    pub timeouts: TimeoutPolicy,
    pub cache: CachePolicy,
}

#[derive(Clone, Debug)]
pub struct ProviderContractCatalog {
    pub schema_version: u32,
    pub contracts: Vec<ProviderContract>,
}

#[derive(Clone, Debug, Eq, PartialEq)]
pub struct CodexRuntimeContract {
    pub contract_id: String,
    pub catalog_digest: String,
    pub connect_timeout: Duration,
    pub request_timeout: Duration,
    pub read_idle_timeout: Duration,
    pub normal_ttl_seconds: u64,
    pub stale_ttl_seconds: u64,
    pub model_catalog_client_version: String,
}

#[derive(Clone, Copy, Debug, Eq, PartialEq, Structural)]
pub enum EndpointJoin {
    ManagedOfficial,
    AnthropicV1,
    OpenaiV1,
    OpenaiPath,
}

#[derive(Clone, Copy, Debug, Eq, PartialEq, Structural)]
pub enum AuthScheme {
    AnthropicXApiKey,
    AnthropicDual,
    Bearer,
    CsswitchOauth,
}

impl AuthScheme {
    pub open spec fn of(value: Seq<char>) -> Option<AuthScheme> {
        if value == "anthropic_x_api_key"@ {
            Some(AuthScheme::AnthropicXApiKey)
        } else if value == "anthropic_dual"@ {
            Some(AuthScheme::AnthropicDual)
        } else if value == "bearer"@ {
            Some(AuthScheme::Bearer)
        } else if value == "csswitch_oauth"@ {
            Some(AuthScheme::CsswitchOauth)
        } else {
            None
        }
    }

    pub fn parse(value: &str) -> (scheme: Result<AuthScheme, String>)
        ensures
            match scheme {
                Ok(scheme) => Self::of(value@) == Some(scheme),
                Err(error) => Self::of(value@) is None && error@
                    == "provider contract auth scheme is unsupported"@,
            },
    {
        if str_eq(value, "anthropic_x_api_key") {
            Ok(AuthScheme::AnthropicXApiKey)
        } else if str_eq(value, "anthropic_dual") {
            Ok(AuthScheme::AnthropicDual)
        } else if str_eq(value, "bearer") {
            Ok(AuthScheme::Bearer)
        } else if str_eq(value, "csswitch_oauth") {
            Ok(AuthScheme::CsswitchOauth)
        } else {
            Err("provider contract auth scheme is unsupported".to_owned())
        }
    }
}

impl EndpointJoin {
    pub open spec fn of(value: Seq<char>) -> Option<EndpointJoin> {
        if value == "managed_official"@ {
            Some(EndpointJoin::ManagedOfficial)
        } else if value == "anthropic_v1"@ {
            Some(EndpointJoin::AnthropicV1)
        } else if value == "openai_v1"@ {
            Some(EndpointJoin::OpenaiV1)
        } else if value == "openai_path"@ {
            Some(EndpointJoin::OpenaiPath)
        } else {
            None
        }
    }

    pub fn parse(value: &str) -> (join: Result<EndpointJoin, String>)
        ensures
            match join {
                Ok(join) => Self::of(value@) == Some(join),
                Err(error) => Self::of(value@) is None && error@
                    == "provider contract endpoint join is unsupported"@,
            },
    {
        if str_eq(value, "managed_official") {
            Ok(EndpointJoin::ManagedOfficial)
        } else if str_eq(value, "anthropic_v1") {
            Ok(EndpointJoin::AnthropicV1)
        } else if str_eq(value, "openai_v1") {
            Ok(EndpointJoin::OpenaiV1)
        } else if str_eq(value, "openai_path") {
            Ok(EndpointJoin::OpenaiPath)
        } else {
            Err("provider contract endpoint join is unsupported".to_owned())
        }
    }
}

/// What a provider contract means to a running gateway.
#[derive(Clone, Debug, Eq, PartialEq)]
pub struct ProviderRuntimeContract {
    pub contract_id: String,
    pub catalog_digest: String,
    pub auth_mode: String,
    pub auth_scheme: AuthScheme,
    pub api_key_env: Option<String>,
    pub transport: String,
    pub endpoint_policy: String,
    pub endpoint_join: EndpointJoin,
    pub connect_timeout: Duration,
    pub request_timeout: Duration,
    pub read_idle_timeout: Duration,
    pub normal_ttl_seconds: u64,
    pub stale_ttl_seconds: u64,
    pub upstream_client_version: Option<String>,
    pub inference_retry: Option<RetryPolicy>,
}

// ---------------------------------------------------------------------------
// Lists of words
// ---------------------------------------------------------------------------

pub open spec fn words(list: Seq<String>) -> Seq<Seq<char>> {
    Seq::new(list.len(), |i: int| list[i]@)
}

fn words_are(list: &Vec<String>, wanted: &Vec<&'static str>) -> (same: bool)
    ensures
        same == (words(list@) == Seq::new(wanted@.len(), |i: int| wanted@[i]@)),
{
    let ghost target = Seq::new(wanted@.len(), |i: int| wanted@[i]@);
    if list.len() != wanted.len() {
        assert(words(list@).len() != target.len());
        return false;
    }
    let mut i: usize = 0;
    while i < list.len()
        invariant
            i <= list@.len(),
            list@.len() == wanted@.len(),
            target == Seq::new(wanted@.len(), |i: int| wanted@[i]@),
            forall|k: int| 0 <= k < i ==> list@[k]@ == wanted@[k]@,
        decreases list.len() - i,
    {
        if !str_eq(list[i].as_str(), wanted[i]) {
            assert(words(list@)[i as int] != target[i as int]);
            return false;
        }
        i += 1;
    }
    assert(words(list@) =~= target);
    true
}

fn has_word(list: &Vec<String>, word: &str) -> (yes: bool)
    ensures
        yes == words(list@).contains(word@),
{
    let mut i: usize = 0;
    while i < list.len()
        invariant
            i <= list@.len(),
            forall|k: int| 0 <= k < i ==> list@[k]@ != word@,
        decreases list.len() - i,
    {
        if str_eq(list[i].as_str(), word) {
            assert(words(list@)[i as int] == word@);
            return true;
        }
        i += 1;
    }
    assert forall|k: int| 0 <= k < words(list@).len() implies words(list@)[k] != word@ by {}
    false
}

// ---------------------------------------------------------------------------
// Validation
// ---------------------------------------------------------------------------

/// The retry statuses that a route must be given.
pub open spec fn retry_statuses_of(route: RouteMode) -> Seq<Seq<char>> {
    if route is AnthropicMessages {
        seq!["408"@, "429"@, "5xx"@]
    } else {
        seq!["408"@, "409"@, "429"@, "5xx"@]
    }
}

/// The written retry policy is the one policy of the route, in full.
pub open spec fn is_exact_retry(config: InferenceRetryConfig, route: RouteMode) -> bool {
    &&& config.max_posts == 3
    &&& config.fallback_delays_ms@ == seq![500u64, 1_000u64]
    &&& config.retry_after_cap_seconds == 60
    &&& words(config.retry_statuses@) == retry_statuses_of(route)
    &&& words(config.retry_network_kinds@) == seq!["connect"@, "timeout"@]
}

/// The route whose retry policy a contract gets: an API-key contract has exactly
/// its route's, others have none.
pub open spec fn retry_route(contract: ProviderContract) -> Result<Option<RouteMode>, Seq<char>> {
    let api_key = contract.auth_mode@ == "api_key"@;
    match contract.inference_retry {
        None => if api_key {
            Err("API-key provider contract is missing inference retry policy"@)
        } else {
            Ok(None)
        },
        Some(config) => if !api_key {
            Err("non-API-key provider contract has inference retry policy"@)
        } else {
            match RouteMode::of_api_key_transport(contract.transport@) {
                None => Err("API-key provider contract transport is unsupported"@),
                Some(route) => if is_exact_retry(config, route) {
                    Ok(Some(route))
                } else {
                    Err("provider contract inference retry policy is invalid"@)
                },
            }
        },
    }
}

/// `policy` is the retry policy of `route`.
pub open spec fn is_policy_of(policy: Option<RetryPolicy>, route: Option<RouteMode>) -> bool {
    match route {
        None => policy is None,
        Some(route) => policy matches Some(policy) && policy.shipped(
            !(route is AnthropicMessages),
            true,
        ) && policy.wf(),
    }
}

pub fn retry_policy(contract: &ProviderContract) -> (policy: Result<Option<RetryPolicy>, String>)
    ensures
        match (policy, retry_route(*contract)) {
            (Ok(policy), Ok(route)) => is_policy_of(policy, route),
            (Err(error), Err(message)) => error@ == message,
            _ => false,
        },
{
    let api_key = str_eq(contract.auth_mode.as_str(), "api_key");
    let config = match &contract.inference_retry {
        Some(config) => config,
        None => {
            return if api_key {
                Err("API-key provider contract is missing inference retry policy".to_owned())
            } else {
                Ok(None)
            };
        },
    };
    if !api_key {
        return Err("non-API-key provider contract has inference retry policy".to_owned());
    }
    let route = match RouteMode::from_api_key_transport(contract.transport.as_str()) {
        Some(route) => route,
        None => {
            return Err("API-key provider contract transport is unsupported".to_owned());
        },
    };
    let (statuses, policy) = match route {
        RouteMode::AnthropicMessages => (
            vec!["408", "429", "5xx"],
            RetryPolicy::anthropic_messages(),
        ),
        RouteMode::OpenaiChat => (vec!["408", "409", "429", "5xx"], RetryPolicy::openai_chat()),
        _ => (vec!["408", "409", "429", "5xx"], RetryPolicy::openai_responses()),
    };
    let kinds = vec!["connect", "timeout"];
    assert(Seq::new(statuses@.len(), |i: int| statuses@[i]@) =~= retry_statuses_of(route));
    assert(Seq::new(kinds@.len(), |i: int| kinds@[i]@) =~= seq!["connect"@, "timeout"@]);
    let exact = config.max_posts == 3 && config.fallback_delays_ms[0] == 500
        && config.fallback_delays_ms[1] == 1_000 && config.retry_after_cap_seconds == 60
        && words_are(&config.retry_statuses, &statuses) && words_are(
        &config.retry_network_kinds,
        &kinds,
    );
    proof {
        let delays = config.fallback_delays_ms@;
        if delays[0] == 500 && delays[1] == 1_000 {
            assert(delays =~= seq![500u64, 1_000u64]);
        }
    }
    if !exact {
        return Err("provider contract inference retry policy is invalid".to_owned());
    }
    Ok(Some(policy))
}

pub open spec fn bounds_hold(contract: ProviderContract) -> bool {
    &&& contract.timeouts.connect_ms > 0
    &&& contract.timeouts.total_ms >= contract.timeouts.connect_ms
    &&& contract.timeouts.read_idle_ms > 0
    &&& contract.cache.stale_ttl_seconds >= contract.cache.normal_ttl_seconds
}

/// Every list has an entry, every default is in its list, and the thinking policy
/// is a known one.
pub open spec fn shape_holds(contract: ProviderContract) -> bool {
    &&& contract.template_ids@.len() > 0
    &&& contract.api_formats@.len() > 0
    &&& words(contract.credential_sources@).contains(contract.default_credential_source@)
    &&& words(contract.model_policies@).contains(contract.default_model_policy@)
    &&& contract.model_discovery@.len() > 0
    &&& contract.scratch_policy@.len() > 0
    &&& contract.thinking_policy@.len() == 0 || contract.thinking_policy@ == "adaptive"@
        || contract.thinking_policy@ == "enabled"@
}

/// No contract before `i` has the same id.
pub open spec fn is_new_id(contracts: Seq<ProviderContract>, i: int) -> bool {
    forall|k: int| 0 <= k < i ==> (#[trigger] contracts[k]).id@ != contracts[i].id@
}

/// What is wrong with the contract at `i`: the first thing, in this order.
pub open spec fn contract_fault(contracts: Seq<ProviderContract>, i: int) -> Option<Seq<char>> {
    let contract = contracts[i];
    if is_blank(contract.id@) || !is_new_id(contracts, i) {
        Some("provider contract catalog contains an invalid id"@)
    } else if !bounds_hold(contract) {
        Some("provider contract catalog contains invalid runtime bounds"@)
    } else if ProviderId::of_adapter(contract.adapter@) is None {
        Some("provider contract adapter is unsupported"@)
    } else if EndpointJoin::of(contract.endpoint_join@) is None {
        Some("provider contract endpoint join is unsupported"@)
    } else if AuthScheme::of(contract.auth_scheme@) is None {
        Some("provider contract auth scheme is unsupported"@)
    } else if retry_route(contract) matches Err(message) {
        Some(retry_route(contract)->Err_0)
    } else if !shape_holds(contract) {
        Some("provider contract catalog contains an invalid capability shape"@)
    } else {
        None
    }
}

/// What is wrong with the contracts from `i` on.
pub open spec fn first_fault(contracts: Seq<ProviderContract>, i: int) -> Option<Seq<char>>
    decreases contracts.len() - i,
{
    if i >= contracts.len() {
        None
    } else {
        match contract_fault(contracts, i) {
            Some(fault) => Some(fault),
            None => first_fault(contracts, i + 1),
        }
    }
}

pub open spec fn catalog_fault(catalog: ProviderContractCatalog) -> Option<Seq<char>> {
    if catalog.schema_version != 1 || catalog.contracts@.len() == 0 {
        Some("provider contract catalog schema is unsupported"@)
    } else {
        first_fault(catalog.contracts@, 0)
    }
}

fn id_is_new(contracts: &Vec<ProviderContract>, i: usize) -> (new: bool)
    requires
        i < contracts@.len(),
    ensures
        new == is_new_id(contracts@, i as int),
{
    let mut k: usize = 0;
    while k < i
        invariant
            k <= i < contracts@.len(),
            forall|m: int| 0 <= m < k ==> (#[trigger] contracts@[m]).id@ != contracts@[i as int].id@,
        decreases i - k,
    {
        if str_eq(contracts[k].id.as_str(), contracts[i].id.as_str()) {
            return false;
        }
        k += 1;
    }
    true
}

fn shape_is_valid(contract: &ProviderContract) -> (valid: bool)
    ensures
        valid == shape_holds(*contract),
{
    contract.template_ids.len() > 0 && contract.api_formats.len() > 0 && has_word(
        &contract.credential_sources,
        contract.default_credential_source.as_str(),
    ) && has_word(&contract.model_policies, contract.default_model_policy.as_str())
        && !contract.model_discovery.as_str().is_empty()
        && !contract.scratch_policy.as_str().is_empty() && (
    contract.thinking_policy.as_str().is_empty() || str_eq(
        contract.thinking_policy.as_str(),
        "adaptive",
    ) || str_eq(contract.thinking_policy.as_str(), "enabled"))
}

fn check_contract(contracts: &Vec<ProviderContract>, i: usize) -> (result: Result<(), String>)
    requires
        i < contracts@.len(),
    ensures
        match result {
            Ok(_) => contract_fault(contracts@, i as int) is None,
            Err(error) => contract_fault(contracts@, i as int) == Some(error@),
        },
{
    let contract = &contracts[i];
    if text_is_blank(contract.id.as_str()) || !id_is_new(contracts, i) {
        return Err("provider contract catalog contains an invalid id".to_owned());
    }
    if contract.timeouts.connect_ms == 0 || contract.timeouts.total_ms
        < contract.timeouts.connect_ms || contract.timeouts.read_idle_ms == 0
        || contract.cache.stale_ttl_seconds < contract.cache.normal_ttl_seconds {
        return Err("provider contract catalog contains invalid runtime bounds".to_owned());
    }
    if ProviderId::from_adapter(contract.adapter.as_str()).is_none() {
        return Err("provider contract adapter is unsupported".to_owned());
    }
    if let Err(error) = EndpointJoin::parse(contract.endpoint_join.as_str()) {
        return Err(error);
    }
    if let Err(error) = AuthScheme::parse(contract.auth_scheme.as_str()) {
        return Err(error);
    }
    if let Err(error) = retry_policy(contract) {
        return Err(error);
    }
    if !shape_is_valid(contract) {
        return Err("provider contract catalog contains an invalid capability shape".to_owned());
    }
    Ok(())
}

/// Whether a catalog may be used.
pub fn check_catalog(catalog: &ProviderContractCatalog) -> (result: Result<(), String>)
    ensures
        match result {
            Ok(_) => catalog_fault(*catalog) is None,
            Err(error) => catalog_fault(*catalog) == Some(error@),
        },
{
    if catalog.schema_version != 1 || catalog.contracts.len() == 0 {
        return Err("provider contract catalog schema is unsupported".to_owned());
    }
    let mut i: usize = 0;
    while i < catalog.contracts.len()
        invariant
            i <= catalog.contracts@.len(),
            first_fault(catalog.contracts@, 0) == first_fault(catalog.contracts@, i as int),
            catalog_fault(*catalog) == first_fault(catalog.contracts@, 0),
        decreases catalog.contracts.len() - i,
    {
        if let Err(error) = check_contract(&catalog.contracts, i) {
            return Err(error);
        }
        i += 1;
    }
    Ok(())
}

// ---------------------------------------------------------------------------
// Selection
// ---------------------------------------------------------------------------

/// The identity of a catalog: the digest of its text, in hexadecimal.
pub open spec fn digest_of_catalog(text: Seq<char>) -> Seq<char> {
    hex_of(sha256_of(encode_utf8(text)))
}

pub fn catalog_digest(catalog_text: &str) -> (digest: String)
    ensures
        digest@ == digest_of_catalog(catalog_text@),
        digest@.len() == 64,
{
    to_hex(sha256(catalog_text.as_bytes()).as_slice())
}

/// The first contract from `i` on with this id.
pub open spec fn find_id(contracts: Seq<ProviderContract>, id: Seq<char>, i: int) -> Option<int>
    decreases contracts.len() - i,
{
    if i >= contracts.len() {
        None
    } else if contracts[i].id@ == id {
        Some(i)
    } else {
        find_id(contracts, id, i + 1)
    }
}

/// The first contract from `i` on for this adapter.
pub open spec fn find_adapter(contracts: Seq<ProviderContract>, adapter: Seq<char>, i: int) -> Option<
    int,
>
    decreases contracts.len() - i,
{
    if i >= contracts.len() {
        None
    } else if contracts[i].adapter@ == adapter {
        Some(i)
    } else {
        find_adapter(contracts, adapter, i + 1)
    }
}

/// Two contracts send requests the same way.
pub open spec fn same_routing(a: ProviderContract, b: ProviderContract) -> bool {
    &&& a.auth_mode@ == b.auth_mode@
    &&& a.auth_scheme@ == b.auth_scheme@
    &&& view_of(a.api_key_env) == view_of(b.api_key_env)
    &&& a.transport@ == b.transport@
    &&& a.endpoint_policy@ == b.endpoint_policy@
    &&& a.endpoint_join@ == b.endpoint_join@
    &&& a.timeouts.connect_ms == b.timeouts.connect_ms
    &&& a.timeouts.total_ms == b.timeouts.total_ms
    &&& a.timeouts.read_idle_ms == b.timeouts.read_idle_ms
}

/// Every contract for the adapter sends requests as the one at `first` does.
pub open spec fn adapter_is_unambiguous(
    contracts: Seq<ProviderContract>,
    adapter: Seq<char>,
    first: int,
) -> bool {
    forall|k: int|
        first < k < contracts.len() && (#[trigger] contracts[k]).adapter@ == adapter
            ==> same_routing(contracts[k], contracts[first])
}

/// The contract that a launch means. A managed launch names one and proves that it
/// knows the catalog; a standalone launch takes its adapter's, if that is clear.
pub open spec fn selected(
    contracts: Seq<ProviderContract>,
    digest: Seq<char>,
    provider: Seq<char>,
    expected_id: Option<Seq<char>>,
    expected_digest: Option<Seq<char>>,
) -> Result<int, Seq<char>> {
    let choice = match (expected_id, expected_digest) {
        (Some(id), Some(expected)) => if expected != digest {
            Err("managed provider contract identity mismatch"@)
        } else {
            match find_id(contracts, id, 0) {
                Some(i) => Ok(i),
                None => Err("managed provider contract is unavailable"@),
            }
        },
        (None, None) => match find_adapter(contracts, provider, 0) {
            None => Err("provider contract is unavailable"@),
            Some(i) => if adapter_is_unambiguous(contracts, provider, i) {
                Ok(i)
            } else {
                Err("provider contract identity is required for this adapter"@)
            },
        },
        _ => Err("managed provider contract identity is incomplete"@),
    };
    match choice {
        Err(message) => Err(message),
        Ok(i) => if contracts[i].adapter@ != provider {
            Err("managed provider contract adapter mismatch"@)
        } else {
            Ok(i)
        },
    }
}

fn routing_matches(a: &ProviderContract, b: &ProviderContract) -> (same: bool)
    ensures
        same == same_routing(*a, *b),
{
    let same_env = match (&a.api_key_env, &b.api_key_env) {
        (Some(x), Some(y)) => str_eq(x.as_str(), y.as_str()),
        (None, None) => true,
        _ => false,
    };
    same_env && str_eq(a.auth_mode.as_str(), b.auth_mode.as_str()) && str_eq(
        a.auth_scheme.as_str(),
        b.auth_scheme.as_str(),
    ) && str_eq(a.transport.as_str(), b.transport.as_str()) && str_eq(
        a.endpoint_policy.as_str(),
        b.endpoint_policy.as_str(),
    ) && str_eq(a.endpoint_join.as_str(), b.endpoint_join.as_str()) && a.timeouts.connect_ms
        == b.timeouts.connect_ms && a.timeouts.total_ms == b.timeouts.total_ms
        && a.timeouts.read_idle_ms == b.timeouts.read_idle_ms
}

fn index_of_id(contracts: &Vec<ProviderContract>, id: &str) -> (index: Option<usize>)
    ensures
        match index {
            Some(i) => find_id(contracts@, id@, 0) == Some(i as int) && i < contracts@.len(),
            None => find_id(contracts@, id@, 0) is None,
        },
{
    let mut i: usize = 0;
    while i < contracts.len()
        invariant
            i <= contracts@.len(),
            find_id(contracts@, id@, 0) == find_id(contracts@, id@, i as int),
        decreases contracts.len() - i,
    {
        if str_eq(contracts[i].id.as_str(), id) {
            return Some(i);
        }
        i += 1;
    }
    None
}

fn index_of_adapter(contracts: &Vec<ProviderContract>, adapter: &str) -> (index: Option<usize>)
    ensures
        match index {
            Some(i) => find_adapter(contracts@, adapter@, 0) == Some(i as int) && i
                < contracts@.len(),
            None => find_adapter(contracts@, adapter@, 0) is None,
        },
{
    let mut i: usize = 0;
    while i < contracts.len()
        invariant
            i <= contracts@.len(),
            find_adapter(contracts@, adapter@, 0) == find_adapter(contracts@, adapter@, i as int),
        decreases contracts.len() - i,
    {
        if str_eq(contracts[i].adapter.as_str(), adapter) {
            return Some(i);
        }
        i += 1;
    }
    None
}

fn is_unambiguous(contracts: &Vec<ProviderContract>, adapter: &str, first: usize) -> (clear: bool)
    requires
        first < contracts@.len(),
    ensures
        clear == adapter_is_unambiguous(contracts@, adapter@, first as int),
{
    assert(first < contracts.len());
    let mut k: usize = first + 1;
    while k < contracts.len()
        invariant
            first < k <= contracts@.len(),
            forall|m: int|
                first < m < k && (#[trigger] contracts@[m]).adapter@ == adapter@ ==> same_routing(
                    contracts@[m],
                    contracts@[first as int],
                ),
        decreases contracts.len() - k,
    {
        if str_eq(contracts[k].adapter.as_str(), adapter) && !routing_matches(
            &contracts[k],
            &contracts[first],
        ) {
            return false;
        }
        k += 1;
    }
    true
}

/// The contract that a launch means, in a catalog with this digest.
pub fn select_contract(
    catalog: &ProviderContractCatalog,
    digest: &str,
    provider: &str,
    expected_id: Option<&str>,
    expected_digest: Option<&str>,
) -> (choice: Result<usize, String>)
    ensures
        match choice {
            Ok(i) => i < catalog.contracts@.len() && selected(
                catalog.contracts@,
                digest@,
                provider@,
                view_of_str(expected_id),
                view_of_str(expected_digest),
            ) == Ok::<int, Seq<char>>(i as int),
            Err(error) => selected(
                catalog.contracts@,
                digest@,
                provider@,
                view_of_str(expected_id),
                view_of_str(expected_digest),
            ) == Err::<int, Seq<char>>(error@),
        },
{
    let contracts = &catalog.contracts;
    let i = match (expected_id, expected_digest) {
        (Some(id), Some(expected)) => {
            if !str_eq(expected, digest) {
                return Err("managed provider contract identity mismatch".to_owned());
            }
            match index_of_id(contracts, id) {
                Some(i) => i,
                None => {
                    return Err("managed provider contract is unavailable".to_owned());
                },
            }
        },
        (None, None) => {
            let first = match index_of_adapter(contracts, provider) {
                Some(i) => i,
                None => {
                    return Err("provider contract is unavailable".to_owned());
                },
            };
            if !is_unambiguous(contracts, provider, first) {
                return Err("provider contract identity is required for this adapter".to_owned());
            }
            first
        },
        _ => {
            return Err("managed provider contract identity is incomplete".to_owned());
        },
    };
    if !str_eq(contracts[i].adapter.as_str(), provider) {
        return Err("managed provider contract adapter mismatch".to_owned());
    }
    Ok(i)
}

/// `runtime` is what `contract` means.
pub open spec fn is_runtime_of(
    runtime: ProviderRuntimeContract,
    contract: ProviderContract,
    digest: Seq<char>,
) -> bool {
    &&& runtime.contract_id@ == contract.id@
    &&& runtime.catalog_digest@ == digest
    &&& runtime.auth_mode@ == contract.auth_mode@
    &&& Some(runtime.auth_scheme) == AuthScheme::of(contract.auth_scheme@)
    &&& view_of(runtime.api_key_env) == view_of(contract.api_key_env)
    &&& runtime.transport@ == contract.transport@
    &&& runtime.endpoint_policy@ == contract.endpoint_policy@
    &&& Some(runtime.endpoint_join) == EndpointJoin::of(contract.endpoint_join@)
    &&& runtime.connect_timeout.millis == contract.timeouts.connect_ms
    &&& runtime.request_timeout.millis == contract.timeouts.total_ms
    &&& runtime.read_idle_timeout.millis == contract.timeouts.read_idle_ms
    &&& runtime.normal_ttl_seconds == contract.cache.normal_ttl_seconds
    &&& runtime.stale_ttl_seconds == contract.cache.stale_ttl_seconds
    &&& view_of(runtime.upstream_client_version) == view_of(contract.upstream_client_version)
    &&& retry_route(contract) matches Ok(route) && is_policy_of(runtime.inference_retry, route)
}

/// Why a contract cannot be run.
pub open spec fn runtime_fault(contract: ProviderContract) -> Option<Seq<char>> {
    if AuthScheme::of(contract.auth_scheme@) is None {
        Some("provider contract auth scheme is unsupported"@)
    } else if EndpointJoin::of(contract.endpoint_join@) is None {
        Some("provider contract endpoint join is unsupported"@)
    } else if retry_route(contract) is Err {
        Some(retry_route(contract)->Err_0)
    } else {
        None
    }
}

fn copy_text(text: &Option<String>) -> (copy: Option<String>)
    ensures
        view_of(copy) == view_of(*text),
{
    match text {
        Some(text) => Some(text.clone()),
        None => None,
    }
}

pub fn runtime_contract(contract: &ProviderContract, digest: &str) -> (runtime: Result<
    ProviderRuntimeContract,
    String,
>)
    ensures
        match runtime {
            Ok(runtime) => is_runtime_of(runtime, *contract, digest@) && runtime_fault(
                *contract,
            ) is None,
            Err(error) => runtime_fault(*contract) == Some(error@),
        },
{
    let auth_scheme = match AuthScheme::parse(contract.auth_scheme.as_str()) {
        Ok(scheme) => scheme,
        Err(error) => {
            return Err(error);
        },
    };
    let endpoint_join = match EndpointJoin::parse(contract.endpoint_join.as_str()) {
        Ok(join) => join,
        Err(error) => {
            return Err(error);
        },
    };
    let inference_retry = match retry_policy(contract) {
        Ok(policy) => policy,
        Err(error) => {
            return Err(error);
        },
    };
    Ok(
        ProviderRuntimeContract {
            contract_id: contract.id.clone(),
            catalog_digest: digest.to_owned(),
            auth_mode: contract.auth_mode.clone(),
            auth_scheme,
            api_key_env: copy_text(&contract.api_key_env),
            transport: contract.transport.clone(),
            endpoint_policy: contract.endpoint_policy.clone(),
            endpoint_join,
            connect_timeout: Duration::from_millis(contract.timeouts.connect_ms),
            request_timeout: Duration::from_millis(contract.timeouts.total_ms),
            read_idle_timeout: Duration::from_millis(contract.timeouts.read_idle_ms),
            normal_ttl_seconds: contract.cache.normal_ttl_seconds,
            stale_ttl_seconds: contract.cache.stale_ttl_seconds,
            upstream_client_version: copy_text(&contract.upstream_client_version),
            inference_retry,
        },
    )
}

/// Loads the contract that a launch means. `catalog` is what `catalog_text` says.
pub fn load_runtime_contract(
    catalog: &ProviderContractCatalog,
    catalog_text: &str,
    provider: &str,
    expected_id: Option<&str>,
    expected_digest: Option<&str>,
) -> (runtime: Result<ProviderRuntimeContract, String>)
    ensures
        ({
            let digest = digest_of_catalog(catalog_text@);
            let choice = selected(
                catalog.contracts@,
                digest,
                provider@,
                view_of_str(expected_id),
                view_of_str(expected_digest),
            );
            match runtime {
                Ok(runtime) => {
                    &&& catalog_fault(*catalog) is None
                    &&& choice matches Ok(i) && is_runtime_of(runtime, catalog.contracts@[i], digest)
                },
                Err(error) => {
                    ||| catalog_fault(*catalog) == Some(error@)
                    ||| catalog_fault(*catalog) is None && choice == Err::<int, Seq<char>>(error@)
                },
            }
        }),
{
    if let Err(error) = check_catalog(catalog) {
        return Err(error);
    }
    let digest = catalog_digest(catalog_text);
    let i = match select_contract(catalog, digest.as_str(), provider, expected_id, expected_digest) {
        Ok(i) => i,
        Err(error) => {
            return Err(error);
        },
    };
    proof {
        lemma_sound_catalog(catalog.contracts@, 0, i as int);
    }
    runtime_contract(&catalog.contracts[i], digest.as_str())
}

/// In a catalog without fault no contract has one.
proof fn lemma_sound_catalog(contracts: Seq<ProviderContract>, from: int, i: int)
    requires
        first_fault(contracts, from) is None,
        0 <= from <= i < contracts.len(),
    ensures
        contract_fault(contracts, i) is None,
    decreases contracts.len() - from,
{
    if from < i {
        lemma_sound_catalog(contracts, from + 1, i);
    }
}

// ---------------------------------------------------------------------------
// Codex
// ---------------------------------------------------------------------------

/// The runtime contract is the one Codex contract.
pub open spec fn is_codex_runtime(runtime: ProviderRuntimeContract) -> bool {
    &&& runtime.contract_id@ == "codex-oauth"@
    &&& runtime.auth_mode@ == "csswitch_oauth"@
    &&& runtime.auth_scheme is CsswitchOauth
    &&& runtime.transport@ == "codex_responses_sse"@
    &&& runtime.endpoint_policy@ == "gateway_managed_official"@
    &&& runtime.endpoint_join is ManagedOfficial
    &&& runtime.api_key_env is None
    &&& view_of(runtime.upstream_client_version) == Some("0.144.4"@)
    &&& runtime.inference_retry is None
}

pub open spec fn is_codex_contract_of(
    codex: CodexRuntimeContract,
    runtime: ProviderRuntimeContract,
) -> bool {
    &&& codex.contract_id@ == runtime.contract_id@
    &&& codex.catalog_digest@ == runtime.catalog_digest@
    &&& codex.connect_timeout == runtime.connect_timeout
    &&& codex.request_timeout == runtime.request_timeout
    &&& codex.read_idle_timeout == runtime.read_idle_timeout
    &&& codex.normal_ttl_seconds == runtime.normal_ttl_seconds
    &&& codex.stale_ttl_seconds == runtime.stale_ttl_seconds
    &&& codex.model_catalog_client_version@ == "0.144.4"@
}

pub fn codex_contract_from_runtime(runtime: &ProviderRuntimeContract) -> (codex: Result<
    CodexRuntimeContract,
    String,
>)
    ensures
        match codex {
            Ok(codex) => is_codex_runtime(*runtime) && is_codex_contract_of(codex, *runtime),
            Err(error) => !is_codex_runtime(*runtime) && error@
                == "Codex provider contract is invalid"@,
        },
{
    let valid = str_eq(runtime.contract_id.as_str(), "codex-oauth") && str_eq(
        runtime.auth_mode.as_str(),
        "csswitch_oauth",
    ) && runtime.auth_scheme == AuthScheme::CsswitchOauth && str_eq(
        runtime.transport.as_str(),
        "codex_responses_sse",
    ) && str_eq(runtime.endpoint_policy.as_str(), "gateway_managed_official")
        && runtime.endpoint_join == EndpointJoin::ManagedOfficial && runtime.api_key_env.is_none()
        && is_text(as_text(&runtime.upstream_client_version), "0.144.4")
        && runtime.inference_retry.is_none();
    if !valid {
        return Err("Codex provider contract is invalid".to_owned());
    }
    Ok(
        CodexRuntimeContract {
            contract_id: runtime.contract_id.clone(),
            catalog_digest: runtime.catalog_digest.clone(),
            connect_timeout: runtime.connect_timeout,
            request_timeout: runtime.request_timeout,
            read_idle_timeout: runtime.read_idle_timeout,
            normal_ttl_seconds: runtime.normal_ttl_seconds,
            stale_ttl_seconds: runtime.stale_ttl_seconds,
            model_catalog_client_version: "0.144.4".to_owned(),
        },
    )
}

/// The contract has something of Codex in it.
pub open spec fn touches_codex(contract: ProviderContract) -> bool {
    ||| contract.id@ == "codex-oauth"@
    ||| contract.adapter@ == "codex"@
    ||| contract.auth_mode@ == "csswitch_oauth"@
    ||| contract.auth_scheme@ == "csswitch_oauth"@
    ||| contract.transport@ == "codex_responses_sse"@
}

/// The written contract is the one Codex contract.
pub open spec fn is_codex_contract(contract: ProviderContract) -> bool {
    &&& contract.id@ == "codex-oauth"@
    &&& words(contract.template_ids@) == seq!["codex"@]
    &&& words(contract.api_formats@) == seq!["openai_responses"@]
    &&& contract.adapter@ == "codex"@
    &&& contract.auth_mode@ == "csswitch_oauth"@
    &&& contract.auth_scheme@ == "csswitch_oauth"@
    &&& words(contract.credential_sources@) == seq!["csswitch_oauth"@]
    &&& contract.default_credential_source@ == "csswitch_oauth"@
    &&& words(contract.model_policies@) == seq!["dynamic_catalog"@]
    &&& contract.default_model_policy@ == "dynamic_catalog"@
    &&& contract.model_discovery@ == "codex_account_catalog"@
    &&& contract.transport@ == "codex_responses_sse"@
    &&& contract.endpoint_policy@ == "gateway_managed_official"@
    &&& contract.endpoint_join@ == "managed_official"@
    &&& contract.api_key_env is None
    &&& contract.scratch_policy@ == "gateway_owned_auth"@
    &&& contract.thinking_policy@.len() == 0
    &&& view_of(contract.upstream_client_version) == Some("0.144.4"@)
    &&& bounds_hold(contract)
}

/// The first contract from `i` on that touches Codex.
pub open spec fn find_codex(contracts: Seq<ProviderContract>, i: int) -> Option<int>
    decreases contracts.len() - i,
{
    if i >= contracts.len() {
        None
    } else if touches_codex(contracts[i]) {
        Some(i)
    } else {
        find_codex(contracts, i + 1)
    }
}

/// Where the catalog holds its Codex contract: the only one that touches Codex.
pub open spec fn codex_index(contracts: Seq<ProviderContract>) -> Result<int, Seq<char>> {
    match find_codex(contracts, 0) {
        None => Err("Codex provider contract is unavailable"@),
        Some(i) => if find_codex(contracts, i + 1) is None && is_codex_contract(contracts[i]) {
            Ok(i)
        } else {
            Err("Codex provider contract is invalid"@)
        },
    }
}

fn contract_touches_codex(contract: &ProviderContract) -> (yes: bool)
    ensures
        yes == touches_codex(*contract),
{
    str_eq(contract.id.as_str(), "codex-oauth") || str_eq(contract.adapter.as_str(), "codex")
        || str_eq(contract.auth_mode.as_str(), "csswitch_oauth") || str_eq(
        contract.auth_scheme.as_str(),
        "csswitch_oauth",
    ) || str_eq(contract.transport.as_str(), "codex_responses_sse")
}

fn index_of_codex(contracts: &Vec<ProviderContract>, from: usize) -> (index: Option<usize>)
    ensures
        match index {
            Some(i) => find_codex(contracts@, from as int) == Some(i as int) && from <= i
                < contracts@.len(),
            None => find_codex(contracts@, from as int) is None,
        },
{
    let mut i: usize = from;
    while i < contracts.len()
        invariant
            from <= i,
            i <= contracts@.len() || i == from,
            find_codex(contracts@, from as int) == find_codex(contracts@, i as int),
        decreases contracts.len() - i,
    {
        if contract_touches_codex(&contracts[i]) {
            return Some(i);
        }
        i += 1;
    }
    None
}

fn contract_is_codex(contract: &ProviderContract) -> (yes: bool)
    ensures
        yes == is_codex_contract(*contract),
{
    let codex = vec!["codex"];
    let responses = vec!["openai_responses"];
    let oauth = vec!["csswitch_oauth"];
    let dynamic = vec!["dynamic_catalog"];
    assert(Seq::new(codex@.len(), |i: int| codex@[i]@) =~= seq!["codex"@]);
    assert(Seq::new(responses@.len(), |i: int| responses@[i]@) =~= seq!["openai_responses"@]);
    assert(Seq::new(oauth@.len(), |i: int| oauth@[i]@) =~= seq!["csswitch_oauth"@]);
    assert(Seq::new(dynamic@.len(), |i: int| dynamic@[i]@) =~= seq!["dynamic_catalog"@]);
    str_eq(contract.id.as_str(), "codex-oauth") && words_are(&contract.template_ids, &codex)
        && words_are(&contract.api_formats, &responses) && str_eq(
        contract.adapter.as_str(),
        "codex",
    ) && str_eq(contract.auth_mode.as_str(), "csswitch_oauth") && str_eq(
        contract.auth_scheme.as_str(),
        "csswitch_oauth",
    ) && words_are(&contract.credential_sources, &oauth) && str_eq(
        contract.default_credential_source.as_str(),
        "csswitch_oauth",
    ) && words_are(&contract.model_policies, &dynamic) && str_eq(
        contract.default_model_policy.as_str(),
        "dynamic_catalog",
    ) && str_eq(contract.model_discovery.as_str(), "codex_account_catalog") && str_eq(
        contract.transport.as_str(),
        "codex_responses_sse",
    ) && str_eq(contract.endpoint_policy.as_str(), "gateway_managed_official") && str_eq(
        contract.endpoint_join.as_str(),
        "managed_official",
    ) && contract.api_key_env.is_none() && str_eq(
        contract.scratch_policy.as_str(),
        "gateway_owned_auth",
    ) && contract.thinking_policy.as_str().is_empty() && is_text(
        as_text(&contract.upstream_client_version),
        "0.144.4",
    ) && contract.timeouts.connect_ms > 0 && contract.timeouts.total_ms
        >= contract.timeouts.connect_ms && contract.timeouts.read_idle_ms > 0
        && contract.cache.stale_ttl_seconds >= contract.cache.normal_ttl_seconds
}

/// Loads the Codex contract of a catalog. `catalog` is what `catalog_text` says.
pub fn load_codex_runtime_contract(
    catalog: &ProviderContractCatalog,
    catalog_text: &str,
) -> (codex: Result<CodexRuntimeContract, String>)
    ensures
        ({
            let place = codex_index(catalog.contracts@);
            match codex {
                Ok(codex) => {
                    &&& catalog_fault(*catalog) is None
                    &&& place matches Ok(i) && {
                        let contract = catalog.contracts@[i];
                        &&& codex.contract_id@ == "codex-oauth"@
                        &&& codex.catalog_digest@ == digest_of_catalog(catalog_text@)
                        &&& codex.connect_timeout.millis == contract.timeouts.connect_ms
                        &&& codex.request_timeout.millis == contract.timeouts.total_ms
                        &&& codex.read_idle_timeout.millis == contract.timeouts.read_idle_ms
                        &&& codex.normal_ttl_seconds == contract.cache.normal_ttl_seconds
                        &&& codex.stale_ttl_seconds == contract.cache.stale_ttl_seconds
                        &&& codex.model_catalog_client_version@ == "0.144.4"@
                    }
                },
                Err(error) => {
                    ||| catalog_fault(*catalog) == Some(error@)
                    ||| catalog_fault(*catalog) is None && place == Err::<int, Seq<char>>(error@)
                },
            }
        }),
{
    if let Err(error) = check_catalog(catalog) {
        return Err(error);
    }
    let i = match index_of_codex(&catalog.contracts, 0) {
        Some(i) => i,
        None => {
            return Err("Codex provider contract is unavailable".to_owned());
        },
    };
    assert(i < catalog.contracts.len());
    if index_of_codex(&catalog.contracts, i + 1).is_some() || !contract_is_codex(
        &catalog.contracts[i],
    ) {
        return Err("Codex provider contract is invalid".to_owned());
    }
    let digest = catalog_digest(catalog_text);
    proof {
        lemma_sound_catalog(catalog.contracts@, 0, i as int);
        lemma_codex_scheme();
    }
    let runtime = match runtime_contract(&catalog.contracts[i], digest.as_str()) {
        Ok(runtime) => runtime,
        Err(error) => {
            return Err(error);
        },
    };
    codex_contract_from_runtime(&runtime)
}

proof fn lemma_codex_scheme()
    ensures
        AuthScheme::of("csswitch_oauth"@) == Some(AuthScheme::CsswitchOauth),
        EndpointJoin::of("managed_official"@) == Some(EndpointJoin::ManagedOfficial),
        "csswitch_oauth"@ != "api_key"@,
{
    reveal_strlit("csswitch_oauth");
    reveal_strlit("anthropic_x_api_key");
    reveal_strlit("anthropic_dual");
    reveal_strlit("bearer");
    reveal_strlit("api_key");
    assert("csswitch_oauth"@.len() == 14);
    assert("anthropic_x_api_key"@.len() == 19);
    assert("anthropic_dual"@[0] == 'a');
    assert("csswitch_oauth"@[0] == 'c');
    assert("bearer"@.len() == 6);
    assert("api_key"@.len() == 7);
}

/// Whether a launch may use the contract: it names either nothing or exactly this
/// contract and catalog.
pub fn validate_managed_identity(
    contract: &CodexRuntimeContract,
    expected_id: Option<&str>,
    expected_digest: Option<&str>,
) -> (result: Result<(), String>)
    ensures
        result is Ok <==> {
            ||| expected_id is None && expected_digest is None
            ||| view_of_str(expected_id) == Some(contract.contract_id@) && view_of_str(
                expected_digest,
            ) == Some(contract.catalog_digest@)
        },
        result matches Err(error) ==> error@ == "managed provider contract identity mismatch"@,
{
    match (expected_id, expected_digest) {
        (None, None) => Ok(()),
        (Some(id), Some(digest)) => if str_eq(id, contract.contract_id.as_str()) && str_eq(
            digest,
            contract.catalog_digest.as_str(),
        ) {
            Ok(())
        } else {
            Err("managed provider contract identity mismatch".to_owned())
        },
        _ => Err("managed provider contract identity mismatch".to_owned()),
    }
}

// ---------------------------------------------------------------------------
// Laws
// ---------------------------------------------------------------------------

/// In a sound catalog every API-key contract is given exactly its route's retry
/// policy, and no other contract is given any.
pub proof fn law_retry_policy_is_closed(catalog: ProviderContractCatalog, i: int)
    requires
        catalog_fault(catalog) is None,
        0 <= i < catalog.contracts@.len(),
    ensures
        ({
            let contract = catalog.contracts@[i];
            if contract.auth_mode@ == "api_key"@ {
                &&& contract.inference_retry matches Some(config)
                &&& RouteMode::of_api_key_transport(contract.transport@) matches Some(route)
                &&& is_exact_retry(config, route)
            } else {
                contract.inference_retry is None
            }
        }),
{
    lemma_sound_catalog(catalog.contracts@, 0, i);
}

/// In a sound catalog no two contracts share an id.
pub proof fn law_ids_are_unique(catalog: ProviderContractCatalog, i: int, k: int)
    requires
        catalog_fault(catalog) is None,
        0 <= i < k < catalog.contracts@.len(),
    ensures
        catalog.contracts@[i].id@ != catalog.contracts@[k].id@,
{
    lemma_sound_catalog(catalog.contracts@, 0, k);
}

/// A managed launch gets the contract that it names, for its own adapter, and only
/// with the digest of the catalog at hand.
pub proof fn law_managed_identity_is_exact(
    contracts: Seq<ProviderContract>,
    digest: Seq<char>,
    provider: Seq<char>,
    id: Seq<char>,
    expected: Seq<char>,
)
    ensures
        selected(contracts, digest, provider, Some(id), Some(expected)) matches Ok(i) ==> {
            &&& 0 <= i < contracts.len()
            &&& contracts[i].id@ == id
            &&& contracts[i].adapter@ == provider
            &&& expected == digest
        },
        selected(contracts, digest, provider, Some(id), None) is Err,
        selected(contracts, digest, provider, None, Some(expected)) is Err,
{
    lemma_found_id(contracts, id, 0);
}

proof fn lemma_found_id(contracts: Seq<ProviderContract>, id: Seq<char>, from: int)
    requires
        0 <= from,
    ensures
        find_id(contracts, id, from) matches Some(i) ==> from <= i < contracts.len()
            && contracts[i].id@ == id,
    decreases contracts.len() - from,
{
    if from < contracts.len() && contracts[from].id@ != id {
        lemma_found_id(contracts, id, from + 1);
    }
}

} // verus!
