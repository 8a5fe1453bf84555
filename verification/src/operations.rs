//! What the operations answer, said of calls.
//!
//! Each law takes the arguments of a call and what the call returned, and says what the one makes of
//! the other: the characters of a URL, the parts of a request, the error that a caller is told.
use crate::config::{
    bind_text, default_chains, env_u64, env_usize, load_key, ChainSpec, Config, EnvVars, Key,
    KeyQuery, KeySource, KeyStep, Setting,
};
use crate::json::{json_read, JsonTree};
use crate::laws::{
    law_address_character_by_character, law_base_is_the_variable, law_bytes_by_what_they_hold,
    law_bytes_are_refused_for_what_comes_first, law_name_of_no_chain_is_refused,
    law_name_stands_for_its_chain, law_only_off_turns_the_filter_off, law_registry_chain_by_chain,
    law_rpc_asks_the_named_chain, law_trimmed_is_the_middle, law_wallet_asks_the_named_chain,
};
use crate::nesting::{is_shallow, shallow};
use crate::routes::{
    balances_handler, check_body, check_one, guarded_rpc_handler, health, history_handler,
    is_valid_eth_address, json_passthrough, read_body, reject_denied_methods, relay, rpc_handler,
    AppError, AppState, Reply, RpcBody,
};
use crate::text::{
    begins_with, parse_number, parsed_number, same_text, to_decimal, to_lower, trim, trim_end_of,
};
use crate::upstream::{user_agent, Drpc, Method, UpstreamError, UpstreamRequest};
use vstd::prelude::*;

verus! {

// ---- chains ------------------------------------------------------------------

proof fn lemma_answers(state: AppState, name: Seq<char>, answers: spec_fn(int) -> bool)
    requires
        forall|j: int| #[trigger]
            answers(j) <==> 0 <= j < state.chains@.len() && (state.chains@[j].slug@ == name
                || exists|k: int|
                0 <= k < state.chains@[j].aliases@.len() && #[trigger] state.chains@[j].aliases@[k]@
                    == name),
    ensures
        state@.chains.len() == state.chains@.len(),
        forall|j: int|
            0 <= j < state.chains@.len() ==> (#[trigger] state@.chains[j]).slug
                == state.chains@[j].slug@ && (answers(j) <==> state@.chains[j].slug == name
                || state@.chains[j].aliases.contains(name)),
        forall|j: int| #[trigger] answers(j) ==> 0 <= j < state.chains@.len(),
{
    assert forall|j: int| 0 <= j < state.chains@.len() implies (#[trigger] state@.chains[j]).slug
        == state.chains@[j].slug@ && (answers(j) <==> state@.chains[j].slug == name
        || state@.chains[j].aliases.contains(name)) by {
        law_registry_chain_by_chain(state.chains@, j, 0);
        let said = state@.chains[j].aliases;
        let aliases = state.chains@[j].aliases@;
        assert forall|k: int| 0 <= k < aliases.len() implies said[k] == (#[trigger] aliases[k])@ by {
            law_registry_chain_by_chain(state.chains@, j, k);
        }
        if said.contains(name) {
            let k = choose|k: int| 0 <= k < said.len() && said[k] == name;
            assert(aliases[k]@ == name);
        }
        if exists|k: int| 0 <= k < aliases.len() && #[trigger] aliases[k]@ == name {
            let k = choose|k: int| 0 <= k < aliases.len() && #[trigger] aliases[k]@ == name;
            assert(said[k] == name);
        }
    }
}

/// `resolve_chain` gives the slug of the first chain that answers to the caller's name in lower case,
/// by its slug or by an alias, and nothing where no chain does.
pub proof fn law_resolve_chain(
    state: AppState,
    chain: &str,
    name: Seq<char>,
    answers: spec_fn(int) -> bool,
    i: int,
    r: Option<&'static str>,
)
    requires
        call_ensures(AppState::resolve_chain, (&state, chain), r),
        name.len() == chain@.len(),
        forall|k: int|
            0 <= k < chain@.len() ==> #[trigger] name[k] as int == chain@[k] as int + (if 65
                <= chain@[k] as int <= 90 {
                32int
            } else {
                0
            }),
        forall|j: int| #[trigger]
            answers(j) <==> 0 <= j < state.chains@.len() && (state.chains@[j].slug@ == name
                || exists|k: int|
                0 <= k < state.chains@[j].aliases@.len() && #[trigger] state.chains@[j].aliases@[k]@
                    == name),
    ensures
        answers(i) && (forall|j: int| j < i ==> !#[trigger] answers(j)) ==> (r matches Some(
            slug,
        ) && slug@ == state.chains@[i].slug@),
        (forall|j: int| !#[trigger] answers(j)) ==> r is None,
{
    lemma_answers(state, name, answers);
    if answers(i) && (forall|j: int| j < i ==> !#[trigger] answers(j)) {
        assert forall|j: int| 0 <= j < i implies (#[trigger] state@.chains[j]).slug != name
            && !state@.chains[j].aliases.contains(name) by {
            assert(!answers(j));
        }
        assert(state@.chains[i].slug == state.chains@[i].slug@);
        law_name_stands_for_its_chain(state@, chain@, name, i);
    }
    if forall|j: int| !#[trigger] answers(j) {
        assert forall|j: int| 0 <= j < state@.chains.len() implies (#[trigger] state@.chains[j]).slug
            != name && !state@.chains[j].aliases.contains(name) by {
            assert(!answers(j));
        }
        law_name_of_no_chain_is_refused(state@, chain@, name, Seq::empty(), Seq::empty(), None);
    }
}

/// The chains that the proxy knows by itself.
pub proof fn law_default_chains(chains: Vec<ChainSpec>)
    requires
        call_ensures(default_chains, (), chains),
    ensures
        chains@.len() == 3,
        chains@[0].slug@ == "ethereum"@ && chains@[0].chain_id == 1,
        chains@[0].aliases@.len() == 3 && chains@[0].aliases@[0]@ == "mainnet"@
            && chains@[0].aliases@[1]@ == "eth"@ && chains@[0].aliases@[2]@ == "1"@,
        chains@[1].slug@ == "optimism"@ && chains@[1].chain_id == 10,
        chains@[1].aliases@.len() == 2 && chains@[1].aliases@[0]@ == "op"@
            && chains@[1].aliases@[1]@ == "10"@,
        chains@[2].slug@ == "base"@ && chains@[2].chain_id == 8453,
        chains@[2].aliases@.len() == 1 && chains@[2].aliases@[0]@ == "8453"@,
{
    crate::laws::law_supported_chains();
    law_registry_chain_by_chain(chains@, 0, 0);
    law_registry_chain_by_chain(chains@, 0, 1);
    law_registry_chain_by_chain(chains@, 0, 2);
    law_registry_chain_by_chain(chains@, 1, 0);
    law_registry_chain_by_chain(chains@, 1, 1);
    law_registry_chain_by_chain(chains@, 2, 0);
}

// ---- the JSON-RPC route ------------------------------------------------------

/// `rpc_handler` sends the caller's body, byte for byte, to the endpoint of the first chain that
/// answers to the caller's name, unless the filter is on and refuses the body. The filter accepts an
/// object that names a method that is not denied, and an array of such objects.
pub proof fn law_rpc_handler(
    state: AppState,
    chain: &str,
    name: Seq<char>,
    answers: spec_fn(int) -> bool,
    i: int,
    body: &[u8],
    named: spec_fn(JsonTree) -> bool,
    r: Result<UpstreamRequest, AppError>,
)
    requires
        call_ensures(rpc_handler, (&state, chain, body), r),
        name.len() == chain@.len(),
        forall|k: int|
            0 <= k < chain@.len() ==> #[trigger] name[k] as int == chain@[k] as int + (if 65
                <= chain@[k] as int <= 90 {
                32int
            } else {
                0
            }),
        forall|j: int| #[trigger]
            answers(j) <==> 0 <= j < state.chains@.len() && (state.chains@[j].slug@ == name
                || exists|k: int|
                0 <= k < state.chains@[j].aliases@.len() && #[trigger] state.chains@[j].aliases@[k]@
                    == name),
        answers(i),
        forall|j: int| j < i ==> !#[trigger] answers(j),
        forall|t: JsonTree| #[trigger]
            named(t) <==> (t matches JsonTree::Members(members) && members.contains_key("method"@)
                && (members["method"@] matches JsonTree::Text(m) && !("debug_"@.is_prefix_of(m) || "trace_"@.is_prefix_of(m) || "arbtrace_"@.is_prefix_of(m)
                || "txpool_"@.is_prefix_of(m) || m == "eth_subscribe"@ || m == "eth_unsubscribe"@))),
    ensures
        r matches Ok(request) ==> {
            &&& request.method == Method::Post
            &&& request.url@ == state.drpc@.base + "/"@ + state.chains@[i].slug@ + "/"@
                + state.drpc@.key
            &&& request.body matches Some(sent) && sent@ == body@
            &&& request.headers@.len() == 2
            &&& request.headers@[0].0@ == "user-agent"@
            &&& request.headers@[0].1@ == "kao-proxy/0.1"@
            &&& request.headers@[1].0@ == "content-type"@
            &&& request.headers@[1].1@ == "application/json"@
        },
        r is Ok <==> (state.method_denylist ==> (json_read(body@) matches Some(tree) && match tree {
            JsonTree::Members(_) => named(tree),
            JsonTree::List(items) => forall|k: int| 0 <= k < items.len() ==> named(#[trigger] items[k]),
            _ => false,
        })),
        r matches Err(e) ==> e == AppError::MethodNotAllowed || e == AppError::BadRequest(
            "missing method",
        ) || e == AppError::BadRequest("invalid JSON-RPC body"),
{
    lemma_first(state, name, answers, i);
    law_bytes_by_what_they_hold(body@, named);
    law_rpc_asks_the_named_chain(state@, chain@, name, i, body@);
    lemma_reasons_of_bytes(body@);
    if let Ok(request) = r {
        crate::laws::law_what_a_request_says(request, 0);
        crate::laws::law_what_a_request_says(request, 1);
    }
}

/// Where the chain is known and the filter is on, `rpc_handler` refuses what `reject_denied_methods`
/// refuses, with the same error, and nothing else.
pub proof fn law_rpc_handler_asks_the_filter(
    state: AppState,
    chain: &str,
    body: &[u8],
    slug: &'static str,
    verdict: Result<(), AppError>,
    r: Result<UpstreamRequest, AppError>,
)
    requires
        call_ensures(AppState::resolve_chain, (&state, chain), Some(slug)),
        call_ensures(reject_denied_methods, (body,), verdict),
        call_ensures(rpc_handler, (&state, chain, body), r),
        state.method_denylist,
    ensures
        verdict is Ok <==> r is Ok,
        verdict matches Err(e) ==> r == Err::<UpstreamRequest, AppError>(e),
{
}

proof fn lemma_first(state: AppState, name: Seq<char>, answers: spec_fn(int) -> bool, i: int)
    requires
        forall|j: int| #[trigger]
            answers(j) <==> 0 <= j < state.chains@.len() && (state.chains@[j].slug@ == name
                || exists|k: int|
                0 <= k < state.chains@[j].aliases@.len() && #[trigger] state.chains@[j].aliases@[k]@
                    == name),
        answers(i),
        forall|j: int| j < i ==> !#[trigger] answers(j),
    ensures
        0 <= i < state@.chains.len(),
        state@.chains[i].slug == state.chains@[i].slug@,
        state@.chains[i].slug == name || state@.chains[i].aliases.contains(name),
        forall|j: int|
            0 <= j < i ==> (#[trigger] state@.chains[j]).slug != name
                && !state@.chains[j].aliases.contains(name),
{
    lemma_answers(state, name, answers);
    assert(state@.chains[i].slug == state.chains@[i].slug@);
    assert forall|j: int| 0 <= j < i implies (#[trigger] state@.chains[j]).slug != name
        && !state@.chains[j].aliases.contains(name) by {
        assert(!answers(j));
    }
}

proof fn lemma_reasons(methods: Seq<Option<Seq<char>>>)
    ensures
        crate::routes::batch_verdict(methods) matches Err(e) ==> e == AppError::MethodNotAllowed || e
            == AppError::BadRequest("missing method"),
    decreases methods.len(),
{
    if methods.len() > 0 {
        lemma_reasons(methods.drop_first());
    }
}

proof fn lemma_reasons_of_bytes(bytes: Seq<u8>)
    ensures
        crate::routes::bytes_verdict(bytes) matches Err(e) ==> e == AppError::MethodNotAllowed || e
            == AppError::BadRequest("missing method") || e == AppError::BadRequest(
            "invalid JSON-RPC body",
        ),
{
    if let Some(crate::routes::BodyModel::Batch(methods)) = crate::routes::bytes_body(bytes) {
        lemma_reasons(methods);
    }
}

/// `guarded_rpc_handler` decides as `rpc_handler` does, and declines to decide only where the filter
/// is on, the chain is known and the body is not shallow.
pub proof fn law_guarded_rpc_handler(
    state: AppState,
    chain: &str,
    body: &[u8],
    slug: Option<&'static str>,
    guarded: Option<Result<UpstreamRequest, AppError>>,
    r: Result<UpstreamRequest, AppError>,
)
    requires
        call_ensures(AppState::resolve_chain, (&state, chain), slug),
        call_ensures(guarded_rpc_handler, (&state, chain, body), guarded),
        call_ensures(rpc_handler, (&state, chain, body), r),
    ensures
        guarded is None <==> state.method_denylist && slug is Some && !shallow(body@),
        guarded matches Some(decision) ==> match (decision, r) {
            (Ok(a), Ok(b)) => a@ == b@,
            (Err(a), Err(b)) => a == b,
            _ => false,
        },
{
}

/// `is_shallow` tells the bytes on which the reader recurses little.
pub proof fn law_is_shallow(bytes: &[u8], r: bool)
    requires
        call_ensures(is_shallow, (bytes,), r),
    ensures
        r <==> shallow(bytes@),
{
}

// ---- the wallet routes -------------------------------------------------------

/// `is_valid_eth_address` accepts `0x` and forty of the characters `0` to `9`, `a` to `f` and `A` to
/// `F`, in any mixture, and nothing else.
pub proof fn law_is_valid_eth_address(address: &str, r: bool)
    requires
        call_ensures(is_valid_eth_address, (address,), r),
    ensures
        r <==> address@.len() == 42 && address@[0] as int == 48 && address@[1] as int == 120 && (forall|k: int|
            2 <= k < 42 ==> (48 <= #[trigger] address@[k] as int <= 57 || 97 <= address@[k] as int
                <= 102 || 65 <= address@[k] as int <= 70)),
{
    law_address_character_by_character(address@);
}

/// The case of a letter behind the `0x` makes no difference to `is_valid_eth_address`.
pub proof fn law_is_valid_eth_address_in_either_case(a: &str, b: &str, i: int, r: bool, s: bool)
    requires
        call_ensures(is_valid_eth_address, (a,), r),
        call_ensures(is_valid_eth_address, (b,), s),
        2 <= i < a@.len(),
        b@ == a@.update(i, b@[i]),
        (65 <= a@[i] as int <= 90 && b@[i] as int == a@[i] as int + 32) || (97 <= a@[i] as int <= 122
            && b@[i] as int == a@[i] as int - 32),
    ensures
        r == s,
{
    crate::laws::law_address_in_either_case(a@, i, b@[i]);
}

/// `balances_handler` and `history_handler` ask the first chain that answers to the caller's name,
/// where the address is one, about that address, each at its own path, and put the caller's query
/// behind a question mark. Any other address is refused.
pub proof fn law_wallet_handlers(
    state: AppState,
    chain: &str,
    name: Seq<char>,
    answers: spec_fn(int) -> bool,
    i: int,
    address: &str,
    query: Option<&str>,
    asked: Seq<char>,
    balances: Result<UpstreamRequest, AppError>,
    history: Result<UpstreamRequest, AppError>,
)
    requires
        call_ensures(balances_handler, (&state, chain, address, query), balances),
        call_ensures(history_handler, (&state, chain, address, query), history),
        name.len() == chain@.len(),
        forall|k: int|
            0 <= k < chain@.len() ==> #[trigger] name[k] as int == chain@[k] as int + (if 65
                <= chain@[k] as int <= 90 {
                32int
            } else {
                0
            }),
        forall|j: int| #[trigger]
            answers(j) <==> 0 <= j < state.chains@.len() && (state.chains@[j].slug@ == name
                || exists|k: int|
                0 <= k < state.chains@[j].aliases@.len() && #[trigger] state.chains@[j].aliases@[k]@
                    == name),
        answers(i),
        forall|j: int| j < i ==> !#[trigger] answers(j),
        match query {
            Some(q) => asked == (if q@.len() > 0 {
                "?"@ + q@
            } else {
                Seq::empty()
            }),
            None => asked.len() == 0,
        },
    ensures
        balances is Ok <==> address@.len() == 42 && address@[0] as int == 48 && address@[1] as int == 120 && (forall|k: int|
            2 <= k < 42 ==> (48 <= #[trigger] address@[k] as int <= 57 || 97 <= address@[k] as int
                <= 102 || 65 <= address@[k] as int <= 70)),
        history is Ok <==> balances is Ok,
        balances matches Err(e) ==> e == AppError::BadAddress,
        history matches Err(e) ==> e == AppError::BadAddress,
        balances matches Ok(request) ==> {
            &&& request.method == Method::Get
            &&& request.url@ == state.drpc@.base + "/"@ + state.chains@[i].slug@ + "/"@
                + state.drpc@.key + "/"@ + "lambda/v2/wallets"@ + "/"@ + address@ + "/"@ + "balances"@
                + asked
            &&& request.body is None
            &&& request.headers@.len() == 2
            &&& request.headers@[0].0@ == "user-agent"@
            &&& request.headers@[0].1@ == "kao-proxy/0.1"@
            &&& request.headers@[1].0@ == "accept"@
            &&& request.headers@[1].1@ == "application/json"@
        },
        history matches Ok(request) ==> {
            &&& request.method == Method::Get
            &&& request.url@ == state.drpc@.base + "/"@ + state.chains@[i].slug@ + "/"@
                + state.drpc@.key + "/"@ + "lambda/v1/transactions"@ + "/"@ + address@ + "/"@
                + "history"@ + asked
            &&& request.body is None
            &&& request.headers@.len() == 2
            &&& request.headers@[0].0@ == "user-agent"@
            &&& request.headers@[0].1@ == "kao-proxy/0.1"@
            &&& request.headers@[1].0@ == "accept"@
            &&& request.headers@[1].1@ == "application/json"@
        },
{
    lemma_first(state, name, answers, i);
    let said = match query {
        Some(q) => Some(q@),
        None => None,
    };
    law_wallet_asks_the_named_chain(state@, chain@, name, i, address@, said, asked);
    if let Ok(request) = balances {
        crate::laws::law_what_a_request_says(request, 0);
        crate::laws::law_what_a_request_says(request, 1);
    }
    if let Ok(request) = history {
        crate::laws::law_what_a_request_says(request, 0);
        crate::laws::law_what_a_request_says(request, 1);
    }
}

/// Every route tells a caller who names no chain that the chain is unknown.
pub proof fn law_handlers_refuse_unknown_chains(
    state: AppState,
    chain: &str,
    name: Seq<char>,
    answers: spec_fn(int) -> bool,
    body: &[u8],
    address: &str,
    query: Option<&str>,
    rpc: Result<UpstreamRequest, AppError>,
    balances: Result<UpstreamRequest, AppError>,
    history: Result<UpstreamRequest, AppError>,
)
    requires
        call_ensures(rpc_handler, (&state, chain, body), rpc),
        call_ensures(balances_handler, (&state, chain, address, query), balances),
        call_ensures(history_handler, (&state, chain, address, query), history),
        name.len() == chain@.len(),
        forall|k: int|
            0 <= k < chain@.len() ==> #[trigger] name[k] as int == chain@[k] as int + (if 65
                <= chain@[k] as int <= 90 {
                32int
            } else {
                0
            }),
        forall|j: int| #[trigger]
            answers(j) <==> 0 <= j < state.chains@.len() && (state.chains@[j].slug@ == name
                || exists|k: int|
                0 <= k < state.chains@[j].aliases@.len() && #[trigger] state.chains@[j].aliases@[k]@
                    == name),
        forall|j: int| !#[trigger] answers(j),
    ensures
        rpc matches Err(e) && e == AppError::UnknownChain,
        balances matches Err(e) && e == AppError::UnknownChain,
        history matches Err(e) && e == AppError::UnknownChain,
{
    lemma_answers(state, name, answers);
    assert forall|j: int| 0 <= j < state@.chains.len() implies (#[trigger] state@.chains[j]).slug
        != name && !state@.chains[j].aliases.contains(name) by {
        assert(!answers(j));
    }
    let said = match query {
        Some(q) => Some(q@),
        None => None,
    };
    law_name_of_no_chain_is_refused(state@, chain@, name, body@, address@, said);
}

// ---- requests to the provider ------------------------------------------------

/// What a `Drpc` was made of is in its requests: the URL of a passed-on body is the base, the chain
/// and the key, with a slash between each two.
pub proof fn law_drpc_rpc(
    base: String,
    key: Key,
    secret: &str,
    drpc: Drpc,
    chain: &str,
    body: &[u8],
    request: UpstreamRequest,
)
    requires
        call_ensures(Key::new, (secret,), key),
        call_ensures(Drpc::new, (base, key), drpc),
        call_ensures(Drpc::rpc, (&drpc, chain, body), request),
    ensures
        request.method == Method::Post,
        request.url@ == base@ + "/"@ + chain@ + "/"@ + secret@,
        request.body matches Some(sent) && sent@ == body@,
        request.headers@.len() == 2,
        request.headers@[0].0@ == "user-agent"@ && request.headers@[0].1@ == "kao-proxy/0.1"@,
        request.headers@[1].0@ == "content-type"@ && request.headers@[1].1@ == "application/json"@,
{
    crate::laws::law_rpc_request_part_by_part(drpc@, chain@, body@);
    crate::laws::law_what_a_request_says(request, 0);
    crate::laws::law_what_a_request_says(request, 1);
}

/// A wallet question lies below the URL at which the same `Drpc` passes bodies on, and a query
/// string, where it is not empty, stands verbatim behind it and a question mark.
pub proof fn law_drpc_wallet(
    drpc: Drpc,
    chain: &str,
    body: &[u8],
    address: &str,
    q: &str,
    rpc: UpstreamRequest,
    balances: (UpstreamRequest, UpstreamRequest),
    history: (UpstreamRequest, UpstreamRequest),
)
    requires
        call_ensures(Drpc::rpc, (&drpc, chain, body), rpc),
        call_ensures(Drpc::balances, (&drpc, chain, address, None), balances.0),
        call_ensures(Drpc::balances, (&drpc, chain, address, Some(q)), balances.1),
        call_ensures(Drpc::transactions, (&drpc, chain, address, None), history.0),
        call_ensures(Drpc::transactions, (&drpc, chain, address, Some(q)), history.1),
    ensures
        balances.0.url@ == rpc.url@ + "/"@ + "lambda/v2/wallets"@ + "/"@ + address@ + "/"@
            + "balances"@,
        history.0.url@ == rpc.url@ + "/"@ + "lambda/v1/transactions"@ + "/"@ + address@ + "/"@
            + "history"@,
        q@.len() > 0 ==> balances.1.url@ == balances.0.url@ + "?"@ + q@,
        q@.len() > 0 ==> history.1.url@ == history.0.url@ + "?"@ + q@,
        q@.len() == 0 ==> balances.1.url@ == balances.0.url@,
        q@.len() == 0 ==> history.1.url@ == history.0.url@,
        balances.1.method == Method::Get && history.1.method == Method::Get,
        balances.1.body is None && history.1.body is None,
{
    crate::laws::law_rpc_request_part_by_part(drpc@, chain@, body@);
    crate::laws::law_wallet_requests_part_by_part(drpc@, chain@, address@, Some(q@));
    crate::laws::law_wallet_requests_forward_the_query(drpc@, chain@, address@, q@);
}

/// What the proxy calls itself, and what it calls the failures of an exchange. The number of a
/// status is the one that `to_decimal` writes.
pub proof fn law_names(
    name: &'static str,
    code: u16,
    number: String,
    transport: String,
    status: String,
    decode: String,
)
    requires
        call_ensures(user_agent, (), name),
        call_ensures(to_decimal, (code as u64,), number),
        call_ensures(UpstreamError::message, (&UpstreamError::Transport,), transport),
        call_ensures(UpstreamError::message, (&UpstreamError::Status(code),), status),
        call_ensures(UpstreamError::message, (&UpstreamError::Decode,), decode),
    ensures
        name@ == "kao-proxy/0.1"@,
        transport@ == "upstream transport error"@,
        status@ == "upstream status "@ + number@,
        decode@ == "upstream decode error"@,
{
}

// ---- the method filter -------------------------------------------------------

/// `check_one` accepts a call that names a method, unless the name begins with one of four prefixes
/// or is one of the two subscription methods: that is not allowed. A call that names none is bad.
pub proof fn law_check_one(method: &str, r: Result<(), AppError>, none: Result<(), AppError>)
    requires
        call_ensures(check_one, (Some(method),), r),
        call_ensures(check_one, (None,), none),
    ensures
        ({
            let m = method@;
            r is Ok <==> !("debug_"@.is_prefix_of(m) || "trace_"@.is_prefix_of(m) || "arbtrace_"@.is_prefix_of(m)
                || "txpool_"@.is_prefix_of(m) || m == "eth_subscribe"@ || m == "eth_unsubscribe"@)
        }),
        r matches Err(e) ==> e == AppError::MethodNotAllowed,
        none matches Err(e) && e == AppError::BadRequest("missing method"),
{
    crate::laws::law_call_by_its_method(method@);
}

/// `check_body` judges a call as `check_one` does, a batch as the first of its calls that is not
/// accepted, and takes everything else for a bad request.
pub proof fn law_check_body(
    methods: Vec<Option<String>>,
    n: int,
    verdicts: Seq<Result<(), AppError>>,
    batch: Result<(), AppError>,
    other: Result<(), AppError>,
)
    requires
        0 <= n <= methods@.len(),
        verdicts.len() == methods@.len(),
        forall|i: int|
            0 <= i < methods@.len() ==> call_ensures(
                check_body,
                (&RpcBody::Call(methods@[i]),),
                #[trigger] verdicts[i],
            ),
        forall|i: int| 0 <= i < n ==> #[trigger] verdicts[i] is Ok,
        call_ensures(check_body, (&RpcBody::Batch(methods),), batch),
        call_ensures(check_body, (&RpcBody::Other,), other),
    ensures
        n == methods@.len() ==> batch is Ok,
        n < methods@.len() && verdicts[n] is Err ==> batch == verdicts[n],
        other matches Err(e) && e == AppError::BadRequest("invalid JSON-RPC body"),
{
    let said = RpcBody::Batch(methods)@->Batch_0;
    assert forall|i: int| 0 <= i < said.len() implies crate::routes::body_verdict(
        crate::routes::BodyModel::Call(#[trigger] said[i]),
    ) == verdicts[i] by {
        assert(call_ensures(check_body, (&RpcBody::Call(methods@[i]),), verdicts[i]));
        assert(RpcBody::Call(methods@[i])@ == crate::routes::BodyModel::Call(said[i]));
    }
    crate::laws::law_body_call_by_call(said, n, None);
}

/// `check_body` judges one call as `check_one` judges its method.
pub proof fn law_check_body_of_a_call(
    name: String,
    text: &str,
    r: Result<(), AppError>,
    alone: Result<(), AppError>,
    nameless: Result<(), AppError>,
)
    requires
        text@ == name@,
        call_ensures(check_body, (&RpcBody::Call(Some(name)),), r),
        call_ensures(check_one, (Some(text),), alone),
        call_ensures(check_body, (&RpcBody::Call(None),), nameless),
    ensures
        r == alone,
        nameless matches Err(e) && e == AppError::BadRequest("missing method"),
{
}

/// `reject_denied_methods` accepts the bytes of an object that names a method that is not denied, and
/// of an array of such objects. What it refuses it refuses for what comes first.
pub proof fn law_reject_denied_methods(
    bytes: &[u8],
    items: Seq<JsonTree>,
    n: int,
    named: spec_fn(JsonTree) -> bool,
    r: Result<(), AppError>,
)
    requires
        call_ensures(reject_denied_methods, (bytes,), r),
        forall|t: JsonTree| #[trigger]
            named(t) <==> (t matches JsonTree::Members(members) && members.contains_key("method"@)
                && (members["method"@] matches JsonTree::Text(m) && !("debug_"@.is_prefix_of(m) || "trace_"@.is_prefix_of(m) || "arbtrace_"@.is_prefix_of(m)
                || "txpool_"@.is_prefix_of(m) || m == "eth_subscribe"@ || m == "eth_unsubscribe"@))),
    ensures
        r is Ok <==> (json_read(bytes@) matches Some(tree) && match tree {
            JsonTree::Members(_) => named(tree),
            JsonTree::List(items) => forall|i: int| 0 <= i < items.len() ==> named(#[trigger] items[i]),
            _ => false,
        }),
        match json_read(bytes@) {
            None | Some(JsonTree::Null) | Some(JsonTree::Bool(_)) | Some(JsonTree::Number) | Some(
                JsonTree::Text(_),
            ) => r matches Err(e) && e == AppError::BadRequest("invalid JSON-RPC body"),
            Some(tree) => (tree == JsonTree::List(items) || (tree is Members && items == seq![tree]))
                && 0 <= n < items.len() && (forall|i: int|
                0 <= i < n ==> named(#[trigger] items[i])) && !named(items[n]) ==> (r matches Err(e) && e
                == (if items[n] matches JsonTree::Members(members) && members.contains_key("method"@)
                && members["method"@] is Text {
                AppError::MethodNotAllowed
            } else {
                AppError::BadRequest("missing method")
            })),
        },
{
    law_bytes_by_what_they_hold(bytes@, named);
    law_bytes_are_refused_for_what_comes_first(bytes@, items, n, named);
}

/// `read_body` reads of an object the method that it names, of an array the methods that its items
/// name, in order, and of everything else only that it is neither.
pub proof fn law_read_body(bytes: &[u8], i: int, body: Option<RpcBody>)
    requires
        call_ensures(read_body, (bytes,), body),
    ensures
        body is None <==> json_read(bytes@) is None,
        json_read(bytes@) matches Some(tree) ==> match tree {
            JsonTree::Members(members) => body matches Some(RpcBody::Call(method)) && (method is Some
                <==> members.contains_key("method"@) && members["method"@] is Text) && (
            method matches Some(name) ==> members["method"@] == JsonTree::Text(name@)),
            JsonTree::List(items) => body matches Some(RpcBody::Batch(methods)) && methods@.len()
                == items.len() && (0 <= i < items.len() ==> match items[i] {
                JsonTree::Members(members) if members.contains_key("method"@)
                    && members["method"@] is Text => methods@[i] matches Some(name)
                    && members["method"@] == JsonTree::Text(name@),
                _ => methods@[i] is None,
            }),
            _ => body matches Some(RpcBody::Other),
        },
{
    crate::laws::law_what_is_read_of_bytes(bytes@, i);
    if let Some(b) = body {
        crate::laws::law_what_a_body_says(b, i);
    }
}

// ---- answers -----------------------------------------------------------------

/// `into_response` tells each error with its own status and message, as JSON.
pub proof fn law_into_response(e: AppError, reply: Reply)
    requires
        call_ensures(AppError::into_response, (e,), reply),
    ensures
        reply.status == (match e {
            AppError::BadAddress | AppError::BadRequest(_) => 400u16,
            AppError::MethodNotAllowed => 403,
            AppError::UnknownChain => 404,
            AppError::Upstream(_) => 502,
        }),
        reply.content_type@ == "application/json"@,
        json_read(reply.body@) == Some(
            JsonTree::Members(
                map![
                    "error"@ => JsonTree::Members(
                        map![
                            "message"@ => JsonTree::Text(
                                match e {
                                    AppError::BadAddress => "invalid ethereum address"@,
                                    AppError::UnknownChain => "unknown chain"@,
                                    AppError::MethodNotAllowed => "rpc method not allowed"@,
                                    AppError::BadRequest(message) => message@,
                                    AppError::Upstream(message) => message@,
                                },
                            ),
                        ],
                    ),
                ],
            ),
        ),
{
}

/// `relay` hands the provider's answer on: its body byte for byte, and its status where that has
/// three digits. A failed exchange is a bad gateway and says how it failed.
pub proof fn law_relay(answer: Result<(u16, Vec<u8>), UpstreamError>, reply: Reply)
    requires
        call_ensures(relay, (answer,), reply),
    ensures
        reply.content_type@ == "application/json"@,
        answer matches Ok((code, body)) ==> reply.body@ == body@ && reply.status == (if 100 <= code
            < 1000 {
            code
        } else {
            502
        }),
        answer matches Err(e) ==> reply.status == 502 && json_read(reply.body@) == Some(
            JsonTree::Members(
                map![
                    "error"@ => JsonTree::Members(
                        map![
                            "message"@ => JsonTree::Text(
                                match e {
                                    UpstreamError::Transport => "upstream transport error"@,
                                    UpstreamError::Status(_) => "upstream status error"@,
                                    UpstreamError::Decode => "upstream decode error"@,
                                },
                            ),
                        ],
                    ),
                ],
            ),
        ),
{
}

/// `json_passthrough` keeps the body and every status of three digits, and `health` says `ok`.
pub proof fn law_json_passthrough(code: u16, body: Vec<u8>, reply: Reply, s: &'static str)
    requires
        call_ensures(json_passthrough, (code, body), reply),
        call_ensures(health, (), s),
    ensures
        reply.content_type@ == "application/json"@,
        reply.body@ == body@,
        reply.status == (if 100 <= code < 1000 {
            code
        } else {
            502
        }),
        s@ == "ok"@,
{
}

// ---- configuration -----------------------------------------------------------

/// The configuration holds the address and the key that it was given, and the chains that the proxy
/// knows. Without a usable address or a key there is none, and the address is looked at first.
pub proof fn law_from_env<A>(
    bind: Result<A, String>,
    vars: EnvVars,
    key: Result<Key, String>,
    r: Result<Config<A>, String>,
    known: Vec<ChainSpec>,
    i: int,
    k: int,
)
    requires
        call_ensures(Config::<A>::from_env, (bind, &vars, key), r),
        call_ensures(default_chains, (), known),
    ensures
        r is Ok <==> bind is Ok && key is Ok,
        bind matches Err(reason) ==> r matches Err(message) && message@ == "BIND_ADDR invalid: "@
            + reason@,
        bind is Ok ==> (key matches Err(reason) ==> r matches Err(message) && message@ == reason@),
        bind matches Ok(address) ==> (r matches Ok(config) ==> config.bind == address),
        key matches Ok(secret) ==> (r matches Ok(config) ==> config.key@ == secret@),
        r matches Ok(config) ==> {
            &&& config.chains@.len() == known@.len()
            &&& 0 <= i < known@.len() ==> {
                &&& config.chains@[i].slug@ == known@[i].slug@
                &&& config.chains@[i].chain_id == known@[i].chain_id
                &&& config.chains@[i].aliases@.len() == known@[i].aliases@.len()
                &&& 0 <= k < known@[i].aliases@.len() ==> config.chains@[i].aliases@[k]@
                    == known@[i].aliases@[k]@
            }
        },
{
    if let Ok(config) = r {
        law_registry_chain_by_chain(config.chains@, i, k);
        law_registry_chain_by_chain(known@, i, k);
    }
}

/// Where `DRPC_BASE` is set, the base URL is a prefix of its text, and all that follows in the text is
/// slashes; the base URL itself ends in none. Where it is not set, it is the provider's public one.
pub proof fn law_from_env_base<A>(
    bind: Result<A, String>,
    vars: EnvVars,
    key: Result<Key, String>,
    config: Config<A>,
)
    requires
        call_ensures(Config::<A>::from_env, (bind, &vars, key), Ok(config)),
    ensures
        vars.drpc_base is None ==> config.drpc_base@ == "https://lb.drpc.live"@,
        vars.drpc_base matches Some(text) ==> {
            &&& config.drpc_base@.is_prefix_of(text@)
            &&& forall|i: int| config.drpc_base@.len() <= i < text@.len() ==> text@[i] == '/'
            &&& config.drpc_base@.len() > 0 ==> config.drpc_base@.last() != '/'
        },
{
    if let Some(text) = vars.drpc_base {
        law_base_is_the_variable(Seq::empty(), Seq::empty(), text@);
        crate::config::law_base_without_trailing_slash(Some(text@));
    }
}

/// The filter is on unless `RPC_METHOD_FILTER` is `off`, and each number is what its own variable
/// denotes, or its default where the variable is not set or denotes none that fits.
pub proof fn law_from_env_settings<A>(
    bind: Result<A, String>,
    vars: EnvVars,
    key: Result<Key, String>,
    config: Config<A>,
)
    requires
        call_ensures(Config::<A>::from_env, (bind, &vars, key), Ok(config)),
    ensures
        config.method_denylist <==> !(vars.method_filter matches Some(text) && text@ == "off"@),
        config.body_limit == (match vars.body_limit {
            Some(text) => match parsed_number(text@, usize::MAX as nat) {
                Some(n) => n,
                None => 1048576nat,
            },
            None => 1048576nat,
        }),
        config.upstream_timeout == (match vars.upstream_timeout {
            Some(text) => match parsed_number(text@, u64::MAX as nat) {
                Some(n) => n,
                None => 20nat,
            },
            None => 20nat,
        }),
        config.connect_timeout == (match vars.connect_timeout {
            Some(text) => match parsed_number(text@, u64::MAX as nat) {
                Some(n) => n,
                None => 8nat,
            },
            None => 8nat,
        }),
{
    if let Some(text) = vars.method_filter {
        law_only_off_turns_the_filter_off(text@);
        reveal_strlit("off");
    }
}

/// `env_u64` and `env_usize` read the number that a text denotes up to the largest of their type, and
/// take the default without one; the address to listen on is the text of its variable.
pub proof fn law_variables_are_read(
    value: Option<String>,
    a: (u64, u64),
    b: (usize, usize),
    vars: EnvVars,
    bind: String,
)
    requires
        call_ensures(env_u64, (&value, a.0), a.1),
        call_ensures(env_usize, (&value, b.0), b.1),
        call_ensures(bind_text, (&vars,), bind),
    ensures
        value is None ==> a.1 == a.0 && b.1 == b.0,
        value matches Some(text) ==> match parsed_number(text@, u64::MAX as nat) {
            Some(n) => a.1 == n,
            None => a.1 == a.0,
        },
        value matches Some(text) ==> match parsed_number(text@, usize::MAX as nat) {
            Some(n) => b.1 == n,
            None => b.1 == b.0,
        },
        vars.bind_addr matches Some(text) ==> bind@ == text@,
        vars.bind_addr is None ==> bind@ == "127.0.0.1:8080"@,
{
}

/// The search begins with the variable that names a file; each source asks for its variable or file.
pub proof fn law_key_queries(source: KeySource, query: KeyQuery<'_>, first: KeySource)
    requires
        call_ensures(KeySource::query, (&source,), query),
        call_ensures(KeySource::first, (), first),
    ensures
        first is FileVar,
        match source {
            KeySource::FileVar => query matches KeyQuery::Var(name) && name@ == "DRPC_KEY_FILE"@,
            KeySource::NamedFile(path) => query matches KeyQuery::File(file) && file@ == path@,
            KeySource::DefaultFile => query matches KeyQuery::File(file) && file@
                == "/run/secrets/drpc_key"@,
            KeySource::KeyVar => query matches KeyQuery::Var(name) && name@ == "DRPC_KEY"@,
        },
{
}

/// `load_key` goes from the variable to the file that it names, and to the mount and the last
/// variable only without it. What a source holds is the key, without the whitespace around it.
pub proof fn law_load_key(
    source: KeySource,
    answer: Result<String, String>,
    step: KeyStep,
    before: Seq<char>,
    middle: Seq<char>,
    after: Seq<char>,
    space: spec_fn(char) -> bool,
)
    requires
        call_ensures(load_key, (source, answer), step),
        answer matches Ok(text) ==> text@ == before + middle + after,
        forall|c: char| #[trigger]
            space(c) <==> (9 <= c as int <= 13 || c as int == 32 || c as int == 133 || c as int
                == 160 || c as int == 5760 || 8192 <= c as int <= 8202 || c as int == 8232
                || c as int == 8233 || c as int == 8239 || c as int == 8287 || c as int == 12288),
        forall|i: int| 0 <= i < before.len() ==> space(#[trigger] before[i]),
        forall|i: int| 0 <= i < after.len() ==> space(#[trigger] after[i]),
        middle.len() > 0 ==> !space(middle.first()) && !space(middle.last()),
    ensures
        match (source, answer) {
            (KeySource::FileVar, Ok(path)) => step matches KeyStep::Ask(KeySource::NamedFile(file))
                && file@ == path@,
            (_, Ok(_)) => step matches KeyStep::Found(key) && key@ == middle,
            (KeySource::FileVar, Err(_)) => step matches KeyStep::Ask(KeySource::DefaultFile),
            (KeySource::DefaultFile, Err(_)) => step matches KeyStep::Ask(KeySource::KeyVar),
            (KeySource::NamedFile(path), Err(reason)) => step matches KeyStep::Failed(message)
                && message@ == "reading DRPC_KEY_FILE "@ + path@ + ": "@ + reason@,
            (KeySource::KeyVar, Err(_)) => step matches KeyStep::Failed(message) && message@
                == "no dRPC key: mount a podman secret and set DRPC_KEY_FILE (or DRPC_KEY for dev)"@,
        },
{
    law_trimmed_is_the_middle(before, middle, after, space);
}

/// Each setting has its variable, and reading all of them leaves none out.
pub proof fn law_settings(setting: Setting, name: &'static str, all: Vec<Setting>, vars: EnvVars)
    requires
        call_ensures(Setting::var, (&setting,), name),
        call_ensures(Setting::all, (), all),
        call_ensures(EnvVars::new, (), vars),
    ensures
        name@ == (match setting {
            Setting::BindAddr => "BIND_ADDR"@,
            Setting::DrpcBase => "DRPC_BASE"@,
            Setting::BodyLimit => "RPC_BODY_LIMIT_BYTES"@,
            Setting::MethodFilter => "RPC_METHOD_FILTER"@,
            Setting::UpstreamTimeout => "UPSTREAM_TIMEOUT_SECS"@,
            Setting::ConnectTimeout => "UPSTREAM_CONNECT_TIMEOUT_SECS"@,
        }),
        all@.contains(setting),
        all@.no_duplicates(),
        vars.bind_addr is None && vars.drpc_base is None && vars.body_limit is None
            && vars.method_filter is None && vars.upstream_timeout is None
            && vars.connect_timeout is None,
{
    crate::laws::law_variables_of_the_settings(setting);
}

/// A key gives back the text that it was made of, and shows the same text whatever that is.
pub proof fn law_key(secret: &str, key: Key, exposed: &str, shown: &'static str)
    requires
        call_ensures(Key::new, (secret,), key),
        call_ensures(Key::expose, (&key,), exposed),
        call_ensures(Key::redacted, (&key,), shown),
    ensures
        exposed@ == secret@,
        shown@ == "Key(***)"@,
{
}

// ---- texts -------------------------------------------------------------------

/// `to_lower` moves each letter `A` to `Z` to the other case and leaves the rest alone; `same_text`
/// and `begins_with` compare character by character.
pub proof fn law_texts(s: &str, t: &str, lower: String, same: bool, begins: bool)
    requires
        call_ensures(to_lower, (s,), lower),
        call_ensures(same_text, (s, t), same),
        call_ensures(begins_with, (s, t), begins),
    ensures
        lower@.len() == s@.len(),
        forall|i: int|
            #![trigger lower@[i]]
            0 <= i < s@.len() ==> lower@[i] as int == s@[i] as int + (if 65 <= s@[i] as int <= 90 {
                32int
            } else {
                0
            }),
        same <==> s@.len() == t@.len() && forall|i: int| 0 <= i < s@.len() ==> s@[i] == t@[i],
        begins <==> t@.len() <= s@.len() && forall|i: int| 0 <= i < t@.len() ==> s@[i] == t@[i],
{
    crate::laws::law_lowered_letter_by_letter(s@);
    if s@.len() == t@.len() && (forall|i: int| 0 <= i < s@.len() ==> s@[i] == t@[i]) {
        assert(s@ == t@);
    }
    if t@.is_prefix_of(s@) {
        assert forall|i: int| 0 <= i < t@.len() implies s@[i] == t@[i] by {
            assert(s@.subrange(0, t@.len() as int)[i] == s@[i]);
        }
    }
    if t@.len() <= s@.len() && (forall|i: int| 0 <= i < t@.len() ==> s@[i] == t@[i]) {
        assert(t@ == s@.subrange(0, t@.len() as int));
    }
}

/// `trim` takes the whitespace off both ends, and `trim_end_of` a character off the end as often as
/// it stands there; neither takes anything else.
pub proof fn law_trims(
    s: &str,
    before: Seq<char>,
    middle: Seq<char>,
    after: Seq<char>,
    space: spec_fn(char) -> bool,
    c: char,
    r: String,
    end: String,
)
    requires
        call_ensures(trim, (s,), r),
        call_ensures(trim_end_of, (s, c), end),
        s@ == before + middle + after,
        forall|c: char| #[trigger]
            space(c) <==> (9 <= c as int <= 13 || c as int == 32 || c as int == 133 || c as int
                == 160 || c as int == 5760 || 8192 <= c as int <= 8202 || c as int == 8232
                || c as int == 8233 || c as int == 8239 || c as int == 8287 || c as int == 12288),
        forall|i: int| 0 <= i < before.len() ==> space(#[trigger] before[i]),
        forall|i: int| 0 <= i < after.len() ==> space(#[trigger] after[i]),
        middle.len() > 0 ==> !space(middle.first()) && !space(middle.last()),
    ensures
        r@ == middle,
        end@.is_prefix_of(s@),
        forall|i: int| end@.len() <= i < s@.len() ==> s@[i] == c,
        end@.len() > 0 ==> end@.last() != c,
{
    law_trimmed_is_the_middle(before, middle, after, space);
    crate::text::law_without_trailing(s@, c);
}

/// `parse_number` reads back what `to_decimal` wrote, up to its bound.
pub proof fn law_numbers(n: u64, max: u64, written: String, s: &str, r: Option<u64>)
    requires
        call_ensures(to_decimal, (n,), written),
        s@ == written@,
        call_ensures(parse_number, (s, max), r),
    ensures
        n <= max ==> r == Some(n),
        n > max ==> r is None,
{
    crate::text::law_decimal_reads_back(n as nat, n as nat);
    crate::laws::law_bound_of_a_number(s@, n as nat, n as nat, max as nat);
}

}
