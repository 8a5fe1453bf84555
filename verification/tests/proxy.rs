//! The proxy from a caller's request to the answer, with the provider played by the test.
use kao_proxy::config::{default_chains, Key};
use kao_proxy::routes::{
    balances_handler, health, history_handler, relay, rpc_handler, AppError, AppState, Reply,
};
use kao_proxy::upstream::{user_agent, Drpc, Method, UpstreamError, UpstreamRequest};
use serde_json::Value;

const BASE: &str = "https://provider.test";
const TEST_KEY: &str = "test-api-key-1234";
const VALID_ADDR: &str = "0xd8da6bf26964af9d7eed9e03e53415d37aa96045";

type Answer = Result<(u16, Vec<u8>), UpstreamError>;

/// What the provider was asked, and what the caller was answered.
struct Exchange {
    asked: Option<UpstreamRequest>,
    reply: Reply,
}

fn state(method_denylist: bool) -> AppState {
    AppState {
        drpc: Drpc::new(BASE.to_string(), Key::new(TEST_KEY)),
        chains: default_chains(),
        method_denylist,
    }
}

fn finish(decision: Result<UpstreamRequest, AppError>, answer: Answer) -> Exchange {
    match decision {
        Ok(request) => Exchange { asked: Some(request), reply: relay(answer) },
        Err(error) => Exchange { asked: None, reply: error.into_response() },
    }
}

fn rpc(filter: bool, chain: &str, body: &str, answer: Answer) -> Exchange {
    finish(rpc_handler(&state(filter), chain, body.as_bytes()), answer)
}

fn balances(chain: &str, address: &str, query: Option<&str>, answer: Answer) -> Exchange {
    finish(balances_handler(&state(true), chain, address, query), answer)
}

fn history(chain: &str, address: &str, query: Option<&str>, answer: Answer) -> Exchange {
    finish(history_handler(&state(true), chain, address, query), answer)
}

fn answer(code: u16, body: &str) -> Answer {
    Ok((code, body.as_bytes().to_vec()))
}

fn json(reply: &Reply) -> Value {
    serde_json::from_slice(&reply.body).unwrap()
}

fn url(exchange: &Exchange) -> String {
    exchange.asked.as_ref().unwrap().url.clone()
}

fn rpc_url(chain: &str) -> String {
    format!("{BASE}/{chain}/{TEST_KEY}")
}

fn balances_url(chain: &str, addr: &str) -> String {
    format!("{BASE}/{chain}/{TEST_KEY}/lambda/v2/wallets/{addr}/balances")
}

/// History lives under `lambda/v1/transactions/{addr}/history`, not under `v2/wallets`.
fn history_url(chain: &str, addr: &str) -> String {
    format!("{BASE}/{chain}/{TEST_KEY}/lambda/v1/transactions/{addr}/history")
}

// ---- health --------------------------------------------------------------------

#[test]
fn health_returns_ok() {
    assert_eq!(health().as_bytes(), b"ok");
}

// ---- JSON-RPC: routing and forwarding ------------------------------------------

#[test]
fn rpc_passthrough_success() {
    let body = r#"{"jsonrpc":"2.0","id":1,"method":"eth_blockNumber","params":[]}"#;
    let x = rpc(true, "ethereum", body, answer(200, r#"{"jsonrpc":"2.0","id":1,"result":"0x134e82a"}"#));
    let asked = x.asked.as_ref().unwrap();
    assert_eq!(asked.method, Method::Post);
    assert_eq!(asked.url, rpc_url("ethereum"));
    assert_eq!(asked.body.as_deref(), Some(body.as_bytes()));
    assert_eq!(x.reply.status, 200);
    assert_eq!(json(&x.reply)["result"], "0x134e82a");
}

#[test]
fn rpc_chain_alias_mainnet_resolves_to_ethereum() {
    let body = r#"{"jsonrpc":"2.0","id":1,"method":"eth_chainId","params":[]}"#;
    let x = rpc(true, "mainnet", body, answer(200, r#"{"jsonrpc":"2.0","id":1,"result":"0x1"}"#));
    assert_eq!(url(&x), rpc_url("ethereum"));
    assert_eq!(x.reply.status, 200);
}

#[test]
fn rpc_chain_alias_numeric_resolves() {
    let body = r#"{"jsonrpc":"2.0","id":1,"method":"eth_chainId","params":[]}"#;
    let x = rpc(true, "1", body, answer(200, r#"{"jsonrpc":"2.0","id":1,"result":"0x1"}"#));
    assert_eq!(url(&x), rpc_url("ethereum"));
    assert_eq!(x.reply.status, 200);
}

#[test]
fn rpc_case_insensitive_chain() {
    let body = r#"{"jsonrpc":"2.0","id":1,"method":"eth_chainId","params":[]}"#;
    let x = rpc(true, "OPTIMISM", body, answer(200, r#"{"jsonrpc":"2.0","id":1,"result":"0xa"}"#));
    assert_eq!(url(&x), rpc_url("optimism"));
    assert_eq!(x.reply.status, 200);
}

#[test]
fn rpc_unknown_chain_returns_404() {
    let body = r#"{"jsonrpc":"2.0","id":1,"method":"eth_blockNumber","params":[]}"#;
    let x = rpc(true, "solana", body, answer(200, "{}"));
    assert!(x.asked.is_none());
    assert_eq!(x.reply.status, 404);
    assert_eq!(json(&x.reply)["error"]["message"], "unknown chain");
}

#[test]
fn rpc_upstream_status_is_forwarded() {
    let body = r#"{"jsonrpc":"2.0","id":1,"method":"eth_blockNumber","params":[]}"#;
    let limited = r#"{"jsonrpc":"2.0","id":1,"error":{"code":-32005,"message":"rate limited"}}"#;
    let x = rpc(true, "ethereum", body, answer(429, limited));
    assert_eq!(url(&x), rpc_url("ethereum"));
    assert_eq!(x.reply.status, 429);
    assert_eq!(x.reply.body, limited.as_bytes());
}

// ---- JSON-RPC: method filter ---------------------------------------------------

#[test]
fn rpc_denies_debug_method() {
    let body = r#"{"jsonrpc":"2.0","id":1,"method":"debug_traceTransaction","params":["0xabc"]}"#;
    let x = rpc(true, "ethereum", body, answer(200, "{}"));
    assert!(x.asked.is_none());
    assert_eq!(x.reply.status, 403);
    assert_eq!(json(&x.reply)["error"]["message"], "rpc method not allowed");
}

#[test]
fn rpc_denies_trace_method() {
    let body = r#"{"jsonrpc":"2.0","id":1,"method":"trace_block","params":["latest"]}"#;
    assert_eq!(rpc(true, "ethereum", body, answer(200, "{}")).reply.status, 403);
}

#[test]
fn rpc_denies_txpool_method() {
    let body = r#"{"jsonrpc":"2.0","id":1,"method":"txpool_status","params":[]}"#;
    assert_eq!(rpc(true, "ethereum", body, answer(200, "{}")).reply.status, 403);
}

#[test]
fn rpc_denies_eth_subscribe() {
    let body = r#"{"jsonrpc":"2.0","id":1,"method":"eth_subscribe","params":["newHeads"]}"#;
    assert_eq!(rpc(true, "ethereum", body, answer(200, "{}")).reply.status, 403);
}

#[test]
fn rpc_denies_arbtrace_method() {
    let body = r#"{"jsonrpc":"2.0","id":1,"method":"arbtrace_replayTransaction","params":[]}"#;
    assert_eq!(rpc(true, "ethereum", body, answer(200, "{}")).reply.status, 403);
}

#[test]
fn rpc_denies_method_in_batch() {
    // One allowed and one denied method: the entire batch is rejected.
    let body = r#"[
        {"jsonrpc":"2.0","id":1,"method":"eth_blockNumber","params":[]},
        {"jsonrpc":"2.0","id":2,"method":"debug_traceTransaction","params":["0xabc"]}
    ]"#;
    let x = rpc(true, "ethereum", body, answer(200, "{}"));
    assert!(x.asked.is_none());
    assert_eq!(x.reply.status, 403);
}

#[test]
fn rpc_allows_standard_method() {
    let body = r#"{"jsonrpc":"2.0","id":1,"method":"eth_estimateGas","params":[{}]}"#;
    let x = rpc(true, "ethereum", body, answer(200, r#"{"jsonrpc":"2.0","id":1,"result":"0x5208"}"#));
    assert_eq!(url(&x), rpc_url("ethereum"));
    assert_eq!(x.reply.status, 200);
}

#[test]
fn rpc_filter_disabled_allows_debug() {
    let body = r#"{"jsonrpc":"2.0","id":1,"method":"debug_traceTransaction","params":["0xabc"]}"#;
    let x = rpc(false, "ethereum", body, answer(200, r#"{"jsonrpc":"2.0","id":1,"result":{}}"#));
    assert_eq!(url(&x), rpc_url("ethereum"));
    assert_eq!(x.reply.status, 200);
}

// ---- JSON-RPC: input validation ------------------------------------------------

#[test]
fn rpc_invalid_json_body() {
    let x = rpc(true, "ethereum", "not json at all", answer(200, "{}"));
    assert!(x.asked.is_none());
    assert_eq!(x.reply.status, 400);
    assert_eq!(json(&x.reply)["error"]["message"], "invalid JSON-RPC body");
}

#[test]
fn rpc_missing_method_field() {
    let x = rpc(true, "ethereum", r#"{"jsonrpc":"2.0","id":1,"params":[]}"#, answer(200, "{}"));
    assert!(x.asked.is_none());
    assert_eq!(x.reply.status, 400);
    assert_eq!(json(&x.reply)["error"]["message"], "missing method");
}

#[test]
fn rpc_non_object_non_array_body() {
    // A bare JSON string is neither an object nor an array.
    let x = rpc(true, "ethereum", "\"hello\"", answer(200, "{}"));
    assert!(x.asked.is_none());
    assert_eq!(x.reply.status, 400);
}

// ---- balances ------------------------------------------------------------------

#[test]
fn balances_passthrough_returns_upstream_body() {
    let body = r#"{"data":{"assets":[{"type":"token"}]}}"#;
    let x = balances("optimism", VALID_ADDR, None, answer(200, body));
    let asked = x.asked.as_ref().unwrap();
    assert_eq!(asked.method, Method::Get);
    assert_eq!(asked.url, balances_url("optimism", VALID_ADDR));
    assert_eq!(asked.body, None);
    assert_eq!(x.reply.status, 200);
    assert_eq!(x.reply.content_type, "application/json");
    // The body is returned verbatim, in no envelope.
    assert_eq!(x.reply.body, body.as_bytes());
}

#[test]
fn balances_resolves_chain_alias() {
    let x = balances("mainnet", VALID_ADDR, None, answer(200, r#"{"data":{"assets":[]}}"#));
    assert_eq!(url(&x), balances_url("ethereum", VALID_ADDR));
    assert_eq!(x.reply.status, 200);
}

#[test]
fn balances_forwards_upstream_error_status_and_body() {
    // The provider's free-tier rejection: status and diagnostic body reach the wallet intact.
    let body = r#"{"message":"method is not available on freetier","code":35}"#;
    let x = balances("ethereum", VALID_ADDR, None, answer(403, body));
    assert_eq!(url(&x), balances_url("ethereum", VALID_ADDR));
    assert_eq!(x.reply.status, 403);
    assert_eq!(json(&x.reply)["code"], 35);
}

#[test]
fn balances_forwards_query_string() {
    let query = "asset_type=TOKEN&include_zero_price_tokens=false";
    let x = balances("base", VALID_ADDR, Some(query), answer(200, r#"{"data":{"assets":[]}}"#));
    assert_eq!(x.reply.status, 200);
    assert_eq!(url(&x), format!("{}?{query}", balances_url("base", VALID_ADDR)));
}

#[test]
fn balances_invalid_address_too_short() {
    let x = balances("ethereum", "0xdead", None, answer(200, "{}"));
    assert!(x.asked.is_none());
    assert_eq!(x.reply.status, 400);
    assert_eq!(json(&x.reply)["error"]["message"], "invalid ethereum address");
}

#[test]
fn balances_invalid_address_non_hex() {
    // `0x` and forty characters, but not all of them hexadecimal.
    let x = balances("ethereum", "0xzz00000000000000000000000000000000000000", None, answer(200, "{}"));
    assert!(x.asked.is_none());
    assert_eq!(x.reply.status, 400);
}

#[test]
fn wallet_unknown_chain_returns_404() {
    let x = balances("solana", VALID_ADDR, None, answer(200, "{}"));
    assert!(x.asked.is_none());
    assert_eq!(x.reply.status, 404);
    assert_eq!(json(&x.reply)["error"]["message"], "unknown chain");
}

// ---- history -------------------------------------------------------------------

#[test]
fn history_passthrough_uses_v1_transactions_path() {
    let body = r#"{"data":[{"hash":"0xabc","type":"receive"}]}"#;
    let x = history("ethereum", VALID_ADDR, None, answer(200, body));
    assert_eq!(url(&x), history_url("ethereum", VALID_ADDR));
    assert_eq!(x.reply.status, 200);
    assert_eq!(x.reply.body, body.as_bytes());
}

#[test]
fn history_forwards_limit_query() {
    let x = history("base", VALID_ADDR, Some("limit=25"), answer(200, r#"{"data":[]}"#));
    assert_eq!(x.reply.status, 200);
    assert_eq!(url(&x), format!("{}?limit=25", history_url("base", VALID_ADDR)));
}

#[test]
fn history_invalid_address() {
    let x = history("ethereum", "not-an-address", None, answer(200, "{}"));
    assert!(x.asked.is_none());
    assert_eq!(x.reply.status, 400);
    assert_eq!(json(&x.reply)["error"]["message"], "invalid ethereum address");
}

// ---- privacy -------------------------------------------------------------------

#[test]
fn rpc_does_not_leak_client_headers() {
    let body = r#"{"jsonrpc":"2.0","id":1,"method":"eth_blockNumber","params":[]}"#;
    let x = rpc(true, "ethereum", body, answer(200, r#"{"jsonrpc":"2.0","id":1,"result":"0x1"}"#));
    assert_eq!(x.reply.status, 200);
    let asked = x.asked.as_ref().unwrap();
    for name in ["x-forwarded-for", "cookie", "origin", "referer"] {
        assert!(asked.headers.iter().all(|header| header.0 != name));
    }
    // The proxy sets its own User-Agent.
    let agents: Vec<&str> =
        asked.headers.iter().filter(|header| header.0 == "user-agent").map(|header| header.1).collect();
    assert_eq!(agents.len(), 1);
    assert!(agents[0].starts_with("kao-proxy"), "unexpected user-agent: {}", agents[0]);
    assert_eq!(
        asked.headers,
        vec![("user-agent", "kao-proxy/0.1"), ("content-type", "application/json")],
    );
}

#[test]
fn the_user_agent_is_the_proxys_own() {
    assert_eq!(user_agent(), "kao-proxy/0.1");
    for x in [
        rpc(false, "base", "anything", answer(200, "{}")),
        balances("base", VALID_ADDR, None, answer(200, "{}")),
        history("base", VALID_ADDR, Some("limit=1"), answer(200, "{}")),
    ] {
        assert!(x.asked.unwrap().headers.contains(&("user-agent", user_agent())));
    }
}

#[test]
fn wallet_requests_ask_for_json_and_nothing_more() {
    let wanted = vec![("user-agent", "kao-proxy/0.1"), ("accept", "application/json")];
    let x = balances("base", VALID_ADDR, None, answer(200, "{}"));
    assert_eq!(x.asked.as_ref().unwrap().headers, wanted);
    let x = history("base", VALID_ADDR, None, answer(200, "{}"));
    assert_eq!(x.asked.as_ref().unwrap().headers, wanted);
}

#[test]
fn no_refusal_shows_the_key() {
    let bodies = ["", "null", "[{}]", r#"{"method":"debug_x"}"#];
    for body in bodies {
        let x = rpc(true, "ethereum", body, answer(200, "{}"));
        assert!(x.asked.is_none());
        let text = String::from_utf8(x.reply.body).unwrap();
        assert!(!text.contains(TEST_KEY) && !text.contains(BASE));
    }
    let failed = rpc(true, "base", r#"{"method":"eth_call"}"#, Err(UpstreamError::Transport));
    assert!(failed.asked.is_some());
    let text = String::from_utf8(failed.reply.body).unwrap();
    assert!(!text.contains(TEST_KEY) && !text.contains(BASE));
}

// ---- error answers -------------------------------------------------------------

#[test]
fn error_responses_use_json_envelope() {
    let x = balances("ethereum", "bad", None, answer(200, "{}"));
    assert_eq!(x.reply.status, 400);
    let body = json(&x.reply);
    assert!(body.get("error").is_some(), "missing error key");
    assert!(body["error"].get("message").is_some(), "missing error.message");
    assert!(body["error"]["message"].is_string(), "error.message not a string");
}

#[test]
fn error_bodies_are_exact() {
    let cases = [
        (AppError::BadAddress, 400, r#"{"error":{"message":"invalid ethereum address"}}"#),
        (AppError::UnknownChain, 404, r#"{"error":{"message":"unknown chain"}}"#),
        (AppError::MethodNotAllowed, 403, r#"{"error":{"message":"rpc method not allowed"}}"#),
        (AppError::BadRequest("missing method"), 400, r#"{"error":{"message":"missing method"}}"#),
        (AppError::BadRequest("a \"b\"\n\u{e9}"), 400, "{\"error\":{\"message\":\"a \\\"b\\\"\\n\u{e9}\"}}"),
        (AppError::Upstream("down"), 502, r#"{"error":{"message":"down"}}"#),
    ];
    for (error, status, body) in cases {
        let reply = error.into_response();
        assert_eq!(reply.status, status);
        assert_eq!(reply.content_type, "application/json");
        assert_eq!(String::from_utf8(reply.body).unwrap(), body);
    }
}

#[test]
fn transport_failure_is_a_bad_gateway() {
    let body = r#"{"jsonrpc":"2.0","id":1,"method":"eth_blockNumber","params":[]}"#;
    let x = rpc(true, "ethereum", body, Err(UpstreamError::Transport));
    assert_eq!(x.reply.status, 502);
    assert_eq!(x.reply.content_type, "application/json");
    assert_eq!(x.reply.body, br#"{"error":{"message":"upstream transport error"}}"#);
}

// ---- batches and content type --------------------------------------------------

#[test]
fn rpc_batch_passthrough_success() {
    let body = r#"[
        {"jsonrpc":"2.0","id":1,"method":"eth_blockNumber","params":[]},
        {"jsonrpc":"2.0","id":2,"method":"eth_chainId","params":[]}
    ]"#;
    let upstream = r#"[
        {"jsonrpc":"2.0","id":1,"result":"0x134e82a"},
        {"jsonrpc":"2.0","id":2,"result":"0x1"}
    ]"#;
    let x = rpc(true, "ethereum", body, answer(200, upstream));
    assert_eq!(url(&x), rpc_url("ethereum"));
    assert_eq!(x.asked.as_ref().unwrap().body.as_deref(), Some(body.as_bytes()));
    assert_eq!(x.reply.status, 200);
    let json = json(&x.reply);
    assert!(json.is_array(), "batch response should be an array");
    assert_eq!(json.as_array().unwrap().len(), 2);
}

#[test]
fn rpc_response_has_json_content_type() {
    let body = r#"{"jsonrpc":"2.0","id":1,"method":"eth_blockNumber","params":[]}"#;
    let x = rpc(true, "ethereum", body, answer(200, r#"{"jsonrpc":"2.0","id":1,"result":"0x1"}"#));
    assert_eq!(x.reply.status, 200);
    assert_eq!(x.reply.content_type, "application/json");
}

#[test]
fn chain_is_checked_before_body_and_address() {
    assert_eq!(rpc(true, "solana", "not json", answer(200, "{}")).reply.status, 404);
    assert_eq!(balances("solana", "bad", None, answer(200, "{}")).reply.status, 404);
    assert_eq!(history("solana", "bad", None, answer(200, "{}")).reply.status, 404);
}

#[test]
fn filter_off_passes_what_is_no_json() {
    let x = rpc(false, "base", "not json at all", answer(400, "nope"));
    assert_eq!(x.asked.as_ref().unwrap().body.as_deref(), Some(&b"not json at all"[..]));
    assert_eq!(x.reply.status, 400);
    assert_eq!(x.reply.body, b"nope");
}

#[test]
fn empty_query_is_as_none() {
    let x = balances("base", VALID_ADDR, Some(""), answer(200, "{}"));
    assert_eq!(url(&x), balances_url("base", VALID_ADDR));
}

#[test]
fn aliases_make_the_same_request() {
    for name in ["optimism", "op", "OP", "10"] {
        let x = rpc(true, name, r#"{"method":"eth_call"}"#, answer(200, "{}"));
        let asked = x.asked.as_ref().unwrap();
        assert_eq!(asked.url, rpc_url("optimism"));
        assert_eq!(asked.body.as_deref(), Some(&br#"{"method":"eth_call"}"#[..]));
        let x = history(name, VALID_ADDR, Some("limit=1"), answer(200, "{}"));
        assert_eq!(url(&x), format!("{}?limit=1", history_url("optimism", VALID_ADDR)));
    }
}

#[test]
fn every_url_lies_below_its_chain() {
    let x = balances("base", VALID_ADDR, Some("a=b"), answer(200, "{}"));
    assert!(url(&x).starts_with(&rpc_url("base")));
    let x = history("base", VALID_ADDR, None, answer(200, "{}"));
    assert!(url(&x).starts_with(&rpc_url("base")));
}

#[test]
fn wallet_routes_refuse_alike() {
    for (chain, address) in [("solana", VALID_ADDR), ("base", "0x1"), ("solana", "0x1")] {
        let b = balances(chain, address, None, answer(200, "{}"));
        let h = history(chain, address, None, answer(200, "{}"));
        assert!(b.asked.is_none() && h.asked.is_none());
        assert_eq!(b.reply.status, h.reply.status);
        assert_eq!(b.reply.body, h.reply.body);
    }
}
