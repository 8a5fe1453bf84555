//! The rules of the proxy one by one, at their edges.
use kao_proxy::config::{default_chains, Key};
use kao_proxy::nesting::is_shallow;
use kao_proxy::routes::{
    check_body, check_one, guarded_rpc_handler, is_valid_eth_address, json_passthrough, read_body,
    reject_denied_methods, relay, AppError, AppState, RpcBody,
};
use kao_proxy::upstream::{Drpc, UpstreamError};

fn state() -> AppState {
    AppState {
        drpc: Drpc::new("https://p".to_string(), Key::new("k")),
        chains: default_chains(),
        method_denylist: true,
    }
}

#[test]
fn every_default_name_resolves() {
    let names = [
        ("ethereum", "ethereum"),
        ("mainnet", "ethereum"),
        ("eth", "ethereum"),
        ("1", "ethereum"),
        ("optimism", "optimism"),
        ("op", "optimism"),
        ("10", "optimism"),
        ("base", "base"),
        ("8453", "base"),
        ("MainNet", "ethereum"),
        ("OP", "optimism"),
        ("bAsE", "base"),
    ];
    for (name, slug) in names {
        assert_eq!(state().resolve_chain(name), Some(slug));
    }
    for name in ["", "ethereum ", "ethereu", "2", "0x1", "\u{212a}", "solana"] {
        assert_eq!(state().resolve_chain(name), None);
    }
}

#[test]
fn chain_ids_are_aliases() {
    for chain in default_chains() {
        assert_eq!(state().resolve_chain(&chain.chain_id.to_string()), Some(chain.slug));
        for alias in chain.aliases {
            assert_eq!(state().resolve_chain(alias), Some(chain.slug));
        }
    }
}

#[test]
fn first_of_two_chains_with_a_name_wins() {
    let mut state = state();
    state.chains.reverse();
    state.chains.push(kao_proxy::config::ChainSpec { slug: "late", chain_id: 7, aliases: &["base", "late"] });
    assert_eq!(state.resolve_chain("base"), Some("base"));
    assert_eq!(state.resolve_chain("LATE"), Some("late"));
    state.chains.clear();
    assert_eq!(state.resolve_chain("base"), None);
}

#[test]
fn addresses() {
    assert!(is_valid_eth_address("0xd8da6bf26964af9d7eed9e03e53415d37aa96045"));
    assert!(is_valid_eth_address("0xD8DA6BF26964AF9D7EED9E03E53415D37AA96045"));
    assert!(!is_valid_eth_address(""));
    assert!(!is_valid_eth_address("0x"));
    assert!(!is_valid_eth_address("0Xd8da6bf26964af9d7eed9e03e53415d37aa96045"));
    assert!(!is_valid_eth_address("d8da6bf26964af9d7eed9e03e53415d37aa9604500"));
    assert!(!is_valid_eth_address("0xd8da6bf26964af9d7eed9e03e53415d37aa9604"));
    assert!(!is_valid_eth_address("0xd8da6bf26964af9d7eed9e03e53415d37aa960455"));
    assert!(!is_valid_eth_address("0xd8da6bf26964af9d7eed9e03e53415d37aa9604g"));
    // 42 bytes, though not 42 characters, and 42 characters, though not 42 bytes.
    assert!(!is_valid_eth_address("0xd8da6bf26964af9d7eed9e03e53415d37aa960\u{e9}"));
    assert!(!is_valid_eth_address("0xd8da6bf26964af9d7eed9e03e53415d37aa9604\u{e9}"));
}

#[test]
fn denied_methods() {
    for method in [
        "debug_", "debug_x", "trace_call", "arbtrace_x", "txpool_content", "eth_subscribe",
        "eth_unsubscribe",
    ] {
        assert_eq!(check_one(Some(method)), Err(AppError::MethodNotAllowed));
    }
    for method in [
        "", "debug", "Debug_x", "xdebug_x", "eth_subscribe2", "eth_subscrib", "trace", "eth_call",
    ] {
        assert_eq!(check_one(Some(method)), Ok(()));
    }
    assert_eq!(check_one(None), Err(AppError::BadRequest("missing method")));
}

#[test]
fn bodies_are_judged() {
    let named = |name: &str| Some(name.to_string());
    assert_eq!(check_body(&RpcBody::Call(named("eth_call"))), Ok(()));
    assert_eq!(check_body(&RpcBody::Call(None)), Err(AppError::BadRequest("missing method")));
    assert_eq!(check_body(&RpcBody::Batch(vec![])), Ok(()));
    assert_eq!(check_body(&RpcBody::Other), Err(AppError::BadRequest("invalid JSON-RPC body")));
    // The first refused call decides.
    assert_eq!(
        check_body(&RpcBody::Batch(vec![named("eth_call"), None, named("debug_x")])),
        Err(AppError::BadRequest("missing method")),
    );
    assert_eq!(
        check_body(&RpcBody::Batch(vec![named("eth_call"), named("debug_x"), None])),
        Err(AppError::MethodNotAllowed),
    );
    assert_eq!(check_body(&RpcBody::Batch(vec![named("debug_x")])), Err(AppError::MethodNotAllowed));
}

#[test]
fn bodies_are_read() {
    let methods = |text: &str| match read_body(text.as_bytes()) {
        Some(RpcBody::Call(method)) => vec![method],
        Some(RpcBody::Batch(methods)) => methods,
        Some(RpcBody::Other) => vec![Some("other".to_string())],
        None => vec![Some("none".to_string())],
    };
    let named = |name: &str| Some(name.to_string());
    assert_eq!(methods(r#"{"method":"a"}"#), vec![named("a")]);
    assert_eq!(methods(r#"{"Method":"a"}"#), vec![None]);
    assert_eq!(methods(r#"{"method":7}"#), vec![None]);
    assert_eq!(methods(r#"{"method":null}"#), vec![None]);
    // The last of two members of one name counts.
    assert_eq!(methods(r#"{"method":"a","method":"b"}"#), vec![named("b")]);
    assert_eq!(methods(r#"{"method":"\u0064ebug_x"}"#), vec![named("debug_x")]);
    assert_eq!(methods(r#"[{"method":"a"},5,[],{"x":{"method":"b"}},{"method":"c"}]"#),
        vec![named("a"), None, None, None, named("c")]);
    assert_eq!(methods("[]"), vec![]);
    for other in ["null", "true", "12", "\"text\"", "1.5"] {
        assert_eq!(methods(other), vec![named("other")]);
    }
    for none in ["", "{", "{} {}", "[1,]", "nul", "{\"a\":1e999}"] {
        assert_eq!(methods(none), vec![named("none")]);
    }
    assert!(matches!(read_body(b"{\"\xff\":1}"), None));
}

#[test]
fn nesting_is_bounded() {
    let nested = |depth: usize| format!("{}{}", "[".repeat(depth), "]".repeat(depth));
    assert!(matches!(read_body(nested(127).as_bytes()), Some(RpcBody::Batch(_))));
    assert!(matches!(read_body(nested(128).as_bytes()), None));
}

/// The name of the member whose text `serde_json` reads as a document.
const NAME: &str = "$serde_json::private::RawValue";

/// A JSON text that holds `document`, with every quote and backslash written as a number.
fn quoted(document: &str) -> String {
    let mut text = String::from("\"");
    for c in document.chars() {
        match c {
            '"' => text.push_str("\\u0022"),
            '\\' => text.push_str("\\u005c"),
            _ => text.push(c),
        }
    }
    text.push('"');
    text
}

/// `document` inside a text, so many times over, with so many arrays around each text.
fn piled(document: &str, times: usize, arrays: usize) -> String {
    let mut body = document.to_string();
    for _ in 0..times {
        let text = quoted(&body);
        body = format!("{}{{\"{NAME}\":{text}}}{}", "[".repeat(arrays), "]".repeat(arrays));
    }
    body
}

fn call_method(body: &str) -> Option<String> {
    assert!(is_shallow(body.as_bytes()));
    match read_body(body.as_bytes()) {
        Some(RpcBody::Call(method)) => method,
        _ => panic!("not one call: {body}"),
    }
}

#[test]
fn a_document_inside_a_text_is_read() {
    let call = r#"{"method":"eth_call"}"#;
    let named = Some("eth_call".to_string());
    assert_eq!(call_method(call), named);
    for times in [1, 2, 8, 20] {
        assert_eq!(call_method(&piled(call, times, 0)), named);
    }
    // The name itself may be written with escapes.
    let escaped = format!("{{\"\\u0024{}\":{}}}", &NAME[1..], quoted(call));
    assert_eq!(call_method(&escaped), named);
    assert_eq!(reject_denied_methods(piled(call, 1, 0).as_bytes()), Ok(()));
    assert_eq!(
        reject_denied_methods(piled(r#"{"method":"debug_x"}"#, 1, 0).as_bytes()),
        Err(AppError::MethodNotAllowed),
    );
    assert_eq!(
        reject_denied_methods(piled("[{\"method\":\"eth_call\"},{}]", 1, 0).as_bytes()),
        Err(AppError::BadRequest("missing method")),
    );
}

#[test]
fn the_name_counts_only_as_the_one_member() {
    let text = quoted(r#"{"method":"a"}"#);
    // Not the first member: an ordinary one.
    assert_eq!(call_method(&format!("{{\"method\":\"b\",\"{NAME}\":{text}}}")), Some("b".to_string()));
    // The first of several members, or no text, or a text that is no document: refused.
    for body in [
        format!("{{\"{NAME}\":{text},\"method\":\"b\"}}"),
        format!("{{\"{NAME}\":7}}"),
        format!("{{\"{NAME}\":\"not json\"}}"),
    ] {
        assert!(is_shallow(body.as_bytes()));
        assert!(matches!(read_body(body.as_bytes()), None));
    }
}

#[test]
fn piled_documents_are_bounded() {
    // Eight documents inside the outermost, each as deep as can be.
    let body = piled("[]", 8, 126);
    assert!(is_shallow(body.as_bytes()));
    assert!(matches!(read_body(body.as_bytes()), Some(RpcBody::Batch(_))));
    for times in [9, 20, 280] {
        let body = piled("[]", times, 126);
        assert!(body.len() <= 1 << 20);
        assert!(!is_shallow(body.as_bytes()));
        assert!(guarded_rpc_handler(&state(), "base", body.as_bytes()).is_none());
        // Nothing is read where the chain is unknown or the filter is off.
        let unknown = guarded_rpc_handler(&state(), "solana", body.as_bytes());
        assert!(matches!(unknown, Some(Err(AppError::UnknownChain))));
        let mut open = state();
        open.method_denylist = false;
        let passed = guarded_rpc_handler(&open, "base", body.as_bytes());
        assert!(matches!(passed, Some(Ok(_))));
    }
}

#[test]
fn ordinary_bodies_are_shallow() {
    let many = format!("[{}{{}}]", "{\"a\":[\"\\\"\\\\\"]},".repeat(5000));
    for body in ["", "{", "\\", "\\u", "\\u00", "\\u005c", "null", NAME, many.as_str()] {
        assert!(is_shallow(body.as_bytes()));
    }
    let decided = guarded_rpc_handler(&state(), "base", br#"{"method":"eth_call"}"#);
    assert!(matches!(decided, Some(Ok(_))));
    let decided = guarded_rpc_handler(&state(), "base", b"{}");
    assert!(matches!(decided, Some(Err(AppError::BadRequest("missing method")))));
}

#[test]
fn escaped_methods_are_denied() {
    assert_eq!(
        reject_denied_methods(br#"{"method":"\u0064ebug_x"}"#),
        Err(AppError::MethodNotAllowed),
    );
    assert_eq!(
        reject_denied_methods(b"not json"),
        Err(AppError::BadRequest("invalid JSON-RPC body")),
    );
    assert_eq!(
        reject_denied_methods(b"7"),
        Err(AppError::BadRequest("invalid JSON-RPC body")),
    );
    assert_eq!(reject_denied_methods(b"[]"), Ok(()));
}

#[test]
fn statuses_pass_where_they_are_valid() {
    for code in [100, 200, 204, 404, 429, 599, 999] {
        assert_eq!(json_passthrough(code, vec![1, 2]).status, code);
    }
    for code in [0, 1, 99, 1000, 65535] {
        let reply = json_passthrough(code, vec![1, 2]);
        assert_eq!(reply.status, 502);
        assert_eq!(reply.content_type, "application/json");
        assert_eq!(reply.body, vec![1, 2]);
    }
}

#[test]
fn upstream_errors_have_messages() {
    assert_eq!(UpstreamError::Transport.message(), "upstream transport error");
    assert_eq!(UpstreamError::Status(0).message(), "upstream status 0");
    assert_eq!(UpstreamError::Status(503).message(), "upstream status 503");
    assert_eq!(UpstreamError::Status(65535).message(), "upstream status 65535");
    assert_eq!(UpstreamError::Decode.message(), "upstream decode error");
}

#[test]
fn upstream_errors_are_bad_gateways() {
    let transport = AppError::from(UpstreamError::Transport);
    assert_eq!(transport, AppError::Upstream("upstream transport error"));
    for error in [UpstreamError::Transport, UpstreamError::Status(500), UpstreamError::Decode] {
        assert_eq!(relay(Err(error)).status, 502);
    }
}
