//! The configuration that an environment gives, the search for the key, and the text operations.
use kao_proxy::config::{
    bind_text, default_chains, env_u64, env_usize, load_key, Config, EnvVars, Key, KeyQuery,
    KeySource, KeyStep, Setting,
};
use kao_proxy::text::{begins_with, parse_number, same_text, to_decimal, to_lower, trim, trim_end_of};

fn unset() -> EnvVars {
    EnvVars::new()
}

fn some(s: &str) -> Option<String> {
    Some(s.to_string())
}

#[test]
fn keys_do_not_print_themselves() {
    let key = Key::new("secret");
    assert_eq!(key.expose(), "secret");
    assert_eq!(key.redacted(), "Key(***)");
    assert_eq!(Key::new("").redacted(), "Key(***)");
}

#[test]
fn default_registry_is_exact() {
    let chains = default_chains();
    let said: Vec<(&str, u64, Vec<&str>)> =
        chains.iter().map(|c| (c.slug, c.chain_id, c.aliases.to_vec())).collect();
    assert_eq!(
        said,
        vec![
            ("ethereum", 1, vec!["mainnet", "eth", "1"]),
            ("optimism", 10, vec!["op", "10"]),
            ("base", 8453, vec!["8453"]),
        ],
    );
}

#[test]
fn an_empty_environment_gives_the_defaults() {
    assert_eq!(bind_text(&unset()), "127.0.0.1:8080");
    let config = Config::from_env(Ok(5u8), &unset(), Ok(Key::new("k"))).unwrap_or_else(|e| panic!("{e}"));
    assert_eq!(config.bind, 5);
    assert_eq!(config.drpc_base, "https://lb.drpc.live");
    assert_eq!(config.key.expose(), "k");
    assert_eq!(config.chains.len(), 3);
    assert_eq!(config.body_limit, 1 << 20);
    assert!(config.method_denylist);
    assert_eq!(config.upstream_timeout, 20);
    assert_eq!(config.connect_timeout, 8);
}

#[test]
fn variables_override_the_defaults() {
    let vars = EnvVars {
        bind_addr: some("0.0.0.0:1"),
        drpc_base: some("https://lb.drpc.org//"),
        body_limit: some("77"),
        method_filter: some("off"),
        upstream_timeout: some("+3"),
        connect_timeout: some("many"),
    };
    assert_eq!(bind_text(&vars), "0.0.0.0:1");
    let config = Config::from_env(Ok(()), &vars, Ok(Key::new("k"))).unwrap_or_else(|e| panic!("{e}"));
    assert_eq!(config.drpc_base, "https://lb.drpc.org");
    assert_eq!(config.body_limit, 77);
    assert!(!config.method_denylist);
    assert_eq!(config.upstream_timeout, 3);
    assert_eq!(config.connect_timeout, 8);
    for on in ["on", "OFF", "", " off"] {
        let vars = EnvVars { method_filter: some(on), ..unset() };
        let config = Config::from_env(Ok(()), &vars, Ok(Key::new("k"))).unwrap_or_else(|e| panic!("{e}"));
        assert!(config.method_denylist);
    }
}

#[test]
fn every_setting_has_its_variable() {
    let names: Vec<&str> = Setting::all().iter().map(|setting| setting.var()).collect();
    assert_eq!(
        names,
        vec![
            "BIND_ADDR", "DRPC_BASE", "RPC_BODY_LIMIT_BYTES", "RPC_METHOD_FILTER",
            "UPSTREAM_TIMEOUT_SECS", "UPSTREAM_CONNECT_TIMEOUT_SECS",
        ],
    );
    let mut vars = EnvVars::new();
    for setting in Setting::all() {
        vars.set(setting, some(setting.var()));
    }
    assert_eq!(vars.bind_addr, some("BIND_ADDR"));
    assert_eq!(vars.drpc_base, some("DRPC_BASE"));
    assert_eq!(vars.body_limit, some("RPC_BODY_LIMIT_BYTES"));
    assert_eq!(vars.method_filter, some("RPC_METHOD_FILTER"));
    assert_eq!(vars.upstream_timeout, some("UPSTREAM_TIMEOUT_SECS"));
    assert_eq!(vars.connect_timeout, some("UPSTREAM_CONNECT_TIMEOUT_SECS"));
    vars.set(Setting::DrpcBase, None);
    assert_eq!(vars.drpc_base, None);
    assert_eq!(vars.bind_addr, some("BIND_ADDR"));
}

#[test]
fn the_address_is_checked_before_the_key() {
    let bad = Config::<u8>::from_env(Err("odd".to_string()), &unset(), Err("no key".to_string()));
    assert_eq!(bad.err(), some("BIND_ADDR invalid: odd"));
    let bad = Config::from_env(Ok(1u8), &unset(), Err("no key".to_string()));
    assert_eq!(bad.err(), some("no key"));
}

/// Runs the search against a world of variables and files.
fn search(vars: &[(&str, &str)], files: &[(&str, &str)]) -> (Vec<String>, Result<String, String>) {
    let find = |list: &[(&str, &str)], name: &str| {
        list.iter().find(|entry| entry.0 == name).map(|entry| entry.1.to_string()).ok_or("absent".to_string())
    };
    let mut asked = Vec::new();
    let mut source = KeySource::first();
    loop {
        let answer = match source.query() {
            KeyQuery::Var(name) => {
                asked.push(format!("var {name}"));
                find(vars, name)
            }
            KeyQuery::File(path) => {
                asked.push(format!("file {path}"));
                find(files, path)
            }
        };
        match load_key(source, answer) {
            KeyStep::Ask(next) => source = next,
            KeyStep::Found(key) => return (asked, Ok(key.expose().to_string())),
            KeyStep::Failed(message) => return (asked, Err(message)),
        }
    }
}

#[test]
fn a_named_file_comes_first() {
    let (asked, key) = search(
        &[("DRPC_KEY_FILE", "/k"), ("DRPC_KEY", "dev")],
        &[("/k", "  abc\n"), ("/run/secrets/drpc_key", "mounted")],
    );
    assert_eq!(asked, vec!["var DRPC_KEY_FILE", "file /k"]);
    assert_eq!(key, Ok("abc".to_string()));
}

#[test]
fn an_unreadable_named_file_ends_the_search() {
    let (_, key) = search(
        &[("DRPC_KEY_FILE", "/k"), ("DRPC_KEY", "dev")],
        &[("/run/secrets/drpc_key", "mounted")],
    );
    assert_eq!(key, Err("reading DRPC_KEY_FILE /k: absent".to_string()));
}

#[test]
fn the_secret_mount_comes_before_the_variable() {
    let (asked, key) = search(&[("DRPC_KEY", "dev")], &[("/run/secrets/drpc_key", "mounted\r\n")]);
    assert_eq!(asked, vec!["var DRPC_KEY_FILE", "file /run/secrets/drpc_key"]);
    assert_eq!(key, Ok("mounted".to_string()));
}

#[test]
fn the_variable_comes_last() {
    let (asked, key) = search(&[("DRPC_KEY", "\tdev ")], &[]);
    assert_eq!(asked, vec!["var DRPC_KEY_FILE", "file /run/secrets/drpc_key", "var DRPC_KEY"]);
    assert_eq!(key, Ok("dev".to_string()));
}

#[test]
fn no_key_at_all_is_an_error() {
    let (_, key) = search(&[], &[]);
    assert_eq!(
        key,
        Err("no dRPC key: mount a podman secret and set DRPC_KEY_FILE (or DRPC_KEY for dev)".to_string()),
    );
}

#[test]
fn numbers_are_read_as_std_reads_them() {
    let texts = [
        "", "+", "-", "0", "-0", "+0", "7", "007", "+7", "++7", "7+", " 7", "7 ", "1_000", "0x10",
        "18446744073709551615", "18446744073709551616", "99999999999999999999999999",
        "000000000000000000000000000000000005", "\u{661}", "1.0",
    ];
    for text in texts {
        assert_eq!(parse_number(text, u64::MAX), text.parse::<u64>().ok(), "{text}");
        assert_eq!(env_u64(&some(text), 9), text.parse().unwrap_or(9), "{text}");
        assert_eq!(env_usize(&some(text), 9), text.parse().unwrap_or(9), "{text}");
    }
    assert_eq!(parse_number("256", 255), None);
    assert_eq!(parse_number("255", 255), Some(255));
    assert_eq!(env_u64(&None, 9), 9);
    assert_eq!(env_usize(&None, 9), 9);
}

#[test]
fn written_numbers_read_back() {
    for n in [0, 1, 9, 10, 99, 100, 8453, 65535, u64::MAX - 1, u64::MAX] {
        assert_eq!(to_decimal(n), n.to_string());
        assert_eq!(parse_number(&to_decimal(n), u64::MAX), Some(n));
    }
}

#[test]
fn every_character_is_trimmed_as_std_trims_it() {
    for code in 0..=0x10ffff {
        if let Some(c) = char::from_u32(code) {
            let text = format!("{c}a{c}b{c}");
            assert_eq!(trim(&text), text.trim(), "{code:x}");
        }
    }
    for text in ["", " ", "\n\t ", " a", "a ", "a b", "\u{feff}a"] {
        assert_eq!(trim(text), text.trim());
        assert_eq!(trim(&trim(text)), text.trim());
    }
}

#[test]
fn texts_are_compared_and_lowered() {
    for code in 0..0x3000 {
        if let Some(c) = char::from_u32(code) {
            let text = c.to_string();
            assert_eq!(to_lower(&text), text.to_ascii_lowercase());
        }
    }
    assert_eq!(to_lower(&to_lower("MaInNeT")), "mainnet");
    assert!(same_text("abc", "abc") && same_text("", ""));
    assert!(!same_text("abc", "abd") && !same_text("abc", "ab") && !same_text("ab", "abc"));
    assert!(begins_with("abc", "ab") && begins_with("abc", "") && begins_with("", ""));
    assert!(!begins_with("abc", "b") && !begins_with("a", "ab"));
}

#[test]
fn trailing_slashes_go() {
    for text in ["", "/", "//", "a", "a/", "a//", "/a/", "a/b", "\u{e9}/"] {
        assert_eq!(trim_end_of(text, '/'), text.trim_end_matches('/'));
    }
}
