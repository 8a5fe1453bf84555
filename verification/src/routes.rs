//! What the proxy answers, and what it asks the provider.
//!
//! Routes:
//!   GET  /healthz                        liveness, no upstream
//!   POST /rpc/{chain}                    JSON-RPC passthrough (alias to provider slug)
//!   GET  /v1/{chain}/balances/{address}  wallet balances on one chain
//!   GET  /v1/{chain}/history/{address}   wallet transaction history on one chain
//!
//! A handler decides from the request alone whether the provider is asked, and what. `relay` makes
//! the answer from what came back: the provider's status and body, unchanged. Chains are not merged
//! and the payload is not reshaped.
use crate::config::{default_registry, registry, ChainModel, ChainSpec};
use crate::json::{
    array_items, is_object, is_wrapped_text, json_read, json_written, member, read_json,
    single_member, single_member_value, string_text, text_value, tree_member, value_tree,
    write_json, JsonTree,
};
use crate::nesting::{is_shallow, shallow, READABLE_DEPTH};
use crate::text::{
    begins_with, chars_of, decimal, law_lowered_once, lowered, optional_string, optional_text,
    same_text, to_lower,
};
use crate::upstream::{
    balances_request, has_own_headers, history_request, rpc_request, Drpc, DrpcModel, RequestModel, UpstreamError,
    UpstreamRequest,
};
use serde_json::Value;
use vstd::prelude::*;

verus! {

/// What the handlers share.
pub struct AppState {
    pub drpc: Drpc,
    pub chains: Vec<ChainSpec>,
    pub method_denylist: bool,
}

/// What an `AppState` says.
pub struct StateModel {
    pub drpc: DrpcModel,
    pub chains: Seq<ChainModel>,
    pub method_denylist: bool,
}

impl View for AppState {
    type V = StateModel;

    open spec fn view(&self) -> StateModel {
        StateModel {
            drpc: self.drpc@,
            chains: registry(self.chains@),
            method_denylist: self.method_denylist,
        }
    }
}

// ---- chain names -------------------------------------------------------------

/// Whether a chain goes by a name.
pub open spec fn goes_by(chain: ChainModel, name: Seq<char>) -> bool {
    chain.slug == name || chain.aliases.contains(name)
}

/// The slug of the first chain that goes by a name.
pub open spec fn slug_of(chains: Seq<ChainModel>, name: Seq<char>) -> Option<Seq<char>>
    decreases chains.len(),
{
    if chains.len() == 0 {
        None
    } else if goes_by(chains.first(), name) {
        Some(chains.first().slug)
    } else {
        slug_of(chains.drop_first(), name)
    }
}

/// The slug that a caller's chain name stands for, in whatever case it is written.
pub open spec fn resolved(chains: Seq<ChainModel>, input: Seq<char>) -> Option<Seq<char>> {
    slug_of(chains, lowered(input))
}

fn chain_goes_by(chain: &ChainSpec, name: &str) -> (r: bool)
    ensures
        r == goes_by(chain@, name@),
{
    if same_text(chain.slug, name) {
        return true;
    }
    let aliases = chain.aliases;
    let mut i: usize = 0;
    while i < aliases.len()
        invariant
            i <= aliases@.len(),
            aliases == chain.aliases,
            forall|j: int| 0 <= j < i ==> chain@.aliases[j] != name@,
        decreases aliases@.len() - i,
    {
        assert(chain@.aliases[i as int] == aliases@[i as int]@);
        if same_text(aliases[i], name) {
            return true;
        }
        i += 1;
    }
    false
}

impl AppState {
    /// Maps a chain name or alias of a caller to the provider's slug.
    pub fn resolve_chain(&self, input: &str) -> (slug: Option<&'static str>)
        ensures
            optional_text(slug) == resolved(self@.chains, input@),
    {
        let name = to_lower(input);
        let mut i: usize = 0;
        assert(self@.chains.skip(0) == self@.chains);
        while i < self.chains.len()
            invariant
                i <= self.chains@.len(),
                name@ == lowered(input@),
                resolved(self@.chains, input@) == slug_of(self@.chains.skip(i as int), name@),
            decreases self.chains@.len() - i,
        {
            let chain = &self.chains[i];
            proof {
                let rest = self@.chains.skip(i as int);
                assert(rest.first() == chain@);
                assert(rest.drop_first() == self@.chains.skip(i + 1));
            }
            if chain_goes_by(chain, name.as_str()) {
                return Some(chain.slug);
            }
            i += 1;
        }
        None
    }
}

// ---- addresses ---------------------------------------------------------------

/// Whether a character is an ASCII hexadecimal digit.
pub open spec fn is_hex_digit(c: char) -> bool {
    '0' <= c <= '9' || 'a' <= c <= 'f' || 'A' <= c <= 'F'
}

/// Whether a text is an Ethereum address: `0x` and forty hexadecimal digits.
pub open spec fn is_address(s: Seq<char>) -> bool {
    &&& s.len() == 42
    &&& s[0] == '0'
    &&& s[1] == 'x'
    &&& forall|i: int| 2 <= i < 42 ==> is_hex_digit(#[trigger] s[i])
}

pub fn is_valid_eth_address(s: &str) -> (r: bool)
    ensures
        r == is_address(s@),
{
    let chars = chars_of(s);
    if chars.len() != 42 || chars[0] != '0' || chars[1] != 'x' {
        return false;
    }
    let mut i: usize = 2;
    while i < 42
        invariant
            2 <= i <= 42,
            chars@ == s@,
            chars@.len() == 42,
            forall|j: int| 2 <= j < i ==> is_hex_digit(#[trigger] s@[j]),
        decreases 42 - i,
    {
        let c = chars[i];
        if !(('0' <= c && c <= '9') || ('a' <= c && c <= 'f') || ('A' <= c && c <= 'F')) {
            assert(!is_hex_digit(s@[i as int]));
            return false;
        }
        i += 1;
    }
    true
}

// ---- errors ------------------------------------------------------------------

/// Why a request is refused or cannot be answered.
#[derive(Debug, PartialEq, Eq)]
pub enum AppError {
    BadAddress,
    UnknownChain,
    MethodNotAllowed,
    BadRequest(&'static str),
    Upstream(&'static str),
}

impl From<UpstreamError> for AppError {
    fn from(e: UpstreamError) -> (r: AppError) {
        match e {
            UpstreamError::Transport => AppError::Upstream("upstream transport error"),
            UpstreamError::Status(_) => AppError::Upstream("upstream status error"),
            UpstreamError::Decode => AppError::Upstream("upstream decode error"),
        }
    }
}

impl vstd::std_specs::convert::FromSpecImpl<UpstreamError> for AppError {
    open spec fn obeys_from_spec() -> bool {
        true
    }

    open spec fn from_spec(e: UpstreamError) -> AppError {
        match e {
            UpstreamError::Transport => AppError::Upstream("upstream transport error"),
            UpstreamError::Status(_) => AppError::Upstream("upstream status error"),
            UpstreamError::Decode => AppError::Upstream("upstream decode error"),
        }
    }
}

/// The HTTP status of an error.
pub open spec fn error_status(e: AppError) -> u16 {
    match e {
        AppError::BadAddress => 400,
        AppError::UnknownChain => 404,
        AppError::MethodNotAllowed => 403,
        AppError::BadRequest(_) => 400,
        AppError::Upstream(_) => 502,
    }
}

/// The message of an error.
pub open spec fn error_message(e: AppError) -> Seq<char> {
    match e {
        AppError::BadAddress => "invalid ethereum address"@,
        AppError::UnknownChain => "unknown chain"@,
        AppError::MethodNotAllowed => "rpc method not allowed"@,
        AppError::BadRequest(message) => message@,
        AppError::Upstream(message) => message@,
    }
}

/// The document that tells a caller of an error.
pub open spec fn error_tree(message: Seq<char>) -> JsonTree {
    single_member("error"@, single_member("message"@, JsonTree::Text(message)))
}

/// An answer to a caller.
pub struct Reply {
    pub status: u16,
    pub content_type: &'static str,
    pub body: Vec<u8>,
}

proof fn lemma_error_tree_is_wrapped_text(message: Seq<char>)
    ensures
        is_wrapped_text(error_tree(message), READABLE_DEPTH as nat),
{
    reveal_strlit("error");
    reveal_strlit("message");
    reveal_with_fuel(is_wrapped_text, 3);
    assert(map!["message"@ => JsonTree::Text(message)].dom() == set!["message"@]);
    let inner = single_member("message"@, JsonTree::Text(message));
    assert(map!["error"@ => inner].dom() == set!["error"@]);
    assert(is_wrapped_text(inner, (READABLE_DEPTH - 1) as nat));
}

/// The bytes of the document that tells a caller of an error.
fn error_body(message: &str) -> (body: Vec<u8>)
    ensures
        body@ == json_written(error_tree(message@)),
        json_read(body@) == Some(error_tree(message@)),
{
    let inner = single_member_value("message", text_value(message));
    let value = single_member_value("error", inner);
    proof {
        lemma_error_tree_is_wrapped_text(message@);
    }
    match write_json(&value) {
        Ok(body) => body,
        Err(_) => {
            assert(false);
            Vec::new()
        },
    }
}

impl AppError {
    /// The answer that tells a caller of this error: `{"error":{"message":".."}}`.
    pub fn into_response(self) -> (reply: Reply)
        ensures
            reply.status == error_status(self),
            reply.content_type@ == "application/json"@,
            reply.body@ == json_written(error_tree(error_message(self))),
            json_read(reply.body@) == Some(error_tree(error_message(self))),
    {
        let (status, message): (u16, &'static str) = match self {
            AppError::BadAddress => (400, "invalid ethereum address"),
            AppError::UnknownChain => (404, "unknown chain"),
            AppError::MethodNotAllowed => (403, "rpc method not allowed"),
            AppError::BadRequest(message) => (400, message),
            AppError::Upstream(message) => (502, message),
        };
        Reply { status, content_type: "application/json", body: error_body(message) }
    }
}

// ---- method filtering --------------------------------------------------------

/// Whether a JSON-RPC method is expensive or makes no sense over HTTP.
pub open spec fn is_denied(method: Seq<char>) -> bool {
    ||| "debug_"@.is_prefix_of(method)
    ||| "trace_"@.is_prefix_of(method)
    ||| "arbtrace_"@.is_prefix_of(method)
    ||| "txpool_"@.is_prefix_of(method)
    ||| method == "eth_subscribe"@
    ||| method == "eth_unsubscribe"@
}

/// What is read of a JSON-RPC body: the method that each call names, if it names one.
pub enum RpcBody {
    Call(Option<String>),
    Batch(Vec<Option<String>>),
    /// A JSON document that is neither an object nor an array.
    Other,
}

/// What an `RpcBody` says.
pub enum BodyModel {
    Call(Option<Seq<char>>),
    Batch(Seq<Option<Seq<char>>>),
    Other,
}

impl View for RpcBody {
    type V = BodyModel;

    open spec fn view(&self) -> BodyModel {
        match *self {
            RpcBody::Call(method) => BodyModel::Call(optional_string(method)),
            RpcBody::Batch(methods) => BodyModel::Batch(
                methods@.map_values(|method: Option<String>| optional_string(method)),
            ),
            RpcBody::Other => BodyModel::Other,
        }
    }
}

/// The verdict on one call: it must name a method, and one that is not denied.
pub open spec fn call_verdict(method: Option<Seq<char>>) -> Result<(), AppError> {
    match method {
        None => Err(AppError::BadRequest("missing method")),
        Some(name) => if is_denied(name) {
            Err(AppError::MethodNotAllowed)
        } else {
            Ok(())
        },
    }
}

/// The verdict on a batch: that on its first call that is refused.
pub open spec fn batch_verdict(methods: Seq<Option<Seq<char>>>) -> Result<(), AppError>
    decreases methods.len(),
{
    if methods.len() == 0 {
        Ok(())
    } else if call_verdict(methods.first()) is Err {
        call_verdict(methods.first())
    } else {
        batch_verdict(methods.drop_first())
    }
}

/// The verdict on a JSON-RPC body.
pub open spec fn body_verdict(body: BodyModel) -> Result<(), AppError> {
    match body {
        BodyModel::Call(method) => call_verdict(method),
        BodyModel::Batch(methods) => batch_verdict(methods),
        BodyModel::Other => Err(AppError::BadRequest("invalid JSON-RPC body")),
    }
}

/// The method that a JSON document names: its member `method`, where that is a text.
pub open spec fn tree_method(tree: JsonTree) -> Option<Seq<char>> {
    match tree_member(tree, "method"@) {
        Some(JsonTree::Text(name)) => Some(name),
        _ => None,
    }
}

/// A JSON document as a JSON-RPC body: an object is a call, an array is a batch.
pub open spec fn tree_body(tree: JsonTree) -> BodyModel {
    match tree {
        JsonTree::Members(_) => BodyModel::Call(tree_method(tree)),
        JsonTree::List(items) => BodyModel::Batch(
            items.map_values(|item: JsonTree| tree_method(item)),
        ),
        _ => BodyModel::Other,
    }
}

/// Bytes as a JSON-RPC body; `None` where they are no JSON document.
pub open spec fn bytes_body(bytes: Seq<u8>) -> Option<BodyModel> {
    match json_read(bytes) {
        Some(tree) => Some(tree_body(tree)),
        None => None,
    }
}

/// The verdict on the bytes of a JSON-RPC body.
pub open spec fn bytes_verdict(bytes: Seq<u8>) -> Result<(), AppError> {
    match bytes_body(bytes) {
        Some(body) => body_verdict(body),
        None => Err(AppError::BadRequest("invalid JSON-RPC body")),
    }
}

fn named_method(value: &Value) -> (method: Option<String>)
    ensures
        optional_string(method) == tree_method(value_tree(*value)),
{
    match member(value, "method") {
        Some(found) => match string_text(found) {
            Some(name) => Some(name.to_owned()),
            None => None,
        },
        None => None,
    }
}

/// Reads the bytes of a JSON-RPC body.
pub fn read_body(bytes: &[u8]) -> (body: Option<RpcBody>)
    requires
        shallow(bytes@),
    ensures
        match body {
            Some(body) => bytes_body(bytes@) == Some(body@),
            None => bytes_body(bytes@) is None,
        },
{
    let value = match read_json(bytes) {
        Ok(value) => value,
        Err(_) => return None,
    };
    if is_object(&value) {
        return Some(RpcBody::Call(named_method(&value)));
    }
    let items = match array_items(&value) {
        Some(items) => items,
        None => return Some(RpcBody::Other),
    };
    let ghost trees = items@.map_values(|item: Value| value_tree(item));
    let ghost named = trees.map_values(|item: JsonTree| tree_method(item));
    let mut methods: Vec<Option<String>> = Vec::new();
    let mut i: usize = 0;
    while i < items.len()
        invariant
            i <= items@.len(),
            trees == items@.map_values(|item: Value| value_tree(item)),
            named == trees.map_values(|item: JsonTree| tree_method(item)),
            methods@.map_values(|method: Option<String>| optional_string(method)) == named.take(
                i as int,
            ),
        decreases items@.len() - i,
    {
        let method = named_method(&items[i]);
        assert(optional_string(method) == named[i as int]);
        let ghost before = methods@;
        methods.push(method);
        i += 1;
        proof {
            let said = methods@.map_values(|method: Option<String>| optional_string(method));
            let said_before = before.map_values(|method: Option<String>| optional_string(method));
            assert(said == said_before.push(optional_string(method)));
            assert(named.take(i as int) == named.take(i - 1).push(named[i - 1]));
        }
    }
    assert(named.take(i as int) == named);
    Some(RpcBody::Batch(methods))
}

/// Decides on one call by the method that it names.
pub fn check_one(method: Option<&str>) -> (r: Result<(), AppError>)
    ensures
        r == call_verdict(optional_text(method)),
{
    let m = match method {
        Some(m) => m,
        None => return Err(AppError::BadRequest("missing method")),
    };
    let denied = begins_with(m, "debug_") || begins_with(m, "trace_") || begins_with(m, "arbtrace_")
        || begins_with(m, "txpool_") || same_text(m, "eth_subscribe") || same_text(
        m,
        "eth_unsubscribe",
    );
    if denied {
        Err(AppError::MethodNotAllowed)
    } else {
        Ok(())
    }
}

fn check_call(method: &Option<String>) -> (r: Result<(), AppError>)
    ensures
        r == call_verdict(optional_string(*method)),
{
    match method {
        Some(name) => check_one(Some(name.as_str())),
        None => check_one(None),
    }
}

/// Decides on a JSON-RPC body. A batch is refused as a whole.
pub fn check_body(body: &RpcBody) -> (r: Result<(), AppError>)
    ensures
        r == body_verdict(body@),
{
    match body {
        RpcBody::Call(method) => check_call(method),
        RpcBody::Batch(methods) => {
            let ghost said = methods@.map_values(|method: Option<String>| optional_string(method));
            let mut i: usize = 0;
            assert(said.skip(0) == said);
            while i < methods.len()
                invariant
                    i <= methods@.len(),
                    said == methods@.map_values(|method: Option<String>| optional_string(method)),
                    batch_verdict(said) == batch_verdict(said.skip(i as int)),
                    body@ == BodyModel::Batch(said),
                decreases methods@.len() - i,
            {
                proof {
                    assert(said.skip(i as int).first() == optional_string(methods@[i as int]));
                    assert(said.skip(i as int).drop_first() == said.skip(i + 1));
                }
                match check_call(&methods[i]) {
                    Ok(()) => {},
                    Err(e) => return Err(e),
                }
                i += 1;
            }
            Ok(())
        },
        RpcBody::Other => Err(AppError::BadRequest("invalid JSON-RPC body")),
    }
}

/// Denies methods that are expensive or make no sense over HTTP, to limit how badly a leaked
/// endpoint could abuse the shared key. Handles batches too.
pub fn reject_denied_methods(bytes: &[u8]) -> (r: Result<(), AppError>)
    requires
        shallow(bytes@),
    ensures
        r == bytes_verdict(bytes@),
{
    match read_body(bytes) {
        Some(body) => check_body(&body),
        None => Err(AppError::BadRequest("invalid JSON-RPC body")),
    }
}

// ---- handlers ----------------------------------------------------------------

/// What the JSON-RPC route comes to: the request to the provider, or why there is none.
pub open spec fn rpc_outcome(state: StateModel, chain: Seq<char>, body: Seq<u8>) -> Result<
    RequestModel,
    AppError,
> {
    match resolved(state.chains, chain) {
        None => Err(AppError::UnknownChain),
        Some(slug) => match bytes_verdict(body) {
            Err(e) if state.method_denylist => Err(e),
            _ => Ok(rpc_request(state.drpc, slug, body)),
        },
    }
}

/// What the balances route comes to: the request to the provider, or why there is none.
pub open spec fn balances_outcome(
    state: StateModel,
    chain: Seq<char>,
    address: Seq<char>,
    query: Option<Seq<char>>,
) -> Result<RequestModel, AppError> {
    match resolved(state.chains, chain) {
        None => Err(AppError::UnknownChain),
        Some(slug) => if is_address(address) {
            Ok(balances_request(state.drpc, slug, address, query))
        } else {
            Err(AppError::BadAddress)
        },
    }
}

/// What the history route comes to: the request to the provider, or why there is none.
pub open spec fn history_outcome(
    state: StateModel,
    chain: Seq<char>,
    address: Seq<char>,
    query: Option<Seq<char>>,
) -> Result<RequestModel, AppError> {
    match resolved(state.chains, chain) {
        None => Err(AppError::UnknownChain),
        Some(slug) => if is_address(address) {
            Ok(history_request(state.drpc, slug, address, query))
        } else {
            Err(AppError::BadAddress)
        },
    }
}

/// What a handler's result says.
pub open spec fn outcome(r: Result<UpstreamRequest, AppError>) -> Result<RequestModel, AppError> {
    match r {
        Ok(request) => Ok(request@),
        Err(e) => Err(e),
    }
}

/// Liveness.
pub fn health() -> (s: &'static str)
    ensures
        s@ == "ok"@,
{
    "ok"
}

/// Whether the JSON-RPC route has to read a body: the filter is on and the chain is known.
pub open spec fn reads_body(state: StateModel, chain: Seq<char>) -> bool {
    state.method_denylist && resolved(state.chains, chain) is Some
}

/// JSON-RPC passthrough, of a body that is shallow or is not read. `guarded_rpc_handler` takes any.
pub fn rpc_handler(state: &AppState, chain: &str, body: &[u8]) -> (r: Result<
    UpstreamRequest,
    AppError,
>)
    requires
        reads_body(state@, chain@) ==> shallow(body@),
    ensures
        outcome(r) == rpc_outcome(state@, chain@, body@),
{
    let slug = match state.resolve_chain(chain) {
        Some(slug) => slug,
        None => return Err(AppError::UnknownChain),
    };
    if state.method_denylist {
        match reject_denied_methods(body) {
            Ok(()) => {},
            Err(e) => return Err(e),
        }
    }
    Ok(state.drpc.rpc(slug, body))
}

/// JSON-RPC passthrough, of any body: `None` where the body would have to be read and is so deep that
/// reading it could exhaust the stack, else what `rpc_handler` comes to.
pub fn guarded_rpc_handler(state: &AppState, chain: &str, body: &[u8]) -> (r: Option<
    Result<UpstreamRequest, AppError>,
>)
    ensures
        match r {
            None => reads_body(state@, chain@) && !shallow(body@),
            Some(decision) => {
                &&& reads_body(state@, chain@) ==> shallow(body@)
                &&& outcome(decision) == rpc_outcome(state@, chain@, body@)
            },
        },
{
    if state.method_denylist && state.resolve_chain(chain).is_some() && !is_shallow(body) {
        return None;
    }
    Some(rpc_handler(state, chain, body))
}

/// Wallet balances on one chain.
pub fn balances_handler(
    state: &AppState,
    chain: &str,
    address: &str,
    query: Option<&str>,
) -> (r: Result<UpstreamRequest, AppError>)
    ensures
        outcome(r) == balances_outcome(state@, chain@, address@, optional_text(query)),
{
    let slug = match state.resolve_chain(chain) {
        Some(slug) => slug,
        None => return Err(AppError::UnknownChain),
    };
    if !is_valid_eth_address(address) {
        return Err(AppError::BadAddress);
    }
    Ok(state.drpc.balances(slug, address, query))
}

/// Wallet transaction history on one chain.
pub fn history_handler(
    state: &AppState,
    chain: &str,
    address: &str,
    query: Option<&str>,
) -> (r: Result<UpstreamRequest, AppError>)
    ensures
        outcome(r) == history_outcome(state@, chain@, address@, optional_text(query)),
{
    let slug = match state.resolve_chain(chain) {
        Some(slug) => slug,
        None => return Err(AppError::UnknownChain),
    };
    if !is_valid_eth_address(address) {
        return Err(AppError::BadAddress);
    }
    Ok(state.drpc.transactions(slug, address, query))
}

// ---- the provider's answer ---------------------------------------------------

/// The status that a caller sees for a status of the provider: the same, where it is one that HTTP
/// can express.
pub open spec fn passed_status(code: u16) -> u16 {
    if 100 <= code <= 999 {
        code
    } else {
        502
    }
}

/// `StatusCode::from_u16` of axum's `http`: accepts the codes from 100 to 999, each as itself, and
/// refuses all others.
#[verifier::external_body]
fn status_code(code: u16) -> (r: Option<u16>)
    ensures
        r == (if 100 <= code <= 999 {
            Some(code)
        } else {
            None
        }),
{
    axum::http::StatusCode::from_u16(code).ok().map(|status| status.as_u16())
}

/// A passthrough answer: the provider's status (502 where it is no valid code),
/// `application/json`, and the provider's body verbatim.
pub fn json_passthrough(code: u16, body: Vec<u8>) -> (reply: Reply)
    ensures
        reply.status == passed_status(code),
        reply.content_type@ == "application/json"@,
        reply.body@ == body@,
{
    let status: u16 = match status_code(code) {
        Some(status) => status,
        None => 502,
    };
    Reply { status, content_type: "application/json", body }
}

/// The answer to a caller whose request was sent to the provider: what the provider answered, its
/// status and its body, or how the exchange failed.
pub fn relay(answer: Result<(u16, Vec<u8>), UpstreamError>) -> (reply: Reply)
    ensures
        reply.content_type@ == "application/json"@,
        match answer {
            Ok((code, body)) => {
                &&& reply.status == passed_status(code)
                &&& reply.body@ == body@
            },
            Err(e) => {
                let error = <AppError as vstd::std_specs::convert::FromSpec<
                    UpstreamError,
                >>::from_spec(e);
                &&& reply.status == error_status(error)
                &&& reply.body@ == json_written(error_tree(error_message(error)))
                &&& json_read(reply.body@) == Some(error_tree(error_message(error)))
            },
        },
{
    match answer {
        Ok((code, body)) => json_passthrough(code, body),
        Err(e) => AppError::from(e).into_response(),
    }
}

// ---- laws --------------------------------------------------------------------

/// Chain names are case-insensitive.
pub proof fn law_chain_names_ignore_case(chains: Seq<ChainModel>, a: Seq<char>, b: Seq<char>)
    requires
        lowered(a) == lowered(b),
    ensures
        resolved(chains, a) == resolved(chains, b),
        resolved(chains, lowered(a)) == resolved(chains, a),
{
    law_lowered_once(a);
}

/// A name resolves only to the slug of a registered chain that goes by it, and fails to resolve
/// only where no chain goes by it.
pub proof fn law_resolved_chain_is_registered(chains: Seq<ChainModel>, input: Seq<char>)
    ensures
        match resolved(chains, input) {
            Some(slug) => exists|i: int|
                0 <= i < chains.len() && #[trigger] goes_by(chains[i], lowered(input))
                    && chains[i].slug == slug,
            None => forall|i: int|
                0 <= i < chains.len() ==> !#[trigger] goes_by(chains[i], lowered(input)),
        },
    decreases chains.len(),
{
    if chains.len() > 0 {
        let rest = chains.drop_first();
        assert(goes_by(chains[0], lowered(input)) == goes_by(chains.first(), lowered(input)));
        law_resolved_chain_is_registered(rest, input);
        assert forall|i: int| 0 < i < chains.len() implies chains[i] == rest[i - 1] by {}
        if !goes_by(chains.first(), lowered(input)) {
            if let Some(slug) = resolved(chains, input) {
                let j = choose|j: int|
                    0 <= j < rest.len() && #[trigger] goes_by(rest[j], lowered(input))
                        && rest[j].slug == slug;
                assert(chains[j + 1] == rest[j]);
                assert(goes_by(chains[j + 1], lowered(input)));
            } else {
                assert forall|i: int| 0 <= i < chains.len() implies !#[trigger] goes_by(
                    chains[i],
                    lowered(input),
                ) by {
                    if i > 0 {
                        assert(!goes_by(rest[i - 1], lowered(input)));
                    }
                }
            }
        }
    }
}

/// In the default registry every chain is reached by its slug, by each of its aliases and by its
/// chain id in decimal, and no two chains share a name.
pub proof fn law_default_chains_answer_to_their_names(i: int, name: Seq<char>)
    requires
        0 <= i < default_registry().len(),
        goes_by(default_registry()[i], name) || name == decimal(
            default_registry()[i].chain_id as nat,
        ),
    ensures
        resolved(default_registry(), name) == Some(default_registry()[i].slug),
        forall|j: int|
            0 <= j < default_registry().len() && #[trigger] goes_by(default_registry()[j], name)
                ==> j == i,
{
    reveal_strlit("ethereum");
    reveal_strlit("mainnet");
    reveal_strlit("eth");
    reveal_strlit("1");
    reveal_strlit("optimism");
    reveal_strlit("op");
    reveal_strlit("10");
    reveal_strlit("base");
    reveal_strlit("8453");
    reveal_with_fuel(slug_of, 4);
    reveal_with_fuel(decimal, 5);
    let chains = default_registry();
    assert(decimal(1) == "1"@);
    assert(decimal(10) == "10"@);
    assert(decimal(8453) == "8453"@);
    assert(chains[0].aliases[0] == "mainnet"@ && chains[0].aliases[1] == "eth"@
        && chains[0].aliases[2] == "1"@);
    assert(chains[1].aliases[0] == "op"@ && chains[1].aliases[1] == "10"@);
    assert(chains[2].aliases[0] == "8453"@);
    assert(goes_by(chains[0], name) <==> name == "ethereum"@ || name == "mainnet"@ || name
        == "eth"@ || name == "1"@);
    assert(goes_by(chains[1], name) <==> name == "optimism"@ || name == "op"@ || name == "10"@);
    assert(goes_by(chains[2], name) <==> name == "base"@ || name == "8453"@);
    assert(lowered(name) == name);
    assert("ethereum"@[0] == 'e' && "optimism"@[0] == 'o');
    assert(chains.drop_first().drop_first().first() == chains[2]);
    assert(chains.drop_first().first() == chains[1]);
    if name == "ethereum"@ || name == "mainnet"@ || name == "eth"@ || name == "1"@ {
        assert(name != "optimism"@ && name != "op"@ && name != "10"@);
        assert(name != "base"@ && name != "8453"@);
    } else if name == "optimism"@ || name == "op"@ || name == "10"@ {
        assert(name != "base"@ && name != "8453"@);
    }
}

/// An address has no character that could end or split a path segment of a URL.
pub proof fn law_address_is_one_path_segment(s: Seq<char>)
    requires
        is_address(s),
    ensures
        forall|i: int|
            0 <= i < s.len() ==> #[trigger] s[i] != '/' && s[i] != '?' && s[i] != '#' && s[i] != '%'
                && s[i] != ' ',
{
    assert forall|i: int| 0 <= i < s.len() implies #[trigger] s[i] != '/' && s[i] != '?' && s[i]
        != '#' && s[i] != '%' && s[i] != ' ' by {
        if i >= 2 {
            assert(is_hex_digit(s[i]));
        }
    }
}

/// The denied families are denied whole: no continuation of one of their prefixes is accepted.
pub proof fn law_denied_families_are_denied_whole(rest: Seq<char>)
    ensures
        call_verdict(Some("debug_"@ + rest)) == Err::<(), AppError>(AppError::MethodNotAllowed),
        call_verdict(Some("trace_"@ + rest)) == Err::<(), AppError>(AppError::MethodNotAllowed),
        call_verdict(Some("arbtrace_"@ + rest)) == Err::<(), AppError>(AppError::MethodNotAllowed),
        call_verdict(Some("txpool_"@ + rest)) == Err::<(), AppError>(AppError::MethodNotAllowed),
{
    assert(("debug_"@ + rest).take("debug_"@.len() as int) == "debug_"@);
    assert(("trace_"@ + rest).take("trace_"@.len() as int) == "trace_"@);
    assert(("arbtrace_"@ + rest).take("arbtrace_"@.len() as int) == "arbtrace_"@);
    assert(("txpool_"@ + rest).take("txpool_"@.len() as int) == "txpool_"@);
}

/// A batch is accepted exactly where every call in it names a method that is not denied.
pub proof fn law_batch_is_accepted_call_by_call(methods: Seq<Option<Seq<char>>>)
    ensures
        batch_verdict(methods) is Ok <==> forall|i: int|
            0 <= i < methods.len() ==> call_verdict(#[trigger] methods[i]) is Ok,
    decreases methods.len(),
{
    if methods.len() > 0 {
        let rest = methods.drop_first();
        law_batch_is_accepted_call_by_call(rest);
        assert forall|i: int| 0 < i < methods.len() implies methods[i] == rest[i - 1] by {}
        if batch_verdict(methods) is Ok {
            assert forall|i: int| 0 <= i < methods.len() implies call_verdict(
                #[trigger] methods[i],
            ) is Ok by {
                if i > 0 {
                    assert(call_verdict(rest[i - 1]) is Ok);
                }
            }
        } else if call_verdict(methods[0]) is Ok {
            let j = choose|j: int| 0 <= j < rest.len() && !(call_verdict(#[trigger] rest[j]) is Ok);
            assert(methods[j + 1] == rest[j]);
        }
    }
}

/// A refused batch is refused as a whole, for the reason of its first refused call, whatever calls
/// follow that one.
pub proof fn law_first_refused_call_decides(methods: Seq<Option<Seq<char>>>, n: int)
    requires
        0 <= n < methods.len(),
        call_verdict(methods[n]) is Err,
        forall|i: int| 0 <= i < n ==> call_verdict(#[trigger] methods[i]) is Ok,
    ensures
        batch_verdict(methods) == call_verdict(methods[n]),
    decreases n,
{
    if n > 0 {
        let rest = methods.drop_first();
        assert(call_verdict(methods[0]) is Ok);
        assert(rest[n - 1] == methods[n]);
        assert forall|i: int| 0 <= i < n - 1 implies call_verdict(#[trigger] rest[i]) is Ok by {
            assert(rest[i] == methods[i + 1]);
        }
        law_first_refused_call_decides(rest, n - 1);
    }
}

/// A batch of one call fares as that call does.
pub proof fn law_batch_of_one(method: Option<Seq<char>>)
    ensures
        body_verdict(BodyModel::Batch(seq![method])) == body_verdict(BodyModel::Call(method)),
{
    reveal_with_fuel(batch_verdict, 2);
    assert(seq![method].drop_first().len() == 0);
}

/// Whether and how a request is refused does not depend on the provider: no error holds anything
/// of its URL or of the key.
pub proof fn law_refusals_say_nothing_of_the_provider(
    a: StateModel,
    b: StateModel,
    chain: Seq<char>,
    body: Seq<u8>,
    address: Seq<char>,
    query: Option<Seq<char>>,
)
    requires
        a.chains == b.chains,
        a.method_denylist == b.method_denylist,
    ensures
        rpc_outcome(a, chain, body) matches Err(e) ==> rpc_outcome(b, chain, body) == Err::<
            RequestModel,
            AppError,
        >(e),
        balances_outcome(a, chain, address, query) matches Err(e) ==> balances_outcome(
            b,
            chain,
            address,
            query,
        ) == Err::<RequestModel, AppError>(e),
        history_outcome(a, chain, address, query) matches Err(e) ==> history_outcome(
            b,
            chain,
            address,
            query,
        ) == Err::<RequestModel, AppError>(e),
{
}

/// A JSON-RPC body that reaches the provider reaches it verbatim, at the endpoint of a registered
/// chain; nothing else that the caller wrote is part of the request.
pub proof fn law_rpc_body_is_passed_verbatim(state: StateModel, chain: Seq<char>, body: Seq<u8>)
    ensures
        rpc_outcome(state, chain, body) matches Ok(request) ==> {
            &&& request.body == Some(body)
            &&& exists|i: int|
                0 <= i < state.chains.len() && request == rpc_request(
                    state.drpc,
                    (#[trigger] state.chains[i]).slug,
                    body,
                )
        },
{
    law_resolved_chain_is_registered(state.chains, chain);
}

/// A wallet question that reaches the provider is about a registered chain and a valid address, and
/// takes the caller's query string with it verbatim.
pub proof fn law_wallet_question_is_checked(
    state: StateModel,
    chain: Seq<char>,
    address: Seq<char>,
    query: Option<Seq<char>>,
)
    ensures
        balances_outcome(state, chain, address, query) matches Ok(request) ==> {
            &&& is_address(address)
            &&& exists|i: int|
                0 <= i < state.chains.len() && request == balances_request(
                    state.drpc,
                    (#[trigger] state.chains[i]).slug,
                    address,
                    query,
                )
        },
        history_outcome(state, chain, address, query) matches Ok(request) ==> {
            &&& is_address(address)
            &&& exists|i: int|
                0 <= i < state.chains.len() && request == history_request(
                    state.drpc,
                    (#[trigger] state.chains[i]).slug,
                    address,
                    query,
                )
        },
{
    law_resolved_chain_is_registered(state.chains, chain);
}

/// With the filter off no body is refused: a known chain is all that it takes.
pub proof fn law_filter_off_passes_everything(state: StateModel, chain: Seq<char>, body: Seq<u8>)
    requires
        !state.method_denylist,
    ensures
        rpc_outcome(state, chain, body) is Ok <==> resolved(state.chains, chain) is Some,
{
}

/// With the filter on, a known chain and an accepted body are what it takes.
pub proof fn law_filter_on_passes_accepted_bodies(
    state: StateModel,
    chain: Seq<char>,
    body: Seq<u8>,
)
    requires
        state.method_denylist,
    ensures
        rpc_outcome(state, chain, body) is Ok <==> resolved(state.chains, chain) is Some
            && bytes_verdict(body) is Ok,
{
}

/// Callers who name one chain in different ways make the same request to the provider, and what it
/// says in its headers is the proxy's own: its user agent and the JSON media type, and no header of
/// a caller.
pub proof fn law_aliases_make_the_same_request(
    state: StateModel,
    a: Seq<char>,
    b: Seq<char>,
    body: Seq<u8>,
    address: Seq<char>,
    query: Option<Seq<char>>,
)
    requires
        resolved(state.chains, a) == resolved(state.chains, b),
    ensures
        rpc_outcome(state, a, body) == rpc_outcome(state, b, body),
        balances_outcome(state, a, address, query) == balances_outcome(state, b, address, query),
        history_outcome(state, a, address, query) == history_outcome(state, b, address, query),
        rpc_outcome(state, a, body) matches Ok(request) ==> has_own_headers(request),
        balances_outcome(state, a, address, query) matches Ok(request) ==> has_own_headers(request),
        history_outcome(state, a, address, query) matches Ok(request) ==> has_own_headers(request),
{
}

/// The two wallet routes refuse the same requests, for the same reasons: the chain first, then the
/// address.
pub proof fn law_wallet_routes_refuse_alike(
    state: StateModel,
    chain: Seq<char>,
    address: Seq<char>,
    query: Option<Seq<char>>,
)
    ensures
        balances_outcome(state, chain, address, query) is Ok <==> history_outcome(
            state,
            chain,
            address,
            query,
        ) is Ok,
        balances_outcome(state, chain, address, query) matches Err(e) ==> history_outcome(
            state,
            chain,
            address,
            query,
        ) == Err::<RequestModel, AppError>(e),
{
}

}
