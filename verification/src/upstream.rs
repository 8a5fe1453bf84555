//! The requests that the proxy sends to the provider.
//!
//! A request is originated here, not relayed: no client address, no client `User-Agent` and no
//! client cookie is part of one, only the JSON-RPC body, the wallet address and the query string
//! that the caller asked for. The `User-Agent` is the proxy's own. URLs hold the provider key. They are never logged and never part of
//! an error.
use crate::config::Key;
use crate::text::{decimal, optional_text, to_decimal};
use vstd::prelude::*;

verus! {

/// How a request to the provider failed.
#[derive(Debug, PartialEq, Eq)]
pub enum UpstreamError {
    /// Network, TLS or timeout: anything before there was an HTTP response.
    Transport,
    /// A status that the caller of the provider does not take. The proxy takes every status.
    Status(u16),
    /// A body that the caller of the provider cannot read. The proxy takes every body.
    Decode,
}

/// What an upstream error is called.
pub open spec fn upstream_message(e: UpstreamError) -> Seq<char> {
    match e {
        UpstreamError::Transport => "upstream transport error"@,
        UpstreamError::Status(code) => "upstream status "@ + decimal(code as nat),
        UpstreamError::Decode => "upstream decode error"@,
    }
}

impl UpstreamError {
    /// What this error is called.
    pub fn message(&self) -> (message: String)
        ensures
            message@ == upstream_message(*self),
    {
        match self {
            UpstreamError::Transport => "upstream transport error".to_owned(),
            UpstreamError::Status(code) => {
                let number = to_decimal(*code as u64);
                "upstream status ".to_owned().concat(number.as_str())
            },
            UpstreamError::Decode => "upstream decode error".to_owned(),
        }
    }
}

/// What the proxy calls itself towards the provider.
pub open spec fn agent() -> Seq<char> {
    "kao-proxy/0.1"@
}

/// What the proxy calls itself towards the provider.
pub fn user_agent() -> (name: &'static str)
    ensures
        name@ == agent(),
{
    "kao-proxy/0.1"
}

/// The methods of the requests to the provider.
#[derive(Clone, Copy, Debug, PartialEq, Eq)]
pub enum Method {
    Get,
    Post,
}

/// A request to the provider, with all the headers that the proxy asks for.
pub struct UpstreamRequest {
    pub method: Method,
    pub url: String,
    pub headers: Vec<(&'static str, &'static str)>,
    pub body: Option<Vec<u8>>,
}

/// What an `UpstreamRequest` says.
pub struct RequestModel {
    pub method: Method,
    pub url: Seq<char>,
    pub headers: Seq<(Seq<char>, Seq<char>)>,
    pub body: Option<Seq<u8>>,
}

impl View for UpstreamRequest {
    type V = RequestModel;

    open spec fn view(&self) -> RequestModel {
        RequestModel {
            method: self.method,
            url: self.url@,
            headers: self.headers@.map_values(
                |header: (&'static str, &'static str)| (header.0@, header.1@),
            ),
            body: match self.body {
                Some(bytes) => Some(bytes@),
                None => None,
            },
        }
    }
}

/// The provider: where it is and what it knows the proxy by.
pub struct Drpc {
    base: String,
    key: Key,
}

/// What a `Drpc` says.
pub struct DrpcModel {
    pub base: Seq<char>,
    pub key: Seq<char>,
}

impl View for Drpc {
    type V = DrpcModel;

    closed spec fn view(&self) -> DrpcModel {
        DrpcModel { base: self.base@, key: self.key@ }
    }
}

/// The URL of a chain's JSON-RPC endpoint; the wallet API lies below it.
pub open spec fn chain_url(drpc: DrpcModel, chain: Seq<char>) -> Seq<char> {
    drpc.base + "/"@ + chain + "/"@ + drpc.key
}

/// What a query string adds to a URL: nothing where there is none or it is empty.
pub open spec fn query_part(query: Option<Seq<char>>) -> Seq<char> {
    match query {
        Some(q) if q.len() > 0 => "?"@ + q,
        _ => Seq::empty(),
    }
}

/// The URL of a question to the wallet API: `area` is its part of the API, `suffix` the question.
pub open spec fn wallet_url(
    drpc: DrpcModel,
    chain: Seq<char>,
    area: Seq<char>,
    address: Seq<char>,
    suffix: Seq<char>,
    query: Option<Seq<char>>,
) -> Seq<char> {
    chain_url(drpc, chain) + "/"@ + area + "/"@ + address + "/"@ + suffix + query_part(query)
}

/// The request that passes a JSON-RPC body on.
pub open spec fn rpc_request(drpc: DrpcModel, chain: Seq<char>, body: Seq<u8>) -> RequestModel {
    RequestModel {
        method: Method::Post,
        url: chain_url(drpc, chain),
        headers: seq![("user-agent"@, agent()), ("content-type"@, "application/json"@)],
        body: Some(body),
    }
}

/// The request for a JSON document at a URL.
pub open spec fn get_request(url: Seq<char>) -> RequestModel {
    RequestModel {
        method: Method::Get,
        url,
        headers: seq![("user-agent"@, agent()), ("accept"@, "application/json"@)],
        body: None,
    }
}

/// The request for a wallet's balances on one chain.
pub open spec fn balances_request(
    drpc: DrpcModel,
    chain: Seq<char>,
    address: Seq<char>,
    query: Option<Seq<char>>,
) -> RequestModel {
    get_request(wallet_url(drpc, chain, "lambda/v2/wallets"@, address, "balances"@, query))
}

/// The request for a wallet's transaction history on one chain.
pub open spec fn history_request(
    drpc: DrpcModel,
    chain: Seq<char>,
    address: Seq<char>,
    query: Option<Seq<char>>,
) -> RequestModel {
    get_request(wallet_url(drpc, chain, "lambda/v1/transactions"@, address, "history"@, query))
}

impl Drpc {
    pub fn new(base: String, key: Key) -> (drpc: Drpc)
        ensures
            drpc@ == (DrpcModel { base: base@, key: key@ }),
    {
        Drpc { base, key }
    }

    /// JSON-RPC passthrough: the request that hands the body to a chain's endpoint.
    pub fn rpc(&self, chain: &str, body: &[u8]) -> (request: UpstreamRequest)
        ensures
            request@ == rpc_request(self@, chain@, body@),
    {
        let mut headers: Vec<(&'static str, &'static str)> = Vec::new();
        headers.push(("user-agent", user_agent()));
        headers.push(("content-type", "application/json"));
        let request = UpstreamRequest {
            method: Method::Post,
            url: self.chain_url(chain),
            headers,
            body: Some(vstd::slice::slice_to_vec(body)),
        };
        assert(request@.headers == rpc_request(self@, chain@, body@).headers);
        request
    }

    /// Wallet API: the current portfolio (native, ERC-20, DeFi) on one chain.
    pub fn balances(&self, chain: &str, address: &str, query: Option<&str>) -> (request:
        UpstreamRequest)
        ensures
            request@ == balances_request(self@, chain@, address@, optional_text(query)),
    {
        Drpc::get_json(self.wallet_url(chain, "lambda/v2/wallets", address, "balances", query))
    }

    /// Wallet API: the transaction history on one chain.
    pub fn transactions(&self, chain: &str, address: &str, query: Option<&str>) -> (request:
        UpstreamRequest)
        ensures
            request@ == history_request(self@, chain@, address@, optional_text(query)),
    {
        Drpc::get_json(self.wallet_url(chain, "lambda/v1/transactions", address, "history", query))
    }

    fn chain_url(&self, chain: &str) -> (url: String)
        ensures
            url@ == chain_url(self@, chain@),
    {
        let mut url = self.base.clone();
        url.push('/');
        url.append(chain);
        url.push('/');
        url.append(self.key.expose());
        proof {
            reveal_strlit("/");
            assert(url@ == chain_url(self@, chain@));
        }
        url
    }

    fn wallet_url(
        &self,
        chain: &str,
        area: &str,
        address: &str,
        suffix: &str,
        query: Option<&str>,
    ) -> (url: String)
        ensures
            url@ == wallet_url(self@, chain@, area@, address@, suffix@, optional_text(query)),
    {
        let mut url = self.chain_url(chain);
        url.push('/');
        url.append(area);
        url.push('/');
        url.append(address);
        url.push('/');
        url.append(suffix);
        if let Some(q) = query {
            if !q.is_empty() {
                url.push('?');
                url.append(q);
            }
        }
        proof {
            reveal_strlit("/");
            reveal_strlit("?");
            assert(url@ == wallet_url(
                self@,
                chain@,
                area@,
                address@,
                suffix@,
                optional_text(query),
            ));
        }
        url
    }

    fn get_json(url: String) -> (request: UpstreamRequest)
        ensures
            request@ == get_request(url@),
    {
        let mut headers: Vec<(&'static str, &'static str)> = Vec::new();
        headers.push(("user-agent", user_agent()));
        headers.push(("accept", "application/json"));
        let request = UpstreamRequest { method: Method::Get, url, headers, body: None };
        assert(request@.headers == get_request(url@).headers);
        request
    }
}

// ---- laws --------------------------------------------------------------------

/// Whether a request calls itself by the proxy's name, once, and has beside that only the header that
/// says that it sends JSON or asks for it.
pub open spec fn has_own_headers(request: RequestModel) -> bool {
    &&& request.headers.len() == 2
    &&& request.headers[0] == ("user-agent"@, agent())
    &&& {
        ||| request.headers[1] == ("content-type"@, "application/json"@)
        ||| request.headers[1] == ("accept"@, "application/json"@)
    }
}

/// The proxy's name for itself begins with `kao-proxy`.
pub proof fn law_agent_is_the_proxy()
    ensures
        "kao-proxy"@.is_prefix_of(agent()),
{
    reveal_strlit("kao-proxy");
    reveal_strlit("kao-proxy/0.1");
    assert(agent().take("kao-proxy"@.len() as int) == "kao-proxy"@);
}

/// The headers of a request are the same for every caller and every question of its kind.
pub proof fn law_headers_say_nothing_of_the_caller(
    a: DrpcModel,
    b: DrpcModel,
    chain: (Seq<char>, Seq<char>),
    body: (Seq<u8>, Seq<u8>),
    address: (Seq<char>, Seq<char>),
    query: (Option<Seq<char>>, Option<Seq<char>>),
)
    ensures
        rpc_request(a, chain.0, body.0).headers == rpc_request(b, chain.1, body.1).headers,
        balances_request(a, chain.0, address.0, query.0).headers == balances_request(
            b,
            chain.1,
            address.1,
            query.1,
        ).headers,
        history_request(a, chain.0, address.0, query.0).headers == history_request(
            b,
            chain.1,
            address.1,
            query.1,
        ).headers,
{
}

/// A query string is forwarded verbatim behind a question mark, and an empty one is as none.
pub proof fn law_query_is_forwarded_verbatim(
    drpc: DrpcModel,
    chain: Seq<char>,
    area: Seq<char>,
    address: Seq<char>,
    suffix: Seq<char>,
    q: Seq<char>,
)
    ensures
        wallet_url(drpc, chain, area, address, suffix, Some(q)) == wallet_url(
            drpc,
            chain,
            area,
            address,
            suffix,
            None,
        ) + (if q.len() > 0 {
            "?"@ + q
        } else {
            Seq::empty()
        }),
{
    let bare = chain_url(drpc, chain) + "/"@ + area + "/"@ + address + "/"@ + suffix;
    assert(bare + Seq::<char>::empty() == bare);
}

/// Every URL of a chain begins with the base, the chain and the key.
pub proof fn law_urls_lie_below_the_chain(
    drpc: DrpcModel,
    chain: Seq<char>,
    area: Seq<char>,
    address: Seq<char>,
    suffix: Seq<char>,
    query: Option<Seq<char>>,
)
    ensures
        chain_url(drpc, chain).is_prefix_of(
            wallet_url(drpc, chain, area, address, suffix, query),
        ),
        drpc.base.is_prefix_of(chain_url(drpc, chain)),
{
    let below = chain_url(drpc, chain);
    let url = wallet_url(drpc, chain, area, address, suffix, query);
    assert(url.take(below.len() as int) == below);
    assert(below.take(drpc.base.len() as int) == drpc.base);
}

}
