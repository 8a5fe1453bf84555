//! Configuration, the search for the provider key, and the chain registry.
//!
//! The key ends up in the path of every upstream URL (that is how the provider authenticates), so
//! it is wrapped in `Key`, whose printed form is `Key(***)` whatever it holds.
use crate::text::{
    decimal, is_space, law_decimal_reads_back, law_trimmed, law_without_trailing, optional_string,
    parse_number, parsed_number, same_text, trim, trim_end_of, trimmed, without_trailing,
};
use vstd::prelude::*;

verus! {

// ---- the key -----------------------------------------------------------------

/// A secret text that refuses to print itself. Its view is the secret.
pub struct Key(String);

impl View for Key {
    type V = Seq<char>;

    closed spec fn view(&self) -> Seq<char> {
        self.0@
    }
}

impl Key {
    pub fn new(s: &str) -> (key: Key)
        ensures
            key@ == s@,
    {
        Key(s.to_owned())
    }

    /// The secret itself.
    pub fn expose(&self) -> (s: &str)
        ensures
            s@ == self@,
    {
        self.0.as_str()
    }

    /// What a log line may show of a key: the same text for every key.
    pub fn redacted(&self) -> (s: &'static str)
        ensures
            s@ == "Key(***)"@,
    {
        "Key(***)"
    }
}

// ---- the chain registry ------------------------------------------------------

/// One supported chain. `slug` is the provider's path segment; `aliases` are accepted on the
/// proxy's own routes, so that callers can say `mainnet`, `op`, `1` and so on.
#[derive(Clone, Copy)]
pub struct ChainSpec {
    pub slug: &'static str,
    pub chain_id: u64,
    pub aliases: &'static [&'static str],
}

/// What a `ChainSpec` says.
pub struct ChainModel {
    pub slug: Seq<char>,
    pub chain_id: u64,
    pub aliases: Seq<Seq<char>>,
}

impl View for ChainSpec {
    type V = ChainModel;

    open spec fn view(&self) -> ChainModel {
        ChainModel {
            slug: self.slug@,
            chain_id: self.chain_id,
            aliases: self.aliases@.map_values(|alias: &'static str| alias@),
        }
    }
}

/// What a list of chains says.
pub open spec fn registry(chains: Seq<ChainSpec>) -> Seq<ChainModel> {
    chains.map_values(|chain: ChainSpec| chain@)
}

/// The chains that the proxy supports.
pub open spec fn default_registry() -> Seq<ChainModel> {
    seq![
        ChainModel {
            slug: "ethereum"@,
            chain_id: 1,
            aliases: seq!["mainnet"@, "eth"@, "1"@],
        },
        ChainModel { slug: "optimism"@, chain_id: 10, aliases: seq!["op"@, "10"@] },
        ChainModel { slug: "base"@, chain_id: 8453, aliases: seq!["8453"@] },
    ]
}

pub fn default_chains() -> (chains: Vec<ChainSpec>)
    ensures
        registry(chains@) == default_registry(),
{
    let chains = vec![
        ChainSpec { slug: "ethereum", chain_id: 1, aliases: &["mainnet", "eth", "1"] },
        ChainSpec { slug: "optimism", chain_id: 10, aliases: &["op", "10"] },
        ChainSpec { slug: "base", chain_id: 8453, aliases: &["8453"] },
    ];
    proof {
        let said = registry(chains@);
        assert(said[0].aliases == seq!["mainnet"@, "eth"@, "1"@]);
        assert(said[1].aliases == seq!["op"@, "10"@]);
        assert(said[2].aliases == seq!["8453"@]);
        assert(said == default_registry());
    }
    chains
}

// ---- the search for the key --------------------------------------------------

/// A place where the key is looked for.
pub enum KeySource {
    /// The variable that names the key's file.
    FileVar,
    /// The file that the variable named.
    NamedFile(String),
    /// The default mount of a container secret.
    DefaultFile,
    /// The variable that holds the key itself, for local development.
    KeyVar,
}

/// What has to be read to consult a source: an environment variable or a file.
pub enum KeyQuery<'a> {
    Var(&'a str),
    File(&'a str),
}

/// How the search goes on once a source has been consulted.
pub enum KeyStep {
    Ask(KeySource),
    Found(Key),
    Failed(String),
}

/// What a `KeySource` says.
pub enum SourceModel {
    FileVar,
    NamedFile(Seq<char>),
    DefaultFile,
    KeyVar,
}

/// What a `KeyQuery` says.
pub enum QueryModel {
    Var(Seq<char>),
    File(Seq<char>),
}

/// What a `KeyStep` says.
pub enum StepModel {
    Ask(SourceModel),
    Found(Seq<char>),
    Failed(Seq<char>),
}

impl View for KeySource {
    type V = SourceModel;

    open spec fn view(&self) -> SourceModel {
        match *self {
            KeySource::FileVar => SourceModel::FileVar,
            KeySource::NamedFile(path) => SourceModel::NamedFile(path@),
            KeySource::DefaultFile => SourceModel::DefaultFile,
            KeySource::KeyVar => SourceModel::KeyVar,
        }
    }
}

impl<'a> View for KeyQuery<'a> {
    type V = QueryModel;

    open spec fn view(&self) -> QueryModel {
        match *self {
            KeyQuery::Var(name) => QueryModel::Var(name@),
            KeyQuery::File(path) => QueryModel::File(path@),
        }
    }
}

impl View for KeyStep {
    type V = StepModel;

    open spec fn view(&self) -> StepModel {
        match *self {
            KeyStep::Ask(source) => StepModel::Ask(source@),
            KeyStep::Found(key) => StepModel::Found(key@),
            KeyStep::Failed(message) => StepModel::Failed(message@),
        }
    }
}

/// What has to be read to consult a source.
pub open spec fn source_query(source: SourceModel) -> QueryModel {
    match source {
        SourceModel::FileVar => QueryModel::Var("DRPC_KEY_FILE"@),
        SourceModel::NamedFile(path) => QueryModel::File(path),
        SourceModel::DefaultFile => QueryModel::File("/run/secrets/drpc_key"@),
        SourceModel::KeyVar => QueryModel::Var("DRPC_KEY"@),
    }
}

/// The message that names a key file that could not be read.
pub open spec fn unreadable_file(path: Seq<char>, reason: Seq<char>) -> Seq<char> {
    "reading DRPC_KEY_FILE "@ + path + ": "@ + reason
}

/// The message that says that no source holds a key.
pub open spec fn no_key() -> Seq<char> {
    "no dRPC key: mount a podman secret and set DRPC_KEY_FILE (or DRPC_KEY for dev)"@
}

/// How the search goes on when a source has given this answer: its text, or why it has none.
pub open spec fn next_step(
    source: SourceModel,
    answer: Result<Seq<char>, Seq<char>>,
) -> StepModel {
    match (source, answer) {
        (SourceModel::FileVar, Ok(path)) => StepModel::Ask(SourceModel::NamedFile(path)),
        (SourceModel::FileVar, Err(_)) => StepModel::Ask(SourceModel::DefaultFile),
        (SourceModel::NamedFile(path), Err(reason)) => StepModel::Failed(
            unreadable_file(path, reason),
        ),
        (SourceModel::DefaultFile, Err(_)) => StepModel::Ask(SourceModel::KeyVar),
        (SourceModel::KeyVar, Err(_)) => StepModel::Failed(no_key()),
        (_, Ok(raw)) => StepModel::Found(trimmed(raw)),
    }
}

/// What an answer says.
pub open spec fn answer_text(answer: Result<String, String>) -> Result<Seq<char>, Seq<char>> {
    match answer {
        Ok(text) => Ok(text@),
        Err(reason) => Err(reason@),
    }
}

impl KeySource {
    /// The source that the search begins with.
    pub fn first() -> (source: KeySource)
        ensures
            source@ == SourceModel::FileVar,
    {
        KeySource::FileVar
    }

    /// What has to be read to consult this source.
    pub fn query(&self) -> (query: KeyQuery<'_>)
        ensures
            query@ == source_query(self@),
    {
        match self {
            KeySource::FileVar => KeyQuery::Var("DRPC_KEY_FILE"),
            KeySource::NamedFile(path) => KeyQuery::File(path.as_str()),
            KeySource::DefaultFile => KeyQuery::File("/run/secrets/drpc_key"),
            KeySource::KeyVar => KeyQuery::Var("DRPC_KEY"),
        }
    }
}

/// One step of the search for the key. A file is preferred: the one that a variable names, else
/// the default secret mount. A variable that holds the key comes last, for local development only
/// (variables are visible to anything that can read the process environment).
pub fn load_key(source: KeySource, answer: Result<String, String>) -> (step: KeyStep)
    ensures
        step@ == next_step(source@, answer_text(answer)),
{
    match answer {
        Ok(text) => match source {
            KeySource::FileVar => KeyStep::Ask(KeySource::NamedFile(text)),
            _ => KeyStep::Found(Key(trim(text.as_str()))),
        },
        Err(reason) => match source {
            KeySource::FileVar => KeyStep::Ask(KeySource::DefaultFile),
            KeySource::NamedFile(path) => {
                let mut message = "reading DRPC_KEY_FILE ".to_owned();
                message.append(path.as_str());
                message.append(": ");
                message.append(reason.as_str());
                KeyStep::Failed(message)
            },
            KeySource::DefaultFile => KeyStep::Ask(KeySource::KeyVar),
            KeySource::KeyVar => KeyStep::Failed(
                "no dRPC key: mount a podman secret and set DRPC_KEY_FILE (or DRPC_KEY for dev)".to_owned(),
            ),
        },
    }
}

// ---- the configuration -------------------------------------------------------

/// The settings that environment variables give.
#[derive(Clone, Copy, Debug, PartialEq, Eq)]
pub enum Setting {
    BindAddr,
    DrpcBase,
    BodyLimit,
    MethodFilter,
    UpstreamTimeout,
    ConnectTimeout,
}

/// The environment variable that gives a setting.
pub open spec fn setting_var(setting: Setting) -> Seq<char> {
    match setting {
        Setting::BindAddr => "BIND_ADDR"@,
        Setting::DrpcBase => "DRPC_BASE"@,
        Setting::BodyLimit => "RPC_BODY_LIMIT_BYTES"@,
        Setting::MethodFilter => "RPC_METHOD_FILTER"@,
        Setting::UpstreamTimeout => "UPSTREAM_TIMEOUT_SECS"@,
        Setting::ConnectTimeout => "UPSTREAM_CONNECT_TIMEOUT_SECS"@,
    }
}

/// All settings, in the order in which they are read.
pub open spec fn all_settings() -> Seq<Setting> {
    seq![
        Setting::BindAddr,
        Setting::DrpcBase,
        Setting::BodyLimit,
        Setting::MethodFilter,
        Setting::UpstreamTimeout,
        Setting::ConnectTimeout,
    ]
}

impl Setting {
    /// All settings, in the order in which they are read.
    pub fn all() -> (settings: Vec<Setting>)
        ensures
            settings@ == all_settings(),
    {
        vec![
            Setting::BindAddr,
            Setting::DrpcBase,
            Setting::BodyLimit,
            Setting::MethodFilter,
            Setting::UpstreamTimeout,
            Setting::ConnectTimeout,
        ]
    }

    /// The environment variable that gives this setting.
    pub fn var(&self) -> (name: &'static str)
        ensures
            name@ == setting_var(*self),
    {
        match self {
            Setting::BindAddr => "BIND_ADDR",
            Setting::DrpcBase => "DRPC_BASE",
            Setting::BodyLimit => "RPC_BODY_LIMIT_BYTES",
            Setting::MethodFilter => "RPC_METHOD_FILTER",
            Setting::UpstreamTimeout => "UPSTREAM_TIMEOUT_SECS",
            Setting::ConnectTimeout => "UPSTREAM_CONNECT_TIMEOUT_SECS",
        }
    }
}

/// What the environment variables of the settings hold; `None` for one that is not set.
pub struct EnvVars {
    /// `BIND_ADDR`
    pub bind_addr: Option<String>,
    /// `DRPC_BASE`
    pub drpc_base: Option<String>,
    /// `RPC_BODY_LIMIT_BYTES`
    pub body_limit: Option<String>,
    /// `RPC_METHOD_FILTER`
    pub method_filter: Option<String>,
    /// `UPSTREAM_TIMEOUT_SECS`
    pub upstream_timeout: Option<String>,
    /// `UPSTREAM_CONNECT_TIMEOUT_SECS`
    pub connect_timeout: Option<String>,
}

/// What an `EnvVars` says.
pub struct VarsModel {
    pub bind_addr: Option<Seq<char>>,
    pub drpc_base: Option<Seq<char>>,
    pub body_limit: Option<Seq<char>>,
    pub method_filter: Option<Seq<char>>,
    pub upstream_timeout: Option<Seq<char>>,
    pub connect_timeout: Option<Seq<char>>,
}

impl View for EnvVars {
    type V = VarsModel;

    open spec fn view(&self) -> VarsModel {
        VarsModel {
            bind_addr: optional_string(self.bind_addr),
            drpc_base: optional_string(self.drpc_base),
            body_limit: optional_string(self.body_limit),
            method_filter: optional_string(self.method_filter),
            upstream_timeout: optional_string(self.upstream_timeout),
            connect_timeout: optional_string(self.connect_timeout),
        }
    }
}

/// The variables where none is set.
pub open spec fn no_vars() -> VarsModel {
    VarsModel {
        bind_addr: None,
        drpc_base: None,
        body_limit: None,
        method_filter: None,
        upstream_timeout: None,
        connect_timeout: None,
    }
}

/// What the variable of a setting holds.
pub open spec fn var_of(vars: VarsModel, setting: Setting) -> Option<Seq<char>> {
    match setting {
        Setting::BindAddr => vars.bind_addr,
        Setting::DrpcBase => vars.drpc_base,
        Setting::BodyLimit => vars.body_limit,
        Setting::MethodFilter => vars.method_filter,
        Setting::UpstreamTimeout => vars.upstream_timeout,
        Setting::ConnectTimeout => vars.connect_timeout,
    }
}

/// The variables with that of one setting replaced.
pub open spec fn with_var(
    vars: VarsModel,
    setting: Setting,
    value: Option<Seq<char>>,
) -> VarsModel {
    match setting {
        Setting::BindAddr => VarsModel { bind_addr: value, ..vars },
        Setting::DrpcBase => VarsModel { drpc_base: value, ..vars },
        Setting::BodyLimit => VarsModel { body_limit: value, ..vars },
        Setting::MethodFilter => VarsModel { method_filter: value, ..vars },
        Setting::UpstreamTimeout => VarsModel { upstream_timeout: value, ..vars },
        Setting::ConnectTimeout => VarsModel { connect_timeout: value, ..vars },
    }
}

impl EnvVars {
    /// The variables where none is set.
    pub fn new() -> (vars: EnvVars)
        ensures
            vars@ == no_vars(),
    {
        EnvVars {
            bind_addr: None,
            drpc_base: None,
            body_limit: None,
            method_filter: None,
            upstream_timeout: None,
            connect_timeout: None,
        }
    }

    /// Takes down what the variable of a setting holds.
    pub fn set(&mut self, setting: Setting, value: Option<String>)
        ensures
            final(self)@ == with_var(old(self)@, setting, optional_string(value)),
    {
        match setting {
            Setting::BindAddr => self.bind_addr = value,
            Setting::DrpcBase => self.drpc_base = value,
            Setting::BodyLimit => self.body_limit = value,
            Setting::MethodFilter => self.method_filter = value,
            Setting::UpstreamTimeout => self.upstream_timeout = value,
            Setting::ConnectTimeout => self.connect_timeout = value,
        }
    }
}

/// How the proxy runs. `A` is the type of a socket address.
pub struct Config<A> {
    pub bind: A,
    pub drpc_base: String,
    pub key: Key,
    pub chains: Vec<ChainSpec>,
    pub body_limit: usize,
    /// When true, refuse JSON-RPC methods that are expensive or make no sense over HTTP, so that a
    /// leaked endpoint cannot burn the shared key on archival traces. `RPC_METHOD_FILTER=off` turns
    /// it off.
    pub method_denylist: bool,
    /// In seconds.
    pub upstream_timeout: u64,
    /// In seconds.
    pub connect_timeout: u64,
}

/// The number that a variable gives: what it denotes, or the default where it is not set or
/// denotes no number up to `max`.
pub open spec fn number_or(value: Option<Seq<char>>, max: nat, default: nat) -> nat {
    match value {
        Some(text) => match parsed_number(text, max) {
            Some(n) => n,
            None => default,
        },
        None => default,
    }
}

/// The address to listen on: what `BIND_ADDR` holds, else the loopback default.
pub open spec fn bind_choice(value: Option<Seq<char>>) -> Seq<char> {
    match value {
        Some(text) => text,
        None => "127.0.0.1:8080"@,
    }
}

/// The provider's base URL: what `DRPC_BASE` holds, else the provider's public one, without
/// slashes at its end.
pub open spec fn base_choice(value: Option<Seq<char>>) -> Seq<char> {
    match value {
        Some(text) => without_trailing(text, '/'),
        None => "https://lb.drpc.live"@,
    }
}

/// Whether method filtering is on: unless `RPC_METHOD_FILTER` is `off`.
pub open spec fn filter_choice(value: Option<Seq<char>>) -> bool {
    value != Some("off"@)
}

/// The number that a variable gives, or the default.
pub fn env_u64(value: &Option<String>, default: u64) -> (n: u64)
    ensures
        n == number_or(optional_string(*value), u64::MAX as nat, default as nat),
{
    match value {
        Some(text) => match parse_number(text.as_str(), u64::MAX) {
            Some(n) => n,
            None => default,
        },
        None => default,
    }
}

/// The number that a variable gives, or the default.
pub fn env_usize(value: &Option<String>, default: usize) -> (n: usize)
    ensures
        n == number_or(optional_string(*value), usize::MAX as nat, default as nat),
{
    match value {
        Some(text) => match parse_number(text.as_str(), usize::MAX as u64) {
            Some(n) => n as usize,
            None => default,
        },
        None => default,
    }
}

/// The text of the address to listen on.
pub fn bind_text(vars: &EnvVars) -> (text: String)
    ensures
        text@ == bind_choice(vars@.bind_addr),
{
    match &vars.bind_addr {
        Some(text) => text.clone(),
        None => "127.0.0.1:8080".to_owned(),
    }
}

impl<A> Config<A> {
    /// The configuration that an environment gives. `bind` is the address that `bind_text` denotes,
    /// or why it denotes none; `key` is what the search for the key came to.
    pub fn from_env(
        bind: Result<A, String>,
        vars: &EnvVars,
        key: Result<Key, String>,
    ) -> (r: Result<Config<A>, String>)
        ensures
            match (bind, key) {
                (Err(reason), _) => r matches Err(message) && message@ == "BIND_ADDR invalid: "@
                    + reason@,
                (Ok(_), Err(reason)) => r matches Err(message) && message@ == reason@,
                (Ok(bind), Ok(key)) => r matches Ok(config) && {
                    &&& config.bind == bind
                    &&& config.drpc_base@ == base_choice(vars@.drpc_base)
                    &&& config.key@ == key@
                    &&& registry(config.chains@) == default_registry()
                    &&& config.body_limit == number_or(
                        vars@.body_limit,
                        usize::MAX as nat,
                        1048576,
                    )
                    &&& config.method_denylist == filter_choice(vars@.method_filter)
                    &&& config.upstream_timeout == number_or(
                        vars@.upstream_timeout,
                        u64::MAX as nat,
                        20,
                    )
                    &&& config.connect_timeout == number_or(
                        vars@.connect_timeout,
                        u64::MAX as nat,
                        8,
                    )
                },
            },
    {
        let bind = match bind {
            Ok(bind) => bind,
            Err(reason) => {
                let mut message = "BIND_ADDR invalid: ".to_owned();
                message.append(reason.as_str());
                return Err(message);
            },
        };
        let key = match key {
            Ok(key) => key,
            Err(reason) => return Err(reason),
        };
        let drpc_base = match &vars.drpc_base {
            Some(text) => trim_end_of(text.as_str(), '/'),
            None => "https://lb.drpc.live".to_owned(),
        };
        let method_denylist = match &vars.method_filter {
            Some(text) => !same_text(text.as_str(), "off"),
            None => true,
        };
        Ok(
            Config {
                bind,
                drpc_base,
                key,
                chains: default_chains(),
                body_limit: env_usize(&vars.body_limit, 1048576),
                method_denylist,
                upstream_timeout: env_u64(&vars.upstream_timeout, 20),
                connect_timeout: env_u64(&vars.connect_timeout, 8),
            },
        )
    }
}

// ---- laws --------------------------------------------------------------------

/// What the search comes to from a source on, within a number of further sources, where `world`
/// answers its questions.
pub open spec fn search(
    source: SourceModel,
    world: spec_fn(QueryModel) -> Result<Seq<char>, Seq<char>>,
    steps: nat,
) -> StepModel
    decreases steps,
{
    match next_step(source, world(source_query(source))) {
        StepModel::Ask(next) if steps > 0 => search(next, world, (steps - 1) as nat),
        step => step,
    }
}

/// The search for the key in one piece: a file that is named counts alone, whether it can be read
/// or not; without one the default secret mount comes before the variable.
pub open spec fn search_result(
    world: spec_fn(QueryModel) -> Result<Seq<char>, Seq<char>>,
) -> StepModel {
    match world(QueryModel::Var("DRPC_KEY_FILE"@)) {
        Ok(path) => match world(QueryModel::File(path)) {
            Ok(raw) => StepModel::Found(trimmed(raw)),
            Err(reason) => StepModel::Failed(unreadable_file(path, reason)),
        },
        Err(_) => match world(QueryModel::File("/run/secrets/drpc_key"@)) {
            Ok(raw) => StepModel::Found(trimmed(raw)),
            Err(_) => match world(QueryModel::Var("DRPC_KEY"@)) {
                Ok(raw) => StepModel::Found(trimmed(raw)),
                Err(_) => StepModel::Failed(no_key()),
            },
        },
    }
}

/// From its first source on, the search ends after at most two further sources, with a key or a
/// failure, and prefers a named file to the default file to the variable.
pub proof fn law_search_order(world: spec_fn(QueryModel) -> Result<Seq<char>, Seq<char>>)
    ensures
        search(SourceModel::FileVar, world, 2) == search_result(world),
{
    reveal_with_fuel(search, 3);
}

/// What comes of reading the variables of some settings, one after the other, where `world` says
/// what the variable of a name holds.
pub open spec fn gathered(
    vars: VarsModel,
    settings: Seq<Setting>,
    world: spec_fn(Seq<char>) -> Option<Seq<char>>,
) -> VarsModel
    decreases settings.len(),
{
    if settings.len() == 0 {
        vars
    } else {
        let first = settings.first();
        gathered(
            with_var(vars, first, world(setting_var(first))),
            settings.drop_first(),
            world,
        )
    }
}

/// Reading the variables of all settings gives each setting what its own variable holds.
pub proof fn law_every_setting_has_its_variable(
    vars: VarsModel,
    world: spec_fn(Seq<char>) -> Option<Seq<char>>,
    setting: Setting,
)
    ensures
        var_of(gathered(vars, all_settings(), world), setting) == world(setting_var(setting)),
{
    reveal_with_fuel(gathered, 7);
}

/// No two settings share a variable.
pub proof fn law_settings_have_distinct_variables(a: Setting, b: Setting)
    ensures
        setting_var(a) == setting_var(b) <==> a == b,
{
    reveal_strlit("BIND_ADDR");
    reveal_strlit("DRPC_BASE");
    reveal_strlit("RPC_BODY_LIMIT_BYTES");
    reveal_strlit("RPC_METHOD_FILTER");
    reveal_strlit("UPSTREAM_TIMEOUT_SECS");
    reveal_strlit("UPSTREAM_CONNECT_TIMEOUT_SECS");
    let (x, y) = (setting_var(a), setting_var(b));
    if a != b {
        assert(x.len() != y.len() || x[0] != y[0]);
    }
}

/// Every key that the search finds is without whitespace at its ends.
pub proof fn law_found_key_is_trimmed(source: SourceModel, answer: Result<Seq<char>, Seq<char>>)
    ensures
        next_step(source, answer) matches StepModel::Found(key) ==> key.len() > 0 ==> !is_space(
            key.first(),
        ) && !is_space(key.last()),
{
    if let Ok(raw) = answer {
        law_trimmed(raw);
    }
}

/// The base URL never ends in a slash.
pub proof fn law_base_without_trailing_slash(value: Option<Seq<char>>)
    ensures
        base_choice(value).len() > 0 ==> base_choice(value).last() != '/',
{
    reveal_strlit("https://lb.drpc.live");
    if let Some(text) = value {
        law_without_trailing(text, '/');
    }
}

/// A number variable that was written in decimal is taken at its word.
pub proof fn law_written_number_is_read(n: nat, max: nat, default: nat)
    requires
        n <= max,
    ensures
        number_or(Some(decimal(n)), max, default) == n,
{
    law_decimal_reads_back(n, max);
}

}
