//! What the proxy promises, said of what goes in and what comes out.
//!
//! Each law speaks of one operation by its result alone: of the characters of a text, of the parts
//! that a URL is made of, of the names that a registry holds. The laws are stated for all inputs, and
//! together they leave the results no room.
use crate::config::{
    all_settings, answer_text, base_choice, bind_choice, default_registry, filter_choice, next_step,
    no_vars, number_or, registry, setting_var, source_query, var_of, with_var, ChainModel, ChainSpec,
    EnvVars, KeyQuery, KeySource, KeyStep, QueryModel, Setting, SourceModel, StepModel, VarsModel,
};
use crate::json::{json_read, tree_member, JsonTree};
use crate::nesting::{
    document_name, has_few_documents, has_name, name_at, openings, resolved_escapes, shallow,
};
use crate::routes::{
    balances_outcome, body_verdict, bytes_body, bytes_verdict, call_verdict,
    error_message, error_status, error_tree, goes_by, history_outcome, is_address, outcome,
    passed_status, reads_body, resolved, rpc_outcome, slug_of, tree_method, AppError, AppState,
    BodyModel, RpcBody, StateModel,
};
use crate::text::{
    decimal, digits_value, is_digit, is_space, lowered, number_digits, optional_string,
    optional_text, parsed_number, trimmed, without_leading_space, without_trailing,
    without_trailing_space,
};
use crate::upstream::{
    agent, balances_request, history_request, rpc_request, upstream_message, DrpcModel, Method,
    RequestModel, UpstreamError, UpstreamRequest,
};
use vstd::prelude::*;

verus! {

// ---- texts -------------------------------------------------------------------

/// An optional text holds the characters of the text, and is there exactly where the text is.
pub proof fn law_optional_texts(s: Option<&str>, t: Option<String>)
    ensures
        optional_text(s) is Some <==> s is Some,
        s matches Some(text) ==> optional_text(s) == Some(text@),
        optional_string(t) is Some <==> t is Some,
        t matches Some(text) ==> optional_string(t) == Some(text@),
{
}

/// Lower-casing keeps the length, moves each of the letters `A` to `Z` by the distance between the
/// two cases, and leaves every other character alone.
pub proof fn law_lowered_letter_by_letter(s: Seq<char>)
    ensures
        lowered(s).len() == s.len(),
        forall|i: int|
            #![trigger lowered(s)[i]]
            0 <= i < s.len() ==> lowered(s)[i] as int == s[i] as int + (if 65 <= s[i] as int <= 90 {
                32int
            } else {
                0
            }),
{
}

/// Trimming takes whitespace off the two ends and nothing else. Where a text is a run of whitespace,
/// a middle that neither begins nor ends in whitespace, and a run of whitespace again, the trimmed
/// text is the middle. `space` tells the characters with Unicode's `White_Space` property.
pub proof fn law_trimmed_is_the_middle(
    before: Seq<char>,
    middle: Seq<char>,
    after: Seq<char>,
    space: spec_fn(char) -> bool,
)
    requires
        forall|c: char| #[trigger]
            space(c) <==> (9 <= c as int <= 13 || c as int == 32 || c as int == 133 || c as int
                == 160 || c as int == 5760 || 8192 <= c as int <= 8202 || c as int == 8232
                || c as int == 8233 || c as int == 8239 || c as int == 8287 || c as int == 12288),
        forall|i: int| 0 <= i < before.len() ==> space(#[trigger] before[i]),
        forall|i: int| 0 <= i < after.len() ==> space(#[trigger] after[i]),
        middle.len() > 0 ==> !space(middle.first()) && !space(middle.last()),
    ensures
        trimmed(before + middle + after) == middle,
{
    lemma_space(space);
    let s = before + middle + after;
    lemma_leading(before, middle + after);
    assert(s == before + (middle + after));
    if middle.len() > 0 {
        assert((middle + after).first() == middle.first());
        assert(without_leading_space(middle + after) == middle + after);
        lemma_trailing(middle, after);
        assert(without_trailing_space(middle) == middle);
    } else {
        lemma_leading(after, Seq::empty());
        assert(after + Seq::<char>::empty() == after);
        assert(middle + after == after);
        assert(without_leading_space(after) == Seq::<char>::empty());
    }
}

proof fn lemma_space(space: spec_fn(char) -> bool)
    requires
        forall|c: char| #[trigger]
            space(c) <==> (9 <= c as int <= 13 || c as int == 32 || c as int == 133 || c as int
                == 160 || c as int == 5760 || 8192 <= c as int <= 8202 || c as int == 8232
                || c as int == 8233 || c as int == 8239 || c as int == 8287 || c as int == 12288),
    ensures
        forall|c: char| #[trigger] is_space(c) == space(c),
        forall|c: char| is_space(c) == #[trigger] space(c),
{
}

proof fn lemma_leading(before: Seq<char>, rest: Seq<char>)
    requires
        forall|i: int| 0 <= i < before.len() ==> is_space(#[trigger] before[i]),
    ensures
        without_leading_space(before + rest) == without_leading_space(rest),
    decreases before.len(),
{
    if before.len() > 0 {
        assert((before + rest).drop_first() == before.drop_first() + rest);
        assert((before + rest).first() == before[0]);
        lemma_leading(before.drop_first(), rest);
    } else {
        assert(before + rest == rest);
    }
}

proof fn lemma_trailing(rest: Seq<char>, after: Seq<char>)
    requires
        forall|i: int| 0 <= i < after.len() ==> is_space(#[trigger] after[i]),
    ensures
        without_trailing_space(rest + after) == without_trailing_space(rest),
    decreases after.len(),
{
    if after.len() > 0 {
        assert((rest + after).drop_last() == rest + after.drop_last());
        assert((rest + after).last() == after[after.len() - 1]);
        lemma_trailing(rest, after.drop_last());
    } else {
        assert(rest + after == rest);
    }
}

/// A character is taken off the end of a text as often as it stands there: what is left of a text
/// that does not end in it, with any number of it behind, is that text.
pub proof fn law_trailing_characters_go(s: Seq<char>, tail: Seq<char>, c: char)
    requires
        s.len() > 0 ==> s.last() != c,
        forall|i: int| 0 <= i < tail.len() ==> tail[i] == c,
    ensures
        without_trailing(s + tail, c) == s,
    decreases tail.len(),
{
    if tail.len() > 0 {
        assert((s + tail).drop_last() == s + tail.drop_last());
        assert((s + tail).last() == tail[tail.len() - 1]);
        law_trailing_characters_go(s, tail.drop_last(), c);
    } else {
        assert(s + tail == s);
    }
}

// ---- decimal numbers ---------------------------------------------------------

/// A digit alone is its own number, if that is not too large.
pub proof fn law_one_digit(c: char, max: nat)
    requires
        48 <= c as int <= 57,
    ensures
        parsed_number(seq![c], max) == (if c as int - 48 <= max {
            Some((c as int - 48) as nat)
        } else {
            None
        }),
{
    reveal_with_fuel(digits_value, 2);
    let s = seq![c];
    assert(number_digits(s) == s);
    assert(s.drop_last().len() == 0);
    assert(digits_value(s) == (c as int - 48) as nat);
    assert forall|i: int| 0 <= i < s.len() implies is_digit(#[trigger] s[i]) by {}
}

/// One more digit makes ten times the number and the digit, if that is not too large.
pub proof fn law_one_more_digit(s: Seq<char>, c: char, n: nat, max: nat)
    requires
        48 <= c as int <= 57,
        parsed_number(s, max) == Some(n),
    ensures
        parsed_number(s.push(c), max) == (if n * 10 + (c as int - 48) <= max {
            Some((n * 10 + (c as int - 48)) as nat)
        } else {
            None
        }),
{
    let digits = number_digits(s);
    let more = number_digits(s.push(c));
    assert(more == digits.push(c));
    assert(more.drop_last() == digits);
    assert(digits_value(more) == n * 10 + (c as int - 48));
    assert forall|i: int| 0 <= i < more.len() implies is_digit(#[trigger] more[i]) by {
        if i < digits.len() {
            assert(more[i] == digits[i]);
        }
    }
}

/// One plus sign in front of a number changes nothing.
pub proof fn law_plus_sign(s: Seq<char>, max: nat)
    requires
        s.len() > 0,
        s[0] != '+',
    ensures
        parsed_number(seq!['+'] + s, max) == parsed_number(s, max),
{
    assert((seq!['+'] + s).drop_first() == s);
}

/// The bound only decides whether a number is taken, never which one it is.
pub proof fn law_bound_of_a_number(s: Seq<char>, n: nat, a: nat, b: nat)
    requires
        parsed_number(s, a) == Some(n),
    ensures
        n <= a,
        parsed_number(s, b) == (if n <= b {
            Some(n)
        } else {
            None
        }),
{
}

/// Every run of digits, with or without a plus sign in front, is a number for some bound.
pub proof fn law_digits_are_a_number(s: Seq<char>)
    requires
        s.len() > 0,
        s[0] == '+' ==> s.len() > 1,
        forall|i: int| 0 <= i < s.len() && !(i == 0 && s[0] == '+') ==> 48 <= #[trigger] s[i] as int <= 57,
    ensures
        exists|max: nat| #[trigger] parsed_number(s, max) is Some,
{
    let digits = number_digits(s);
    assert forall|i: int| 0 <= i < digits.len() implies is_digit(#[trigger] digits[i]) by {
        if s[0] == '+' {
            assert(digits[i] == s[i + 1]);
        }
    }
    assert(parsed_number(s, digits_value(digits)) is Some);
}

/// No text is a number that is empty, or a plus sign alone, or has a character other than a digit
/// anywhere behind one optional plus sign.
pub proof fn law_what_is_no_number(s: Seq<char>, i: int, max: nat)
    requires
        s.len() == 0 || (s.len() == 1 && s[0] == '+') || (0 <= i < s.len() && !(i == 0 && s[0]
            == '+') && !(48 <= s[i] as int <= 57)),
    ensures
        parsed_number(s, max) is None,
{
    let digits = number_digits(s);
    if s.len() > 0 && digits.len() > 0 {
        let j = if s[0] == '+' {
            i - 1
        } else {
            i
        };
        assert(digits[j] == s[i]);
        assert(!is_digit(digits[j]));
    }
}

/// A number below ten is written as its digit, and ten times a number and a digit as the number and
/// the digit behind it.
pub proof fn law_decimal_digit_by_digit(n: nat, d: nat)
    requires
        d < 10,
    ensures
        decimal(d).len() == 1,
        decimal(d)[0] as int == 48 + d,
        n > 0 ==> decimal(n * 10 + d) == decimal(n) + decimal(d),
{
    if n > 0 {
        assert((n * 10 + d) / 10 == n && (n * 10 + d) % 10 == d);
        assert(decimal(n) + decimal(d) == decimal(n).push(decimal(d)[0]));
    }
}

// ---- the chain registry ------------------------------------------------------

/// A registry says of each chain, in order, its slug, its chain id and its aliases, in order.
pub proof fn law_registry_chain_by_chain(chains: Seq<ChainSpec>, i: int, k: int)
    ensures
        registry(chains).len() == chains.len(),
        0 <= i < chains.len() ==> {
            &&& registry(chains)[i].slug == chains[i].slug@
            &&& registry(chains)[i].chain_id == chains[i].chain_id
            &&& registry(chains)[i].aliases.len() == chains[i].aliases@.len()
            &&& 0 <= k < chains[i].aliases@.len() ==> registry(chains)[i].aliases[k]
                == chains[i].aliases@[k]@
        },
{
}

/// The proxy supports Ethereum, Optimism and Base, in this order, under these names.
pub proof fn law_supported_chains()
    ensures
        default_registry().len() == 3,
        default_registry()[0].slug == "ethereum"@,
        default_registry()[0].chain_id == 1,
        default_registry()[0].aliases == seq!["mainnet"@, "eth"@, "1"@],
        default_registry()[1].slug == "optimism"@,
        default_registry()[1].chain_id == 10,
        default_registry()[1].aliases == seq!["op"@, "10"@],
        default_registry()[2].slug == "base"@,
        default_registry()[2].chain_id == 8453,
        default_registry()[2].aliases == seq!["8453"@],
{
}

// ---- the search for the key --------------------------------------------------

/// The search asks for the variable that names a file, for that file, for the secret mount and for
/// the variable that holds the key.
pub proof fn law_where_the_key_is_looked_for(path: Seq<char>)
    ensures
        source_query(SourceModel::FileVar) == QueryModel::Var("DRPC_KEY_FILE"@),
        source_query(SourceModel::NamedFile(path)) == QueryModel::File(path),
        source_query(SourceModel::DefaultFile) == QueryModel::File("/run/secrets/drpc_key"@),
        source_query(SourceModel::KeyVar) == QueryModel::Var("DRPC_KEY"@),
{
}

/// What any source but the first holds is the key, without the whitespace around it.
pub proof fn law_what_a_source_holds_is_the_key(
    source: SourceModel,
    before: Seq<char>,
    key: Seq<char>,
    after: Seq<char>,
    space: spec_fn(char) -> bool,
)
    requires
        source != SourceModel::FileVar,
        forall|c: char| #[trigger]
            space(c) <==> (9 <= c as int <= 13 || c as int == 32 || c as int == 133 || c as int
                == 160 || c as int == 5760 || 8192 <= c as int <= 8202 || c as int == 8232
                || c as int == 8233 || c as int == 8239 || c as int == 8287 || c as int == 12288),
        forall|i: int| 0 <= i < before.len() ==> space(#[trigger] before[i]),
        forall|i: int| 0 <= i < after.len() ==> space(#[trigger] after[i]),
        key.len() > 0 ==> !space(key.first()) && !space(key.last()),
    ensures
        next_step(source, Ok(before + key + after)) == StepModel::Found(key),
{
    law_trimmed_is_the_middle(before, key, after, space);
}

/// A variable that names a file sends the search to that file and to no other place. What is missing
/// sends it on, from the variable to the mount and from there to the last variable; a named file that
/// cannot be read ends it, and so does the last variable.
pub proof fn law_where_the_search_goes_on(path: Seq<char>, reason: Seq<char>)
    ensures
        next_step(SourceModel::FileVar, Ok(path)) == StepModel::Ask(SourceModel::NamedFile(path)),
        next_step(SourceModel::FileVar, Err(reason)) == StepModel::Ask(SourceModel::DefaultFile),
        next_step(SourceModel::DefaultFile, Err(reason)) == StepModel::Ask(SourceModel::KeyVar),
        next_step(SourceModel::NamedFile(path), Err(reason)) == StepModel::Failed(
            "reading DRPC_KEY_FILE "@ + path + ": "@ + reason,
        ),
        next_step(SourceModel::KeyVar, Err(reason)) == StepModel::Failed(
            "no dRPC key: mount a podman secret and set DRPC_KEY_FILE (or DRPC_KEY for dev)"@,
        ),
{
}

/// A source, a question and a step say what they are made of.
pub proof fn law_what_the_search_says(
    source: KeySource,
    query: KeyQuery<'_>,
    step: KeyStep,
    answer: Result<String, String>,
)
    ensures
        source is FileVar <==> source@ is FileVar,
        source is DefaultFile <==> source@ is DefaultFile,
        source is KeyVar <==> source@ is KeyVar,
        source matches KeySource::NamedFile(path) ==> source@ == SourceModel::NamedFile(path@),
        query matches KeyQuery::Var(name) ==> query@ == QueryModel::Var(name@),
        query matches KeyQuery::File(path) ==> query@ == QueryModel::File(path@),
        step matches KeyStep::Ask(next) ==> step@ == StepModel::Ask(next@),
        step matches KeyStep::Found(key) ==> step@ == StepModel::Found(key@),
        step matches KeyStep::Failed(message) ==> step@ == StepModel::Failed(message@),
        answer matches Ok(text) ==> answer_text(answer) == Ok::<Seq<char>, Seq<char>>(text@),
        answer matches Err(reason) ==> answer_text(answer) == Err::<Seq<char>, Seq<char>>(reason@),
{
}

// ---- settings ----------------------------------------------------------------

/// Each setting has its variable, and all settings are read.
pub proof fn law_variables_of_the_settings(setting: Setting)
    ensures
        setting_var(Setting::BindAddr) == "BIND_ADDR"@,
        setting_var(Setting::DrpcBase) == "DRPC_BASE"@,
        setting_var(Setting::BodyLimit) == "RPC_BODY_LIMIT_BYTES"@,
        setting_var(Setting::MethodFilter) == "RPC_METHOD_FILTER"@,
        setting_var(Setting::UpstreamTimeout) == "UPSTREAM_TIMEOUT_SECS"@,
        setting_var(Setting::ConnectTimeout) == "UPSTREAM_CONNECT_TIMEOUT_SECS"@,
        all_settings().contains(setting),
        all_settings().no_duplicates(),
{
    assert(all_settings()[0] == Setting::BindAddr && all_settings()[1] == Setting::DrpcBase
        && all_settings()[2] == Setting::BodyLimit && all_settings()[3] == Setting::MethodFilter
        && all_settings()[4] == Setting::UpstreamTimeout && all_settings()[5]
        == Setting::ConnectTimeout);
}

/// Taking down the variable of one setting replaces what that setting has and nothing else, and
/// before anything is taken down no setting has anything.
pub proof fn law_variables_are_taken_down_one_by_one(
    vars: VarsModel,
    a: Setting,
    b: Setting,
    value: Option<Seq<char>>,
)
    ensures
        var_of(with_var(vars, a, value), a) == value,
        a != b ==> var_of(with_var(vars, a, value), b) == var_of(vars, b),
        var_of(no_vars(), a) is None,
{
}

/// Each setting has the variable that its own field holds.
pub proof fn law_what_the_variables_say(vars: EnvVars)
    ensures
        var_of(vars@, Setting::BindAddr) == vars@.bind_addr,
        var_of(vars@, Setting::DrpcBase) == vars@.drpc_base,
        var_of(vars@, Setting::BodyLimit) == vars@.body_limit,
        var_of(vars@, Setting::MethodFilter) == vars@.method_filter,
        var_of(vars@, Setting::UpstreamTimeout) == vars@.upstream_timeout,
        var_of(vars@, Setting::ConnectTimeout) == vars@.connect_timeout,
        vars.bind_addr is Some <==> vars@.bind_addr is Some,
        vars.bind_addr matches Some(text) ==> vars@.bind_addr == Some(text@),
        vars.drpc_base is Some <==> vars@.drpc_base is Some,
        vars.drpc_base matches Some(text) ==> vars@.drpc_base == Some(text@),
        vars.body_limit is Some <==> vars@.body_limit is Some,
        vars.body_limit matches Some(text) ==> vars@.body_limit == Some(text@),
        vars.method_filter is Some <==> vars@.method_filter is Some,
        vars.method_filter matches Some(text) ==> vars@.method_filter == Some(text@),
        vars.upstream_timeout is Some <==> vars@.upstream_timeout is Some,
        vars.upstream_timeout matches Some(text) ==> vars@.upstream_timeout == Some(text@),
        vars.connect_timeout is Some <==> vars@.connect_timeout is Some,
        vars.connect_timeout matches Some(text) ==> vars@.connect_timeout == Some(text@),
{
}

/// The base URL is what `DRPC_BASE` holds up to the slashes at its end: the base URL and the slashes
/// together are the variable's text. A text that does not end in a slash is the base URL as it
/// stands. Without the variable it is the provider's public one.
pub proof fn law_base_is_the_variable(base: Seq<char>, slashes: Seq<char>, text: Seq<char>)
    requires
        base.len() > 0 ==> base.last() != '/',
        forall|i: int| 0 <= i < slashes.len() ==> slashes[i] == '/',
    ensures
        base_choice(Some(base + slashes)) == base,
        base_choice(Some(text)).is_prefix_of(text),
        forall|i: int| base_choice(Some(text)).len() <= i < text.len() ==> text[i] == '/',
        (text.len() > 0 ==> text.last() != '/') ==> base_choice(Some(text)) == text,
        base_choice(None) == "https://lb.drpc.live"@,
{
    law_trailing_characters_go(base, slashes, '/');
    crate::text::law_without_trailing(text, '/');
    if text.len() > 0 ==> text.last() != '/' {
        law_trailing_characters_go(text, Seq::empty(), '/');
        assert(text + Seq::<char>::empty() == text);
    }
}

/// The address to listen on is the variable's text as it stands, and the loopback one without it.
pub proof fn law_bind_is_the_variable(text: Seq<char>)
    ensures
        bind_choice(Some(text)) == text,
        bind_choice(None) == "127.0.0.1:8080"@,
{
}

/// Only the three letters `off` turn the filter off.
pub proof fn law_only_off_turns_the_filter_off(text: Seq<char>)
    ensures
        filter_choice(None),
        filter_choice(Some(text)) <==> !(text.len() == 3 && text[0] == 'o' && text[1] == 'f'
            && text[2] == 'f'),
{
    reveal_strlit("off");
    if text.len() == 3 && text[0] == 'o' && text[1] == 'f' && text[2] == 'f' {
        assert(text == "off"@);
    }
}

/// A number setting is the number that its variable denotes, and the default where the variable is
/// not set or denotes none.
pub proof fn law_number_or_default(text: Seq<char>, max: nat, default: nat)
    ensures
        number_or(None, max, default) == default,
        parsed_number(text, max) matches Some(n) ==> number_or(Some(text), max, default) == n,
        parsed_number(text, max) is None ==> number_or(Some(text), max, default) == default,
{
}

// ---- chain names -------------------------------------------------------------

proof fn lemma_first_chain(chains: Seq<ChainModel>, name: Seq<char>, i: int)
    requires
        0 <= i < chains.len(),
        goes_by(chains[i], name),
        forall|j: int| 0 <= j < i ==> !goes_by(#[trigger] chains[j], name),
    ensures
        slug_of(chains, name) == Some(chains[i].slug),
    decreases i,
{
    if i > 0 {
        let rest = chains.drop_first();
        assert(!goes_by(chains[0], name));
        assert(rest[i - 1] == chains[i]);
        assert forall|j: int| 0 <= j < i - 1 implies !goes_by(#[trigger] rest[j], name) by {
            assert(rest[j] == chains[j + 1]);
        }
        lemma_first_chain(rest, name, i - 1);
    }
}

proof fn lemma_no_chain(chains: Seq<ChainModel>, name: Seq<char>)
    requires
        forall|j: int| 0 <= j < chains.len() ==> !goes_by(#[trigger] chains[j], name),
    ensures
        slug_of(chains, name) is None,
    decreases chains.len(),
{
    if chains.len() > 0 {
        let rest = chains.drop_first();
        assert(!goes_by(chains[0], name));
        assert forall|j: int| 0 <= j < rest.len() implies !goes_by(#[trigger] rest[j], name) by {
            assert(rest[j] == chains[j + 1]);
        }
        lemma_no_chain(rest, name);
    }
}

/// A caller's chain name, its letters in lower case, stands for the slug of the first chain that has
/// it as its slug or as one of its aliases.
pub proof fn law_name_stands_for_its_chain(
    state: StateModel,
    chain: Seq<char>,
    name: Seq<char>,
    i: int,
)
    requires
        name.len() == chain.len(),
        forall|k: int|
            0 <= k < chain.len() ==> #[trigger] name[k] as int == chain[k] as int + (if 65
                <= chain[k] as int <= 90 {
                32int
            } else {
                0
            }),
        0 <= i < state.chains.len(),
        state.chains[i].slug == name || state.chains[i].aliases.contains(name),
        forall|j: int|
            0 <= j < i ==> (#[trigger] state.chains[j]).slug != name
                && !state.chains[j].aliases.contains(name),
    ensures
        resolved(state.chains, chain) == Some(state.chains[i].slug),
        reads_body(state, chain) <==> state.method_denylist,
{
    assert(lowered(chain) == name);
    assert forall|j: int| 0 <= j < i implies !goes_by(#[trigger] state.chains[j], name) by {}
    lemma_first_chain(state.chains, name, i);
}

/// A name that no chain has as its slug or as an alias stands for none, and every route refuses it
/// before it looks at anything else.
pub proof fn law_name_of_no_chain_is_refused(
    state: StateModel,
    chain: Seq<char>,
    name: Seq<char>,
    body: Seq<u8>,
    address: Seq<char>,
    query: Option<Seq<char>>,
)
    requires
        name.len() == chain.len(),
        forall|k: int|
            0 <= k < chain.len() ==> #[trigger] name[k] as int == chain[k] as int + (if 65
                <= chain[k] as int <= 90 {
                32int
            } else {
                0
            }),
        forall|j: int|
            0 <= j < state.chains.len() ==> (#[trigger] state.chains[j]).slug != name
                && !state.chains[j].aliases.contains(name),
    ensures
        resolved(state.chains, chain) is None,
        !reads_body(state, chain),
        rpc_outcome(state, chain, body) == Err::<RequestModel, AppError>(AppError::UnknownChain),
        balances_outcome(state, chain, address, query) == Err::<RequestModel, AppError>(
            AppError::UnknownChain,
        ),
        history_outcome(state, chain, address, query) == Err::<RequestModel, AppError>(
            AppError::UnknownChain,
        ),
{
    assert(lowered(chain) == name);
    assert forall|j: int| 0 <= j < state.chains.len() implies !goes_by(
        #[trigger] state.chains[j],
        name,
    ) by {}
    lemma_no_chain(state.chains, name);
}

// ---- requests to the provider ------------------------------------------------

/// A passed-on body is posted, unchanged and as JSON, to the URL made of the base, the chain's slug
/// and the key, with a slash between each two.
pub proof fn law_rpc_request_part_by_part(drpc: DrpcModel, chain: Seq<char>, body: Seq<u8>)
    ensures
        rpc_request(drpc, chain, body).method == Method::Post,
        rpc_request(drpc, chain, body).url == drpc.base + "/"@ + chain + "/"@ + drpc.key,
        rpc_request(drpc, chain, body).headers == seq![
            ("user-agent"@, "kao-proxy/0.1"@),
            ("content-type"@, "application/json"@),
        ],
        rpc_request(drpc, chain, body).body == Some(body),
{
}

/// A question about a wallet is a `GET` for JSON, below the URL of the chain: balances and history
/// each have their path, with the address in it.
pub proof fn law_wallet_requests_part_by_part(
    drpc: DrpcModel,
    chain: Seq<char>,
    address: Seq<char>,
    query: Option<Seq<char>>,
)
    ensures
        balances_request(drpc, chain, address, query).method == Method::Get,
        balances_request(drpc, chain, address, None).url == drpc.base + "/"@ + chain + "/"@
            + drpc.key + "/"@ + "lambda/v2/wallets"@ + "/"@ + address + "/"@ + "balances"@,
        balances_request(drpc, chain, address, query).headers == seq![
            ("user-agent"@, "kao-proxy/0.1"@),
            ("accept"@, "application/json"@),
        ],
        balances_request(drpc, chain, address, query).body is None,
        history_request(drpc, chain, address, query).method == Method::Get,
        history_request(drpc, chain, address, None).url == drpc.base + "/"@ + chain + "/"@
            + drpc.key + "/"@ + "lambda/v1/transactions"@ + "/"@ + address + "/"@ + "history"@,
        history_request(drpc, chain, address, query).headers == seq![
            ("user-agent"@, "kao-proxy/0.1"@),
            ("accept"@, "application/json"@),
        ],
        history_request(drpc, chain, address, query).body is None,
{
    let balances = drpc.base + "/"@ + chain + "/"@ + drpc.key + "/"@ + "lambda/v2/wallets"@ + "/"@
        + address + "/"@ + "balances"@;
    let history = drpc.base + "/"@ + chain + "/"@ + drpc.key + "/"@ + "lambda/v1/transactions"@ + "/"@
        + address + "/"@ + "history"@;
    assert(balances + Seq::<char>::empty() == balances);
    assert(history + Seq::<char>::empty() == history);
}

/// A query string stands verbatim, behind a question mark, at the end of the URL of the same request
/// without it; an empty one adds nothing. It changes nothing else.
pub proof fn law_wallet_requests_forward_the_query(
    drpc: DrpcModel,
    chain: Seq<char>,
    address: Seq<char>,
    q: Seq<char>,
)
    ensures
        q.len() > 0 ==> balances_request(drpc, chain, address, Some(q)).url == balances_request(
            drpc,
            chain,
            address,
            None,
        ).url + "?"@ + q,
        q.len() > 0 ==> history_request(drpc, chain, address, Some(q)).url == history_request(
            drpc,
            chain,
            address,
            None,
        ).url + "?"@ + q,
        q.len() == 0 ==> balances_request(drpc, chain, address, Some(q)).url == balances_request(
            drpc,
            chain,
            address,
            None,
        ).url,
        q.len() == 0 ==> history_request(drpc, chain, address, Some(q)).url == history_request(
            drpc,
            chain,
            address,
            None,
        ).url,
{
    let balances = balances_request(drpc, chain, address, None).url;
    let history = history_request(drpc, chain, address, None).url;
    law_wallet_requests_part_by_part(drpc, chain, address, None);
    if q.len() > 0 {
        assert(balances_request(drpc, chain, address, Some(q)).url == balances + "?"@ + q);
        assert(history_request(drpc, chain, address, Some(q)).url == history + "?"@ + q);
    }
}

/// A request says what it is made of.
pub proof fn law_what_a_request_says(request: UpstreamRequest, i: int)
    ensures
        request@.method == request.method,
        request@.url == request.url@,
        request@.headers.len() == request.headers@.len(),
        0 <= i < request.headers@.len() ==> request@.headers[i].0 == request.headers@[i].0@
            && request@.headers[i].1 == request.headers@[i].1@,
        request.body is Some <==> request@.body is Some,
        request.body matches Some(bytes) ==> request@.body == Some(bytes@),
{
}

/// What the proxy calls itself, and what it calls the failures of an exchange.
pub proof fn law_names_towards_the_provider(code: u16)
    ensures
        agent() == "kao-proxy/0.1"@,
        upstream_message(UpstreamError::Transport) == "upstream transport error"@,
        upstream_message(UpstreamError::Status(code)) == "upstream status "@ + decimal(code as nat),
        upstream_message(UpstreamError::Decode) == "upstream decode error"@,
{
}

// ---- routes ------------------------------------------------------------------

/// What the handlers share says what it is made of, and so does what a handler comes to.
pub proof fn law_what_a_state_says(
    state: AppState,
    request: UpstreamRequest,
    error: AppError,
    i: int,
    k: int,
)
    ensures
        state@.drpc == state.drpc@,
        state@.method_denylist == state.method_denylist,
        state@.chains.len() == state.chains@.len(),
        0 <= i < state.chains@.len() ==> {
            &&& state@.chains[i].slug == state.chains@[i].slug@
            &&& state@.chains[i].chain_id == state.chains@[i].chain_id
            &&& state@.chains[i].aliases.len() == state.chains@[i].aliases@.len()
            &&& 0 <= k < state.chains@[i].aliases@.len() ==> state@.chains[i].aliases[k]
                == state.chains@[i].aliases@[k]@
        },
        outcome(Ok(request)) == Ok::<RequestModel, AppError>(request@),
        outcome(Err(error)) == Err::<RequestModel, AppError>(error),
{
}

/// The JSON-RPC route hands the caller's body, byte for byte, to the endpoint of the chain that the
/// caller named: of the first chain whose slug or one of whose aliases is the name in lower case. It
/// does so where the filter is off or accepts the body, and else answers as the filter says.
pub proof fn law_rpc_asks_the_named_chain(
    state: StateModel,
    chain: Seq<char>,
    name: Seq<char>,
    i: int,
    body: Seq<u8>,
)
    requires
        name.len() == chain.len(),
        forall|k: int|
            0 <= k < chain.len() ==> #[trigger] name[k] as int == chain[k] as int + (if 65
                <= chain[k] as int <= 90 {
                32int
            } else {
                0
            }),
        0 <= i < state.chains.len(),
        state.chains[i].slug == name || state.chains[i].aliases.contains(name),
        forall|j: int|
            0 <= j < i ==> (#[trigger] state.chains[j]).slug != name
                && !state.chains[j].aliases.contains(name),
    ensures
        !state.method_denylist || bytes_verdict(body) is Ok ==> rpc_outcome(state, chain, body)
            == Ok::<RequestModel, AppError>(
            RequestModel {
                method: Method::Post,
                url: state.drpc.base + "/"@ + state.chains[i].slug + "/"@ + state.drpc.key,
                headers: seq![
                    ("user-agent"@, "kao-proxy/0.1"@),
                    ("content-type"@, "application/json"@),
                ],
                body: Some(body),
            },
        ),
        state.method_denylist ==> (bytes_verdict(body) matches Err(e) ==> rpc_outcome(
            state,
            chain,
            body,
        ) == Err::<RequestModel, AppError>(e)),
{
    law_name_stands_for_its_chain(state, chain, name, i);
    law_rpc_request_part_by_part(state.drpc, state.chains[i].slug, body);
}

/// A text is an address exactly where it is `0x` and forty of the characters `0` to `9`, `a` to `f`
/// and `A` to `F`, in any mixture.
pub proof fn law_address_character_by_character(s: Seq<char>)
    ensures
        is_address(s) <==> (s.len() == 42 && s[0] as int == 48 && s[1] as int == 120 && forall|i: int|
            2 <= i < 42 ==> (48 <= #[trigger] s[i] as int <= 57 || 97 <= s[i] as int <= 102 || 65
                <= s[i] as int <= 70)),
{
    if s.len() == 42 && s[0] as int == 48 && s[1] as int == 120 && (forall|i: int|
        2 <= i < 42 ==> (48 <= #[trigger] s[i] as int <= 57 || 97 <= s[i] as int <= 102 || 65
            <= s[i] as int <= 70)) {
        assert(is_address(s));
    }
}

/// Whether a text is an address does not change with the case of a letter behind the `0x`.
pub proof fn law_address_in_either_case(s: Seq<char>, i: int, c: char)
    requires
        2 <= i < s.len(),
        (65 <= s[i] as int <= 90 && c as int == s[i] as int + 32) || (97 <= s[i] as int <= 122
            && c as int == s[i] as int - 32),
    ensures
        is_address(s) <==> is_address(s.update(i, c)),
{
    let t = s.update(i, c);
    law_address_character_by_character(s);
    law_address_character_by_character(t);
    assert(t[i] == c && t.update(i, s[i]) == s);
    if is_address(s) {
        assert forall|j: int| 2 <= j < 42 implies (48 <= #[trigger] t[j] as int <= 57 || 97
            <= t[j] as int <= 102 || 65 <= t[j] as int <= 70) by {
            assert(48 <= s[j] as int <= 57 || 97 <= s[j] as int <= 102 || 65 <= s[j] as int <= 70);
        }
    }
    if is_address(t) {
        assert forall|j: int| 2 <= j < 42 implies (48 <= #[trigger] s[j] as int <= 57 || 97
            <= s[j] as int <= 102 || 65 <= s[j] as int <= 70) by {
            assert(48 <= t[j] as int <= 57 || 97 <= t[j] as int <= 102 || 65 <= t[j] as int <= 70);
        }
    }
}

/// The wallet routes ask the chain that the caller named about the address that the caller gave, and
/// take the caller's query string along; what is `0x` and forty hexadecimal digits is an address, and
/// nothing else is.
pub proof fn law_wallet_asks_the_named_chain(
    state: StateModel,
    chain: Seq<char>,
    name: Seq<char>,
    i: int,
    address: Seq<char>,
    query: Option<Seq<char>>,
    asked: Seq<char>,
)
    requires
        name.len() == chain.len(),
        forall|k: int|
            0 <= k < chain.len() ==> #[trigger] name[k] as int == chain[k] as int + (if 65
                <= chain[k] as int <= 90 {
                32int
            } else {
                0
            }),
        0 <= i < state.chains.len(),
        state.chains[i].slug == name || state.chains[i].aliases.contains(name),
        forall|j: int|
            0 <= j < i ==> (#[trigger] state.chains[j]).slug != name
                && !state.chains[j].aliases.contains(name),
        match query {
            Some(q) => asked == (if q.len() > 0 {
                "?"@ + q
            } else {
                Seq::empty()
            }),
            None => asked.len() == 0,
        },
    ensures
        address.len() == 42 && address[0] as int == 48 && address[1] as int == 120 && (forall|k: int|
            2 <= k < 42 ==> (48 <= #[trigger] address[k] as int <= 57 || 97 <= address[k] as int
                <= 102 || 65 <= address[k] as int <= 70)) ==> {
            &&& balances_outcome(state, chain, address, query) == Ok::<RequestModel, AppError>(
                RequestModel {
                    method: Method::Get,
                    url: state.drpc.base + "/"@ + state.chains[i].slug + "/"@ + state.drpc.key + "/"@
                        + "lambda/v2/wallets"@ + "/"@ + address + "/"@ + "balances"@ + asked,
                    headers: seq![
                        ("user-agent"@, "kao-proxy/0.1"@),
                        ("accept"@, "application/json"@),
                    ],
                    body: None,
                },
            )
            &&& history_outcome(state, chain, address, query) == Ok::<RequestModel, AppError>(
                RequestModel {
                    method: Method::Get,
                    url: state.drpc.base + "/"@ + state.chains[i].slug + "/"@ + state.drpc.key + "/"@
                        + "lambda/v1/transactions"@ + "/"@ + address + "/"@ + "history"@ + asked,
                    headers: seq![
                        ("user-agent"@, "kao-proxy/0.1"@),
                        ("accept"@, "application/json"@),
                    ],
                    body: None,
                },
            )
        },
        !(address.len() == 42 && address[0] as int == 48 && address[1] as int == 120 && (forall|k: int|
            2 <= k < 42 ==> (48 <= #[trigger] address[k] as int <= 57 || 97 <= address[k] as int
                <= 102 || 65 <= address[k] as int <= 70))) ==> {
            &&& balances_outcome(state, chain, address, query) == Err::<RequestModel, AppError>(
                AppError::BadAddress,
            )
            &&& history_outcome(state, chain, address, query) == Err::<RequestModel, AppError>(
                AppError::BadAddress,
            )
        },
{
    law_name_stands_for_its_chain(state, chain, name, i);
    law_address_character_by_character(address);
    let slug = state.chains[i].slug;
    law_wallet_requests_part_by_part(state.drpc, slug, address, query);
    let balances = balances_request(state.drpc, slug, address, None).url;
    let history = history_request(state.drpc, slug, address, None).url;
    if let Some(q) = query {
        law_wallet_requests_forward_the_query(state.drpc, slug, address, q);
        assert(balances + "?"@ + q == balances + ("?"@ + q));
        assert(history + "?"@ + q == history + ("?"@ + q));
    }
    assert(balances + Seq::<char>::empty() == balances);
    assert(history + Seq::<char>::empty() == history);
    assert(asked.len() == 0 ==> asked == Seq::<char>::empty());
}

// ---- the method filter -------------------------------------------------------

/// A call that names a method is accepted unless the name begins with one of four prefixes or is one
/// of the two subscription methods; then it is refused as not allowed. A call that names none is a
/// bad request.
pub proof fn law_call_by_its_method(m: Seq<char>)
    ensures
        call_verdict(Some(m)) is Ok <==> !("debug_"@.is_prefix_of(m) || "trace_"@.is_prefix_of(m) || "arbtrace_"@.is_prefix_of(m)
                || "txpool_"@.is_prefix_of(m) || m == "eth_subscribe"@ || m == "eth_unsubscribe"@),
        call_verdict(Some(m)) matches Err(e) ==> e == AppError::MethodNotAllowed,
        call_verdict(None) == Err::<(), AppError>(AppError::BadRequest("missing method")),
{
}

/// A method that is not spelled with an underscore is accepted, and so is everything in the `eth_`,
/// `net_` and `web3_` families but the two subscription methods.
pub proof fn law_ordinary_methods_are_accepted(m: Seq<char>, rest: Seq<char>)
    ensures
        !m.contains('_') ==> call_verdict(Some(m)) is Ok,
        rest != "subscribe"@ && rest != "unsubscribe"@ ==> call_verdict(Some("eth_"@ + rest)) is Ok,
        call_verdict(Some("net_"@ + rest)) is Ok,
        call_verdict(Some("web3_"@ + rest)) is Ok,
{
    reveal_strlit("debug_");
    reveal_strlit("trace_");
    reveal_strlit("arbtrace_");
    reveal_strlit("txpool_");
    reveal_strlit("eth_subscribe");
    reveal_strlit("eth_unsubscribe");
    reveal_strlit("eth_");
    reveal_strlit("net_");
    reveal_strlit("web3_");
    reveal_strlit("subscribe");
    reveal_strlit("unsubscribe");
    lemma_prefix_characters(m, "debug_"@, 5);
    lemma_prefix_characters(m, "trace_"@, 5);
    lemma_prefix_characters(m, "arbtrace_"@, 8);
    lemma_prefix_characters(m, "txpool_"@, 6);
    assert("eth_subscribe"@[3] == '_' && "eth_unsubscribe"@[3] == '_');
    let methods = seq!["eth_"@ + rest, "net_"@ + rest, "web3_"@ + rest];
    assert forall|k: int| 0 <= k < 3 implies !("debug_"@.is_prefix_of(#[trigger] methods[k])
        || "trace_"@.is_prefix_of(methods[k]) || "arbtrace_"@.is_prefix_of(methods[k])
        || "txpool_"@.is_prefix_of(methods[k])) by {
        lemma_prefix_characters(methods[k], "debug_"@, 0);
        lemma_prefix_characters(methods[k], "trace_"@, 0);
        lemma_prefix_characters(methods[k], "arbtrace_"@, 0);
        lemma_prefix_characters(methods[k], "txpool_"@, 0);
    }
    assert(methods[0] == "eth_"@ + rest && methods[1] == "net_"@ + rest && methods[2] == "web3_"@
        + rest);
    assert(("eth_"@ + rest).skip(4) == rest);
    assert("eth_subscribe"@.skip(4) == "subscribe"@);
    assert("eth_unsubscribe"@.skip(4) == "unsubscribe"@);
    assert(("net_"@ + rest)[0] == 'n' && ("web3_"@ + rest)[0] == 'w');
    assert("eth_subscribe"@[0] == 'e' && "eth_unsubscribe"@[0] == 'e');
}

proof fn lemma_prefix_characters(m: Seq<char>, prefix: Seq<char>, i: int)
    requires
        0 <= i < prefix.len(),
    ensures
        prefix.is_prefix_of(m) ==> m.len() >= prefix.len() && m[i] == prefix[i] && m.contains(
            prefix[i],
        ),
{
    if prefix.is_prefix_of(m) {
        assert(m.subrange(0, prefix.len() as int)[i] == m[i]);
    }
}

/// A batch is accepted where each call in it would be accepted alone, and else refused as the first
/// call that would not; a call is judged alone; what is neither is a bad request. An empty batch has
/// no call to refuse.
pub proof fn law_body_call_by_call(methods: Seq<Option<Seq<char>>>, n: int, method: Option<Seq<char>>)
    requires
        0 <= n <= methods.len(),
        forall|i: int|
            0 <= i < n ==> body_verdict(BodyModel::Call(#[trigger] methods[i])) is Ok,
    ensures
        n == methods.len() ==> body_verdict(BodyModel::Batch(methods)) is Ok,
        n < methods.len() && body_verdict(BodyModel::Call(methods[n])) is Err ==> body_verdict(
            BodyModel::Batch(methods),
        ) == body_verdict(BodyModel::Call(methods[n])),
        body_verdict(BodyModel::Call(method)) == call_verdict(method),
        body_verdict(BodyModel::Other) == Err::<(), AppError>(
            AppError::BadRequest("invalid JSON-RPC body"),
        ),
{
    assert forall|i: int| 0 <= i < n implies call_verdict(#[trigger] methods[i]) is Ok by {
        assert(body_verdict(BodyModel::Call(methods[i])) is Ok);
    }
    if n == methods.len() {
        crate::routes::law_batch_is_accepted_call_by_call(methods);
    } else if call_verdict(methods[n]) is Err {
        crate::routes::law_first_refused_call_decides(methods, n);
    }
}

/// What is read of a body says what it is made of.
pub proof fn law_what_a_body_says(body: RpcBody, i: int)
    ensures
        body matches RpcBody::Call(method) ==> body@ == BodyModel::Call(optional_string(method)),
        body is Other <==> body@ is Other,
        body matches RpcBody::Batch(methods) ==> body@ matches BodyModel::Batch(said) && said.len()
            == methods@.len() && (0 <= i < methods@.len() ==> said[i] == optional_string(methods@[i])),
{
}

/// The filter accepts bytes exactly where they are a JSON object that names an accepted method, or a
/// JSON array of such objects, the empty one among them. `named` tells the documents that are such an
/// object: one whose member `method` is a text that is not denied.
pub proof fn law_bytes_by_what_they_hold(bytes: Seq<u8>, named: spec_fn(JsonTree) -> bool)
    requires
        forall|t: JsonTree| #[trigger]
            named(t) <==> (t matches JsonTree::Members(members) && members.contains_key("method"@)
                && (members["method"@] matches JsonTree::Text(m) && !("debug_"@.is_prefix_of(m) || "trace_"@.is_prefix_of(m) || "arbtrace_"@.is_prefix_of(m)
                || "txpool_"@.is_prefix_of(m) || m == "eth_subscribe"@ || m == "eth_unsubscribe"@))),
    ensures
        bytes_verdict(bytes) is Ok <==> (json_read(bytes) matches Some(tree) && match tree {
            JsonTree::Members(_) => named(tree),
            JsonTree::List(items) => forall|i: int| 0 <= i < items.len() ==> named(#[trigger] items[i]),
            _ => false,
        }),
{
    lemma_named(named);
    if let Some(tree) = json_read(bytes) {
        if let JsonTree::List(items) = tree {
            let methods = items.map_values(|item: JsonTree| tree_method(item));
            crate::routes::law_batch_is_accepted_call_by_call(methods);
            assert forall|i: int| 0 <= i < items.len() implies (named(#[trigger] items[i])
                <==> call_verdict(methods[i]) is Ok) by {
                assert(methods[i] == tree_method(items[i]));
            }
            if forall|i: int| 0 <= i < items.len() ==> named(#[trigger] items[i]) {
                assert forall|i: int| 0 <= i < methods.len() implies call_verdict(
                    #[trigger] methods[i],
                ) is Ok by {
                    assert(named(items[i]));
                }
            }
            if bytes_verdict(bytes) is Ok {
                assert forall|i: int| 0 <= i < items.len() implies named(#[trigger] items[i]) by {
                    assert(call_verdict(methods[i]) is Ok);
                }
            }
        }
    }
}

proof fn lemma_named(named: spec_fn(JsonTree) -> bool)
    requires
        forall|t: JsonTree| #[trigger]
            named(t) <==> (t matches JsonTree::Members(members) && members.contains_key("method"@)
                && (members["method"@] matches JsonTree::Text(m) && !("debug_"@.is_prefix_of(m) || "trace_"@.is_prefix_of(m) || "arbtrace_"@.is_prefix_of(m)
                || "txpool_"@.is_prefix_of(m) || m == "eth_subscribe"@ || m == "eth_unsubscribe"@))),
    ensures
        forall|t: JsonTree| #[trigger] named(t) <==> call_verdict(tree_method(t)) is Ok,
        forall|t: JsonTree| named(t) <==> call_verdict(#[trigger] tree_method(t)) is Ok,
{
    assert forall|t: JsonTree| #[trigger] named(t) <==> call_verdict(tree_method(t)) is Ok by {}
    assert forall|t: JsonTree| named(t) <==> call_verdict(#[trigger] tree_method(t)) is Ok by {
        assert(named(t) <==> call_verdict(tree_method(t)) is Ok);
    }
}

/// What the filter refuses it refuses for what it finds first. Bytes that are no JSON document, or
/// one that is neither an object nor an array, are an invalid body. Of the documents to judge (the
/// object, or the array's items in order) the first that is not accepted decides: it lacks a method,
/// or its method is not allowed.
pub proof fn law_bytes_are_refused_for_what_comes_first(
    bytes: Seq<u8>,
    items: Seq<JsonTree>,
    n: int,
    named: spec_fn(JsonTree) -> bool,
)
    requires
        forall|t: JsonTree| #[trigger]
            named(t) <==> (t matches JsonTree::Members(members) && members.contains_key("method"@)
                && (members["method"@] matches JsonTree::Text(m) && !("debug_"@.is_prefix_of(m) || "trace_"@.is_prefix_of(m) || "arbtrace_"@.is_prefix_of(m)
                || "txpool_"@.is_prefix_of(m) || m == "eth_subscribe"@ || m == "eth_unsubscribe"@))),
    ensures
        match json_read(bytes) {
            None | Some(JsonTree::Null) | Some(JsonTree::Bool(_)) | Some(JsonTree::Number) | Some(
                JsonTree::Text(_),
            ) => bytes_verdict(bytes) == Err::<(), AppError>(
                AppError::BadRequest("invalid JSON-RPC body"),
            ),
            Some(tree) => (tree == JsonTree::List(items) || (tree is Members && items == seq![tree]))
                && 0 <= n < items.len() && (forall|i: int|
                0 <= i < n ==> named(#[trigger] items[i])) && !named(items[n]) ==> bytes_verdict(bytes)
                == Err::<(), AppError>(
                if items[n] matches JsonTree::Members(members) && members.contains_key("method"@)
                    && members["method"@] is Text {
                    AppError::MethodNotAllowed
                } else {
                    AppError::BadRequest("missing method")
                },
            ),
        },
{
    lemma_named(named);
    if let Some(tree) = json_read(bytes) {
        if (tree == JsonTree::List(items) || (tree is Members && items == seq![tree])) && 0 <= n
            < items.len() && (forall|i: int| 0 <= i < n ==> named(#[trigger] items[i]))
            && !named(items[n]) {
            assert(call_verdict(tree_method(items[n])) is Err);
            if tree is List {
                let methods = items.map_values(|item: JsonTree| tree_method(item));
                assert forall|i: int| 0 <= i < n implies call_verdict(
                    #[trigger] methods[i],
                ) is Ok by {
                    assert(named(items[i]));
                }
                assert(methods[n] == tree_method(items[n]));
                crate::routes::law_first_refused_call_decides(methods, n);
            } else {
                assert(items[0] == tree);
            }
        }
    }
}

/// What is read of bytes: of an object the method that it names, of an array the method that each
/// item names, in order, and of anything else only that it is neither. An item names the text of its
/// member `method`, and none where it is no object, has no such member or that is no text.
pub proof fn law_what_is_read_of_bytes(bytes: Seq<u8>, i: int)
    ensures
        bytes_body(bytes) is None <==> json_read(bytes) is None,
        json_read(bytes) matches Some(tree) ==> match tree {
            JsonTree::Members(members) => bytes_body(bytes) == Some(
                BodyModel::Call(
                    if members.contains_key("method"@) && members["method"@] is Text {
                        Some(members["method"@]->Text_0)
                    } else {
                        None
                    },
                ),
            ),
            JsonTree::List(items) => bytes_body(bytes) matches Some(BodyModel::Batch(methods))
                && methods.len() == items.len() && (0 <= i < items.len() ==> methods[i] == (
            match items[i] {
                JsonTree::Members(members) if members.contains_key("method"@)
                    && members["method"@] is Text => Some(members["method"@]->Text_0),
                _ => None,
            })),
            _ => bytes_body(bytes) == Some(BodyModel::Other),
        },
{
}

// ---- JSON documents ----------------------------------------------------------

/// An object has the members that it is made of, and nothing else has any.
pub proof fn law_member_by_member(tree: JsonTree, name: Seq<char>)
    ensures
        tree matches JsonTree::Members(members) ==> (tree_member(tree, name) is Some
            <==> members.dom().contains(name)) && (tree_member(tree, name) matches Some(found) ==> found
            == members[name]),
        !(tree is Members) ==> tree_member(tree, name) is None,
{
}

/// Resolving escapes goes from left to right, an escape at a time. A byte that is no backslash stays,
/// and what follows it is resolved as it would be alone.
pub proof fn law_plain_bytes_stay(b: u8, rest: Seq<u8>)
    requires
        b != 92,
    ensures
        resolved_escapes(Seq::<u8>::empty()) == Seq::<u8>::empty(),
        resolved_escapes(seq![b] + rest) == seq![b] + resolved_escapes(rest),
{
    assert((seq![b] + rest).skip(1) == rest);
}

/// A backslash and a letter become the one byte that they stand for: a quotation mark, a backslash or
/// a slash themselves, and `b`, `f`, `n`, `r` and `t` a control character each.
pub proof fn law_letter_escapes(l: u8, b: u8, rest: Seq<u8>)
    requires
        (l == 34 && b == 34) || (l == 92 && b == 92) || (l == 47 && b == 47) || (l == 98 && b == 8)
            || (l == 102 && b == 12) || (l == 110 && b == 10) || (l == 114 && b == 13) || (l == 116
            && b == 9),
    ensures
        resolved_escapes(seq![92, l] + rest) == seq![b] + resolved_escapes(rest),
{
    assert((seq![92, l] + rest).skip(2) == rest);
}

/// A backslash, `u` and four hexadecimal digits become the byte of that number, or the byte 128 where
/// the number is beyond ASCII. `digit` gives the value of a hexadecimal digit.
pub proof fn law_number_escapes(d: Seq<u8>, rest: Seq<u8>, digit: spec_fn(u8) -> int)
    requires
        forall|b: u8| #[trigger]
            digit(b) == (if 48 <= b <= 57 {
                b - 48
            } else if 97 <= b <= 102 {
                b - 97 + 10
            } else if 65 <= b <= 70 {
                b - 65 + 10
            } else {
                -1
            }),
        d.len() == 4,
        forall|i: int| 0 <= i < 4 ==> digit(#[trigger] d[i]) >= 0,
    ensures
        ({
            let n = digit(d[0]) * 4096 + digit(d[1]) * 256 + digit(d[2]) * 16 + digit(d[3]);
            resolved_escapes(seq![92u8, 117] + d + rest) == seq![
                if n < 128 {
                    n as u8
                } else {
                    128
                },
            ] + resolved_escapes(rest)
        }),
{
    let bytes = seq![92u8, 117] + d + rest;
    assert(bytes.skip(6) == rest);
    assert(bytes[0] == 92 && bytes[1] == 117 && bytes[2] == d[0] && bytes[3] == d[1] && bytes[4]
        == d[2] && bytes[5] == d[3]);
    assert(digit(d[0]) >= 0 && digit(d[1]) >= 0 && digit(d[2]) >= 0 && digit(d[3]) >= 0);
}

/// A backslash that begins no escape stays: one at the end, one before a byte that is no letter of an
/// escape, and one before a `u` without four hexadecimal digits.
pub proof fn law_other_backslashes_stay(rest: Seq<u8>, digit: spec_fn(u8) -> int, i: int)
    requires
        forall|b: u8| #[trigger]
            digit(b) == (if 48 <= b <= 57 {
                b - 48
            } else if 97 <= b <= 102 {
                b - 97 + 10
            } else if 65 <= b <= 70 {
                b - 65 + 10
            } else {
                -1
            }),
        rest.len() == 0 || (rest[0] != 34 && rest[0] != 92 && rest[0] != 47 && rest[0] != 98
            && rest[0] != 102 && rest[0] != 110 && rest[0] != 114 && rest[0] != 116 && (rest[0] != 117
            || rest.len() < 5 || (1 <= i <= 4 && digit(rest[i]) < 0))),
    ensures
        resolved_escapes(seq![92u8] + rest) == seq![92u8] + resolved_escapes(rest),
{
    let bytes = seq![92u8] + rest;
    assert(bytes.skip(1) == rest);
    if rest.len() > 0 {
        assert(bytes[1] == rest[0]);
    }
    if rest.len() >= 5 {
        assert(bytes[2] == rest[1] && bytes[3] == rest[2] && bytes[4] == rest[3] && bytes[5]
            == rest[4]);
        assert(digit(rest[1]) >= -1 && digit(rest[2]) >= -1 && digit(rest[3]) >= -1 && digit(rest[4])
            >= -1);
    }
}

/// The name is in the bytes exactly where some stretch of them spells it.
pub proof fn law_name_is_spelled_out(bytes: Seq<u8>, name: Seq<u8>)
    requires
        name.len() == "$serde_json::private::RawValue"@.len(),
        forall|i: int|
            0 <= i < name.len() ==> #[trigger] name[i] as int
                == "$serde_json::private::RawValue"@[i] as int,
    ensures
        has_name(bytes) <==> exists|i: int|
            0 <= i <= bytes.len() - name.len() && #[trigger] bytes.subrange(i, i + name.len()) == name,
{
    reveal_strlit("$serde_json::private::RawValue");
    assert(document_name() == name) by {
        assert forall|i: int| 0 <= i < name.len() implies document_name()[i] == name[i] by {
            assert(name[i] as int == "$serde_json::private::RawValue"@[i] as int);
        }
    }
    assert forall|i: int| 0 <= i <= bytes.len() implies (#[trigger] name_at(bytes, i) <==> i
        <= bytes.len() - name.len() && bytes.subrange(i, i + name.len()) == name) by {
        if i <= bytes.len() - name.len() {
            assert(bytes.skip(i).subrange(0, name.len() as int) == bytes.subrange(i, i + name.len()));
        }
    }
    if has_name(bytes) {
        let i = choose|i: int| 0 <= i <= bytes.len() && #[trigger] name_at(bytes, i);
        assert(bytes.subrange(i, i + name.len()) == name);
    }
    if exists|i: int|
        0 <= i <= bytes.len() - name.len() && #[trigger] bytes.subrange(i, i + name.len()) == name {
        let i = choose|i: int|
            0 <= i <= bytes.len() - name.len() && #[trigger] bytes.subrange(i, i + name.len()) == name;
        assert(name_at(bytes, i));
    }
}

/// Each bracket, brace and backslash counts once, and no other byte counts.
pub proof fn law_openings_byte_by_byte(bytes: Seq<u8>, b: u8)
    ensures
        openings(Seq::<u8>::empty()) == 0,
        b == 91 || b == 123 || b == 92 ==> openings(bytes.push(b)) == openings(bytes) + 1,
        b != 91 && b != 123 && b != 92 ==> openings(bytes.push(b)) == openings(bytes),
{
    assert(bytes.push(b).drop_last() == bytes);
}

/// Bytes are shallow exactly where the name is gone after the escapes have been resolved nine times
/// or fewer, or where at most nine times 127 bytes can begin a level. `texts` are the bytes, the bytes
/// with their escapes resolved, and so on.
pub proof fn law_shallow_in_its_two_ways(bytes: Seq<u8>, texts: Seq<Seq<u8>>)
    requires
        texts.len() == 10,
        texts[0] == bytes,
        forall|k: int| 0 < k < 10 ==> #[trigger] texts[k] == resolved_escapes(texts[k - 1]),
    ensures
        shallow(bytes) <==> openings(bytes) <= 9 * 127 || exists|k: int|
            0 < k < 10 && !has_name(#[trigger] texts[k]),
{
    lemma_few_documents(texts, 0);
}

proof fn lemma_few_documents(texts: Seq<Seq<u8>>, k: int)
    requires
        texts.len() == 10,
        0 <= k <= 9,
        forall|j: int| 0 < j < 10 ==> #[trigger] texts[j] == resolved_escapes(texts[j - 1]),
    ensures
        has_few_documents(texts[k], (9 - k) as nat) <==> exists|j: int|
            k < j < 10 && !has_name(#[trigger] texts[j]),
    decreases 9 - k,
{
    if k < 9 {
        lemma_few_documents(texts, k + 1);
        assert(texts[k + 1] == resolved_escapes(texts[k]));
    }
}

// ---- answers -----------------------------------------------------------------

/// Each error has its status and its message, and tells them in one document: an object whose one
/// member `error` is an object whose one member `message` is the message.
pub proof fn law_error_by_error(m: &'static str, text: Seq<char>)
    ensures
        error_status(AppError::BadAddress) == 400,
        error_message(AppError::BadAddress) == "invalid ethereum address"@,
        error_status(AppError::UnknownChain) == 404,
        error_message(AppError::UnknownChain) == "unknown chain"@,
        error_status(AppError::MethodNotAllowed) == 403,
        error_message(AppError::MethodNotAllowed) == "rpc method not allowed"@,
        error_status(AppError::BadRequest(m)) == 400,
        error_message(AppError::BadRequest(m)) == m@,
        error_status(AppError::Upstream(m)) == 502,
        error_message(AppError::Upstream(m)) == m@,
        error_tree(text) == JsonTree::Members(
            map!["error"@ => JsonTree::Members(map!["message"@ => JsonTree::Text(text)])],
        ),
{
}

/// A failed exchange is an upstream error that says how it failed, and a bad gateway to the caller.
pub proof fn law_failed_exchange(e: UpstreamError)
    ensures
        <AppError as vstd::std_specs::convert::FromSpec<UpstreamError>>::from_spec(e) == (match e {
            UpstreamError::Transport => AppError::Upstream("upstream transport error"),
            UpstreamError::Status(_) => AppError::Upstream("upstream status error"),
            UpstreamError::Decode => AppError::Upstream("upstream decode error"),
        }),
{
}

/// Every status of three digits passes as it is; any other becomes a bad gateway.
pub proof fn law_status_passes(code: u16)
    ensures
        decimal(code as nat).len() == 3 ==> passed_status(code) == code,
        decimal(code as nat).len() != 3 ==> passed_status(code) == 502,
{
    reveal_with_fuel(decimal, 6);
}

}
