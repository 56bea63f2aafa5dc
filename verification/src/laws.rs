use vstd::prelude::*;
use crate::client::{default_config, with_referer, with_title};
use crate::config::{bearer, header_total, headers_of, ClientConfigView};
use crate::headers::header_fields;
use crate::pipeline::{ends_in_separator, start_matches, ChatStep};
use crate::types::{
    all_function, choice_kinds, is_first_violation, tool_calls_valid, ChatCompletionRequest,
    ChatCompletionResponse,
};

verus! {

/// With a key set, the headers hold an authorization whose value is the word `Bearer`, a
/// space and the key; with no key set, they hold no authorization at all.
pub proof fn authorization_follows_key(config: ClientConfigView)
    ensures
        match config.api_key {
            Some(key) => headers_of(config).contains_key("authorization"@) && headers_of(
                config,
            )["authorization"@] == "Bearer "@ + key,
            None => !headers_of(config).contains_key("authorization"@),
        },
{
    reveal_header_names();
    assert(config.api_key is Some ==> bearer(config.api_key->Some_0) == "Bearer "@
        + config.api_key->Some_0);
}

/// The headers always name the content type as JSON.
pub proof fn content_type_is_json(config: ClientConfigView)
    ensures
        headers_of(config).contains_key("content-type"@),
        headers_of(config)["content-type"@] == "application/json"@,
{
    reveal_header_names();
}

/// A referer and a title that are both set give the same settings in whichever order
/// they are set, and the headers then hold both, each with exactly the value given.
pub proof fn referer_and_title_in_either_order(
    config: ClientConfigView,
    referer: Seq<char>,
    title: Seq<char>,
)
    ensures
        with_title(with_referer(config, referer), title) == with_referer(
            with_title(config, title),
            referer,
        ),
        headers_of(with_title(with_referer(config, referer), title)).contains_key("referer"@),
        headers_of(with_title(with_referer(config, referer), title))["referer"@] == referer,
        headers_of(with_title(with_referer(config, referer), title)).contains_key("x-title"@),
        headers_of(with_title(with_referer(config, referer), title))["x-title"@] == title,
{
    reveal_header_names();
}

/// The headers hold as many names as they hold values, so each name has one value.
pub proof fn one_value_for_each_name(config: ClientConfigView)
    ensures
        headers_of(config).dom().finite(),
        headers_of(config).dom().len() == header_total(config),
{
    reveal_header_names();
    let with_key = match config.api_key {
        Some(key) => Map::<Seq<char>, Seq<char>>::empty().insert("authorization"@, bearer(key)),
        None => Map::<Seq<char>, Seq<char>>::empty(),
    };
    let with_type = with_key.insert("content-type"@, "application/json"@);
    let with_referer = match config.http_referer {
        Some(referer) => with_type.insert("referer"@, referer),
        None => with_type,
    };
    assert(with_key.dom().finite() && with_key.dom().len() == (if config.api_key is Some {
        1nat
    } else {
        0nat
    }));
    assert(with_type.dom().finite() && with_type.dom().len() == with_key.dom().len() + 1);
    assert(with_referer.dom().finite() && with_referer.dom().len() == with_type.dom().len() + (
    if config.http_referer is Some {
        1nat
    } else {
        0nat
    }));
}

/// A header is sent only where its setting is there: without a referer the headers hold
/// none, and without a title none.
pub proof fn unset_headers_are_absent(config: ClientConfigView)
    ensures
        config.http_referer is None ==> !headers_of(config).contains_key("referer"@),
        config.site_title is None ==> !headers_of(config).contains_key("x-title"@),
{
    reveal_header_names();
}

/// Two completions started on the same settings do not touch each other: where one is
/// told to send, so is the other, each sends the request it was given, and both send to
/// the same address with the headers of the settings.
pub proof fn starts_do_not_interfere(
    config: ClientConfigView,
    joined: Result<Seq<char>, Seq<char>>,
    first: ChatCompletionRequest,
    second: ChatCompletionRequest,
    one: ChatStep,
    other: ChatStep,
)
    requires
        start_matches(config, joined, first, one),
        start_matches(config, joined, second, other),
        one is Send,
    ensures
        other is Send,
        one->request == first,
        other->request == second,
        one->url@ == other->url@,
        header_fields(one->headers) == headers_of(config),
        header_fields(other->headers) == headers_of(config),
{
}

/// The base address of a new client ends in the separator.
pub proof fn default_base_ends_in_separator()
    ensures
        ends_in_separator(default_config().base_url),
{
    reveal_strlit("https://openrouter.ai/api/v1/");
}

/// No completion is sent from a base address that does not end in the separator.
pub proof fn no_send_without_separator(
    config: ClientConfigView,
    joined: Result<Seq<char>, Seq<char>>,
    given: ChatCompletionRequest,
    step: ChatStep,
)
    requires
        start_matches(config, joined, given, step),
        !ends_in_separator(config.base_url),
    ensures
        step is Failed,
{
}

/// A reply has at most one first invalid tool call, so the error of a validation names
/// one kind and no other.
pub proof fn first_violation_is_unique(
    response: ChatCompletionResponse,
    i: int,
    j: int,
    k: int,
    l: int,
)
    requires
        is_first_violation(response, i, j),
        is_first_violation(response, k, l),
    ensures
        i == k,
        j == l,
{
    if i < k {
        assert(all_function(choice_kinds(response, i)));
        assert(choice_kinds(response, i)[j] == "function"@);
    } else if k < i {
        assert(all_function(choice_kinds(response, k)));
        assert(choice_kinds(response, k)[l] == "function"@);
    } else if j < l {
        assert(choice_kinds(response, i).take(l)[j] == "function"@);
    } else if l < j {
        assert(choice_kinds(response, i).take(j)[l] == "function"@);
    }
}

/// A reply whose tool calls are all valid has no first invalid tool call, and a reply
/// that has one is not valid.
pub proof fn valid_reply_has_no_violation(response: ChatCompletionResponse, i: int, j: int)
    requires
        tool_calls_valid(response),
    ensures
        !is_first_violation(response, i, j),
{
    if is_first_violation(response, i, j) {
        assert(all_function(choice_kinds(response, i)));
        assert(choice_kinds(response, i)[j] == "function"@);
    }
}

/// What the four header names are, character by character.
proof fn reveal_header_names()
    ensures
        "authorization"@.len() == 13,
        "content-type"@.len() == 12,
        "referer"@.len() == 7,
        "x-title"@.len() == 7,
        "referer"@[0] == 'r',
        "x-title"@[0] == 'x',
{
    reveal_strlit("authorization");
    reveal_strlit("content-type");
    reveal_strlit("referer");
    reveal_strlit("x-title");
}

} // verus!
