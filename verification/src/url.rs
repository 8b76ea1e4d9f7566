//! Request URLs. Parsing and serialising a URL is the work of
//! `reqwest::Url`; this module fixes what is handed to it and maps what
//! comes back.

use crate::error::{FetchError, FetchErrorView};
use crate::query::{pairs_view, with_param, ParamSeq, QueryParams};
use vstd::prelude::*;
use vstd::string::StringExecFns;
use vstd::utf8::encode_utf8;

verus! {

/// The root of every API endpoint.
pub const BASE_URL: &'static str = "https://www.shadertoy.com/api/v1";

/// The root against which media paths are resolved.
pub const MEDIA_HOST: &'static str = "https://www.shadertoy.com";

/// The name of the parameter that carries the access credential.
pub const KEY_PARAM: &'static str = "key";

/// The most bytes that an address and its parameters may hold together.
/// Escaping at most triples a text, so the finished URL of a request within
/// the limit stays under the 4 GiB that the parser can index.
pub const URL_SIZE_LIMIT: usize = 0x5000_0000;

/// The description of the failure reported for a request over the limit.
pub const OVERSIZE: &'static str = "the request is too large to be sent as a URL";

/// What `reqwest::Url::parse` makes of `input`: the serialised URL, or the
/// description of the parse error.
pub uninterp spec fn url_parse(input: Seq<char>) -> Result<Seq<char>, Seq<char>>;

/// What `reqwest::Url::parse_with_params` makes of `input` and `params`: the
/// serialised URL with the pairs appended to its query in order, or the
/// description of the parse error.
pub uninterp spec fn url_parse_with_params(
    input: Seq<char>,
    params: Seq<(Seq<char>, Seq<char>)>,
) -> Result<Seq<char>, Seq<char>>;

/// The length of a text in UTF-8.
pub open spec fn utf8_len(text: Seq<char>) -> nat {
    encode_utf8(text).len()
}

/// The bytes that a parameter list takes: names, values and two separators
/// for each pair.
pub open spec fn params_size(params: ParamSeq) -> nat
    decreases params.len(),
{
    if params.len() == 0 {
        0
    } else {
        params_size(params.drop_last()) + utf8_len(params.last().0) + utf8_len(params.last().1)
            + 2
    }
}

/// The bytes that an address and its parameters take together.
pub open spec fn request_size(input: Seq<char>, params: ParamSeq) -> nat {
    utf8_len(input) + params_size(params)
}

/// A prefix of a parameter list takes no more bytes than the whole list.
pub proof fn lemma_params_size_prefix(params: ParamSeq, count: int)
    requires
        0 <= count <= params.len(),
    ensures
        params_size(params.take(count)) <= params_size(params),
    decreases params.len(),
{
    if count == params.len() {
        assert(params.take(count) =~= params);
    } else {
        lemma_params_size_prefix(params.drop_last(), count);
        assert(params.drop_last().take(count) =~= params.take(count));
    }
}

/// Whether an address and its parameters stay within the size limit.
pub fn request_fits(input: &str, params: &Vec<(String, String)>) -> (fits: bool)
    ensures
        fits == (request_size(input@, pairs_view(params@)) <= URL_SIZE_LIMIT),
{
    let ghost all = pairs_view(params@);
    let mut total: usize = input.as_bytes().len();
    if total > URL_SIZE_LIMIT {
        return false;
    }
    let mut i: usize = 0;
    assert(all.take(0) =~= Seq::<(Seq<char>, Seq<char>)>::empty());
    while i < params.len()
        invariant
            i <= params.len(),
            all == pairs_view(params@),
            total == utf8_len(input@) + params_size(all.take(i as int)),
            total <= URL_SIZE_LIMIT,
        decreases params.len() - i,
    {
        let name_len = params[i].0.as_str().as_bytes().len();
        let value_len = params[i].1.as_str().as_bytes().len();
        proof {
            let next = all.take(i as int + 1);
            assert(next.drop_last() =~= all.take(i as int));
            assert(next.last() == all[i as int]);
            assert(params_size(next) == params_size(all.take(i as int)) + name_len + value_len
                + 2);
            lemma_params_size_prefix(all, i as int + 1);
        }
        if name_len > URL_SIZE_LIMIT || value_len > URL_SIZE_LIMIT || total + name_len
            + value_len + 2 > URL_SIZE_LIMIT {
            return false;
        }
        total = total + name_len + value_len + 2;
        i += 1;
    }
    assert(all.take(i as int) =~= all);
    true
}

/// Calls `reqwest::Url::parse` and serialises the URL. The contract names
/// the outcome `url_parse(input)`: the call depends on its argument alone.
#[verifier::external_body]
fn parse_url(input: &str) -> (parsed: Result<String, String>)
    ensures
        parsed_view(parsed) == url_parse(input@),
{
    match reqwest::Url::parse(input) {
        Ok(url) => Ok(String::from(url)),
        Err(error) => Err(error.to_string()),
    }
}

/// Calls `reqwest::Url::parse_with_params` and serialises the URL. The
/// contract names the outcome `url_parse_with_params(input, params)`: the
/// call depends on its arguments alone. It asks for an address under the
/// base URL and a request within the size limit: the parser gives up on a
/// URL that it cannot index, and with the host fixed all that grows is text
/// that escaping at most triples.
#[verifier::external_body]
fn parse_url_with_params(input: &str, params: &Vec<(String, String)>) -> (parsed: Result<
    String,
    String,
>)
    requires
        BASE_URL@.is_prefix_of(input@),
        request_size(input@, pairs_view(params@)) <= URL_SIZE_LIMIT,
    ensures
        parsed_view(parsed) == url_parse_with_params(input@, pairs_view(params@)),
{
    match reqwest::Url::parse_with_params(input, params) {
        Ok(url) => Ok(String::from(url)),
        Err(error) => Err(error.to_string()),
    }
}

/// The request that a parse outcome stands for.
pub open spec fn url_outcome_of(parsed: Result<Seq<char>, Seq<char>>) -> Result<
    Seq<char>,
    FetchErrorView,
> {
    match parsed {
        Ok(url) => Ok(url),
        Err(description) => Err(FetchErrorView::UrlConstruction(description)),
    }
}

/// A `Result` of a URL or a fetch error as a mathematical value.
pub open spec fn url_result_view(result: Result<String, FetchError>) -> Result<
    Seq<char>,
    FetchErrorView,
> {
    match result {
        Ok(url) => Ok(url@),
        Err(error) => Err(error@),
    }
}

/// A parse outcome as a mathematical value.
pub open spec fn parsed_view(parsed: Result<String, String>) -> Result<Seq<char>, Seq<char>> {
    match parsed {
        Ok(url) => Ok(url@),
        Err(description) => Err(description@),
    }
}

/// Turns a parse outcome into the request URL, or into the failure to build
/// one, with the parser's description.
pub fn url_outcome(parsed: Result<String, String>) -> (result: Result<String, FetchError>)
    ensures
        url_result_view(result) == url_outcome_of(parsed_view(parsed)),
{
    match parsed {
        Ok(url) => Ok(url),
        Err(description) => Err(FetchError::UrlConstruction(description)),
    }
}

/// The URL of an API request: the endpoint under the base address, with the
/// access credential bound to `key` among the parameters. A request over the
/// size limit is not attempted.
pub open spec fn make_url_spec(
    endpoint: Seq<char>,
    params: ParamSeq,
    api_token: Seq<char>,
) -> Result<Seq<char>, FetchErrorView> {
    let input = BASE_URL@ + endpoint;
    let all = with_param(params, KEY_PARAM@, api_token);
    if request_size(input, all) > URL_SIZE_LIMIT {
        Err(FetchErrorView::UrlConstruction(OVERSIZE@))
    } else {
        url_outcome_of(url_parse_with_params(input, all))
    }
}

/// Builds the URL of an API request. The credential is bound to `key` in a
/// list of its own, in place of a value that the caller may have bound
/// there; the caller's parameters stay as they are.
pub fn make_url(endpoint: &str, params: &QueryParams, api_token: &str) -> (result: Result<
    String,
    FetchError,
>)
    ensures
        url_result_view(result) == make_url_spec(endpoint@, params@, api_token@),
{
    let sent = params.with(KEY_PARAM.to_owned(), api_token.to_owned());
    let input = String::from_str(BASE_URL).concat(endpoint);
    let pairs = sent.pairs();
    assert(BASE_URL@.is_prefix_of(input@)) by {
        assert(input@.subrange(0, BASE_URL@.len() as int) =~= BASE_URL@);
    }
    if !request_fits(input.as_str(), pairs) {
        return Err(FetchError::UrlConstruction(OVERSIZE.to_owned()));
    }
    url_outcome(parse_url_with_params(input.as_str(), pairs))
}

/// The URL of a media asset: its path under the media host.
pub open spec fn media_url_spec(path: Seq<char>) -> Result<Seq<char>, FetchErrorView> {
    url_outcome_of(url_parse(MEDIA_HOST@ + path))
}

/// Builds the URL from which a media asset is downloaded.
pub fn media_url(path: &str) -> (result: Result<String, FetchError>)
    ensures
        url_result_view(result) == media_url_spec(path@),
{
    let input = String::from_str(MEDIA_HOST).concat(path);
    url_outcome(parse_url(input.as_str()))
}

} // verus!
