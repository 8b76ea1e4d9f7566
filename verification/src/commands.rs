//! The operations as the display layer calls them: failures arrive as the
//! text that is shown to the user.

use crate::api::{
    listing_request, search_request, shader_request, ShaderInfo, ShadertoyAPI,
};
use crate::cache::MetadataCache;
use crate::error::{FetchError, FetchErrorView};
use crate::redact::{occurs_in, scrubbed};
use crate::sort::SortBy;
use vstd::prelude::*;

verus! {

/// Replaces a fetch error by the text that is shown for it and leaves a
/// success as it is. The text is the error's description without the access
/// credential.
pub fn map_error<T>(api: &ShadertoyAPI, result: Result<T, FetchError>) -> (mapped: Result<
    T,
    String,
>)
    ensures
        match result {
            Ok(value) => mapped == Ok::<T, String>(value),
            Err(error) => mapped is Err && mapped->Err_0@ == scrubbed(
                error@.description(),
                api.token(),
            ),
        },
        mapped is Err && api.token().len() > 0 ==> !occurs_in(api.token(), mapped->Err_0@),
{
    match result {
        Ok(value) => Ok(value),
        Err(error) => Err(api.scrub(error.description())),
    }
}

/// The request for a page of shaders: a search where a query is given, the
/// plain listing otherwise.
pub open spec fn shaders_request(
    api_token: Seq<char>,
    query: Option<Seq<char>>,
    sort_by: Option<SortBy>,
    page_size: Option<u64>,
    page_number: Option<u64>,
) -> Result<Seq<char>, FetchErrorView> {
    match query {
        Some(text) => search_request(api_token, text, sort_by, page_size, page_number),
        None => listing_request(api_token, sort_by, page_size, page_number),
    }
}

/// The query of a command as a mathematical value.
pub open spec fn query_view(query: Option<String>) -> Option<Seq<char>> {
    match query {
        Some(text) => Some(text@),
        None => None,
    }
}

/// Plans the request for a page of shaders: the URL of the search where a
/// query is given and of the listing otherwise, or the description of the
/// failure to build it.
pub fn get_shaders(
    api: &ShadertoyAPI,
    query: &Option<String>,
    sort_by: &Option<SortBy>,
    page_size: &Option<u64>,
    page_number: &Option<u64>,
) -> (request: Result<String, String>)
    ensures
        match shaders_request(api.token(), query_view(*query), *sort_by, *page_size, *page_number) {
            Ok(url) => request is Ok && request->Ok_0@ == url,
            Err(error) => request is Err && request->Err_0@ == scrubbed(
                error.description(),
                api.token(),
            ),
        },
        request is Err && api.token().len() > 0 ==> !occurs_in(api.token(), request->Err_0@),
{
    let planned = match query {
        Some(text) => api.query_shaders(text.as_str(), sort_by, page_size, page_number),
        None => api.get_shaders(sort_by, page_size, page_number),
    };
    map_error(api, planned)
}

/// Answers a request for one shader's record against `cache`: the cached
/// record, or the URL to fetch it from, or the description of the failure to
/// build that URL.
pub fn get_shader<'a>(api: &ShadertoyAPI, cache: &'a MetadataCache, id: &str) -> (answer: Result<
    ShaderInfo<'a>,
    String,
>)
    ensures
        match answer {
            Ok(ShaderInfo::Cached(shader)) => cache@.contains_key(id@) && *shader == cache@[id@]
                && shader.spec_id() == id@,
            Ok(ShaderInfo::Fetch(url)) => !cache@.contains_key(id@) && shader_request(
                api.token(),
                id@,
            ) == Ok::<Seq<char>, FetchErrorView>(url@),
            Err(message) => !cache@.contains_key(id@) && shader_request(api.token(), id@) is Err
                && message@ == scrubbed(
                shader_request(api.token(), id@)->Err_0.description(),
                api.token(),
            ),
        },
        answer is Err && api.token().len() > 0 ==> !occurs_in(api.token(), answer->Err_0@),
{
    map_error(api, api.get_shader_info(cache, id))
}

} // verus!
