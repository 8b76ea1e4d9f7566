//! The client: plans the requests of the four operations and consults the
//! metadata cache before any fetch. It performs no I/O; the caller sends
//! what is planned and hands back what arrived.

use crate::cache::{get_model, stored, CacheMap, MetadataCache};
use crate::decimal::decimal;
use crate::error::{classified, FetchError, FetchErrorView};
use crate::paging::{
    effective_page_size, lemma_listing_params, listing_params, page_params, FROM_PARAM,
    NUM_PARAM, SORT_PARAM,
};
use crate::query::{lemma_with_param, names_distinct, param_value, with_param, QueryParams};
use crate::records::{Shader, ShaderContainer};
use crate::redact::{occurs_in, scrub, scrubbed};
use crate::sort::{sort_token, SortBy};
use crate::url::{
    make_url, make_url_spec, media_url, media_url_spec, url_result_view, KEY_PARAM,
};
use vstd::prelude::*;
use vstd::string::StringExecFns;

verus! {

/// The endpoint that lists shaders.
pub const SHADERS_ENDPOINT: &'static str = "/shaders";

/// The endpoint that searches shaders; the query follows it.
pub const QUERY_ENDPOINT: &'static str = "/shaders/query/";

/// The endpoint of a single shader; the identifier follows it.
pub const SHADER_ENDPOINT: &'static str = "/shaders/";

/// The description of the failure reported for a fetched record that
/// carries another identifier than the one requested.
pub const WRONG_RECORD: &'static str =
    "the record carries another identifier than the one requested";

/// The cache after the record fetched for `shader_id` was handed in: the
/// record is stored where it carries that identifier and refused otherwise.
pub open spec fn fetched(cache: CacheMap, shader_id: Seq<char>, record: Shader) -> CacheMap {
    if record.spec_id() == shader_id {
        stored(cache, shader_id, record)
    } else {
        cache
    }
}

/// Looking a shader up and handing in what was fetched are the two halves
/// of one request: together they leave the cache as the request does, and a
/// record is returned exactly where it was cached before or is the one
/// stored now.
pub proof fn lemma_steps_make_a_request(cache: CacheMap, shader_id: Seq<char>, record: Shader)
    requires
        !cache.contains_key(shader_id),
    ensures
        get_model(cache, shader_id, Some(record)).cache == fetched(cache, shader_id, record),
        get_model(cache, shader_id, Some(record)).record is Some <==> record.spec_id()
            == shader_id,
        get_model(cache, shader_id, None).cache == cache,
{
}

/// The request that lists shaders.
pub open spec fn listing_request(
    api_token: Seq<char>,
    sort_by: Option<SortBy>,
    page_size: Option<u64>,
    page_number: Option<u64>,
) -> Result<Seq<char>, FetchErrorView> {
    make_url_spec(SHADERS_ENDPOINT@, listing_params(sort_by, page_size, page_number), api_token)
}

/// The request that searches shaders for `query`.
pub open spec fn search_request(
    api_token: Seq<char>,
    query: Seq<char>,
    sort_by: Option<SortBy>,
    page_size: Option<u64>,
    page_number: Option<u64>,
) -> Result<Seq<char>, FetchErrorView> {
    make_url_spec(
        QUERY_ENDPOINT@ + query,
        listing_params(sort_by, page_size, page_number),
        api_token,
    )
}

/// The request for the record of one shader.
pub open spec fn shader_request(api_token: Seq<char>, shader_id: Seq<char>) -> Result<
    Seq<char>,
    FetchErrorView,
> {
    make_url_spec(SHADER_ENDPOINT@ + shader_id, Seq::<(Seq<char>, Seq<char>)>::empty(), api_token)
}

/// What a listing or search request carries once the credential is bound:
/// `num` is the page size in force (12 where none is given), `from` is page
/// size times page number where a page number is given and is absent
/// otherwise, `sort` is the token of the sort key where one is given and is
/// absent otherwise, and `key` is the credential.
pub proof fn lemma_request_params(
    api_token: Seq<char>,
    sort_by: Option<SortBy>,
    page_size: Option<u64>,
    page_number: Option<u64>,
)
    ensures
        ({
            let sent = with_param(
                listing_params(sort_by, page_size, page_number),
                KEY_PARAM@,
                api_token,
            );
            &&& names_distinct(sent)
            &&& param_value(sent, NUM_PARAM@) == Some(decimal(effective_page_size(page_size)))
            &&& page_size is None ==> param_value(sent, NUM_PARAM@) == Some(decimal(12))
            &&& param_value(sent, FROM_PARAM@) == (match page_number {
                Some(number) => Some(decimal(effective_page_size(page_size) * (number as nat))),
                None => None,
            })
            &&& param_value(sent, SORT_PARAM@) == (match sort_by {
                Some(key) => Some(sort_token(key)),
                None => None,
            })
            &&& param_value(sent, KEY_PARAM@) == Some(api_token)
        }),
{
    reveal_strlit("num");
    reveal_strlit("from");
    reveal_strlit("sort");
    reveal_strlit("key");
    assert(KEY_PARAM@.len() == 3 && KEY_PARAM@[0] == 'k');
    assert(NUM_PARAM@.len() == 3 && NUM_PARAM@[0] == 'n');
    assert(FROM_PARAM@.len() == 4);
    assert(SORT_PARAM@.len() == 4);
    lemma_listing_params(sort_by, page_size, page_number);
    lemma_with_param(listing_params(sort_by, page_size, page_number), KEY_PARAM@, api_token);
}

/// The answer to a request for one shader's record.
#[derive(Debug)]
pub enum ShaderInfo<'a> {
    /// The record is cached: nothing is to be fetched.
    Cached(&'a Shader),
    /// The record is not cached: it is to be fetched from this URL.
    Fetch(String),
}

/// The client: it holds the access credential that every API request
/// carries.
pub struct ShadertoyAPI {
    api_token: String,
}

impl ShadertoyAPI {
    /// The access credential attached to every API request.
    pub closed spec fn token(&self) -> Seq<char> {
        self.api_token@
    }

    /// A client with the given credential.
    pub fn new(api_token: String) -> (api: ShadertoyAPI)
        ensures
            api.token() == api_token@,
    {
        ShadertoyAPI { api_token }
    }

    /// Plans the request that lists shaders: its URL, or the failure to
    /// build one.
    pub fn get_shaders(
        &self,
        sort_by: &Option<SortBy>,
        page_size: &Option<u64>,
        page_number: &Option<u64>,
    ) -> (request: Result<String, FetchError>)
        ensures
            url_result_view(request) == listing_request(
                self.token(),
                *sort_by,
                *page_size,
                *page_number,
            ),
    {
        let params = page_params(sort_by, page_size, page_number);
        make_url(SHADERS_ENDPOINT, &params, self.api_token.as_str())
    }

    /// Plans the request that searches shaders for `query`: its URL, or the
    /// failure to build one.
    pub fn query_shaders(
        &self,
        query: &str,
        sort_by: &Option<SortBy>,
        page_size: &Option<u64>,
        page_number: &Option<u64>,
    ) -> (request: Result<String, FetchError>)
        ensures
            url_result_view(request) == search_request(
                self.token(),
                query@,
                *sort_by,
                *page_size,
                *page_number,
            ),
    {
        let params = page_params(sort_by, page_size, page_number);
        let endpoint = String::from_str(QUERY_ENDPOINT).concat(query);
        make_url(endpoint.as_str(), &params, self.api_token.as_str())
    }

    /// Answers a request for the record of `shader_id` against `cache`: the
    /// cached record, or, where none is cached, the URL to fetch it from or
    /// the failure to build that URL. The cache is consulted first.
    pub fn get_shader_info<'a>(&self, cache: &'a MetadataCache, shader_id: &str) -> (answer: Result<
        ShaderInfo<'a>,
        FetchError,
    >)
        ensures
            match answer {
                Ok(ShaderInfo::Cached(shader)) => cache@.contains_key(shader_id@) && *shader
                    == cache@[shader_id@] && shader.spec_id() == shader_id@,
                Ok(ShaderInfo::Fetch(url)) => !cache@.contains_key(shader_id@) && shader_request(
                    self.token(),
                    shader_id@,
                ) == Ok::<Seq<char>, FetchErrorView>(url@),
                Err(error) => !cache@.contains_key(shader_id@) && shader_request(
                    self.token(),
                    shader_id@,
                ) == Err::<Seq<char>, FetchErrorView>(error@),
            },
    {
        match cache.get(shader_id) {
            Some(shader) => Ok(ShaderInfo::Cached(shader)),
            None => {
                let params = QueryParams::new();
                let endpoint = String::from_str(SHADER_ENDPOINT).concat(shader_id);
                match make_url(endpoint.as_str(), &params, self.api_token.as_str()) {
                    Ok(url) => Ok(ShaderInfo::Fetch(url)),
                    Err(error) => Err(error),
                }
            },
        }
    }

    /// Takes in the envelope fetched for `shader_id`. Where its record
    /// carries that identifier, the record is cached under it, unless one is
    /// cached there already. A record that carries another identifier does
    /// not answer the request: it is refused as a response of the wrong
    /// shape and the cache stays as it is.
    pub fn shader_info_fetched(
        &self,
        cache: &mut MetadataCache,
        shader_id: String,
        container: ShaderContainer,
    ) -> (result: Result<(), FetchError>)
        ensures
            final(cache)@ == fetched(old(cache)@, shader_id@, container.shader),
            match result {
                Ok(_) => container.shader.spec_id() == shader_id@,
                Err(error) => container.shader.spec_id() != shader_id@ && error@
                    == FetchErrorView::Decode(WRONG_RECORD@),
            },
    {
        let record = container.into_shader();
        if record.info.id == shader_id {
            cache.store(record);
            Ok(())
        } else {
            Err(FetchError::Decode(WRONG_RECORD.to_owned()))
        }
    }

    /// Removes the access credential from a text that is to be shown or
    /// logged.
    pub fn scrub(&self, text: &str) -> (clean: String)
        ensures
            clean@ == scrubbed(text@, self.token()),
            self.token().len() > 0 ==> !occurs_in(self.token(), clean@),
    {
        scrub(text, self.api_token.as_str())
    }

    /// Sorts a failed request into its kind and keeps the credential out of
    /// its description. `building`, `status` and `decoding` say whether the
    /// transport blames the building of the request, the status of the
    /// response or the decoding of its body; `description` is the
    /// transport's own text, which may quote the URL.
    pub fn classify_failure(
        &self,
        building: bool,
        status: bool,
        decoding: bool,
        description: &str,
    ) -> (error: FetchError)
        ensures
            error@ == classified(
                building,
                status,
                decoding,
                scrubbed(description@, self.token()),
            ),
            self.token().len() > 0 ==> !occurs_in(self.token(), error@.description()),
    {
        let clean = self.scrub(description);
        if building {
            FetchError::UrlConstruction(clean)
        } else if status {
            FetchError::HttpStatus(clean)
        } else if decoding {
            FetchError::Decode(clean)
        } else {
            FetchError::Network(clean)
        }
    }

    /// Plans the download of a media asset: its URL, or the failure to build
    /// one.
    pub fn get_media(&self, path: &str) -> (request: Result<String, FetchError>)
        ensures
            url_result_view(request) == media_url_spec(path@),
    {
        media_url(path)
    }
}

} // verus!
