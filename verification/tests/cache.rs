use shadertoy_client::{
    get_shader, map_error, scrub, FetchError, Info, Input, MetadataCache, Output, RenderPass,
    Sampler, Shader, ShaderContainer, ShaderInfo, Shaders, ShadertoyAPI,
};

fn sample_shader(id: &str, name: &str) -> Shader {
    Shader {
        ver: String::from("0.1"),
        info: Info {
            id: String::from(id),
            date: String::from("1383816520"),
            viewed: 1024,
            name: String::from(name),
            username: String::from("iq"),
            description: String::from("A test record"),
            likes: 7,
            published: 3,
            flags: 0,
            use_preview: 0,
            tags: vec![String::from("fire"), String::from("noise")],
            hasliked: 0,
        },
        renderpass: vec![RenderPass {
            inputs: vec![Input {
                id: 30,
                src: String::from("/media/a/08b42b43ae9d3c0605da11d0eac86618ea888e62.png"),
                ctype: String::from("texture"),
                channel: 0,
                sampler: Sampler {
                    filter: String::from("mipmap"),
                    wrap: String::from("repeat"),
                    vflip: String::from("true"),
                    srgb: String::from("false"),
                    internal: String::from("byte"),
                },
                published: 1,
            }],
            outputs: vec![Output { id: 37, channel: 0 }],
            code: String::from("void mainImage(out vec4 c, in vec2 p) { c = vec4(1.0); }"),
            name: String::from("Image"),
            description: String::new(),
            kind: String::from("image"),
        }],
    }
}

fn hand_in(api: &ShadertoyAPI, cache: &mut MetadataCache, id: &str, record: Shader) {
    let taken = api.shader_info_fetched(cache, String::from(id), ShaderContainer::new(record));
    assert_eq!(taken, Ok(()));
}

#[test]
fn uncached_shader_is_fetched_from_its_endpoint() {
    let api = ShadertoyAPI::new(String::from("tok3n"));
    let cache = MetadataCache::new();
    match api.get_shader_info(&cache, "4dXGR4") {
        Ok(ShaderInfo::Fetch(url)) => {
            assert_eq!(url, "https://www.shadertoy.com/api/v1/shaders/4dXGR4?key=tok3n")
        }
        other => panic!("expected a fetch, got {:?}", other),
    }
}

#[test]
fn second_get_is_answered_from_the_cache() {
    let api = ShadertoyAPI::new(String::from("tok3n"));
    let mut cache = MetadataCache::new();
    assert!(matches!(api.get_shader_info(&cache, "4dXGR4"), Ok(ShaderInfo::Fetch(_))));
    let record = sample_shader("4dXGR4", "Flame");
    hand_in(&api, &mut cache, "4dXGR4", record.clone());
    match api.get_shader_info(&cache, "4dXGR4") {
        Ok(ShaderInfo::Cached(cached)) => assert_eq!(*cached, record),
        other => panic!("expected a cached record, got {:?}", other),
    }
    match api.get_shader_info(&cache, "4dXGR4") {
        Ok(ShaderInfo::Cached(cached)) => assert_eq!(*cached, record),
        other => panic!("expected a cached record, got {:?}", other),
    }
}

#[test]
fn cached_record_exposes_the_requested_id() {
    let api = ShadertoyAPI::new(String::from("tok3n"));
    let mut cache = MetadataCache::new();
    hand_in(&api, &mut cache, "XsXXDn", sample_shader("XsXXDn", "Creation"));
    match api.get_shader_info(&cache, "XsXXDn") {
        Ok(ShaderInfo::Cached(cached)) => {
            assert_eq!(cached.id(), "XsXXDn");
            assert_eq!(cached.info.id, "XsXXDn");
            assert_eq!(cached.renderpass.len(), 1);
            assert_eq!(cached.renderpass[0].inputs[0].channel, 0);
        }
        other => panic!("expected a cached record, got {:?}", other),
    }
}

#[test]
fn fetching_one_id_does_not_cache_another() {
    let api = ShadertoyAPI::new(String::from("tok3n"));
    let mut cache = MetadataCache::new();
    hand_in(&api, &mut cache, "4dXGR4", sample_shader("4dXGR4", "Flame"));
    assert!(matches!(api.get_shader_info(&cache, "XsXXDn"), Ok(ShaderInfo::Fetch(_))));
    assert!(matches!(api.get_shader_info(&cache, "4dXGR4"), Ok(ShaderInfo::Cached(_))));
    assert!(matches!(api.get_shader_info(&cache, "4dxgr4"), Ok(ShaderInfo::Fetch(_))));
}

#[test]
fn first_record_for_an_id_is_kept() {
    let api = ShadertoyAPI::new(String::from("tok3n"));
    let mut cache = MetadataCache::new();
    let first = sample_shader("4dXGR4", "Flame");
    let late = sample_shader("4dXGR4", "Flame, edited");
    hand_in(&api, &mut cache, "4dXGR4", first.clone());
    hand_in(&api, &mut cache, "4dXGR4", late);
    hand_in(&api, &mut cache, "XsXXDn", sample_shader("XsXXDn", "Creation"));
    match api.get_shader_info(&cache, "4dXGR4") {
        Ok(ShaderInfo::Cached(cached)) => assert_eq!(*cached, first),
        other => panic!("expected a cached record, got {:?}", other),
    }
}

#[test]
fn failed_fetch_leaves_the_id_uncached() {
    let api = ShadertoyAPI::new(String::from("tok3n"));
    let cache = MetadataCache::new();
    assert!(matches!(api.get_shader_info(&cache, "4dXGR4"), Ok(ShaderInfo::Fetch(_))));
    assert!(matches!(api.get_shader_info(&cache, "4dXGR4"), Ok(ShaderInfo::Fetch(_))));
}

#[test]
fn metadata_cache_holds_what_was_stored() {
    let mut cache = MetadataCache::new();
    assert!(!cache.contains("a"));
    assert!(cache.get("a").is_none());
    cache.store(sample_shader("a", "A"));
    assert!(cache.contains("a"));
    assert!(!cache.contains("b"));
    assert_eq!(cache.get("a"), Some(&sample_shader("a", "A")));
    cache.store(sample_shader("a", "changed"));
    assert_eq!(cache.get("a"), Some(&sample_shader("a", "A")));
    cache.store(sample_shader("b", "B"));
    assert_eq!(cache.get("b").map(|record| record.id()), Some("b"));
}

#[test]
fn record_with_another_id_is_refused() {
    let api = ShadertoyAPI::new(String::from("tok3n"));
    let mut cache = MetadataCache::new();
    let answer = api.shader_info_fetched(
        &mut cache,
        String::from("4dXGR4"),
        ShaderContainer::new(sample_shader("XsXXDn", "Creation")),
    );
    assert_eq!(
        answer,
        Err(FetchError::Decode(String::from(
            "the record carries another identifier than the one requested"
        )))
    );
    assert!(!cache.contains("4dXGR4"));
    assert!(!cache.contains("XsXXDn"));
    assert!(matches!(api.get_shader_info(&cache, "4dXGR4"), Ok(ShaderInfo::Fetch(_))));
}

#[test]
fn envelope_unwraps_to_its_record() {
    let record = sample_shader("Ms2SD1", "Seascape");
    let envelope = ShaderContainer::new(record.clone());
    assert_eq!(envelope.shader, record);
    assert_eq!(envelope.into_shader(), record);
}

#[test]
fn page_keeps_total_and_rank_order() {
    let page = Shaders::new(
        31337,
        vec![String::from("XsXXDn"), String::from("4dXGR4"), String::from("Ms2SD1")],
    );
    assert_eq!(page.total(), 31337);
    assert_eq!(page.results().len(), 3);
    assert_eq!(page.results()[0], "XsXXDn");
    assert_eq!(page.results()[1], "4dXGR4");
    assert_eq!(page.results()[2], "Ms2SD1");
}

#[test]
fn shader_command_answers_like_the_client() {
    let api = ShadertoyAPI::new(String::from("tok3n"));
    let mut cache = MetadataCache::new();
    match get_shader(&api, &cache, "4dXGR4") {
        Ok(ShaderInfo::Fetch(url)) => {
            assert_eq!(url, "https://www.shadertoy.com/api/v1/shaders/4dXGR4?key=tok3n")
        }
        other => panic!("expected a fetch, got {:?}", other),
    }
    hand_in(&api, &mut cache, "4dXGR4", sample_shader("4dXGR4", "Flame"));
    match get_shader(&api, &cache, "4dXGR4") {
        Ok(ShaderInfo::Cached(cached)) => assert_eq!(cached.info.name, "Flame"),
        other => panic!("expected a cached record, got {:?}", other),
    }
}

#[test]
fn oversized_shader_id_is_a_construction_error() {
    let api = ShadertoyAPI::new(String::from("tok3n"));
    let cache = MetadataCache::new();
    let id = "x".repeat(0x5000_0000);
    match api.get_shader_info(&cache, &id) {
        Err(FetchError::UrlConstruction(description)) => {
            assert_eq!(description, "the request is too large to be sent as a URL")
        }
        other => panic!("expected a construction error, got {:?}", other),
    }
    assert_eq!(
        get_shader(&api, &cache, &id).err(),
        Some(String::from("the request is too large to be sent as a URL"))
    );
}

#[test]
fn map_error_keeps_success_and_describes_failure() {
    let api = ShadertoyAPI::new(String::from("tok3n"));
    assert_eq!(map_error(&api, Ok::<u32, FetchError>(5)), Ok(5));
    assert_eq!(
        map_error(&api, Err::<u32, FetchError>(FetchError::Network(String::from("refused")))),
        Err(String::from("refused"))
    );
    assert_eq!(
        map_error(&api, Err::<u32, FetchError>(FetchError::HttpStatus(String::from("404")))),
        Err(String::from("404"))
    );
    assert_eq!(
        map_error(&api, Err::<u32, FetchError>(FetchError::Decode(String::from("no field")))),
        Err(String::from("no field"))
    );
    assert_eq!(
        map_error(
            &api,
            Err::<u32, FetchError>(FetchError::UrlConstruction(String::from("empty host")))
        ),
        Err(String::from("empty host"))
    );
}

#[test]
fn map_error_keeps_the_credential_out_of_the_text() {
    let api = ShadertoyAPI::new(String::from("tok3n"));
    let quoted = FetchError::Network(String::from(
        "error sending request for url (https://www.shadertoy.com/api/v1/shaders?num=12&key=tok3n)",
    ));
    let shown = map_error(&api, Err::<u32, FetchError>(quoted)).unwrap_err();
    assert_eq!(
        shown,
        "error sending request for url (https://www.shadertoy.com/api/v1/shaders?num=12&key=)"
    );
    assert!(!shown.contains("tok3n"));
}

#[test]
fn scrub_removes_every_occurrence() {
    assert_eq!(scrub("key=abc&other=abc", "abc"), "key=&other=");
    assert_eq!(scrub("abcabc", "abc"), "");
    assert_eq!(scrub("nothing to hide", "abc"), "nothing to hide");
    assert_eq!(scrub("", "abc"), "");
    assert_eq!(scrub("ab", "abc"), "ab");
}

#[test]
fn scrub_removes_what_a_removal_brings_together() {
    assert_eq!(scrub("aabb", "ab"), "");
    assert_eq!(scrub("xaabbx", "ab"), "xx");
    assert_eq!(scrub("aaa", "aa"), "a");
    assert!(!scrub("ababab-aabbab", "ab").contains("ab"));
}

#[test]
fn scrub_with_an_empty_secret_changes_nothing() {
    assert_eq!(scrub("key=abc", ""), "key=abc");
    let api = ShadertoyAPI::new(String::new());
    assert_eq!(api.scrub("key=abc"), "key=abc");
}

#[test]
fn scrub_counts_characters_not_bytes() {
    assert_eq!(scrub("cl\u{e9}=\u{4e2d}\u{6587}!", "\u{4e2d}\u{6587}"), "cl\u{e9}=!");
}

#[test]
fn failures_are_sorted_into_kinds() {
    let api = ShadertoyAPI::new(String::from("tok3n"));
    let text = || String::from("what went wrong");
    assert_eq!(
        api.classify_failure(true, false, false, "what went wrong"),
        FetchError::UrlConstruction(text())
    );
    assert_eq!(
        api.classify_failure(false, true, false, "what went wrong"),
        FetchError::HttpStatus(text())
    );
    assert_eq!(
        api.classify_failure(false, false, true, "what went wrong"),
        FetchError::Decode(text())
    );
    assert_eq!(
        api.classify_failure(false, false, false, "what went wrong"),
        FetchError::Network(text())
    );
    assert_eq!(
        api.classify_failure(true, true, true, "what went wrong"),
        FetchError::UrlConstruction(text())
    );
    assert_eq!(
        api.classify_failure(false, true, true, "what went wrong"),
        FetchError::HttpStatus(text())
    );
}

#[test]
fn classified_failure_does_not_quote_the_credential() {
    let api = ShadertoyAPI::new(String::from("tok3n"));
    assert_eq!(
        api.classify_failure(false, true, false, "404 for url (https://h/shaders/x?key=tok3n)"),
        FetchError::HttpStatus(String::from("404 for url (https://h/shaders/x?key=)"))
    );
}

#[test]
fn fetch_error_description_is_the_text_it_carries() {
    assert_eq!(FetchError::Network(String::from("n")).description(), "n");
    assert_eq!(FetchError::HttpStatus(String::from("h")).description(), "h");
    assert_eq!(FetchError::Decode(String::from("d")).description(), "d");
    assert_eq!(FetchError::UrlConstruction(String::from("u")).description(), "u");
}
