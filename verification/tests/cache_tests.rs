use contile::cache::{AudienceKey, TilesCache, TilesContent, TilesDisposition, TilesState};
use contile::error::HandlerErrorKind;
use contile::extractors::{DeviceInfo, FormFactor, Location, OsFamily};
use contile::handlers::{add_jitter, complete_fetch, country_gate, empty_tiles_body, FetchCompletion, GateDecision};
use contile::settings::{AdmAdvertiserFilterSettings, Settings, TestModes};

fn key_for(country: &str) -> AudienceKey {
    AudienceKey {
        country_code: country.to_string(),
        region_code: None,
        dma_code: None,
        form_factor: FormFactor::Desktop,
        os_family: OsFamily::Windows,
        legacy_only: false,
    }
}

fn body(text: &str) -> TilesContent {
    TilesContent::Json(text.to_string())
}

fn served_body(d: &TilesDisposition) -> Option<String> {
    match d {
        TilesDisposition::Content(TilesContent::Json(s)) => Some(s.clone()),
        TilesDisposition::StaleContent(TilesContent::Json(s)) => Some(s.clone()),
        _ => None,
    }
}

#[test]
fn cold_start_populates_and_serves() {
    let mut cache = TilesCache::new();
    let key = key_for("US");

    // Read phase on an empty cache: proceed, not expired.
    assert!(matches!(cache.read_phase(&key, 100), TilesDisposition::Proceed(false)));

    // Reserve; other readers now see 204 until the fetch settles.
    let handle = cache.prepare_write(&key, false);
    assert!(matches!(cache.read_phase(&key, 100), TilesDisposition::NoContent));
    assert!(matches!(cache.get(&key), Some(TilesState::Populating)));

    // Settle a successful fetch; the body is served and cached Fresh.
    let done = complete_fetch(&mut cache, handle, Ok(body("{\"tiles\":[]}")), 100, 60);
    assert!(matches!(done, FetchCompletion::Served(_)));
    let read = cache.read_phase(&key, 120);
    assert_eq!(served_body(&read).as_deref(), Some("{\"tiles\":[]}"));
}

#[test]
fn fresh_unexpired_hits_never_fetch() {
    let mut cache = TilesCache::new();
    let key = key_for("US");
    let handle = cache.prepare_write(&key, false);
    let _ = complete_fetch(&mut cache, handle, Ok(body("b")), 100, 60);

    // Replaying the same audience key before expiry always serves the body.
    for now in [100u64, 120, 159] {
        let read = cache.read_phase(&key, now);
        assert_eq!(served_body(&read).as_deref(), Some("b"), "at {}", now);
    }
    // ... and the reads are byte-identical.
}

#[test]
fn expired_fresh_slot_refreshes_and_serves_stale() {
    let mut cache = TilesCache::new();
    let key = key_for("US");
    let handle = cache.prepare_write(&key, false);
    let _ = complete_fetch(&mut cache, handle, Ok(body("old")), 100, 60);

    // Past expiry the read phase asks for a refresh.
    assert!(matches!(cache.read_phase(&key, 160), TilesDisposition::Proceed(true)));

    // One worker reserves; concurrent readers get the stale body, marked
    // stale so the request layer counts it as a refreshing hit.
    let handle = cache.prepare_write(&key, true);
    assert!(matches!(cache.get(&key), Some(TilesState::Refreshing(_))));
    let read = cache.read_phase(&key, 161);
    assert!(matches!(read, TilesDisposition::StaleContent(_)));
    assert_eq!(served_body(&read).as_deref(), Some("old"));

    // The refresh commits; readers see the replacement.
    let _ = complete_fetch(&mut cache, handle, Ok(body("new")), 161, 60);
    let read = cache.read_phase(&key, 162);
    assert_eq!(served_body(&read).as_deref(), Some("new"));
}

#[test]
fn failed_fetch_restores_prior_state() {
    let mut cache = TilesCache::new();
    let key = key_for("US");

    // Empty cache: a server error leaves the cache empty for a retry.
    let handle = cache.prepare_write(&key, false);
    let done = complete_fetch(&mut cache, handle, Err(HandlerErrorKind::AdmServerError), 100, 60);
    assert!(matches!(done, FetchCompletion::Failed(HandlerErrorKind::AdmServerError)));
    assert!(cache.get(&key).is_none());
    assert!(matches!(cache.read_phase(&key, 101), TilesDisposition::Proceed(false)));

    // Fresh-expired: the failure restores the expired Fresh body.
    let handle = cache.prepare_write(&key, false);
    let _ = complete_fetch(&mut cache, handle, Ok(body("old")), 100, 60);
    let handle = cache.prepare_write(&key, true);
    let done = complete_fetch(&mut cache, handle, Err(HandlerErrorKind::AdmLoadError), 200, 60);
    assert!(matches!(done, FetchCompletion::Failed(HandlerErrorKind::AdmLoadError)));
    match cache.get(&key) {
        Some(TilesState::Fresh(t)) => assert!(t.expired(200)),
        other => panic!("expected restored Fresh slot, found none? {}", other.is_some()),
    }
}

#[test]
fn bad_upstream_body_caches_empty_and_answers_no_content() {
    let mut cache = TilesCache::new();
    let key = key_for("US");
    let handle = cache.prepare_write(&key, false);
    let done = complete_fetch(
        &mut cache,
        handle,
        Err(HandlerErrorKind::BadAdmResponse("bad json".to_string())),
        100,
        60,
    );
    match done {
        FetchCompletion::NoTiles(msg) => assert_eq!(msg, "bad json"),
        _ => panic!("expected NoTiles"),
    }
    // The emptiness is cached: the next read serves Empty instead of fetching.
    assert!(matches!(
        cache.read_phase(&key, 110),
        TilesDisposition::Content(TilesContent::Empty)
    ));
}

#[test]
fn contention_handle_commits_nothing() {
    let mut cache = TilesCache::new();
    let key = key_for("US");
    let first = cache.prepare_write(&key, false);
    // A second worker that races past the read phase gets a no-op handle.
    let second = cache.prepare_write(&key, false);
    let done = complete_fetch(&mut cache, second, Ok(body("squatter")), 100, 60);
    assert!(matches!(done, FetchCompletion::Served(_)));
    assert!(matches!(cache.get(&key), Some(TilesState::Populating)));
    let _ = complete_fetch(&mut cache, first, Ok(body("real")), 100, 60);
    let read = cache.read_phase(&key, 110);
    assert_eq!(served_body(&read).as_deref(), Some("real"));
}

#[test]
fn distinct_audience_keys_have_distinct_slots() {
    let mut cache = TilesCache::new();
    let us = key_for("US");
    let de = key_for("DE");
    let handle = cache.prepare_write(&us, false);
    let _ = complete_fetch(&mut cache, handle, Ok(body("us")), 100, 60);
    assert!(cache.get(&de).is_none());
    let handle = cache.prepare_write(&de, false);
    let _ = complete_fetch(&mut cache, handle, Ok(body("de")), 100, 60);
    assert_eq!(served_body(&cache.read_phase(&us, 110)).as_deref(), Some("us"));
    assert_eq!(served_body(&cache.read_phase(&de, 110)).as_deref(), Some("de"));
}

fn settings_with_ttl(tiles_ttl: u32, jitter: u32) -> Settings {
    Settings {
        adm_endpoint: "https://adm.example/tiles".to_string(),
        partner_id: "partner".to_string(),
        sub1: "sub1".to_string(),
        adm_timeout: 5,
        adm_query_tile_count: 10,
        adm_max_tiles: 2,
        tiles_ttl,
        jitter,
        fallback_country: "US".to_string(),
        excluded_dmas: None,
        excluded_countries_200: false,
        test_mode: TestModes::NoTest,
        test_file_path: "./tools/test/test_data".to_string(),
    }
}

#[test]
fn jittered_ttl_stays_within_the_bound() {
    // |effective - base| <= base * min(jitter, 50) / 100, on every draw.
    let settings = settings_with_ttl(900, 10);
    for _ in 0..200 {
        let ttl = add_jitter(&settings);
        assert!((810..=990).contains(&ttl), "ttl {} out of bounds", ttl);
    }
    // A jitter percentage over 50 is capped at 50.
    let wild = settings_with_ttl(100, 200);
    for _ in 0..200 {
        let ttl = add_jitter(&wild);
        assert!((50..=150).contains(&ttl), "ttl {} out of bounds", ttl);
    }
    // Zero jitter leaves the base untouched.
    let flat = settings_with_ttl(900, 0);
    assert_eq!(add_jitter(&flat), 900);
}

#[test]
fn audience_key_build_normalizes_fields() {
    let device = DeviceInfo {
        form_factor: FormFactor::Phone,
        os_family: OsFamily::Android,
        legacy_client: false,
    };
    let location = Location {
        country: Some("US".to_string()),
        region: Some("".to_string()),
        dma: Some(532),
    };
    let key = AudienceKey::build(&location, &device, &Some(vec![532]));
    assert_eq!(key.country_code, "US");
    assert_eq!(key.region_code, None, "empty region is absent");
    assert_eq!(key.dma_code, None, "excluded DMA is forced absent");
    assert_eq!(key.form_factor, FormFactor::Phone);
    assert!(!key.legacy_only);

    let key2 = AudienceKey::build(&location, &device, &Some(vec![1]));
    assert_eq!(key2.dma_code, Some(532));
    assert!(key.key_eq(&key));
    assert!(!key.key_eq(&key2));
}

#[test]
fn country_gate_short_circuits_excluded_countries() {
    let entries = vec![(
        "Acme".to_string(),
        AdmAdvertiserFilterSettings {
            advertiser_hosts: vec!["acme.example".to_string()],
            impression_hosts: vec![],
            click_hosts: vec![],
            position: None,
            include_regions: vec!["US".to_string()],
        },
    )];
    let filter = contile::filter::AdmFilter::from_entries(&entries);
    assert_eq!(country_gate(&filter, &"US".to_string(), false), GateDecision::Allowed);
    assert_eq!(country_gate(&filter, &"FR".to_string(), false), GateDecision::NoContent);
    assert_eq!(country_gate(&filter, &"FR".to_string(), true), GateDecision::EmptyOk);
    assert_eq!(empty_tiles_body(), "{\"tiles\":[]}");
}
