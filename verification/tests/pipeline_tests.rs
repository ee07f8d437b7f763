//! End-to-end runs of the core: gate, cache protocol, fetch classification,
//! filter pipeline, serialization and commit, with no HTTP anywhere.

use contile::cache::{AudienceKey, TilesCache, TilesContent, TilesDisposition, TilesState};
use contile::error::HandlerErrorKind;
use contile::extractors::{FormFactor, OsFamily};
use contile::filter::AdmFilter;
use contile::handlers::{complete_fetch, FetchCompletion};
use contile::jsonfmt::finalize_tiles;
use contile::settings::{AdmAdvertiserFilterSettings, TestModes};
use contile::tags::Tags;
use contile::tiles::{classify_fetch, AdmTile, FetchOutcome};

fn s1_filter() -> AdmFilter {
    let entries = vec![
        (
            "acme".to_string(),
            AdmAdvertiserFilterSettings {
                advertiser_hosts: vec!["acme.example".to_string()],
                impression_hosts: vec!["i.acme.example".to_string()],
                click_hosts: vec!["c.acme.example".to_string()],
                position: Some(1),
                include_regions: vec![],
            },
        ),
        ("DEFAULT".to_string(), AdmAdvertiserFilterSettings {
            advertiser_hosts: vec![],
            impression_hosts: vec![],
            click_hosts: vec![],
            position: None,
            include_regions: vec![],
        }),
    ];
    AdmFilter::from_entries(&entries)
}

fn s1_tile() -> AdmTile {
    AdmTile {
        id: 7,
        name: "Acme".to_string(),
        advertiser_url: "https://acme.example/".to_string(),
        click_url: "https://c.acme.example/?ci=1&ctag=x&key=k&version=1".to_string(),
        image_url: "https://img/a.png".to_string(),
        impression_url: "https://i.acme.example/?id=9".to_string(),
        position: Some(1),
    }
}

fn key() -> AudienceKey {
    AudienceKey {
        country_code: "US".to_string(),
        region_code: None,
        dma_code: None,
        form_factor: FormFactor::Desktop,
        os_family: OsFamily::Windows,
        legacy_only: false,
    }
}

/// One full pass over a cold cache, ending with the committed body.
fn run_cold(filter: &AdmFilter, cache: &mut TilesCache, raw: Vec<AdmTile>, now: u64) -> FetchCompletion {
    let k = key();
    assert!(matches!(cache.read_phase(&k, now), TilesDisposition::Proceed(false)));
    let handle = cache.prepare_write(&k, false);
    let fetched = classify_fetch(FetchOutcome::Tiles(raw), now, 5, TestModes::NoTest);
    let result: Result<TilesContent, HandlerErrorKind> = fetched.map(|tiles| {
        let mut tags = Tags::new();
        let kept = filter.filter_and_assemble(&tiles, 30, &mut tags);
        finalize_tiles(&kept)
    });
    complete_fetch(cache, handle, result, now, 60)
}

#[test]
fn cold_hit_serves_one_sanitized_tile_and_caches_fresh() {
    let filter = s1_filter();
    let mut cache = TilesCache::new();
    let done = run_cold(&filter, &mut cache, vec![s1_tile()], 10);
    let body = match done {
        FetchCompletion::Served(TilesContent::Json(body)) => body,
        other => panic!("expected a served body, got {:?}", matches!(other, FetchCompletion::NoTiles(_))),
    };
    assert!(body.contains("\"url\":\"https://acme.example/\""), "body: {}", body);
    assert!(body.contains("\"id\":7"));
    assert!(matches!(cache.get(&key()), Some(TilesState::Fresh(_))));

    // Until the entry expires, every read replays the same bytes.
    for now in 10..70 {
        match cache.read_phase(&key(), now) {
            TilesDisposition::Content(TilesContent::Json(b)) => assert_eq!(b, body),
            other => panic!("expected the cached body at {} ({})", now, matches!(other, TilesDisposition::NoContent)),
        }
    }
}

#[test]
fn fan_out_is_suppressed_while_populating() {
    let filter = s1_filter();
    let mut cache = TilesCache::new();
    let k = key();

    // The first caller reserves the slot...
    let handle = cache.prepare_write(&k, false);

    // ... and the herd behind it all draw 204, none a fetch.
    let mut no_content: usize = 0;
    for _ in 0..99 {
        match cache.read_phase(&k, 10) {
            TilesDisposition::NoContent => no_content += 1,
            _ => panic!("a concurrent cold request must see 204"),
        }
    }
    assert_eq!(no_content, 99);

    // The reserving caller commits; the herd now gets the body.
    let mut tags = Tags::new();
    let kept = filter.filter_and_assemble(&vec![s1_tile()], 30, &mut tags);
    let _ = complete_fetch(&mut cache, handle, Ok(finalize_tiles(&kept)), 10, 60);
    assert!(matches!(
        cache.read_phase(&k, 11),
        TilesDisposition::Content(TilesContent::Json(_))
    ));
}

#[test]
fn all_tiles_filtered_caches_the_emptiness() {
    let filter = s1_filter();
    let mut cache = TilesCache::new();
    let mut unknown = s1_tile();
    unknown.name = "Widgets".to_string();
    let done = run_cold(&filter, &mut cache, vec![unknown], 10);
    assert!(matches!(done, FetchCompletion::Served(TilesContent::Empty)));
    // The next request is answered from the cache, still without a fetch.
    assert!(matches!(
        cache.read_phase(&key(), 11),
        TilesDisposition::Content(TilesContent::Empty)
    ));
}
