use contile::error::HandlerErrorKind;
use contile::extractors::{DeviceInfo, FormFactor, Location, OsFamily};
use contile::settings::{Settings, TestModes};
use contile::tiles::{
    build_adm_url, classify_fetch, decorate_tile, fake_response_filename, filtered_dma,
    upstream_query, AdmTile, FetchOutcome, StoredImage, Tile,
};

fn test_settings() -> Settings {
    Settings {
        adm_endpoint: "https://adm.example/tiles".to_string(),
        partner_id: "demofeed".to_string(),
        sub1: "123456789".to_string(),
        adm_timeout: 5,
        adm_query_tile_count: 10,
        adm_max_tiles: 2,
        tiles_ttl: 900,
        jitter: 10,
        fallback_country: "US".to_string(),
        excluded_dmas: Some(vec![532]),
        excluded_countries_200: false,
        test_mode: TestModes::NoTest,
        test_file_path: "./tools/test/test_data".to_string(),
    }
}

#[test]
fn test_filtered_dma() {
    let settings = test_settings();

    let exclude_dma = serde_json::to_string(&settings.excluded_dmas).expect("No exclude_dmas");
    let excluded_dmas: Option<Vec<u16>> =
        serde_json::from_str(&exclude_dma).expect("No exclude_dmas");

    let x_list = excluded_dmas.as_ref().expect("No `exclude_dmas` found");
    let blocked = x_list.first().expect("`exclude_dma` list empty");
    assert_eq!(filtered_dma(&excluded_dmas, blocked), "".to_owned());
    assert_eq!(filtered_dma(&excluded_dmas, &0), "".to_owned());
    assert_eq!(filtered_dma(&excluded_dmas, &200), "200".to_owned());
}

fn device() -> DeviceInfo {
    DeviceInfo {
        form_factor: FormFactor::Desktop,
        os_family: OsFamily::MacOs,
        legacy_client: false,
    }
}

#[test]
fn upstream_query_pairs_are_exact() {
    let settings = test_settings();
    let location = Location {
        country: Some("DE".to_string()),
        region: Some("BE".to_string()),
        dma: None,
    };
    let pairs = upstream_query(&settings, &location, &device());
    let expected: Vec<(String, String)> = [
        ("partner", "demofeed"),
        ("sub1", "123456789"),
        ("sub2", "newtab"),
        ("country-code", "DE"),
        ("region-code", "BE"),
        ("dma-code", ""),
        ("form-factor", "desktop"),
        ("os-family", "macos"),
        ("v", "1.0"),
        ("out", "json"),
        ("results", "10"),
    ]
    .iter()
    .map(|(k, v)| (k.to_string(), v.to_string()))
    .collect();
    assert_eq!(pairs, expected);
}

#[test]
fn upstream_query_applies_fallbacks_and_exclusions() {
    let settings = test_settings();
    let location = Location {
        country: None,
        region: None,
        dma: Some(532),
    };
    let pairs = upstream_query(&settings, &location, &device());
    assert_eq!(pairs[3], ("country-code".to_string(), "US".to_string()));
    assert_eq!(pairs[4], ("region-code".to_string(), "".to_string()));
    assert_eq!(pairs[5], ("dma-code".to_string(), "".to_string()));

    let visible = Location {
        country: None,
        region: None,
        dma: Some(635),
    };
    let pairs = upstream_query(&settings, &visible, &device());
    assert_eq!(pairs[5], ("dma-code".to_string(), "635".to_string()));
}

#[test]
fn adm_url_is_percent_encoded_by_the_url_crate() {
    let settings = test_settings();
    let location = Location {
        country: Some("DE".to_string()),
        region: Some("BE".to_string()),
        dma: None,
    };
    let built = build_adm_url(&settings, &location, &device()).expect("url should build");
    let expected = url::Url::parse_with_params(
        "https://adm.example/tiles",
        &[
            ("partner", "demofeed"),
            ("sub1", "123456789"),
            ("sub2", "newtab"),
            ("country-code", "DE"),
            ("region-code", "BE"),
            ("dma-code", ""),
            ("form-factor", "desktop"),
            ("os-family", "macos"),
            ("v", "1.0"),
            ("out", "json"),
            ("results", "10"),
        ],
    )
    .unwrap();
    assert_eq!(built, expected.as_str());
    assert!(built.contains("country-code=DE"));
}

#[test]
fn adm_url_fails_only_on_a_bad_endpoint() {
    let mut settings = test_settings();
    settings.adm_endpoint = "not a url".to_string();
    let location = Location {
        country: None,
        region: None,
        dma: None,
    };
    match build_adm_url(&settings, &location, &device()) {
        Err(HandlerErrorKind::Internal(msg)) => assert_eq!(msg, "Invalid adm_endpoint"),
        _ => panic!("an endpoint that does not parse must be an internal error"),
    }
}

#[test]
fn classify_fetch_maps_the_error_taxonomy() {
    let ok = classify_fetch(FetchOutcome::Tiles(vec![]), 0, 5, TestModes::NoTest);
    assert!(matches!(ok, Ok(ref v) if v.is_empty()));

    let bad = classify_fetch(
        FetchOutcome::Unparseable("expected value".to_string()),
        0,
        5,
        TestModes::NoTest,
    );
    match bad {
        Err(HandlerErrorKind::BadAdmResponse(msg)) => assert_eq!(msg, "expected value"),
        _ => panic!("expected BadAdmResponse"),
    }

    // A timeout inside the cold-start window is the soft load error...
    assert!(matches!(
        classify_fetch(FetchOutcome::TimedOut, 5, 5, TestModes::NoTest),
        Err(HandlerErrorKind::AdmLoadError)
    ));
    // ... and after the window it is a server error.
    assert!(matches!(
        classify_fetch(FetchOutcome::TimedOut, 6, 5, TestModes::NoTest),
        Err(HandlerErrorKind::AdmServerError)
    ));
    assert!(matches!(
        classify_fetch(FetchOutcome::Failed, 0, 5, TestModes::NoTest),
        Err(HandlerErrorKind::AdmServerError)
    ));
    // TestTimeout fails every fetch as a cold-start timeout.
    assert!(matches!(
        classify_fetch(FetchOutcome::Tiles(vec![]), 9, 5, TestModes::TestTimeout),
        Err(HandlerErrorKind::AdmLoadError)
    ));
}

#[test]
fn fake_response_filename_sanitizes_and_lowercases() {
    assert_eq!(
        fake_response_filename("Fake-Response").unwrap(),
        "fakeresponse.json"
    );
    assert_eq!(fake_response_filename("DEFAULT").unwrap(), "default.json");
    assert_eq!(fake_response_filename("a_B 9!").unwrap(), "a_b9.json");
    assert!(matches!(
        fake_response_filename("!!!"),
        Err(HandlerErrorKind::Internal(_))
    ));
}

#[test]
fn from_adm_tile_moves_advertiser_url_to_url() {
    let tile = AdmTile {
        id: 3,
        name: "N".to_string(),
        advertiser_url: "https://a/".to_string(),
        click_url: "https://c/".to_string(),
        image_url: "https://i/".to_string(),
        impression_url: "https://p/".to_string(),
        position: Some(2),
    };
    let out = Tile::from_adm_tile(tile);
    assert_eq!(out.url, "https://a/");
    assert_eq!(out.image_size, None);
}

#[test]
fn decorate_tile_rewrites_image_or_drops() {
    let tile = Tile {
        id: 3,
        name: "N".to_string(),
        url: "https://a/".to_string(),
        click_url: "https://c/".to_string(),
        image_url: "https://i/orig.png".to_string(),
        image_size: None,
        impression_url: "https://p/".to_string(),
    };
    let stored = StoredImage {
        url: "https://cdn/final.png".to_string(),
        width: 96,
    };
    let out = decorate_tile(tile.duplicate(), Some(stored)).expect("kept");
    assert_eq!(out.image_url, "https://cdn/final.png");
    assert_eq!(out.image_size, Some(96));
    assert!(decorate_tile(tile, None).is_none());
}
