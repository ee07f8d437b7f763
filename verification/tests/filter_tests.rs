use contile::error::HandlerErrorKind;
use contile::filter::AdmFilter;
use contile::settings::AdmAdvertiserFilterSettings;
use contile::tags::Tags;
use contile::tiles::AdmTile;

fn entry(
    advertiser_hosts: &[&str],
    click_hosts: &[&str],
    impression_hosts: &[&str],
    position: Option<u8>,
    include_regions: &[&str],
) -> AdmAdvertiserFilterSettings {
    AdmAdvertiserFilterSettings {
        advertiser_hosts: advertiser_hosts.iter().map(|s| s.to_string()).collect(),
        impression_hosts: impression_hosts.iter().map(|s| s.to_string()).collect(),
        click_hosts: click_hosts.iter().map(|s| s.to_string()).collect(),
        position,
        include_regions: include_regions.iter().map(|s| s.to_string()).collect(),
    }
}

fn acme_filter() -> AdmFilter {
    let entries = vec![
        (
            "Acme".to_string(),
            entry(
                &["acme.example"],
                &["c.acme.example"],
                &["i.acme.example"],
                Some(1),
                &["US"],
            ),
        ),
        ("DEFAULT".to_string(), entry(&[], &[], &[], None, &[])),
    ];
    AdmFilter::from_entries(&entries)
}

fn acme_tile() -> AdmTile {
    AdmTile {
        id: 7,
        name: "Acme".to_string(),
        advertiser_url: "https://acme.example/".to_string(),
        click_url: "https://c.acme.example/?ci=1&ctag=x&key=k&version=1".to_string(),
        image_url: "https://img/a.png".to_string(),
        impression_url: "https://i.acme.example/?id=9".to_string(),
        position: Some(1),
    }
}

#[test]
fn valid_tile_passes_and_is_sanitized() {
    let filter = acme_filter();
    let mut tags = Tags::new();
    let out = filter
        .filter_and_process(acme_tile(), &mut tags)
        .expect("tile should pass");
    assert_eq!(out.id, 7);
    assert_eq!(out.name, "Acme");
    assert_eq!(out.url, "https://acme.example/");
    assert_eq!(
        out.click_url,
        "https://c.acme.example/?ci=1&ctag=x&key=k&version=1"
    );
    assert_eq!(out.image_url, "https://img/a.png");
    assert_eq!(out.image_size, None);
    assert_eq!(out.impression_url, "https://i.acme.example/?id=9");
}

#[test]
fn advertiser_name_lookup_is_case_insensitive() {
    let filter = acme_filter();
    let mut tags = Tags::new();
    let mut tile = acme_tile();
    tile.name = "ACME".to_string();
    let out = filter.filter_and_process(tile, &mut tags);
    assert!(out.is_some(), "uppercased advertiser name should still match");
}

#[test]
fn unknown_advertiser_is_rejected() {
    let filter = acme_filter();
    let mut tags = Tags::new();
    let mut tile = acme_tile();
    tile.name = "Widgets".to_string();
    let r = filter.validate(&tile, &mut tags);
    match r {
        Err(HandlerErrorKind::UnexpectedAdvertiser(name)) => assert_eq!(name, "Widgets"),
        other => panic!("expected UnexpectedAdvertiser, got {:?}", other.map(|t| t.name)),
    }
}

#[test]
fn missing_required_click_param_is_rejected_with_context() {
    let filter = acme_filter();
    let mut tags = Tags::new();
    let mut tile = acme_tile();
    tile.click_url = "https://c.acme.example/?ci=1&key=k&version=1".to_string();
    let r = filter.validate(&tile, &mut tags);
    assert!(matches!(r, Err(HandlerErrorKind::InvalidHost(_, _))));
    assert_eq!(
        tags.get_extra("reason").as_deref(),
        Some("missing required query param")
    );
    assert_eq!(tags.get_extra("param").as_deref(), Some("ctag"));
}

#[test]
fn rejected_tile_does_not_affect_siblings() {
    let filter = acme_filter();
    let mut tags = Tags::new();
    let mut bad = acme_tile();
    bad.click_url = "https://c.acme.example/?ci=1&key=k&version=1".to_string();
    let tiles = vec![bad, acme_tile()];
    let out = filter.filter_and_assemble(&tiles, 30, &mut tags);
    assert_eq!(out.len(), 1);
    assert_eq!(out[0].id, 7);
}

#[test]
fn extra_click_param_is_rejected_but_click_status_allowed() {
    let filter = acme_filter();

    let mut tags = Tags::new();
    let mut ok = acme_tile();
    ok.click_url = "https://c.acme.example/?ci=1&ctag=x&key=k&version=1&click-status=5".to_string();
    assert!(filter.filter_and_process(ok, &mut tags).is_some());

    let mut tags = Tags::new();
    let mut bad = acme_tile();
    bad.click_url = "https://c.acme.example/?ci=1&ctag=x&key=k&version=1&tracker=9".to_string();
    assert!(filter.filter_and_process(bad, &mut tags).is_none());
    assert_eq!(tags.get_extra("reason").as_deref(), Some("invalid query param"));
    assert_eq!(tags.get_extra("param").as_deref(), Some("tracker"));
}

#[test]
fn impression_url_must_carry_exactly_one_id() {
    let filter = acme_filter();

    let mut tags = Tags::new();
    let mut no_id = acme_tile();
    no_id.impression_url = "https://i.acme.example/".to_string();
    assert!(filter.filter_and_process(no_id, &mut tags).is_none());
    assert_eq!(tags.get_extra("param").as_deref(), Some("id"));

    let mut tags = Tags::new();
    let mut dup_id = acme_tile();
    dup_id.impression_url = "https://i.acme.example/?id=1&id=2".to_string();
    assert!(filter.filter_and_process(dup_id, &mut tags).is_none());

    let mut tags = Tags::new();
    let mut extra = acme_tile();
    extra.impression_url = "https://i.acme.example/?id=1&x=2".to_string();
    assert!(filter.filter_and_process(extra, &mut tags).is_none());
}

#[test]
fn host_not_in_allowlist_is_rejected() {
    let filter = acme_filter();
    let mut tags = Tags::new();
    let mut tile = acme_tile();
    tile.advertiser_url = "https://evil.example/".to_string();
    let r = filter.validate(&tile, &mut tags);
    match r {
        Err(HandlerErrorKind::UnexpectedHost(_, host)) => assert_eq!(host, "evil.example"),
        other => panic!("expected UnexpectedHost, got {:?}", other.map(|t| t.name)),
    }
}

#[test]
fn url_without_host_is_rejected_as_missing_host() {
    let filter = acme_filter();
    let mut tags = Tags::new();
    let mut tile = acme_tile();
    tile.advertiser_url = "mailto:ads@acme.example".to_string();
    let r = filter.validate(&tile, &mut tags);
    assert!(matches!(r, Err(HandlerErrorKind::MissingHost(_, _))));
}

#[test]
fn unparseable_url_is_rejected_as_invalid_host() {
    let filter = acme_filter();
    let mut tags = Tags::new();
    let mut tile = acme_tile();
    tile.advertiser_url = "not a url".to_string();
    let r = filter.validate(&tile, &mut tags);
    assert!(matches!(r, Err(HandlerErrorKind::InvalidHost(_, _))));
}

#[test]
fn empty_host_list_inherits_from_default() {
    let entries = vec![
        (
            "Acme".to_string(),
            entry(&["acme.example"], &[], &["i.acme.example"], None, &[]),
        ),
        (
            "DEFAULT".to_string(),
            entry(&[], &["c.shared.example"], &[], None, &[]),
        ),
    ];
    let filter = AdmFilter::from_entries(&entries);
    let mut tags = Tags::new();
    let mut tile = acme_tile();
    tile.click_url = "https://c.shared.example/?ci=1&ctag=x&key=k&version=1".to_string();
    assert!(filter.filter_and_process(tile, &mut tags).is_some());

    let mut tags = Tags::new();
    let mut own_host = acme_tile();
    own_host.click_url = "https://c.acme.example/?ci=1&ctag=x&key=k&version=1".to_string();
    assert!(
        filter.filter_and_process(own_host, &mut tags).is_none(),
        "with an empty own list the DEFAULT list is the only allowlist"
    );
}

#[test]
fn output_keeps_upstream_order_and_truncates() {
    let filter = acme_filter();
    let mut tags = Tags::new();
    let mut tiles = Vec::new();
    for id in 0..5u64 {
        let mut t = acme_tile();
        t.id = id;
        tiles.push(t);
    }
    let out = filter.filter_and_assemble(&tiles, 3, &mut tags);
    let ids: Vec<u64> = out.iter().map(|t| t.id).collect();
    assert_eq!(ids, vec![0, 1, 2]);
}

#[test]
fn effective_position_falls_through_to_default() {
    let entries = vec![
        ("Acme".to_string(), entry(&["acme.example"], &[], &[], None, &[])),
        ("Bolts".to_string(), entry(&["bolts.example"], &[], &[], Some(4), &[])),
        ("DEFAULT".to_string(), entry(&[], &[], &[], Some(2), &[])),
    ];
    let filter = AdmFilter::from_entries(&entries);
    assert_eq!(filter.effective_position(&"Bolts".to_string()), Some(4));
    assert_eq!(filter.effective_position(&"Acme".to_string()), Some(2));
    assert_eq!(filter.effective_position(&"Widgets".to_string()), None);
}

#[test]
fn country_gate_uses_union_of_include_regions() {
    let filter = acme_filter();
    assert!(filter.country_allowed(&"US".to_string()));
    assert!(!filter.country_allowed(&"FR".to_string()));
}
