use contile::error::HandlerErrorKind;
use contile::extractors::{validate_placement, TilesParams, TilesRequest};
use contile::tags::Tags;

#[test]
fn placements_are_validated() {
    assert!(validate_placement("urlbar"));
    assert!(validate_placement("newtab"));
    assert!(validate_placement("search"));
    assert!(!validate_placement("sidebar"));
    assert!(!validate_placement(""));
    assert!(!validate_placement("Newtab"), "validation sees the lowercased form only");
}

#[test]
fn request_normalization_uppercases_and_lowercases() {
    let params = TilesParams {
        country: "us".to_string(),
        placement: "NewTab".to_string(),
    };
    let req = TilesRequest::from_params(&params, &"TestAgent/1.0".to_string()).expect("valid");
    assert_eq!(req.country, "US");
    assert_eq!(req.placement, "newtab");
    assert_eq!(req.ua, "TestAgent/1.0");
}

#[test]
fn invalid_placement_is_a_validation_error() {
    let params = TilesParams {
        country: "us".to_string(),
        placement: "popup".to_string(),
    };
    let r = TilesRequest::from_params(&params, &"ua".to_string());
    match r {
        Err(HandlerErrorKind::Validation(msg)) => assert_eq!(msg, "Invalid placement parameter"),
        _ => panic!("expected a validation error"),
    }
}

#[test]
fn tags_keep_the_last_write_per_key() {
    let mut tags = Tags::new();
    assert_eq!(tags.get_tag("type"), None);
    tags.add_tag("type", "Advertiser");
    tags.add_tag("type", "Click");
    tags.add_extra("url", "https://x/");
    tags.add_metric("srv.hostname", "box");
    assert_eq!(tags.get_tag("type").as_deref(), Some("Click"));
    assert_eq!(tags.get_extra("url").as_deref(), Some("https://x/"));
    assert_eq!(tags.get_metric("srv.hostname").as_deref(), Some("box"));
    assert_eq!(tags.get_extra("type"), None, "tags and extras are separate");
}
