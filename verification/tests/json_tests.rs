use contile::cache::TilesContent;
use contile::jsonfmt::{finalize_tiles, response_json_string};
use contile::text::{u16_dec, u32_dec, u64_dec};
use contile::tiles::Tile;

fn tile(id: u64, name: &str, image_size: Option<u32>) -> Tile {
    Tile {
        id,
        name: name.to_string(),
        url: "https://acme.example/".to_string(),
        click_url: "https://c.acme.example/?ci=1".to_string(),
        image_url: "https://img/a.png".to_string(),
        image_size,
        impression_url: "https://i.acme.example/?id=9".to_string(),
    }
}

/// The serde_json rendering of the same tile, built by hand so the two
/// serializers can be compared.
fn serde_tile(t: &Tile) -> serde_json::Value {
    let mut m = serde_json::Map::new();
    m.insert("id".to_string(), serde_json::Value::from(t.id));
    m.insert("name".to_string(), serde_json::Value::from(t.name.clone()));
    m.insert("url".to_string(), serde_json::Value::from(t.url.clone()));
    m.insert(
        "click_url".to_string(),
        serde_json::Value::from(t.click_url.clone()),
    );
    m.insert(
        "image_url".to_string(),
        serde_json::Value::from(t.image_url.clone()),
    );
    m.insert(
        "image_size".to_string(),
        match t.image_size {
            Some(n) => serde_json::Value::from(n),
            None => serde_json::Value::Null,
        },
    );
    m.insert(
        "impression_url".to_string(),
        serde_json::Value::from(t.impression_url.clone()),
    );
    serde_json::Value::Object(m)
}

fn serde_body(tiles: &[Tile]) -> serde_json::Value {
    let mut m = serde_json::Map::new();
    m.insert(
        "tiles".to_string(),
        serde_json::Value::Array(tiles.iter().map(serde_tile).collect()),
    );
    serde_json::Value::Object(m)
}

#[test]
fn response_body_matches_serde_json() {
    let tiles = vec![tile(7, "Acme", None), tile(8, "Bolts", Some(96))];
    let parsed: serde_json::Value = serde_json::from_str(&response_json_string(&tiles)).unwrap();
    assert_eq!(parsed, serde_body(&tiles));
}

#[test]
fn response_body_escapes_like_serde_json() {
    // Values whose serialization needs every escape class; serde_json's
    // parser must recover them exactly from our bytes, and serde_json's
    // writer must produce our bytes for the single-string case.
    let names = [
        "quote \" and backslash \\",
        "control \u{01}\u{08}\t\n\u{0C}\r\u{1f} end",
        "unicode Ünïcødé 漢字 🎉",
    ];
    let tricky = vec![
        tile(1, names[0], None),
        tile(2, names[1], Some(1)),
        tile(3, names[2], None),
    ];
    let body = response_json_string(&tricky);
    let parsed: serde_json::Value = serde_json::from_str(&body).unwrap();
    assert_eq!(parsed, serde_body(&tricky));
    for name in names {
        let serde_string = serde_json::to_string(&serde_json::Value::from(name)).unwrap();
        assert!(
            body.contains(&serde_string),
            "tile name {:?} must be written exactly as serde_json writes it",
            name
        );
    }
}

#[test]
fn response_body_exact_form() {
    let tiles = vec![tile(7, "Acme", None)];
    let expected = "{\"tiles\":[{\"id\":7,\"name\":\"Acme\",\"url\":\"https://acme.example/\",\
                    \"click_url\":\"https://c.acme.example/?ci=1\",\"image_url\":\"https://img/a.png\",\
                    \"image_size\":null,\"impression_url\":\"https://i.acme.example/?id=9\"}]}";
    assert_eq!(response_json_string(&tiles), expected);
}

#[test]
fn empty_tile_list_finalizes_to_empty_content() {
    assert!(matches!(finalize_tiles(&Vec::new()), TilesContent::Empty));
    let one = vec![tile(7, "Acme", None)];
    match finalize_tiles(&one) {
        TilesContent::Json(s) => assert_eq!(s, response_json_string(&one)),
        TilesContent::Empty => panic!("one tile must serialize"),
    }
}

#[test]
fn decimal_rendering_is_exact() {
    assert_eq!(u64_dec(0), "0");
    assert_eq!(u64_dec(7), "7");
    assert_eq!(u64_dec(12_345_678_901), "12345678901");
    assert_eq!(u64_dec(u64::MAX), "18446744073709551615");
    assert_eq!(u32_dec(4_294_967_295), "4294967295");
    assert_eq!(u16_dec(635), "635");
}
