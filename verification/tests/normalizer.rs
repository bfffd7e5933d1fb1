use media_bridge::metadata::{normalize, MetaValue, Metadata, ShapeViolation};

fn entry(key: &str, value: MetaValue) -> (String, MetaValue) {
    (key.to_string(), value)
}

#[test]
fn missing_title_normalizes_to_empty_title() {
    let raw = vec![
        entry("mpris:trackid", MetaValue::Str("/track/7".to_string())),
        entry("mpris:length", MetaValue::I64(1000)),
    ];
    let m = normalize(&raw).ok().unwrap();
    assert_eq!(m.title, "");
}

#[test]
fn empty_mapping_normalizes_to_zero_values() {
    let raw: Vec<(String, MetaValue)> = vec![];
    let m = normalize(&raw).ok().unwrap();
    assert_eq!(m.track_id, "");
    assert_eq!(m.title, "");
    assert_eq!(m.art_url, "");
    assert_eq!(m.url, "");
    assert_eq!(m.length, 0);
    assert!(m.artist.is_empty());
}

#[test]
fn length_is_identical_for_both_integer_representations() {
    let unsigned = vec![entry("mpris:length", MetaValue::U64(5_000_000))];
    let signed = vec![entry("mpris:length", MetaValue::I64(5_000_000))];
    let mu = normalize(&unsigned).ok().unwrap();
    let ms = normalize(&signed).ok().unwrap();
    assert_eq!(mu.length, 5_000_000);
    assert_eq!(mu.length, ms.length);
}

#[test]
fn full_mapping_normalizes_field_by_field() {
    let raw = vec![
        entry("mpris:trackid", MetaValue::ObjectPath("/org/player/track/1".to_string())),
        entry("xesam:title", MetaValue::Str("Some Song".to_string())),
        entry("mpris:artUrl", MetaValue::Str("file:///tmp/cover.png".to_string())),
        entry("xesam:url", MetaValue::Str("file:///tmp/song.ogg".to_string())),
        entry("mpris:length", MetaValue::U64(240_000_000)),
        entry(
            "xesam:artist",
            MetaValue::StrArray(vec!["First".to_string(), "Second".to_string()]),
        ),
        entry("ignored:key", MetaValue::U64(9)),
    ];
    let m = normalize(&raw).ok().unwrap();
    assert_eq!(m.track_id, "/org/player/track/1");
    assert_eq!(m.title, "Some Song");
    assert_eq!(m.art_url, "file:///tmp/cover.png");
    assert_eq!(m.url, "file:///tmp/song.ogg");
    assert_eq!(m.length, 240_000_000);
    assert_eq!(m.artist, vec!["First".to_string(), "Second".to_string()]);
}

#[test]
fn first_entry_wins_for_a_repeated_key() {
    let raw = vec![
        entry("xesam:title", MetaValue::Str("first".to_string())),
        entry("xesam:title", MetaValue::Str("second".to_string())),
    ];
    let m = normalize(&raw).ok().unwrap();
    assert_eq!(m.title, "first");
}

#[test]
fn track_id_of_wrong_shape_is_a_violation() {
    let raw = vec![entry("mpris:trackid", MetaValue::U64(3))];
    assert!(matches!(normalize(&raw), Err(ShapeViolation::TrackIdShape)));
}

#[test]
fn title_of_wrong_shape_is_a_violation() {
    let raw = vec![entry("xesam:title", MetaValue::I64(1))];
    assert!(matches!(normalize(&raw), Err(ShapeViolation::TitleShape)));
}

#[test]
fn art_url_of_wrong_shape_is_a_violation() {
    let raw = vec![entry("mpris:artUrl", MetaValue::Other)];
    assert!(matches!(normalize(&raw), Err(ShapeViolation::ArtUrlShape)));
}

#[test]
fn url_of_wrong_shape_is_a_violation() {
    let raw = vec![entry("xesam:url", MetaValue::U64(1))];
    assert!(matches!(normalize(&raw), Err(ShapeViolation::UrlShape)));
}

#[test]
fn length_of_wrong_shape_is_a_violation() {
    let raw = vec![entry("mpris:length", MetaValue::Str("240".to_string()))];
    assert!(matches!(normalize(&raw), Err(ShapeViolation::LengthShape)));
}

#[test]
fn unsigned_length_beyond_signed_range_is_a_violation() {
    let raw = vec![entry("mpris:length", MetaValue::U64(u64::MAX))];
    assert!(matches!(normalize(&raw), Err(ShapeViolation::LengthRange)));
}

#[test]
fn unsigned_length_at_signed_maximum_is_accepted() {
    let raw = vec![entry("mpris:length", MetaValue::U64(i64::MAX as u64))];
    let m = normalize(&raw).ok().unwrap();
    assert_eq!(m.length, i64::MAX);
}

#[test]
fn artist_of_wrong_shape_is_a_violation() {
    let raw = vec![entry("xesam:artist", MetaValue::Str("solo".to_string()))];
    assert!(matches!(normalize(&raw), Err(ShapeViolation::ArtistShape)));
}

#[test]
fn violations_are_reported_in_key_inspection_order() {
    let raw = vec![
        entry("xesam:artist", MetaValue::Other),
        entry("xesam:title", MetaValue::Other),
    ];
    assert!(matches!(normalize(&raw), Err(ShapeViolation::TitleShape)));
}

#[test]
fn metadata_equality_is_structural() {
    let raw = vec![
        entry("xesam:title", MetaValue::Str("t".to_string())),
        entry("xesam:artist", MetaValue::StrArray(vec!["a".to_string()])),
    ];
    let m1 = normalize(&raw).ok().unwrap();
    let m2 = normalize(&raw).ok().unwrap();
    assert!(m1 == m2);
    let other = vec![entry("xesam:title", MetaValue::Str("t2".to_string()))];
    let m3 = normalize(&other).ok().unwrap();
    assert!(m1 != m3);
}

#[test]
fn default_metadata_is_all_zero_values() {
    let m = Metadata::default();
    assert_eq!(m.track_id, "");
    assert_eq!(m.title, "");
    assert_eq!(m.length, 0);
    assert!(m.artist.is_empty());
}
