use media_bridge::error::ApiError;
use media_bridge::json::metadata_json;
use media_bridge::metadata::{normalize, MetaValue};
use media_bridge::routes::{
    classify_image_url, filter_player_names, validate_set_position, ImageSource,
};
use media_bridge::text::{format_i64, format_u32, format_u64, has_prefix, parse_i64, parse_u32, str_eq};

#[test]
fn decimal_formatting_is_exact() {
    assert_eq!(format_u64(0), "0");
    assert_eq!(format_u64(7), "7");
    assert_eq!(format_u64(1234567890), "1234567890");
    assert_eq!(format_u64(u64::MAX), "18446744073709551615");
    assert_eq!(format_u32(60), "60");
    assert_eq!(format_i64(0), "0");
    assert_eq!(format_i64(-1), "-1");
    assert_eq!(format_i64(i64::MAX), "9223372036854775807");
    assert_eq!(format_i64(i64::MIN), "-9223372036854775808");
}

#[test]
fn signed_parsing_matches_the_standard_parser() {
    for s in [
        "0", "42", "-42", "+42", "007", "9223372036854775807", "9223372036854775808",
        "-9223372036854775808", "-9223372036854775809", "", "-", "+", "4 2", "4x", "x4", " 42",
        "42 ", "--4", "18446744073709551616",
    ] {
        assert_eq!(parse_i64(s), s.parse::<i64>().ok(), "on {s:?}");
    }
}

#[test]
fn unsigned_parsing_matches_the_standard_parser() {
    for s in ["0", "60", "+60", "4294967295", "4294967296", "-1", "", "6%", "6.0"] {
        assert_eq!(parse_u32(s), s.parse::<u32>().ok(), "on {s:?}");
    }
}

#[test]
fn string_equality_and_prefix_are_character_exact() {
    assert!(str_eq("abc", "abc"));
    assert!(!str_eq("abc", "abd"));
    assert!(!str_eq("abc", "ab"));
    assert!(str_eq("", ""));
    assert!(has_prefix("org.mpris.MediaPlayer2.vlc", "org.mpris.MediaPlayer2"));
    assert!(has_prefix("abc", ""));
    assert!(!has_prefix("ab", "abc"));
    assert!(!has_prefix("xorg.mpris", "org.mpris"));
}

#[test]
fn metadata_renders_as_one_json_object() {
    let raw = vec![
        ("mpris:trackid".to_string(), MetaValue::Str("/t/1".to_string())),
        ("xesam:title".to_string(), MetaValue::Str("a\"b\\c".to_string())),
        ("xesam:url".to_string(), MetaValue::Str("file:///x".to_string())),
        ("mpris:length".to_string(), MetaValue::I64(-5)),
        (
            "xesam:artist".to_string(),
            MetaValue::StrArray(vec!["A".to_string(), "B".to_string()]),
        ),
    ];
    let m = normalize(&raw).ok().unwrap();
    assert_eq!(
        metadata_json(&m),
        "{\"track_id\":\"/t/1\",\"title\":\"a\\\"b\\\\c\",\"art_url\":\"\",\"url\":\"file:///x\",\"length\":-5,\"artist\":[\"A\",\"B\"]}"
    );
}

#[test]
fn json_escapes_control_characters() {
    let raw = vec![(
        "xesam:title".to_string(),
        MetaValue::Str("line\nbreak\ttab \u{1f} unit".to_string()),
    )];
    let m = normalize(&raw).ok().unwrap();
    let rendered = metadata_json(&m);
    assert!(rendered.contains("line\\nbreak\\ttab \\u001f unit"));
}

#[test]
fn json_of_empty_artist_list_is_an_empty_array() {
    let raw: Vec<(String, MetaValue)> = vec![];
    let m = normalize(&raw).ok().unwrap();
    assert_eq!(
        metadata_json(&m),
        "{\"track_id\":\"\",\"title\":\"\",\"art_url\":\"\",\"url\":\"\",\"length\":0,\"artist\":[]}"
    );
}

#[test]
fn player_names_are_filtered_by_prefix_in_order() {
    let names = vec![
        "org.mpris.MediaPlayer2.vlc".to_string(),
        "org.freedesktop.DBus".to_string(),
        "org.mpris.MediaPlayer2.spotify".to_string(),
        "com.example.Other".to_string(),
    ];
    let players = filter_player_names(names);
    assert_eq!(
        players,
        vec![
            "org.mpris.MediaPlayer2.vlc".to_string(),
            "org.mpris.MediaPlayer2.spotify".to_string(),
        ]
    );
}

#[test]
fn local_image_references_are_split_from_remote_ones() {
    match classify_image_url("file:///tmp/cover.png") {
        ImageSource::Local(p) => assert_eq!(p, "/tmp/cover.png"),
        ImageSource::Remote(_) => panic!("a file reference is local"),
    }
    match classify_image_url("https://example.test/cover.png") {
        ImageSource::Remote(u) => assert_eq!(u, "https://example.test/cover.png"),
        ImageSource::Local(_) => panic!("a web reference is remote"),
    }
}

#[test]
fn set_position_accepts_a_path_shaped_track_id() {
    let r = validate_set_position(Some("/org/mpris/MediaPlayer2/Track/1"), Some("120"));
    let Ok(req) = r else {
        panic!("a valid request must pass");
    };
    assert_eq!(req.track_id, "/org/mpris/MediaPlayer2/Track/1");
    assert_eq!(req.position, 120);
}

#[test]
fn set_position_accepts_the_root_path() {
    assert!(validate_set_position(Some("/"), Some("0")).is_ok());
}

#[test]
fn set_position_rejects_missing_parameters() {
    assert!(matches!(
        validate_set_position(None, Some("1")),
        Err(ApiError::MissingTrackId)
    ));
    assert!(matches!(
        validate_set_position(Some("/a"), None),
        Err(ApiError::MissingTrackId)
    ));
}

#[test]
fn set_position_rejects_a_non_numeric_position() {
    assert!(matches!(
        validate_set_position(Some("/a"), Some("soon")),
        Err(ApiError::InvalidPosition)
    ));
}

#[test]
fn set_position_rejects_malformed_track_ids() {
    for bad in ["", ".", "a/b", "/a//b", "/end/with/slash/", "/ha.d", "/sp ace"] {
        assert!(
            matches!(
                validate_set_position(Some(bad), Some("1")),
                Err(ApiError::InvalidTrackId)
            ),
            "{bad:?} must be rejected"
        );
    }
}

#[test]
fn api_errors_carry_their_status_and_message() {
    assert_eq!(ApiError::MissingOffset.status_code(), 400);
    assert_eq!(ApiError::MissingOffset.message(), "missing offset");
    assert_eq!(ApiError::InvalidOffset.status_code(), 400);
    assert_eq!(ApiError::MissingTrackId.status_code(), 400);
    assert_eq!(ApiError::MissingTrackId.message(), "missing track id");
    assert_eq!(ApiError::InvalidPosition.status_code(), 400);
    assert_eq!(ApiError::InvalidTrackId.status_code(), 400);
    assert_eq!(ApiError::Seek("remote gone".to_string()).status_code(), 500);
    assert_eq!(ApiError::Seek("remote gone".to_string()).message(), "remote gone");
    assert_eq!(
        ApiError::GetIdentity("timeout".to_string()).message(),
        "failed to get identity: timeout"
    );
    assert_eq!(
        ApiError::ReadImage("no such file".to_string()).message(),
        "failed to read image: no such file"
    );
    assert_eq!(
        ApiError::LoadImage("dns".to_string()).message(),
        "failed to load image: dns"
    );
    assert_eq!(ApiError::Volume("exec".to_string()).status_code(), 500);
}
