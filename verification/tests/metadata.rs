use mprizzle::MetaValue;
use mprizzle::MetadataError;
use mprizzle::MprisError;
use mprizzle::PlayerMetadata;

fn meta(entries: Vec<(&str, MetaValue)>) -> PlayerMetadata {
    PlayerMetadata::new(entries.into_iter().map(|(k, v)| (k.to_string(), v)).collect())
}

fn expect_type_error(e: MprisError, field: &str, expected: &str, got: &str) {
    match e {
        MprisError::MetadataErr(MetadataError::MetadataInvalidFieldType {
            field: f,
            expected: exp,
            got: g,
        }) => {
            assert_eq!(f, field);
            assert_eq!(exp, expected);
            assert_eq!(g, got);
        }
        other => panic!("expected a field type error, got {:?}", other),
    }
}

#[test]
fn absent_fields_read_as_none() {
    let m = meta(vec![]);
    assert_eq!(m.title().unwrap(), None);
    assert_eq!(m.album().unwrap(), None);
    assert_eq!(m.art_url().unwrap(), None);
    assert_eq!(m.length().unwrap(), None);
    assert!(m.track_id().unwrap().is_none());
    assert!(m.artists().unwrap().is_none());
}

#[test]
fn title_reads_a_string() {
    let m = meta(vec![("xesam:title", MetaValue::Str("Daydream".to_string()))]);
    assert_eq!(m.title().unwrap(), Some("Daydream".to_string()));
}

#[test]
fn title_of_wrong_type_is_an_error() {
    let m = meta(vec![("xesam:title", MetaValue::I64(3))]);
    expect_type_error(m.title().unwrap_err(), "xesam:title", "s", "x");
}

#[test]
fn album_reads_a_string() {
    let m = meta(vec![("xesam:album", MetaValue::Str("Blue".to_string()))]);
    assert_eq!(m.album().unwrap(), Some("Blue".to_string()));
}

#[test]
fn art_url_of_wrong_type_reports_its_signature() {
    let m = meta(vec![("mpris:artUrl", MetaValue::Other("d".to_string()))]);
    expect_type_error(m.art_url().unwrap_err(), "mpris:artUrl", "s", "d");
}

#[test]
fn track_id_reads_string_or_object_path() {
    let m = meta(vec![("mpris:trackid", MetaValue::Str("/track/1".to_string()))]);
    assert_eq!(m.track_id().unwrap().unwrap().as_ref(), "/track/1");
    let m = meta(vec![("mpris:trackid", MetaValue::ObjectPath("/track/2".to_string()))]);
    assert_eq!(m.track_id().unwrap().unwrap().as_ref(), "/track/2");
}

#[test]
fn track_id_of_wrong_type_is_an_error() {
    let m = meta(vec![("mpris:trackid", MetaValue::U64(9))]);
    expect_type_error(m.track_id().unwrap_err(), "mpris:trackid", "s or o", "t");
}

#[test]
fn artists_keep_string_elements_in_order() {
    let m = meta(vec![(
        "xesam:artist",
        MetaValue::Array(
            vec![
                MetaValue::Str("Ella".to_string()),
                MetaValue::I64(4),
                MetaValue::Str("Louis".to_string()),
            ],
            "as".to_string(),
        ),
    )]);
    assert_eq!(
        m.artists().unwrap(),
        Some(vec!["Ella".to_string(), "Louis".to_string()])
    );
}

#[test]
fn artists_of_wrong_type_reports_array_signature() {
    let m = meta(vec![("xesam:artist", MetaValue::Str("Ella".to_string()))]);
    expect_type_error(m.artists().unwrap_err(), "xesam:artist", "as", "s");
}

#[test]
fn length_reads_signed_and_unsigned_microseconds() {
    let m = meta(vec![("mpris:length", MetaValue::I64(215_000_000))]);
    assert_eq!(m.length().unwrap(), Some(215_000_000));
    let m = meta(vec![("mpris:length", MetaValue::U64(7))]);
    assert_eq!(m.length().unwrap(), Some(7));
}

#[test]
fn negative_length_wraps_like_a_cast() {
    let m = meta(vec![("mpris:length", MetaValue::I64(-1))]);
    assert_eq!(m.length().unwrap(), Some(u64::MAX));
}

#[test]
fn length_of_wrong_type_is_an_error() {
    let m = meta(vec![("mpris:length", MetaValue::Str("long".to_string()))]);
    expect_type_error(m.length().unwrap_err(), "mpris:length", "x or u64", "s");
}

#[test]
fn first_pair_wins_on_duplicate_keys() {
    let m = meta(vec![
        ("xesam:title", MetaValue::Str("First".to_string())),
        ("xesam:title", MetaValue::Str("Second".to_string())),
    ]);
    assert_eq!(m.title().unwrap(), Some("First".to_string()));
}
