use check_my_setup::config::{LinkKind, SetupError};
use check_my_setup::json::parse_config;

#[test]
fn single_file_entry_parses() {
    let text = r#"[{"name":"a","type":"File","source_location":"/tmp/src.txt","target_location":"/tmp/dst.txt"}]"#;
    let entries = parse_config(text).unwrap();
    assert_eq!(entries.len(), 1);
    assert_eq!(entries[0].name, "a");
    assert_eq!(entries[0].kind, LinkKind::File);
    assert_eq!(entries[0].source_location.as_deref(), Some("/tmp/src.txt"));
    assert_eq!(entries[0].target_location.as_deref(), Some("/tmp/dst.txt"));
}

#[test]
fn directory_entry_parses() {
    let text = r#"[{"name":"cfg","type":"Directory","source_location":"/etc/app","target_location":"/home/me/.app"}]"#;
    let entries = parse_config(text).unwrap();
    assert_eq!(entries.len(), 1);
    assert_eq!(entries[0].kind, LinkKind::Directory);
}

#[test]
fn entries_keep_document_order() {
    let text = r#"[
        {"name":"first","type":"File","source_location":"/a","target_location":"/b"},
        {"name":"second","type":"Directory","source_location":"/c","target_location":"/d"}
    ]"#;
    let entries = parse_config(text).unwrap();
    assert_eq!(entries.len(), 2);
    assert_eq!(entries[0].name, "first");
    assert_eq!(entries[1].name, "second");
}

#[test]
fn empty_array_parses() {
    let entries = parse_config("  [ ]  ").unwrap();
    assert_eq!(entries.len(), 0);
}

#[test]
fn fields_in_any_order() {
    let text = r#"[{"target_location":"/b","type":"File","source_location":"/a","name":"x"}]"#;
    let entries = parse_config(text).unwrap();
    assert_eq!(entries[0].name, "x");
    assert_eq!(entries[0].source_location.as_deref(), Some("/a"));
}

#[test]
fn locations_are_optional() {
    let text = r#"[{"name":"bare","type":"File"}]"#;
    let entries = parse_config(text).unwrap();
    assert_eq!(entries[0].source_location, None);
    assert_eq!(entries[0].target_location, None);
}

#[test]
fn null_location_counts_as_absent() {
    let text = r#"[{"name":"n","type":"File","source_location":null,"target_location":"/t"}]"#;
    let entries = parse_config(text).unwrap();
    assert_eq!(entries[0].source_location, None);
    assert_eq!(entries[0].target_location.as_deref(), Some("/t"));
}

#[test]
fn bogus_kind_tag_is_parse_error() {
    let text = r#"[{"name":"a","type":"Bogus","source_location":"/a","target_location":"/b"}]"#;
    assert_eq!(parse_config(text), Err(SetupError::ParseError));
}

#[test]
fn missing_name_is_parse_error() {
    let text = r#"[{"type":"File","source_location":"/a","target_location":"/b"}]"#;
    assert_eq!(parse_config(text), Err(SetupError::ParseError));
}

#[test]
fn missing_kind_is_parse_error() {
    let text = r#"[{"name":"a","source_location":"/a","target_location":"/b"}]"#;
    assert_eq!(parse_config(text), Err(SetupError::ParseError));
}

#[test]
fn unknown_field_is_parse_error() {
    let text = r#"[{"name":"a","type":"File","extra":"x"}]"#;
    assert_eq!(parse_config(text), Err(SetupError::ParseError));
}

#[test]
fn repeated_field_is_parse_error() {
    let text = r#"[{"name":"a","name":"b","type":"File"}]"#;
    assert_eq!(parse_config(text), Err(SetupError::ParseError));
}

#[test]
fn null_name_is_parse_error() {
    let text = r#"[{"name":null,"type":"File"}]"#;
    assert_eq!(parse_config(text), Err(SetupError::ParseError));
}

#[test]
fn malformed_json_is_parse_error() {
    assert_eq!(parse_config("not json at all"), Err(SetupError::ParseError));
    assert_eq!(parse_config(""), Err(SetupError::ParseError));
    assert_eq!(parse_config("["), Err(SetupError::ParseError));
    assert_eq!(parse_config(r#"[{"name":}]"#), Err(SetupError::ParseError));
    assert_eq!(parse_config(r#"{"name":"a"}"#), Err(SetupError::ParseError));
}

#[test]
fn trailing_text_is_parse_error() {
    let text = r#"[{"name":"a","type":"File"}] trailing"#;
    assert_eq!(parse_config(text), Err(SetupError::ParseError));
}

#[test]
fn trailing_comma_is_parse_error() {
    assert_eq!(
        parse_config(r#"[{"name":"a","type":"File"},]"#),
        Err(SetupError::ParseError)
    );
    assert_eq!(
        parse_config(r#"[{"name":"a","type":"File",}]"#),
        Err(SetupError::ParseError)
    );
}

#[test]
fn string_escapes_are_decoded() {
    let text = r#"[{"name":"a\"b\\c\/d\ne","type":"File"}]"#;
    let entries = parse_config(text).unwrap();
    assert_eq!(entries[0].name, "a\"b\\c/d\ne");
}

#[test]
fn unicode_escapes_are_decoded() {
    let text = r#"[{"name":"\u0041\u00e9\u4E2D","type":"File"}]"#;
    let entries = parse_config(text).unwrap();
    assert_eq!(entries[0].name, "A\u{e9}\u{4e2d}");
}

#[test]
fn surrogate_escape_is_rejected() {
    let text = r#"[{"name":"\ud800","type":"File"}]"#;
    assert_eq!(parse_config(text), Err(SetupError::ParseError));
}

#[test]
fn malformed_unicode_escape_is_parse_error() {
    assert_eq!(
        parse_config(r#"[{"name":"\u00","type":"File"}]"#),
        Err(SetupError::ParseError)
    );
    assert_eq!(
        parse_config(r#"[{"name":"\uzz99","type":"File"}]"#),
        Err(SetupError::ParseError)
    );
}

#[test]
fn unterminated_string_is_parse_error() {
    assert_eq!(parse_config(r#"[{"name":"a"#), Err(SetupError::ParseError));
}

#[test]
fn kind_tags_round_trip() {
    assert_eq!(LinkKind::File.to_string(), "File");
    assert_eq!(LinkKind::Directory.to_string(), "Directory");
}
