use emoji_mashup::document::{parse_document, record_from, records_in};
use emoji_mashup::json::{decode_json, JsonValue};
use emoji_mashup::record::CombinationRecord;

fn text(s: &str) -> JsonValue {
    JsonValue::Text(s.to_string())
}

fn object(members: Vec<(&str, JsonValue)>) -> JsonValue {
    JsonValue::Object(members.into_iter().map(|(k, v)| (k.to_string(), v)).collect())
}

fn combination(left: &str, right: &str, url: &str) -> JsonValue {
    object(vec![("gStaticUrl", text(url)), ("leftEmoji", text(left)), ("rightEmoji", text(right))])
}

#[test]
fn decode_json_copies_every_kind_of_value() {
    let got = decode_json(r#"{"a": [null, true, false, 1.5, "x", {"b": []}], "c": {}}"#).unwrap();
    let want = object(vec![
        (
            "a",
            JsonValue::Array(vec![
                JsonValue::Null,
                JsonValue::Bool(true),
                JsonValue::Bool(false),
                JsonValue::Number,
                text("x"),
                object(vec![("b", JsonValue::Array(vec![]))]),
            ]),
        ),
        ("c", object(vec![])),
    ]);
    assert_eq!(got, want);
}

#[test]
fn decode_json_reads_escapes_and_emoji() {
    assert_eq!(decode_json(r#""a\né😀""#).unwrap(), text("a\né😀"));
    assert_eq!(decode_json("  7 ").unwrap(), JsonValue::Number);
}

#[test]
fn decode_json_rejects_what_is_not_json() {
    assert!(decode_json("").is_err());
    assert!(decode_json("{").is_err());
    assert!(decode_json("{\"a\": 1,}").is_err());
    assert!(decode_json("[1] 2").is_err());
    let message = decode_json("nul").unwrap_err();
    assert!(!message.is_empty());
}

#[test]
fn member_finds_by_name() {
    let value = object(vec![("emoji", text("😀")), ("n", JsonValue::Number)]);
    assert_eq!(value.member("emoji"), Some(&text("😀")));
    assert_eq!(value.member("n"), Some(&JsonValue::Number));
    assert_eq!(value.member("emojis"), None);
    assert_eq!(value.member(""), None);
    assert_eq!(text("emoji").member("emoji"), None);
    assert_eq!(JsonValue::Array(vec![text("emoji")]).member("emoji"), None);
}

#[test]
fn accessors_tell_the_kinds_apart() {
    assert_eq!(text("x").as_text(), Some("x"));
    assert_eq!(JsonValue::Null.as_text(), None);
    assert_eq!(JsonValue::Array(vec![JsonValue::Null]).as_array(), Some(&vec![JsonValue::Null]));
    assert_eq!(text("x").as_array(), None);
    assert_eq!(object(vec![]).as_object(), Some(&vec![]));
    assert_eq!(JsonValue::Array(vec![]).as_object(), None);
}

#[test]
fn text_or_empty_reads_missing_and_odd_members_as_empty() {
    let value = object(vec![("leftEmoji", text("😀")), ("rightEmoji", JsonValue::Number)]);
    assert_eq!(value.text_or_empty("leftEmoji"), "😀");
    assert_eq!(value.text_or_empty("rightEmoji"), "");
    assert_eq!(value.text_or_empty("gStaticUrl"), "");
    assert_eq!(JsonValue::Null.text_or_empty("leftEmoji"), "");
}

#[test]
fn record_from_reads_the_three_texts() {
    let got = record_from("😀", &combination("😀", "😂", "http://x/1.png"));
    assert_eq!(got, CombinationRecord::new("😀", "😀", "😂", "http://x/1.png"));
    assert_eq!(got.base_emoji, "😀");
    assert_eq!(got.left_emoji, "😀");
    assert_eq!(got.right_emoji, "😂");
    assert_eq!(got.image_url, "http://x/1.png");
}

#[test]
fn record_from_a_bare_value_is_empty() {
    assert_eq!(record_from("b", &JsonValue::Null), CombinationRecord::new("b", "", "", ""));
}

#[test]
fn records_in_flattens_groups_and_entries_in_order() {
    let document = object(vec![(
        "data",
        object(vec![
            (
                "1f600",
                object(vec![
                    ("emoji", text("😀")),
                    (
                        "combinations",
                        object(vec![
                            (
                                "1f602",
                                JsonValue::Array(vec![
                                    combination("😀", "😂", "u1"),
                                    combination("😂", "😀", "u2"),
                                ]),
                            ),
                            ("1f642", JsonValue::Array(vec![combination("😀", "🙂", "u3")])),
                        ]),
                    ),
                ]),
            ),
            (
                "1f602",
                object(vec![
                    ("emoji", text("😂")),
                    (
                        "combinations",
                        object(vec![("1f602", JsonValue::Array(vec![combination("😂", "😂", "u4")]))]),
                    ),
                ]),
            ),
        ]),
    )]);
    assert_eq!(
        records_in(&document),
        vec![
            CombinationRecord::new("😀", "😀", "😂", "u1"),
            CombinationRecord::new("😀", "😂", "😀", "u2"),
            CombinationRecord::new("😀", "😀", "🙂", "u3"),
            CombinationRecord::new("😂", "😂", "😂", "u4"),
        ]
    );
}

#[test]
fn records_in_passes_over_what_has_not_the_form() {
    assert_eq!(records_in(&JsonValue::Null), vec![]);
    assert_eq!(records_in(&object(vec![])), vec![]);
    assert_eq!(records_in(&object(vec![("data", JsonValue::Array(vec![]))])), vec![]);
    let document = object(vec![(
        "data",
        object(vec![
            ("no_emoji", object(vec![("combinations", object(vec![("g", JsonValue::Array(vec![combination("a", "b", "u")]))]))])),
            ("odd_emoji", object(vec![("emoji", JsonValue::Number), ("combinations", object(vec![("g", JsonValue::Array(vec![combination("a", "b", "u")]))]))])),
            ("no_groups", object(vec![("emoji", text("x"))])),
            ("odd_groups", object(vec![("emoji", text("x")), ("combinations", JsonValue::Array(vec![]))])),
            ("not_an_object", text("x")),
            (
                "kept",
                object(vec![
                    ("emoji", text("k")),
                    (
                        "combinations",
                        object(vec![
                            ("odd_group", text("x")),
                            ("g", JsonValue::Array(vec![JsonValue::Null, combination("a", "b", "u")])),
                        ]),
                    ),
                ]),
            ),
        ]),
    )]);
    assert_eq!(
        records_in(&document),
        vec![CombinationRecord::new("k", "", "", ""), CombinationRecord::new("k", "a", "b", "u")]
    );
}

#[test]
fn parse_document_reads_the_published_form() {
    let source = r#"{
        "knownSupportedEmoji": ["1f600", "1f602"],
        "data": {
            "1f600": {
                "alt": "grinning",
                "emoji": "😀",
                "combinations": {
                    "1f602": [
                        {"gStaticUrl": "http://x/1.png", "leftEmoji": "😀", "rightEmoji": "😂", "isLatest": true},
                        {"gStaticUrl": "http://x/0.png", "leftEmoji": "😀"}
                    ]
                }
            }
        }
    }"#;
    assert_eq!(
        parse_document(source).unwrap(),
        vec![
            CombinationRecord::new("😀", "😀", "😂", "http://x/1.png"),
            CombinationRecord::new("😀", "😀", "", "http://x/0.png"),
        ]
    );
}

#[test]
fn parse_document_fails_only_on_what_is_not_json() {
    assert!(parse_document("not json").is_err());
    assert_eq!(parse_document("[]").unwrap(), vec![]);
    assert_eq!(parse_document("{\"data\": {}}").unwrap(), vec![]);
}
