use fiducia_backend::json;
use fiducia_backend::percent::encode_query_value;
use fiducia_backend::text;
use fiducia_backend::times::{Timestamp, FIRST_SECOND, LAST_SECOND};

#[test]
fn character_classes_are_those_of_unicode() {
    for c in '\0'..=char::MAX {
        assert_eq!(text::white_space(c), c.is_whitespace(), "{:?}", c);
        assert_eq!(text::control_char(c), c.is_control(), "{:?}", c);
        assert_eq!(text::to_lower_char(c), c.to_ascii_lowercase(), "{:?}", c);
    }
}

#[test]
fn text_functions_agree_with_std() {
    let samples = [
        "", " ", "a", " a ", "\t\u{a0}x y\u{3000}\n", "a=b=c", "=", "a,b,,c,", "Été ÀB", "0123", "x:1",
        "//a//", "deadbeef", "DEADBEEF", "\u{85}\u{7f}", "a\0b",
    ];
    for s in samples {
        assert_eq!(text::trim(s), s.trim());
        assert_eq!(text::byte_len(s), s.len());
        assert_eq!(text::to_ascii_lowercase(s), s.to_ascii_lowercase());
        assert_eq!(text::only_digits(s), s.chars().all(|c| c.is_ascii_digit()));
        assert_eq!(
            text::only_lower_hex(s),
            s.chars().all(|c| c.is_ascii_digit() || ('a'..='f').contains(&c))
        );
        assert_eq!(text::contains_white_space(s), s.contains(char::is_whitespace));
        assert_eq!(text::contains_control(s), s.contains(char::is_control));
        let compact: String = s.chars().filter(|c| !c.is_whitespace()).collect();
        assert_eq!(text::remove_white_space(s), compact);
        for c in ['=', ',', '/', ' ', 'a'] {
            assert_eq!(text::split_once(s, c), s.split_once(c));
            assert_eq!(text::split(s, c), s.split(c).collect::<Vec<_>>());
            assert_eq!(text::trim_start_matches(s, c), s.trim_start_matches(c));
            assert_eq!(text::trim_end_matches(s, c), s.trim_end_matches(c));
            assert_eq!(text::contains_char(s, c), s.contains(c));
        }
        for p in ["", "a", " ", "//", "dead"] {
            assert_eq!(text::starts_with(s, p), s.starts_with(p));
            assert_eq!(text::strip_prefix(s, p), s.strip_prefix(p));
            assert_eq!(text::eq_ignore_ascii_case(s, p), s.eq_ignore_ascii_case(p));
            assert_eq!(text::same(s, p), s == p);
            assert_eq!(text::cat(s, p), format!("{s}{p}"));
        }
    }
    let parts = vec!["a".to_owned(), "b".to_owned(), "".to_owned()];
    assert_eq!(text::join(&parts, ", "), parts.join(", "));
    assert!(text::one_of(&vec!["x", "y"], "y"));
    assert!(!text::one_of(&vec!["x", "y"], "z"));
}

#[test]
fn query_values_are_encoded_byte_by_byte() {
    assert_eq!(encode_query_value("AZaz09-_.~"), "AZaz09-_.~");
    assert_eq!(encode_query_value("a b&c=d/e?f"), "a%20b%26c%3Dd%2Fe%3Ff");
    assert_eq!(encode_query_value("é\u{10348}"), "%C3%A9%F0%90%8D%88");
    assert_eq!(encode_query_value("%"), "%25");
    assert_eq!(encode_query_value(""), "");
}

#[test]
fn json_objects_hold_their_members() {
    let value = json::JsonObject::new()
        .with("a", json::string_array(&vec!["x".to_owned(), "y".to_owned()]))
        .with("b", json::text_array(&vec!["z"]))
        .with("c", json::optional_string(&None))
        .with("d", json::optional_string(&Some("t".to_owned())))
        .with("a2", json::string_array(&vec![]))
        .finish();
    let expected: serde_json::Value =
        serde_json::from_str(r#"{"a":["x","y"],"b":["z"],"c":null,"d":"t","a2":[]}"#).unwrap();
    assert_eq!(value, expected);
    assert_eq!(json::text_member(&value, "d"), Some("t"));
    assert_eq!(json::text_member(&value, "c"), None);
    assert_eq!(json::text_member(&value, "e"), None);
    let twice = json::JsonObject::new()
        .with("k", json::optional_string(&None))
        .with("k", json::optional_string(&Some("last".to_owned())))
        .finish();
    assert_eq!(twice.as_object().unwrap().len(), 1);
    assert_eq!(twice["k"], "last");
}

#[test]
fn points_in_time_are_ordered_and_written() {
    let t = Timestamp::new(1_431_648_000, 0, 0).unwrap();
    assert_eq!(t.to_rfc3339(), "2015-05-15T00:00:00+00:00");
    let later = Timestamp::new(1_431_648_000, 1_500_000, 0).unwrap();
    assert_eq!(later.to_rfc3339(), "2015-05-15T00:00:00.001500+00:00");
    assert!(t.at_or_before(&later));
    assert!(t.at_or_before(&t));
    assert!(!later.at_or_before(&t));
    let before = Timestamp::new(-1, 999_999_999, 0).unwrap();
    assert!(before.at_or_before(&t));
    assert_eq!((before.secs(), before.nanos()), (-1, 999_999_999));
    assert!(Timestamp::new(0, 1_000_000_000, 0).is_none());
    assert!(Timestamp::new(LAST_SECOND + 1, 0, 0).is_none());
    assert!(Timestamp::new(FIRST_SECOND - 1, 0, 0).is_none());
    let first = Timestamp::new(FIRST_SECOND, 0, 0).unwrap();
    assert_eq!(first.to_rfc3339(), "-262143-01-01T00:00:00+00:00");
    let last = Timestamp::new(LAST_SECOND, 999_999_999, 0).unwrap();
    assert_eq!(last.to_rfc3339(), "+262142-12-31T23:59:59.999999999+00:00");
    // An offset changes how a point is written, not when it is.
    let east = Timestamp::new(1_431_648_000, 0, 7_200).unwrap();
    assert_eq!(east.to_rfc3339(), "2015-05-15T02:00:00+02:00");
    assert_eq!(east, t);
    assert!(east.at_or_before(&t) && t.at_or_before(&east));
    assert_eq!(east.to_utc().to_rfc3339(), t.to_rfc3339());
    assert_eq!((east.offset(), east.to_utc().offset()), (7_200, 0));
    assert!(Timestamp::new(0, 0, 86_400).is_none());
    assert!(Timestamp::new(0, 0, -86_400).is_none());
    let edge = Timestamp::new(LAST_SECOND, 0, 86_399).unwrap();
    assert_eq!(edge.to_rfc3339(), "+262143-01-01T23:59:58+24:00");
    let edge = Timestamp::new(FIRST_SECOND, 0, -86_399).unwrap();
    assert_eq!(edge.to_rfc3339(), "-262144-12-31T00:00:01-24:00");
    // A leap second belongs to the last second of a minute, and comes before the next one.
    let leap = Timestamp::new(1_435_708_799, 1_500_000_000, 0).unwrap();
    assert_eq!(leap.to_rfc3339(), "2015-06-30T23:59:60.500+00:00");
    let next = Timestamp::new(1_435_708_800, 0, 0).unwrap();
    assert!(leap.at_or_before(&next) && !next.at_or_before(&leap));
    assert!(leap != next);
    assert!(Timestamp::new(1_435_708_799, 2_000_000_000, 0).is_none());
    assert!(Timestamp::new(-1, 1_000_000_000, 0).is_some());
    assert!(Timestamp::new(-2, 1_000_000_000, 0).is_none());
}

#[test]
fn the_forms_of_an_id_are_those_of_the_parser() {
    // Ids reach the library through the subject of a session and through forms; their law
    // is that the text of an id denotes it.
    let n: u128 = 0x936da01f_9abd_4d9d_80c7_02af85c822a8;
    let text = uuid::Uuid::from_u128(n).to_string();
    assert_eq!(text, "936da01f-9abd-4d9d-80c7-02af85c822a8");
    for form in [
        "936da01f9abd4d9d80c702af85c822a8",
        "936DA01F-9abd-4d9d-80c7-02af85c822a8",
        "{936da01f-9abd-4d9d-80c7-02af85c822a8}",
        "URN:uuid:936da01f-9abd-4d9d-80c7-02af85c822a8",
        " 936da01f-9abd-4d9d-80c7-02af85c822a8\n",
    ] {
        assert_eq!(
            fiducia_backend::account::notification_id(form).ok(),
            Some(n),
            "{form}"
        );
    }
    for bad in [
        "",
        "936da01f9abd4d9d80c702af85c822a",
        "936da01f9abd4d9d80c702af85c822ag",
        "936da01f-9abd-4d9d-80c7_02af85c822a8",
        "(936da01f-9abd-4d9d-80c7-02af85c822a8)",
        "urn:uuie:936da01f-9abd-4d9d-80c7-02af85c822a8",
        "{936da01f9abd4d9d80c702af85c822a8}",
        "+36da01f-9abd-4d9d-80c7-02af85c822a8",
    ] {
        assert!(fiducia_backend::account::notification_id(bad).is_err(), "{bad}");
    }
}
