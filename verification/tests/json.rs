use ornithology_pi::json::Json;

fn text(word: &str) -> Json {
    Json::Text(word.to_string())
}

#[test]
fn parse_reads_every_kind_of_value() {
    assert!(matches!(Json::parse(b"null"), Some(Json::Null)));
    assert!(matches!(Json::parse(b"true"), Some(Json::Bool(true))));
    assert!(matches!(Json::parse(b"false"), Some(Json::Bool(false))));
    assert!(matches!(Json::parse(b"17"), Some(Json::Number(Some(17)))));
    assert!(matches!(
        Json::parse(b"18446744073709551615"),
        Some(Json::Number(Some(u64::MAX)))
    ));
    match Json::parse(b"\"crow\"") {
        Some(Json::Text(word)) => assert_eq!(word, "crow"),
        _ => panic!("a text was expected"),
    }
}

#[test]
fn parse_keeps_no_value_of_other_numbers() {
    assert!(matches!(Json::parse(b"-1"), Some(Json::Number(None))));
    assert!(matches!(Json::parse(b"1.5"), Some(Json::Number(None))));
    assert!(matches!(Json::parse(b"1e3"), Some(Json::Number(None))));
    assert!(matches!(
        Json::parse(b"18446744073709551616"),
        Some(Json::Number(None))
    ));
}

#[test]
fn parse_reads_lists_and_objects_in_depth() {
    match Json::parse(b" [1, [\"a\"], {\"k\": null}] ") {
        Some(Json::List(items)) => {
            assert_eq!(items.len(), 3);
            assert!(matches!(items[0], Json::Number(Some(1))));
            match &items[1] {
                Json::List(inner) => {
                    assert_eq!(inner.len(), 1);
                    assert!(matches!(&inner[0], Json::Text(word) if word == "a"));
                }
                _ => panic!("a list was expected"),
            }
            match &items[2] {
                Json::Object(members) => {
                    assert_eq!(members.len(), 1);
                    assert_eq!(members[0].0, "k");
                    assert!(matches!(members[0].1, Json::Null));
                }
                _ => panic!("an object was expected"),
            }
        }
        _ => panic!("a list was expected"),
    }
}

#[test]
fn parse_refuses_what_is_no_json() {
    assert!(Json::parse(b"").is_none());
    assert!(Json::parse(b"hello").is_none());
    assert!(Json::parse(b"{\"a\":1").is_none());
    assert!(Json::parse(b"1 2").is_none());
    assert!(Json::parse(b"\"\xff\"").is_none());
    assert!(Json::parse(b"01").is_none());
}

#[test]
fn render_writes_compact_text() {
    assert_eq!(Json::Null.render(), b"null".to_vec());
    assert_eq!(Json::Bool(true).render(), b"true".to_vec());
    assert_eq!(Json::Number(Some(42)).render(), b"42".to_vec());
    assert_eq!(text("crow").render(), b"\"crow\"".to_vec());
    assert_eq!(
        Json::List(vec![Json::Number(Some(1)), Json::Null]).render(),
        b"[1,null]".to_vec()
    );
    assert_eq!(
        Json::single("k", Json::single("n", Json::Number(Some(0)))).render(),
        b"{\"k\":{\"n\":0}}".to_vec()
    );
}

#[test]
fn render_escapes_what_a_text_cannot_hold_bare() {
    assert_eq!(text("\n").render(), b"\"\\n\"".to_vec());
    assert_eq!(text("a\"b\\c").render(), b"\"a\\\"b\\\\c\"".to_vec());
    assert_eq!(text("\u{1}").render(), b"\"\\u0001\"".to_vec());
    assert_eq!(text("ü").render(), "\"ü\"".as_bytes().to_vec());
}

#[test]
fn render_writes_a_number_without_value_as_null() {
    assert_eq!(Json::Number(None).render(), b"null".to_vec());
}

#[test]
fn render_orders_members_by_name_and_keeps_the_last_of_a_name() {
    let doc = Json::pair("uuid", text("a"), "species", text("crow"));
    assert_eq!(doc.render(), b"{\"species\":\"crow\",\"uuid\":\"a\"}".to_vec());
    let twice = Json::pair("k", Json::Number(Some(1)), "k", Json::Number(Some(2)));
    assert_eq!(twice.render(), b"{\"k\":2}".to_vec());
}

#[test]
fn render_then_parse_gives_the_document_back() {
    let doc = Json::pair(
        "list",
        Json::List(vec![Json::Bool(false), text("x\ny"), Json::Number(Some(9))]),
        "nested",
        Json::single("deep", Json::Null),
    );
    let bytes = doc.render();
    let back = Json::parse(&bytes).expect("what was written is read");
    assert_eq!(back.render(), bytes);
    match back.member("list") {
        Some(Json::List(items)) => {
            assert!(matches!(items[0], Json::Bool(false)));
            assert!(matches!(&items[1], Json::Text(word) if word == "x\ny"));
            assert!(matches!(items[2], Json::Number(Some(9))));
        }
        _ => panic!("a list was expected"),
    }
    assert!(matches!(
        back.member("nested").and_then(|n| n.member("deep")),
        Some(Json::Null)
    ));
}

#[test]
fn member_finds_the_first_of_a_name() {
    let doc = Json::pair("k", Json::Number(Some(1)), "k", Json::Number(Some(2)));
    assert!(matches!(doc.member("k"), Some(Json::Number(Some(1)))));
    assert!(doc.member("other").is_none());
    assert!(doc.member("").is_none());
}

#[test]
fn member_of_what_is_no_object_is_none() {
    assert!(text("k").member("k").is_none());
    assert!(Json::List(vec![text("k")]).member("k").is_none());
    assert!(Json::Null.member("k").is_none());
}

#[test]
fn builders_make_what_they_say() {
    assert!(matches!(Json::text("Ping"), Json::Text(word) if word == "Ping"));
    match Json::single("a", Json::Null) {
        Json::Object(members) => {
            assert_eq!(members.len(), 1);
            assert_eq!(members[0].0, "a");
        }
        _ => panic!("an object was expected"),
    }
    match Json::pair("a", Json::Null, "b", Json::Bool(true)) {
        Json::Object(members) => {
            assert_eq!(members.len(), 2);
            assert_eq!(members[0].0, "a");
            assert_eq!(members[1].0, "b");
            assert!(matches!(members[1].1, Json::Bool(true)));
        }
        _ => panic!("an object was expected"),
    }
}
