use ornithology_pi::json::Json;
use ornithology_pi::message::terminator;
use ornithology_pi::{Message, Sighting};

fn sighting(uuid: &str, species: &str) -> Sighting {
    Sighting { uuid: uuid.to_string(), species: species.to_string() }
}

fn every_message() -> Vec<Message> {
    vec![
        Message::Ping,
        Message::Pong,
        Message::CountRequest,
        Message::CountResponse { count: 0 },
        Message::CountResponse { count: u64::MAX },
        Message::LastRequest,
        Message::LastResponse { last: None },
        Message::LastResponse { last: Some(sighting("0af3", "Eurasian blue tit")) },
        Message::LastResponse { last: Some(sighting("", "")) },
        Message::ImageRequest { uuid: "0af3".to_string() },
        Message::ImageRequest { uuid: "quote \" slash \\ line \n tab \t ü €".to_string() },
        Message::ImageResponse { base64: String::new() },
        Message::ImageResponse { base64: "aGVsbG8gd29ybGQ=".to_string() },
    ]
}

#[test]
fn encode_writes_a_bare_name_for_a_message_without_payload() {
    assert_eq!(Message::Ping.encode(), b"\"Ping\"".to_vec());
    assert_eq!(Message::Pong.encode(), b"\"Pong\"".to_vec());
    assert_eq!(Message::CountRequest.encode(), b"\"CountRequest\"".to_vec());
    assert_eq!(Message::LastRequest.encode(), b"\"LastRequest\"".to_vec());
}

#[test]
fn encode_writes_an_object_for_a_message_with_payload() {
    assert_eq!(
        Message::CountResponse { count: 3 }.encode(),
        b"{\"CountResponse\":{\"count\":3}}".to_vec()
    );
    assert_eq!(
        Message::LastResponse { last: Some(sighting("a", "crow")) }.encode(),
        b"{\"LastResponse\":{\"last\":{\"species\":\"crow\",\"uuid\":\"a\"}}}".to_vec()
    );
    assert_eq!(
        Message::LastResponse { last: None }.encode(),
        b"{\"LastResponse\":{\"last\":null}}".to_vec()
    );
    assert_eq!(
        Message::ImageRequest { uuid: "a".to_string() }.encode(),
        b"{\"ImageRequest\":{\"uuid\":\"a\"}}".to_vec()
    );
    assert_eq!(
        Message::ImageResponse { base64: "QQ==".to_string() }.encode(),
        b"{\"ImageResponse\":{\"base64\":\"QQ==\"}}".to_vec()
    );
}

#[test]
fn decode_reads_each_kind_of_message() {
    assert_eq!(Message::decode(b"\"Ping\""), Some(Message::Ping));
    assert_eq!(Message::decode(b"\"Pong\""), Some(Message::Pong));
    assert_eq!(Message::decode(b"\"CountRequest\""), Some(Message::CountRequest));
    assert_eq!(Message::decode(b"\"LastRequest\""), Some(Message::LastRequest));
    assert_eq!(
        Message::decode(b"{\"CountResponse\":{\"count\":12}}"),
        Some(Message::CountResponse { count: 12 })
    );
    assert_eq!(
        Message::decode(b"{\"LastResponse\":{\"last\":{\"uuid\":\"a\",\"species\":\"crow\"}}}"),
        Some(Message::LastResponse { last: Some(sighting("a", "crow")) })
    );
    assert_eq!(
        Message::decode(b"{\"LastResponse\":{\"last\":null}}"),
        Some(Message::LastResponse { last: None })
    );
    assert_eq!(
        Message::decode(b"{\"ImageRequest\":{\"uuid\":\"a\"}}"),
        Some(Message::ImageRequest { uuid: "a".to_string() })
    );
    assert_eq!(
        Message::decode(b"{\"ImageResponse\":{\"base64\":\"\"}}"),
        Some(Message::ImageResponse { base64: String::new() })
    );
}

#[test]
fn decode_inverts_encode_for_every_message() {
    for message in every_message() {
        let frame = message.encode();
        assert_eq!(Message::decode(&frame), Some(message));
    }
}

#[test]
fn from_json_inverts_to_json_for_every_message() {
    for message in every_message() {
        let doc = message.to_json();
        assert_eq!(Message::from_json(&doc), Some(message));
    }
}

#[test]
fn document_of_every_message_is_read_back_as_it_was_written() {
    for message in every_message() {
        let doc = message.to_json();
        assert_eq!(Json::parse(&doc.render()), Some(doc));
    }
}

#[test]
fn decode_passes_over_blanks_and_members_it_does_not_know() {
    assert_eq!(Message::decode(b"  \"Ping\"\n"), Some(Message::Ping));
    assert_eq!(
        Message::decode(b"{ \"CountResponse\" : { \"extra\" : [1], \"count\" : 5 } }"),
        Some(Message::CountResponse { count: 5 })
    );
    assert_eq!(
        Message::decode(
            b"{\"LastResponse\":{\"last\":{\"timestamp\":7,\"uuid\":\"a\",\"species\":\"crow\"}}}"
        ),
        Some(Message::LastResponse { last: Some(sighting("a", "crow")) })
    );
}

#[test]
fn decode_refuses_what_is_no_json() {
    assert_eq!(Message::decode(b""), None);
    assert_eq!(Message::decode(b"hello"), None);
    assert_eq!(Message::decode(b"\"Ping"), None);
    assert_eq!(Message::decode(&[0xff, 0xfe]), None);
}

#[test]
fn decode_refuses_documents_that_are_no_message() {
    assert_eq!(Message::decode(b"\"ping\""), None);
    assert_eq!(Message::decode(b"\"CountResponse\""), None);
    assert_eq!(Message::decode(b"null"), None);
    assert_eq!(Message::decode(b"5"), None);
    assert_eq!(Message::decode(b"[\"Ping\"]"), None);
    assert_eq!(Message::decode(b"{}"), None);
    assert_eq!(Message::decode(b"{\"Ping\":null}"), None);
    assert_eq!(Message::decode(b"{\"Unknown\":{\"count\":1}}"), None);
    assert_eq!(
        Message::decode(b"{\"CountResponse\":{\"count\":1},\"ImageRequest\":{\"uuid\":\"a\"}}"),
        None
    );
}

#[test]
fn decode_refuses_payloads_of_the_wrong_shape() {
    assert_eq!(Message::decode(b"{\"CountResponse\":{}}"), None);
    assert_eq!(Message::decode(b"{\"CountResponse\":{\"count\":\"3\"}}"), None);
    assert_eq!(Message::decode(b"{\"CountResponse\":{\"count\":-3}}"), None);
    assert_eq!(Message::decode(b"{\"CountResponse\":{\"count\":3.0}}"), None);
    assert_eq!(Message::decode(b"{\"CountResponse\":3}"), None);
    assert_eq!(Message::decode(b"{\"LastResponse\":{}}"), None);
    assert_eq!(Message::decode(b"{\"LastResponse\":{\"last\":{\"uuid\":\"a\"}}}"), None);
    assert_eq!(
        Message::decode(b"{\"LastResponse\":{\"last\":{\"uuid\":1,\"species\":\"crow\"}}}"),
        None
    );
    assert_eq!(Message::decode(b"{\"ImageRequest\":{\"uuid\":null}}"), None);
    assert_eq!(Message::decode(b"{\"ImageRequest\":{\"id\":\"a\"}}"), None);
    assert_eq!(Message::decode(b"{\"ImageResponse\":{\"base64\":7}}"), None);
}

#[test]
fn sighting_document_holds_both_fields() {
    let doc = sighting("a", "crow").to_json();
    assert_eq!(doc.render(), b"{\"species\":\"crow\",\"uuid\":\"a\"}".to_vec());
    assert_eq!(Sighting::from_json(&doc), Some(sighting("a", "crow")));
    assert_eq!(Sighting::from_json(&Json::Null), None);
    assert_eq!(Sighting::from_json(&Json::single("uuid", Json::text("a"))), None);
}

#[test]
fn sighting_default_is_blank_and_clone_is_equal() {
    assert_eq!(Sighting::default(), sighting("", ""));
    let one = sighting("a", "crow");
    assert_eq!(one.clone(), one);
}

#[test]
fn terminator_is_the_document_of_a_line_feed() {
    assert_eq!(terminator(), b"\"\\n\"".to_vec());
    assert_eq!(terminator(), vec![0x22, 0x5c, 0x6e, 0x22]);
    assert_eq!(Message::decode(&terminator()), None);
}
