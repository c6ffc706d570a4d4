//! The messages of the protocol and their wire form.
//!
//! One frame holds one message, written as a JSON document. A message
//! without payload is the text of its name, as in `"Ping"`. A message with
//! payload is an object with one member, called after the message, whose
//! value is an object of the payload's fields, as in
//! `{"CountResponse":{"count":3}}`.

use crate::json::{first_named, json_parsed, json_rendered, lemma_members_of, Json, JsonValue};
use crate::text::text_is;
use vstd::prelude::*;

verus! {

/// One detected bird. Its photo is stored under a name made of both fields.
#[derive(Debug, PartialEq, Eq)]
pub struct Sighting {
    pub uuid: String,
    pub species: String,
}

/// The value of a `Sighting`.
pub ghost struct SightingView {
    pub uuid: Seq<char>,
    pub species: Seq<char>,
}

impl View for Sighting {
    type V = SightingView;

    open spec fn view(&self) -> SightingView {
        SightingView { uuid: self.uuid@, species: self.species@ }
    }
}

impl Clone for Sighting {
    fn clone(&self) -> (copy: Sighting)
        ensures
            copy@ == self@,
    {
        Sighting { uuid: self.uuid.clone(), species: self.species.clone() }
    }
}

impl Default for Sighting {
    /// The sighting that stands in where none is known: both fields empty.
    fn default() -> (blank: Sighting)
        ensures
            blank@ == SightingView::blank(),
    {
        Sighting { uuid: String::new(), species: String::new() }
    }
}

impl SightingView {
    /// The sighting with both fields empty.
    pub open spec fn blank() -> SightingView {
        SightingView { uuid: Seq::empty(), species: Seq::empty() }
    }

    /// The document of a sighting: an object of its two fields.
    pub open spec fn document(self) -> JsonValue {
        JsonValue::Object(
            seq![("species"@, JsonValue::Text(self.species)), ("uuid"@, JsonValue::Text(self.uuid))],
        )
    }

    /// The sighting that a document stands for: an object whose members
    /// `uuid` and `species` are texts. Other members are passed over.
    pub open spec fn of_document(doc: JsonValue) -> Option<SightingView> {
        match (doc.member("uuid"@), doc.member("species"@)) {
            (Some(JsonValue::Text(uuid)), Some(JsonValue::Text(species))) => Some(
                SightingView { uuid, species },
            ),
            _ => None,
        }
    }
}

/// The value of a sighting that may be absent.
pub open spec fn sighting_view(sighting: Option<Sighting>) -> Option<SightingView> {
    match sighting {
        Some(s) => Some(s@),
        None => None,
    }
}

impl Sighting {
    /// The sighting's document.
    pub fn to_json(&self) -> (doc: Json)
        ensures
            doc@ == self@.document(),
    {
        Json::pair(
            "species",
            Json::Text(self.species.clone()),
            "uuid",
            Json::Text(self.uuid.clone()),
        )
    }

    /// Reads a sighting from its document.
    pub fn from_json(doc: &Json) -> (sighting: Option<Sighting>)
        ensures
            sighting_view(sighting) == SightingView::of_document(doc@),
    {
        match (doc.member("uuid"), doc.member("species")) {
            (Some(Json::Text(uuid)), Some(Json::Text(species))) => Some(
                Sighting { uuid: uuid.clone(), species: species.clone() },
            ),
            _ => None,
        }
    }
}

/// A request or a response.
#[derive(Debug, PartialEq, Eq)]
pub enum Message {
    Ping,
    Pong,
    CountRequest,
    CountResponse { count: u64 },
    LastRequest,
    /// The latest sighting; `None` where the log is empty.
    LastResponse { last: Option<Sighting> },
    ImageRequest { uuid: String },
    ImageResponse { base64: String },
}

/// The value of a `Message`.
pub ghost enum MessageView {
    Ping,
    Pong,
    CountRequest,
    CountResponse { count: u64 },
    LastRequest,
    LastResponse { last: Option<SightingView> },
    ImageRequest { uuid: Seq<char> },
    ImageResponse { base64: Seq<char> },
}

impl View for Message {
    type V = MessageView;

    open spec fn view(&self) -> MessageView {
        match self {
            Message::Ping => MessageView::Ping,
            Message::Pong => MessageView::Pong,
            Message::CountRequest => MessageView::CountRequest,
            Message::CountResponse { count } => MessageView::CountResponse { count: *count },
            Message::LastRequest => MessageView::LastRequest,
            Message::LastResponse { last } => MessageView::LastResponse {
                last: sighting_view(*last),
            },
            Message::ImageRequest { uuid } => MessageView::ImageRequest { uuid: uuid@ },
            Message::ImageResponse { base64 } => MessageView::ImageResponse { base64: base64@ },
        }
    }
}

/// The value of a message that may be absent.
pub open spec fn message_view(message: Option<Message>) -> Option<MessageView> {
    match message {
        Some(m) => Some(m@),
        None => None,
    }
}

impl MessageView {
    /// The document of a message.
    pub open spec fn document(self) -> JsonValue {
        match self {
            MessageView::Ping => JsonValue::Text("Ping"@),
            MessageView::Pong => JsonValue::Text("Pong"@),
            MessageView::CountRequest => JsonValue::Text("CountRequest"@),
            MessageView::LastRequest => JsonValue::Text("LastRequest"@),
            MessageView::CountResponse { count } => JsonValue::Object(
                seq![
                    (
                        "CountResponse"@,
                        JsonValue::Object(seq![("count"@, JsonValue::Number(Some(count)))]),
                    ),
                ],
            ),
            MessageView::LastResponse { last } => JsonValue::Object(
                seq![
                    (
                        "LastResponse"@,
                        JsonValue::Object(
                            seq![
                                (
                                    "last"@,
                                    match last {
                                        Some(sighting) => sighting.document(),
                                        None => JsonValue::Null,
                                    },
                                ),
                            ],
                        ),
                    ),
                ],
            ),
            MessageView::ImageRequest { uuid } => JsonValue::Object(
                seq![("ImageRequest"@, JsonValue::Object(seq![("uuid"@, JsonValue::Text(uuid))]))],
            ),
            MessageView::ImageResponse { base64 } => JsonValue::Object(
                seq![
                    ("ImageResponse"@, JsonValue::Object(seq![("base64"@, JsonValue::Text(base64))])),
                ],
            ),
        }
    }

    /// The message without payload that is called `word`.
    pub open spec fn of_word(word: Seq<char>) -> Option<MessageView> {
        if word == "Ping"@ {
            Some(MessageView::Ping)
        } else if word == "Pong"@ {
            Some(MessageView::Pong)
        } else if word == "CountRequest"@ {
            Some(MessageView::CountRequest)
        } else if word == "LastRequest"@ {
            Some(MessageView::LastRequest)
        } else {
            None
        }
    }

    /// The message called `name` whose payload is read from `body`. A field
    /// must be there with the right kind of value; members of `body` that the
    /// message does not have are passed over.
    pub open spec fn of_member(name: Seq<char>, body: JsonValue) -> Option<MessageView> {
        if name == "CountResponse"@ {
            match body.member("count"@) {
                Some(JsonValue::Number(Some(count))) => Some(MessageView::CountResponse { count }),
                _ => None,
            }
        } else if name == "LastResponse"@ {
            match body.member("last"@) {
                Some(JsonValue::Null) => Some(MessageView::LastResponse { last: None }),
                Some(entry) => match SightingView::of_document(entry) {
                    Some(sighting) => Some(MessageView::LastResponse { last: Some(sighting) }),
                    None => None,
                },
                None => None,
            }
        } else if name == "ImageRequest"@ {
            match body.member("uuid"@) {
                Some(JsonValue::Text(uuid)) => Some(MessageView::ImageRequest { uuid }),
                _ => None,
            }
        } else if name == "ImageResponse"@ {
            match body.member("base64"@) {
                Some(JsonValue::Text(base64)) => Some(MessageView::ImageResponse { base64 }),
                _ => None,
            }
        } else {
            None
        }
    }

    /// The message that a document stands for, `None` where it stands for
    /// none: a text names a message without payload, an object with exactly
    /// one member holds a message with payload.
    pub open spec fn of_document(doc: JsonValue) -> Option<MessageView> {
        match doc {
            JsonValue::Text(word) => Self::of_word(word),
            JsonValue::Object(members) => if members.len() == 1 {
                Self::of_member(members[0].0, members[0].1)
            } else {
                None
            },
            _ => None,
        }
    }
}

/// The frame of a message: the JSON text of its document.
pub open spec fn encoded(message: MessageView) -> Seq<u8> {
    json_rendered(message.document())
}

/// The message in a frame, `None` where the frame holds none.
pub open spec fn decoded(frame: Seq<u8>) -> Option<MessageView> {
    match json_parsed(frame) {
        Some(doc) => MessageView::of_document(doc),
        None => None,
    }
}

/// The frame that ends a record: the JSON text of the one-character text
/// that is a line feed.
pub open spec fn terminator_frame() -> Seq<u8> {
    json_rendered(JsonValue::Text("\n"@))
}

/// Reading a sighting's document gives the sighting back.
pub proof fn lemma_sighting_round_trip(sighting: SightingView)
    ensures
        SightingView::of_document(sighting.document()) == Some(sighting),
{
    reveal_strlit("uuid");
    reveal_strlit("species");
    let members = sighting.document()->Object_0;
    assert(members.drop_first() =~= seq![("uuid"@, JsonValue::Text(sighting.uuid))]);
    assert(first_named(members, "species"@) == Some(JsonValue::Text(sighting.species)));
    assert(first_named(members.drop_first(), "uuid"@) == Some(JsonValue::Text(sighting.uuid)));
    assert("species"@ != "uuid"@) by {
        assert("species"@.len() == 7);
        assert("uuid"@.len() == 4);
    }
}

/// Reading a message's document gives the message back, whatever the
/// message.
pub proof fn lemma_document_round_trip(message: MessageView)
    ensures
        MessageView::of_document(message.document()) == Some(message),
{
    reveal_strlit("Ping");
    reveal_strlit("Pong");
    reveal_strlit("CountRequest");
    reveal_strlit("LastRequest");
    reveal_strlit("CountResponse");
    reveal_strlit("LastResponse");
    reveal_strlit("ImageRequest");
    reveal_strlit("ImageResponse");
    assert("Ping"@[1] != "Pong"@[1]);
    assert("Ping"@.len() == 4 && "Pong"@.len() == 4);
    assert("CountRequest"@.len() == 12 && "LastRequest"@.len() == 11);
    assert("CountResponse"@.len() == 13 && "LastResponse"@.len() == 12);
    assert("ImageRequest"@.len() == 12 && "ImageResponse"@.len() == 13);
    assert("CountResponse"@[0] != "ImageResponse"@[0]);
    assert("LastResponse"@[0] != "ImageRequest"@[0]);
    match message {
        MessageView::CountResponse { count } => {
            let body = JsonValue::Object(seq![("count"@, JsonValue::Number(Some(count)))]);
            assert(message.document()->Object_0[0] == ("CountResponse"@, body));
            assert(body.member("count"@) == Some(JsonValue::Number(Some(count))));
        },
        MessageView::LastResponse { last } => {
            let entry = match last {
                Some(sighting) => sighting.document(),
                None => JsonValue::Null,
            };
            let body = JsonValue::Object(seq![("last"@, entry)]);
            assert(message.document()->Object_0[0] == ("LastResponse"@, body));
            assert(body.member("last"@) == Some(entry));
            if let Some(sighting) = last {
                lemma_sighting_round_trip(sighting);
            }
        },
        MessageView::ImageRequest { uuid } => {
            let body = JsonValue::Object(seq![("uuid"@, JsonValue::Text(uuid))]);
            assert(message.document()->Object_0[0] == ("ImageRequest"@, body));
            assert(body.member("uuid"@) == Some(JsonValue::Text(uuid)));
        },
        MessageView::ImageResponse { base64 } => {
            let body = JsonValue::Object(seq![("base64"@, JsonValue::Text(base64))]);
            assert(message.document()->Object_0[0] == ("ImageResponse"@, body));
            assert(body.member("base64"@) == Some(JsonValue::Text(base64)));
        },
        _ => {},
    }
}

/// A message's frame holds that message, wherever the JSON text of the
/// message's document reads back as that document.
pub proof fn lemma_frame_round_trip(message: MessageView)
    ensures
        json_parsed(encoded(message)) == Some(message.document()) ==> decoded(encoded(message))
            == Some(message),
{
    lemma_document_round_trip(message);
}

impl Message {
    /// The message's document.
    pub fn to_json(&self) -> (doc: Json)
        ensures
            doc@ == self@.document(),
    {
        match self {
            Message::Ping => Json::text("Ping"),
            Message::Pong => Json::text("Pong"),
            Message::CountRequest => Json::text("CountRequest"),
            Message::LastRequest => Json::text("LastRequest"),
            Message::CountResponse { count } => Json::single(
                "CountResponse",
                Json::single("count", Json::Number(Some(*count))),
            ),
            Message::LastResponse { last } => {
                let entry = match last {
                    Some(sighting) => sighting.to_json(),
                    None => Json::Null,
                };
                Json::single("LastResponse", Json::single("last", entry))
            },
            Message::ImageRequest { uuid } => Json::single(
                "ImageRequest",
                Json::single("uuid", Json::Text(uuid.clone())),
            ),
            Message::ImageResponse { base64 } => Json::single(
                "ImageResponse",
                Json::single("base64", Json::Text(base64.clone())),
            ),
        }
    }

    /// Reads the message without payload that is called `word`.
    fn from_word(word: &String) -> (message: Option<Message>)
        ensures
            message_view(message) == MessageView::of_word(word@),
    {
        if text_is(word, "Ping") {
            Some(Message::Ping)
        } else if text_is(word, "Pong") {
            Some(Message::Pong)
        } else if text_is(word, "CountRequest") {
            Some(Message::CountRequest)
        } else if text_is(word, "LastRequest") {
            Some(Message::LastRequest)
        } else {
            None
        }
    }

    /// Reads the message called `name` with its payload in `body`.
    fn from_member(name: &String, body: &Json) -> (message: Option<Message>)
        ensures
            message_view(message) == MessageView::of_member(name@, body@),
    {
        if text_is(name, "CountResponse") {
            match body.member("count") {
                Some(Json::Number(Some(count))) => Some(Message::CountResponse { count: *count }),
                _ => None,
            }
        } else if text_is(name, "LastResponse") {
            match body.member("last") {
                Some(Json::Null) => Some(Message::LastResponse { last: None }),
                Some(entry) => match Sighting::from_json(entry) {
                    Some(sighting) => Some(Message::LastResponse { last: Some(sighting) }),
                    None => None,
                },
                None => None,
            }
        } else if text_is(name, "ImageRequest") {
            match body.member("uuid") {
                Some(Json::Text(uuid)) => Some(Message::ImageRequest { uuid: uuid.clone() }),
                _ => None,
            }
        } else if text_is(name, "ImageResponse") {
            match body.member("base64") {
                Some(Json::Text(base64)) => Some(Message::ImageResponse { base64: base64.clone() }),
                _ => None,
            }
        } else {
            None
        }
    }

    /// Reads a message from its document; `None` where the document stands
    /// for no message.
    pub fn from_json(doc: &Json) -> (message: Option<Message>)
        ensures
            message_view(message) == MessageView::of_document(doc@),
    {
        match doc {
            Json::Text(word) => Message::from_word(word),
            Json::Object(members) => {
                if members.len() == 1 {
                    proof {
                        lemma_members_of(*members, 1);
                    }
                    Message::from_member(&members[0].0, &members[0].1)
                } else {
                    proof {
                        lemma_members_of(*members, members.len() as nat);
                    }
                    None
                }
            },
            _ => None,
        }
    }

    /// Writes the message as one frame.
    pub fn encode(&self) -> (frame: Vec<u8>)
        ensures
            frame@ == encoded(self@),
    {
        self.to_json().render()
    }

    /// Reads the message in a frame; `None` where the bytes are no JSON text
    /// or the document stands for no message.
    pub fn decode(frame: &[u8]) -> (message: Option<Message>)
        ensures
            message_view(message) == decoded(frame@),
    {
        match Json::parse(frame) {
            Some(doc) => Message::from_json(&doc),
            None => None,
        }
    }
}

/// Writes the frame that ends a record.
pub fn terminator() -> (frame: Vec<u8>)
    ensures
        frame@ == terminator_frame(),
{
    Json::text("\n").render()
}

} // verus!
