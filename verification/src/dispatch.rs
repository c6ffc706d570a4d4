//! What the service does with one received frame.
//!
//! A frame that holds a request is answered from the log of sightings. Any
//! other frame, one that holds no message or holds a response, is sent back
//! as it came, provided that it is text.

use crate::message::{Message, MessageView, Sighting, SightingView};
use crate::store::{
    latest, latest_matching, lemma_latest_matching, lemma_store_countable, SightingsStore,
};
use crate::text::is_text;
use vstd::prelude::*;
use vstd::utf8::valid_utf8;

verus! {

/// What is done for one frame.
#[derive(Debug, PartialEq, Eq)]
pub enum Response {
    /// Nothing is written: the frame was a `Pong`.
    Silent,
    /// Nothing is written: the frame held no request and is no text.
    NotText,
    /// One frame is written, which holds this message.
    Frame(Message),
    /// Two frames are written: this message, then the terminator.
    Record(Message),
    /// The frame is written back, byte for byte.
    Echo(Vec<u8>),
    /// The photo of this sighting is read, and its thumbnail is written as a
    /// record.
    Picture(Sighting),
}

/// The value of a `Response`.
pub ghost enum ResponseView {
    Silent,
    NotText,
    Frame(MessageView),
    Record(MessageView),
    Echo(Seq<u8>),
    Picture(SightingView),
}

impl View for Response {
    type V = ResponseView;

    open spec fn view(&self) -> ResponseView {
        match self {
            Response::Silent => ResponseView::Silent,
            Response::NotText => ResponseView::NotText,
            Response::Frame(message) => ResponseView::Frame(message@),
            Response::Record(message) => ResponseView::Record(message@),
            Response::Echo(frame) => ResponseView::Echo(frame@),
            Response::Picture(sighting) => ResponseView::Picture(sighting@),
        }
    }
}

/// The value of a message that is borrowed and may be absent.
pub open spec fn request_view(request: Option<&Message>) -> Option<MessageView> {
    match request {
        Some(message) => Some(message@),
        None => None,
    }
}

/// Whether answering `request` takes anything from the log.
pub open spec fn reads_log(request: Option<MessageView>) -> bool {
    match request {
        Some(MessageView::CountRequest) => true,
        Some(MessageView::LastRequest) => true,
        Some(MessageView::ImageRequest { .. }) => true,
        _ => false,
    }
}

/// The sighting whose photo answers a request for the picture of `uuid`: the
/// latest entry with that identifier, and the blank sighting where the log
/// has none.
pub open spec fn pictured(log: Seq<SightingView>, uuid: Seq<char>) -> SightingView {
    match latest_matching(log, uuid) {
        Some(sighting) => sighting,
        None => SightingView::blank(),
    }
}

/// What is done for a frame, where `request` is the message that the frame
/// holds and `log` the sightings at that time.
pub open spec fn response(
    request: Option<MessageView>,
    frame: Seq<u8>,
    log: Seq<SightingView>,
) -> ResponseView {
    match request {
        Some(MessageView::Ping) => ResponseView::Frame(MessageView::Pong),
        Some(MessageView::Pong) => ResponseView::Silent,
        Some(MessageView::CountRequest) => ResponseView::Frame(
            MessageView::CountResponse { count: log.len() as u64 },
        ),
        Some(MessageView::LastRequest) => ResponseView::Record(
            MessageView::LastResponse { last: latest(log) },
        ),
        Some(MessageView::ImageRequest { uuid }) => ResponseView::Picture(pictured(log, uuid)),
        _ => if valid_utf8(frame) {
            ResponseView::Echo(frame)
        } else {
            ResponseView::NotText
        },
    }
}

/// Whether answering `request` takes anything from the log.
pub fn needs_log(request: Option<&Message>) -> (needed: bool)
    ensures
        needed == reads_log(request_view(request)),
{
    match request {
        Some(Message::CountRequest) => true,
        Some(Message::LastRequest) => true,
        Some(Message::ImageRequest { .. }) => true,
        _ => false,
    }
}

/// Decides what is done for `frame`, which holds `request`, where the
/// request takes nothing from the log.
pub(crate) fn respond_alone(request: Option<&Message>, frame: Vec<u8>) -> (decision: Response)
    requires
        !reads_log(request_view(request)),
    ensures
        forall|log: Seq<SightingView>| #[trigger]
            response(request_view(request), frame@, log) == decision@,
{
    match request {
        Some(Message::Ping) => Response::Frame(Message::Pong),
        Some(Message::Pong) => Response::Silent,
        _ => {
            if is_text(frame.as_slice()) {
                Response::Echo(frame)
            } else {
                Response::NotText
            }
        },
    }
}

/// Decides what is done for `frame`, which holds `request`, with the log as
/// it is now.
pub fn respond(request: Option<&Message>, frame: Vec<u8>, store: &SightingsStore) -> (decision:
    Response)
    ensures
        decision@ == response(request_view(request), frame@, store@),
{
    match request {
        Some(Message::CountRequest) => {
            let count: u64 = store.length() as u64;
            Response::Frame(Message::CountResponse { count })
        },
        Some(Message::LastRequest) => Response::Record(
            Message::LastResponse { last: store.last_entry() },
        ),
        Some(Message::ImageRequest { uuid }) => {
            let sighting = match store.last_entry_matching(uuid.as_str()) {
                Some(found) => found,
                None => Sighting::default(),
            };
            Response::Picture(sighting)
        },
        _ => respond_alone(request, frame),
    }
}

/// A count request is answered with one frame, which holds the number of
/// entries of the log.
pub proof fn lemma_count_is_log_length(store: SightingsStore, frame: Seq<u8>)
    ensures
        response(Some(MessageView::CountRequest), frame, store@) matches ResponseView::Frame(
            MessageView::CountResponse { count },
        ) && count == store@.len(),
{
    lemma_store_countable(store);
}

/// A count taken after an append is one more than the count before it.
pub proof fn lemma_count_follows_append(
    before: SightingsStore,
    after: SightingsStore,
    added: SightingView,
    frame: Seq<u8>,
)
    requires
        after@ == before@.push(added),
    ensures
        response(Some(MessageView::CountRequest), frame, after@) == ResponseView::Frame(
            MessageView::CountResponse { count: (before@.len() + 1) as u64 },
        ),
        before@.len() + 1 <= u64::MAX,
{
    lemma_store_countable(after);
}

/// On a log with entries, a request for the last one is answered with the
/// entry at the highest index.
pub proof fn lemma_last_is_highest_index(log: Seq<SightingView>, frame: Seq<u8>)
    requires
        log.len() > 0,
    ensures
        response(Some(MessageView::LastRequest), frame, log) == ResponseView::Record(
            MessageView::LastResponse { last: Some(log[log.len() - 1]) },
        ),
{
}

/// On an empty log, a request for the last entry is answered with a record
/// that says that there is none.
pub proof fn lemma_last_of_empty_log(frame: Seq<u8>)
    ensures
        response(Some(MessageView::LastRequest), frame, Seq::empty()) == ResponseView::Record(
            MessageView::LastResponse { last: None },
        ),
{
}

/// A picture request is answered with the photo of the entry at the highest
/// index that holds the identifier, and with that of the blank sighting only
/// where no entry holds it.
pub proof fn lemma_picture_is_latest_match(log: Seq<SightingView>, uuid: Seq<char>, frame: Seq<u8>)
    ensures
        response(Some(MessageView::ImageRequest { uuid }), frame, log) == ResponseView::Picture(
            pictured(log, uuid),
        ),
        (exists|i: int|
            0 <= i < log.len() && #[trigger] log[i] == pictured(log, uuid) && log[i].uuid == uuid
                && forall|j: int| i < j < log.len() ==> (#[trigger] log[j]).uuid != uuid) || (
        pictured(log, uuid) == SightingView::blank() && forall|j: int|
            0 <= j < log.len() ==> (#[trigger] log[j]).uuid != uuid),
{
    lemma_latest_matching(log, uuid);
}

/// A frame that holds no message and is text is sent back unchanged.
pub proof fn lemma_text_is_echoed(frame: Seq<u8>, log: Seq<SightingView>)
    requires
        valid_utf8(frame),
    ensures
        response(None, frame, log) == ResponseView::Echo(frame),
{
}

} // verus!
