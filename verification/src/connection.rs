//! The life of one connection.
//!
//! A connection is accepted, greeted with the number of sightings as plain
//! decimal text, and then served one frame at a time: a frame is read, what
//! it asks for is decided, and the answer is written, until the peer closes
//! the stream, a read fails, the peer stays silent for too long or the
//! service shuts down.
//!
//! `Connection` decides; the caller acts. Each call returns the next thing to
//! do, and the caller reports how it went with the next call: `step` takes
//! what happened on the stream or with a file, `consult` is given the log of
//! sightings, for as long as the call lasts. A caller that shares the log
//! behind a lock holds the lock for that one call and for nothing else.

use crate::dispatch::{
    needs_log, pictured, reads_log, respond, respond_alone, response, Response, ResponseView,
};
use crate::message::{
    decoded, encoded, terminator, terminator_frame, Message, MessageView, SightingView,
};
use crate::store::{lemma_store_countable, SightingsStore};
use crate::text::{decimal, decimal_bytes};
use crate::thumbnail::{
    photo_path, photo_path_of, photo_view, picture_response, picture_text, thumbnail,
    thumbnail_of, Photo, PhotoView,
};
use vstd::prelude::*;
use vstd::utf8::valid_utf8;

verus! {

/// The most that one read takes from the stream, in bytes. A frame is no
/// longer than this.
pub const MTU: u16 = 8192;

/// How long a read waits for the peer before the connection counts as idle,
/// in seconds.
pub const IDLE_TIMEOUT_SECS: u64 = 300;

/// What happened since the last call.
#[derive(Debug, PartialEq, Eq)]
pub enum Event {
    /// A read returned these bytes. No bytes: the peer closed the stream.
    Frame(Vec<u8>),
    /// A read failed.
    ReadFailed,
    /// A read waited `IDLE_TIMEOUT_SECS` and nothing came.
    IdleTimeout,
    /// The write was done.
    Written,
    /// The write failed.
    WriteFailed,
    /// The photo's file was read and held this picture; `None` where it
    /// could not be read, or held none.
    Photo(Option<Photo>),
    /// The service shuts down.
    Shutdown,
}

/// The value of an `Event`.
pub ghost enum EventView {
    Frame(Seq<u8>),
    ReadFailed,
    IdleTimeout,
    Written,
    WriteFailed,
    Photo(Option<PhotoView>),
    Shutdown,
}

impl View for Event {
    type V = EventView;

    open spec fn view(&self) -> EventView {
        match self {
            Event::Frame(bytes) => EventView::Frame(bytes@),
            Event::ReadFailed => EventView::ReadFailed,
            Event::IdleTimeout => EventView::IdleTimeout,
            Event::Written => EventView::Written,
            Event::WriteFailed => EventView::WriteFailed,
            Event::Photo(photo) => EventView::Photo(photo_view(*photo)),
            Event::Shutdown => EventView::Shutdown,
        }
    }
}

/// What the caller does next.
#[derive(Debug, PartialEq, Eq)]
pub enum Action {
    /// Call `consult` with the log of sightings.
    Consult,
    /// Read at most `MTU` bytes from the stream, then call `step` with
    /// `Frame`, `ReadFailed` or `IdleTimeout`.
    Read,
    /// Write these bytes to the stream, then call `step` with `Written` or
    /// `WriteFailed`.
    Write(Vec<u8>),
    /// Read the JPEG file at this path, then call `step` with `Photo` and
    /// the picture that it holds.
    LoadPhoto(String),
    /// Close the stream. The connection is over.
    Close,
}

/// The value of an `Action`.
pub ghost enum ActionView {
    Consult,
    Read,
    Write(Seq<u8>),
    LoadPhoto(Seq<char>),
    Close,
}

impl View for Action {
    type V = ActionView;

    open spec fn view(&self) -> ActionView {
        match self {
            Action::Consult => ActionView::Consult,
            Action::Read => ActionView::Read,
            Action::Write(bytes) => ActionView::Write(bytes@),
            Action::LoadPhoto(path) => ActionView::LoadPhoto(path@),
            Action::Close => ActionView::Close,
        }
    }
}

/// What a call has to report beside the next action, for the caller's log.
#[derive(Clone, Copy, Debug, PartialEq, Eq)]
pub enum Notice {
    /// Nothing.
    Quiet,
    /// A `Pong` came. None is answered.
    PongReceived,
    /// A frame held no request and was no text. It is not sent back.
    NotText,
    /// A write failed. What was left to write for that frame is dropped.
    WriteFailed,
    /// A read failed.
    ReadFailed,
    /// The peer closed the stream.
    StreamEnded,
    /// The peer stayed silent for too long.
    IdleTimeout,
    /// The service shuts down.
    Shutdown,
    /// The call did not fit the action that was asked for.
    OutOfTurn,
}

/// The outcome of a call: the next action, and what there is to report.
#[derive(Debug, PartialEq, Eq)]
pub struct Step {
    pub action: Action,
    pub notice: Notice,
}

/// The value of a `Step`.
pub ghost struct StepView {
    pub action: ActionView,
    pub notice: Notice,
}

impl View for Step {
    type V = StepView;

    open spec fn view(&self) -> StepView {
        StepView { action: self.action@, notice: self.notice }
    }
}

/// Where a connection stands.
enum Phase {
    /// Accepted; the greeting is still to be made.
    Accepted,
    /// A read is under way.
    Reading,
    /// A request waits for the log.
    Dispatch(Message),
    /// A photo is being read.
    Loading,
    /// A write is under way.
    Writing,
    /// Over.
    Closed,
}

/// The value of a phase.
pub ghost enum PhaseView {
    Accepted,
    Reading,
    Dispatch(MessageView),
    Loading,
    Writing,
    Closed,
}

/// One connection.
pub struct Connection {
    phase: Phase,
    /// The frames still to be written after the write under way, in order.
    pending: Vec<Vec<u8>>,
}

/// The value of a `Connection`.
pub ghost struct ConnectionView {
    pub phase: PhaseView,
    pub pending: Seq<Seq<u8>>,
}

impl View for Connection {
    type V = ConnectionView;

    closed spec fn view(&self) -> ConnectionView {
        ConnectionView {
            phase: match self.phase {
                Phase::Accepted => PhaseView::Accepted,
                Phase::Reading => PhaseView::Reading,
                Phase::Dispatch(request) => PhaseView::Dispatch(request@),
                Phase::Loading => PhaseView::Loading,
                Phase::Writing => PhaseView::Writing,
                Phase::Closed => PhaseView::Closed,
            },
            pending: self.pending@.map_values(|frame: Vec<u8>| frame@),
        }
    }
}

impl ConnectionView {
    /// A connection in `phase` with nothing left to write.
    pub open spec fn at(phase: PhaseView) -> ConnectionView {
        ConnectionView { phase, pending: Seq::empty() }
    }

    /// A connection with a write under way and `pending` to follow.
    pub open spec fn writing(pending: Seq<Seq<u8>>) -> ConnectionView {
        ConnectionView { phase: PhaseView::Writing, pending }
    }

    /// What holds of every connection: frames wait to be written only while
    /// a write is under way, and a request waits for the log only if it reads
    /// the log.
    pub open spec fn tidy(self) -> bool {
        &&& self.phase is Writing || self.pending.len() == 0
        &&& self.phase matches PhaseView::Dispatch(request) ==> reads_log(Some(request))
    }
}

/// The connection is over, for the reason given.
pub open spec fn closing(notice: Notice) -> (ConnectionView, StepView) {
    (ConnectionView::at(PhaseView::Closed), StepView { action: ActionView::Close, notice })
}

/// The next read begins.
pub open spec fn reading(notice: Notice) -> (ConnectionView, StepView) {
    (ConnectionView::at(PhaseView::Reading), StepView { action: ActionView::Read, notice })
}

/// The write of `first` begins, with `rest` to follow.
pub open spec fn writing(first: Seq<u8>, rest: Seq<Seq<u8>>) -> (ConnectionView, StepView) {
    (
        ConnectionView::writing(rest),
        StepView { action: ActionView::Write(first), notice: Notice::Quiet },
    )
}

/// What follows once it is decided what is done for a frame.
pub open spec fn delivery(decision: ResponseView) -> (ConnectionView, StepView) {
    match decision {
        ResponseView::Silent => reading(Notice::PongReceived),
        ResponseView::NotText => reading(Notice::NotText),
        ResponseView::Frame(message) => writing(encoded(message), Seq::empty()),
        ResponseView::Record(message) => writing(encoded(message), seq![terminator_frame()]),
        ResponseView::Echo(frame) => writing(frame, Seq::empty()),
        ResponseView::Picture(sighting) => (
            ConnectionView::at(PhaseView::Loading),
            StepView { action: ActionView::LoadPhoto(photo_path(sighting)), notice: Notice::Quiet },
        ),
    }
}

/// The record that carries a picture.
pub open spec fn picture_record(picture: Option<Seq<u8>>) -> (ConnectionView, StepView) {
    writing(
        encoded(MessageView::ImageResponse { base64: picture_text(picture) }),
        seq![terminator_frame()],
    )
}

/// What `step` does in state `pre` on `event`.
pub open spec fn next(pre: ConnectionView, event: EventView) -> (ConnectionView, StepView) {
    match (pre.phase, event) {
        (_, EventView::Shutdown) => closing(Notice::Shutdown),
        (PhaseView::Reading, EventView::Frame(frame)) => if frame.len() == 0 {
            closing(Notice::StreamEnded)
        } else if reads_log(decoded(frame)) {
            (
                ConnectionView::at(PhaseView::Dispatch(decoded(frame)->0)),
                StepView { action: ActionView::Consult, notice: Notice::Quiet },
            )
        } else {
            delivery(response(decoded(frame), frame, Seq::empty()))
        },
        (PhaseView::Reading, EventView::ReadFailed) => closing(Notice::ReadFailed),
        (PhaseView::Reading, EventView::IdleTimeout) => closing(Notice::IdleTimeout),
        (PhaseView::Writing, EventView::Written) => if pre.pending.len() > 0 {
            writing(pre.pending[0], pre.pending.drop_first())
        } else {
            reading(Notice::Quiet)
        },
        (PhaseView::Writing, EventView::WriteFailed) => reading(Notice::WriteFailed),
        (PhaseView::Loading, EventView::Photo(Some(photo))) => picture_record(thumbnail_of(photo)),
        (PhaseView::Loading, EventView::Photo(None)) => picture_record(None),
        _ => closing(Notice::OutOfTurn),
    }
}

/// What `consult` does in state `pre` with the log `log`.
pub open spec fn consulted(pre: ConnectionView, log: Seq<SightingView>) -> (
    ConnectionView,
    StepView,
) {
    match pre.phase {
        PhaseView::Accepted => writing(decimal(log.len()), Seq::empty()),
        PhaseView::Dispatch(request) => delivery(response(Some(request), Seq::empty(), log)),
        _ => closing(Notice::OutOfTurn),
    }
}

impl Connection {
    /// A connection that was just accepted. Its first action is `Consult`.
    pub fn new() -> (connection: Connection)
        ensures
            connection@ == ConnectionView::at(PhaseView::Accepted),
            connection@.tidy(),
    {
        let connection = Connection { phase: Phase::Accepted, pending: Vec::new() };
        assert(connection@.pending =~= Seq::empty());
        connection
    }

    /// Whether the connection is over.
    pub fn is_closed(&self) -> (closed: bool)
        ensures
            closed == (self@.phase is Closed),
    {
        match self.phase {
            Phase::Closed => true,
            _ => false,
        }
    }

    /// Moves to `phase` with nothing left to write.
    fn enter(&mut self, phase: Phase)
        ensures
            final(self).phase == phase,
            final(self)@.pending == Seq::<Seq<u8>>::empty(),
    {
        self.phase = phase;
        self.pending = Vec::new();
        assert(self@.pending =~= Seq::<Seq<u8>>::empty());
    }

    /// Ends the connection.
    fn close(&mut self, notice: Notice) -> (taken: Step)
        ensures
            (final(self)@, taken@) == closing(notice),
    {
        self.enter(Phase::Closed);
        Step { action: Action::Close, notice }
    }

    /// Begins the next read.
    fn read(&mut self, notice: Notice) -> (taken: Step)
        ensures
            (final(self)@, taken@) == reading(notice),
    {
        self.enter(Phase::Reading);
        Step { action: Action::Read, notice }
    }

    /// Begins the write of `frame`, with nothing to follow.
    fn write(&mut self, frame: Vec<u8>) -> (taken: Step)
        ensures
            (final(self)@, taken@) == writing(frame@, Seq::empty()),
    {
        self.enter(Phase::Writing);
        Step { action: Action::Write(frame), notice: Notice::Quiet }
    }

    /// Begins the write of a record: `message`, then the terminator.
    fn write_record(&mut self, message: &Message) -> (taken: Step)
        ensures
            (final(self)@, taken@) == writing(encoded(message@), seq![terminator_frame()]),
    {
        self.enter(Phase::Writing);
        self.pending.push(terminator());
        assert(self@.pending =~= seq![terminator_frame()]);
        Step { action: Action::Write(message.encode()), notice: Notice::Quiet }
    }

    /// Acts on what was decided for a frame.
    fn deliver(&mut self, decision: Response) -> (taken: Step)
        ensures
            (final(self)@, taken@) == delivery(decision@),
    {
        match decision {
            Response::Silent => self.read(Notice::PongReceived),
            Response::NotText => self.read(Notice::NotText),
            Response::Frame(message) => self.write(message.encode()),
            Response::Record(message) => self.write_record(&message),
            Response::Echo(frame) => self.write(frame),
            Response::Picture(sighting) => {
                self.enter(Phase::Loading);
                Step { action: Action::LoadPhoto(photo_path_of(&sighting)), notice: Notice::Quiet }
            },
        }
    }

    /// Takes from the log what the connection waits for: its size for the
    /// greeting, or the answer to the request at hand. Nothing is read or
    /// written during the call. A call that was not asked for ends the
    /// connection.
    pub fn consult(&mut self, store: &SightingsStore) -> (taken: Step)
        ensures
            (final(self)@, taken@) == consulted(old(self)@, store@),
    {
        let decision = match &self.phase {
            Phase::Accepted => {
                let count: u64 = store.length() as u64;
                return self.write(decimal_bytes(count));
            },
            Phase::Dispatch(request) => respond(Some(request), Vec::new(), store),
            _ => {
                return self.close(Notice::OutOfTurn);
            },
        };
        self.deliver(decision)
    }

    /// Takes what happened on the stream or with the photo's file, and says
    /// what to do next. An event that does not answer the action that was
    /// asked for ends the connection. Of a photo that was read, the
    /// thumbnail is made here.
    pub fn step(&mut self, event: Event) -> (taken: Step)
        ensures
            (final(self)@, taken@) == next(old(self)@, event@),
    {
        match event {
            Event::Shutdown => self.close(Notice::Shutdown),
            Event::Frame(frame) => match self.phase {
                Phase::Reading => self.serve(frame),
                _ => self.close(Notice::OutOfTurn),
            },
            Event::ReadFailed => match self.phase {
                Phase::Reading => self.close(Notice::ReadFailed),
                _ => self.close(Notice::OutOfTurn),
            },
            Event::IdleTimeout => match self.phase {
                Phase::Reading => self.close(Notice::IdleTimeout),
                _ => self.close(Notice::OutOfTurn),
            },
            Event::Written => match self.phase {
                Phase::Writing => self.write_on(),
                _ => self.close(Notice::OutOfTurn),
            },
            Event::WriteFailed => match self.phase {
                Phase::Writing => self.read(Notice::WriteFailed),
                _ => self.close(Notice::OutOfTurn),
            },
            Event::Photo(photo) => match self.phase {
                Phase::Loading => {
                    let thumb = match photo {
                        Some(picture) => thumbnail(&picture),
                        None => None,
                    };
                    self.write_record(&picture_response(&thumb))
                },
                _ => self.close(Notice::OutOfTurn),
            },
        }
    }

    /// Serves the frame that a read returned.
    fn serve(&mut self, frame: Vec<u8>) -> (taken: Step)
        requires
            old(self)@.phase is Reading,
        ensures
            (final(self)@, taken@) == next(old(self)@, EventView::Frame(frame@)),
    {
        if frame.len() == 0 {
            return self.close(Notice::StreamEnded);
        }
        let request = Message::decode(frame.as_slice());
        if needs_log(request.as_ref()) {
            self.enter(Phase::Dispatch(request.unwrap()));
            Step { action: Action::Consult, notice: Notice::Quiet }
        } else {
            let decision = respond_alone(request.as_ref(), frame);
            self.deliver(decision)
        }
    }

    /// Goes on after a write was done: with the next pending frame, or with
    /// the next read.
    fn write_on(&mut self) -> (taken: Step)
        requires
            old(self)@.phase is Writing,
        ensures
            (final(self)@, taken@) == next(old(self)@, EventView::Written),
    {
        if self.pending.len() > 0 {
            let frame = self.pending.remove(0);
            assert(self@.pending =~= old(self)@.pending.drop_first());
            Step { action: Action::Write(frame), notice: Notice::Quiet }
        } else {
            self.read(Notice::Quiet)
        }
    }
}

/// Every call leaves the connection tidy, whatever state it was in and
/// whatever it was called with.
pub proof fn lemma_calls_keep_tidy(
    pre: ConnectionView,
    event: EventView,
    log: Seq<SightingView>,
)
    ensures
        next(pre, event).0.tidy(),
        pre.tidy() ==> consulted(pre, log).0.tidy(),
{
}

/// Once a connection is over it stays so, and every call on it says to
/// close.
pub proof fn lemma_closed_is_final(
    pending: Seq<Seq<u8>>,
    event: EventView,
    log: Seq<SightingView>,
)
    ensures
        ({
            let over = ConnectionView { phase: PhaseView::Closed, pending };
            &&& next(over, event).0.phase is Closed
            &&& next(over, event).1.action == ActionView::Close
            &&& consulted(over, log) == closing(Notice::OutOfTurn)
        }),
{
}

/// The frames that wait behind a write go out in their order, one for each
/// write that is done, and the next read follows the last of them.
pub proof fn lemma_pending_goes_out_in_order(pending: Seq<Seq<u8>>)
    ensures
        pending.len() > 0 ==> next(ConnectionView::writing(pending), EventView::Written)
            == writing(pending[0], pending.drop_first()),
        pending.len() == 0 ==> next(ConnectionView::writing(pending), EventView::Written)
            == reading(Notice::Quiet),
        next(ConnectionView::writing(seq![terminator_frame()]), EventView::Written)
            == writing(terminator_frame(), Seq::empty()),
{
    assert(seq![terminator_frame()].drop_first() =~= Seq::<Seq<u8>>::empty());
}

/// A connection that was just accepted is greeted with the size of the log
/// at that time, as decimal text in a write of its own, before anything is
/// read.
pub proof fn lemma_greeting_comes_first(log: Seq<SightingView>)
    ensures
        consulted(ConnectionView::at(PhaseView::Accepted), log) == writing(
            decimal(log.len()),
            Seq::empty(),
        ),
        next(ConnectionView::writing(Seq::empty()), EventView::Written) == reading(
            Notice::Quiet,
        ),
{
}

/// A ping is answered with exactly one frame, which holds a pong: that frame
/// is written, and the next read follows.
pub proof fn lemma_ping_gets_one_pong(frame: Seq<u8>)
    requires
        frame.len() > 0,
    ensures
        decoded(frame) == Some(MessageView::Ping) ==> next(
            ConnectionView::at(PhaseView::Reading),
            EventView::Frame(frame),
        ) == writing(encoded(MessageView::Pong), Seq::empty()),
        next(ConnectionView::writing(Seq::empty()), EventView::Written) == reading(
            Notice::Quiet,
        ),
{
}

/// A count request is answered with one frame, which holds the number of
/// entries that the log has when it is consulted.
pub proof fn lemma_count_request_served(frame: Seq<u8>, store: SightingsStore)
    requires
        frame.len() > 0,
    ensures
        decoded(frame) == Some(MessageView::CountRequest) ==> {
            let asked = next(ConnectionView::at(PhaseView::Reading), EventView::Frame(frame));
            &&& asked.1.action == ActionView::Consult
            &&& consulted(asked.0, store@) == writing(
                encoded(MessageView::CountResponse { count: store@.len() as u64 }),
                Seq::empty(),
            )
        },
        store@.len() as u64 == store@.len(),
{
    lemma_store_countable(store);
}

/// A request for the last entry is answered with a record: the entry at the
/// highest index of the log, or the word that there is none where the log is
/// empty, and then the terminator. The connection stays open either way.
pub proof fn lemma_last_request_served(frame: Seq<u8>, log: Seq<SightingView>)
    requires
        frame.len() > 0,
    ensures
        decoded(frame) == Some(MessageView::LastRequest) ==> {
            let asked = next(ConnectionView::at(PhaseView::Reading), EventView::Frame(frame));
            let last = if log.len() == 0 {
                None
            } else {
                Some(log[log.len() - 1])
            };
            &&& asked.1.action == ActionView::Consult
            &&& consulted(asked.0, log) == writing(
                encoded(MessageView::LastResponse { last }),
                seq![terminator_frame()],
            )
        },
{
}

/// A picture request asks for the photo of the latest entry with the
/// identifier, or of the blank sighting where there is none. Where the photo
/// cannot be read, the answer is a record whose picture is the empty text.
pub proof fn lemma_picture_request_served(
    frame: Seq<u8>,
    uuid: Seq<char>,
    log: Seq<SightingView>,
)
    requires
        frame.len() > 0,
    ensures
        decoded(frame) == Some(MessageView::ImageRequest { uuid }) ==> {
            let asked = next(ConnectionView::at(PhaseView::Reading), EventView::Frame(frame));
            let looked = consulted(asked.0, log);
            &&& asked.1.action == ActionView::Consult
            &&& looked.1.action == ActionView::LoadPhoto(
                photo_path(pictured(log, uuid)),
            )
            &&& next(looked.0, EventView::Photo(None)) == writing(
                encoded(MessageView::ImageResponse { base64: Seq::empty() }),
                seq![terminator_frame()],
            )
        },
{
}

/// Where the photo was read and is a picture, whatever its size, the
/// answer to a picture request is a record: an image response whose text is
/// the base64 text of a JPEG file, written of the photo scaled to exactly
/// the thumbnail's size, and then the terminator.
pub proof fn lemma_photo_becomes_thumbnail(photo: PhotoView)
    requires
        photo.valid(),
    ensures
        thumbnail_of(photo) matches Some(file) && next(
            ConnectionView::at(PhaseView::Loading),
            EventView::Photo(Some(photo)),
        ) == writing(
            encoded(MessageView::ImageResponse { base64: picture_text(Some(file)) }),
            seq![terminator_frame()],
        ),
{
}

/// A frame that holds no message and is text is written back unchanged, in
/// one write.
pub proof fn lemma_text_comes_back(frame: Seq<u8>)
    requires
        frame.len() > 0,
        valid_utf8(frame),
    ensures
        decoded(frame) is None ==> next(
            ConnectionView::at(PhaseView::Reading),
            EventView::Frame(frame),
        ) == writing(frame, Seq::empty()),
{
}

/// A write that fails drops what was left to write for that frame and
/// leaves the connection open: the next read follows.
pub proof fn lemma_failed_write_keeps_open(pending: Seq<Seq<u8>>)
    ensures
        next(ConnectionView::writing(pending), EventView::WriteFailed) == reading(
            Notice::WriteFailed,
        ),
{
}

/// From a read, only the end of the stream, a failed read and the idle
/// timeout end the connection; whatever a frame holds, it does not.
pub proof fn lemma_frames_never_close(frame: Seq<u8>)
    requires
        frame.len() > 0,
    ensures
        !(next(ConnectionView::at(PhaseView::Reading), EventView::Frame(frame)).0.phase
            is Closed),
{
}

} // verus!
