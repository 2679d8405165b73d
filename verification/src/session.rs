//! One connection, as a state machine.
//!
//! A session sits between a client's socket, the room's command queue and the
//! room's broadcast. It owns none of them. Whoever drives it performs the
//! action that the session asked for last, reports the outcome as an event,
//! and gets the next action back from `Session::step`. A new session is idle:
//! its driver starts as if it had been told to `Wait`.
//!
//! Exactly one action is pending at any time, so a frame is never started
//! while another is being written, and the socket and the broadcast are
//! looked at only when nothing else is in progress.

use crate::main_room::{
    effect_of, log_after, ChatRoomAction, ChatRoomActionView, Message, MessageView, RoomEffectView,
};
use crate::messages::{compose_message, composed, lemma_composed_is_inert};
use crate::sanitize::is_inert;
use vstd::prelude::*;

verus! {

/// What a client may ask for.
#[derive(Debug, PartialEq, Eq)]
pub enum ChatRequest {
    /// Post `content` under the name `author`.
    SendMessage { content: String, author: String },
    /// Show the room's history.
    GetMessages,
}

pub ghost enum ChatRequestView {
    SendMessage { content: Seq<char>, author: Seq<char> },
    GetMessages,
}

impl View for ChatRequest {
    type V = ChatRequestView;

    open spec fn view(&self) -> ChatRequestView {
        match self {
            ChatRequest::SendMessage { content, author } => ChatRequestView::SendMessage {
                content: content@,
                author: author@,
            },
            ChatRequest::GetMessages => ChatRequestView::GetMessages,
        }
    }
}

/// What goes to the client in one frame.
#[derive(Debug, PartialEq, Eq)]
pub enum Frame {
    /// A frame without payload: the acknowledgment of a posted message.
    Empty,
    /// One message: a live broadcast.
    Record(Message),
    /// A list of messages, oldest first: the answer to `GetMessages`.
    Records(Vec<Message>),
}

pub ghost enum FrameView {
    Empty,
    Record(MessageView),
    Records(Seq<MessageView>),
}

impl View for Frame {
    type V = FrameView;

    open spec fn view(&self) -> FrameView {
        match self {
            Frame::Empty => FrameView::Empty,
            Frame::Record(message) => FrameView::Record(message@),
            Frame::Records(messages) => FrameView::Records(messages.deep_view()),
        }
    }
}

/// Why a session was closed on a failure. Each of them ends this one session
/// and nothing else.
#[derive(Debug, Clone, Copy, PartialEq, Eq, Structural)]
pub enum SessionError {
    /// An inbound frame could not be read or was not a request.
    DecodeError,
    /// The room's command queue is closed.
    ActorUnreachable,
    /// The room dropped the request for its history without answering.
    ReplyLost,
    /// The broadcast is closed, or this session fell too far behind it.
    BusUnavailable,
    /// A frame for the client could not be encoded or written.
    SocketWriteFailure,
    /// The driver reported an outcome of something the session had not
    /// asked for.
    OutOfTurn,
}

/// Where a session stands. All states but `Closed` are open.
#[derive(Debug, Clone, Copy, PartialEq, Eq, Structural)]
pub enum SessionState {
    /// Nothing is in progress: waiting for the client or the broadcast.
    Idle,
    /// A message is on its way into the room's queue.
    SubmittingMessage,
    /// A request for the history is on its way into the room's queue.
    SubmittingQuery,
    /// The room has the request for its history and has not answered yet.
    AwaitingReply,
    /// A frame is being written to the client.
    Sending,
    /// The session is over. It stays so.
    Closed,
}

/// What the driver reports back.
#[derive(Debug, PartialEq, Eq)]
pub enum SessionEvent {
    /// The client sent a frame, and it decoded to this request.
    Request(ChatRequest),
    /// The client sent a frame that is not a request.
    Undecodable,
    /// Reading the next frame from the client failed.
    Unreadable,
    /// The client's stream has ended.
    EndOfStream,
    /// The room published this message.
    Broadcast(Message),
    /// This session fell further behind the broadcast than its buffer holds.
    BusLagged,
    /// The broadcast is closed.
    BusClosed,
    /// The room's queue took the command.
    Submitted,
    /// The room's queue is closed.
    SubmitFailed,
    /// The room answered with its history.
    Reply(Vec<Message>),
    /// The room dropped the request without an answer.
    ReplyLost,
    /// The frame was written to the client.
    Sent,
    /// The frame could not be encoded.
    EncodeFailed,
    /// The frame could not be written to the client.
    SendFailed,
}

pub ghost enum SessionEventView {
    Request(ChatRequestView),
    Undecodable,
    Unreadable,
    EndOfStream,
    Broadcast(MessageView),
    BusLagged,
    BusClosed,
    Submitted,
    SubmitFailed,
    Reply(Seq<MessageView>),
    ReplyLost,
    Sent,
    EncodeFailed,
    SendFailed,
}

impl View for SessionEvent {
    type V = SessionEventView;

    open spec fn view(&self) -> SessionEventView {
        match self {
            SessionEvent::Request(request) => SessionEventView::Request(request@),
            SessionEvent::Undecodable => SessionEventView::Undecodable,
            SessionEvent::Unreadable => SessionEventView::Unreadable,
            SessionEvent::EndOfStream => SessionEventView::EndOfStream,
            SessionEvent::Broadcast(message) => SessionEventView::Broadcast(message@),
            SessionEvent::BusLagged => SessionEventView::BusLagged,
            SessionEvent::BusClosed => SessionEventView::BusClosed,
            SessionEvent::Submitted => SessionEventView::Submitted,
            SessionEvent::SubmitFailed => SessionEventView::SubmitFailed,
            SessionEvent::Reply(messages) => SessionEventView::Reply(messages.deep_view()),
            SessionEvent::ReplyLost => SessionEventView::ReplyLost,
            SessionEvent::Sent => SessionEventView::Sent,
            SessionEvent::EncodeFailed => SessionEventView::EncodeFailed,
            SessionEvent::SendFailed => SessionEventView::SendFailed,
        }
    }
}

/// What the driver is to do next.
#[derive(Debug, PartialEq, Eq)]
pub enum SessionAction {
    /// Wait for whichever comes first, the client's next frame or the next
    /// broadcast, and report that one.
    Wait,
    /// Put this command into the room's queue, waiting for room in it.
    Submit(ChatRoomAction),
    /// Wait for the room's answer to the request just submitted.
    AwaitReply,
    /// Encode this frame and write it to the client.
    Send(Frame),
    /// Stop. `None` after a regular end, else the failure that ended it.
    Close(Option<SessionError>),
}

pub ghost enum SessionActionView {
    Wait,
    Submit(ChatRoomActionView),
    AwaitReply,
    Send(FrameView),
    Close(Option<SessionError>),
}

impl View for SessionAction {
    type V = SessionActionView;

    open spec fn view(&self) -> SessionActionView {
        match self {
            SessionAction::Wait => SessionActionView::Wait,
            SessionAction::Submit(command) => SessionActionView::Submit(command@),
            SessionAction::AwaitReply => SessionActionView::AwaitReply,
            SessionAction::Send(frame) => SessionActionView::Send(frame@),
            SessionAction::Close(reason) => SessionActionView::Close(*reason),
        }
    }
}

/// The session ends on the failure `error`.
pub open spec fn fail(error: SessionError) -> (SessionState, SessionActionView) {
    (SessionState::Closed, SessionActionView::Close(Some(error)))
}

/// Whether `event` is an outcome of the action that is pending in `state`.
/// A closed session has nothing pending.
pub open spec fn in_turn(state: SessionState, event: SessionEventView) -> bool {
    match state {
        SessionState::Idle => event is Request || event is Undecodable || event is Unreadable
            || event is EndOfStream || event is Broadcast || event is BusLagged
            || event is BusClosed,
        SessionState::SubmittingMessage | SessionState::SubmittingQuery => event is Submitted
            || event is SubmitFailed,
        SessionState::AwaitingReply => event is Reply || event is ReplyLost,
        SessionState::Sending => event is Sent || event is EncodeFailed || event is SendFailed,
        SessionState::Closed => false,
    }
}

/// Whether `event` tells of something that went wrong: a frame that could
/// not be read, decoded, encoded or written, a queue, reply or broadcast that
/// is gone, or a broadcast that ran ahead of this session.
pub open spec fn is_failure(event: SessionEventView) -> bool {
    event is Undecodable || event is Unreadable || event is BusLagged || event is BusClosed
        || event is SubmitFailed || event is ReplyLost || event is EncodeFailed
        || event is SendFailed
}

/// The error that a failure is closed with.
pub open spec fn error_of(event: SessionEventView) -> SessionError
    recommends
        is_failure(event),
{
    match event {
        SessionEventView::Undecodable | SessionEventView::Unreadable => SessionError::DecodeError,
        SessionEventView::BusLagged | SessionEventView::BusClosed => SessionError::BusUnavailable,
        SessionEventView::SubmitFailed => SessionError::ActorUnreachable,
        SessionEventView::ReplyLost => SessionError::ReplyLost,
        _ => SessionError::SocketWriteFailure,
    }
}

/// The whole behaviour of a session: the state it moves to and the action it
/// asks for, given the state it is in and the event reported to it.
///
/// A closed session stays closed. An open one closes on whatever it did not
/// ask for and on every failure. Otherwise the event decides: a request goes
/// to the room, a broadcast and the room's answer go to the client, an
/// accepted message is acknowledged, an accepted query is waited for, and a
/// written frame leaves the session idle again.
pub open spec fn transition(state: SessionState, event: SessionEventView) -> (
    SessionState,
    SessionActionView,
) {
    if state == SessionState::Closed {
        (SessionState::Closed, SessionActionView::Close(None))
    } else if !in_turn(state, event) {
        fail(SessionError::OutOfTurn)
    } else {
        match event {
            SessionEventView::EndOfStream => (SessionState::Closed, SessionActionView::Close(None)),
            SessionEventView::Request(ChatRequestView::SendMessage { content, author }) => (
                SessionState::SubmittingMessage,
                SessionActionView::Submit(
                    ChatRoomActionView::CreateMessage(composed(author, content)),
                ),
            ),
            SessionEventView::Request(ChatRequestView::GetMessages) => (
                SessionState::SubmittingQuery,
                SessionActionView::Submit(ChatRoomActionView::GetMessages),
            ),
            SessionEventView::Broadcast(message) => (
                SessionState::Sending,
                SessionActionView::Send(FrameView::Record(message)),
            ),
            SessionEventView::Submitted => if state == SessionState::SubmittingMessage {
                (SessionState::Sending, SessionActionView::Send(FrameView::Empty))
            } else {
                (SessionState::AwaitingReply, SessionActionView::AwaitReply)
            },
            SessionEventView::Reply(messages) => (
                SessionState::Sending,
                SessionActionView::Send(FrameView::Records(messages)),
            ),
            SessionEventView::Sent => (SessionState::Idle, SessionActionView::Wait),
            _ => fail(error_of(event)),
        }
    }
}

/// `Closed` is terminal: whatever is reported to a closed session, it stays
/// closed and asks for nothing but to stop.
pub proof fn lemma_closed_is_terminal(event: SessionEventView)
    ensures
        transition(SessionState::Closed, event) == (
            SessionState::Closed,
            SessionActionView::Close(None),
        ),
{
}

/// Every failure ends the session with the error that names it, whatever
/// the session was doing. Nothing else does but the end of the client's
/// stream and an event out of turn.
pub proof fn lemma_failure_closes(state: SessionState, event: SessionEventView)
    requires
        in_turn(state, event),
    ensures
        is_failure(event) ==> transition(state, event) == fail(error_of(event)),
        !is_failure(event) && !(event is EndOfStream) ==> transition(state, event).0
            != SessionState::Closed,
{
}

/// The action asked for tells the state, and the state the kind of action:
/// the session waits exactly when it becomes idle, sends exactly when it
/// becomes `Sending`, and stops exactly when it becomes closed.
pub proof fn lemma_action_matches_state(state: SessionState, event: SessionEventView)
    ensures
        ({
            let (next, action) = transition(state, event);
            &&& action is Wait <==> next == SessionState::Idle
            &&& action is Send <==> next == SessionState::Sending
            &&& action is AwaitReply <==> next == SessionState::AwaitingReply
            &&& action is Close <==> next == SessionState::Closed
            &&& action matches SessionActionView::Submit(command) ==> (command is CreateMessage
                <==> next == SessionState::SubmittingMessage)
            &&& action is Submit <==> (next == SessionState::SubmittingMessage || next
                == SessionState::SubmittingQuery)
        }),
{
}

/// Frames are written one at a time: a frame is only ever started by a
/// session that was not writing one, and while one is being written nothing
/// but its own outcome keeps the session open.
pub proof fn lemma_one_frame_at_a_time(state: SessionState, event: SessionEventView)
    ensures
        transition(state, event).1 is Send ==> state != SessionState::Sending,
        state == SessionState::Sending && !(event is Sent) ==> transition(state, event).0
            == SessionState::Closed,
{
}

/// A posted message is acknowledged only after the room's queue took it: the
/// empty frame is sent on `Submitted` for a message and on nothing else.
pub proof fn lemma_ack_follows_submission(state: SessionState, event: SessionEventView)
    ensures
        transition(state, event).1 == SessionActionView::Send(FrameView::Empty) <==> (state
            == SessionState::SubmittingMessage && event is Submitted),
{
}

/// What a client sends reaches the room only as a composed message: cut to
/// length and escaped.
pub proof fn lemma_room_receives_composed_text(state: SessionState, event: SessionEventView)
    ensures
        transition(state, event).1 matches SessionActionView::Submit(
            ChatRoomActionView::CreateMessage(message),
        ) ==> (event matches SessionEventView::Request(
            ChatRequestView::SendMessage { content, author },
        ) && message == composed(author, content) && is_inert(message.author) && is_inert(
            message.content,
        )),
{
    if let SessionEventView::Request(ChatRequestView::SendMessage { content, author }) = event {
        lemma_composed_is_inert(author, content);
    }
}

/// The way of a posted message, for every author and text: the session
/// hands the composed message to the room, the room stores it as its newest
/// entry and publishes it, the sender is acknowledged with an empty frame once
/// the queue took the message, and every idle session, the sender's included,
/// forwards the published message as one record.
pub proof fn lemma_posted_message_path(
    log: Seq<MessageView>,
    content: Seq<char>,
    author: Seq<char>,
)
    ensures
        ({
            let message = composed(author, content);
            let command = ChatRoomActionView::CreateMessage(message);
            let request = SessionEventView::Request(
                ChatRequestView::SendMessage { content, author },
            );
            &&& transition(SessionState::Idle, request) == (
                SessionState::SubmittingMessage,
                SessionActionView::Submit(command),
            )
            &&& effect_of(log, command) == RoomEffectView::Publish(message)
            &&& log_after(log, command).last() == message
            &&& transition(SessionState::SubmittingMessage, SessionEventView::Submitted) == (
                SessionState::Sending,
                SessionActionView::Send(FrameView::Empty),
            )
            &&& transition(SessionState::Sending, SessionEventView::Sent) == (
                SessionState::Idle,
                SessionActionView::Wait,
            )
            &&& transition(SessionState::Idle, SessionEventView::Broadcast(message)) == (
                SessionState::Sending,
                SessionActionView::Send(FrameView::Record(message)),
            )
        }),
{
}

/// The way of a request for the history: the session submits it, waits for
/// the room, and sends the client what the room held when it took the
/// request, as one list. For a room that has accepted nothing that list is
/// empty.
pub proof fn lemma_history_path(log: Seq<MessageView>)
    ensures
        ({
            let command = ChatRoomActionView::GetMessages;
            let request = SessionEventView::Request(ChatRequestView::GetMessages);
            &&& transition(SessionState::Idle, request) == (
                SessionState::SubmittingQuery,
                SessionActionView::Submit(command),
            )
            &&& transition(SessionState::SubmittingQuery, SessionEventView::Submitted) == (
                SessionState::AwaitingReply,
                SessionActionView::AwaitReply,
            )
            &&& effect_of(log, command) == RoomEffectView::Reply(log)
            &&& log_after(log, command) == log
            &&& transition(SessionState::AwaitingReply, SessionEventView::Reply(log)) == (
                SessionState::Sending,
                SessionActionView::Send(FrameView::Records(log)),
            )
        }),
{
}

/// One connection's session.
pub struct Session {
    state: SessionState,
}

impl View for Session {
    type V = SessionState;

    closed spec fn view(&self) -> SessionState {
        self.state
    }
}

impl Session {
    /// A session for a connection that was just accepted. It is idle, and it
    /// has seen nothing of the room's history.
    pub fn new() -> (session: Self)
        ensures
            session@ == SessionState::Idle,
    {
        Session { state: SessionState::Idle }
    }

    /// The state the session is in.
    pub fn state(&self) -> (state: SessionState)
        ensures
            state == self@,
    {
        self.state
    }

    /// Whether the session still takes part: true in every state but
    /// `Closed`.
    pub fn is_open(&self) -> (open: bool)
        ensures
            open == (self@ != SessionState::Closed),
    {
        match self.state {
            SessionState::Closed => false,
            _ => true,
        }
    }

    /// Takes the outcome of the pending action and says what to do next.
    /// State and action are exactly those of `transition`.
    pub fn step(&mut self, event: SessionEvent) -> (action: SessionAction)
        ensures
            (final(self)@, action@) == transition(old(self)@, event@),
    {
        let (state, action) = match (self.state, event) {
            (SessionState::Closed, _) => (SessionState::Closed, SessionAction::Close(None)),
            (SessionState::Idle, SessionEvent::Request(request)) => match request {
                ChatRequest::SendMessage { content, author } => {
                    let message = compose_message(author, content);
                    (
                        SessionState::SubmittingMessage,
                        SessionAction::Submit(ChatRoomAction::CreateMessage(Box::new(message))),
                    )
                },
                ChatRequest::GetMessages => (
                    SessionState::SubmittingQuery,
                    SessionAction::Submit(ChatRoomAction::GetMessages),
                ),
            },
            (SessionState::Idle, SessionEvent::Undecodable)
            | (SessionState::Idle, SessionEvent::Unreadable) => close_on(
                SessionError::DecodeError,
            ),
            (SessionState::Idle, SessionEvent::EndOfStream) => (
                SessionState::Closed,
                SessionAction::Close(None),
            ),
            (SessionState::Idle, SessionEvent::Broadcast(message)) => (
                SessionState::Sending,
                SessionAction::Send(Frame::Record(message)),
            ),
            (SessionState::Idle, SessionEvent::BusLagged)
            | (SessionState::Idle, SessionEvent::BusClosed) => close_on(
                SessionError::BusUnavailable,
            ),
            (SessionState::SubmittingMessage, SessionEvent::Submitted) => (
                SessionState::Sending,
                SessionAction::Send(Frame::Empty),
            ),
            (SessionState::SubmittingQuery, SessionEvent::Submitted) => (
                SessionState::AwaitingReply,
                SessionAction::AwaitReply,
            ),
            (SessionState::SubmittingMessage, SessionEvent::SubmitFailed)
            | (SessionState::SubmittingQuery, SessionEvent::SubmitFailed) => close_on(
                SessionError::ActorUnreachable,
            ),
            (SessionState::AwaitingReply, SessionEvent::Reply(messages)) => (
                SessionState::Sending,
                SessionAction::Send(Frame::Records(messages)),
            ),
            (SessionState::AwaitingReply, SessionEvent::ReplyLost) => close_on(
                SessionError::ReplyLost,
            ),
            (SessionState::Sending, SessionEvent::Sent) => (
                SessionState::Idle,
                SessionAction::Wait,
            ),
            (SessionState::Sending, SessionEvent::EncodeFailed)
            | (SessionState::Sending, SessionEvent::SendFailed) => close_on(
                SessionError::SocketWriteFailure,
            ),
            _ => close_on(SessionError::OutOfTurn),
        };
        self.state = state;
        action
    }
}

/// The closed state together with the order to stop on `error`.
fn close_on(error: SessionError) -> (closing: (SessionState, SessionAction))
    ensures
        (closing.0, closing.1@) == fail(error),
{
    (SessionState::Closed, SessionAction::Close(Some(error)))
}

} // verus!
