//! The room: the one owner of the message history.
//!
//! Commands reach the room one at a time, in the order in which its queue
//! received them. `ChatRoom::listen` takes one command, changes the history
//! and says what has to leave the room: a message for every subscriber, or a
//! snapshot for the one who asked.

use vstd::prelude::*;

verus! {

/// How many messages the room remembers.
pub const ROOM_LOG_CAPACITY: usize = 10;

/// How many commands may wait for the room before senders are held back.
pub const COMMAND_QUEUE_CAPACITY: usize = 100;

/// How many published messages a subscriber may fall behind.
pub const BROADCAST_CAPACITY: usize = 100;

/// One chat message. It has no identity beyond its two texts.
#[derive(Debug, PartialEq, Eq)]
pub struct Message {
    pub author: String,
    pub content: String,
}

/// A message as contracts see it: two sequences of characters.
pub ghost struct MessageView {
    pub author: Seq<char>,
    pub content: Seq<char>,
}

impl View for Message {
    type V = MessageView;

    open spec fn view(&self) -> MessageView {
        MessageView { author: self.author@, content: self.content@ }
    }
}

impl DeepView for Message {
    type V = MessageView;

    open spec fn deep_view(&self) -> MessageView {
        self@
    }
}

impl Clone for Message {
    fn clone(&self) -> (copy: Self)
        ensures
            copy == *self,
    {
        Message { author: self.author.clone(), content: self.content.clone() }
    }
}

/// A command for the room.
#[derive(Debug, PartialEq, Eq)]
pub enum ChatRoomAction {
    /// Accept this message into the history and publish it.
    CreateMessage(Box<Message>),
    /// Report the history as it stands.
    GetMessages,
}

pub ghost enum ChatRoomActionView {
    CreateMessage(MessageView),
    GetMessages,
}

impl View for ChatRoomAction {
    type V = ChatRoomActionView;

    open spec fn view(&self) -> ChatRoomActionView {
        match self {
            ChatRoomAction::CreateMessage(message) => ChatRoomActionView::CreateMessage(message@),
            ChatRoomAction::GetMessages => ChatRoomActionView::GetMessages,
        }
    }
}

/// What the room hands out after a command. Delivery is best effort: the room
/// is never told whether anyone received it, and takes the next command
/// whatever became of the last effect.
#[derive(Debug, PartialEq, Eq)]
pub enum RoomEffect {
    /// Send this message to every subscriber.
    Publish(Message),
    /// Answer the requester with these messages, oldest first.
    Reply(Vec<Message>),
}

pub ghost enum RoomEffectView {
    Publish(MessageView),
    Reply(Seq<MessageView>),
}

impl View for RoomEffect {
    type V = RoomEffectView;

    open spec fn view(&self) -> RoomEffectView {
        match self {
            RoomEffect::Publish(message) => RoomEffectView::Publish(message@),
            RoomEffect::Reply(messages) => RoomEffectView::Reply(messages.deep_view()),
        }
    }
}

/// The last `n` entries of `all`, or all of it if it has no more.
pub open spec fn latest(all: Seq<MessageView>, n: nat) -> Seq<MessageView> {
    if all.len() > n {
        all.skip(all.len() - n)
    } else {
        all
    }
}

/// The history after `message` was accepted: it is appended, and if the
/// history then exceeds the capacity the oldest entry leaves.
pub open spec fn accept(log: Seq<MessageView>, message: MessageView) -> Seq<MessageView> {
    latest(log.push(message), ROOM_LOG_CAPACITY as nat)
}

/// The history after one command.
pub open spec fn log_after(log: Seq<MessageView>, action: ChatRoomActionView) -> Seq<MessageView> {
    match action {
        ChatRoomActionView::CreateMessage(message) => accept(log, message),
        ChatRoomActionView::GetMessages => log,
    }
}

/// What one command makes the room hand out, given the history before it.
pub open spec fn effect_of(log: Seq<MessageView>, action: ChatRoomActionView) -> RoomEffectView {
    match action {
        ChatRoomActionView::CreateMessage(message) => RoomEffectView::Publish(message),
        ChatRoomActionView::GetMessages => RoomEffectView::Reply(log),
    }
}

/// The history after a run of commands, taken in order.
pub open spec fn log_after_all(log: Seq<MessageView>, actions: Seq<ChatRoomActionView>) -> Seq<
    MessageView,
>
    decreases actions.len(),
{
    if actions.len() == 0 {
        log
    } else {
        log_after(log_after_all(log, actions.drop_last()), actions.last())
    }
}

/// The messages that a run of commands asked the room to accept, in order.
pub open spec fn accepted(actions: Seq<ChatRoomActionView>) -> Seq<MessageView>
    decreases actions.len(),
{
    if actions.len() == 0 {
        Seq::empty()
    } else {
        match actions.last() {
            ChatRoomActionView::CreateMessage(message) => accepted(actions.drop_last()).push(
                message,
            ),
            ChatRoomActionView::GetMessages => accepted(actions.drop_last()),
        }
    }
}

/// One `CreateMessage` command for each of `messages`, in the same order.
pub open spec fn creations(messages: Seq<MessageView>) -> Seq<ChatRoomActionView> {
    messages.map_values(|message: MessageView| ChatRoomActionView::CreateMessage(message))
}

/// The room. Its history is private: it changes through `listen` alone.
pub struct ChatRoom {
    messages: Vec<Message>,
}

impl View for ChatRoom {
    type V = Seq<MessageView>;

    closed spec fn view(&self) -> Seq<MessageView> {
        self.messages.deep_view()
    }
}

impl ChatRoom {
    #[verifier::type_invariant]
    spec fn within_capacity(&self) -> bool {
        self.messages.len() <= ROOM_LOG_CAPACITY
    }

    /// A room that has not accepted anything yet.
    pub fn new() -> (room: Self)
        ensures
            room@ == Seq::<MessageView>::empty(),
    {
        let room = ChatRoom { messages: Vec::new() };
        assert(room@ =~= Seq::<MessageView>::empty());
        room
    }

    /// How many messages the history holds: never more than the capacity.
    pub fn len(&self) -> (count: usize)
        ensures
            count == self@.len(),
            count <= ROOM_LOG_CAPACITY,
    {
        proof {
            use_type_invariant(self);
        }
        self.messages.len()
    }

    /// A copy of the history, oldest message first.
    pub fn messages(&self) -> (snapshot: Vec<Message>)
        ensures
            snapshot.deep_view() == self@,
            snapshot.len() <= ROOM_LOG_CAPACITY,
    {
        proof {
            use_type_invariant(self);
        }
        let snapshot = self.messages.clone();
        assert(snapshot.deep_view() =~= self.messages.deep_view());
        snapshot
    }

    /// Takes one command. `CreateMessage` appends the message, drops the
    /// oldest entry if the history was full, and asks for the message to be
    /// published. `GetMessages` leaves the history alone and asks for a copy
    /// of it to be sent back.
    pub fn listen(&mut self, action: ChatRoomAction) -> (effect: RoomEffect)
        ensures
            final(self)@ == log_after(old(self)@, action@),
            effect@ == effect_of(old(self)@, action@),
            final(self)@.len() <= ROOM_LOG_CAPACITY,
    {
        proof {
            use_type_invariant(&*self);
        }
        match action {
            ChatRoomAction::CreateMessage(message) => {
                let message: Message = *message;
                // The history moves out of the room while it is edited and
                // back in when it is within capacity again.
                let mut taken = ChatRoom { messages: Vec::new() };
                std::mem::swap(self, &mut taken);
                let mut log = taken.messages;
                if log.len() >= ROOM_LOG_CAPACITY {
                    log.remove(0);
                }
                log.push(message.clone());
                *self = ChatRoom { messages: log };
                assert(self@ =~= accept(old(self)@, message@));
                RoomEffect::Publish(message)
            },
            ChatRoomAction::GetMessages => RoomEffect::Reply(self.messages()),
        }
    }
}

/// Accepting a message into the capped history gives the same result as
/// appending it to everything ever accepted and capping afterwards.
proof fn lemma_accept_latest(all: Seq<MessageView>, message: MessageView)
    ensures
        accept(latest(all, ROOM_LOG_CAPACITY as nat), message) == latest(
            all.push(message),
            ROOM_LOG_CAPACITY as nat,
        ),
{
    assert(accept(latest(all, ROOM_LOG_CAPACITY as nat), message) =~= latest(
        all.push(message),
        ROOM_LOG_CAPACITY as nat,
    ));
}

/// After any run of commands the history holds the messages accepted last,
/// at most `ROOM_LOG_CAPACITY` of them, in the order in which they were
/// accepted. What the room held before the run counts as accepted earlier.
pub proof fn lemma_log_holds_latest_accepted(
    log: Seq<MessageView>,
    actions: Seq<ChatRoomActionView>,
)
    requires
        log.len() <= ROOM_LOG_CAPACITY,
    ensures
        log_after_all(log, actions) == latest(
            log + accepted(actions),
            ROOM_LOG_CAPACITY as nat,
        ),
        log_after_all(log, actions).len() <= ROOM_LOG_CAPACITY,
    decreases actions.len(),
{
    if actions.len() == 0 {
        assert(log + accepted(actions) =~= log);
    } else {
        let before = actions.drop_last();
        lemma_log_holds_latest_accepted(log, before);
        match actions.last() {
            ChatRoomActionView::CreateMessage(message) => {
                lemma_accept_latest(log + accepted(before), message);
                assert((log + accepted(before)).push(message) =~= log + accepted(actions));
            },
            ChatRoomActionView::GetMessages => {},
        }
    }
}

/// The messages of a run that creates each of `messages` are `messages`.
proof fn lemma_accepted_creations(messages: Seq<MessageView>)
    ensures
        accepted(creations(messages)) == messages,
    decreases messages.len(),
{
    if messages.len() > 0 {
        lemma_accepted_creations(messages.drop_last());
        assert(creations(messages).drop_last() =~= creations(messages.drop_last()));
        assert(messages.drop_last().push(messages.last()) =~= messages);
    } else {
        assert(accepted(creations(messages)) =~= messages);
    }
}

/// A new room that accepted `messages`, one after the other, holds exactly
/// the last `min(n, ROOM_LOG_CAPACITY)` of these `n` messages, oldest first.
pub proof fn lemma_new_room_holds_latest(messages: Seq<MessageView>)
    ensures
        log_after_all(Seq::empty(), creations(messages)) == latest(
            messages,
            ROOM_LOG_CAPACITY as nat,
        ),
        log_after_all(Seq::empty(), creations(messages)).len() == if messages.len()
            <= ROOM_LOG_CAPACITY {
            messages.len()
        } else {
            ROOM_LOG_CAPACITY as nat
        },
{
    lemma_log_holds_latest_accepted(Seq::empty(), creations(messages));
    lemma_accepted_creations(messages);
    assert(Seq::<MessageView>::empty() + messages =~= messages);
}

/// A `GetMessages` command is answered with the history as the commands
/// before it left it: every message accepted earlier counts, none that comes
/// later does, and the command itself changes nothing. The answer has at most
/// `ROOM_LOG_CAPACITY` entries, oldest first.
pub proof fn lemma_reply_is_snapshot(
    log: Seq<MessageView>,
    actions: Seq<ChatRoomActionView>,
    at: int,
)
    requires
        log.len() <= ROOM_LOG_CAPACITY,
        0 <= at < actions.len(),
        actions[at] is GetMessages,
    ensures
        effect_of(log_after_all(log, actions.take(at)), actions[at]) == RoomEffectView::Reply(
            latest(log + accepted(actions.take(at)), ROOM_LOG_CAPACITY as nat),
        ),
        latest(log + accepted(actions.take(at)), ROOM_LOG_CAPACITY as nat).len()
            <= ROOM_LOG_CAPACITY,
        log_after_all(log, actions.take(at + 1)) == log_after_all(log, actions.take(at)),
{
    lemma_log_holds_latest_accepted(log, actions.take(at));
    assert(actions.take(at + 1).drop_last() =~= actions.take(at));
    assert(actions.take(at + 1).last() == actions[at]);
}

/// However the queue orders up to `ROOM_LOG_CAPACITY` submissions, each of
/// them ends up in the history exactly once: the newest entries of the
/// history are the submissions in their order of arrival, so nothing is lost
/// and nothing is doubled.
pub proof fn lemma_submissions_logged_once(
    log: Seq<MessageView>,
    submitted: Seq<MessageView>,
    arrival: Seq<MessageView>,
)
    requires
        log.len() <= ROOM_LOG_CAPACITY,
        submitted.len() <= ROOM_LOG_CAPACITY,
        arrival.to_multiset() == submitted.to_multiset(),
    ensures
        latest(log_after_all(log, creations(arrival)), arrival.len()) == arrival,
        latest(log_after_all(log, creations(arrival)), arrival.len()).to_multiset()
            == submitted.to_multiset(),
        log.len() == 0 ==> log_after_all(log, creations(arrival)) == arrival,
{
    arrival.to_multiset_ensures();
    submitted.to_multiset_ensures();
    lemma_log_holds_latest_accepted(log, creations(arrival));
    lemma_accepted_creations(arrival);
    let all = log + arrival;
    let kept = latest(all, ROOM_LOG_CAPACITY as nat);
    assert(latest(kept, arrival.len()) =~= arrival);
    if log.len() == 0 {
        assert(all =~= arrival);
    }
}

} // verus!
