use chat_room::main_room::{
    ChatRoom, ChatRoomAction, Message, RoomEffect, BROADCAST_CAPACITY, COMMAND_QUEUE_CAPACITY,
    ROOM_LOG_CAPACITY,
};

fn room_message(author: &str, content: &str) -> Message {
    Message { author: author.to_string(), content: content.to_string() }
}

fn numbered(n: usize) -> Message {
    room_message(&format!("author {}", n), &format!("message {}", n))
}

fn create(room: &mut ChatRoom, m: Message) -> RoomEffect {
    room.listen(ChatRoomAction::CreateMessage(Box::new(m)))
}

fn history(room: &mut ChatRoom) -> Vec<Message> {
    match room.listen(ChatRoomAction::GetMessages) {
        RoomEffect::Reply(list) => list,
        RoomEffect::Publish(m) => panic!("GetMessages published {:?}", m),
    }
}

#[test]
fn capacities_are_ten_and_a_hundred() {
    assert_eq!(ROOM_LOG_CAPACITY, 10);
    assert_eq!(COMMAND_QUEUE_CAPACITY, 100);
    assert_eq!(BROADCAST_CAPACITY, 100);
}

#[test]
fn new_room_has_no_history() {
    let mut room = ChatRoom::new();
    assert_eq!(room.messages(), Vec::<Message>::new());
    assert_eq!(history(&mut room), Vec::<Message>::new());
}

#[test]
fn created_message_is_published_as_given() {
    let mut room = ChatRoom::new();
    let effect = create(&mut room, room_message("a", "hi"));
    assert_eq!(effect, RoomEffect::Publish(room_message("a", "hi")));
}

#[test]
fn created_message_enters_the_history() {
    let mut room = ChatRoom::new();
    create(&mut room, room_message("a", "hi"));
    assert_eq!(room.messages(), vec![room_message("a", "hi")]);
}

#[test]
fn history_is_oldest_first() {
    let mut room = ChatRoom::new();
    create(&mut room, room_message("a", "first"));
    create(&mut room, room_message("b", "second"));
    create(&mut room, room_message("a", "third"));
    assert_eq!(
        history(&mut room),
        vec![room_message("a", "first"), room_message("b", "second"), room_message("a", "third")]
    );
}

#[test]
fn equal_messages_are_kept_apart() {
    let mut room = ChatRoom::new();
    create(&mut room, room_message("a", "same"));
    create(&mut room, room_message("a", "same"));
    assert_eq!(history(&mut room), vec![room_message("a", "same"), room_message("a", "same")]);
}

#[test]
fn get_messages_leaves_the_history_alone() {
    let mut room = ChatRoom::new();
    create(&mut room, room_message("a", "hi"));
    let first = history(&mut room);
    let second = history(&mut room);
    assert_eq!(first, second);
    assert_eq!(room.messages(), vec![room_message("a", "hi")]);
}

#[test]
fn ten_messages_all_stay() {
    let mut room = ChatRoom::new();
    for n in 1..=10 {
        create(&mut room, numbered(n));
    }
    let expected: Vec<Message> = (1..=10).map(numbered).collect();
    assert_eq!(history(&mut room), expected);
}

#[test]
fn eleventh_message_evicts_the_first() {
    let mut room = ChatRoom::new();
    for n in 1..=11 {
        create(&mut room, numbered(n));
    }
    let expected: Vec<Message> = (2..=11).map(numbered).collect();
    let got = history(&mut room);
    assert_eq!(got.len(), 10);
    assert_eq!(got, expected);
}

#[test]
fn history_holds_the_latest_ten_after_each_of_many() {
    let mut room = ChatRoom::new();
    assert_eq!(room.len(), 0);
    for n in 1..=35usize {
        create(&mut room, numbered(n));
        let kept = n.min(10);
        let expected: Vec<Message> = (n - kept + 1..=n).map(numbered).collect();
        assert_eq!(room.len(), kept);
        assert_eq!(room.messages().len(), kept);
        assert_eq!(room.messages(), expected);
    }
}

#[test]
fn reply_shows_what_came_before_and_nothing_after() {
    let mut room = ChatRoom::new();
    create(&mut room, room_message("a", "before"));
    let early = history(&mut room);
    create(&mut room, room_message("b", "after"));
    let late = history(&mut room);
    assert_eq!(early, vec![room_message("a", "before")]);
    assert_eq!(late, vec![room_message("a", "before"), room_message("b", "after")]);
}

#[test]
fn reply_is_a_copy_of_its_own() {
    let mut room = ChatRoom::new();
    create(&mut room, room_message("a", "hi"));
    let mut reply = history(&mut room);
    reply.push(room_message("x", "not in the room"));
    reply[0].content.push_str(" there");
    assert_eq!(room.messages(), vec![room_message("a", "hi")]);
}

#[test]
fn submissions_in_any_order_are_each_logged_once() {
    let orders: [[usize; 10]; 3] = [
        [1, 2, 3, 4, 5, 6, 7, 8, 9, 10],
        [10, 9, 8, 7, 6, 5, 4, 3, 2, 1],
        [3, 7, 1, 10, 5, 2, 9, 4, 8, 6],
    ];
    for order in orders {
        let mut room = ChatRoom::new();
        for n in order {
            create(&mut room, numbered(n));
        }
        let log = history(&mut room);
        let arrival: Vec<Message> = order.iter().map(|n| numbered(*n)).collect();
        assert_eq!(log, arrival);
        for n in 1..=10 {
            assert_eq!(log.iter().filter(|m| **m == numbered(n)).count(), 1);
        }
    }
}

#[test]
fn submissions_into_a_used_room_are_its_newest_entries() {
    let mut room = ChatRoom::new();
    for n in 1..=8 {
        create(&mut room, numbered(n));
    }
    for n in [23, 21, 22, 24] {
        create(&mut room, numbered(n));
    }
    let log = history(&mut room);
    assert_eq!(log.len(), 10);
    let newest: Vec<Message> = [23, 21, 22, 24].iter().map(|n| numbered(*n)).collect();
    assert_eq!(log[6..].to_vec(), newest);
    let oldest: Vec<Message> = (3..=8).map(numbered).collect();
    assert_eq!(log[..6].to_vec(), oldest);
}

#[test]
fn clone_of_a_message_equals_it() {
    let first = room_message("a", "hi");
    let copy = first.clone();
    assert_eq!(copy, first);
    assert_eq!(copy.author, "a");
    assert_eq!(copy.content, "hi");
}
