use protocol::topics::TopicStore;
use protocol::{
    Bytes, Command, Commands, EntranceCommand, Login, RoomId, RoomLocalUserId, RoomName, Token,
    Topic,
};

fn update(room: u64, topic: &str, items: Vec<Vec<u8>>) -> Command {
    Command::Update {
        room_id: RoomId::new(room),
        topic: Topic::new(topic),
        all_contents: items.into_iter().map(Bytes::new).collect(),
    }
}

fn push(room: u64, topic: &str, item: Vec<u8>) -> Command {
    Command::Push {
        room_id: RoomId::new(room),
        topic: Topic::new(topic),
        contents: Bytes::new(item),
    }
}

fn listen(room: u64, user: u64, topic: &str) -> Command {
    Command::Listen {
        room_id: RoomId::new(room),
        local_user_id: RoomLocalUserId::new(user),
        topic: Topic::new(topic),
    }
}

fn contents(store: &TopicStore, room: u64, topic: &str) -> Vec<Vec<u8>> {
    store
        .contents(RoomId::new(room), &Topic::new(topic))
        .iter()
        .map(|b| b.as_slice().to_vec())
        .collect()
}

fn listeners(store: &TopicStore, room: u64, topic: &str) -> Vec<u64> {
    store
        .listeners(RoomId::new(room), &Topic::new(topic))
        .iter()
        .map(|u| u.value())
        .collect()
}

#[test]
fn update_then_push_then_update() {
    let a = b"a".to_vec();
    let b = b"b".to_vec();
    let c = b"c".to_vec();
    let x = b"x".to_vec();
    let mut store = TopicStore::new();
    store.apply(&update(1, "news", vec![a.clone(), b.clone()]));
    assert_eq!(contents(&store, 1, "news"), vec![a.clone(), b.clone()]);
    store.apply(&push(1, "news", c.clone()));
    assert_eq!(contents(&store, 1, "news"), vec![a, b, c]);
    store.apply(&update(1, "news", vec![x.clone()]));
    assert_eq!(contents(&store, 1, "news"), vec![x]);
}

#[test]
fn a_default_store_has_no_topic() {
    let store = TopicStore::default();
    assert!(!store.has_topic(RoomId::new(1), &Topic::new("news")));
    assert!(contents(&store, 1, "news").is_empty());
}

#[test]
fn a_new_store_has_no_topic() {
    let store = TopicStore::new();
    assert!(!store.has_topic(RoomId::new(1), &Topic::new("news")));
    assert!(contents(&store, 1, "news").is_empty());
    assert!(listeners(&store, 1, "news").is_empty());
}

#[test]
fn the_first_command_on_a_topic_creates_it() {
    let mut store = TopicStore::new();
    store.apply(&push(1, "a", vec![1]));
    store.apply(&update(1, "b", vec![]));
    store.apply(&listen(1, 9, "c"));
    assert!(store.has_topic(RoomId::new(1), &Topic::new("a")));
    assert!(store.has_topic(RoomId::new(1), &Topic::new("b")));
    assert!(store.has_topic(RoomId::new(1), &Topic::new("c")));
    assert!(!store.has_topic(RoomId::new(1), &Topic::new("d")));
    assert!(!store.has_topic(RoomId::new(2), &Topic::new("a")));
    assert_eq!(contents(&store, 1, "a"), vec![vec![1u8]]);
    assert!(contents(&store, 1, "b").is_empty());
    assert!(contents(&store, 1, "c").is_empty());
}

#[test]
fn pushes_keep_their_order() {
    let mut store = TopicStore::new();
    for i in 0..10u8 {
        store.apply(&push(1, "news", vec![i]));
    }
    let expected: Vec<Vec<u8>> = (0..10u8).map(|i| vec![i]).collect();
    assert_eq!(contents(&store, 1, "news"), expected);
}

#[test]
fn an_update_with_no_item_empties_the_topic() {
    let mut store = TopicStore::new();
    store.apply(&push(1, "news", vec![1]));
    store.apply(&update(1, "news", vec![]));
    assert!(contents(&store, 1, "news").is_empty());
    assert!(store.has_topic(RoomId::new(1), &Topic::new("news")));
}

#[test]
fn a_command_touches_only_its_own_topic() {
    let mut store = TopicStore::new();
    store.apply(&update(1, "news", vec![vec![1]]));
    store.apply(&update(2, "news", vec![vec![2]]));
    store.apply(&update(1, "chat", vec![vec![3]]));
    store.apply(&push(1, "news", vec![4]));
    store.apply(&listen(2, 7, "news"));
    assert_eq!(contents(&store, 1, "news"), vec![vec![1u8], vec![4]]);
    assert_eq!(contents(&store, 2, "news"), vec![vec![2u8]]);
    assert_eq!(contents(&store, 1, "chat"), vec![vec![3u8]]);
    assert!(listeners(&store, 1, "news").is_empty());
    assert_eq!(listeners(&store, 2, "news"), vec![7]);
    assert!(listeners(&store, 1, "chat").is_empty());
}

#[test]
fn listen_adds_a_listener_once_and_keeps_the_content() {
    let mut store = TopicStore::new();
    store.apply(&update(1, "news", vec![vec![1], vec![2]]));
    store.apply(&listen(1, 7, "news"));
    store.apply(&listen(1, 8, "news"));
    store.apply(&listen(1, 7, "news"));
    assert_eq!(listeners(&store, 1, "news"), vec![7, 8]);
    assert_eq!(contents(&store, 1, "news"), vec![vec![1u8], vec![2]]);
}

#[test]
fn update_and_push_keep_the_listeners() {
    let mut store = TopicStore::new();
    store.apply(&listen(1, 7, "news"));
    store.apply(&update(1, "news", vec![vec![1]]));
    store.apply(&push(1, "news", vec![2]));
    assert_eq!(listeners(&store, 1, "news"), vec![7]);
}

#[test]
fn other_commands_change_no_topic() {
    let mut store = TopicStore::new();
    store.apply(&update(1, "news", vec![vec![1]]));
    store.apply(&listen(1, 7, "news"));
    store.apply(&Command::Login(Login::new(Token::new(vec![1]))));
    store.apply(&Command::CreateRoom {
        room_name: RoomName::new("news"),
    });
    store.apply(&Command::CreatePublicRoom {
        room_name: RoomName::new("news"),
    });
    store.apply(&Command::EntranceCommand(EntranceCommand::new(Bytes::new(vec![1]))));
    store.apply(&Command::Unknown);
    assert_eq!(contents(&store, 1, "news"), vec![vec![1u8]]);
    assert_eq!(listeners(&store, 1, "news"), vec![7]);
}

#[test]
fn apply_all_applies_in_the_order_of_the_buffer() {
    let mut commands = Commands::new();
    commands.push(update(1, "news", vec![vec![1], vec![2]]));
    commands.push(push(1, "news", vec![3]));
    commands.push(push(1, "chat", vec![9]));
    commands.push(update(1, "news", vec![vec![4]]));
    commands.push(push(1, "news", vec![5]));
    let mut store = TopicStore::new();
    store.apply_all(&commands);
    assert_eq!(contents(&store, 1, "news"), vec![vec![4u8], vec![5]]);
    assert_eq!(contents(&store, 1, "chat"), vec![vec![9u8]]);
    assert_eq!(commands.len(), 5);
}

#[test]
fn apply_all_of_an_empty_buffer_changes_nothing() {
    let mut store = TopicStore::new();
    store.apply(&push(1, "news", vec![1]));
    store.apply_all(&Commands::new());
    assert_eq!(contents(&store, 1, "news"), vec![vec![1u8]]);
}

#[test]
fn drain_applies_and_then_clears() {
    let mut commands = Commands::new();
    commands.push(update(1, "news", vec![vec![1]]));
    commands.push(push(1, "news", vec![2]));
    let mut store = TopicStore::new();
    store.drain(&mut commands);
    assert!(commands.is_empty());
    assert_eq!(contents(&store, 1, "news"), vec![vec![1u8], vec![2]]);
    commands.push(push(1, "news", vec![3]));
    store.drain(&mut commands);
    assert!(commands.is_empty());
    assert_eq!(contents(&store, 1, "news"), vec![vec![1u8], vec![2], vec![3]]);
    store.drain(&mut commands);
    assert_eq!(contents(&store, 1, "news"), vec![vec![1u8], vec![2], vec![3]]);
}

#[test]
fn decoded_commands_apply_like_those_encoded() {
    let encoded = vec![
        update(1, "news", vec![vec![1], vec![2]]),
        push(1, "news", vec![3]),
        listen(1, 7, "news"),
    ];
    let mut direct = TopicStore::new();
    let mut decoded = TopicStore::new();
    for command in &encoded {
        direct.apply(command);
        decoded.apply(&Command::decode(&command.encode()).unwrap());
    }
    assert_eq!(contents(&decoded, 1, "news"), contents(&direct, 1, "news"));
    assert_eq!(listeners(&decoded, 1, "news"), listeners(&direct, 1, "news"));
    assert_eq!(contents(&decoded, 1, "news"), vec![vec![1u8], vec![2], vec![3]]);
}
