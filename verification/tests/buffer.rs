use protocol::{Bytes, Command, Commands, Login, RoomId, RoomName, Token, Topic};

fn c1() -> Command {
    Command::Login(Login::new(Token::new(vec![1, 2, 3])))
}

fn c2() -> Command {
    Command::CreateRoom {
        room_name: RoomName::new("lobby"),
    }
}

fn c3() -> Command {
    Command::Push {
        room_id: RoomId::new(1),
        topic: Topic::new("news"),
        contents: Bytes::new(vec![7]),
    }
}

#[test]
fn iter_yields_the_commands_in_the_order_pushed() {
    let mut commands = Commands::default();
    commands.push(c1());
    commands.push(c2());
    commands.push(c3());
    let seen: Vec<&Command> = commands.iter().collect();
    assert_eq!(seen, vec![&c1(), &c2(), &c3()]);
}

#[test]
fn clear_leaves_nothing_to_iterate() {
    let mut commands = Commands::default();
    commands.push(c1());
    commands.push(c2());
    commands.push(c3());
    commands.clear();
    assert_eq!(commands.iter().count(), 0);
    assert!(commands.is_empty());
    assert_eq!(commands.len(), 0);
}

#[test]
fn clear_and_cap_empties_whatever_the_limit() {
    for limit in [0usize, 1, 2, 32, 1000] {
        let mut commands = Commands::new();
        commands.push(c1());
        commands.push(c2());
        commands.push(c3());
        commands.clear_and_cap(limit);
        assert_eq!(commands.iter().count(), 0);
        assert!(commands.is_empty());
    }
}

#[test]
fn iter_does_not_consume() {
    let mut commands = Commands::new();
    commands.push(c1());
    commands.push(c2());
    let first: Vec<Command> = commands.iter().cloned().collect();
    let second: Vec<Command> = commands.iter().cloned().collect();
    assert_eq!(first, vec![c1(), c2()]);
    assert_eq!(second, first);
    assert_eq!(commands.len(), 2);
}

#[test]
fn a_new_buffer_is_empty() {
    assert!(Commands::new().is_empty());
    assert_eq!(Commands::default().len(), 0);
    assert_eq!(Commands::new().iter().count(), 0);
    assert_eq!(Commands::new(), Commands::default());
}

#[test]
fn push_is_not_bounded_between_clears() {
    let mut commands = Commands::new();
    for i in 0..100u64 {
        commands.push(Command::Push {
            room_id: RoomId::new(i),
            topic: Topic::new("news"),
            contents: Bytes::new(vec![]),
        });
    }
    assert_eq!(commands.len(), 100);
    let rooms: Vec<u64> = commands
        .iter()
        .map(|c| match c {
            Command::Push { room_id, .. } => room_id.value(),
            _ => unreachable!(),
        })
        .collect();
    assert_eq!(rooms, (0..100u64).collect::<Vec<u64>>());
    commands.clear();
    for _ in 0..40 {
        commands.push(c2());
    }
    assert_eq!(commands.len(), 40);
}

#[test]
fn pushes_after_a_clear_start_a_new_run() {
    let mut commands = Commands::new();
    commands.push(c1());
    commands.clear();
    commands.push(c3());
    commands.push(c2());
    let seen: Vec<&Command> = commands.iter().collect();
    assert_eq!(seen, vec![&c3(), &c2()]);
}

#[test]
fn buffers_are_equal_when_their_commands_are() {
    let mut a = Commands::new();
    let mut b = Commands::new();
    a.push(c1());
    a.push(c2());
    b.push(c1());
    assert_ne!(a, b);
    b.push(c2());
    assert_eq!(a, b);
    assert_eq!(a.clone(), a);
    b.push(c3());
    assert_ne!(a, b);
    let mut c = Commands::new();
    c.push(c2());
    c.push(c1());
    assert_ne!(a, c);
}

#[test]
fn debug_of_a_buffer_masks_the_token() {
    let mut commands = Commands::new();
    commands.push(Command::Login(Login::new(Token::new(b"s3cr3t".to_vec()))));
    let text = format!("{:?}", commands);
    assert_eq!(text, r#"Commands([Login(Login { token: "****" })])"#);
}
