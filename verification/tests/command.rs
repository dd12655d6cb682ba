use protocol::command::TOKEN_MASK;
use protocol::{
    Bytes, Command, EntranceCommand, Login, RoomId, RoomLocalUserId, RoomName, RoomVisibility,
    Token, Topic,
};

fn login(token: Vec<u8>) -> Command {
    Command::Login(Login::new(Token::new(token)))
}

#[test]
fn debug_of_login_does_not_contain_credential() {
    let target = Command::Login(Login {
        token: vec![1, 2, 3].into(),
    });
    assert_eq!(format!("{:?}", target), r#"Login(Login { token: "****" })"#)
}

#[test]
fn debug_string_of_login_is_the_masked_text() {
    let target = Login::new(Token::new(vec![1, 2, 3]));
    assert_eq!(target.debug_string(), r#"Login { token: "****" }"#);
    assert_eq!(format!("{:?}", target), target.debug_string());
}

#[test]
fn debug_of_login_is_the_same_for_every_token() {
    let expected = r#"Login { token: "****" }"#;
    let tokens: Vec<Vec<u8>> = vec![
        vec![],
        vec![7],
        vec![b'*'],
        b"hunter2".to_vec(),
        b"Login".to_vec(),
        vec![0xff; 64],
    ];
    for token in tokens {
        let target = Login::new(Token::new(token));
        assert_eq!(format!("{:?}", target), expected);
        assert_eq!(target.debug_string(), expected);
    }
}

#[test]
fn debug_of_login_shows_the_mask_and_not_the_token() {
    let target = login(b"s3cr3t-credential".to_vec());
    let text = format!("{:?}", target);
    assert!(text.contains(TOKEN_MASK));
    assert!(!text.contains("s3cr3t"));
    assert!(!text.contains("credential"));
    assert!(!text.contains("17"));
    assert_eq!(TOKEN_MASK, "****");
}

#[test]
fn pretty_debug_of_login_does_not_contain_credential() {
    let target = login(b"s3cr3t".to_vec());
    let text = format!("{:#?}", target);
    assert!(text.contains(TOKEN_MASK));
    assert!(!text.contains("s3cr3t"));
}

#[test]
fn login_equality_goes_by_the_token() {
    assert_eq!(login(vec![1, 2, 3]), login(vec![1, 2, 3]));
    assert_ne!(login(vec![1, 2, 3]), login(vec![1, 2, 4]));
    assert_ne!(login(vec![1, 2, 3]), login(vec![1, 2]));
    assert_ne!(login(vec![]), login(vec![0]));
    assert!(Login::new(Token::new(vec![9])) == Login::new(Token::new(vec![9])));
    assert!(Login::new(Token::new(vec![9])) != Login::new(Token::new(vec![8])));
}

#[test]
fn token_is_kept_as_it_is() {
    let target = Login::new(Token::new(vec![0, 255, 42]));
    assert_eq!(target.token.as_slice(), &[0u8, 255, 42][..]);
    let from: Token = vec![1u8, 2, 3].into();
    assert!(from == Token::new(vec![1, 2, 3]));
}

#[test]
fn rooms_of_one_name_differ_by_kind() {
    let private = Command::CreateRoom {
        room_name: RoomName::new("lobby"),
    };
    let public = Command::CreatePublicRoom {
        room_name: RoomName::new("lobby"),
    };
    assert_ne!(private, public);
    assert_ne!(public, private);
    assert_eq!(private.room_visibility(), Some(RoomVisibility::Private));
    assert_eq!(public.room_visibility(), Some(RoomVisibility::Discoverable));
    assert_ne!(private.room_visibility(), public.room_visibility());
}

#[test]
fn only_room_commands_ask_for_a_room() {
    let topic = Topic::new("news");
    let others = vec![
        login(vec![1]),
        Command::EntranceCommand(EntranceCommand::new(Bytes::new(vec![1]))),
        Command::Update {
            room_id: RoomId::new(1),
            topic: topic.clone(),
            all_contents: vec![],
        },
        Command::Push {
            room_id: RoomId::new(1),
            topic: topic.clone(),
            contents: Bytes::new(vec![]),
        },
        Command::Listen {
            room_id: RoomId::new(1),
            local_user_id: RoomLocalUserId::new(2),
            topic,
        },
        Command::Unknown,
    ];
    for command in others {
        assert_eq!(command.room_visibility(), None);
    }
}

#[test]
fn every_command_but_login_and_entrance_needs_a_login() {
    let topic = Topic::new("news");
    assert!(!login(vec![1]).needs_login());
    assert!(!Command::EntranceCommand(EntranceCommand::new(Bytes::new(vec![]))).needs_login());
    let gated = vec![
        Command::CreateRoom {
            room_name: RoomName::new("a"),
        },
        Command::CreatePublicRoom {
            room_name: RoomName::new("a"),
        },
        Command::Update {
            room_id: RoomId::new(1),
            topic: topic.clone(),
            all_contents: vec![],
        },
        Command::Push {
            room_id: RoomId::new(1),
            topic: topic.clone(),
            contents: Bytes::new(vec![]),
        },
        Command::Listen {
            room_id: RoomId::new(1),
            local_user_id: RoomLocalUserId::new(2),
            topic,
        },
        Command::Unknown,
    ];
    for command in gated {
        assert!(command.needs_login());
    }
}

#[test]
fn commands_are_equal_when_variant_and_fields_are() {
    let update = |room: u64, topic: &str, items: Vec<Vec<u8>>| Command::Update {
        room_id: RoomId::new(room),
        topic: Topic::new(topic),
        all_contents: items.into_iter().map(Bytes::new).collect(),
    };
    assert_eq!(
        update(1, "t", vec![vec![1], vec![2, 3]]),
        update(1, "t", vec![vec![1], vec![2, 3]])
    );
    assert_ne!(
        update(1, "t", vec![vec![1], vec![2, 3]]),
        update(2, "t", vec![vec![1], vec![2, 3]])
    );
    assert_ne!(
        update(1, "t", vec![vec![1], vec![2, 3]]),
        update(1, "u", vec![vec![1], vec![2, 3]])
    );
    assert_ne!(
        update(1, "t", vec![vec![1], vec![2, 3]]),
        update(1, "t", vec![vec![1], vec![2, 4]])
    );
    assert_ne!(
        update(1, "t", vec![vec![1], vec![2, 3]]),
        update(1, "t", vec![vec![1]])
    );
    assert_ne!(
        update(1, "t", vec![vec![1], vec![2, 3]]),
        update(1, "t", vec![vec![2, 3], vec![1]])
    );
    let push = Command::Push {
        room_id: RoomId::new(1),
        topic: Topic::new("t"),
        contents: Bytes::new(vec![1]),
    };
    assert_ne!(update(1, "t", vec![vec![1]]), push);
    assert_eq!(Command::Unknown, Command::Unknown);
    assert_ne!(Command::Unknown, push);
    let listen = |user: u64| Command::Listen {
        room_id: RoomId::new(1),
        local_user_id: RoomLocalUserId::new(user),
        topic: Topic::new("t"),
    };
    assert_eq!(listen(4), listen(4));
    assert_ne!(listen(4), listen(5));
    let entrance = |payload: Vec<u8>| Command::EntranceCommand(EntranceCommand::new(Bytes::new(payload)));
    assert_eq!(entrance(vec![1, 2]), entrance(vec![1, 2]));
    assert_ne!(entrance(vec![1, 2]), entrance(vec![2, 1]));
}

#[test]
fn a_clone_equals_what_it_was_made_from() {
    let commands = vec![
        login(vec![1, 2, 3]),
        Command::CreateRoom {
            room_name: RoomName::new("lobby"),
        },
        Command::CreatePublicRoom {
            room_name: RoomName::new("lobby"),
        },
        Command::EntranceCommand(EntranceCommand::new(Bytes::new(vec![5, 6]))),
        Command::Update {
            room_id: RoomId::new(3),
            topic: Topic::new("news"),
            all_contents: vec![Bytes::new(vec![1]), Bytes::new(vec![])],
        },
        Command::Push {
            room_id: RoomId::new(3),
            topic: Topic::new("news"),
            contents: Bytes::new(vec![9]),
        },
        Command::Listen {
            room_id: RoomId::new(3),
            local_user_id: RoomLocalUserId::new(8),
            topic: Topic::new("news"),
        },
        Command::Unknown,
    ];
    for command in &commands {
        assert_eq!(&command.clone(), command);
    }
}

#[test]
fn debug_of_other_commands_shows_their_fields() {
    let push = Command::Push {
        room_id: RoomId::new(3),
        topic: Topic::new("news"),
        contents: Bytes::new(vec![9]),
    };
    assert_eq!(
        format!("{:?}", push),
        r#"Push { room_id: RoomId(3), topic: Topic("news"), contents: Bytes([9]) }"#
    );
    assert_eq!(format!("{:?}", Command::Unknown), "Unknown");
}
