//! How a command becomes a record and a record a command.
//!
//! The code of a record tells the kind of the command, so a reader knows the
//! kind before it looks at any field:
//!
//! | code               | fields                               |
//! |--------------------|--------------------------------------|
//! | `Login`            | `token`                              |
//! | `CreateRoom`       | `room_name`                          |
//! | `CreatePublicRoom` | `room_name`                          |
//! | `EntranceCommand`  | `payload`                            |
//! | `Update`           | `room_id`, `topic`, `all_contents`   |
//! | `Push`             | `room_id`, `topic`, `contents`       |
//! | `Listen`           | `room_id`, `local_user_id`, `topic`  |
//!
//! A record with any other code decodes to `Command::Unknown`, whatever its
//! fields are: a peer that speaks a later version of the protocol is
//! tolerated, not refused. A record with one of the codes above must hold each
//! field of its kind with a value of the right shape, or decoding fails.
//! Fields that the kind does not have are ignored.
//!
//! The token of a `Login` goes into the record as it is. The mask is for text
//! that people read, never for the wire.

use crate::command::{Command, CommandView, EntranceCommand, Login};
use crate::primitives::{Bytes, RoomId, RoomLocalUserId, RoomName, Token, Topic};
use crate::record::{lookup, text_equal, FieldView, Record, RecordView, Value, ValueView};
use vstd::prelude::*;

verus! {

pub const CODE_LOGIN: &'static str = "Login";

pub const CODE_CREATE_ROOM: &'static str = "CreateRoom";

pub const CODE_CREATE_PUBLIC_ROOM: &'static str = "CreatePublicRoom";

pub const CODE_ENTRANCE_COMMAND: &'static str = "EntranceCommand";

pub const CODE_UPDATE: &'static str = "Update";

pub const CODE_PUSH: &'static str = "Push";

pub const CODE_LISTEN: &'static str = "Listen";

pub const CODE_UNKNOWN: &'static str = "Unknown";

/// The fields that commands have on the wire.
#[derive(Clone, Copy, Debug, PartialEq, Eq, Structural)]
pub enum FieldKey {
    Token,
    RoomName,
    Payload,
    RoomId,
    LocalUserId,
    Topic,
    AllContents,
    Contents,
}

/// Why a record of a known code is not a command.
#[derive(Clone, Copy, Debug, PartialEq, Eq, Structural)]
pub enum DecodeError {
    /// The record has no field of this name.
    MissingField(FieldKey),
    /// The first field of this name holds a value of the wrong shape.
    InvalidField(FieldKey),
}

impl FieldKey {
    /// The name of the field in a record.
    pub open spec fn name(self) -> Seq<char> {
        match self {
            FieldKey::Token => "token"@,
            FieldKey::RoomName => "room_name"@,
            FieldKey::Payload => "payload"@,
            FieldKey::RoomId => "room_id"@,
            FieldKey::LocalUserId => "local_user_id"@,
            FieldKey::Topic => "topic"@,
            FieldKey::AllContents => "all_contents"@,
            FieldKey::Contents => "contents"@,
        }
    }

    /// The name of the field in a record.
    pub fn wire_name(&self) -> (r: &'static str)
        ensures
            r@ == self.name(),
    {
        match self {
            FieldKey::Token => "token",
            FieldKey::RoomName => "room_name",
            FieldKey::Payload => "payload",
            FieldKey::RoomId => "room_id",
            FieldKey::LocalUserId => "local_user_id",
            FieldKey::Topic => "topic",
            FieldKey::AllContents => "all_contents",
            FieldKey::Contents => "contents",
        }
    }
}

/// Whether `code` is the code of a kind of command that this build knows.
pub open spec fn is_known_code(code: Seq<char>) -> bool {
    ||| code == CODE_LOGIN@
    ||| code == CODE_CREATE_ROOM@
    ||| code == CODE_CREATE_PUBLIC_ROOM@
    ||| code == CODE_ENTRANCE_COMMAND@
    ||| code == CODE_UPDATE@
    ||| code == CODE_PUSH@
    ||| code == CODE_LISTEN@
}

/// The field `key` of a record, for the model of a record.
pub open spec fn named(key: FieldKey, value: ValueView) -> FieldView {
    FieldView { name: key.name(), value }
}

/// The number that the field `key` holds.
pub open spec fn number_field(fields: Seq<FieldView>, key: FieldKey) -> Result<u64, DecodeError> {
    match lookup(fields, key.name()) {
        None => Err(DecodeError::MissingField(key)),
        Some(ValueView::Number(n)) => Ok(n),
        Some(_) => Err(DecodeError::InvalidField(key)),
    }
}

/// The text that the field `key` holds.
pub open spec fn text_field(fields: Seq<FieldView>, key: FieldKey) -> Result<
    Seq<char>,
    DecodeError,
> {
    match lookup(fields, key.name()) {
        None => Err(DecodeError::MissingField(key)),
        Some(ValueView::Text(s)) => Ok(s),
        Some(_) => Err(DecodeError::InvalidField(key)),
    }
}

/// The bytes that the field `key` holds.
pub open spec fn bytes_field(fields: Seq<FieldView>, key: FieldKey) -> Result<
    Seq<u8>,
    DecodeError,
> {
    match lookup(fields, key.name()) {
        None => Err(DecodeError::MissingField(key)),
        Some(ValueView::Bytes(b)) => Ok(b),
        Some(_) => Err(DecodeError::InvalidField(key)),
    }
}

/// The list of byte strings that the field `key` holds.
pub open spec fn list_field(fields: Seq<FieldView>, key: FieldKey) -> Result<
    Seq<Seq<u8>>,
    DecodeError,
> {
    match lookup(fields, key.name()) {
        None => Err(DecodeError::MissingField(key)),
        Some(ValueView::List(l)) => Ok(l),
        Some(_) => Err(DecodeError::InvalidField(key)),
    }
}

/// The record of a command.
pub open spec fn encode_spec(command: CommandView) -> RecordView {
    match command {
        CommandView::Login { token } => RecordView {
            code: CODE_LOGIN@,
            fields: seq![named(FieldKey::Token, ValueView::Bytes(token))],
        },
        CommandView::CreateRoom { room_name } => RecordView {
            code: CODE_CREATE_ROOM@,
            fields: seq![named(FieldKey::RoomName, ValueView::Text(room_name))],
        },
        CommandView::CreatePublicRoom { room_name } => RecordView {
            code: CODE_CREATE_PUBLIC_ROOM@,
            fields: seq![named(FieldKey::RoomName, ValueView::Text(room_name))],
        },
        CommandView::EntranceCommand { payload } => RecordView {
            code: CODE_ENTRANCE_COMMAND@,
            fields: seq![named(FieldKey::Payload, ValueView::Bytes(payload))],
        },
        CommandView::Update { room_id, topic, all_contents } => RecordView {
            code: CODE_UPDATE@,
            fields: seq![
                named(FieldKey::RoomId, ValueView::Number(room_id.0)),
                named(FieldKey::Topic, ValueView::Text(topic)),
                named(FieldKey::AllContents, ValueView::List(all_contents)),
            ],
        },
        CommandView::Push { room_id, topic, contents } => RecordView {
            code: CODE_PUSH@,
            fields: seq![
                named(FieldKey::RoomId, ValueView::Number(room_id.0)),
                named(FieldKey::Topic, ValueView::Text(topic)),
                named(FieldKey::Contents, ValueView::Bytes(contents)),
            ],
        },
        CommandView::Listen { room_id, local_user_id, topic } => RecordView {
            code: CODE_LISTEN@,
            fields: seq![
                named(FieldKey::RoomId, ValueView::Number(room_id.0)),
                named(FieldKey::LocalUserId, ValueView::Number(local_user_id.0)),
                named(FieldKey::Topic, ValueView::Text(topic)),
            ],
        },
        CommandView::Unknown => RecordView { code: CODE_UNKNOWN@, fields: seq![] },
    }
}

/// The command of a `Login` record.
pub open spec fn decode_login(fields: Seq<FieldView>) -> Result<CommandView, DecodeError> {
    match bytes_field(fields, FieldKey::Token) {
        Err(e) => Err(e),
        Ok(token) => Ok(CommandView::Login { token }),
    }
}

/// The command of a `CreateRoom` record.
pub open spec fn decode_create_room(fields: Seq<FieldView>) -> Result<CommandView, DecodeError> {
    match text_field(fields, FieldKey::RoomName) {
        Err(e) => Err(e),
        Ok(room_name) => Ok(CommandView::CreateRoom { room_name }),
    }
}

/// The command of a `CreatePublicRoom` record.
pub open spec fn decode_create_public_room(fields: Seq<FieldView>) -> Result<
    CommandView,
    DecodeError,
> {
    match text_field(fields, FieldKey::RoomName) {
        Err(e) => Err(e),
        Ok(room_name) => Ok(CommandView::CreatePublicRoom { room_name }),
    }
}

/// The command of an `EntranceCommand` record.
pub open spec fn decode_entrance(fields: Seq<FieldView>) -> Result<CommandView, DecodeError> {
    match bytes_field(fields, FieldKey::Payload) {
        Err(e) => Err(e),
        Ok(payload) => Ok(CommandView::EntranceCommand { payload }),
    }
}

/// The command of an `Update` record. The fields are read in the order room
/// id, topic, contents, and the first that fails gives the error.
pub open spec fn decode_update(fields: Seq<FieldView>) -> Result<CommandView, DecodeError> {
    match number_field(fields, FieldKey::RoomId) {
        Err(e) => Err(e),
        Ok(room) => match text_field(fields, FieldKey::Topic) {
            Err(e) => Err(e),
            Ok(topic) => match list_field(fields, FieldKey::AllContents) {
                Err(e) => Err(e),
                Ok(all_contents) => Ok(
                    CommandView::Update { room_id: RoomId(room), topic, all_contents },
                ),
            },
        },
    }
}

/// The command of a `Push` record. The fields are read in the order room id,
/// topic, contents, and the first that fails gives the error.
pub open spec fn decode_push(fields: Seq<FieldView>) -> Result<CommandView, DecodeError> {
    match number_field(fields, FieldKey::RoomId) {
        Err(e) => Err(e),
        Ok(room) => match text_field(fields, FieldKey::Topic) {
            Err(e) => Err(e),
            Ok(topic) => match bytes_field(fields, FieldKey::Contents) {
                Err(e) => Err(e),
                Ok(contents) => Ok(CommandView::Push { room_id: RoomId(room), topic, contents }),
            },
        },
    }
}

/// The command of a `Listen` record. The fields are read in the order room
/// id, local user id, topic, and the first that fails gives the error.
pub open spec fn decode_listen(fields: Seq<FieldView>) -> Result<CommandView, DecodeError> {
    match number_field(fields, FieldKey::RoomId) {
        Err(e) => Err(e),
        Ok(room) => match number_field(fields, FieldKey::LocalUserId) {
            Err(e) => Err(e),
            Ok(user) => match text_field(fields, FieldKey::Topic) {
                Err(e) => Err(e),
                Ok(topic) => Ok(
                    CommandView::Listen {
                        room_id: RoomId(room),
                        local_user_id: RoomLocalUserId(user),
                        topic,
                    },
                ),
            },
        },
    }
}

/// The command of a record, or the reason why it is none.
pub open spec fn decode_spec(record: RecordView) -> Result<CommandView, DecodeError> {
    if record.code == CODE_LOGIN@ {
        decode_login(record.fields)
    } else if record.code == CODE_CREATE_ROOM@ {
        decode_create_room(record.fields)
    } else if record.code == CODE_CREATE_PUBLIC_ROOM@ {
        decode_create_public_room(record.fields)
    } else if record.code == CODE_ENTRANCE_COMMAND@ {
        decode_entrance(record.fields)
    } else if record.code == CODE_UPDATE@ {
        decode_update(record.fields)
    } else if record.code == CODE_PUSH@ {
        decode_push(record.fields)
    } else if record.code == CODE_LISTEN@ {
        decode_listen(record.fields)
    } else {
        Ok(CommandView::Unknown)
    }
}

/// The model of what decoding returns.
pub open spec fn decoded_view(r: Result<Command, DecodeError>) -> Result<CommandView, DecodeError> {
    match r {
        Ok(command) => Ok(command@),
        Err(e) => Err(e),
    }
}

impl Record {
    /// Reads the number that the field `key` holds.
    pub fn number(&self, key: FieldKey) -> (r: Result<u64, DecodeError>)
        ensures
            r == number_field(self@.fields, key),
    {
        match self.get(key.wire_name()) {
            None => Err(DecodeError::MissingField(key)),
            Some(Value::Number(n)) => Ok(*n),
            Some(_) => Err(DecodeError::InvalidField(key)),
        }
    }

    /// Reads the text that the field `key` holds.
    pub fn text(&self, key: FieldKey) -> (r: Result<String, DecodeError>)
        ensures
            match r {
                Ok(s) => text_field(self@.fields, key) == Ok::<Seq<char>, DecodeError>(s@),
                Err(e) => text_field(self@.fields, key) == Err::<Seq<char>, DecodeError>(e),
            },
    {
        match self.get(key.wire_name()) {
            None => Err(DecodeError::MissingField(key)),
            Some(Value::Text(s)) => Ok(s.clone()),
            Some(_) => Err(DecodeError::InvalidField(key)),
        }
    }

    /// Reads the bytes that the field `key` holds.
    pub fn bytes(&self, key: FieldKey) -> (r: Result<Bytes, DecodeError>)
        ensures
            match r {
                Ok(b) => bytes_field(self@.fields, key) == Ok::<Seq<u8>, DecodeError>(b@),
                Err(e) => bytes_field(self@.fields, key) == Err::<Seq<u8>, DecodeError>(e),
            },
    {
        match self.get(key.wire_name()) {
            None => Err(DecodeError::MissingField(key)),
            Some(Value::Bytes(b)) => Ok(b.clone()),
            Some(_) => Err(DecodeError::InvalidField(key)),
        }
    }

    /// Reads the list of byte strings that the field `key` holds.
    pub fn list(&self, key: FieldKey) -> (r: Result<Vec<Bytes>, DecodeError>)
        ensures
            match r {
                Ok(l) => list_field(self@.fields, key) == Ok::<Seq<Seq<u8>>, DecodeError>(
                    l.deep_view(),
                ),
                Err(e) => list_field(self@.fields, key) == Err::<Seq<Seq<u8>>, DecodeError>(e),
            },
    {
        match self.get(key.wire_name()) {
            None => Err(DecodeError::MissingField(key)),
            Some(Value::List(l)) => {
                let copy = l.clone();
                assert(copy.deep_view() =~= l.deep_view());
                Ok(copy)
            },
            Some(_) => Err(DecodeError::InvalidField(key)),
        }
    }
}

impl Command {
    /// The code of the command's kind.
    pub fn code(&self) -> (r: &'static str)
        ensures
            r@ == encode_spec(self@).code,
    {
        match self {
            Command::Login(_) => CODE_LOGIN,
            Command::CreateRoom { .. } => CODE_CREATE_ROOM,
            Command::CreatePublicRoom { .. } => CODE_CREATE_PUBLIC_ROOM,
            Command::EntranceCommand(_) => CODE_ENTRANCE_COMMAND,
            Command::Update { .. } => CODE_UPDATE,
            Command::Push { .. } => CODE_PUSH,
            Command::Listen { .. } => CODE_LISTEN,
            Command::Unknown => CODE_UNKNOWN,
        }
    }

    /// Writes the command as a record: its code, then its fields.
    pub fn encode(&self) -> (r: Record)
        ensures
            r@ == encode_spec(self@),
    {
        let record = Record::new(self.code());
        let r = match self {
            Command::Login(login) => record.with_field(
                FieldKey::Token.wire_name(),
                Value::Bytes(Bytes(login.token.0.clone())),
            ),
            Command::CreateRoom { room_name } => record.with_field(
                FieldKey::RoomName.wire_name(),
                Value::Text(room_name.0.clone()),
            ),
            Command::CreatePublicRoom { room_name } => record.with_field(
                FieldKey::RoomName.wire_name(),
                Value::Text(room_name.0.clone()),
            ),
            Command::EntranceCommand(entrance) => record.with_field(
                FieldKey::Payload.wire_name(),
                Value::Bytes(entrance.payload.clone()),
            ),
            Command::Update { room_id, topic, all_contents } => {
                let list = all_contents.clone();
                assert(list.deep_view() =~= all_contents.deep_view());
                record.with_field(FieldKey::RoomId.wire_name(), Value::Number(room_id.0)).with_field(
                    FieldKey::Topic.wire_name(),
                    Value::Text(topic.0.clone()),
                ).with_field(FieldKey::AllContents.wire_name(), Value::List(list))
            },
            Command::Push { room_id, topic, contents } => record.with_field(
                FieldKey::RoomId.wire_name(),
                Value::Number(room_id.0),
            ).with_field(FieldKey::Topic.wire_name(), Value::Text(topic.0.clone())).with_field(
                FieldKey::Contents.wire_name(),
                Value::Bytes(contents.clone()),
            ),
            Command::Listen { room_id, local_user_id, topic } => record.with_field(
                FieldKey::RoomId.wire_name(),
                Value::Number(room_id.0),
            ).with_field(
                FieldKey::LocalUserId.wire_name(),
                Value::Number(local_user_id.0),
            ).with_field(FieldKey::Topic.wire_name(), Value::Text(topic.0.clone())),
            Command::Unknown => record,
        };
        assert(r@.fields =~= encode_spec(self@).fields);
        r
    }

    /// Reads a command from a record. A record whose code is not known gives
    /// `Unknown`; a record of a known code gives its command, or the first
    /// field that is missing or ill-shaped.
    pub fn decode(record: &Record) -> (r: Result<Command, DecodeError>)
        ensures
            decoded_view(r) == decode_spec(record@),
    {
        let code = record.code.as_str();
        if text_equal(code, CODE_LOGIN) {
            match record.bytes(FieldKey::Token) {
                Err(e) => Err(e),
                Ok(token) => Ok(Command::Login(Login { token: Token(token.0) })),
            }
        } else if text_equal(code, CODE_CREATE_ROOM) {
            match record.text(FieldKey::RoomName) {
                Err(e) => Err(e),
                Ok(name) => Ok(Command::CreateRoom { room_name: RoomName(name) }),
            }
        } else if text_equal(code, CODE_CREATE_PUBLIC_ROOM) {
            match record.text(FieldKey::RoomName) {
                Err(e) => Err(e),
                Ok(name) => Ok(Command::CreatePublicRoom { room_name: RoomName(name) }),
            }
        } else if text_equal(code, CODE_ENTRANCE_COMMAND) {
            match record.bytes(FieldKey::Payload) {
                Err(e) => Err(e),
                Ok(payload) => Ok(Command::EntranceCommand(EntranceCommand { payload })),
            }
        } else if text_equal(code, CODE_UPDATE) {
            let room = match record.number(FieldKey::RoomId) {
                Err(e) => { return Err(e); },
                Ok(room) => room,
            };
            let topic = match record.text(FieldKey::Topic) {
                Err(e) => { return Err(e); },
                Ok(topic) => topic,
            };
            match record.list(FieldKey::AllContents) {
                Err(e) => Err(e),
                Ok(all_contents) => Ok(
                    Command::Update { room_id: RoomId(room), topic: Topic(topic), all_contents },
                ),
            }
        } else if text_equal(code, CODE_PUSH) {
            let room = match record.number(FieldKey::RoomId) {
                Err(e) => { return Err(e); },
                Ok(room) => room,
            };
            let topic = match record.text(FieldKey::Topic) {
                Err(e) => { return Err(e); },
                Ok(topic) => topic,
            };
            match record.bytes(FieldKey::Contents) {
                Err(e) => Err(e),
                Ok(contents) => Ok(
                    Command::Push { room_id: RoomId(room), topic: Topic(topic), contents },
                ),
            }
        } else if text_equal(code, CODE_LISTEN) {
            let room = match record.number(FieldKey::RoomId) {
                Err(e) => { return Err(e); },
                Ok(room) => room,
            };
            let user = match record.number(FieldKey::LocalUserId) {
                Err(e) => { return Err(e); },
                Ok(user) => user,
            };
            match record.text(FieldKey::Topic) {
                Err(e) => Err(e),
                Ok(topic) => Ok(
                    Command::Listen {
                        room_id: RoomId(room),
                        local_user_id: RoomLocalUserId(user),
                        topic: Topic(topic),
                    },
                ),
            }
        } else {
            Ok(Command::Unknown)
        }
    }
}

/// The eight codes are eight different texts.
pub proof fn lemma_codes_differ()
    ensures
        CODE_LOGIN@ != CODE_CREATE_ROOM@,
        CODE_LOGIN@ != CODE_CREATE_PUBLIC_ROOM@,
        CODE_LOGIN@ != CODE_ENTRANCE_COMMAND@,
        CODE_LOGIN@ != CODE_UPDATE@,
        CODE_LOGIN@ != CODE_PUSH@,
        CODE_LOGIN@ != CODE_LISTEN@,
        CODE_CREATE_ROOM@ != CODE_CREATE_PUBLIC_ROOM@,
        CODE_CREATE_ROOM@ != CODE_ENTRANCE_COMMAND@,
        CODE_CREATE_ROOM@ != CODE_UPDATE@,
        CODE_CREATE_ROOM@ != CODE_PUSH@,
        CODE_CREATE_ROOM@ != CODE_LISTEN@,
        CODE_CREATE_PUBLIC_ROOM@ != CODE_ENTRANCE_COMMAND@,
        CODE_CREATE_PUBLIC_ROOM@ != CODE_UPDATE@,
        CODE_CREATE_PUBLIC_ROOM@ != CODE_PUSH@,
        CODE_CREATE_PUBLIC_ROOM@ != CODE_LISTEN@,
        CODE_ENTRANCE_COMMAND@ != CODE_UPDATE@,
        CODE_ENTRANCE_COMMAND@ != CODE_PUSH@,
        CODE_ENTRANCE_COMMAND@ != CODE_LISTEN@,
        CODE_UPDATE@ != CODE_PUSH@,
        CODE_UPDATE@ != CODE_LISTEN@,
        CODE_PUSH@ != CODE_LISTEN@,
        !is_known_code(CODE_UNKNOWN@),
{
    reveal_strlit("Login");
    reveal_strlit("CreateRoom");
    reveal_strlit("CreatePublicRoom");
    reveal_strlit("EntranceCommand");
    reveal_strlit("Update");
    reveal_strlit("Push");
    reveal_strlit("Listen");
    reveal_strlit("Unknown");
    assert(CODE_LOGIN@.len() == 5);
    assert(CODE_CREATE_ROOM@.len() == 10);
    assert(CODE_CREATE_PUBLIC_ROOM@.len() == 16);
    assert(CODE_ENTRANCE_COMMAND@.len() == 15);
    assert(CODE_UPDATE@.len() == 6 && CODE_UPDATE@[0] == 'U');
    assert(CODE_PUSH@.len() == 4);
    assert(CODE_LISTEN@.len() == 6 && CODE_LISTEN@[0] == 'L');
    assert(CODE_UNKNOWN@.len() == 7);
}

/// The names of the fields that one kind of command has are different texts.
pub proof fn lemma_field_names_differ()
    ensures
        FieldKey::RoomId.name() != FieldKey::Topic.name(),
        FieldKey::RoomId.name() != FieldKey::AllContents.name(),
        FieldKey::RoomId.name() != FieldKey::Contents.name(),
        FieldKey::RoomId.name() != FieldKey::LocalUserId.name(),
        FieldKey::Topic.name() != FieldKey::AllContents.name(),
        FieldKey::Topic.name() != FieldKey::Contents.name(),
        FieldKey::Topic.name() != FieldKey::LocalUserId.name(),
{
    reveal_strlit("room_id");
    reveal_strlit("topic");
    reveal_strlit("all_contents");
    reveal_strlit("contents");
    reveal_strlit("local_user_id");
    assert(FieldKey::RoomId.name().len() == 7);
    assert(FieldKey::Topic.name().len() == 5);
    assert(FieldKey::AllContents.name().len() == 12);
    assert(FieldKey::Contents.name().len() == 8);
    assert(FieldKey::LocalUserId.name().len() == 13);
}

/// Decoding the record of a command gives the command back, whatever the
/// command is.
pub proof fn lemma_decode_inverts_encode(command: CommandView)
    ensures
        decode_spec(encode_spec(command)) == Ok::<CommandView, DecodeError>(command),
{
    lemma_codes_differ();
    lemma_field_names_differ();
    reveal_with_fuel(lookup, 4);
    let fields = encode_spec(command).fields;
    match command {
        CommandView::Update { room_id, topic, all_contents } => {
            assert(fields.drop_first().drop_first()[0] == fields[2]);
        },
        CommandView::Push { room_id, topic, contents } => {
            assert(fields.drop_first().drop_first()[0] == fields[2]);
        },
        CommandView::Listen { room_id, local_user_id, topic } => {
            assert(fields.drop_first().drop_first()[0] == fields[2]);
        },
        _ => {},
    }
}

/// A record whose code is not known decodes to `Unknown`, whatever its fields
/// are: decoding it never fails.
pub proof fn lemma_unknown_code_decodes(record: RecordView)
    requires
        !is_known_code(record.code),
    ensures
        decode_spec(record) == Ok::<CommandView, DecodeError>(CommandView::Unknown),
{
}

/// Decoding fails on records of a known code only.
pub proof fn lemma_decode_error_needs_known_code(record: RecordView)
    requires
        decode_spec(record) is Err,
    ensures
        is_known_code(record.code),
{
}

} // verus!
