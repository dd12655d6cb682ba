//! The requests that a session can send.
//!
//! A `Command` is plain data: building one cannot fail, and two commands are
//! equal when they are the same variant with equal fields. The model of a
//! command is `CommandView`, which holds the same fields as sequences.
//!
//! `Login` carries a credential. Its text for logs and traces is a fixed
//! string that shows a mask in place of the token, so no part of the token,
//! not even its length, can be read off it.

use crate::primitives::{Bytes, RoomId, RoomLocalUserId, RoomName, Token, Topic};
use vstd::prelude::*;
use vstd::std_specs::cmp::PartialEqSpecImpl;
use vstd::string::StringExecFns;

verus! {

/// What stands in place of a token in text meant for people.
pub const TOKEN_MASK: &'static str = "****";

/// The request to authenticate a session.
pub struct Login {
    pub token: Token,
}

/// A command of the session-establishment protocol. This crate carries it as
/// an opaque payload and neither reads nor checks it.
#[derive(Debug)]
pub struct EntranceCommand {
    pub payload: Bytes,
}

/// Who can find a room.
#[derive(Clone, Copy, Debug, PartialEq, Eq, Structural)]
pub enum RoomVisibility {
    /// Only those who are told of the room.
    Private,
    /// Anyone who looks for rooms.
    Discoverable,
}

/// One request of a session. Code that matches on it must have a fallback
/// arm: later versions may add variants.
#[non_exhaustive]
#[derive(Debug)]
pub enum Command {
    /// Authenticate the session.
    Login(Login),
    /// Create a private room.
    CreateRoom { room_name: RoomName },
    /// Create a room that others can discover.
    CreatePublicRoom { room_name: RoomName },
    /// Hand a command to the entrance protocol.
    EntranceCommand(EntranceCommand),
    /// Replace the whole content list of a topic.
    Update { room_id: RoomId, topic: Topic, all_contents: Vec<Bytes> },
    /// Append one content item to a topic.
    Push { room_id: RoomId, topic: Topic, contents: Bytes },
    /// Subscribe a local user to a topic.
    Listen { room_id: RoomId, local_user_id: RoomLocalUserId, topic: Topic },
    /// A command whose code this build does not know.
    Unknown,
}

/// The mathematical model of a `Command`.
pub enum CommandView {
    Login { token: Seq<u8> },
    CreateRoom { room_name: Seq<char> },
    CreatePublicRoom { room_name: Seq<char> },
    EntranceCommand { payload: Seq<u8> },
    Update { room_id: RoomId, topic: Seq<char>, all_contents: Seq<Seq<u8>> },
    Push { room_id: RoomId, topic: Seq<char>, contents: Seq<u8> },
    Listen { room_id: RoomId, local_user_id: RoomLocalUserId, topic: Seq<char> },
    Unknown,
}

/// The model of the command that asks for a private room of the given name.
pub open spec fn private_room(room_name: Seq<char>) -> CommandView {
    CommandView::CreateRoom { room_name }
}

/// The model of the command that asks for a discoverable room of the given
/// name.
pub open spec fn public_room(room_name: Seq<char>) -> CommandView {
    CommandView::CreatePublicRoom { room_name }
}

/// Whether `needle` occurs in `text` as a run of adjacent characters.
pub open spec fn occurs_in(needle: Seq<char>, text: Seq<char>) -> bool {
    exists|i: int|
        0 <= i && i + needle.len() <= text.len() && #[trigger] text.subrange(
            i,
            i + needle.len(),
        ) == needle
}

/// Compares two content lists item by item.
pub fn contents_equal(a: &Vec<Bytes>, b: &Vec<Bytes>) -> (r: bool)
    ensures
        r == (a.deep_view() == b.deep_view()),
{
    if a.len() != b.len() {
        assert(a.deep_view().len() != b.deep_view().len());
        return false;
    }
    let mut i: usize = 0;
    while i < a.len()
        invariant
            a.len() == b.len(),
            i <= a.len(),
            forall|j: int| 0 <= j < i ==> a.deep_view()[j] == b.deep_view()[j],
        decreases a.len() - i,
    {
        if !(a[i] == b[i]) {
            assert(a.deep_view()[i as int] != b.deep_view()[i as int]);
            return false;
        }
        i = i + 1;
    }
    assert(a.deep_view() =~= b.deep_view());
    true
}

impl View for Login {
    type V = Seq<u8>;

    open spec fn view(&self) -> Seq<u8> {
        self.token@
    }
}

impl Login {
    pub fn new(token: Token) -> (r: Login)
        ensures
            r.token == token,
    {
        Login { token }
    }

    /// The text that stands for a login in logs and traces. It does not
    /// depend on the token.
    pub open spec fn rendering(&self) -> Seq<char> {
        "Login { token: \""@ + TOKEN_MASK@ + "\" }"@
    }

    /// Renders the login for logs and traces, with the mask in place of the
    /// token.
    pub fn debug_string(&self) -> (s: String)
        ensures
            s@ == self.rendering(),
    {
        let mut s = String::from_str("Login { token: \"");
        s.append(TOKEN_MASK);
        s.append("\" }");
        s
    }
}

/// `core::fmt::Formatter`, the sink that `{:?}` hands to `Debug::fmt`. All
/// that is said of one is `written`, the text it has been handed.
#[verifier::external_type_specification]
#[verifier::external_body]
pub struct ExFormatter<'a>(core::fmt::Formatter<'a>);

/// `core::fmt::Error`, the error of a formatter whose sink refused a write.
#[verifier::external_type_specification]
#[verifier::external_body]
pub struct ExFmtError(core::fmt::Error);

/// The text that a formatter has been handed so far.
pub uninterp spec fn written(f: core::fmt::Formatter<'_>) -> Seq<char>;

/// `core::fmt::Formatter::write_str` hands `data` to the sink of the
/// formatter. Where it returns `Ok`, the sink has taken all of `data`, behind
/// what it was handed before. Whether it returns `Ok` is up to the sink.
pub assume_specification<'a>[ core::fmt::Formatter::<'a>::write_str ](
    f: &mut core::fmt::Formatter<'a>,
    data: &str,
) -> (r: Result<(), core::fmt::Error>)
    ensures
        r is Ok ==> written(*final(f)) == written(*old(f)) + data@,
;

impl core::fmt::Debug for Login {
    /// Hands `rendering()` to the formatter, and so never the token.
    fn fmt(&self, f: &mut core::fmt::Formatter<'_>) -> (r: Result<(), core::fmt::Error>)
        ensures
            r is Ok ==> written(*final(f)) == written(*old(f)) + self.rendering(),
    {
        let text = self.debug_string();
        f.write_str(text.as_str())
    }
}

impl Clone for Login {
    fn clone(&self) -> (r: Login)
        ensures
            r@ == self@,
    {
        Login { token: self.token.clone() }
    }
}

impl PartialEqSpecImpl for Login {
    open spec fn obeys_eq_spec() -> bool {
        true
    }

    open spec fn eq_spec(&self, other: &Login) -> bool {
        self@ == other@
    }
}

impl PartialEq for Login {
    fn eq(&self, other: &Login) -> (r: bool) {
        self.token == other.token
    }
}

impl View for EntranceCommand {
    type V = Seq<u8>;

    open spec fn view(&self) -> Seq<u8> {
        self.payload@
    }
}

impl EntranceCommand {
    pub fn new(payload: Bytes) -> (r: EntranceCommand)
        ensures
            r.payload == payload,
    {
        EntranceCommand { payload }
    }
}

impl Clone for EntranceCommand {
    fn clone(&self) -> (r: EntranceCommand)
        ensures
            r@ == self@,
    {
        EntranceCommand { payload: self.payload.clone() }
    }
}

impl PartialEqSpecImpl for EntranceCommand {
    open spec fn obeys_eq_spec() -> bool {
        true
    }

    open spec fn eq_spec(&self, other: &EntranceCommand) -> bool {
        self@ == other@
    }
}

impl PartialEq for EntranceCommand {
    fn eq(&self, other: &EntranceCommand) -> (r: bool) {
        self.payload == other.payload
    }
}

impl View for Command {
    type V = CommandView;

    open spec fn view(&self) -> CommandView {
        match *self {
            Command::Login(login) => CommandView::Login { token: login@ },
            Command::CreateRoom { room_name } => CommandView::CreateRoom { room_name: room_name@ },
            Command::CreatePublicRoom { room_name } => CommandView::CreatePublicRoom {
                room_name: room_name@,
            },
            Command::EntranceCommand(entrance) => CommandView::EntranceCommand {
                payload: entrance@,
            },
            Command::Update { room_id, topic, all_contents } => CommandView::Update {
                room_id,
                topic: topic@,
                all_contents: all_contents.deep_view(),
            },
            Command::Push { room_id, topic, contents } => CommandView::Push {
                room_id,
                topic: topic@,
                contents: contents@,
            },
            Command::Listen { room_id, local_user_id, topic } => CommandView::Listen {
                room_id,
                local_user_id,
                topic: topic@,
            },
            Command::Unknown => CommandView::Unknown,
        }
    }
}

impl CommandView {
    /// Whether the command has a meaning only on a session that has logged
    /// in. `Login` and the entrance commands are what a session sends before
    /// that.
    pub open spec fn needs_login(self) -> bool {
        !(self is Login || self is EntranceCommand)
    }

    /// The visibility of the room that the command asks for, if it asks for
    /// one.
    pub open spec fn room_visibility(self) -> Option<RoomVisibility> {
        match self {
            CommandView::CreateRoom { .. } => Some(RoomVisibility::Private),
            CommandView::CreatePublicRoom { .. } => Some(RoomVisibility::Discoverable),
            _ => None,
        }
    }
}

impl Command {
    /// Whether the command has a meaning only on a session that has logged
    /// in: true of every command but `Login` and `EntranceCommand`. The
    /// command does not know whether its session has; whoever handles it
    /// checks.
    pub fn needs_login(&self) -> (r: bool)
        ensures
            r == self@.needs_login(),
    {
        match self {
            Command::Login(_) => false,
            Command::EntranceCommand(_) => false,
            _ => true,
        }
    }

    /// The visibility of the room that the command asks for: private for
    /// `CreateRoom`, discoverable for `CreatePublicRoom`, none for any other
    /// command.
    pub fn room_visibility(&self) -> (r: Option<RoomVisibility>)
        ensures
            r == self@.room_visibility(),
    {
        match self {
            Command::CreateRoom { .. } => Some(RoomVisibility::Private),
            Command::CreatePublicRoom { .. } => Some(RoomVisibility::Discoverable),
            _ => None,
        }
    }
}

impl Clone for Command {
    fn clone(&self) -> (r: Command)
        ensures
            r@ == self@,
    {
        match self {
            Command::Login(login) => Command::Login(login.clone()),
            Command::CreateRoom { room_name } => Command::CreateRoom {
                room_name: room_name.clone(),
            },
            Command::CreatePublicRoom { room_name } => Command::CreatePublicRoom {
                room_name: room_name.clone(),
            },
            Command::EntranceCommand(entrance) => Command::EntranceCommand(entrance.clone()),
            Command::Update { room_id, topic, all_contents } => {
                let copy = all_contents.clone();
                assert(copy.deep_view() =~= all_contents.deep_view());
                Command::Update { room_id: *room_id, topic: topic.clone(), all_contents: copy }
            },
            Command::Push { room_id, topic, contents } => Command::Push {
                room_id: *room_id,
                topic: topic.clone(),
                contents: contents.clone(),
            },
            Command::Listen { room_id, local_user_id, topic } => Command::Listen {
                room_id: *room_id,
                local_user_id: *local_user_id,
                topic: topic.clone(),
            },
            Command::Unknown => Command::Unknown,
        }
    }
}

impl PartialEqSpecImpl for Command {
    open spec fn obeys_eq_spec() -> bool {
        true
    }

    open spec fn eq_spec(&self, other: &Command) -> bool {
        self@ == other@
    }
}

impl PartialEq for Command {
    fn eq(&self, other: &Command) -> (r: bool) {
        match (self, other) {
            (Command::Login(a), Command::Login(b)) => a == b,
            (Command::CreateRoom { room_name: a }, Command::CreateRoom { room_name: b }) => a == b,
            (
                Command::CreatePublicRoom { room_name: a },
                Command::CreatePublicRoom { room_name: b },
            ) => a == b,
            (Command::EntranceCommand(a), Command::EntranceCommand(b)) => a == b,
            (
                Command::Update { room_id: r1, topic: t1, all_contents: c1 },
                Command::Update { room_id: r2, topic: t2, all_contents: c2 },
            ) => {
                *r1 == *r2 && t1 == t2 && contents_equal(c1, c2)
            },
            (
                Command::Push { room_id: r1, topic: t1, contents: c1 },
                Command::Push { room_id: r2, topic: t2, contents: c2 },
            ) => *r1 == *r2 && t1 == t2 && c1 == c2,
            (
                Command::Listen { room_id: r1, local_user_id: u1, topic: t1 },
                Command::Listen { room_id: r2, local_user_id: u2, topic: t2 },
            ) => *r1 == *r2 && *u1 == *u2 && t1 == t2,
            (Command::Unknown, Command::Unknown) => true,
            _ => false,
        }
    }
}

/// The text of a login is the same whatever its token is: nothing of the
/// credential, neither a part of it nor its length, reaches the text.
pub proof fn lemma_rendering_ignores_token(a: Login, b: Login)
    ensures
        a.rendering() == b.rendering(),
{
}

/// The text of a login, letter by letter.
pub proof fn lemma_rendering_text(login: Login)
    ensures
        login.rendering() == "Login { token: \"****\" }"@,
{
    reveal_strlit("Login { token: \"");
    reveal_strlit("****");
    reveal_strlit("\" }");
    reveal_strlit("Login { token: \"****\" }");
    assert(login.rendering() =~= "Login { token: \"****\" }"@);
}

/// The text of a login shows the mask, whatever its token is.
pub proof fn lemma_rendering_shows_mask(login: Login)
    ensures
        occurs_in(TOKEN_MASK@, login.rendering()),
{
    let head = "Login { token: \""@;
    let text = login.rendering();
    let start = head.len() as int;
    assert(text.subrange(start, start + TOKEN_MASK@.len()) == TOKEN_MASK@);
}

/// The bytes of a token, each read as a character.
pub open spec fn as_text(bytes: Seq<u8>) -> Seq<char> {
    bytes.map_values(|b: u8| b as char)
}

/// No run of bytes of the token shows in the text of a login. This holds of
/// every token none of whose bytes is, read as a character, one of the
/// characters of the text itself: a token that holds a `*`, say, has a run
/// that the mask shows by chance.
pub proof fn lemma_rendering_hides_token(login: Login, from: int, to: int)
    requires
        0 <= from < to <= login@.len(),
        forall|k: int|
            0 <= k < login@.len() ==> !login.rendering().contains(#[trigger] as_text(login@)[k]),
    ensures
        !occurs_in(as_text(login@).subrange(from, to), login.rendering()),
{
    let text = login.rendering();
    let run = as_text(login@).subrange(from, to);
    if occurs_in(run, text) {
        let at = choose|i: int|
            0 <= i && i + run.len() <= text.len() && #[trigger] text.subrange(i, i + run.len())
                == run;
        assert(text.subrange(at, at + run.len())[0] == run[0]);
        assert(run[0] == as_text(login@)[from]);
        assert(text[at] == as_text(login@)[from]);
        assert(text.contains(as_text(login@)[from]));
    }
}

/// A private room and a discoverable room of the same name are asked for by
/// different commands, and the two commands differ in the visibility they ask
/// for.
pub proof fn lemma_room_kinds_differ(room_name: Seq<char>)
    ensures
        private_room(room_name) != public_room(room_name),
        private_room(room_name).room_visibility() != public_room(room_name).room_visibility(),
{
}

} // verus!
