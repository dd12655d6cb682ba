//! Identifier and payload types of the protocol.
//!
//! Each type is a thin wrapper that keeps one kind of value apart from the
//! others: a room id cannot be passed where a local user id is expected, and a
//! credential cannot be mistaken for a content payload. None of them has any
//! behaviour beyond construction, comparison and cloning.
//!
//! The wrappers around `u64` are their own mathematical model. The wrappers
//! around `String` and `Vec<u8>` are viewed as `Seq<char>` and `Seq<u8>`, and
//! `==` on them means equality of those views.

use vstd::prelude::*;
use vstd::std_specs::cmp::PartialEqSpecImpl;
use vstd::std_specs::convert::FromSpecImpl;

verus! {

/// Identity of a room. Assigned once when the room is created.
#[derive(Clone, Copy, Debug, PartialEq, Eq, Structural, PartialOrd, Ord, Hash)]
pub struct RoomId(pub u64);

/// Identity of a user within one room. The same person may hold different
/// local ids in different rooms.
#[derive(Clone, Copy, Debug, PartialEq, Eq, Structural, PartialOrd, Ord, Hash)]
pub struct RoomLocalUserId(pub u64);

/// Human-readable label of a room.
#[derive(Debug, Eq, PartialOrd, Ord, Hash)]
pub struct RoomName(pub String);

/// Name of a content channel within a room.
#[derive(Debug, Eq, PartialOrd, Ord, Hash)]
pub struct Topic(pub String);

/// A content payload. The protocol never looks inside it.
#[derive(Debug, Eq, PartialOrd, Ord, Hash)]
pub struct Bytes(pub Vec<u8>);

/// A credential. It is sent over the wire as it is, and never shown in any
/// text meant for people.
#[derive(Eq, PartialOrd, Ord, Hash)]
pub struct Token(pub Vec<u8>);

impl RoomId {
    pub fn new(id: u64) -> (r: RoomId)
        ensures
            r == RoomId(id),
    {
        RoomId(id)
    }

    pub fn value(&self) -> (id: u64)
        ensures
            id == self.0,
    {
        self.0
    }
}

impl FromSpecImpl<u64> for RoomId {
    open spec fn obeys_from_spec() -> bool {
        true
    }

    open spec fn from_spec(id: u64) -> RoomId {
        RoomId(id)
    }
}

impl From<u64> for RoomId {
    fn from(id: u64) -> (r: RoomId) {
        RoomId(id)
    }
}

impl RoomLocalUserId {
    pub fn new(id: u64) -> (r: RoomLocalUserId)
        ensures
            r == RoomLocalUserId(id),
    {
        RoomLocalUserId(id)
    }

    pub fn value(&self) -> (id: u64)
        ensures
            id == self.0,
    {
        self.0
    }
}

impl FromSpecImpl<u64> for RoomLocalUserId {
    open spec fn obeys_from_spec() -> bool {
        true
    }

    open spec fn from_spec(id: u64) -> RoomLocalUserId {
        RoomLocalUserId(id)
    }
}

impl From<u64> for RoomLocalUserId {
    fn from(id: u64) -> (r: RoomLocalUserId) {
        RoomLocalUserId(id)
    }
}

impl View for RoomName {
    type V = Seq<char>;

    open spec fn view(&self) -> Seq<char> {
        self.0@
    }
}

impl RoomName {
    pub fn new(name: &str) -> (r: RoomName)
        ensures
            r@ == name@,
    {
        RoomName(name.to_owned())
    }

    pub fn as_str(&self) -> (s: &str)
        ensures
            s@ == self@,
    {
        self.0.as_str()
    }
}

impl Clone for RoomName {
    fn clone(&self) -> (r: RoomName)
        ensures
            r@ == self@,
    {
        RoomName(self.0.clone())
    }
}

impl PartialEqSpecImpl for RoomName {
    open spec fn obeys_eq_spec() -> bool {
        true
    }

    open spec fn eq_spec(&self, other: &RoomName) -> bool {
        self@ == other@
    }
}

impl PartialEq for RoomName {
    fn eq(&self, other: &RoomName) -> (r: bool) {
        self.0 == other.0
    }
}

impl FromSpecImpl<String> for RoomName {
    open spec fn obeys_from_spec() -> bool {
        true
    }

    open spec fn from_spec(name: String) -> RoomName {
        RoomName(name)
    }
}

impl From<String> for RoomName {
    fn from(name: String) -> (r: RoomName) {
        RoomName(name)
    }
}

impl View for Topic {
    type V = Seq<char>;

    open spec fn view(&self) -> Seq<char> {
        self.0@
    }
}

impl Topic {
    pub fn new(name: &str) -> (r: Topic)
        ensures
            r@ == name@,
    {
        Topic(name.to_owned())
    }

    pub fn as_str(&self) -> (s: &str)
        ensures
            s@ == self@,
    {
        self.0.as_str()
    }
}

impl Clone for Topic {
    fn clone(&self) -> (r: Topic)
        ensures
            r@ == self@,
    {
        Topic(self.0.clone())
    }
}

impl PartialEqSpecImpl for Topic {
    open spec fn obeys_eq_spec() -> bool {
        true
    }

    open spec fn eq_spec(&self, other: &Topic) -> bool {
        self@ == other@
    }
}

impl PartialEq for Topic {
    fn eq(&self, other: &Topic) -> (r: bool) {
        self.0 == other.0
    }
}

impl FromSpecImpl<String> for Topic {
    open spec fn obeys_from_spec() -> bool {
        true
    }

    open spec fn from_spec(name: String) -> Topic {
        Topic(name)
    }
}

impl From<String> for Topic {
    fn from(name: String) -> (r: Topic) {
        Topic(name)
    }
}

impl View for Bytes {
    type V = Seq<u8>;

    open spec fn view(&self) -> Seq<u8> {
        self.0@
    }
}

impl DeepView for Bytes {
    type V = Seq<u8>;

    open spec fn deep_view(&self) -> Seq<u8> {
        self.0@
    }
}

impl Bytes {
    pub fn new(bytes: Vec<u8>) -> (r: Bytes)
        ensures
            r@ == bytes@,
    {
        Bytes(bytes)
    }

    pub fn as_slice(&self) -> (s: &[u8])
        ensures
            s@ == self@,
    {
        self.0.as_slice()
    }
}

impl Clone for Bytes {
    fn clone(&self) -> (r: Bytes)
        ensures
            r@ == self@,
    {
        Bytes(self.0.clone())
    }
}

impl PartialEqSpecImpl for Bytes {
    open spec fn obeys_eq_spec() -> bool {
        true
    }

    open spec fn eq_spec(&self, other: &Bytes) -> bool {
        self@ == other@
    }
}

impl PartialEq for Bytes {
    fn eq(&self, other: &Bytes) -> (r: bool) {
        let r = self.0 == other.0;
        assert(r == (self.0@ =~= other.0@));
        r
    }
}

impl FromSpecImpl<Vec<u8>> for Bytes {
    open spec fn obeys_from_spec() -> bool {
        true
    }

    open spec fn from_spec(bytes: Vec<u8>) -> Bytes {
        Bytes(bytes)
    }
}

impl From<Vec<u8>> for Bytes {
    fn from(bytes: Vec<u8>) -> (r: Bytes) {
        Bytes(bytes)
    }
}

impl View for Token {
    type V = Seq<u8>;

    open spec fn view(&self) -> Seq<u8> {
        self.0@
    }
}

impl Token {
    pub fn new(bytes: Vec<u8>) -> (r: Token)
        ensures
            r@ == bytes@,
    {
        Token(bytes)
    }

    /// The raw credential, for the transport. Not for logs.
    pub fn as_slice(&self) -> (s: &[u8])
        ensures
            s@ == self@,
    {
        self.0.as_slice()
    }
}

impl Clone for Token {
    fn clone(&self) -> (r: Token)
        ensures
            r@ == self@,
    {
        Token(self.0.clone())
    }
}

impl PartialEqSpecImpl for Token {
    open spec fn obeys_eq_spec() -> bool {
        true
    }

    open spec fn eq_spec(&self, other: &Token) -> bool {
        self@ == other@
    }
}

impl PartialEq for Token {
    fn eq(&self, other: &Token) -> (r: bool) {
        let r = self.0 == other.0;
        assert(r == (self.0@ =~= other.0@));
        r
    }
}

impl FromSpecImpl<Vec<u8>> for Token {
    open spec fn obeys_from_spec() -> bool {
        true
    }

    open spec fn from_spec(bytes: Vec<u8>) -> Token {
        Token(bytes)
    }
}

impl From<Vec<u8>> for Token {
    fn from(bytes: Vec<u8>) -> (r: Token) {
        Token(bytes)
    }
}

} // verus!
