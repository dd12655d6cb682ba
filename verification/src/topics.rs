//! What the commands on topics do to the content of the topics.
//!
//! A topic is named by its room and its name, and holds an ordered list of
//! content items and the local users that listen to it. A topic comes into
//! being with the first command that names it. Of the commands, three touch a
//! topic, and each touches only the topic that it names:
//!
//! - `Update` replaces the whole content list in one step;
//! - `Push` appends one item behind the items that are there;
//! - `Listen` adds a listener, if it is not one already, and leaves the
//!   content alone.
//!
//! Every other command leaves every topic as it is. Commands take effect in
//! the order in which they are applied, so a listener sees the states of a
//! topic in the order of the commands that made them.

use crate::buffer::Commands;
use crate::command::{Command, CommandView};
use crate::primitives::{Bytes, RoomId, RoomLocalUserId, Topic};
use vstd::prelude::*;
use vstd::std_specs::iter::IteratorSpec;

verus! {

/// The name of a topic: its room, and its name within the room.
pub struct TopicKey {
    pub room_id: RoomId,
    pub topic: Seq<char>,
}

/// What a topic holds: its content items, oldest first, and its listeners in
/// the order in which they subscribed, each once.
pub struct TopicView {
    pub contents: Seq<Seq<u8>>,
    pub listeners: Seq<RoomLocalUserId>,
}

/// A topic that no command has named yet.
pub open spec fn empty_topic() -> TopicView {
    TopicView { contents: Seq::empty(), listeners: Seq::empty() }
}

/// The name of the topic `topic` of the room `room_id`.
pub open spec fn topic_key(room_id: RoomId, topic: Seq<char>) -> TopicKey {
    TopicKey { room_id, topic }
}

/// What the topic `key` holds in `store`.
pub open spec fn topic_of(store: Map<TopicKey, TopicView>, key: TopicKey) -> TopicView {
    if store.contains_key(key) {
        store[key]
    } else {
        empty_topic()
    }
}

/// The listeners of a topic after `user` subscribed.
pub open spec fn with_listener(
    listeners: Seq<RoomLocalUserId>,
    user: RoomLocalUserId,
) -> Seq<RoomLocalUserId> {
    if listeners.contains(user) {
        listeners
    } else {
        listeners.push(user)
    }
}

/// The topic that a command touches, if it touches one.
pub open spec fn target(command: CommandView) -> Option<TopicKey> {
    match command {
        CommandView::Update { room_id, topic, .. } => Some(topic_key(room_id, topic)),
        CommandView::Push { room_id, topic, .. } => Some(topic_key(room_id, topic)),
        CommandView::Listen { room_id, topic, .. } => Some(topic_key(room_id, topic)),
        _ => None,
    }
}

/// What the topic that `command` touches holds after the command, given what
/// it held before.
pub open spec fn touched(before: TopicView, command: CommandView) -> TopicView {
    match command {
        CommandView::Update { all_contents, .. } => TopicView {
            contents: all_contents,
            listeners: before.listeners,
        },
        CommandView::Push { contents, .. } => TopicView {
            contents: before.contents.push(contents),
            listeners: before.listeners,
        },
        CommandView::Listen { local_user_id, .. } => TopicView {
            contents: before.contents,
            listeners: with_listener(before.listeners, local_user_id),
        },
        _ => before,
    }
}

/// The topics after one command.
pub open spec fn apply_spec(
    store: Map<TopicKey, TopicView>,
    command: CommandView,
) -> Map<TopicKey, TopicView> {
    match target(command) {
        Some(key) => store.insert(key, touched(topic_of(store, key), command)),
        None => store,
    }
}

/// The topics after a run of commands, applied from the first to the last.
pub open spec fn apply_all_spec(
    store: Map<TopicKey, TopicView>,
    commands: Seq<CommandView>,
) -> Map<TopicKey, TopicView>
    decreases commands.len(),
{
    if commands.len() == 0 {
        store
    } else {
        apply_spec(apply_all_spec(store, commands.drop_last()), commands.last())
    }
}

/// The model of an `Update`.
pub open spec fn update_of(
    room_id: RoomId,
    topic: Seq<char>,
    all_contents: Seq<Seq<u8>>,
) -> CommandView {
    CommandView::Update { room_id, topic, all_contents }
}

/// The model of a `Push`.
pub open spec fn push_of(room_id: RoomId, topic: Seq<char>, contents: Seq<u8>) -> CommandView {
    CommandView::Push { room_id, topic, contents }
}

/// The model of a `Listen`.
pub open spec fn listen_of(
    room_id: RoomId,
    local_user_id: RoomLocalUserId,
    topic: Seq<char>,
) -> CommandView {
    CommandView::Listen { room_id, local_user_id, topic }
}

/// One topic of the store.
struct TopicState {
    room_id: RoomId,
    topic: Topic,
    contents: Vec<Bytes>,
    listeners: Vec<RoomLocalUserId>,
}

impl TopicState {
    spec fn key(&self) -> TopicKey {
        topic_key(self.room_id, self.topic@)
    }

    spec fn state(&self) -> TopicView {
        TopicView { contents: self.contents.deep_view(), listeners: self.listeners@ }
    }
}

/// Whether no two of the topics have the same name.
spec fn distinct(topics: Seq<TopicState>) -> bool {
    forall|i: int, j: int|
        0 <= i < j < topics.len() ==> (#[trigger] topics[i]).key() != (#[trigger] topics[j]).key()
}

/// Whether one of the topics is named `key`.
spec fn has_key(topics: Seq<TopicState>, key: TopicKey) -> bool {
    exists|i: int| 0 <= i < topics.len() && (#[trigger] topics[i]).key() == key
}

/// The place of a topic named `key`.
spec fn place_of(topics: Seq<TopicState>, key: TopicKey) -> int {
    choose|i: int| 0 <= i < topics.len() && (#[trigger] topics[i]).key() == key
}

/// The topics by name.
spec fn map_of(topics: Seq<TopicState>) -> Map<TopicKey, TopicView> {
    Map::new(
        |key: TopicKey| has_key(topics, key),
        |key: TopicKey| topics[place_of(topics, key)].state(),
    )
}

/// A topic is found under its name.
proof fn lemma_map_of_at(topics: Seq<TopicState>, i: int)
    requires
        distinct(topics),
        0 <= i < topics.len(),
    ensures
        map_of(topics).contains_key(topics[i].key()),
        map_of(topics)[topics[i].key()] == topics[i].state(),
        topic_of(map_of(topics), topics[i].key()) == topics[i].state(),
{
    let key = topics[i].key();
    assert(has_key(topics, key));
    let p = place_of(topics, key);
    assert(p == i);
}

/// Putting a topic in the place of one of the same name.
proof fn lemma_map_of_update(topics: Seq<TopicState>, i: int, entry: TopicState)
    requires
        distinct(topics),
        0 <= i < topics.len(),
        entry.key() == topics[i].key(),
    ensures
        distinct(topics.update(i, entry)),
        map_of(topics.update(i, entry)) == map_of(topics).insert(entry.key(), entry.state()),
{
    let after = topics.update(i, entry);
    assert forall|a: int, b: int| 0 <= a < b < after.len() implies #[trigger] after[a].key()
        != #[trigger] after[b].key() by {
        assert(after[a].key() == topics[a].key());
        assert(after[b].key() == topics[b].key());
    }
    let want = map_of(topics).insert(entry.key(), entry.state());
    assert forall|key: TopicKey| map_of(after).contains_key(key) <==> want.contains_key(key) by {
        if has_key(after, key) {
            let p = place_of(after, key);
            assert(topics[p].key() == key);
        }
        if has_key(topics, key) {
            let p = place_of(topics, key);
            assert(after[p].key() == key);
        }
        if key == entry.key() {
            assert(after[i].key() == key);
        }
    }
    assert forall|key: TopicKey| map_of(after).contains_key(key) implies map_of(after)[key]
        == want[key] by {
        let p = place_of(after, key);
        lemma_map_of_at(after, p);
        if p != i {
            assert(after[p] == topics[p]);
            lemma_map_of_at(topics, p);
        }
    }
    assert(map_of(after) =~= want);
}

/// Putting a topic of a new name behind the others.
proof fn lemma_map_of_push(topics: Seq<TopicState>, entry: TopicState)
    requires
        distinct(topics),
        !has_key(topics, entry.key()),
    ensures
        distinct(topics.push(entry)),
        map_of(topics.push(entry)) == map_of(topics).insert(entry.key(), entry.state()),
{
    let after = topics.push(entry);
    let last = topics.len() as int;
    assert forall|a: int, b: int| 0 <= a < b < after.len() implies #[trigger] after[a].key()
        != #[trigger] after[b].key() by {
        assert(after[a] == topics[a]);
        if b < last {
            assert(after[b] == topics[b]);
        }
    }
    let want = map_of(topics).insert(entry.key(), entry.state());
    assert forall|key: TopicKey| map_of(after).contains_key(key) <==> want.contains_key(key) by {
        if has_key(after, key) {
            let p = place_of(after, key);
            if p < last {
                assert(topics[p].key() == key);
            }
        }
        if has_key(topics, key) {
            let p = place_of(topics, key);
            assert(after[p].key() == key);
        }
        if key == entry.key() {
            assert(after[last].key() == key);
        }
    }
    assert forall|key: TopicKey| map_of(after).contains_key(key) implies map_of(after)[key]
        == want[key] by {
        let p = place_of(after, key);
        lemma_map_of_at(after, p);
        if p < last {
            assert(after[p] == topics[p]);
            lemma_map_of_at(topics, p);
        }
    }
    assert(map_of(after) =~= want);
}

/// The content and the listeners of the topics of a service, as the commands
/// that were applied have left them.
pub struct TopicStore {
    topics: Vec<TopicState>,
}

impl View for TopicStore {
    type V = Map<TopicKey, TopicView>;

    closed spec fn view(&self) -> Map<TopicKey, TopicView> {
        map_of(self.topics@)
    }
}

impl TopicStore {
    #[verifier::type_invariant]
    spec fn well_formed(&self) -> bool {
        distinct(self.topics@)
    }

    /// A store without topics.
    pub fn new() -> (r: TopicStore)
        ensures
            r@ == Map::<TopicKey, TopicView>::empty(),
    {
        let r = TopicStore { topics: Vec::new() };
        assert(r@ =~= Map::<TopicKey, TopicView>::empty());
        r
    }

    /// Whether a command has named the topic.
    pub fn has_topic(&self, room_id: RoomId, topic: &Topic) -> (r: bool)
        ensures
            r == self@.contains_key(topic_key(room_id, topic@)),
    {
        find(&self.topics, room_id, topic).is_some()
    }

    /// The content items of a topic, oldest first. A topic that no command
    /// has named has none.
    pub fn contents(&self, room_id: RoomId, topic: &Topic) -> (r: Vec<Bytes>)
        ensures
            r.deep_view() == topic_of(self@, topic_key(room_id, topic@)).contents,
    {
        proof {
            use_type_invariant(self);
        }
        match find(&self.topics, room_id, topic) {
            Some(i) => {
                proof {
                    lemma_map_of_at(self.topics@, i as int);
                }
                let r = self.topics[i].contents.clone();
                assert(r.deep_view() =~= self.topics[i as int].contents.deep_view());
                r
            },
            None => {
                let r: Vec<Bytes> = Vec::new();
                assert(r.deep_view() =~= Seq::<Seq<u8>>::empty());
                r
            },
        }
    }

    /// The listeners of a topic, in the order in which they subscribed. A
    /// topic that no command has named has none.
    pub fn listeners(&self, room_id: RoomId, topic: &Topic) -> (r: Vec<RoomLocalUserId>)
        ensures
            r@ == topic_of(self@, topic_key(room_id, topic@)).listeners,
    {
        proof {
            use_type_invariant(self);
        }
        match find(&self.topics, room_id, topic) {
            Some(i) => {
                proof {
                    lemma_map_of_at(self.topics@, i as int);
                }
                let r = self.topics[i].listeners.clone();
                assert(r@ =~= self.topics[i as int].listeners@);
                r
            },
            None => Vec::new(),
        }
    }

    /// Applies one command: an `Update` replaces the content of its topic, a
    /// `Push` appends one item to it, a `Listen` adds a listener to it, and
    /// any other command changes nothing.
    pub fn apply(&mut self, command: &Command)
        ensures
            final(self)@ == apply_spec(old(self)@, command@),
    {
        proof {
            use_type_invariant(&*self);
        }
        let mut topics: Vec<TopicState> = Vec::new();
        std::mem::swap(&mut topics, &mut self.topics);
        let ghost before = topics@;
        match command {
            Command::Update { room_id, topic, all_contents } => {
                let list = all_contents.clone();
                assert(list.deep_view() =~= all_contents.deep_view());
                let i = slot(&mut topics, *room_id, topic);
                let ghost found = topics@;
                topics[i].contents = list;
                proof {
                    lemma_map_of_update(found, i as int, topics@[i as int]);
                    assert(map_of(topics@) =~= apply_spec(map_of(before), command@));
                }
            },
            Command::Push { room_id, topic, contents } => {
                let i = slot(&mut topics, *room_id, topic);
                let ghost found = topics@;
                topics[i].contents.push(contents.clone());
                proof {
                    let items = found[i as int].contents.deep_view();
                    assert(topics@[i as int].contents.deep_view() =~= items.push(contents@));
                    lemma_map_of_update(found, i as int, topics@[i as int]);
                    assert(map_of(topics@) =~= apply_spec(map_of(before), command@));
                }
            },
            Command::Listen { room_id, local_user_id, topic } => {
                let i = slot(&mut topics, *room_id, topic);
                let ghost found = topics@;
                if !listens(&topics[i].listeners, *local_user_id) {
                    topics[i].listeners.push(*local_user_id);
                }
                proof {
                    lemma_map_of_update(found, i as int, topics@[i as int]);
                    assert(map_of(topics@) =~= apply_spec(map_of(before), command@));
                }
            },
            _ => {},
        }
        self.topics = topics;
    }

    /// Applies the pending commands of a buffer, from the oldest to the
    /// newest. The buffer is left as it is: the caller clears it.
    pub fn apply_all(&mut self, commands: &Commands)
        ensures
            final(self)@ == apply_all_spec(old(self)@, commands@),
    {
        let ghost all = commands@;
        let ghost mut done: int = 0;
        let mut it = commands.iter();
        assert(all.subrange(0, 0) =~= Seq::<CommandView>::empty());
        loop
            invariant
                it.obeys_prophetic_iter_laws(),
                it.decrease() is Some,
                all == commands@,
                0 <= done <= all.len(),
                it.remaining().len() == all.len() - done,
                forall|k: int|
                    0 <= k < it.remaining().len() ==> (#[trigger] it.remaining()[k])@ == all[done + k],
                self@ == apply_all_spec(old(self)@, all.subrange(0, done)),
            decreases it.decrease()->0,
        {
            match it.next() {
                Some(command) => {
                    assert(command@ == all[done]);
                    self.apply(command);
                    proof {
                        let next = all.subrange(0, done + 1);
                        assert(next.drop_last() =~= all.subrange(0, done));
                        assert(next.last() == all[done]);
                        done = done + 1;
                    }
                },
                None => {
                    assert(all.subrange(0, done) =~= all);
                    return ;
                },
            }
        }
    }

    /// Drains a buffer: applies its pending commands, from the oldest to the
    /// newest, and then retires them.
    pub fn drain(&mut self, commands: &mut Commands)
        ensures
            final(self)@ == apply_all_spec(old(self)@, old(commands)@),
            final(commands)@ == Seq::<CommandView>::empty(),
    {
        self.apply_all(commands);
        commands.clear();
    }
}

impl Default for TopicStore {
    fn default() -> (r: TopicStore)
        ensures
            r@ == Map::<TopicKey, TopicView>::empty(),
    {
        TopicStore::new()
    }
}

/// The place of the topic in `topics`. Where there is no topic of that name,
/// an empty one is put behind the others first.
fn slot(topics: &mut Vec<TopicState>, room_id: RoomId, topic: &Topic) -> (i: usize)
    requires
        distinct(old(topics)@),
    ensures
        distinct(final(topics)@),
        i < final(topics)@.len(),
        final(topics)@[i as int].key() == topic_key(room_id, topic@),
        final(topics)@[i as int].state() == topic_of(
            map_of(old(topics)@),
            topic_key(room_id, topic@),
        ),
        map_of(final(topics)@) == map_of(old(topics)@).insert(
            topic_key(room_id, topic@),
            topic_of(map_of(old(topics)@), topic_key(room_id, topic@)),
        ),
{
    let ghost key = topic_key(room_id, topic@);
    match find(topics, room_id, topic) {
        Some(i) => {
            proof {
                lemma_map_of_at(topics@, i as int);
                assert(map_of(topics@) =~= map_of(topics@).insert(key, topics@[i as int].state()));
            }
            i
        },
        None => {
            let entry = TopicState {
                room_id,
                topic: topic.clone(),
                contents: Vec::new(),
                listeners: Vec::new(),
            };
            proof {
                assert(entry.state().contents =~= Seq::<Seq<u8>>::empty());
                assert(!map_of(topics@).contains_key(key));
                lemma_map_of_push(topics@, entry);
            }
            topics.push(entry);
            topics.len() - 1
        },
    }
}

/// The place of the topic in `topics`, if it is there.
fn find(topics: &Vec<TopicState>, room_id: RoomId, topic: &Topic) -> (r: Option<usize>)
    ensures
        match r {
            Some(i) => i < topics@.len() && topics@[i as int].key() == topic_key(room_id, topic@),
            None => !has_key(topics@, topic_key(room_id, topic@)),
        },
{
    let mut i: usize = 0;
    while i < topics.len()
        invariant
            i <= topics@.len(),
            forall|j: int| 0 <= j < i ==> (#[trigger] topics@[j]).key() != topic_key(room_id, topic@),
        decreases topics@.len() - i,
    {
        if topics[i].room_id == room_id && topics[i].topic == *topic {
            return Some(i);
        }
        i = i + 1;
    }
    None
}

/// Whether `user` is among the listeners.
fn listens(listeners: &Vec<RoomLocalUserId>, user: RoomLocalUserId) -> (r: bool)
    ensures
        r == listeners@.contains(user),
{
    let mut i: usize = 0;
    while i < listeners.len()
        invariant
            i <= listeners@.len(),
            forall|j: int| 0 <= j < i ==> listeners@[j] != user,
        decreases listeners@.len() - i,
    {
        if listeners[i] == user {
            return true;
        }
        i = i + 1;
    }
    false
}

/// Replacing the content of a topic leaves the given list and nothing else
/// as its content, whatever it held before.
pub proof fn lemma_update_replaces(
    store: Map<TopicKey, TopicView>,
    room_id: RoomId,
    topic: Seq<char>,
    all_contents: Seq<Seq<u8>>,
)
    ensures
        topic_of(
            apply_spec(store, update_of(room_id, topic, all_contents)),
            topic_key(room_id, topic),
        ).contents == all_contents,
{
}

/// Pushing an item leaves the content that was there, in its order, with the
/// item behind it.
pub proof fn lemma_push_appends(
    store: Map<TopicKey, TopicView>,
    room_id: RoomId,
    topic: Seq<char>,
    contents: Seq<u8>,
)
    ensures
        topic_of(
            apply_spec(store, push_of(room_id, topic, contents)),
            topic_key(room_id, topic),
        ).contents == topic_of(store, topic_key(room_id, topic)).contents.push(contents),
{
}

/// An update followed by pushes gives the updated list with the pushed items
/// behind it, and a later update leaves nothing of either.
pub proof fn lemma_update_push_update(
    store: Map<TopicKey, TopicView>,
    room_id: RoomId,
    topic: Seq<char>,
    first: Seq<Seq<u8>>,
    pushed: Seq<u8>,
    second: Seq<Seq<u8>>,
)
    ensures
        ({
            let key = topic_key(room_id, topic);
            let one = apply_spec(store, update_of(room_id, topic, first));
            let two = apply_spec(one, push_of(room_id, topic, pushed));
            let three = apply_spec(two, update_of(room_id, topic, second));
            &&& topic_of(one, key).contents == first
            &&& topic_of(two, key).contents == first.push(pushed)
            &&& topic_of(three, key).contents == second
        }),
{
}

/// Subscribing a listener changes the content of no topic.
pub proof fn lemma_listen_keeps_contents(
    store: Map<TopicKey, TopicView>,
    room_id: RoomId,
    local_user_id: RoomLocalUserId,
    topic: Seq<char>,
    key: TopicKey,
)
    ensures
        topic_of(apply_spec(store, listen_of(room_id, local_user_id, topic)), key).contents
            == topic_of(store, key).contents,
{
}

/// After a `Listen` the user is a listener of the topic, and whoever listened
/// before still does.
pub proof fn lemma_listen_subscribes(
    store: Map<TopicKey, TopicView>,
    room_id: RoomId,
    local_user_id: RoomLocalUserId,
    topic: Seq<char>,
    other: RoomLocalUserId,
)
    ensures
        ({
            let key = topic_key(room_id, topic);
            let after = apply_spec(store, listen_of(room_id, local_user_id, topic));
            &&& topic_of(after, key).listeners.contains(local_user_id)
            &&& topic_of(store, key).listeners.contains(other) ==> topic_of(
                after,
                key,
            ).listeners.contains(other)
        }),
{
    let key = topic_key(room_id, topic);
    let before = topic_of(store, key).listeners;
    let after = with_listener(before, local_user_id);
    if !before.contains(local_user_id) {
        assert(after[before.len() as int] == local_user_id);
    }
    if before.contains(other) {
        let i = choose|i: int| 0 <= i < before.len() && before[i] == other;
        assert(after[i] == other);
    }
}

/// A command changes no topic but the one it names.
pub proof fn lemma_other_topics_untouched(
    store: Map<TopicKey, TopicView>,
    command: CommandView,
    key: TopicKey,
)
    requires
        target(command) != Some(key),
    ensures
        topic_of(apply_spec(store, command), key) == topic_of(store, key),
{
}

/// Applying a run of commands and then one more is applying the longer run.
pub proof fn lemma_apply_all_push(
    store: Map<TopicKey, TopicView>,
    commands: Seq<CommandView>,
    command: CommandView,
)
    ensures
        apply_all_spec(store, commands.push(command)) == apply_spec(
            apply_all_spec(store, commands),
            command,
        ),
{
    assert(commands.push(command).drop_last() =~= commands);
}

} // verus!
