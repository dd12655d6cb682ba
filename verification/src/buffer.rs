//! The buffer of a session's pending commands.
//!
//! A producer appends commands with `push`. A consumer reads them with `iter`,
//! in the order in which they were pushed, handles them, and then retires them
//! all with `clear`. Reading does not retire: a consumer that stops halfway
//! finds every command still there.
//!
//! The buffer is not bounded while it fills: `push` never drops or refuses a
//! command, so whoever drains the buffer has to do so often enough. The limit
//! that `clear` takes is applied after the buffer was emptied, where it has
//! nothing left to cut.
//!
//! The buffer is not synchronised. Where several producers share one, or a
//! consumer drains while producers push, the caller serialises the calls.

use crate::command::{Command, CommandView};
use vstd::prelude::*;
use vstd::std_specs::cmp::PartialEqSpecImpl;
use vstd::std_specs::iter::IteratorSpec;

verus! {

/// The number of commands that `clear` lets the buffer keep.
pub const RETAINED_COMMANDS: usize = 32;

/// The pending commands of one session, oldest first.
#[derive(Debug)]
pub struct Commands(Vec<Command>);

impl View for Commands {
    type V = Seq<CommandView>;

    open spec fn view(&self) -> Seq<CommandView> {
        self.items().map_values(|c: Command| c@)
    }
}

impl Commands {
    /// The commands in the buffer, oldest first.
    pub closed spec fn items(&self) -> Seq<Command> {
        self.0@
    }

    /// An empty buffer.
    pub fn new() -> (r: Commands)
        ensures
            r.items() == Seq::<Command>::empty(),
            r@ == Seq::<CommandView>::empty(),
    {
        let r = Commands(Vec::new());
        assert(r@ =~= Seq::<CommandView>::empty());
        r
    }

    /// The number of pending commands.
    pub fn len(&self) -> (n: usize)
        ensures
            n == self@.len(),
    {
        self.0.len()
    }

    /// Whether no command is pending.
    pub fn is_empty(&self) -> (r: bool)
        ensures
            r == (self@.len() == 0),
    {
        self.0.len() == 0
    }

    /// Walks the pending commands from the oldest to the newest. The buffer
    /// is left as it is, so a second walk yields the same commands.
    pub fn iter(&self) -> (it: impl Iterator<Item = &Command>)
        ensures
            it.obeys_prophetic_iter_laws(),
            it.decrease() is Some,
            it.remaining() == self.items().as_ref(),
    {
        self.0.iter()
    }

    /// Appends a command behind all those that are pending.
    pub fn push(&mut self, event: Command)
        ensures
            final(self).items() == old(self).items().push(event),
            final(self)@ == old(self)@.push(event@),
    {
        self.0.push(event);
        assert(self@ =~= old(self)@.push(event@));
    }

    /// Retires every pending command, then cuts the buffer down to `limit`
    /// commands. The cut finds the buffer empty, so the buffer is empty
    /// afterwards whatever `limit` is.
    pub fn clear_and_cap(&mut self, limit: usize)
        ensures
            final(self).items() == Seq::<Command>::empty(),
            final(self)@ == Seq::<CommandView>::empty(),
    {
        self.0.clear();
        self.0.truncate(limit);
        assert(self.items() =~= Seq::<Command>::empty());
        assert(self@ =~= Seq::<CommandView>::empty());
    }

    /// Retires every pending command. What was in the buffer cannot be had
    /// back.
    pub fn clear(&mut self)
        ensures
            final(self).items() == Seq::<Command>::empty(),
            final(self)@ == Seq::<CommandView>::empty(),
    {
        self.clear_and_cap(RETAINED_COMMANDS);
    }
}

impl Default for Commands {
    fn default() -> (r: Commands)
        ensures
            r@ == Seq::<CommandView>::empty(),
    {
        Commands::new()
    }
}

impl Clone for Commands {
    fn clone(&self) -> (r: Commands)
        ensures
            r@ == self@,
    {
        let mut copy: Vec<Command> = Vec::new();
        let mut i: usize = 0;
        while i < self.0.len()
            invariant
                i <= self.0.len(),
                copy.len() == i,
                forall|j: int| 0 <= j < i ==> copy@[j]@ == self.0@[j]@,
            decreases self.0.len() - i,
        {
            copy.push(self.0[i].clone());
            i = i + 1;
        }
        let r = Commands(copy);
        assert(r@ =~= self@);
        r
    }
}

impl PartialEqSpecImpl for Commands {
    open spec fn obeys_eq_spec() -> bool {
        true
    }

    open spec fn eq_spec(&self, other: &Commands) -> bool {
        self@ == other@
    }
}

impl PartialEq for Commands {
    fn eq(&self, other: &Commands) -> (r: bool) {
        if self.0.len() != other.0.len() {
            assert(self@.len() != other@.len());
            return false;
        }
        let mut i: usize = 0;
        while i < self.0.len()
            invariant
                self.0.len() == other.0.len(),
                i <= self.0.len(),
                forall|j: int| 0 <= j < i ==> self@[j] == other@[j],
            decreases self.0.len() - i,
        {
            if !(self.0[i] == other.0[i]) {
                assert(self@[i as int] != other@[i as int]);
                return false;
            }
            i = i + 1;
        }
        assert(self@ =~= other@);
        true
    }
}

} // verus!
