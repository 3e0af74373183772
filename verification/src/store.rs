//! The backing store as a mathematical value, and the commands that change
//! it. The store itself lives outside the process; this model says what its
//! two atomic operations do, and the aggregate laws are proved against it.

use vstd::prelude::*;

verus! {

/// A write that the caller sends to the backing store.
#[derive(Debug, PartialEq, Eq)]
pub enum StoreCommand {
    /// Add `member` to the set at `key`; the store answers with the number
    /// of members that were new.
    AddMember { key: String, member: String },
    /// Raise the score of `member` in the sorted collection at `key` by
    /// `delta`.
    IncrementScore { key: String, member: String, delta: i64 },
}

/// The mathematical value of a [`StoreCommand`].
pub enum CommandView {
    AddMember { key: Seq<char>, member: Seq<char> },
    IncrementScore { key: Seq<char>, member: Seq<char>, delta: int },
}

impl View for StoreCommand {
    type V = CommandView;

    open spec fn view(&self) -> CommandView {
        match self {
            StoreCommand::AddMember { key, member } => CommandView::AddMember {
                key: key@,
                member: member@,
            },
            StoreCommand::IncrementScore { key, member, delta } => CommandView::IncrementScore {
                key: key@,
                member: member@,
                delta: *delta as int,
            },
        }
    }
}

impl Clone for StoreCommand {
    fn clone(&self) -> (copy: StoreCommand)
        ensures
            copy@ == self@,
    {
        match self {
            StoreCommand::AddMember { key, member } => StoreCommand::AddMember {
                key: key.clone(),
                member: member.clone(),
            },
            StoreCommand::IncrementScore { key, member, delta } => StoreCommand::IncrementScore {
                key: key.clone(),
                member: member.clone(),
                delta: *delta,
            },
        }
    }
}

/// The view of a command that may be absent.
pub open spec fn command_view(command: Option<StoreCommand>) -> Option<CommandView> {
    match command {
        Some(c) => Some(c@),
        None => None,
    }
}

/// What the backing store holds: its sets, its scores, and how many writes
/// it has taken. Sets and scores are kept apart here; in a store with one key
/// space they stay apart because keys of different aggregates never meet.
pub struct StoreModel {
    pub sets: Map<Seq<char>, Set<Seq<char>>>,
    pub scores: Map<(Seq<char>, Seq<char>), int>,
    pub writes: nat,
}

impl StoreModel {
    /// The members of the set at `key`; a key never written holds none.
    pub open spec fn members(self, key: Seq<char>) -> Set<Seq<char>> {
        if self.sets.contains_key(key) {
            self.sets[key]
        } else {
            Set::empty()
        }
    }

    /// The score of `member` at `key`; a member never scored has 0.
    pub open spec fn score(self, key: Seq<char>, member: Seq<char>) -> int {
        if self.scores.contains_key((key, member)) {
            self.scores[(key, member)]
        } else {
            0
        }
    }

    /// The store's answer to a command: for an add, the number of members
    /// that were new (0 or 1); for an increment, the new score.
    pub open spec fn reply(self, command: CommandView) -> int {
        match command {
            CommandView::AddMember { key, member } => if self.members(key).contains(member) {
                0
            } else {
                1
            },
            CommandView::IncrementScore { key, member, delta } => self.score(key, member) + delta,
        }
    }

    /// The store after a command.
    pub open spec fn after(self, command: CommandView) -> StoreModel {
        match command {
            CommandView::AddMember { key, member } => StoreModel {
                sets: self.sets.insert(key, self.members(key).insert(member)),
                scores: self.scores,
                writes: self.writes + 1,
            },
            CommandView::IncrementScore { key, member, delta } => StoreModel {
                sets: self.sets,
                scores: self.scores.insert((key, member), self.score(key, member) + delta),
                writes: self.writes + 1,
            },
        }
    }
}

} // verus!
