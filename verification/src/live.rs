//! The live channel map: which tracked channels are broadcasting, and under
//! which session.

use vstd::prelude::*;

verus! {

/// Why ingestion stops.
#[derive(Clone, Copy, Debug, PartialEq, Eq, Structural)]
pub enum IngestError {
    /// The platform could not be asked which channels are live.
    PlatformQueryError,
    /// An event arrived for a channel that has no resolved session.
    UnknownChannelSession,
    /// The backing store refused a write.
    StoreWriteError,
}

impl IngestError {
    pub fn message(&self) -> (text: String)
        ensures
            text@ == match *self {
                IngestError::PlatformQueryError => "platform query failed"@,
                IngestError::UnknownChannelSession => "unknown channel session"@,
                IngestError::StoreWriteError => "backing store write failed"@,
            },
    {
        match self {
            IngestError::PlatformQueryError => String::from_str("platform query failed"),
            IngestError::UnknownChannelSession => String::from_str("unknown channel session"),
            IngestError::StoreWriteError => String::from_str("backing store write failed"),
        }
    }
}

/// The map that a sequence of (channel, session) pairs stands for: where a
/// channel occurs more than once, its last pair counts.
pub open spec fn map_of_pairs(pairs: Seq<(String, String)>) -> Map<Seq<char>, Seq<char>>
    decreases pairs.len(),
{
    if pairs.len() == 0 {
        Map::empty()
    } else {
        map_of_pairs(pairs.drop_last()).insert(pairs.last().0@, pairs.last().1@)
    }
}

/// The channels of a sequence of pairs, in its order.
pub open spec fn channels_of_pairs(pairs: Seq<(String, String)>) -> Seq<Seq<char>> {
    Seq::new(pairs.len(), |i: int| pairs[i].0@)
}

/// A channel that no pair from `from` on names is looked up in the pairs
/// before `from` alone.
proof fn lemma_lookup_prefix(pairs: Seq<(String, String)>, from: int, channel: Seq<char>)
    requires
        0 <= from <= pairs.len(),
        forall|j: int| from <= j < pairs.len() ==> pairs[j].0@ != channel,
    ensures
        map_of_pairs(pairs).contains_key(channel) == map_of_pairs(
            pairs.subrange(0, from),
        ).contains_key(channel),
        map_of_pairs(pairs).contains_key(channel) ==> map_of_pairs(pairs)[channel] == map_of_pairs(
            pairs.subrange(0, from),
        )[channel],
    decreases pairs.len() - from,
{
    if from == pairs.len() {
        assert(pairs.subrange(0, from) =~= pairs);
    } else {
        let shorter = pairs.drop_last();
        assert(shorter.subrange(0, from) =~= pairs.subrange(0, from));
        lemma_lookup_prefix(shorter, from, channel);
    }
}

/// Channel to session, fixed once the process has started.
pub struct LiveChannelMap {
    pairs: Vec<(String, String)>,
}

impl View for LiveChannelMap {
    type V = Map<Seq<char>, Seq<char>>;

    closed spec fn view(&self) -> Map<Seq<char>, Seq<char>> {
        map_of_pairs(self.pairs@)
    }
}

impl LiveChannelMap {
    /// The channels in the order in which the platform reported them.
    pub closed spec fn channel_order(&self) -> Seq<Seq<char>> {
        channels_of_pairs(self.pairs@)
    }

    /// Builds the map from the platform's answer: the live channels with
    /// their sessions, in the platform's order.
    pub fn from_pairs(pairs: Vec<(String, String)>) -> (live: LiveChannelMap)
        ensures
            live@ == map_of_pairs(pairs@),
            live.channel_order() == channels_of_pairs(pairs@),
    {
        LiveChannelMap { pairs }
    }

    /// Builds the map from the outcome of the platform query: `None` stands
    /// for a query that could not complete.
    pub fn from_query(answer: Option<Vec<(String, String)>>) -> (r: Result<
        LiveChannelMap,
        IngestError,
    >)
        ensures
            match answer {
                Some(pairs) => r is Ok && r->Ok_0@ == map_of_pairs(pairs@) && r->Ok_0.channel_order()
                    == channels_of_pairs(pairs@),
                None => r == Err::<LiveChannelMap, IngestError>(IngestError::PlatformQueryError),
            },
    {
        match answer {
            Some(pairs) => Ok(LiveChannelMap::from_pairs(pairs)),
            None => Err(IngestError::PlatformQueryError),
        }
    }

    /// The session under which a channel is live, if it is.
    pub fn session_of(&self, channel: &str) -> (session: Option<&String>)
        ensures
            match session {
                Some(s) => self@.contains_key(channel@) && s@ == self@[channel@],
                None => !self@.contains_key(channel@),
            },
    {
        let wanted = String::from_str(channel);
        let mut i: usize = self.pairs.len();
        while i > 0
            invariant
                wanted@ == channel@,
                i <= self.pairs.len(),
                forall|j: int| i <= j < self.pairs.len() ==> self.pairs[j].0@ != channel@,
            decreases i,
        {
            i = i - 1;
            if self.pairs[i].0 == wanted {
                proof {
                    let upto = self.pairs@.subrange(0, i + 1);
                    lemma_lookup_prefix(self.pairs@, i + 1, channel@);
                    assert(upto.drop_last() =~= self.pairs@.subrange(0, i as int));
                    assert(upto.last() == self.pairs@[i as int]);
                }
                return Some(&self.pairs[i].1);
            }
        }
        proof {
            lemma_lookup_prefix(self.pairs@, 0, channel@);
            assert(self.pairs@.subrange(0, 0) =~= Seq::empty());
        }
        None
    }

    /// The number of pairs that the platform reported.
    pub fn len(&self) -> (n: usize)
        ensures
            n == self.channel_order().len(),
    {
        self.pairs.len()
    }

    /// The channel at a position of the platform's order.
    pub fn channel_at(&self, index: usize) -> (channel: &String)
        requires
            index < self.channel_order().len(),
        ensures
            channel@ == self.channel_order()[index as int],
    {
        &self.pairs[index].0
    }
}

} // verus!
