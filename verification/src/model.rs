//! The bot's shared state: which channel it sits in, its own user id, and how
//! many members each voice channel holds.

use std::collections::HashMap;
use vstd::prelude::*;

verus! {

broadcast use vstd::std_specs::hash::group_hash_axioms;

/// A voice or text channel, by its numeric id.
#[derive(Debug, Clone, Copy, PartialEq, Eq, Hash, Structural)]
pub struct ChannelID(pub u64);

impl ChannelID {
    /// The numeric id.
    pub fn get(self) -> (id: u64)
        ensures
            id == self.0,
    {
        self.0
    }
}

/// A user, by its numeric id.
#[derive(Debug, Clone, Copy, PartialEq, Eq, Structural)]
pub struct UserID(pub u64);

impl UserID {
    /// The numeric id.
    pub fn get(self) -> (id: u64)
        ensures
            id == self.0,
    {
        self.0
    }
}

/// The number of members recorded for `channel`, zero when none is recorded.
pub open spec fn count_of(counts: Map<u64, usize>, channel: u64) -> nat {
    if counts.contains_key(channel) {
        counts[channel] as nat
    } else {
        0
    }
}

/// The counts after one more member was counted in `channel`.
pub open spec fn counts_after_increment(counts: Map<u64, usize>, channel: u64) -> Map<u64, usize> {
    counts.insert(channel, (count_of(counts, channel) + 1) as usize)
}

/// The counts after one member less was counted in `channel`: unchanged when
/// its count is zero.
pub open spec fn counts_after_decrement(counts: Map<u64, usize>, channel: u64) -> Map<u64, usize> {
    if count_of(counts, channel) > 0 {
        counts.insert(channel, (count_of(counts, channel) - 1) as usize)
    } else {
        counts
    }
}

/// Counting a member in and out again gives back the counts, for a channel
/// whose count is recorded.
pub proof fn lemma_increment_then_decrement(counts: Map<u64, usize>, channel: u64)
    requires
        counts.contains_key(channel),
        count_of(counts, channel) < usize::MAX,
    ensures
        counts_after_decrement(counts_after_increment(counts, channel), channel) == counts,
{
    assert(counts_after_decrement(counts_after_increment(counts, channel), channel) =~= counts);
}

/// Counting a member out of a channel with no members changes nothing.
pub proof fn lemma_decrement_at_zero(counts: Map<u64, usize>, channel: u64)
    requires
        count_of(counts, channel) == 0,
    ensures
        counts_after_decrement(counts, channel) == counts,
{
}

/// Counting one member in or out, with `n` the recorded count (zero when
/// none is recorded): counting in records `n + 1`; counting out records
/// `n - 1` when `n` is positive and leaves the counts as they are otherwise.
pub proof fn lemma_count_steps(counts: Map<u64, usize>, channel: u64)
    requires
        counts.contains_key(channel) ==> counts[channel] < usize::MAX,
    ensures
        ({
            let n: int = if counts.contains_key(channel) { counts[channel] as int } else { 0 };
            &&& counts_after_increment(counts, channel) == counts.insert(channel, (n + 1) as usize)
            &&& n > 0 ==> counts_after_decrement(counts, channel) == counts.insert(
                channel,
                (n - 1) as usize,
            )
            &&& n == 0 ==> counts_after_decrement(counts, channel) == counts
        }),
{
}

/// The bot's id, the channel it sits in, and the member count per channel id.
pub struct ChannelData {
    pub bot_id: UserID,
    pub channel_id: ChannelID,
    pub user_count: HashMap<u64, usize>,
}

impl ChannelData {
    /// State with no member counts yet.
    pub fn new(bot_id: UserID, channel_id: ChannelID) -> (data: ChannelData)
        ensures
            data.bot_id == bot_id,
            data.channel_id == channel_id,
            data.user_count@ == Map::<u64, usize>::empty(),
    {
        ChannelData { bot_id, channel_id, user_count: HashMap::new() }
    }

    /// The recorded member count of `channel_id`, zero when none is recorded.
    pub fn count(&self, channel_id: ChannelID) -> (n: usize)
        ensures
            n as nat == count_of(self.user_count@, channel_id.0),
    {
        match self.user_count.get(&channel_id.0) {
            Some(n) => *n,
            None => 0,
        }
    }

    /// Counts one more member in `channel_id`, recording it when absent.
    pub fn increment_user_count(&mut self, channel_id: ChannelID)
        requires
            count_of(old(self).user_count@, channel_id.0) < usize::MAX,
        ensures
            final(self).bot_id == old(self).bot_id,
            final(self).channel_id == old(self).channel_id,
            final(self).user_count@ == counts_after_increment(old(self).user_count@, channel_id.0),
    {
        let n = self.count(channel_id);
        self.user_count.insert(channel_id.0, n + 1);
    }

    /// Counts one member less in `channel_id`, when its recorded count is
    /// above zero; otherwise nothing changes.
    pub fn decrement_user_count(&mut self, channel_id: ChannelID)
        ensures
            final(self).bot_id == old(self).bot_id,
            final(self).channel_id == old(self).channel_id,
            final(self).user_count@ == counts_after_decrement(old(self).user_count@, channel_id.0),
    {
        let n = self.count(channel_id);
        if n > 0 {
            self.user_count.insert(channel_id.0, n - 1);
        }
    }

    /// A copy of the state, for reporting.
    pub fn to_serializable(&self) -> (copy: ChannelData)
        ensures
            copy.bot_id == self.bot_id,
            copy.channel_id == self.channel_id,
            copy.user_count@ == self.user_count@,
    {
        ChannelData {
            bot_id: self.bot_id,
            channel_id: self.channel_id,
            user_count: self.user_count.clone(),
        }
    }
}

/// What is known of a track: its name, artists, duration and cover image.
pub struct TrackInfo {
    pub name: String,
    pub artists: Vec<String>,
    pub duration: u64,
    pub image_url: String,
}

/// The kinds of track records a source may hand back.
#[derive(Debug, Clone, Copy, PartialEq, Eq, Structural)]
pub enum Tracks {
    FullTrack,
    Track,
}

} // verus!
