//! How voice-state events change the member counts, and when the bot leaves.
//!
//! The caller gathers what the chat service reports (who moved, from which
//! channel to which, what the voice connection and the guild cache say) and
//! hands it here as plain values; the functions below update the state and
//! say whether the bot should leave its channel.

use crate::model::{count_of, counts_after_increment, ChannelData, ChannelID, UserID};
use vstd::prelude::*;

verus! {

broadcast use vstd::std_specs::hash::group_hash_axioms;

/// What the caller should do after a member moved.
#[derive(Debug, Clone, Copy, PartialEq, Eq, Structural)]
pub enum VoiceAction {
    /// Keep the bot where it is.
    Stay,
    /// The member counts were cleared: disconnect the bot and stop its queue.
    Leave,
}

/// Whose voice state changed.
#[derive(Debug, Clone, Copy, PartialEq, Eq, Structural)]
pub enum VoiceUpdate {
    /// The bot itself moved.
    Bot,
    /// Another member moved.
    User,
    /// The update cannot be attributed (no bot id known, or no member given).
    Ignore,
}

/// Tells a move of the bot from a move of another member.
pub fn classify_voice_update(bot_id: Option<UserID>, member: Option<UserID>) -> (kind: VoiceUpdate)
    ensures
        kind == (match (bot_id, member) {
            (Some(b), Some(m)) => if b.0 == m.0 { VoiceUpdate::Bot } else { VoiceUpdate::User },
            _ => VoiceUpdate::Ignore,
        }),
{
    match (bot_id, member) {
        (Some(b), Some(m)) => if b.0 == m.0 {
            VoiceUpdate::Bot
        } else {
            VoiceUpdate::User
        },
        _ => VoiceUpdate::Ignore,
    }
}

/// Records the bot's own id once the connection is ready.
pub fn handle_ready_event(data: &mut ChannelData, bot: UserID)
    ensures
        final(data).bot_id == bot,
        final(data).channel_id == old(data).channel_id,
        final(data).user_count@ == old(data).user_count@,
{
    data.bot_id = bot;
}

/// Records the channel the bot now sits in.
pub fn update_channel_id(data: &mut ChannelData, channel: ChannelID)
    ensures
        final(data).channel_id == channel,
        final(data).bot_id == old(data).bot_id,
        final(data).user_count@ == old(data).user_count@,
{
    data.channel_id = channel;
}

/// How many of the voice states sit in `channel`.
pub open spec fn members_in(states: Seq<Option<ChannelID>>, channel: ChannelID) -> nat
    decreases states.len(),
{
    if states.len() == 0 {
        0
    } else {
        members_in(states.drop_last(), channel) + (if states.last() == Some(channel) {
            1nat
        } else {
            0nat
        })
    }
}

/// A channel never counts more members than there are voice states.
pub proof fn lemma_members_in_bound(states: Seq<Option<ChannelID>>, channel: ChannelID)
    ensures
        members_in(states, channel) <= states.len(),
    decreases states.len(),
{
    if states.len() > 0 {
        lemma_members_in_bound(states.drop_last(), channel);
    }
}

/// Sets the member count of `channel` to the number of voice states in it,
/// when the guild's voice states are known; otherwise nothing changes.
pub fn update_member_count(
    data: &mut ChannelData,
    channel: ChannelID,
    voice_states: Option<&Vec<Option<ChannelID>>>,
)
    ensures
        final(data).bot_id == old(data).bot_id,
        final(data).channel_id == old(data).channel_id,
        final(data).user_count@ == (match voice_states {
            Some(states) => old(data).user_count@.insert(
                channel.0,
                members_in(states@, channel) as usize,
            ),
            None => old(data).user_count@,
        }),
{
    if let Some(states) = voice_states {
        let mut n: usize = 0;
        let mut i: usize = 0;
        while i < states.len()
            invariant
                i <= states.len(),
                n as nat == members_in(states@.take(i as int), channel),
            decreases states.len() - i,
        {
            proof {
                assert(states@.take((i + 1) as int).drop_last() =~= states@.take(i as int));
                lemma_members_in_bound(states@.take(i as int), channel);
            }
            let hit = match states[i] {
                Some(c) => c.0 == channel.0,
                None => false,
            };
            if hit {
                n = n + 1;
            }
            i = i + 1;
        }
        assert(states@.take(states.len() as int) =~= states@);
        data.user_count.insert(channel.0, n);
    }
}

/// The channel a member came from: the one in its previous voice state, or
/// the bot's channel when no previous channel is known.
pub open spec fn previous_channel(previous: Option<Option<ChannelID>>, bot_channel: ChannelID) -> ChannelID {
    match previous {
        Some(Some(c)) => c,
        _ => bot_channel,
    }
}

/// Counts and action after a member left `channel`, the bot's channel: a
/// count of zero is recorded as zero and kept; otherwise it drops by one, and
/// when at most one member (the bot) remains, all counts are cleared and the
/// bot leaves.
pub open spec fn after_departure(counts: Map<u64, usize>, channel: u64) -> (Map<u64, usize>, VoiceAction) {
    let n = count_of(counts, channel);
    if n == 0 {
        (counts.insert(channel, 0), VoiceAction::Stay)
    } else if n <= 2 {
        (Map::empty(), VoiceAction::Leave)
    } else {
        (counts.insert(channel, (n - 1) as usize), VoiceAction::Stay)
    }
}

/// Counts and action after another member's voice state changed from
/// `previous` to `now`, with the bot in `bot_channel`: entering the bot's
/// channel adds one; leaving it (to no channel, or from it to another one)
/// is a departure; any other move changes nothing.
pub open spec fn after_user_update(
    counts: Map<u64, usize>,
    bot_channel: ChannelID,
    previous: Option<Option<ChannelID>>,
    now: Option<ChannelID>,
) -> (Map<u64, usize>, VoiceAction) {
    match now {
        Some(c) => if c.0 == bot_channel.0 {
            (counts_after_increment(counts, c.0), VoiceAction::Stay)
        } else if previous_channel(previous, bot_channel).0 == bot_channel.0 {
            after_departure(counts, bot_channel.0)
        } else {
            (counts, VoiceAction::Stay)
        },
        None => after_departure(counts, bot_channel.0),
    }
}

/// Counts one more member in `channel`.
pub fn increment_member_count(data: &mut ChannelData, channel: ChannelID)
    requires
        count_of(old(data).user_count@, channel.0) < usize::MAX,
    ensures
        final(data).bot_id == old(data).bot_id,
        final(data).channel_id == old(data).channel_id,
        final(data).user_count@ == counts_after_increment(old(data).user_count@, channel.0),
{
    data.increment_user_count(channel);
}

/// Forgets every member count; the bot is about to leave.
pub fn handle_bot_leave(data: &mut ChannelData)
    ensures
        final(data).bot_id == old(data).bot_id,
        final(data).channel_id == old(data).channel_id,
        final(data).user_count@ == Map::<u64, usize>::empty(),
{
    data.user_count.clear();
}

/// A member left the bot's channel `bot_channel`.
pub fn decrement_member_count(data: &mut ChannelData, bot_channel: ChannelID) -> (action: VoiceAction)
    ensures
        final(data).bot_id == old(data).bot_id,
        final(data).channel_id == old(data).channel_id,
        (final(data).user_count@, action) == after_departure(old(data).user_count@, bot_channel.0),
{
    let n = data.count(bot_channel);
    if n > 0 {
        let left = n - 1;
        if left <= 1 {
            handle_bot_leave(data);
            VoiceAction::Leave
        } else {
            data.user_count.insert(bot_channel.0, left);
            VoiceAction::Stay
        }
    } else {
        data.user_count.insert(bot_channel.0, 0);
        VoiceAction::Stay
    }
}

/// Another member's voice state changed from `previous` (absent when no
/// earlier state is known; inside, the channel it was in) to `now`.
pub fn handle_user_voice_update(
    data: &mut ChannelData,
    previous: Option<Option<ChannelID>>,
    now: Option<ChannelID>,
) -> (action: VoiceAction)
    requires
        match now {
            Some(c) => c.0 == old(data).channel_id.0 ==> count_of(old(data).user_count@, c.0)
                < usize::MAX,
            None => true,
        },
    ensures
        final(data).bot_id == old(data).bot_id,
        final(data).channel_id == old(data).channel_id,
        (final(data).user_count@, action) == after_user_update(
            old(data).user_count@,
            old(data).channel_id,
            previous,
            now,
        ),
{
    let bot_channel = data.channel_id;
    let previous_channel = match previous {
        Some(Some(c)) => c,
        _ => bot_channel,
    };
    match now {
        Some(c) => {
            if c.get() == bot_channel.get() {
                increment_member_count(data, c);
                VoiceAction::Stay
            } else if previous_channel.get() == bot_channel.get() {
                decrement_member_count(data, bot_channel)
            } else {
                VoiceAction::Stay
            }
        },
        None => decrement_member_count(data, bot_channel),
    }
}

/// The bot's own voice state changed. `connection` is absent when the guild
/// or its voice connection is unknown; inside, it holds the channel the
/// connection sits in, if any. `voice_states` holds the channel of each
/// voice state the guild cache knows, when the guild is cached.
pub fn handle_bot_voice_update(
    data: &mut ChannelData,
    connection: Option<Option<ChannelID>>,
    voice_states: Option<&Vec<Option<ChannelID>>>,
)
    ensures
        final(data).bot_id == old(data).bot_id,
        match connection {
            None => final(data).channel_id == old(data).channel_id && final(data).user_count@
                == old(data).user_count@,
            Some(None) => final(data).channel_id == ChannelID(1) && final(data).user_count@
                == old(data).user_count@,
            Some(Some(c)) => final(data).channel_id == c && final(data).user_count@ == (
            match voice_states {
                Some(states) => old(data).user_count@.insert(
                    c.0,
                    members_in(states@, c) as usize,
                ),
                None => old(data).user_count@,
            }),
        },
{
    match connection {
        Some(Some(c)) => {
            update_channel_id(data, c);
            update_member_count(data, c, voice_states);
        },
        Some(None) => {
            data.channel_id.0 = 1;
        },
        None => {},
    }
}


/// A member who enters the bot's channel and then leaves it (to no channel)
/// gives back the counts, when the channel's count is recorded and at least
/// two; the bot stays throughout.
pub proof fn lemma_join_then_leave_restores(
    counts: Map<u64, usize>,
    bot_channel: ChannelID,
    previous: Option<Option<ChannelID>>,
)
    requires
        counts.contains_key(bot_channel.0),
        2 <= count_of(counts, bot_channel.0) < usize::MAX,
    ensures
        ({
            let (joined, first) = after_user_update(counts, bot_channel, previous, Some(bot_channel));
            let (left, second) = after_user_update(
                joined,
                bot_channel,
                Some(Some(bot_channel)),
                None,
            );
            &&& first == VoiceAction::Stay
            &&& second == VoiceAction::Stay
            &&& left == counts
        }),
{
    let (joined, _) = after_user_update(counts, bot_channel, previous, Some(bot_channel));
    assert(count_of(joined, bot_channel.0) == count_of(counts, bot_channel.0) + 1);
    assert(joined.insert(bot_channel.0, counts[bot_channel.0]) =~= counts);
}

/// A member moving between two channels, neither of them the bot's, changes
/// nothing.
pub proof fn lemma_moves_elsewhere_change_nothing(
    counts: Map<u64, usize>,
    bot_channel: ChannelID,
    from: ChannelID,
    to: ChannelID,
)
    requires
        from.0 != bot_channel.0,
        to.0 != bot_channel.0,
    ensures
        after_user_update(counts, bot_channel, Some(Some(from)), Some(to)) == (
            counts,
            VoiceAction::Stay,
        ),
{
}

/// The bot leaves exactly when a member departs from its channel while one
/// or two members are counted there, and then all counts are forgotten.
pub proof fn lemma_leave_exactly_when_alone(
    counts: Map<u64, usize>,
    bot_channel: ChannelID,
    previous: Option<Option<ChannelID>>,
    now: Option<ChannelID>,
)
    ensures
        ({
            let (after, action) = after_user_update(counts, bot_channel, previous, now);
            let departs = match now {
                None => true,
                Some(c) => c.0 != bot_channel.0 && previous_channel(previous, bot_channel).0
                    == bot_channel.0,
            };
            &&& action == VoiceAction::Leave <==> (departs && 1 <= count_of(
                counts,
                bot_channel.0,
            ) <= 2)
            &&& action == VoiceAction::Leave ==> after == Map::<u64, usize>::empty()
        }),
{
}


/// Every voice state sitting in `channel` is counted, wherever it stands:
/// one more state adds one exactly when it sits in `channel`.
pub proof fn lemma_members_in_push(states: Seq<Option<ChannelID>>, x: Option<ChannelID>, channel: ChannelID)
    ensures
        members_in(states.push(x), channel) == members_in(states, channel) + (if x == Some(channel) {
            1int
        } else {
            0int
        }),
{
    assert(states.push(x).drop_last() =~= states);
}

/// Counting splits over any cut of the voice states: the count of two lists
/// put together is the sum of their counts (so order does not matter).
pub proof fn lemma_members_in_concat(a: Seq<Option<ChannelID>>, b: Seq<Option<ChannelID>>, channel: ChannelID)
    ensures
        members_in(a + b, channel) == members_in(a, channel) + members_in(b, channel),
    decreases b.len(),
{
    if b.len() == 0 {
        assert(a + b =~= a);
    } else {
        lemma_members_in_concat(a, b.drop_last(), channel);
        assert((a + b).drop_last() =~= a + b.drop_last());
        assert((a + b).last() == b.last());
    }
}

/// The count is the number of positions holding `channel`: no states count
/// nothing, and a single state counts one exactly when it is `channel`.
pub proof fn lemma_members_in_single(x: Option<ChannelID>, channel: ChannelID)
    ensures
        members_in(Seq::<Option<ChannelID>>::empty(), channel) == 0,
        members_in(seq![x], channel) == (if x == Some(channel) { 1int } else { 0int }),
{
    assert(seq![x].drop_last() =~= Seq::<Option<ChannelID>>::empty());
}

/// What a member's move does to the counts, case by case, with `n` the
/// count recorded for the bot's channel `b` (zero when none is):
/// - entering `b` records `n + 1` for `b` and stays;
/// - leaving `b`, by disconnecting or by moving from `b` to another channel,
///   records `0` when `n` is zero, clears every count and leaves when `n` is
///   one or two, and records `n - 1` otherwise, staying;
/// - any other move changes nothing and stays.
pub proof fn lemma_user_update_effect(
    counts: Map<u64, usize>,
    b: ChannelID,
    previous: Option<Option<ChannelID>>,
    now: Option<ChannelID>,
)
    requires
        counts.contains_key(b.0) ==> counts[b.0] < usize::MAX,
    ensures
        ({
            let n: int = if counts.contains_key(b.0) { counts[b.0] as int } else { 0 };
            let came_from_b = match previous {
                Some(Some(p)) => p.0 == b.0,
                _ => true,
            };
            let enters = match now {
                Some(c) => c.0 == b.0,
                None => false,
            };
            let departs = match now {
                None => true,
                Some(c) => c.0 != b.0 && came_from_b,
            };
            let (after, action) = after_user_update(counts, b, previous, now);
            &&& enters ==> after == counts.insert(b.0, (n + 1) as usize) && action
                == VoiceAction::Stay
            &&& departs && n == 0 ==> after == counts.insert(b.0, 0) && action == VoiceAction::Stay
            &&& departs && 1 <= n <= 2 ==> after == Map::<u64, usize>::empty() && action
                == VoiceAction::Leave
            &&& departs && n >= 3 ==> after == counts.insert(b.0, (n - 1) as usize) && action
                == VoiceAction::Stay
            &&& !enters && !departs ==> after == counts && action == VoiceAction::Stay
        }),
{
}

/// Moving out of the bot's channel to another channel has the same effect
/// as disconnecting from it.
pub proof fn lemma_move_out_is_departure(
    counts: Map<u64, usize>,
    b: ChannelID,
    other: ChannelID,
    previous_known: bool,
)
    requires
        other.0 != b.0,
    ensures
        after_user_update(counts, b, if previous_known { Some(Some(b)) } else { None }, Some(other))
            == after_user_update(counts, b, Some(Some(b)), None),
{
}

} // verus!
