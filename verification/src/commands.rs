//! The decisions behind the chat commands: what a query asks for, which
//! topic `help` explains, whether `join` may move the bot, and how long the
//! bot may stay idle.

use crate::messaging::{format_time_text, queue_footer, track_embed, MusicEmbed, DARK_BLUE};
use crate::model::{ChannelID, TrackInfo};
use crate::text::{decimal, join, join_strings, parse_unsigned, parse_usize, push_decimal, str_eq, views};
use vstd::prelude::*;

verus! {

/// What a play request asks for.
#[derive(Debug, Clone, PartialEq, Eq)]
pub enum QueryType {
    /// Words to search for.
    Keywords(String),
    /// Several searches.
    KeywordList(Vec<String>),
    /// A link to one video.
    VideoLink(String),
    /// A link to a playlist.
    PlaylistLink(String),
}


/// The topic `help` explains. Invoked under another command's name (as that
/// command's subcommand), the topic is that name, followed by a space and the
/// words given, if any; invoked as `help`, it is the words given.
pub fn help_topic(invoked: &str, command: Option<String>) -> (topic: Option<String>)
    ensures
        invoked@ == "help"@ ==> topic == command,
        invoked@ != "help"@ ==> match command {
            Some(c) => topic matches Some(t) && t@ == invoked@ + " "@ + c@,
            None => topic matches Some(t) && t@ == invoked@,
        },
{
    if str_eq(invoked, "help") {
        command
    } else {
        let mut t = invoked.to_string();
        match command {
            Some(c) => {
                proof { reveal_strlit(" "); }
                t.append(" ");
                t.append(c.as_str());
                Some(t)
            },
            None => Some(t),
        }
    }
}

/// What the `debug` command was asked for.
#[derive(Debug, Clone, Copy, PartialEq, Eq, Structural)]
pub enum DebugAction {
    /// No argument: say nothing.
    Nothing,
    /// `state`: report the shared state.
    ReportState,
    /// Any other argument: the command is unknown.
    Unknown,
}

/// Reads the argument of the `debug` command.
pub fn debug_action(command: &Option<String>) -> (action: DebugAction)
    ensures
        action == (match command {
            None => DebugAction::Nothing,
            Some(c) => if c@ == "state"@ { DebugAction::ReportState } else { DebugAction::Unknown },
        }),
{
    match command {
        None => DebugAction::Nothing,
        Some(c) => if str_eq(c.as_str(), "state") {
            DebugAction::ReportState
        } else {
            DebugAction::Unknown
        },
    }
}

/// The state of the bot's voice connection in a guild.
#[derive(Debug, Clone, Copy, PartialEq, Eq, Structural)]
pub struct CallState {
    /// The channel the connection sits in, if any.
    pub current_channel: Option<ChannelID>,
    /// Whether nothing is queued.
    pub queue_empty: bool,
}

/// What `join` should do.
#[derive(Debug, Clone, Copy, PartialEq, Eq, Structural)]
pub enum JoinDecision {
    /// The member is in no voice channel: say so and stop.
    NotInVoice,
    /// Connect to this channel and say so.
    Join(ChannelID),
    /// The bot is playing in another channel: refuse and stop.
    Busy,
    /// The bot already plays in this channel: keep the connection.
    Stay,
}

/// Decides `join` from the member's voice channel and the bot's connection
/// in the guild: the bot moves unless it is connected, has a queue, and sits
/// in another channel (then it is busy) or in the member's (then it stays).
pub fn join_decision(author_channel: Option<ChannelID>, call: Option<CallState>) -> (d: JoinDecision)
    ensures
        d == (match author_channel {
            None => JoinDecision::NotInVoice,
            Some(to) => match call {
                Some(CallState { current_channel: Some(current), queue_empty: false }) => if current
                    == to {
                    JoinDecision::Stay
                } else {
                    JoinDecision::Busy
                },
                _ => JoinDecision::Join(to),
            },
        }),
{
    match author_channel {
        None => JoinDecision::NotInVoice,
        Some(to) => match call {
            Some(state) => match state.current_channel {
                Some(current) => if state.queue_empty {
                    JoinDecision::Join(to)
                } else if current.get() != to.get() {
                    JoinDecision::Busy
                } else {
                    JoinDecision::Stay
                },
                None => JoinDecision::Join(to),
            },
            None => JoinDecision::Join(to),
        },
    }
}

/// Seconds of silence after which the bot leaves, unless configured.
pub const DEFAULT_IDLE_TIMEOUT: usize = 300;

/// The idle timeout: the configured value when it reads as an unsigned
/// number, the default otherwise.
pub fn idle_timeout(setting: Option<String>) -> (t: usize)
    ensures
        t == (match setting {
            Some(v) => match parse_unsigned(v@, usize::MAX as nat) {
                Some(n) => n as usize,
                None => DEFAULT_IDLE_TIMEOUT,
            },
            None => DEFAULT_IDLE_TIMEOUT,
        }),
{
    match setting {
        Some(v) => match parse_usize(v.as_str()) {
            Some(n) => n,
            None => DEFAULT_IDLE_TIMEOUT,
        },
        None => DEFAULT_IDLE_TIMEOUT,
    }
}

/// The words of a play request, separated by spaces.
pub fn play_query(message: &Vec<String>) -> (q: String)
    ensures
        q@ == join(views(message@), " "@),
{
    join_strings(message, " ")
}

/// The confirmation after a track was queued at `position`.
pub open spec fn queued_text(name: Seq<char>, position: nat) -> Seq<char> {
    "Added "@ + name + " to queue: position "@ + decimal(position)
}

/// How `play` answers once a track is queued.
pub enum PlayReply {
    /// The track plays at once: post its card.
    NowPlaying(MusicEmbed),
    /// The track waits in the queue: confirm its position.
    Queued(String),
}

/// The answer to `play` for `track`, with `queue_len` tracks queued
/// (the new one included): its card, stamped `now`, when it is the only
/// one, the confirmation of its position otherwise.
pub fn play_reply(track: &TrackInfo, queue_len: usize, now: i64) -> (reply: PlayReply)
    ensures
        match reply {
            PlayReply::NowPlaying(e) => {
                &&& queue_len == 1
                &&& e.title@ == "Now Playing"@
                &&& e.fields@.len() == 3
                &&& e.fields@[0].name@ == "Title"@
                &&& e.fields@[0].value@ == track.name@
                &&& e.fields@[1].name@ == "Artist"@
                &&& e.fields@[1].value@ == join(views(track.artists@), " "@)
                &&& e.fields@[2].name@ == "Duration"@
                &&& e.fields@[2].value@ == format_time_text(track.duration as nat)
                &&& forall|i: int| 0 <= i < 3 ==> !(#[trigger] e.fields@[i]).inline
                &&& e.image_url@ == track.image_url@
                &&& e.colour == DARK_BLUE
                &&& e.footer@ == queue_footer(1)
                &&& e.timestamp == now
            },
            PlayReply::Queued(t) => queue_len != 1 && t@ == queued_text(track.name@, queue_len as nat),
        },
{
    if queue_len == 1 {
        PlayReply::NowPlaying(
            track_embed(&track.name, &track.artists, track.duration, queue_len, &track.image_url, now),
        )
    } else {
        let mut t = "Added ".to_string();
        t.append(track.name.as_str());
        proof { reveal_strlit(" to queue: position "); }
        t.append(" to queue: position ");
        push_decimal(&mut t, queue_len as u64);
        PlayReply::Queued(t)
    }
}


/// Which way `repeat` flips looping of the current track.
#[derive(Debug, Clone, Copy, PartialEq, Eq, Structural)]
pub enum LoopToggle {
    Enable,
    Disable,
}

/// `repeat` turns looping off when the track loops forever, on otherwise.
pub fn repeat_toggle(was_looping: bool) -> (t: LoopToggle)
    ensures
        t == (if was_looping { LoopToggle::Disable } else { LoopToggle::Enable }),
{
    if was_looping {
        LoopToggle::Disable
    } else {
        LoopToggle::Enable
    }
}

/// What `repeat` answers, given whether the track looped and whether
/// flipping it worked.
pub fn repeat_reply(was_looping: bool, toggled: bool) -> (text: &'static str)
    ensures
        text@ == (if !toggled {
            "Sorry something went wrong"@
        } else if was_looping {
            "Disabling the loop!"@
        } else {
            "Repeating, remember to use /repeat again to disable"@
        }),
{
    if !toggled {
        "Sorry something went wrong"
    } else if was_looping {
        "Disabling the loop!"
    } else {
        "Repeating, remember to use /repeat again to disable"
    }
}

/// What a queue command answers when the bot has no voice connection.
pub open spec fn not_connected_text() -> Seq<char> {
    "Not in a voice channel to play in"@
}

/// What `skip` and `next` do.
#[derive(Debug, Clone, Copy, PartialEq, Eq, Structural)]
pub enum SkipAction {
    /// No voice connection: say so.
    NotConnected,
    /// A track plays: skip it.
    Skip,
    /// Nothing plays: say so.
    NothingToSkip,
}

/// Decides `skip` from the connection: absent when the bot has none, else
/// whether a track is playing. It skips only when a track plays.
pub fn skip_action(playing: Option<bool>) -> (a: SkipAction)
    ensures
        a == (match playing {
            None => SkipAction::NotConnected,
            Some(true) => SkipAction::Skip,
            Some(false) => SkipAction::NothingToSkip,
        }),
{
    match playing {
        None => SkipAction::NotConnected,
        Some(p) => if p {
            SkipAction::Skip
        } else {
            SkipAction::NothingToSkip
        },
    }
}

/// What `skip` answers.
pub fn skip_reply(action: SkipAction) -> (text: &'static str)
    ensures
        text@ == (match action {
            SkipAction::NotConnected => not_connected_text(),
            SkipAction::Skip => "Skipping song!"@,
            SkipAction::NothingToSkip => "No Song to skip"@,
        }),
{
    match action {
        SkipAction::NotConnected => "Not in a voice channel to play in",
        SkipAction::Skip => "Skipping song!",
        SkipAction::NothingToSkip => "No Song to skip",
    }
}

/// What `pause` answers: it pauses the queue only when connected.
pub fn pause_reply(connected: bool) -> (text: &'static str)
    ensures
        text@ == (if connected { "Pausing"@ } else { not_connected_text() }),
{
    if connected {
        "Pausing"
    } else {
        "Not in a voice channel to play in"
    }
}

/// What `stop` answers: it stops and clears the queue only when connected.
pub fn stop_reply(connected: bool) -> (text: &'static str)
    ensures
        text@ == (if connected { "Stopped and cleared the queue"@ } else { not_connected_text() }),
{
    if connected {
        "Stopped and cleared the queue"
    } else {
        "Not in a voice channel to play in"
    }
}

/// How a `leave` request went.
#[derive(Debug, Clone, Copy, PartialEq, Eq, Structural)]
pub enum LeaveOutcome {
    /// Not asked inside a guild.
    NoGuild,
    /// The bot has no voice connection in the guild.
    NotConnected,
    /// The bot disconnected; its events are removed and its queue stopped.
    Left,
    /// Disconnecting failed.
    Failed,
}

/// What `leave` answers.
pub fn leave_reply(outcome: LeaveOutcome) -> (text: &'static str)
    ensures
        text@ == (match outcome {
            LeaveOutcome::NoGuild => "This command can only be used in a guild."@,
            LeaveOutcome::NotConnected => "Not in a voice channel to leave."@,
            LeaveOutcome::Left => "Left the voice channel."@,
            LeaveOutcome::Failed => "Failed to leave the voice channel, please try again."@,
        }),
{
    match outcome {
        LeaveOutcome::NoGuild => "This command can only be used in a guild.",
        LeaveOutcome::NotConnected => "Not in a voice channel to leave.",
        LeaveOutcome::Left => "Left the voice channel.",
        LeaveOutcome::Failed => "Failed to leave the voice channel, please try again.",
    }
}


/// The queue confirmation reads `Added `, the track name, ` to queue:
/// position `, then the position in decimal.
pub proof fn lemma_queued_text_layout(name: Seq<char>, position: nat)
    ensures
        ({
            let t = queued_text(name, position);
            let k = 6 + name.len() as int;
            &&& t.take(6) == seq!['A', 'd', 'd', 'e', 'd', ' ']
            &&& t.subrange(6, k) == name
            &&& t.subrange(k, k + 20) == " to queue: position "@
            &&& t.skip(k + 20) == decimal(position)
        }),
{
    reveal_strlit("Added ");
    reveal_strlit(" to queue: position ");
    let t = queued_text(name, position);
    let k = 6 + name.len() as int;
    assert(t.take(6) =~= seq!['A', 'd', 'd', 'e', 'd', ' ']);
    assert(t.subrange(6, k) =~= name);
    assert(t.subrange(k, k + 20) =~= " to queue: position "@);
    assert(t.skip(k + 20) =~= decimal(position));
}

} // verus!
