use rustonance::commands::{
    debug_action, help_topic, idle_timeout, join_decision, play_query, play_reply, repeat_reply,
    repeat_toggle, skip_action, skip_reply, pause_reply, stop_reply, leave_reply, CallState, DebugAction, JoinDecision, LeaveOutcome, LoopToggle, PlayReply, SkipAction,
    DEFAULT_IDLE_TIMEOUT,
};
use rustonance::model::{ChannelID, TrackInfo};

#[test]
fn help_topic_as_subcommand() {
    assert_eq!(help_topic("help", Some("play".into())), Some("play".to_string()));
    assert_eq!(help_topic("help", None), None);
    assert_eq!(help_topic("fruit", Some("apple".into())), Some("fruit apple".to_string()));
    assert_eq!(help_topic("fruit", None), Some("fruit".to_string()));
}

#[test]
fn debug_arguments() {
    assert_eq!(debug_action(&None), DebugAction::Nothing);
    assert_eq!(debug_action(&Some("state".into())), DebugAction::ReportState);
    assert_eq!(debug_action(&Some("other".into())), DebugAction::Unknown);
}

#[test]
fn join_decisions() {
    let to = Some(ChannelID(4));
    assert_eq!(join_decision(None, None), JoinDecision::NotInVoice);
    assert_eq!(join_decision(to, None), JoinDecision::Join(ChannelID(4)));
    let idle = CallState { current_channel: None, queue_empty: false };
    assert_eq!(join_decision(to, Some(idle)), JoinDecision::Join(ChannelID(4)));
    let empty = CallState { current_channel: Some(ChannelID(9)), queue_empty: true };
    assert_eq!(join_decision(to, Some(empty)), JoinDecision::Join(ChannelID(4)));
    let busy = CallState { current_channel: Some(ChannelID(9)), queue_empty: false };
    assert_eq!(join_decision(to, Some(busy)), JoinDecision::Busy);
    let here = CallState { current_channel: Some(ChannelID(4)), queue_empty: false };
    assert_eq!(join_decision(to, Some(here)), JoinDecision::Stay);
    assert_eq!(join_decision(None, Some(here)), JoinDecision::NotInVoice);
}

#[test]
fn idle_timeout_setting() {
    assert_eq!(DEFAULT_IDLE_TIMEOUT, 60 * 5);
    assert_eq!(idle_timeout(None), 300);
    assert_eq!(idle_timeout(Some("120".into())), 120);
    assert_eq!(idle_timeout(Some("soon".into())), 300);
    assert_eq!(idle_timeout(Some("".into())), 300);
}

#[test]
fn play_query_joins_words() {
    assert_eq!(play_query(&vec!["never".into(), "gonna".into(), "give".into()]), "never gonna give");
    assert_eq!(play_query(&vec![]), "");
}

fn track() -> TrackInfo {
    TrackInfo {
        name: "Song".into(),
        artists: vec!["A".into(), "B".into()],
        duration: 61,
        image_url: "img".into(),
    }
}

#[test]
fn play_reply_first_track_gets_card() {
    match play_reply(&track(), 1, 99) {
        PlayReply::NowPlaying(e) => {
            assert_eq!(e.fields[0].value, "Song");
            assert_eq!(e.fields[1].value, "A B");
            assert_eq!(e.fields[2].value, "01:01");
            assert_eq!(e.footer, "Queue: 1");
            assert_eq!(e.timestamp, 99);
        }
        PlayReply::Queued(_) => panic!("expected a card"),
    }
}

#[test]
fn play_reply_later_track_gets_position() {
    match play_reply(&track(), 4, 99) {
        PlayReply::Queued(t) => assert_eq!(t, "Added Song to queue: position 4"),
        PlayReply::NowPlaying(_) => panic!("expected a confirmation"),
    }
}

#[test]
fn repeat_flips_looping() {
    assert_eq!(repeat_toggle(true), LoopToggle::Disable);
    assert_eq!(repeat_toggle(false), LoopToggle::Enable);
    assert_eq!(repeat_reply(true, true), "Disabling the loop!");
    assert_eq!(repeat_reply(false, true), "Repeating, remember to use /repeat again to disable");
    assert_eq!(repeat_reply(true, false), "Sorry something went wrong");
    assert_eq!(repeat_reply(false, false), "Sorry something went wrong");
}

#[test]
fn skip_replies() {
    assert_eq!(skip_action(Some(true)), SkipAction::Skip);
    assert_eq!(skip_action(Some(false)), SkipAction::NothingToSkip);
    assert_eq!(skip_action(None), SkipAction::NotConnected);
    assert_eq!(skip_reply(SkipAction::Skip), "Skipping song!");
    assert_eq!(skip_reply(SkipAction::NothingToSkip), "No Song to skip");
    assert_eq!(skip_reply(SkipAction::NotConnected), "Not in a voice channel to play in");
}

#[test]
fn queue_command_replies() {
    assert_eq!(pause_reply(true), "Pausing");
    assert_eq!(pause_reply(false), "Not in a voice channel to play in");
    assert_eq!(stop_reply(true), "Stopped and cleared the queue");
    assert_eq!(stop_reply(false), "Not in a voice channel to play in");
    assert_eq!(leave_reply(LeaveOutcome::NoGuild), "This command can only be used in a guild.");
    assert_eq!(leave_reply(LeaveOutcome::NotConnected), "Not in a voice channel to leave.");
    assert_eq!(leave_reply(LeaveOutcome::Left), "Left the voice channel.");
    assert_eq!(leave_reply(LeaveOutcome::Failed), "Failed to leave the voice channel, please try again.");
}
