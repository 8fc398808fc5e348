use rustonance::handlers::{
    classify_voice_update, decrement_member_count, handle_bot_leave, handle_bot_voice_update,
    handle_ready_event, handle_user_voice_update, increment_member_count, update_channel_id,
    update_member_count, VoiceAction, VoiceUpdate,
};
use rustonance::model::{ChannelData, ChannelID, UserID};

fn state(channel: u64, counts: &[(u64, usize)]) -> ChannelData {
    let mut data = ChannelData::new(UserID(7), ChannelID(channel));
    for (c, n) in counts {
        data.user_count.insert(*c, *n);
    }
    data
}

#[test]
fn ids_give_back_their_numbers() {
    assert_eq!(ChannelID(42).get(), 42);
    assert_eq!(UserID(9).get(), 9);
}

#[test]
fn new_state_has_no_counts() {
    let data = ChannelData::new(UserID(1), ChannelID(1));
    assert_eq!(data.bot_id, UserID(1));
    assert_eq!(data.channel_id, ChannelID(1));
    assert!(data.user_count.is_empty());
    assert_eq!(data.count(ChannelID(5)), 0);
}

#[test]
fn user_count_increments_and_saturates_at_zero() {
    let mut data = state(10, &[]);
    data.increment_user_count(ChannelID(3));
    data.increment_user_count(ChannelID(3));
    assert_eq!(data.count(ChannelID(3)), 2);
    data.decrement_user_count(ChannelID(3));
    assert_eq!(data.count(ChannelID(3)), 1);
    data.decrement_user_count(ChannelID(3));
    data.decrement_user_count(ChannelID(3));
    assert_eq!(data.count(ChannelID(3)), 0);
    data.decrement_user_count(ChannelID(99));
    assert!(!data.user_count.contains_key(&99));
}

#[test]
fn increment_then_decrement_restores_counts() {
    let mut data = state(10, &[(10, 4), (11, 1)]);
    let before = data.user_count.clone();
    data.increment_user_count(ChannelID(10));
    data.decrement_user_count(ChannelID(10));
    assert_eq!(data.user_count, before);
}

#[test]
fn serializable_copy_keeps_everything() {
    let data = state(10, &[(10, 4)]);
    let copy = data.to_serializable();
    assert_eq!(copy.bot_id, data.bot_id);
    assert_eq!(copy.channel_id, data.channel_id);
    assert_eq!(copy.user_count, data.user_count);
}

#[test]
fn classify_tells_bot_from_user() {
    assert_eq!(classify_voice_update(Some(UserID(1)), Some(UserID(1))), VoiceUpdate::Bot);
    assert_eq!(classify_voice_update(Some(UserID(1)), Some(UserID(2))), VoiceUpdate::User);
    assert_eq!(classify_voice_update(None, Some(UserID(2))), VoiceUpdate::Ignore);
    assert_eq!(classify_voice_update(Some(UserID(1)), None), VoiceUpdate::Ignore);
}

#[test]
fn ready_event_records_bot_id() {
    let mut data = state(10, &[(10, 2)]);
    handle_ready_event(&mut data, UserID(77));
    assert_eq!(data.bot_id, UserID(77));
    assert_eq!(data.count(ChannelID(10)), 2);
}

#[test]
fn member_entering_bot_channel_is_counted() {
    let mut data = state(10, &[]);
    let a = handle_user_voice_update(&mut data, None, Some(ChannelID(10)));
    assert_eq!(a, VoiceAction::Stay);
    assert_eq!(data.count(ChannelID(10)), 1);
    increment_member_count(&mut data, ChannelID(10));
    assert_eq!(data.count(ChannelID(10)), 2);
}

#[test]
fn member_leaving_with_many_left_stays() {
    let mut data = state(10, &[(10, 5)]);
    let a = handle_user_voice_update(&mut data, Some(Some(ChannelID(10))), None);
    assert_eq!(a, VoiceAction::Stay);
    assert_eq!(data.count(ChannelID(10)), 4);
}

#[test]
fn last_member_leaving_makes_bot_leave() {
    let mut data = state(10, &[(10, 2), (12, 3)]);
    let a = handle_user_voice_update(&mut data, Some(Some(ChannelID(10))), Some(ChannelID(12)));
    assert_eq!(a, VoiceAction::Leave);
    assert!(data.user_count.is_empty());
    assert_eq!(data.channel_id, ChannelID(10));
}

#[test]
fn departure_from_uncounted_channel_records_zero() {
    let mut data = state(10, &[]);
    let a = handle_user_voice_update(&mut data, None, None);
    assert_eq!(a, VoiceAction::Stay);
    assert_eq!(data.user_count.get(&10), Some(&0));
}

#[test]
fn move_between_other_channels_changes_nothing() {
    let mut data = state(10, &[(10, 3), (11, 1)]);
    let before = data.user_count.clone();
    let a = handle_user_voice_update(&mut data, Some(Some(ChannelID(11))), Some(ChannelID(12)));
    assert_eq!(a, VoiceAction::Stay);
    assert_eq!(data.user_count, before);
}

#[test]
fn previous_state_without_channel_counts_as_bot_channel() {
    let mut data = state(10, &[(10, 4)]);
    let a = handle_user_voice_update(&mut data, Some(None), Some(ChannelID(12)));
    assert_eq!(a, VoiceAction::Stay);
    assert_eq!(data.count(ChannelID(10)), 3);
}

#[test]
fn join_then_leave_restores_counts() {
    let mut data = state(10, &[(10, 3)]);
    let before = data.user_count.clone();
    assert_eq!(handle_user_voice_update(&mut data, None, Some(ChannelID(10))), VoiceAction::Stay);
    assert_eq!(
        handle_user_voice_update(&mut data, Some(Some(ChannelID(10))), None),
        VoiceAction::Stay
    );
    assert_eq!(data.user_count, before);
}

#[test]
fn decrement_member_count_cases() {
    let mut data = state(10, &[(10, 1)]);
    assert_eq!(decrement_member_count(&mut data, ChannelID(10)), VoiceAction::Leave);
    assert!(data.user_count.is_empty());
    let mut data = state(10, &[(10, 2)]);
    assert_eq!(decrement_member_count(&mut data, ChannelID(10)), VoiceAction::Leave);
    let mut data = state(10, &[(10, 3)]);
    assert_eq!(decrement_member_count(&mut data, ChannelID(10)), VoiceAction::Stay);
    assert_eq!(data.count(ChannelID(10)), 2);
    let mut data = state(10, &[(10, 0)]);
    assert_eq!(decrement_member_count(&mut data, ChannelID(10)), VoiceAction::Stay);
    assert_eq!(data.user_count.get(&10), Some(&0));
}

#[test]
fn bot_leave_clears_counts() {
    let mut data = state(10, &[(10, 3), (4, 4)]);
    handle_bot_leave(&mut data);
    assert!(data.user_count.is_empty());
    assert_eq!(data.channel_id, ChannelID(10));
}

#[test]
fn member_count_counts_states_in_channel() {
    let mut data = state(1, &[]);
    let states = vec![Some(ChannelID(5)), None, Some(ChannelID(5)), Some(ChannelID(6))];
    update_member_count(&mut data, ChannelID(5), Some(&states));
    assert_eq!(data.count(ChannelID(5)), 2);
    update_member_count(&mut data, ChannelID(6), None);
    assert!(!data.user_count.contains_key(&6));
}

#[test]
fn bot_voice_update_moves_and_resets() {
    let mut data = state(1, &[]);
    let states = vec![Some(ChannelID(5)), Some(ChannelID(5)), Some(ChannelID(5))];
    handle_bot_voice_update(&mut data, Some(Some(ChannelID(5))), Some(&states));
    assert_eq!(data.channel_id, ChannelID(5));
    assert_eq!(data.count(ChannelID(5)), 3);
    handle_bot_voice_update(&mut data, Some(None), Some(&states));
    assert_eq!(data.channel_id, ChannelID(1));
    assert_eq!(data.count(ChannelID(5)), 3);
    handle_bot_voice_update(&mut data, None, None);
    assert_eq!(data.channel_id, ChannelID(1));
    update_channel_id(&mut data, ChannelID(8));
    assert_eq!(data.channel_id, ChannelID(8));
}
