use discordbot::checks::{
    bot_not_in_voice_check, user_in_voice_check,
    user_in_voice_with_bot_or_bot_not_in_any_voice_check, voice_channel, CheckFailure,
};

#[test]
fn bot_not_in_voice_passes_without_a_channel() {
    assert_eq!(bot_not_in_voice_check(None), Ok(()));
    assert_eq!(bot_not_in_voice_check(Some(None)), Ok(()));
    assert_eq!(bot_not_in_voice_check(Some(Some(5))), Err(CheckFailure::BotInVoice));
}

#[test]
fn user_in_voice_needs_a_voice_state() {
    assert_eq!(user_in_voice_check(None), Err(CheckFailure::UserNotInVoice));
    assert_eq!(user_in_voice_check(Some(None)), Ok(()));
    assert_eq!(user_in_voice_check(Some(Some(3))), Ok(()));
}

#[test]
fn combined_check_cases() {
    let check = user_in_voice_with_bot_or_bot_not_in_any_voice_check;
    assert_eq!(check(None, None), Ok(()));
    assert_eq!(check(Some(None), None), Ok(()));
    assert_eq!(check(Some(None), Some(Some(4))), Ok(()));
    assert_eq!(check(Some(Some(4)), Some(Some(4))), Ok(()));
    assert_eq!(check(Some(Some(4)), Some(Some(9))), Err(CheckFailure::UserNotWithBot));
    assert_eq!(check(Some(Some(4)), Some(None)), Err(CheckFailure::UserInNoChannel));
    assert_eq!(check(Some(Some(4)), None), Err(CheckFailure::UserInNoChannel));
}

#[test]
fn bot_free_guild_lets_every_author_through() {
    for user in [None, Some(None), Some(Some(1)), Some(Some(2))] {
        for bot in [None, Some(None)] {
            assert_eq!(bot_not_in_voice_check(bot), Ok(()));
            assert_eq!(user_in_voice_with_bot_or_bot_not_in_any_voice_check(bot, user), Ok(()));
        }
    }
}

#[test]
fn check_reasons() {
    assert_eq!(
        CheckFailure::BotInVoice.reason_text(),
        "Checking BotNotInVoice failed, bot is in a voice channel."
    );
    assert_eq!(
        CheckFailure::UserNotInVoice.reason_text(),
        "Checking InVoiceWithBot failed, user not in voice channel."
    );
    assert_eq!(
        CheckFailure::UserNotWithBot.reason_text(),
        "Checking InVoiceWithBot failed, user not in the same voice channel with bot."
    );
    assert_eq!(
        CheckFailure::UserInNoChannel.reason_text(),
        "Checking InVoiceWithBot failed, user is not in a voice channel."
    );
}

#[test]
fn voice_channel_flattens_presence() {
    assert_eq!(voice_channel(None), None);
    assert_eq!(voice_channel(Some(None)), None);
    assert_eq!(voice_channel(Some(Some(12))), Some(12));
}
