//! The checks that guard voice commands, decided from where the bot and the
//! command's author are connected.
//!
//! A voice presence is written as `Option<Option<u64>>`:
//! - for the author, `None` when the guild holds no voice state of the author,
//!   and `Some(c)` with the state's channel `c` otherwise;
//! - for the bot, `None` when the voice manager holds no call for the guild,
//!   and `Some(c)` with the call's current channel `c` otherwise.

use vstd::prelude::*;

verus! {

/// Why a check refused a command.
#[derive(Clone, Copy, Debug, PartialEq, Eq, Structural)]
pub enum CheckFailure {
    /// The bot is connected to a voice channel.
    BotInVoice,
    /// The author has no voice state in the guild.
    UserNotInVoice,
    /// The author is in another voice channel than the bot.
    UserNotWithBot,
    /// The bot is in a voice channel and the author in none.
    UserInNoChannel,
}

/// The channel of a voice presence, if it names one.
pub open spec fn channel_of(presence: Option<Option<u64>>) -> Option<u64> {
    match presence {
        Some(Some(c)) => Some(c),
        _ => None,
    }
}

/// The channel of a voice presence, if it names one.
pub fn voice_channel(presence: Option<Option<u64>>) -> (c: Option<u64>)
    ensures
        c == channel_of(presence),
{
    match presence {
        Some(Some(c)) => Some(c),
        _ => None,
    }
}

impl CheckFailure {
    /// The reason given to the author.
    pub open spec fn reason(self) -> Seq<char> {
        match self {
            CheckFailure::BotInVoice => "Checking BotNotInVoice failed, bot is in a voice channel."@,
            CheckFailure::UserNotInVoice => "Checking InVoiceWithBot failed, user not in voice channel."@,
            CheckFailure::UserNotWithBot =>
                "Checking InVoiceWithBot failed, user not in the same voice channel with bot."@,
            CheckFailure::UserInNoChannel =>
                "Checking InVoiceWithBot failed, user is not in a voice channel."@,
        }
    }

    /// The reason given to the author.
    pub fn reason_text(&self) -> (s: String)
        ensures
            s@ == self.reason(),
    {
        match self {
            CheckFailure::BotInVoice => String::from_str(
                "Checking BotNotInVoice failed, bot is in a voice channel.",
            ),
            CheckFailure::UserNotInVoice => String::from_str(
                "Checking InVoiceWithBot failed, user not in voice channel.",
            ),
            CheckFailure::UserNotWithBot => String::from_str(
                "Checking InVoiceWithBot failed, user not in the same voice channel with bot.",
            ),
            CheckFailure::UserInNoChannel => String::from_str(
                "Checking InVoiceWithBot failed, user is not in a voice channel.",
            ),
        }
    }
}

/// The verdict of the `bot_not_in_voice` check: it passes exactly when the
/// bot is not connected to a voice channel of the guild.
pub open spec fn bot_not_in_voice_verdict(bot: Option<Option<u64>>) -> Result<(), CheckFailure> {
    if channel_of(bot) is None {
        Ok(())
    } else {
        Err(CheckFailure::BotInVoice)
    }
}

/// The verdict of the `user_in_voice` check: it passes exactly when the
/// guild holds a voice state of the author.
pub open spec fn user_in_voice_verdict(user: Option<Option<u64>>) -> Result<(), CheckFailure> {
    if user is Some {
        Ok(())
    } else {
        Err(CheckFailure::UserNotInVoice)
    }
}

/// The verdict of the `user_in_voice_with_bot_or_bot_not_in_any_voice`
/// check: it passes when the bot is in no voice channel, or when the author
/// is in the bot's channel.
pub open spec fn with_bot_or_bot_free_verdict(
    bot: Option<Option<u64>>,
    user: Option<Option<u64>>,
) -> Result<(), CheckFailure> {
    match channel_of(bot) {
        None => Ok(()),
        Some(b) => match channel_of(user) {
            None => Err(CheckFailure::UserInNoChannel),
            Some(u) => if u == b {
                Ok(())
            } else {
                Err(CheckFailure::UserNotWithBot)
            },
        },
    }
}

/// Check `bot_not_in_voice`: refuses the command while the bot is connected
/// to a voice channel of the guild.
pub fn bot_not_in_voice_check(bot: Option<Option<u64>>) -> (r: Result<(), CheckFailure>)
    ensures
        r == bot_not_in_voice_verdict(bot),
{
    match bot {
        None => Ok(()),
        Some(current) => match current {
            None => Ok(()),
            Some(_) => Err(CheckFailure::BotInVoice),
        },
    }
}

/// Check `user_in_voice`: refuses the command when the author has no voice
/// state in the guild.
pub fn user_in_voice_check(user: Option<Option<u64>>) -> (r: Result<(), CheckFailure>)
    ensures
        r == user_in_voice_verdict(user),
{
    match user {
        None => Err(CheckFailure::UserNotInVoice),
        Some(_) => Ok(()),
    }
}

/// Check `user_in_voice_with_bot_or_bot_not_in_any_voice`: when the bot is
/// in a voice channel, the author must be in the same channel.
pub fn user_in_voice_with_bot_or_bot_not_in_any_voice_check(
    bot: Option<Option<u64>>,
    user: Option<Option<u64>>,
) -> (r: Result<(), CheckFailure>)
    ensures
        r == with_bot_or_bot_free_verdict(bot, user),
{
    let handler = match bot {
        Some(h) => h,
        None => {
            return Ok(());
        },
    };
    if let Some(bot_channel) = handler {
        match voice_channel(user) {
            Some(author_channel) => {
                if bot_channel != author_channel {
                    return Err(CheckFailure::UserNotWithBot);
                }
            },
            None => {
                return Err(CheckFailure::UserInNoChannel);
            },
        }
    }
    Ok(())
}

/// The combined check passes exactly when the bot is in no voice channel or
/// the author is in the bot's channel.
pub proof fn lemma_with_bot_or_bot_free_passes(bot: Option<Option<u64>>, user: Option<Option<u64>>)
    ensures
        with_bot_or_bot_free_verdict(bot, user) is Ok <==> (channel_of(bot) is None || channel_of(user)
            == channel_of(bot)),
{
}

/// Whatever the `bot_not_in_voice` check lets through, the combined check
/// lets through too, for any author.
pub proof fn lemma_bot_free_passes_combined(bot: Option<Option<u64>>, user: Option<Option<u64>>)
    requires
        bot_not_in_voice_verdict(bot) is Ok,
    ensures
        with_bot_or_bot_free_verdict(bot, user) is Ok,
{
}

/// When the combined check refuses an author, the author is not where the
/// bot is, and the refusal says whether the author is in a channel at all.
pub proof fn lemma_combined_refusal_reason(bot: Option<Option<u64>>, user: Option<Option<u64>>)
    requires
        with_bot_or_bot_free_verdict(bot, user) is Err,
    ensures
        channel_of(bot) is Some,
        channel_of(user) != channel_of(bot),
        with_bot_or_bot_free_verdict(bot, user) == (if channel_of(user) is None {
            Err::<(), CheckFailure>(CheckFailure::UserInNoChannel)
        } else {
            Err::<(), CheckFailure>(CheckFailure::UserNotWithBot)
        }),
{
}

/// The channel of a presence is the channel that it names: an author or a
/// bot with no voice state, or one not in a channel, has none.
pub proof fn lemma_channel_of(channel: u64)
    ensures
        channel_of(Some(Some(channel))) == Some(channel),
        channel_of(Some(None)) is None,
        channel_of(None) is None,
{
}

/// `bot_not_in_voice` passes exactly when the bot is in no channel, and
/// otherwise refuses because the bot is in one; `user_in_voice` passes
/// exactly when the author has a voice state, and otherwise refuses
/// because the author is not in voice.
pub proof fn lemma_simple_checks(bot: Option<Option<u64>>, user: Option<Option<u64>>)
    ensures
        bot_not_in_voice_verdict(bot) is Ok <==> !(bot matches Some(Some(_))),
        bot_not_in_voice_verdict(bot) is Err ==> bot_not_in_voice_verdict(bot) == Err::<(), CheckFailure>(
            CheckFailure::BotInVoice,
        ),
        user_in_voice_verdict(user) is Ok <==> user is Some,
        user_in_voice_verdict(user) is Err ==> user_in_voice_verdict(user) == Err::<(), CheckFailure>(
            CheckFailure::UserNotInVoice,
        ),
{
}

} // verus!
