//! Every message the bot sends in answer to a command, with its exact text
//! and the way it is delivered.

use vstd::prelude::*;
use crate::decimal::{decimal, render_u64};

verus! {

/// How a message reaches the channel.
#[derive(Clone, Copy, Debug, PartialEq, Eq, Structural)]
pub enum Delivery {
    /// Sent to the channel of the command as a plain message.
    Say,
    /// Sent as a reply to the message that invoked the command.
    Reply,
}

/// A message that a command sends.
#[derive(Debug, PartialEq, Eq)]
pub enum Reply {
    About,
    Pong,
    YouAreAdmin,
    YouAreNotAdmin,
    /// The remaining arguments of the command, shown in `Debug` notation.
    Arguments(String),
    UpperMain,
    UpperSub,
    BirdHelp,
    /// The name of an animal that the bird command does not know.
    BirdUnknown(String),
    Cat,
    Dog,
    SlowModeSet(u64),
    SlowModeSetFailed(u64),
    SlowModeCurrent(u64),
    ChannelNotCached,
    /// The name of a command that does not exist.
    UnknownCommand(String),
    /// Seconds until a rate-limited command may be used again.
    TryAgainIn(u64),
    UserNotInVoice,
    JoinFailed,
    LeaveFailed,
    BotNotInVoice,
    NoSearchResult,
    AddedToQueue(String),
    NowPlaying(String),
    NothingPlaying,
    NothingToSkip,
    Skipped(String),
    SkipFailed,
    RejoinNeeded,
    QueueLength(u64),
    OnLoop,
    NotOnLoop,
    ErrorTryAgain,
    MissingUrl,
    InvalidUrl,
    PlayFailed,
    Playing,
    MuteFailed,
    UnmuteFailed,
    DeafenFailed,
    UndeafenFailed,
}

/// What `format!("{:?}", s)` writes for the string `s`: std's `Debug`
/// notation of a `str`, the string between double quotes with some
/// characters escaped. (It is not `str::escape_debug`: `Debug` leaves `'`
/// as it is and escapes grapheme extenders wherever they stand.)
pub uninterp spec fn debug_quoted(s: Seq<char>) -> Seq<char>;

/// Calls std's `Debug` formatting of `str`, through `format!("{:?}", ..)`.
/// The contract only names the result; what the escaping does is not stated.
#[verifier::external_body]
fn debug_quote(s: &str) -> (r: String)
    ensures
        r@ == debug_quoted(s@),
{
    format!("{:?}", s)
}

/// The text of the `some_long_command` answer, from the arguments already
/// written in `Debug` notation.
pub fn arguments_text(quoted: &str) -> (s: String)
    ensures
        s@ == "Arguments: "@ + quoted@,
{
    String::from_str("Arguments: ").concat(quoted)
}

impl Reply {
    /// The way this message is sent.
    pub open spec fn delivered_by(self) -> Delivery {
        match self {
            Reply::About | Reply::Pong | Reply::YouAreAdmin | Reply::YouAreNotAdmin
            | Reply::Arguments(_) | Reply::BirdHelp | Reply::BirdUnknown(_) | Reply::Cat
            | Reply::Dog | Reply::SlowModeSet(_) | Reply::SlowModeSetFailed(_)
            | Reply::SlowModeCurrent(_) | Reply::ChannelNotCached | Reply::TryAgainIn(_)
            | Reply::NothingToSkip => Delivery::Say,
            _ => Delivery::Reply,
        }
    }

    /// The text of this message.
    pub open spec fn message(self) -> Seq<char> {
        match self {
            Reply::About => "Hi, I am a multipurpose bot! : )"@,
            Reply::Pong => "Pong! :)"@,
            Reply::YouAreAdmin => "Yes, you are."@,
            Reply::YouAreNotAdmin => "No, you are not."@,
            Reply::Arguments(rest) => "Arguments: "@ + debug_quoted(rest@),
            Reply::UpperMain => "This is the main function!"@,
            Reply::UpperSub => "This is a sub function!"@,
            Reply::BirdHelp => ":bird: can find animals for you."@,
            Reply::BirdUnknown(name) => ":bird: could not find animal named: `"@ + name@ + "`."@,
            Reply::Cat => ":cat:"@,
            Reply::Dog => ":dog:"@,
            Reply::SlowModeSet(rate) => "Successfully set slow mode rate to `"@ + decimal(rate as nat)
                + "` seconds."@,
            Reply::SlowModeSetFailed(rate) => "Failed to set slow mode to `"@ + decimal(rate as nat)
                + "` seconds"@,
            Reply::SlowModeCurrent(rate) => "Current slow mode rate is `"@ + decimal(rate as nat)
                + "` seconds."@,
            Reply::ChannelNotCached => "Failed to find channel in cache."@,
            Reply::UnknownCommand(name) => "Could not find command named '"@ + name@ + "'"@,
            Reply::TryAgainIn(secs) => "Try this again in "@ + decimal(secs as nat) + " seconds."@,
            Reply::UserNotInVoice => "U are not in a voice channel!"@,
            Reply::JoinFailed => "Joining voice channel failed, please try again."@,
            Reply::LeaveFailed => "Leaving failed, please try again."@,
            Reply::BotNotInVoice => "I'm not in a voice channel!"@,
            Reply::NoSearchResult => "Could not find any result of the search query."@,
            Reply::AddedToQueue(title) => "Added to queue: "@ + title@,
            Reply::NowPlaying(title) => "Now Playing: "@ + title@,
            Reply::NothingPlaying => "Nothing is playing at the moment."@,
            Reply::NothingToSkip => "Nothing to skip."@,
            Reply::Skipped(title) => "Skipped: "@ + title@,
            Reply::SkipFailed => "Skipping failed, please try again."@,
            Reply::RejoinNeeded => "An error has occurred, please have me rejoin the channel."@,
            Reply::QueueLength(n) => "There are **"@ + decimal(n as nat) + "** songs currently in queue."@,
            Reply::OnLoop => "Song is on loop!"@,
            Reply::NotOnLoop => "Song is not on loop!"@,
            Reply::ErrorTryAgain => "An error has occurred, please try again."@,
            Reply::MissingUrl => "Must provide a URL to a video or audio"@,
            Reply::InvalidUrl => "Are u sure this is a valid URL?"@,
            Reply::PlayFailed => "Attempt to play audio failed. Please try again."@,
            Reply::Playing => "Playing!"@,
            Reply::MuteFailed => "Muting failed, please try again."@,
            Reply::UnmuteFailed => "Unmuting failed, please try again."@,
            Reply::DeafenFailed => "Failed to deafen voice, please try again."@,
            Reply::UndeafenFailed => "Undeafening failed, please try again."@,
        }
    }

    /// The way this message is sent.
    pub fn delivery(&self) -> (d: Delivery)
        ensures
            d == self.delivered_by(),
    {
        match self {
            Reply::About | Reply::Pong | Reply::YouAreAdmin | Reply::YouAreNotAdmin
            | Reply::Arguments(_) | Reply::BirdHelp | Reply::BirdUnknown(_) | Reply::Cat
            | Reply::Dog | Reply::SlowModeSet(_) | Reply::SlowModeSetFailed(_)
            | Reply::SlowModeCurrent(_) | Reply::ChannelNotCached | Reply::TryAgainIn(_)
            | Reply::NothingToSkip => Delivery::Say,
            _ => Delivery::Reply,
        }
    }

    /// The text of this message.
    pub fn text(&self) -> (s: String)
        ensures
            s@ == self.message(),
    {
        match self {
            Reply::About => String::from_str("Hi, I am a multipurpose bot! : )"),
            Reply::Pong => String::from_str("Pong! :)"),
            Reply::YouAreAdmin => String::from_str("Yes, you are."),
            Reply::YouAreNotAdmin => String::from_str("No, you are not."),
            Reply::Arguments(rest) => {
                let quoted = debug_quote(rest.as_str());
                arguments_text(quoted.as_str())
            },
            Reply::UpperMain => String::from_str("This is the main function!"),
            Reply::UpperSub => String::from_str("This is a sub function!"),
            Reply::BirdHelp => String::from_str(":bird: can find animals for you."),
            Reply::BirdUnknown(name) => String::from_str(":bird: could not find animal named: `").concat(
                name.as_str(),
            ).concat("`."),
            Reply::Cat => String::from_str(":cat:"),
            Reply::Dog => String::from_str(":dog:"),
            Reply::SlowModeSet(rate) => {
                let n = render_u64(*rate);
                String::from_str("Successfully set slow mode rate to `").concat(n.as_str()).concat(
                    "` seconds.",
                )
            },
            Reply::SlowModeSetFailed(rate) => {
                let n = render_u64(*rate);
                String::from_str("Failed to set slow mode to `").concat(n.as_str()).concat("` seconds")
            },
            Reply::SlowModeCurrent(rate) => {
                let n = render_u64(*rate);
                String::from_str("Current slow mode rate is `").concat(n.as_str()).concat(
                    "` seconds.",
                )
            },
            Reply::ChannelNotCached => String::from_str("Failed to find channel in cache."),
            Reply::UnknownCommand(name) => String::from_str("Could not find command named '").concat(
                name.as_str(),
            ).concat("'"),
            Reply::TryAgainIn(secs) => {
                let n = render_u64(*secs);
                String::from_str("Try this again in ").concat(n.as_str()).concat(" seconds.")
            },
            Reply::UserNotInVoice => String::from_str("U are not in a voice channel!"),
            Reply::JoinFailed => String::from_str("Joining voice channel failed, please try again."),
            Reply::LeaveFailed => String::from_str("Leaving failed, please try again."),
            Reply::BotNotInVoice => String::from_str("I'm not in a voice channel!"),
            Reply::NoSearchResult => String::from_str("Could not find any result of the search query."),
            Reply::AddedToQueue(title) => String::from_str("Added to queue: ").concat(title.as_str()),
            Reply::NowPlaying(title) => String::from_str("Now Playing: ").concat(title.as_str()),
            Reply::NothingPlaying => String::from_str("Nothing is playing at the moment."),
            Reply::NothingToSkip => String::from_str("Nothing to skip."),
            Reply::Skipped(title) => String::from_str("Skipped: ").concat(title.as_str()),
            Reply::SkipFailed => String::from_str("Skipping failed, please try again."),
            Reply::RejoinNeeded => String::from_str(
                "An error has occurred, please have me rejoin the channel.",
            ),
            Reply::QueueLength(count) => {
                let n = render_u64(*count);
                String::from_str("There are **").concat(n.as_str()).concat(
                    "** songs currently in queue.",
                )
            },
            Reply::OnLoop => String::from_str("Song is on loop!"),
            Reply::NotOnLoop => String::from_str("Song is not on loop!"),
            Reply::ErrorTryAgain => String::from_str("An error has occurred, please try again."),
            Reply::MissingUrl => String::from_str("Must provide a URL to a video or audio"),
            Reply::InvalidUrl => String::from_str("Are u sure this is a valid URL?"),
            Reply::PlayFailed => String::from_str("Attempt to play audio failed. Please try again."),
            Reply::Playing => String::from_str("Playing!"),
            Reply::MuteFailed => String::from_str("Muting failed, please try again."),
            Reply::UnmuteFailed => String::from_str("Unmuting failed, please try again."),
            Reply::DeafenFailed => String::from_str("Failed to deafen voice, please try again."),
            Reply::UndeafenFailed => String::from_str("Undeafening failed, please try again."),
        }
    }
}

/// The messages that name a track, a command or an animal carry that name
/// verbatim after their fixed opening, and the messages that give a number
/// write it in decimal.
pub proof fn lemma_reply_texts_carry_their_values(name: String, n: u64)
    ensures
        Reply::AddedToQueue(name).message() == "Added to queue: "@ + name@,
        Reply::NowPlaying(name).message() == "Now Playing: "@ + name@,
        Reply::Skipped(name).message() == "Skipped: "@ + name@,
        Reply::UnknownCommand(name).message() == "Could not find command named '"@ + name@ + "'"@,
        Reply::BirdUnknown(name).message() == ":bird: could not find animal named: `"@ + name@ + "`."@,
        Reply::TryAgainIn(n).message() == "Try this again in "@ + decimal(n as nat) + " seconds."@,
        Reply::QueueLength(n).message() == "There are **"@ + decimal(n as nat) + "** songs currently in queue."@,
{
}

/// The answers that the original posts to the channel (`say`) are those of
/// `about`, `ping`, `am_i_admin`, `some_long_command`, the emoji commands,
/// `slow_mode`, the rate limit notice and "Nothing to skip."; every other
/// answer is a reply to the command.
pub proof fn lemma_deliveries(name: String, n: u64)
    ensures
        Reply::About.delivered_by() == Delivery::Say,
        Reply::Pong.delivered_by() == Delivery::Say,
        Reply::YouAreAdmin.delivered_by() == Delivery::Say,
        Reply::YouAreNotAdmin.delivered_by() == Delivery::Say,
        Reply::Arguments(name).delivered_by() == Delivery::Say,
        Reply::BirdHelp.delivered_by() == Delivery::Say,
        Reply::BirdUnknown(name).delivered_by() == Delivery::Say,
        Reply::Cat.delivered_by() == Delivery::Say,
        Reply::Dog.delivered_by() == Delivery::Say,
        Reply::SlowModeSet(n).delivered_by() == Delivery::Say,
        Reply::SlowModeSetFailed(n).delivered_by() == Delivery::Say,
        Reply::SlowModeCurrent(n).delivered_by() == Delivery::Say,
        Reply::ChannelNotCached.delivered_by() == Delivery::Say,
        Reply::TryAgainIn(n).delivered_by() == Delivery::Say,
        Reply::NothingToSkip.delivered_by() == Delivery::Say,
        Reply::UpperMain.delivered_by() == Delivery::Reply,
        Reply::UpperSub.delivered_by() == Delivery::Reply,
        Reply::UnknownCommand(name).delivered_by() == Delivery::Reply,
        Reply::UserNotInVoice.delivered_by() == Delivery::Reply,
        Reply::BotNotInVoice.delivered_by() == Delivery::Reply,
        Reply::Skipped(name).delivered_by() == Delivery::Reply,
        Reply::AddedToQueue(name).delivered_by() == Delivery::Reply,
        Reply::NowPlaying(name).delivered_by() == Delivery::Reply,
        Reply::SkipFailed.delivered_by() == Delivery::Reply,
        Reply::QueueLength(n).delivered_by() == Delivery::Reply,
        Reply::Playing.delivered_by() == Delivery::Reply,
{
}

} // verus!
