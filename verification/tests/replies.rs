use discordbot::reply::{arguments_text, Delivery, Reply};

#[test]
fn reply_texts_of_fixed_messages() {
    assert_eq!(Reply::About.text(), "Hi, I am a multipurpose bot! : )");
    assert_eq!(Reply::Pong.text(), "Pong! :)");
    assert_eq!(Reply::Cat.text(), ":cat:");
    assert_eq!(Reply::Dog.text(), ":dog:");
    assert_eq!(Reply::UserNotInVoice.text(), "U are not in a voice channel!");
    assert_eq!(Reply::BotNotInVoice.text(), "I'm not in a voice channel!");
    assert_eq!(Reply::NothingToSkip.text(), "Nothing to skip.");
    assert_eq!(Reply::RejoinNeeded.text(), "An error has occurred, please have me rejoin the channel.");
    assert_eq!(Reply::DeafenFailed.text(), "Failed to deafen voice, please try again.");
    assert_eq!(Reply::Playing.text(), "Playing!");
}

#[test]
fn reply_texts_with_values() {
    assert_eq!(Reply::AddedToQueue("Song A".to_string()).text(), "Added to queue: Song A");
    assert_eq!(Reply::NowPlaying("B".to_string()).text(), "Now Playing: B");
    assert_eq!(Reply::Skipped("C".to_string()).text(), "Skipped: C");
    assert_eq!(Reply::QueueLength(3).text(), "There are **3** songs currently in queue.");
    assert_eq!(Reply::TryAgainIn(12).text(), "Try this again in 12 seconds.");
    assert_eq!(Reply::SlowModeSet(30).text(), "Successfully set slow mode rate to `30` seconds.");
    assert_eq!(Reply::SlowModeSetFailed(30).text(), "Failed to set slow mode to `30` seconds");
    assert_eq!(Reply::SlowModeCurrent(0).text(), "Current slow mode rate is `0` seconds.");
    assert_eq!(Reply::UnknownCommand("foo".to_string()).text(), "Could not find command named 'foo'");
    assert_eq!(
        Reply::BirdUnknown("owl".to_string()).text(),
        ":bird: could not find animal named: `owl`."
    );
}

#[test]
fn arguments_are_shown_in_debug_notation() {
    assert_eq!(Reply::Arguments("a b".to_string()).text(), "Arguments: \"a b\"");
    assert_eq!(Reply::Arguments("say \"hi\"".to_string()).text(), "Arguments: \"say \\\"hi\\\"\"");
    assert_eq!(Reply::Arguments(String::new()).text(), "Arguments: \"\"");
}

#[test]
fn deliveries() {
    assert_eq!(Reply::NothingToSkip.delivery(), Delivery::Say);
    assert_eq!(Reply::Pong.delivery(), Delivery::Say);
    assert_eq!(Reply::TryAgainIn(1).delivery(), Delivery::Say);
    assert_eq!(Reply::SlowModeCurrent(1).delivery(), Delivery::Say);
    assert_eq!(Reply::Skipped("x".to_string()).delivery(), Delivery::Reply);
    assert_eq!(Reply::UnknownCommand("x".to_string()).delivery(), Delivery::Reply);
    assert_eq!(Reply::UpperSub.delivery(), Delivery::Reply);
}

#[test]
fn arguments_text_prefixes_the_quoted_arguments() {
    assert_eq!(arguments_text("\"x y\""), "Arguments: \"x y\"");
    assert_eq!(arguments_text(""), "Arguments: ");
}
