use discordbot::legacy::{
    legacy_play_start, legacy_play_step, legacy_play_url, toggle_start, toggle_step, url_verdict,
    LegacyPlayState, Toggle, ToggleState,
};
use discordbot::reply::Reply;
use discordbot::voice::{Action, Event};

#[test]
fn url_argument_is_checked_by_the_url_parser() {
    assert_eq!(legacy_play_url(None), Err(Reply::MissingUrl));
    assert_eq!(legacy_play_url(Some("not a url")), Err(Reply::InvalidUrl));
    assert_eq!(legacy_play_url(Some("")), Err(Reply::InvalidUrl));
    assert_eq!(legacy_play_url(Some("www.example.com/video")), Err(Reply::InvalidUrl));
    assert_eq!(
        legacy_play_url(Some("https://www.youtube.com/watch?v=abc")),
        Ok("https://www.youtube.com/watch?v=abc".to_string())
    );
    assert_eq!(legacy_play_url(Some("mailto:x@y.z")), Ok("mailto:x@y.z".to_string()));
}

#[test]
fn url_verdict_follows_the_parser_answer() {
    assert_eq!(url_verdict("abc", true), Ok("abc".to_string()));
    assert_eq!(url_verdict("abc", false), Err(Reply::InvalidUrl));
}

#[test]
fn legacy_play_with_and_without_call() {
    let (s, a) = legacy_play_start(true, None);
    assert_eq!(a, Action::FetchSource);
    let (s, a) = legacy_play_step(s, Event::SourceFetched(true));
    assert_eq!(a, Action::PlaySource);
    let (s, a) = legacy_play_step(s, Event::SourcePlaying);
    assert_eq!(a, Action::Send(Reply::Playing));
    assert_eq!(legacy_play_step(s, Event::Sent), (LegacyPlayState::Done, Action::Finish));

    assert_eq!(legacy_play_start(false, Some(None)).1, Action::Send(Reply::UserNotInVoice));
    let (s, a) = legacy_play_start(false, Some(Some(6)));
    assert_eq!(a, Action::Connect(6));
    let (s, a) = legacy_play_step(s, Event::Connected(false));
    assert_eq!(a, Action::FetchSource);
    assert_eq!(legacy_play_step(s, Event::SourceFetched(false)).1, Action::Send(Reply::PlayFailed));
}

#[test]
fn toggles_change_only_differing_flags() {
    assert_eq!(toggle_start(Toggle::Mute, None).1, Action::Send(Reply::BotNotInVoice));
    assert_eq!(toggle_start(Toggle::Mute, Some(true)), (ToggleState::Done, Action::Finish));
    assert_eq!(toggle_start(Toggle::Unmute, Some(false)), (ToggleState::Done, Action::Finish));
    assert_eq!(toggle_start(Toggle::Mute, Some(false)).1, Action::SetMute(true));
    assert_eq!(toggle_start(Toggle::Unmute, Some(true)).1, Action::SetMute(false));
    assert_eq!(toggle_start(Toggle::Deafen, Some(false)).1, Action::SetDeaf(true));
    assert_eq!(toggle_start(Toggle::Undeafen, Some(true)).1, Action::SetDeaf(false));
}

#[test]
fn toggle_failures_are_reported() {
    for (t, r) in [
        (Toggle::Mute, Reply::MuteFailed),
        (Toggle::Unmute, Reply::UnmuteFailed),
        (Toggle::Deafen, Reply::DeafenFailed),
        (Toggle::Undeafen, Reply::UndeafenFailed),
    ] {
        let current = !matches!(t, Toggle::Mute | Toggle::Deafen);
        let (s, _) = toggle_start(t, Some(current));
        assert_eq!(toggle_step(s, Event::FlagSet(false)), (ToggleState::Done, Action::Send(r)));
        let (s, _) = toggle_start(t, Some(current));
        assert_eq!(toggle_step(s, Event::FlagSet(true)), (ToggleState::Done, Action::Finish));
    }
}

#[test]
fn every_legacy_play_run_sends_one_message() {
    for has_call in [true, false] {
        for user in [None, Some(None), Some(Some(2))] {
            for joined in [true, false] {
                for fetched in [true, false] {
                    let (mut s, mut a) = legacy_play_start(has_call, user);
                    let mut sent = 0;
                    loop {
                        let e = match a {
                            Action::Finish => break,
                            Action::Send(_) => {
                                sent += 1;
                                Event::Sent
                            },
                            Action::Connect(_) => Event::Connected(joined),
                            Action::FetchSource => Event::SourceFetched(fetched),
                            Action::PlaySource => Event::SourcePlaying,
                            other => panic!("unexpected action {:?}", other),
                        };
                        let next = legacy_play_step(s, e);
                        s = next.0;
                        a = next.1;
                    }
                    assert_eq!(sent, 1);
                }
            }
        }
    }
}
