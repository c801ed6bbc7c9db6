use discordbot::reply::Reply;
use discordbot::voice::{
    is_looping_reply, join_start, join_step, leave_start, leave_step, now_playing_reply,
    play_start, play_step, queue_reply, replay_first, session_start, session_step, skip_start,
    skip_step, track_end, Action, Event, JoinState, LeaveState, PlayState, SessionState,
    SkipState, TrackEnd,
};

#[test]
fn join_connects_then_opens_a_session() {
    let (s, a) = join_start(Some(Some(42)), true);
    assert_eq!(a, Action::Connect(42));
    let (s, a) = join_step(s, Event::Connected(true));
    assert_eq!(a, Action::OpenSession);
    let (s, a) = join_step(s, Event::SessionOpened);
    assert_eq!(a, Action::Finish);
    assert_eq!(s, JoinState::Done);
}

#[test]
fn join_refusals() {
    assert_eq!(join_start(None, true).1, Action::Send(Reply::UserNotInVoice));
    assert_eq!(join_start(Some(None), false).1, Action::Send(Reply::UserNotInVoice));
    let (s, _) = join_start(Some(Some(1)), true);
    assert_eq!(join_step(s, Event::Connected(false)).1, Action::Send(Reply::JoinFailed));
    let (s, _) = join_start(Some(Some(1)), false);
    assert_eq!(join_step(s, Event::Connected(true)), (JoinState::Done, Action::Finish));
}

#[test]
fn leave_reports_and_destroys_only_on_failure() {
    assert_eq!(leave_start(false, true).1, Action::Send(Reply::BotNotInVoice));
    let (s, a) = leave_start(true, true);
    assert_eq!(a, Action::Disconnect);
    assert_eq!(leave_step(s, Event::Disconnected(true)), (LeaveState::Done, Action::Finish));
    let (s, _) = leave_start(true, true);
    let (s, a) = leave_step(s, Event::Disconnected(false));
    assert_eq!(a, Action::Send(Reply::LeaveFailed));
    let (s, a) = leave_step(s, Event::Sent);
    assert_eq!(a, Action::DestroyPlayer { failure_ends_command: true });
    assert_eq!(leave_step(s, Event::PlayerDestroyed(true)).1, Action::Finish);
    let (s, _) = leave_start(true, false);
    let (s, _) = leave_step(s, Event::Disconnected(false));
    assert_eq!(leave_step(s, Event::Sent).1, Action::Finish);
}

#[test]
fn session_skips_authors_outside_voice() {
    assert_eq!(session_start(Some(None)), (SessionState::Done, Action::Finish));
    let (s, a) = session_start(Some(Some(8)));
    assert_eq!(a, Action::Connect(8));
    assert_eq!(session_step(s, Event::Connected(false)).1, Action::Finish);
    let (s, _) = session_start(Some(Some(8)));
    assert_eq!(session_step(s, Event::Connected(true)), (SessionState::Opening, Action::OpenSession));
}

#[test]
fn play_with_call_searches_and_queues() {
    let (s, a) = play_start(true, "never gonna give you up".to_string());
    assert_eq!(a, Action::Search("never gonna give you up".to_string()));
    let (s, a) = play_step(s, Event::Searched(5));
    assert_eq!(a, Action::QueueHit(0));
    let (s, a) = play_step(s, Event::Queued("Tune".to_string()));
    assert_eq!(a, Action::Send(Reply::AddedToQueue("Tune".to_string())));
    assert_eq!(play_step(s, Event::Sent), (PlayState::Done, Action::Finish));
}

#[test]
fn play_without_call_joins_first() {
    let (s, a) = play_start(false, "two words".to_string());
    assert_eq!(a, Action::Reconnect);
    let (s, a) = play_step(s, Event::Reconnected(true));
    assert_eq!(a, Action::LookupCall);
    let (_, a) = play_step(s, Event::CallPresent(false));
    assert_eq!(a, Action::Send(Reply::UserNotInVoice));
    let (s, _) = play_start(false, "two words".to_string());
    let (s, _) = play_step(s, Event::Reconnected(true));
    assert_eq!(play_step(s, Event::CallPresent(true)).1, Action::Search("two words".to_string()));
    let (s, _) = play_start(false, "two words".to_string());
    assert_eq!(play_step(s, Event::Reconnected(false)).1, Action::Send(Reply::JoinFailed));
}

#[test]
fn play_edge_cases() {
    let (s, _) = play_start(true, "q".to_string());
    assert_eq!(play_step(s, Event::Searched(0)).1, Action::Send(Reply::NoSearchResult));
    let (s, _) = play_start(true, "q".to_string());
    let (s, _) = play_step(s, Event::Searched(1));
    assert_eq!(play_step(s, Event::QueueFailed), (PlayState::Done, Action::Finish));
}

#[test]
fn skip_by_queue_length() {
    assert_eq!(skip_start(0, String::new()), (SkipState::Done, Action::Send(Reply::NothingToSkip)));
    let (s, a) = skip_start(3, "First".to_string());
    assert_eq!(a, Action::SkipTrack);
    assert_eq!(skip_step(s, Event::TrackSkipped(true)).1, Action::Send(Reply::Skipped("First".to_string())));
    let (s, _) = skip_start(3, "First".to_string());
    assert_eq!(skip_step(s, Event::TrackSkipped(false)).1, Action::Send(Reply::SkipFailed));
}

#[test]
fn skip_single_track_destroys_and_rejoins() {
    let (s, a) = skip_start(1, "Only".to_string());
    assert_eq!(a, Action::DestroyPlayer { failure_ends_command: false });
    let (s, a) = skip_step(s, Event::PlayerDestroyed(false));
    assert_eq!(a, Action::Send(Reply::SkipFailed));
    let (s, a) = skip_step(s, Event::Sent);
    assert_eq!(a, Action::Reconnect);
    let (s, a) = skip_step(s, Event::Reconnected(false));
    assert_eq!(a, Action::Send(Reply::RejoinNeeded));
    let (s, a) = skip_step(s, Event::Sent);
    assert_eq!(a, Action::Send(Reply::Skipped("Only".to_string())));
    assert_eq!(skip_step(s, Event::Sent), (SkipState::Done, Action::Finish));

    let (s, _) = skip_start(1, "Only".to_string());
    let (s, a) = skip_step(s, Event::PlayerDestroyed(true));
    assert_eq!(a, Action::Reconnect);
    assert_eq!(skip_step(s, Event::Reconnected(true)).1, Action::Send(Reply::Skipped("Only".to_string())));
}

#[test]
fn player_answers() {
    assert_eq!(now_playing_reply(None), Reply::NothingPlaying);
    assert_eq!(now_playing_reply(Some(None)), Reply::NothingPlaying);
    assert_eq!(now_playing_reply(Some(Some("X".to_string()))), Reply::NowPlaying("X".to_string()));
    assert_eq!(queue_reply(None), None);
    assert_eq!(queue_reply(Some(0)), Some(Reply::QueueLength(0)));
    assert_eq!(queue_reply(Some(4)), Some(Reply::QueueLength(4)));
    assert_eq!(is_looping_reply(None), Reply::ErrorTryAgain);
    assert_eq!(is_looping_reply(Some(None)), Reply::NotOnLoop);
    assert_eq!(is_looping_reply(Some(Some(false))), Reply::NotOnLoop);
    assert_eq!(is_looping_reply(Some(Some(true))), Reply::OnLoop);
}

#[test]
fn finished_tracks_replay_only_when_looping() {
    assert_eq!(track_end(Some(true), true), TrackEnd::Replay);
    assert_eq!(track_end(Some(true), false), TrackEnd::LoopFailed);
    assert_eq!(track_end(Some(false), true), TrackEnd::Forget);
    assert_eq!(track_end(None, true), TrackEnd::Forget);
    let mut queue = vec!["b", "c"];
    replay_first(&mut queue, "a");
    assert_eq!(queue, vec!["a", "b", "c"]);
    let mut empty: Vec<u32> = Vec::new();
    replay_first(&mut empty, 9);
    assert_eq!(empty, vec![9]);
}

#[test]
fn skip_runs_confirm_only_the_first_title() {
    for queued in [0usize, 1, 2, 5] {
        for ok in [true, false] {
            let (mut s, mut a) = skip_start(queued, "Head".to_string());
            loop {
                let e = match a {
                    Action::Finish => break,
                    Action::Send(Reply::Skipped(ref t)) => {
                        assert_eq!(t, "Head");
                        Event::Sent
                    },
                    Action::Send(_) => Event::Sent,
                    Action::SkipTrack => Event::TrackSkipped(ok),
                    Action::DestroyPlayer { failure_ends_command } => {
                        assert!(!failure_ends_command);
                        Event::PlayerDestroyed(ok)
                    },
                    Action::Reconnect => Event::Reconnected(ok),
                    ref other => panic!("unexpected action {:?}", other),
                };
                let next = skip_step(s, e);
                s = next.0;
                a = next.1;
            }
        }
    }
}
