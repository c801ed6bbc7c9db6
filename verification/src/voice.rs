//! The voice commands as state machines.
//!
//! A command starts from what the bot knows when it is invoked and then
//! alternates: the machine names an [`Action`] (send a message, connect,
//! search, ...), the caller performs it and hands back the [`Event`] that
//! came of it, and the machine names the next action, until it says
//! [`Action::Finish`]. A request whose failure ends the whole command with
//! an error (opening a player session, searching, destroying the player on
//! `leave`) is not fed back on failure: the caller returns the error.
//!
//! The machines of the player commands (`join`, `leave`, `play`, `skip`,
//! ...) and of the plain voice commands (`legacy_join`, ...) share these
//! types.

use vstd::prelude::*;
use crate::checks::{channel_of, voice_channel};
use crate::reply::Reply;

verus! {

/// What the bot does next.
#[derive(Debug, PartialEq, Eq)]
pub enum Action {
    /// Send this message.
    Send(Reply),
    /// Connect to this voice channel of the guild.
    Connect(u64),
    /// Open a player session on the connection just made; a failure ends
    /// the command with the error.
    OpenSession,
    /// Leave the guild's voice channel.
    Disconnect,
    /// Destroy the guild's player. When `failure_ends_command` (as in
    /// `leave`), a failure ends the command with the error; otherwise (as in
    /// `skip`) the outcome is handed back as [`Event::PlayerDestroyed`].
    DestroyPlayer { failure_ends_command: bool },
    /// Join the author's voice channel again and open a player session on it
    /// (the machine of [`session_start`]).
    Reconnect,
    /// Look whether the voice manager now holds a call for the guild.
    LookupCall,
    /// Search tracks for this query; a failure ends the command with the
    /// error.
    Search(String),
    /// Queue the track at this position among those the search found.
    QueueHit(usize),
    /// Skip the track that is playing.
    SkipTrack,
    /// Fetch the audio source of the URL.
    FetchSource,
    /// Play the fetched source on the call.
    PlaySource,
    /// Set the call's mute flag to this value.
    SetMute(bool),
    /// Set the call's deaf flag to this value.
    SetDeaf(bool),
    /// The command is done.
    Finish,
}

/// What came of an action.
#[derive(Debug, PartialEq, Eq)]
pub enum Event {
    /// A message was sent, or sending it failed (which is only logged).
    Sent,
    /// Whether connecting to the voice channel succeeded.
    Connected(bool),
    /// The player session was opened.
    SessionOpened,
    /// Whether leaving the voice channel succeeded.
    Disconnected(bool),
    /// Whether destroying the player succeeded.
    PlayerDestroyed(bool),
    /// Whether joining again and opening a session succeeded.
    Reconnected(bool),
    /// Whether the voice manager holds a call for the guild.
    CallPresent(bool),
    /// The number of tracks that the search found.
    Searched(usize),
    /// Queuing the track failed.
    QueueFailed,
    /// The track was queued; this is its title.
    Queued(String),
    /// Whether skipping gave back the skipped track.
    TrackSkipped(bool),
    /// Whether the audio source could be fetched.
    SourceFetched(bool),
    /// The source is playing.
    SourcePlaying,
    /// Whether setting the mute or deaf flag succeeded.
    FlagSet(bool),
}

// ---------------------------------------------------------------- join

/// Where a `join` (or `legacy_join`) command stands.
#[derive(Debug, PartialEq, Eq)]
pub enum JoinState {
    /// Waiting for the connection; `player` when a player session follows.
    Connecting { player: bool },
    /// Waiting for the player session.
    Opening,
    Done,
}

/// How `join` begins: the bot connects to the author's voice channel, or
/// tells the author that they are in none.
pub open spec fn join_begin(user: Option<Option<u64>>, player: bool) -> (JoinState, Action) {
    match channel_of(user) {
        None => (JoinState::Done, Action::Send(Reply::UserNotInVoice)),
        Some(c) => (JoinState::Connecting { player }, Action::Connect(c)),
    }
}

/// The transitions of `join`.
pub open spec fn join_next(state: JoinState, event: Event) -> (JoinState, Action) {
    match (state, event) {
        (JoinState::Connecting { player }, Event::Connected(ok)) => if !ok {
            (JoinState::Done, Action::Send(Reply::JoinFailed))
        } else if player {
            (JoinState::Opening, Action::OpenSession)
        } else {
            (JoinState::Done, Action::Finish)
        },
        _ => (JoinState::Done, Action::Finish),
    }
}

/// Starts `join` (with `player`) or `legacy_join` (without) for an author
/// with voice presence `user`.
pub fn join_start(user: Option<Option<u64>>, player: bool) -> (r: (JoinState, Action))
    ensures
        r == join_begin(user, player),
{
    match voice_channel(user) {
        None => (JoinState::Done, Action::Send(Reply::UserNotInVoice)),
        Some(c) => (JoinState::Connecting { player }, Action::Connect(c)),
    }
}

/// One step of `join`.
pub fn join_step(state: JoinState, event: Event) -> (r: (JoinState, Action))
    ensures
        r == join_next(state, event),
{
    match (state, event) {
        (JoinState::Connecting { player }, Event::Connected(ok)) => {
            if !ok {
                (JoinState::Done, Action::Send(Reply::JoinFailed))
            } else if player {
                (JoinState::Opening, Action::OpenSession)
            } else {
                (JoinState::Done, Action::Finish)
            }
        },
        _ => (JoinState::Done, Action::Finish),
    }
}

// ---------------------------------------------------------------- leave

/// Where a `leave` (or `legacy_leave`) command stands.
#[derive(Debug, PartialEq, Eq)]
pub enum LeaveState {
    /// Waiting to hear whether leaving succeeded.
    Leaving { player: bool },
    /// The failure is being reported; the player is destroyed after it when
    /// `player`.
    Reporting { player: bool },
    /// The player is being destroyed.
    Destroying,
    Done,
}

/// How `leave` begins: the bot leaves its call, or says it has none.
pub open spec fn leave_begin(has_call: bool, player: bool) -> (LeaveState, Action) {
    if has_call {
        (LeaveState::Leaving { player }, Action::Disconnect)
    } else {
        (LeaveState::Done, Action::Send(Reply::BotNotInVoice))
    }
}

/// The transitions of `leave`: when leaving fails, the failure is reported
/// and, for the player command, the player is destroyed.
pub open spec fn leave_next(state: LeaveState, event: Event) -> (LeaveState, Action) {
    match (state, event) {
        (LeaveState::Leaving { player }, Event::Disconnected(ok)) => if ok {
            (LeaveState::Done, Action::Finish)
        } else {
            (LeaveState::Reporting { player }, Action::Send(Reply::LeaveFailed))
        },
        (LeaveState::Reporting { player }, Event::Sent) => if player {
            (LeaveState::Destroying, Action::DestroyPlayer { failure_ends_command: true })
        } else {
            (LeaveState::Done, Action::Finish)
        },
        _ => (LeaveState::Done, Action::Finish),
    }
}

/// Starts `leave` (with `player`) or `legacy_leave` (without); `has_call`
/// says whether the voice manager holds a call for the guild.
pub fn leave_start(has_call: bool, player: bool) -> (r: (LeaveState, Action))
    ensures
        r == leave_begin(has_call, player),
{
    if has_call {
        (LeaveState::Leaving { player }, Action::Disconnect)
    } else {
        (LeaveState::Done, Action::Send(Reply::BotNotInVoice))
    }
}

/// One step of `leave`.
pub fn leave_step(state: LeaveState, event: Event) -> (r: (LeaveState, Action))
    ensures
        r == leave_next(state, event),
{
    match (state, event) {
        (LeaveState::Leaving { player }, Event::Disconnected(ok)) => {
            if ok {
                (LeaveState::Done, Action::Finish)
            } else {
                (LeaveState::Reporting { player }, Action::Send(Reply::LeaveFailed))
            }
        },
        (LeaveState::Reporting { player }, Event::Sent) => {
            if player {
                (LeaveState::Destroying, Action::DestroyPlayer { failure_ends_command: true })
            } else {
                (LeaveState::Done, Action::Finish)
            }
        },
        _ => (LeaveState::Done, Action::Finish),
    }
}

// ---------------------------------------------------------------- session

/// Where the joining of the author's channel for a player session stands.
#[derive(Debug, PartialEq, Eq)]
pub enum SessionState {
    Connecting,
    Opening,
    Done,
}

/// How joining for a player session begins: nothing is done when the author
/// is in no voice channel.
pub open spec fn session_begin(user: Option<Option<u64>>) -> (SessionState, Action) {
    match channel_of(user) {
        None => (SessionState::Done, Action::Finish),
        Some(c) => (SessionState::Connecting, Action::Connect(c)),
    }
}

/// The transitions of joining for a player session: a failed connection is
/// only logged.
pub open spec fn session_next(state: SessionState, event: Event) -> (SessionState, Action) {
    match (state, event) {
        (SessionState::Connecting, Event::Connected(true)) => (SessionState::Opening, Action::OpenSession),
        _ => (SessionState::Done, Action::Finish),
    }
}

/// Starts joining the author's voice channel and opening a player session
/// on it (what [`Action::Reconnect`] asks for).
pub fn session_start(user: Option<Option<u64>>) -> (r: (SessionState, Action))
    ensures
        r == session_begin(user),
{
    match voice_channel(user) {
        None => (SessionState::Done, Action::Finish),
        Some(c) => (SessionState::Connecting, Action::Connect(c)),
    }
}

/// One step of joining for a player session.
pub fn session_step(state: SessionState, event: Event) -> (r: (SessionState, Action))
    ensures
        r == session_next(state, event),
{
    match (state, event) {
        (SessionState::Connecting, Event::Connected(ok)) => {
            if ok {
                (SessionState::Opening, Action::OpenSession)
            } else {
                (SessionState::Done, Action::Finish)
            }
        },
        _ => (SessionState::Done, Action::Finish),
    }
}


// ---------------------------------------------------------------- play

/// Where a `play` command stands; `query` is the whole message of the
/// command, still to be searched.
#[derive(Debug, PartialEq, Eq)]
pub enum PlayState {
    /// Joining the author's channel because the bot had no call.
    Joining { query: String },
    /// Looking again for the call after joining.
    Looking { query: String },
    /// Waiting for the search results.
    Searching,
    /// Waiting for the first hit to be queued.
    Queuing,
    Done,
}

/// How `play` begins: with a call the query is searched at once, without
/// one the bot first joins the author's channel.
pub open spec fn play_begin(has_call: bool, query: String) -> (PlayState, Action) {
    if has_call {
        (PlayState::Searching, Action::Search(query))
    } else {
        (PlayState::Joining { query }, Action::Reconnect)
    }
}

/// The transitions of `play`: the query is searched once the bot has a
/// call, and the first hit is queued.
pub open spec fn play_next(state: PlayState, event: Event) -> (PlayState, Action) {
    match (state, event) {
        (PlayState::Joining { query }, Event::Reconnected(ok)) => if ok {
            (PlayState::Looking { query }, Action::LookupCall)
        } else {
            (PlayState::Done, Action::Send(Reply::JoinFailed))
        },
        (PlayState::Looking { query }, Event::CallPresent(present)) => if present {
            (PlayState::Searching, Action::Search(query))
        } else {
            (PlayState::Done, Action::Send(Reply::UserNotInVoice))
        },
        (PlayState::Searching, Event::Searched(hits)) => if hits == 0 {
            (PlayState::Done, Action::Send(Reply::NoSearchResult))
        } else {
            (PlayState::Queuing, Action::QueueHit(0))
        },
        (PlayState::Queuing, Event::Queued(title)) => (
            PlayState::Done,
            Action::Send(Reply::AddedToQueue(title)),
        ),
        _ => (PlayState::Done, Action::Finish),
    }
}

/// Starts `play` for `query`, the whole message of the command; `has_call`
/// says whether the voice manager holds a call for the guild.
pub fn play_start(has_call: bool, query: String) -> (r: (PlayState, Action))
    ensures
        r == play_begin(has_call, query),
{
    if has_call {
        (PlayState::Searching, Action::Search(query))
    } else {
        (PlayState::Joining { query }, Action::Reconnect)
    }
}

/// One step of `play`.
pub fn play_step(state: PlayState, event: Event) -> (r: (PlayState, Action))
    ensures
        r == play_next(state, event),
{
    match (state, event) {
        (PlayState::Joining { query }, Event::Reconnected(ok)) => {
            if ok {
                (PlayState::Looking { query }, Action::LookupCall)
            } else {
                (PlayState::Done, Action::Send(Reply::JoinFailed))
            }
        },
        (PlayState::Looking { query }, Event::CallPresent(present)) => {
            if present {
                (PlayState::Searching, Action::Search(query))
            } else {
                (PlayState::Done, Action::Send(Reply::UserNotInVoice))
            }
        },
        (PlayState::Searching, Event::Searched(hits)) => {
            if hits == 0 {
                (PlayState::Done, Action::Send(Reply::NoSearchResult))
            } else {
                (PlayState::Queuing, Action::QueueHit(0))
            }
        },
        (PlayState::Queuing, Event::Queued(title)) => (
            PlayState::Done,
            Action::Send(Reply::AddedToQueue(title)),
        ),
        _ => (PlayState::Done, Action::Finish),
    }
}

// ---------------------------------------------------------------- skip

/// Where a `skip` command stands; `title` is the title of the first queued
/// track when the command began.
#[derive(Debug, PartialEq, Eq)]
pub enum SkipState {
    /// Waiting for the player to skip (more than one track queued).
    Skipping { title: String },
    /// Waiting for the player to be destroyed (exactly one track queued).
    Destroying { title: String },
    /// Reporting that destroying failed, before joining again.
    DestroyReported { title: String },
    /// Waiting for the bot to join again and open a new session.
    Rejoining { title: String },
    /// Reporting that joining again failed, before confirming the skip.
    RejoinReported { title: String },
    Done,
}

/// How `skip` begins, from the number of queued tracks and the title of the
/// first: nothing to skip, a plain skip, or, for a single track, destroying
/// the player and joining again.
pub open spec fn skip_begin(queued: usize, first_title: String) -> (SkipState, Action) {
    if queued == 0 {
        (SkipState::Done, Action::Send(Reply::NothingToSkip))
    } else if queued > 1 {
        (SkipState::Skipping { title: first_title }, Action::SkipTrack)
    } else {
        (SkipState::Destroying { title: first_title }, Action::DestroyPlayer { failure_ends_command: false })
    }
}

/// The transitions of `skip`. With a single track the skip is confirmed
/// after joining again, whether or not destroying and joining succeeded.
pub open spec fn skip_next(state: SkipState, event: Event) -> (SkipState, Action) {
    match (state, event) {
        (SkipState::Skipping { title }, Event::TrackSkipped(ok)) => if ok {
            (SkipState::Done, Action::Send(Reply::Skipped(title)))
        } else {
            (SkipState::Done, Action::Send(Reply::SkipFailed))
        },
        (SkipState::Destroying { title }, Event::PlayerDestroyed(ok)) => if ok {
            (SkipState::Rejoining { title }, Action::Reconnect)
        } else {
            (SkipState::DestroyReported { title }, Action::Send(Reply::SkipFailed))
        },
        (SkipState::DestroyReported { title }, Event::Sent) => (
            SkipState::Rejoining { title },
            Action::Reconnect,
        ),
        (SkipState::Rejoining { title }, Event::Reconnected(ok)) => if ok {
            (SkipState::Done, Action::Send(Reply::Skipped(title)))
        } else {
            (SkipState::RejoinReported { title }, Action::Send(Reply::RejoinNeeded))
        },
        (SkipState::RejoinReported { title }, Event::Sent) => (
            SkipState::Done,
            Action::Send(Reply::Skipped(title)),
        ),
        _ => (SkipState::Done, Action::Finish),
    }
}

/// Starts `skip` with the guild's queue length (0 when the guild has no
/// player) and the title of the first queued track (unused when none).
pub fn skip_start(queued: usize, first_title: String) -> (r: (SkipState, Action))
    ensures
        r == skip_begin(queued, first_title),
{
    if queued == 0 {
        (SkipState::Done, Action::Send(Reply::NothingToSkip))
    } else if queued > 1 {
        (SkipState::Skipping { title: first_title }, Action::SkipTrack)
    } else {
        (SkipState::Destroying { title: first_title }, Action::DestroyPlayer { failure_ends_command: false })
    }
}

/// One step of `skip`.
pub fn skip_step(state: SkipState, event: Event) -> (r: (SkipState, Action))
    ensures
        r == skip_next(state, event),
{
    match (state, event) {
        (SkipState::Skipping { title }, Event::TrackSkipped(ok)) => {
            if ok {
                (SkipState::Done, Action::Send(Reply::Skipped(title)))
            } else {
                (SkipState::Done, Action::Send(Reply::SkipFailed))
            }
        },
        (SkipState::Destroying { title }, Event::PlayerDestroyed(ok)) => {
            if ok {
                (SkipState::Rejoining { title }, Action::Reconnect)
            } else {
                (SkipState::DestroyReported { title }, Action::Send(Reply::SkipFailed))
            }
        },
        (SkipState::DestroyReported { title }, Event::Sent) => (
            SkipState::Rejoining { title },
            Action::Reconnect,
        ),
        (SkipState::Rejoining { title }, Event::Reconnected(ok)) => {
            if ok {
                (SkipState::Done, Action::Send(Reply::Skipped(title)))
            } else {
                (SkipState::RejoinReported { title }, Action::Send(Reply::RejoinNeeded))
            }
        },
        (SkipState::RejoinReported { title }, Event::Sent) => (
            SkipState::Done,
            Action::Send(Reply::Skipped(title)),
        ),
        _ => (SkipState::Done, Action::Finish),
    }
}

// ---------------------------------------------------------------- answers

/// The answer of `now_playing`. `player` is `None` when the guild has no
/// player, and otherwise the title of the track it plays, if any.
pub fn now_playing_reply(player: Option<Option<String>>) -> (r: Reply)
    ensures
        r == (match player {
            Some(Some(title)) => Reply::NowPlaying(title),
            _ => Reply::NothingPlaying,
        }),
{
    match player {
        Some(Some(title)) => Reply::NowPlaying(title),
        _ => Reply::NothingPlaying,
    }
}

/// The answer of `queue`: the number of queued tracks when the guild has a
/// player (`queued` is its queue length), no answer otherwise.
pub fn queue_reply(queued: Option<usize>) -> (r: Option<Reply>)
    ensures
        r == (match queued {
            Some(n) => Some(Reply::QueueLength(n as u64)),
            None => None::<Reply>,
        }),
{
    match queued {
        Some(n) => Some(Reply::QueueLength(n as u64)),
        None => None,
    }
}

/// The answer of `is_looping`. `player` is `None` when the guild has no
/// player, and otherwise the looping option stored with it, if any.
pub fn is_looping_reply(player: Option<Option<bool>>) -> (r: Reply)
    ensures
        r == (match player {
            None => Reply::ErrorTryAgain,
            Some(Some(true)) => Reply::OnLoop,
            Some(_) => Reply::NotOnLoop,
        }),
{
    match player {
        None => Reply::ErrorTryAgain,
        Some(looping) => match looping {
            Some(true) => Reply::OnLoop,
            _ => Reply::NotOnLoop,
        },
    }
}

// ---------------------------------------------------------------- track end

/// What happens when a track finishes in a guild.
#[derive(Clone, Copy, Debug, PartialEq, Eq, Structural)]
pub enum TrackEnd {
    /// Looping is on and a track is stored: put it back at the head of the
    /// queue.
    Replay,
    /// Looping is on but no track is stored: log that looping failed.
    LoopFailed,
    /// Looping is off: forget the stored track.
    Forget,
}

/// The decision on a finished track, from the guild's looping option
/// (looping is off when none is stored) and whether a track is stored.
pub open spec fn track_end_decision(looping: Option<bool>, has_stored: bool) -> TrackEnd {
    if looping == Some(true) {
        if has_stored {
            TrackEnd::Replay
        } else {
            TrackEnd::LoopFailed
        }
    } else {
        TrackEnd::Forget
    }
}

/// Decides what to do when a track finishes.
pub fn track_end(looping: Option<bool>, has_stored: bool) -> (r: TrackEnd)
    ensures
        r == track_end_decision(looping, has_stored),
{
    let is_looping = match looping {
        Some(flag) => flag,
        None => false,
    };
    if is_looping {
        if has_stored {
            TrackEnd::Replay
        } else {
            TrackEnd::LoopFailed
        }
    } else {
        TrackEnd::Forget
    }
}

/// Puts `track` at the head of a guild's queue, keeping the rest in order.
pub fn replay_first<T>(queue: &mut Vec<T>, track: T)
    ensures
        final(queue)@ == seq![track] + old(queue)@,
{
    queue.insert(0, track);
    assert(queue@ =~= seq![track] + old(queue)@);
}



// ---------------------------------------------------------------- runs

/// Whether `event` is what performing `action` can give back.
pub open spec fn answers(action: Action, event: Event) -> bool {
    match action {
        Action::Send(_) => event is Sent,
        Action::Connect(_) => event is Connected,
        Action::OpenSession => event is SessionOpened,
        Action::Disconnect => event is Disconnected,
        Action::DestroyPlayer { .. } => event is PlayerDestroyed,
        Action::Reconnect => event is Reconnected,
        Action::LookupCall => event is CallPresent,
        Action::Search(_) => event is Searched,
        Action::QueueHit(_) => event is QueueFailed || event is Queued,
        Action::SkipTrack => event is TrackSkipped,
        Action::FetchSource => event is SourceFetched,
        Action::PlaySource => event is SourcePlaying,
        Action::SetMute(_) => event is FlagSet,
        Action::SetDeaf(_) => event is FlagSet,
        Action::Finish => false,
    }
}

/// Whether an action may end the whole command with an error instead of
/// an event.
pub open spec fn may_end_in_error(action: Action) -> bool {
    match action {
        Action::OpenSession => true,
        Action::Search(_) => true,
        Action::DestroyPlayer { failure_ends_command } => failure_ends_command,
        _ => false,
    }
}

/// Whether feeding `events` to a machine with transitions `next`, from
/// `state` with `action` pending, is a whole run: each event answers the
/// action before it, and the run reaches `Finish`.
pub open spec fn completes<S>(
    next: spec_fn(S, Event) -> (S, Action),
    state: S,
    action: Action,
    events: Seq<Event>,
) -> bool
    decreases events.len(),
{
    if action is Finish {
        true
    } else if events.len() == 0 {
        false
    } else {
        answers(action, events[0]) && completes(
            next,
            next(state, events[0]).0,
            next(state, events[0]).1,
            events.drop_first(),
        )
    }
}

/// The number of messages that the run sends.
pub open spec fn sends_in_run<S>(
    next: spec_fn(S, Event) -> (S, Action),
    state: S,
    action: Action,
    events: Seq<Event>,
) -> nat
    decreases events.len(),
{
    if action is Finish || events.len() == 0 {
        if action is Send { 1 } else { 0 }
    } else {
        (if action is Send { 1nat } else { 0nat }) + sends_in_run(
            next,
            next(state, events[0]).0,
            next(state, events[0]).1,
            events.drop_first(),
        )
    }
}

/// Whether no action of the run may end the command with an error.
pub open spec fn no_error_exit<S>(
    next: spec_fn(S, Event) -> (S, Action),
    state: S,
    action: Action,
    events: Seq<Event>,
) -> bool
    decreases events.len(),
{
    !may_end_in_error(action) && (action is Finish || events.len() == 0 || no_error_exit(
        next,
        next(state, events[0]).0,
        next(state, events[0]).1,
        events.drop_first(),
    ))
}

/// Whether every "Skipped" confirmation that the run sends names `title`.
pub open spec fn confirms_only<S>(
    next: spec_fn(S, Event) -> (S, Action),
    state: S,
    action: Action,
    events: Seq<Event>,
    title: String,
) -> bool
    decreases events.len(),
{
    (action matches Action::Send(Reply::Skipped(t)) ==> t == title) && (action is Finish || events.len()
        == 0 || confirms_only(
        next,
        next(state, events[0]).0,
        next(state, events[0]).1,
        events.drop_first(),
        title,
    ))
}

proof fn lemma_skip_run_from(state: SkipState, action: Action, events: Seq<Event>, title: String)
    requires
        state is Done || state.title() == Some(title),
        action matches Action::Send(Reply::Skipped(t)) ==> t == title,
    ensures
        confirms_only(|s: SkipState, e: Event| skip_next(s, e), state, action, events, title),
    decreases events.len(),
{
    if !(action is Finish) && events.len() > 0 {
        let e = events[0];
        lemma_skip_confirms_first_title(state, e);
        lemma_skip_run_from(skip_next(state, e).0, skip_next(state, e).1, events.drop_first(), title);
    }
}

proof fn lemma_skip_no_error_from(state: SkipState, action: Action, events: Seq<Event>)
    requires
        !may_end_in_error(action),
    ensures
        no_error_exit(|s: SkipState, e: Event| skip_next(s, e), state, action, events),
    decreases events.len(),
{
    if !(action is Finish) && events.len() > 0 {
        let e = events[0];
        lemma_skip_no_error_from(skip_next(state, e).0, skip_next(state, e).1, events.drop_first());
    }
}

/// A run of `skip` never ends the command with an error, whatever the
/// player and the gateway answer: failures to skip, to destroy the player
/// or to join again are all answered with a message.
pub proof fn lemma_skip_run_no_error_exit(queued: usize, first_title: String, events: Seq<Event>)
    ensures
        no_error_exit(
            |s: SkipState, e: Event| skip_next(s, e),
            skip_begin(queued, first_title).0,
            skip_begin(queued, first_title).1,
            events,
        ),
{
    lemma_skip_no_error_from(skip_begin(queued, first_title).0, skip_begin(queued, first_title).1, events);
}

/// Over a whole run of `skip`, whatever the player and the gateway answer,
/// every "Skipped" confirmation names the track that was first in the queue
/// when the command began.
pub proof fn lemma_skip_run_confirms_first_title(queued: usize, first_title: String, events: Seq<Event>)
    ensures
        confirms_only(
            |s: SkipState, e: Event| skip_next(s, e),
            skip_begin(queued, first_title).0,
            skip_begin(queued, first_title).1,
            events,
            first_title,
        ),
{
    lemma_skip_run_from(skip_begin(queued, first_title).0, skip_begin(queued, first_title).1, events, first_title);
}

// ---------------------------------------------------------------- laws

impl JoinState {
    /// How many more requests the machine may make at most.
    pub open spec fn rank(self) -> nat {
        match self {
            JoinState::Connecting { .. } => 2,
            JoinState::Opening => 1,
            JoinState::Done => 0,
        }
    }
}

impl LeaveState {
    /// How many more requests the machine may make at most.
    pub open spec fn rank(self) -> nat {
        match self {
            LeaveState::Leaving { .. } => 3,
            LeaveState::Reporting { .. } => 2,
            LeaveState::Destroying => 1,
            LeaveState::Done => 0,
        }
    }
}

impl SessionState {
    /// How many more requests the machine may make at most.
    pub open spec fn rank(self) -> nat {
        match self {
            SessionState::Connecting => 2,
            SessionState::Opening => 1,
            SessionState::Done => 0,
        }
    }
}

impl PlayState {
    /// How many more requests the machine may make at most.
    pub open spec fn rank(self) -> nat {
        match self {
            PlayState::Joining { .. } => 4,
            PlayState::Looking { .. } => 3,
            PlayState::Searching => 2,
            PlayState::Queuing => 1,
            PlayState::Done => 0,
        }
    }
}

impl SkipState {
    /// How many more requests the machine may make at most.
    pub open spec fn rank(self) -> nat {
        match self {
            SkipState::Destroying { .. } => 4,
            SkipState::DestroyReported { .. } => 3,
            SkipState::Rejoining { .. } => 2,
            SkipState::RejoinReported { .. } => 1,
            SkipState::Skipping { .. } => 1,
            SkipState::Done => 0,
        }
    }

    /// The title that the command would confirm as skipped.
    pub open spec fn title(self) -> Option<String> {
        match self {
            SkipState::Skipping { title } => Some(title),
            SkipState::Destroying { title } => Some(title),
            SkipState::DestroyReported { title } => Some(title),
            SkipState::Rejoining { title } => Some(title),
            SkipState::RejoinReported { title } => Some(title),
            SkipState::Done => None,
        }
    }
}

/// Every voice command finishes: each step either ends the command or
/// moves to a state with fewer requests left, and a finished command stays
/// finished.
pub proof fn lemma_voice_commands_finish(event: Event)
    ensures
        forall|s: JoinState| #![auto] join_next(s, event).1 is Finish || join_next(s, event).0.rank() < s.rank(),
        forall|s: LeaveState| #![auto] leave_next(s, event).1 is Finish || leave_next(s, event).0.rank() < s.rank(),
        forall|s: SessionState| #![auto] session_next(s, event).1 is Finish || session_next(s, event).0.rank() < s.rank(),
        forall|s: PlayState| #![auto] play_next(s, event).1 is Finish || play_next(s, event).0.rank() < s.rank(),
        forall|s: SkipState| #![auto] skip_next(s, event).1 is Finish || skip_next(s, event).0.rank() < s.rank(),
        join_next(JoinState::Done, event).1 is Finish,
        leave_next(LeaveState::Done, event).1 is Finish,
        session_next(SessionState::Done, event).1 is Finish,
        play_next(PlayState::Done, event).1 is Finish,
        skip_next(SkipState::Done, event).1 is Finish,
{
}

impl PlayState {
    /// The query still to be searched.
    pub open spec fn query(self) -> Option<String> {
        match self {
            PlayState::Joining { query } => Some(query),
            PlayState::Looking { query } => Some(query),
            _ => None,
        }
    }
}

/// `play` searches, once and only while the bot has a call, the whole
/// message it was started with, and queues a track only right after a
/// search that found one: the first.
pub proof fn lemma_play_searches_the_query(query: String, state: PlayState, event: Event)
    ensures
        play_begin(true, query) == (PlayState::Searching, Action::Search(query)),
        play_begin(false, query) == (PlayState::Joining { query }, Action::Reconnect),
        play_next(state, event).0.query() is Some ==> play_next(state, event).0.query() == state.query(),
        play_next(state, event).1 matches Action::Search(q) ==> (state == PlayState::Looking { query: q }
            && event == Event::CallPresent(true)),
        play_next(state, event).1 matches Action::QueueHit(i) ==> (i == 0 && state is Searching && (
        event matches Event::Searched(n) && n > 0)),
{
}

/// `skip` confirms, if ever, the title of the track that was first in the
/// queue when it began: every step keeps that title, and every
/// confirmation names it.
pub proof fn lemma_skip_confirms_first_title(state: SkipState, event: Event)
    ensures
        skip_next(state, event).0.title() is Some ==> skip_next(state, event).0.title() == state.title(),
        skip_next(state, event).1 matches Action::Send(Reply::Skipped(t)) ==> state.title() == Some(t),
{
}

/// `skip` never asks the player to skip or to be destroyed unless a track
/// is queued: with an empty queue it only says there is nothing to skip.
pub proof fn lemma_skip_empty_queue(first_title: String)
    ensures
        skip_begin(0, first_title).1 matches Action::Send(Reply::NothingToSkip),
        skip_begin(0, first_title).0 is Done,
{
}

/// The player command `leave` destroys the player only after leaving the
/// voice channel failed and the failure was reported; the plain command
/// never does.
pub proof fn lemma_leave_destroys_only_after_failure(state: LeaveState, event: Event)
    ensures
        leave_next(state, event).1 is DestroyPlayer ==> (state == LeaveState::Reporting { player: true }
            && event is Sent),
{
}

/// A finished track is put back at the head of the queue exactly when
/// looping is on and a track is stored; with looping off the stored track
/// is always forgotten.
pub proof fn lemma_track_end_cases(looping: Option<bool>, has_stored: bool)
    ensures
        (track_end_decision(looping, has_stored) == TrackEnd::Replay) <==> (looping == Some(true)
            && has_stored),
        (track_end_decision(looping, has_stored) == TrackEnd::Forget) <==> looping != Some(true),
{
}

// ---------------------------------------------------------------- behaviour, case by case

/// `join` connects to exactly the author's channel, whatever its id, and
/// refuses only an author who is in no channel.
pub proof fn lemma_join_begins_at_author_channel(channel: u64, player: bool, user: Option<Option<u64>>)
    ensures
        join_begin(Some(Some(channel)), player) == (JoinState::Connecting { player }, Action::Connect(channel)),
        join_begin(None, player) == (JoinState::Done, Action::Send(Reply::UserNotInVoice)),
        join_begin(Some(None), player) == (JoinState::Done, Action::Send(Reply::UserNotInVoice)),
        join_begin(user, player).1 matches Action::Connect(c) ==> user == Some(Some(c)),
{
}

/// After connecting, `join` reports a failure, opens a player session when
/// it is the player command, and is otherwise done; it reacts to nothing
/// else.
pub proof fn lemma_join_after_connecting(player: bool, state: JoinState, event: Event)
    ensures
        join_next(JoinState::Connecting { player }, Event::Connected(false)) == (
            JoinState::Done,
            Action::Send(Reply::JoinFailed),
        ),
        join_next(JoinState::Connecting { player: true }, Event::Connected(true)) == (
            JoinState::Opening,
            Action::OpenSession,
        ),
        join_next(JoinState::Connecting { player: false }, Event::Connected(true)) == (
            JoinState::Done,
            Action::Finish,
        ),
        !(state is Connecting && event is Connected) ==> join_next(state, event) == (
            JoinState::Done,
            Action::Finish,
        ),
{
}

/// `leave` leaves whenever the bot has a call, for both commands, and says
/// the bot is in no channel only when it has none.
pub proof fn lemma_leave_begins(player: bool)
    ensures
        leave_begin(true, player) == (LeaveState::Leaving { player }, Action::Disconnect),
        leave_begin(false, player) == (LeaveState::Done, Action::Send(Reply::BotNotInVoice)),
{
}

/// After leaving, `leave` is done on success; a failure is reported, and
/// then the player command destroys the player (a failure of which ends
/// the command) while the plain command is done.
pub proof fn lemma_leave_after_leaving(player: bool, state: LeaveState, event: Event)
    ensures
        leave_next(LeaveState::Leaving { player }, Event::Disconnected(true)) == (LeaveState::Done, Action::Finish),
        leave_next(LeaveState::Leaving { player }, Event::Disconnected(false)) == (
            LeaveState::Reporting { player },
            Action::Send(Reply::LeaveFailed),
        ),
        leave_next(LeaveState::Reporting { player: true }, Event::Sent) == (
            LeaveState::Destroying,
            Action::DestroyPlayer { failure_ends_command: true },
        ),
        leave_next(LeaveState::Reporting { player: false }, Event::Sent) == (LeaveState::Done, Action::Finish),
        !(state is Leaving && event is Disconnected) && !(state is Reporting && event is Sent) ==> leave_next(
            state,
            event,
        ) == (LeaveState::Done, Action::Finish),
{
}

/// Joining for a player session connects to exactly the author's channel,
/// does nothing for an author in no channel, opens the session after a
/// successful connection and gives up silently after a failed one.
pub proof fn lemma_session_joins_author_channel(channel: u64, state: SessionState, event: Event)
    ensures
        session_begin(Some(Some(channel))) == (SessionState::Connecting, Action::Connect(channel)),
        session_begin(None) == (SessionState::Done, Action::Finish),
        session_begin(Some(None)) == (SessionState::Done, Action::Finish),
        session_next(SessionState::Connecting, Event::Connected(true)) == (SessionState::Opening, Action::OpenSession),
        session_next(SessionState::Connecting, Event::Connected(false)) == (SessionState::Done, Action::Finish),
        !(state is Connecting && event is Connected) ==> session_next(state, event) == (
            SessionState::Done,
            Action::Finish,
        ),
{
}

/// `play`, step by step: joining again then looking for the call, searching
/// the query once there is a call, queuing the first hit of any non-empty
/// result, saying there is no result only for an empty one, and confirming
/// the queued track.
pub proof fn lemma_play_steps(query: String, hits: usize, title: String, state: PlayState, event: Event)
    ensures
        play_next(PlayState::Joining { query }, Event::Reconnected(true)) == (
            PlayState::Looking { query },
            Action::LookupCall,
        ),
        play_next(PlayState::Joining { query }, Event::Reconnected(false)) == (
            PlayState::Done,
            Action::Send(Reply::JoinFailed),
        ),
        play_next(PlayState::Looking { query }, Event::CallPresent(true)) == (
            PlayState::Searching,
            Action::Search(query),
        ),
        play_next(PlayState::Looking { query }, Event::CallPresent(false)) == (
            PlayState::Done,
            Action::Send(Reply::UserNotInVoice),
        ),
        hits > 0 ==> play_next(PlayState::Searching, Event::Searched(hits)) == (
            PlayState::Queuing,
            Action::QueueHit(0),
        ),
        play_next(PlayState::Searching, Event::Searched(0)) == (
            PlayState::Done,
            Action::Send(Reply::NoSearchResult),
        ),
        play_next(PlayState::Queuing, Event::Queued(title)) == (
            PlayState::Done,
            Action::Send(Reply::AddedToQueue(title)),
        ),
        play_next(PlayState::Queuing, Event::QueueFailed) == (PlayState::Done, Action::Finish),
        play_next(state, event).1 == Action::Send(Reply::NoSearchResult) ==> (state is Searching && event
            == Event::Searched(0)),
        !(state is Joining && event is Reconnected) && !(state is Looking && event is CallPresent) && !(
        state is Searching && event is Searched) && !(state is Queuing && event is Queued) ==> play_next(
            state,
            event,
        ) == (PlayState::Done, Action::Finish),
{
}

/// `skip` by queue length: nothing to skip for an empty queue, a plain
/// skip whenever two or more tracks are queued, and destroying the player
/// (then joining again) only for exactly one track.
pub proof fn lemma_skip_begins(queued: usize, title: String)
    ensures
        skip_begin(0, title) == (SkipState::Done, Action::Send(Reply::NothingToSkip)),
        queued >= 2 ==> skip_begin(queued, title) == (SkipState::Skipping { title }, Action::SkipTrack),
        skip_begin(1, title) == (
            SkipState::Destroying { title },
            Action::DestroyPlayer { failure_ends_command: false },
        ),
        skip_begin(queued, title).1 is DestroyPlayer <==> queued == 1,
        skip_begin(queued, title).1 is SkipTrack <==> queued >= 2,
{
}

/// `skip`, step by step: a skip is confirmed or reported; with a single
/// track a failed destroy is reported before joining again, a failed join
/// is reported, and the skip is confirmed after joining either way.
pub proof fn lemma_skip_steps(title: String, ok: bool, state: SkipState, event: Event)
    ensures
        skip_next(SkipState::Skipping { title }, Event::TrackSkipped(true)) == (
            SkipState::Done,
            Action::Send(Reply::Skipped(title)),
        ),
        skip_next(SkipState::Skipping { title }, Event::TrackSkipped(false)) == (
            SkipState::Done,
            Action::Send(Reply::SkipFailed),
        ),
        skip_next(SkipState::Destroying { title }, Event::PlayerDestroyed(true)) == (
            SkipState::Rejoining { title },
            Action::Reconnect,
        ),
        skip_next(SkipState::Destroying { title }, Event::PlayerDestroyed(false)) == (
            SkipState::DestroyReported { title },
            Action::Send(Reply::SkipFailed),
        ),
        skip_next(SkipState::DestroyReported { title }, Event::Sent) == (
            SkipState::Rejoining { title },
            Action::Reconnect,
        ),
        skip_next(SkipState::Rejoining { title }, Event::Reconnected(true)) == (
            SkipState::Done,
            Action::Send(Reply::Skipped(title)),
        ),
        skip_next(SkipState::Rejoining { title }, Event::Reconnected(false)) == (
            SkipState::RejoinReported { title },
            Action::Send(Reply::RejoinNeeded),
        ),
        skip_next(SkipState::RejoinReported { title }, Event::Sent) == (
            SkipState::Done,
            Action::Send(Reply::Skipped(title)),
        ),
        !(state is Skipping && event is TrackSkipped) && !(state is Destroying && event is PlayerDestroyed)
            && !(state is DestroyReported && event is Sent) && !(state is Rejoining && event is Reconnected)
            && !(state is RejoinReported && event is Sent) ==> skip_next(state, event) == (
            SkipState::Done,
            Action::Finish,
        ),
{
}

} // verus!
