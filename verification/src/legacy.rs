//! The voice commands that play straight through the voice gateway,
//! without the player service: `legacy_play` and the mute and deafen
//! toggles. `legacy_join` and `legacy_leave` are the machines of
//! [`crate::voice::join_start`] and [`crate::voice::leave_start`] without a
//! player.

use vstd::prelude::*;
use crate::checks::{channel_of, voice_channel};
use crate::reply::Reply;
use crate::voice::{Action, Event, completes, sends_in_run, no_error_exit};

verus! {

/// Whether `url::Url::parse` accepts the string as an absolute URL.
pub uninterp spec fn parses_as_url(input: Seq<char>) -> bool;

/// Calls `url::Url::parse` and tells whether it returned `Ok`. The contract
/// names the answer; beyond it, it states only what the parser's scheme
/// state shows: an input with no `:` has no scheme and is refused.
#[verifier::external_body]
fn url_parses(input: &str) -> (ok: bool)
    ensures
        ok == parses_as_url(input@),
        !input@.contains(':') ==> !ok,
{
    url::Url::parse(input).is_ok()
}

/// What `legacy_play` makes of its URL argument once the URL parser has
/// answered `url_ok`: the URL when it parsed, the invalid-URL message when
/// not.
pub fn url_verdict(url: &str, url_ok: bool) -> (r: Result<String, Reply>)
    ensures
        url_ok ==> r is Ok && r->Ok_0@ == url@,
        !url_ok ==> r == Err::<String, Reply>(Reply::InvalidUrl),
{
    if url_ok {
        Ok(String::from_str(url))
    } else {
        Err(Reply::InvalidUrl)
    }
}

/// The URL that `legacy_play` plays, from its first argument: the missing-
/// URL message without an argument, the invalid-URL message when the URL
/// parser refuses it, and the argument itself otherwise.
pub fn legacy_play_url(arg: Option<&str>) -> (r: Result<String, Reply>)
    ensures
        arg is None ==> r == Err::<String, Reply>(Reply::MissingUrl),
        arg is Some ==> (parses_as_url(arg->Some_0@) ==> r is Ok && r->Ok_0@ == arg->Some_0@),
        arg is Some ==> (!parses_as_url(arg->Some_0@) ==> r == Err::<String, Reply>(Reply::InvalidUrl)),
        arg is Some && !arg->Some_0@.contains(':') ==> r == Err::<String, Reply>(Reply::InvalidUrl),
{
    match arg {
        None => Err(Reply::MissingUrl),
        Some(url) => {
            let ok = url_parses(url);
            url_verdict(url, ok)
        },
    }
}

// ---------------------------------------------------------------- legacy play

/// Where a `legacy_play` command stands, once its URL was accepted.
#[derive(Debug, PartialEq, Eq)]
pub enum LegacyPlayState {
    /// Joining the author's channel (the outcome is not looked at).
    Joining,
    /// Waiting for the audio source.
    Fetching,
    /// Waiting for the source to start.
    Starting,
    Done,
}

/// How `legacy_play` goes on after its URL was accepted: with a call the
/// source is fetched at once; without one the bot joins the author's
/// channel, or says the author is in none.
pub open spec fn legacy_play_begin(has_call: bool, user: Option<Option<u64>>) -> (LegacyPlayState, Action) {
    if has_call {
        (LegacyPlayState::Fetching, Action::FetchSource)
    } else {
        match channel_of(user) {
            None => (LegacyPlayState::Done, Action::Send(Reply::UserNotInVoice)),
            Some(c) => (LegacyPlayState::Joining, Action::Connect(c)),
        }
    }
}

/// The transitions of `legacy_play`.
pub open spec fn legacy_play_next(state: LegacyPlayState, event: Event) -> (LegacyPlayState, Action) {
    match (state, event) {
        (LegacyPlayState::Joining, Event::Connected(_)) => (LegacyPlayState::Fetching, Action::FetchSource),
        (LegacyPlayState::Fetching, Event::SourceFetched(ok)) => if ok {
            (LegacyPlayState::Starting, Action::PlaySource)
        } else {
            (LegacyPlayState::Done, Action::Send(Reply::PlayFailed))
        },
        (LegacyPlayState::Starting, Event::SourcePlaying) => (
            LegacyPlayState::Done,
            Action::Send(Reply::Playing),
        ),
        _ => (LegacyPlayState::Done, Action::Finish),
    }
}

/// Continues `legacy_play` after its URL was accepted; `has_call` says
/// whether the voice manager holds a call for the guild, `user` is the
/// author's voice presence.
pub fn legacy_play_start(has_call: bool, user: Option<Option<u64>>) -> (r: (LegacyPlayState, Action))
    ensures
        r == legacy_play_begin(has_call, user),
{
    if has_call {
        (LegacyPlayState::Fetching, Action::FetchSource)
    } else {
        match voice_channel(user) {
            None => (LegacyPlayState::Done, Action::Send(Reply::UserNotInVoice)),
            Some(c) => (LegacyPlayState::Joining, Action::Connect(c)),
        }
    }
}

/// One step of `legacy_play`.
pub fn legacy_play_step(state: LegacyPlayState, event: Event) -> (r: (LegacyPlayState, Action))
    ensures
        r == legacy_play_next(state, event),
{
    match (state, event) {
        (LegacyPlayState::Joining, Event::Connected(_)) => (LegacyPlayState::Fetching, Action::FetchSource),
        (LegacyPlayState::Fetching, Event::SourceFetched(ok)) => {
            if ok {
                (LegacyPlayState::Starting, Action::PlaySource)
            } else {
                (LegacyPlayState::Done, Action::Send(Reply::PlayFailed))
            }
        },
        (LegacyPlayState::Starting, Event::SourcePlaying) => (
            LegacyPlayState::Done,
            Action::Send(Reply::Playing),
        ),
        _ => (LegacyPlayState::Done, Action::Finish),
    }
}

// ---------------------------------------------------------------- toggles

/// The four commands that set a flag of the bot's call.
#[derive(Clone, Copy, Debug, PartialEq, Eq, Structural)]
pub enum Toggle {
    Mute,
    Unmute,
    Deafen,
    Undeafen,
}

impl Toggle {
    /// The value the command gives the flag.
    pub open spec fn target(self) -> bool {
        self == Toggle::Mute || self == Toggle::Deafen
    }

    /// Whether the command sets the deaf flag (else the mute flag).
    pub open spec fn on_deaf(self) -> bool {
        self == Toggle::Deafen || self == Toggle::Undeafen
    }

    /// The message sent when setting the flag fails.
    pub open spec fn failure(self) -> Reply {
        match self {
            Toggle::Mute => Reply::MuteFailed,
            Toggle::Unmute => Reply::UnmuteFailed,
            Toggle::Deafen => Reply::DeafenFailed,
            Toggle::Undeafen => Reply::UndeafenFailed,
        }
    }
}

/// Where a toggle command stands.
#[derive(Clone, Copy, Debug, PartialEq, Eq, Structural)]
pub enum ToggleState {
    /// Waiting for the flag to be set.
    Setting(Toggle),
    Done,
}

/// How a toggle begins. `flag` is `None` when the voice manager holds no
/// call for the guild, and otherwise the call's current value of the flag
/// that the command sets: the flag is set only when it differs.
pub open spec fn toggle_begin(toggle: Toggle, flag: Option<bool>) -> (ToggleState, Action) {
    match flag {
        None => (ToggleState::Done, Action::Send(Reply::BotNotInVoice)),
        Some(current) => if current == toggle.target() {
            (ToggleState::Done, Action::Finish)
        } else if toggle.on_deaf() {
            (ToggleState::Setting(toggle), Action::SetDeaf(toggle.target()))
        } else {
            (ToggleState::Setting(toggle), Action::SetMute(toggle.target()))
        },
    }
}

/// The transitions of a toggle: a failure is reported.
pub open spec fn toggle_next(state: ToggleState, event: Event) -> (ToggleState, Action) {
    match (state, event) {
        (ToggleState::Setting(toggle), Event::FlagSet(ok)) => if ok {
            (ToggleState::Done, Action::Finish)
        } else {
            (ToggleState::Done, Action::Send(toggle.failure()))
        },
        _ => (ToggleState::Done, Action::Finish),
    }
}

/// Starts a toggle command.
pub fn toggle_start(toggle: Toggle, flag: Option<bool>) -> (r: (ToggleState, Action))
    ensures
        r == toggle_begin(toggle, flag),
{
    let target = toggle == Toggle::Mute || toggle == Toggle::Deafen;
    let on_deaf = toggle == Toggle::Deafen || toggle == Toggle::Undeafen;
    match flag {
        None => (ToggleState::Done, Action::Send(Reply::BotNotInVoice)),
        Some(current) => {
            if current == target {
                (ToggleState::Done, Action::Finish)
            } else if on_deaf {
                (ToggleState::Setting(toggle), Action::SetDeaf(target))
            } else {
                (ToggleState::Setting(toggle), Action::SetMute(target))
            }
        },
    }
}

/// One step of a toggle command.
pub fn toggle_step(state: ToggleState, event: Event) -> (r: (ToggleState, Action))
    ensures
        r == toggle_next(state, event),
{
    match (state, event) {
        (ToggleState::Setting(toggle), Event::FlagSet(ok)) => {
            if ok {
                (ToggleState::Done, Action::Finish)
            } else {
                let failure = match toggle {
                    Toggle::Mute => Reply::MuteFailed,
                    Toggle::Unmute => Reply::UnmuteFailed,
                    Toggle::Deafen => Reply::DeafenFailed,
                    Toggle::Undeafen => Reply::UndeafenFailed,
                };
                (ToggleState::Done, Action::Send(failure))
            }
        },
        _ => (ToggleState::Done, Action::Finish),
    }
}


// ---------------------------------------------------------------- laws

impl LegacyPlayState {
    /// How many more requests the machine may make at most.
    pub open spec fn rank(self) -> nat {
        match self {
            LegacyPlayState::Joining => 3,
            LegacyPlayState::Fetching => 2,
            LegacyPlayState::Starting => 1,
            LegacyPlayState::Done => 0,
        }
    }
}

impl ToggleState {
    /// How many more requests the machine may make at most.
    pub open spec fn rank(self) -> nat {
        match self {
            ToggleState::Setting(_) => 1,
            ToggleState::Done => 0,
        }
    }
}

/// `legacy_play` and the toggles finish: each step either ends the command
/// or moves to a state with fewer requests left.
pub proof fn lemma_legacy_commands_finish(event: Event)
    ensures
        forall|s: LegacyPlayState| #![auto] legacy_play_next(s, event).1 is Finish || legacy_play_next(s, event).0.rank() < s.rank(),
        forall|s: ToggleState| #![auto] toggle_next(s, event).1 is Finish || toggle_next(s, event).0.rank() < s.rank(),
        legacy_play_next(LegacyPlayState::Done, event).1 is Finish,
        toggle_next(ToggleState::Done, event).1 is Finish,
{
}

/// A toggle asks for a change only when the flag differs from the command's
/// value, and then sets that value on the flag the command is about: muting
/// twice, or unmuting an unmuted call, asks nothing of the call.
pub proof fn lemma_toggle_changes_only_when_needed(toggle: Toggle, current: bool)
    ensures
        current == toggle.target() ==> toggle_begin(toggle, Some(current)) == (ToggleState::Done, Action::Finish),
        current != toggle.target() && toggle.on_deaf() ==> toggle_begin(toggle, Some(current)).1
            == Action::SetDeaf(!current),
        current != toggle.target() && !toggle.on_deaf() ==> toggle_begin(toggle, Some(current)).1
            == Action::SetMute(!current),
{
}

/// `legacy_play` plays only a source that was fetched, and says "Playing!"
/// only after it started.
pub proof fn lemma_legacy_play_plays_fetched_sources(state: LegacyPlayState, event: Event)
    ensures
        legacy_play_next(state, event).1 is PlaySource ==> (state is Fetching && event == Event::SourceFetched(true)),
        legacy_play_next(state, event).1 matches Action::Send(Reply::Playing) ==> (state is Starting
            && event is SourcePlaying),
{
}

/// The states and pending actions that a run of `legacy_play` passes
/// through.
pub open spec fn legacy_play_stage(state: LegacyPlayState, action: Action) -> bool {
    match state {
        LegacyPlayState::Joining => action is Connect,
        LegacyPlayState::Fetching => action is FetchSource,
        LegacyPlayState::Starting => action is PlaySource,
        LegacyPlayState::Done => action is Send || action is Finish,
    }
}

proof fn lemma_legacy_play_run_from(state: LegacyPlayState, action: Action, events: Seq<Event>)
    requires
        legacy_play_stage(state, action),
        completes(|s: LegacyPlayState, e: Event| legacy_play_next(s, e), state, action, events),
    ensures
        sends_in_run(|s: LegacyPlayState, e: Event| legacy_play_next(s, e), state, action, events) == (
        if state is Done && action is Finish {
            0nat
        } else {
            1nat
        }),
        no_error_exit(|s: LegacyPlayState, e: Event| legacy_play_next(s, e), state, action, events),
    decreases events.len(),
{
    if !(action is Finish) {
        let e = events[0];
        lemma_legacy_play_run_from(legacy_play_next(state, e).0, legacy_play_next(state, e).1, events.drop_first());
    }
}

/// Once its URL was accepted, every whole run of `legacy_play` sends
/// exactly one message and never ends the command with an error, whatever
/// the gateway and the audio source answer. (When the URL is refused,
/// [`legacy_play_url`] gives the one message to send instead.)
pub proof fn lemma_legacy_play_run_sends_one_message(
    has_call: bool,
    user: Option<Option<u64>>,
    events: Seq<Event>,
)
    requires
        completes(
            |s: LegacyPlayState, e: Event| legacy_play_next(s, e),
            legacy_play_begin(has_call, user).0,
            legacy_play_begin(has_call, user).1,
            events,
        ),
    ensures
        sends_in_run(
            |s: LegacyPlayState, e: Event| legacy_play_next(s, e),
            legacy_play_begin(has_call, user).0,
            legacy_play_begin(has_call, user).1,
            events,
        ) == 1,
        no_error_exit(
            |s: LegacyPlayState, e: Event| legacy_play_next(s, e),
            legacy_play_begin(has_call, user).0,
            legacy_play_begin(has_call, user).1,
            events,
        ),
{
    lemma_legacy_play_run_from(legacy_play_begin(has_call, user).0, legacy_play_begin(has_call, user).1, events);
}

// ---------------------------------------------------------------- behaviour, case by case

/// `legacy_play` after its URL was accepted: with a call it fetches the
/// source at once; without one it joins exactly the author's channel, or
/// says the author is in no channel.
pub proof fn lemma_legacy_play_begins(channel: u64, user: Option<Option<u64>>)
    ensures
        legacy_play_begin(true, user) == (LegacyPlayState::Fetching, Action::FetchSource),
        legacy_play_begin(false, Some(Some(channel))) == (LegacyPlayState::Joining, Action::Connect(channel)),
        legacy_play_begin(false, None) == (LegacyPlayState::Done, Action::Send(Reply::UserNotInVoice)),
        legacy_play_begin(false, Some(None)) == (LegacyPlayState::Done, Action::Send(Reply::UserNotInVoice)),
{
}

/// `legacy_play`, step by step: after joining, whether or not that
/// succeeded, the source is fetched; a fetched source is played and
/// "Playing!" follows; only a source that could not be fetched is
/// reported as a failure.
pub proof fn lemma_legacy_play_steps(joined: bool, state: LegacyPlayState, event: Event)
    ensures
        legacy_play_next(LegacyPlayState::Joining, Event::Connected(joined)) == (
            LegacyPlayState::Fetching,
            Action::FetchSource,
        ),
        legacy_play_next(LegacyPlayState::Fetching, Event::SourceFetched(true)) == (
            LegacyPlayState::Starting,
            Action::PlaySource,
        ),
        legacy_play_next(LegacyPlayState::Fetching, Event::SourceFetched(false)) == (
            LegacyPlayState::Done,
            Action::Send(Reply::PlayFailed),
        ),
        legacy_play_next(LegacyPlayState::Starting, Event::SourcePlaying) == (
            LegacyPlayState::Done,
            Action::Send(Reply::Playing),
        ),
        legacy_play_next(state, event).1 == Action::Send(Reply::PlayFailed) ==> (state is Fetching && event
            == Event::SourceFetched(false)),
        !(state is Joining && event is Connected) && !(state is Fetching && event is SourceFetched) && !(
        state is Starting && event is SourcePlaying) ==> legacy_play_next(state, event) == (
            LegacyPlayState::Done,
            Action::Finish,
        ),
{
}

/// The four toggles: without a call the bot says it is in none; `mute`
/// and `deafen` set their flag to true, `unmute` and `undeafen` to false,
/// each only when the flag is not already so; a failure is reported with
/// the command's own message, a success ends the command.
pub proof fn lemma_toggles(state: ToggleState, event: Event)
    ensures
        toggle_begin(Toggle::Mute, None) == (ToggleState::Done, Action::Send(Reply::BotNotInVoice)),
        toggle_begin(Toggle::Unmute, None) == (ToggleState::Done, Action::Send(Reply::BotNotInVoice)),
        toggle_begin(Toggle::Deafen, None) == (ToggleState::Done, Action::Send(Reply::BotNotInVoice)),
        toggle_begin(Toggle::Undeafen, None) == (ToggleState::Done, Action::Send(Reply::BotNotInVoice)),
        toggle_begin(Toggle::Mute, Some(false)) == (ToggleState::Setting(Toggle::Mute), Action::SetMute(true)),
        toggle_begin(Toggle::Mute, Some(true)) == (ToggleState::Done, Action::Finish),
        toggle_begin(Toggle::Unmute, Some(true)) == (ToggleState::Setting(Toggle::Unmute), Action::SetMute(false)),
        toggle_begin(Toggle::Unmute, Some(false)) == (ToggleState::Done, Action::Finish),
        toggle_begin(Toggle::Deafen, Some(false)) == (ToggleState::Setting(Toggle::Deafen), Action::SetDeaf(true)),
        toggle_begin(Toggle::Deafen, Some(true)) == (ToggleState::Done, Action::Finish),
        toggle_begin(Toggle::Undeafen, Some(true)) == (
            ToggleState::Setting(Toggle::Undeafen),
            Action::SetDeaf(false),
        ),
        toggle_begin(Toggle::Undeafen, Some(false)) == (ToggleState::Done, Action::Finish),
        toggle_next(ToggleState::Setting(Toggle::Mute), Event::FlagSet(false)) == (
            ToggleState::Done,
            Action::Send(Reply::MuteFailed),
        ),
        toggle_next(ToggleState::Setting(Toggle::Unmute), Event::FlagSet(false)) == (
            ToggleState::Done,
            Action::Send(Reply::UnmuteFailed),
        ),
        toggle_next(ToggleState::Setting(Toggle::Deafen), Event::FlagSet(false)) == (
            ToggleState::Done,
            Action::Send(Reply::DeafenFailed),
        ),
        toggle_next(ToggleState::Setting(Toggle::Undeafen), Event::FlagSet(false)) == (
            ToggleState::Done,
            Action::Send(Reply::UndeafenFailed),
        ),
        state is Setting ==> toggle_next(state, Event::FlagSet(true)) == (ToggleState::Done, Action::Finish),
        !(state is Setting && event is FlagSet) ==> toggle_next(state, event) == (ToggleState::Done, Action::Finish),
{
}

} // verus!
