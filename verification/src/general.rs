//! The answers of the general, emoji and moderation commands, and of the
//! framework hooks that talk to the author.

use vstd::prelude::*;
use crate::decimal::{parse_u64, parsed_u64};
use crate::reply::Reply;

verus! {

/// The permission bit that makes a role an administrator role.
pub const ADMINISTRATOR: u64 = 8;

/// Whether a role with these cached permission bits is an administrator
/// role; a role missing from the cache is not.
pub open spec fn grants_admin(permissions: Option<u64>) -> bool {
    match permissions {
        Some(bits) => bits & ADMINISTRATOR == ADMINISTRATOR,
        None => false,
    }
}

/// Whether some role among `roles` is an administrator role.
pub open spec fn some_admin_role(roles: Seq<Option<u64>>) -> bool {
    exists|i: int| 0 <= i < roles.len() && #[trigger] grants_admin(roles[i])
}

/// Whether some role in `roles` is an administrator role.
fn any_admin(roles: &Vec<Option<u64>>) -> (r: bool)
    ensures
        r == some_admin_role(roles@),
{
    let mut i: usize = 0;
    while i < roles.len()
        invariant
            i <= roles@.len(),
            forall|j: int| 0 <= j < i ==> !#[trigger] grants_admin(roles@[j]),
        decreases roles@.len() - i,
    {
        let admin = match roles[i] {
            Some(bits) => bits & ADMINISTRATOR == ADMINISTRATOR,
            None => false,
        };
        if admin {
            assert(grants_admin(roles@[i as int]));
            return true;
        }
        i = i + 1;
    }
    false
}

/// The answer of `am_i_admin`. `roles` is `None` when the message carries
/// no member, and otherwise the cached permission bits of each of the
/// member's roles (`None` for a role missing from the cache).
pub fn am_i_admin_reply(roles: Option<Vec<Option<u64>>>) -> (r: Reply)
    ensures
        r == (if (match roles {
            Some(v) => some_admin_role(v@),
            None => false,
        }) {
            Reply::YouAreAdmin
        } else {
            Reply::YouAreNotAdmin
        }),
{
    match &roles {
        Some(list) => {
            if any_admin(list) {
                Reply::YouAreAdmin
            } else {
                Reply::YouAreNotAdmin
            }
        },
        None => Reply::YouAreNotAdmin,
    }
}

/// How mentions are cleaned before `repeat` echoes its arguments.
#[derive(Clone, Copy, Debug, PartialEq, Eq, Structural)]
pub struct RepeatOptions {
    pub clean_role: bool,
    pub clean_user: bool,
    pub clean_channel: bool,
    pub clean_here: bool,
    pub clean_everyone: bool,
    pub show_discriminator: bool,
    /// The guild whose member names replace user mentions.
    pub guild_reference: Option<u64>,
}

/// The cleaning options of `repeat`: user and role mentions (and `@here`,
/// `@everyone`) are replaced by a safe text, channel mentions are kept; in a
/// guild, mentioned users are shown by their member name.
pub fn repeat_options(guild: Option<u64>) -> (o: RepeatOptions)
    ensures
        o.clean_user,
        o.clean_here,
        o.clean_everyone,
        o.show_discriminator,
        !o.clean_channel,
        o.clean_role,
        o.guild_reference == guild,
{
    match guild {
        Some(g) => RepeatOptions {
            clean_role: true,
            clean_user: true,
            clean_channel: false,
            clean_here: true,
            clean_everyone: true,
            show_discriminator: true,
            guild_reference: Some(g),
        },
        None => RepeatOptions {
            clean_role: true,
            clean_user: true,
            clean_channel: false,
            clean_here: true,
            clean_everyone: true,
            show_discriminator: true,
            guild_reference: None,
        },
    }
}

/// The answer of the `bird` emoji command: a hint without arguments, and
/// otherwise that the animal named by the arguments was not found.
pub fn bird_reply(no_args: bool, rest: &str) -> (r: Reply)
    ensures
        no_args ==> r == Reply::BirdHelp,
        !no_args ==> (r matches Reply::BirdUnknown(name) && name@ == rest@),
{
    if no_args {
        Reply::BirdHelp
    } else {
        Reply::BirdUnknown(String::from_str(rest))
    }
}

/// The answer of `some_long_command`: its arguments in `Debug` notation.
pub fn arguments_reply(rest: &str) -> (r: Reply)
    ensures
        r matches Reply::Arguments(shown) && shown@ == rest@,
{
    Reply::Arguments(String::from_str(rest))
}

/// The answer to a command name that no command has.
pub fn unknown_command_reply(name: &str) -> (r: Reply)
    ensures
        r matches Reply::UnknownCommand(n) && n@ == name@,
{
    Reply::UnknownCommand(String::from_str(name))
}

/// The answer to a command that was not dispatched. `rate_limit` is `None`
/// for any reason but a rate limit, and otherwise whether this is the first
/// refused try and the seconds left: only the first refused try is answered.
pub fn dispatch_error_reply(rate_limit: Option<(bool, u64)>) -> (r: Option<Reply>)
    ensures
        r == (match rate_limit {
            Some((true, secs)) => Some(Reply::TryAgainIn(secs)),
            _ => None::<Reply>,
        }),
{
    match rate_limit {
        Some((first_try, secs)) => {
            if first_try {
                Some(Reply::TryAgainIn(secs))
            } else {
                None
            }
        },
        None => None,
    }
}

/// The rate that `slow_mode` sets, from its first argument: the argument
/// read as `u64::from_str` reads it; without a readable rate the command
/// reports the current rate instead.
pub fn slow_mode_request(arg: Option<&str>) -> (r: Option<u64>)
    ensures
        r == (match arg {
            Some(s) => parsed_u64(s@),
            None => None::<u64>,
        }),
{
    match arg {
        Some(s) => parse_u64(s),
        None => None,
    }
}

/// The answer of `slow_mode` after trying to set the rate `rate`.
pub fn slow_mode_set_reply(rate: u64, ok: bool) -> (r: Reply)
    ensures
        r == (if ok {
            Reply::SlowModeSet(rate)
        } else {
            Reply::SlowModeSetFailed(rate)
        }),
{
    if ok {
        Reply::SlowModeSet(rate)
    } else {
        Reply::SlowModeSetFailed(rate)
    }
}

/// The answer of `slow_mode` without a rate. `channel` is `None` when the
/// channel is not a guild channel in the cache, and otherwise its slow mode
/// rate, if set (an unset rate reads as 0).
pub fn slow_mode_current_reply(channel: Option<Option<u64>>) -> (r: Reply)
    ensures
        r == (match channel {
            Some(Some(rate)) => Reply::SlowModeCurrent(rate),
            Some(None) => Reply::SlowModeCurrent(0),
            None => Reply::ChannelNotCached,
        }),
{
    match channel {
        Some(rate) => match rate {
            Some(seconds) => Reply::SlowModeCurrent(seconds),
            None => Reply::SlowModeCurrent(0),
        },
        None => Reply::ChannelNotCached,
    }
}

/// A role is an administrator role exactly when bit 3 of its permissions
/// (the value 8) is set; a role missing from the cache never is.
pub proof fn lemma_grants_admin(bits: u64)
    ensures
        grants_admin(Some(bits)) <==> (bits / 8) % 2 == 1,
        !grants_admin(None),
{
    assert((bits & 8 == 8) <==> ((bits / 8) % 2 == 1)) by (bit_vector);
}

} // verus!
