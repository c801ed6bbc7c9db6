//! Decision logic of a Discord music bot: command checks, the replies that
//! commands send, the per-command state machines that drive voice and
//! player requests, and the number rendering and parsing that replies use.
//!
//! The network, the voice gateway and the player service live outside this
//! crate; the functions here take what those services answered as plain
//! values and say what the bot does next.

pub mod decimal;
pub mod reply;
pub mod checks;
pub mod voice;
pub mod legacy;
pub mod general;
