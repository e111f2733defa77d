//! Commands that touch no player.

use vstd::prelude::*;

verus! {

/// The command that shows the bot's latency.
#[derive(Clone, Copy, Debug, PartialEq, Eq, Structural)]
pub struct Ping;

/// What the latency command answers.
#[derive(Clone, Copy, Debug, PartialEq, Eq, Structural)]
pub enum PingReply {
    /// The average heartbeat latency, in milliseconds.
    Pong(u128),
    /// No heartbeat has been measured yet.
    Unavailable,
}

impl Ping {
    /// The answer, given the average gateway latency where one is known.
    pub fn reply(&self, average_latency_millis: Option<u128>) -> (r: PingReply)
        ensures
            r == match average_latency_millis {
                Some(ms) => PingReply::Pong(ms),
                None => PingReply::Unavailable,
            },
    {
        match average_latency_millis {
            Some(ms) => PingReply::Pong(ms),
            None => PingReply::Unavailable,
        }
    }
}

} // verus!
