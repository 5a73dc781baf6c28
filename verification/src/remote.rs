//! The remote state that plugins keep in Redis: the commands that are sent, and what a plugin is
//! shown of the answers.
use crate::scripts::{RegistryView, Script, ScriptRegistry, ScriptView};
use vstd::prelude::*;

verus! {

/// What the host knows of the Redis server that holds the remote state.
pub struct RedisInfo {
    /// A Lua script registry
    pub registry: ScriptRegistry,
}

/// A command for the Redis server.
pub enum RedisCommand {
    /// Reads the value at a key.
    Read { key: String },
    /// Writes the value at a key.
    Write { key: String, value: Vec<u8> },
    /// Increases the counter at a key.
    Increment { key: String, delta: i64 },
    /// Lets the value at a key expire after a number of seconds.
    Expire { key: String, seconds: usize },
    /// Runs a script with one key and its arguments.
    Run { script: Script, key: String, args: Vec<i64> },
}

/// What a command asks for.
pub ghost enum CommandView {
    Read { key: Seq<char> },
    Write { key: Seq<char>, value: Seq<u8> },
    Increment { key: Seq<char>, delta: i64 },
    Expire { key: Seq<char>, seconds: int },
    Run { script: ScriptView, key: Seq<char>, args: Seq<i64> },
}

impl View for RedisCommand {
    type V = CommandView;

    open spec fn view(&self) -> CommandView {
        match self {
            RedisCommand::Read { key } => CommandView::Read { key: key@ },
            RedisCommand::Write { key, value } => CommandView::Write { key: key@, value: value@ },
            RedisCommand::Increment { key, delta } => CommandView::Increment { key: key@, delta: *delta },
            RedisCommand::Expire { key, seconds } => CommandView::Expire {
                key: key@,
                seconds: *seconds as int,
            },
            RedisCommand::Run { script, key, args } => CommandView::Run {
                script: script@,
                key: key@,
                args: args@,
            },
        }
    }
}

impl CommandView {
    /// The key that a command is about.
    pub open spec fn key(self) -> Seq<char> {
        match self {
            CommandView::Read { key } => key,
            CommandView::Write { key, .. } => key,
            CommandView::Increment { key, .. } => key,
            CommandView::Expire { key, .. } => key,
            CommandView::Run { key, .. } => key,
        }
    }
}

impl RegistryView {
    /// The command that increments a rate limit at a given time.
    pub open spec fn rate_limit_increment(
        self,
        key: Seq<char>,
        delta: i64,
        window: i64,
        timestamp: i64,
    ) -> CommandView {
        CommandView::Run {
            script: self.increment_rate_limit,
            key,
            args: seq![delta, window, timestamp],
        }
    }

    /// The command that checks a rate limit at a given time.
    pub open spec fn rate_limit_check(self, key: Seq<char>, timestamp: i64) -> CommandView {
        CommandView::Run { script: self.check_rate_limit, key, args: seq![timestamp] }
    }

    /// The command that increments a circuit breaker at a given time.
    pub open spec fn breaker_increment(
        self,
        key: Seq<char>,
        success_delta: i64,
        failure_delta: i64,
        window: i64,
        timestamp: i64,
    ) -> CommandView {
        CommandView::Run {
            script: self.increment_breaker,
            key,
            args: seq![success_delta, failure_delta, window, timestamp],
        }
    }

    /// The command that checks a circuit breaker at a given time.
    pub open spec fn breaker_check(self, key: Seq<char>, timestamp: i64) -> CommandView {
        CommandView::Run { script: self.check_breaker, key, args: seq![timestamp] }
    }
}

impl ScriptRegistry {
    /// Increments a rate limit at the time `timestamp`, in seconds since the Unix epoch.
    pub fn increment_rate_limit_at(
        &self,
        key: String,
        delta: i64,
        window: i64,
        timestamp: i64,
    ) -> (command: RedisCommand)
        ensures
            command@ == self@.rate_limit_increment(key@, delta, window, timestamp),
    {
        let args: Vec<i64> = vec![delta, window, timestamp];
        assert(args@ =~= seq![delta, window, timestamp]);
        RedisCommand::Run { script: self.increment_rate_limit.clone(), key, args }
    }

    /// Checks a rate limit at the time `timestamp`, in seconds since the Unix epoch.
    pub fn check_rate_limit_at(&self, key: String, timestamp: i64) -> (command: RedisCommand)
        ensures
            command@ == self@.rate_limit_check(key@, timestamp),
    {
        let args: Vec<i64> = vec![timestamp];
        assert(args@ =~= seq![timestamp]);
        RedisCommand::Run { script: self.check_rate_limit.clone(), key, args }
    }

    /// Increments a circuit breaker at the time `timestamp`, in seconds since the Unix epoch.
    pub fn increment_breaker_at(
        &self,
        key: String,
        success_delta: i64,
        failure_delta: i64,
        window: i64,
        timestamp: i64,
    ) -> (command: RedisCommand)
        ensures
            command@ == self@.breaker_increment(
                key@,
                success_delta,
                failure_delta,
                window,
                timestamp,
            ),
    {
        let args: Vec<i64> = vec![success_delta, failure_delta, window, timestamp];
        assert(args@ =~= seq![success_delta, failure_delta, window, timestamp]);
        RedisCommand::Run { script: self.increment_breaker.clone(), key, args }
    }

    /// Checks a circuit breaker at the time `timestamp`, in seconds since the Unix epoch.
    pub fn check_breaker_at(&self, key: String, timestamp: i64) -> (command: RedisCommand)
        ensures
            command@ == self@.breaker_check(key@, timestamp),
    {
        let args: Vec<i64> = vec![timestamp];
        assert(args@ =~= seq![timestamp]);
        RedisCommand::Run { script: self.check_breaker.clone(), key, args }
    }
}

/// Calls `chrono::Utc::now` and reads the seconds since the Unix epoch off it with
/// `chrono::DateTime::timestamp`. The clock decides; a clock that stands before the epoch makes
/// the call panic, so that what comes back is never negative.
#[verifier::external_body]
pub(crate) fn current_timestamp() -> (timestamp: i64)
    ensures
        0 <= timestamp,
{
    chrono::Utc::now().timestamp()
}

/// A rate limit as a plugin sees it.
#[derive(Clone, Copy, PartialEq, Eq, Structural, Debug)]
pub struct RateInterface {
    pub attempts: i64,
    pub expiration: i64,
}

impl RateInterface {
    /// Shows the answer of a rate limit script.
    pub fn from_reply(reply: (i64, i64)) -> (shown: RateInterface)
        ensures
            shown == (RateInterface { attempts: reply.0, expiration: reply.1 }),
    {
        let (attempts, expiration) = reply;
        RateInterface { attempts, expiration }
    }
}

/// A circuit breaker as a plugin sees it.
#[derive(Clone, Copy, PartialEq, Eq, Structural, Debug)]
pub struct BreakerInterface {
    pub generation: i64,
    pub successes: i64,
    pub failures: i64,
    pub consecutive_successes: i64,
    pub consecutive_failures: i64,
    pub expiration: i64,
}

impl BreakerInterface {
    /// Shows the answer of a circuit breaker script.
    pub fn from_reply(reply: (i64, i64, i64, i64, i64, i64)) -> (shown: BreakerInterface)
        ensures
            shown == (BreakerInterface {
                generation: reply.0,
                successes: reply.1,
                failures: reply.2,
                consecutive_successes: reply.3,
                consecutive_failures: reply.4,
                expiration: reply.5,
            }),
    {
        let (
            generation,
            successes,
            failures,
            consecutive_successes,
            consecutive_failures,
            expiration,
        ) = reply;
        BreakerInterface {
            generation,
            successes,
            failures,
            consecutive_successes,
            consecutive_failures,
            expiration,
        }
    }
}

} // verus!
