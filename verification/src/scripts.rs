//! The Lua scripts that run inside Redis.
use vstd::prelude::*;

verus! {

/// Increments a counter unless its period has expired, in which case a new period begins.
///
/// `KEYS[1]` names the counter; `ARGV` holds the increment, the period in seconds and the time.
/// Answers the number of attempts so far and the time at which the period expires.
pub const INCREMENT_RATE_LIMIT: &'static str = r#"
                local counter_key = "bulwark:rl:" .. KEYS[1]
                local increment_delta = tonumber(ARGV[1])
                local expiration_window = tonumber(ARGV[2])
                local timestamp = tonumber(ARGV[3])
                local expiration_key = counter_key .. ":exp"
                local expiration = tonumber(redis.call("get", expiration_key))
                local next_expiration = timestamp + expiration_window
                if not expiration or timestamp > expiration then
                    redis.call("set", expiration_key, next_expiration)
                    redis.call("set", counter_key, 0)
                    redis.call("expireat", expiration_key, next_expiration + 1)
                    redis.call("expireat", counter_key, next_expiration + 1)
                    expiration = next_expiration
                end
                local attempts = redis.call("incrby", counter_key, increment_delta)
                return { attempts, expiration }
                "#;

/// Reads a counter unless its period has expired.
///
/// `KEYS[1]` names the counter; `ARGV` holds the time. Answers as the increment does.
pub const CHECK_RATE_LIMIT: &'static str = r#"
                local counter_key = "bulwark:rl:" .. KEYS[1]
                local expiration_key = counter_key .. ":exp"
                local timestamp = tonumber(ARGV[1])
                local attempts = tonumber(redis.call("get", counter_key))
                local expiration = nil
                if attempts then
                    expiration = tonumber(redis.call("get", expiration_key))
                    if not expiration or timestamp > expiration then
                        attempts = nil
                        expiration = nil
                    end
                end
                return { attempts, expiration }
                "#;

/// Increments the success counter of a circuit breaker and its failure counter, each by its own
/// amount, unless the period of the breaker has expired, in which case it begins anew. Successes
/// continue the run of successes and clear the run of failures; without successes it is the other
/// way round.
///
/// `KEYS[1]` names the breaker; `ARGV` holds the two increments, the period in seconds and the
/// time. Answers the generation, the successes, the failures, the consecutive successes, the
/// consecutive failures and the time of expiration. The time of expiration is kept as the expiry
/// of the generation; a breaker that was never written has none, and begins anew.
pub const INCREMENT_BREAKER: &'static str = r#"
                local generation_key = "bulwark:bk:g:" .. KEYS[1]
                local success_key = "bulwark:bk:s:" .. KEYS[1]
                local failure_key = "bulwark:bk:f:" .. KEYS[1]
                local consec_success_key = "bulwark:bk:cs:" .. KEYS[1]
                local consec_failure_key = "bulwark:bk:cf:" .. KEYS[1]
                local success_delta = tonumber(ARGV[1])
                local failure_delta = tonumber(ARGV[2])
                local expiration_window = tonumber(ARGV[3])
                local timestamp = tonumber(ARGV[4])
                local previous_expiration = tonumber(redis.call("expiretime", generation_key)) - 1
                if timestamp > previous_expiration then
                    redis.call("del", generation_key)
                    redis.call("del", success_key)
                    redis.call("del", failure_key)
                    redis.call("del", consec_success_key)
                    redis.call("del", consec_failure_key)
                end
                local expiration = timestamp + expiration_window
                local generation = redis.call("incrby", generation_key, 1)
                local successes = redis.call("incrby", success_key, success_delta)
                local failures = redis.call("incrby", failure_key, failure_delta)
                local consec_successes = 0
                local consec_failures = 0
                if success_delta > 0 then
                    consec_successes = redis.call("incrby", consec_success_key, success_delta)
                    redis.call("set", consec_failure_key, 0)
                else
                    redis.call("set", consec_success_key, 0)
                    consec_failures = redis.call("incrby", consec_failure_key, failure_delta)
                end
                redis.call("expireat", generation_key, expiration + 1)
                redis.call("expireat", success_key, expiration + 1)
                redis.call("expireat", failure_key, expiration + 1)
                redis.call("expireat", consec_success_key, expiration + 1)
                redis.call("expireat", consec_failure_key, expiration + 1)
                return { generation, successes, failures, consec_successes, consec_failures, expiration }
                "#;

/// Reads a circuit breaker unless its period has expired.
///
/// `KEYS[1]` names the breaker; `ARGV` holds the time. Answers as the increment does. All the
/// counters of a breaker expire together, and the generation is the one that always exists.
pub const CHECK_BREAKER: &'static str = r#"
                local generation_key = "bulwark:bk:g:" .. KEYS[1]
                local success_key = "bulwark:bk:s:" .. KEYS[1]
                local failure_key = "bulwark:bk:f:" .. KEYS[1]
                local consec_success_key = "bulwark:bk:cs:" .. KEYS[1]
                local consec_failure_key = "bulwark:bk:cf:" .. KEYS[1]
                local timestamp = tonumber(ARGV[1])
                local generation = tonumber(redis.call("get", generation_key))
                local expiration = tonumber(redis.call("expiretime", generation_key)) - 1
                if not generation or timestamp > expiration then
                    return { nil, nil, nil, nil, nil, nil }
                end
                local successes = tonumber(redis.call("get", success_key)) or 0
                local failures = tonumber(redis.call("get", failure_key)) or 0
                local consec_successes = tonumber(redis.call("get", consec_success_key)) or 0
                local consec_failures = tonumber(redis.call("get", consec_failure_key)) or 0
                return { generation, successes, failures, consec_successes, consec_failures, expiration }
                "#;

/// The hexadecimal SHA1 digest by which Redis knows a script.
pub uninterp spec fn script_digest(code: Seq<char>) -> Seq<char>;

/// Calls `redis::Script::new` and reads the digest of the code off the script that it made.
#[verifier::external_body]
fn digest_of(code: &str) -> (digest: String)
    ensures
        digest@ == script_digest(code@),
{
    redis::Script::new(code).get_hash().to_owned()
}

/// A Lua script and the digest by which Redis knows it.
pub struct Script {
    pub code: String,
    pub hash: String,
}

/// The texts of a script.
pub ghost struct ScriptView {
    pub code: Seq<char>,
    pub hash: Seq<char>,
}

impl View for Script {
    type V = ScriptView;

    open spec fn view(&self) -> ScriptView {
        ScriptView { code: self.code@, hash: self.hash@ }
    }
}

/// The script that is made of `code`.
pub open spec fn script_of(code: Seq<char>) -> ScriptView {
    ScriptView { code, hash: script_digest(code) }
}

impl Script {
    /// Makes a script of Lua code.
    pub fn new(code: &str) -> (script: Script)
        ensures
            script@ == script_of(code@),
    {
        Script { code: code.to_owned(), hash: digest_of(code) }
    }
}

impl Clone for Script {
    fn clone(&self) -> (copy: Self)
        ensures
            copy@ == self@,
    {
        Script { code: self.code.clone(), hash: self.hash.clone() }
    }
}

/// A registry of predefined Lua scripts for execution within Redis.
pub struct ScriptRegistry {
    /// Increments a Redis key's counter value if it has not yet expired.
    ///
    /// Uses the service's clock rather than Redis'. Uses Redis' TTL on a best-effort basis.
    pub increment_rate_limit: Script,
    /// Checks a Redis key's counter value if it has not yet expired.
    ///
    /// Uses the service's clock rather than Redis'. Uses Redis' TTL on a best-effort basis.
    pub check_rate_limit: Script,
    /// Increments a Redis key's counter value, corresponding to either success or failure, if it
    /// has not yet expired.
    ///
    /// Uses the service's clock rather than Redis'. Uses Redis' TTL on a best-effort basis.
    pub increment_breaker: Script,
    /// Checks a Redis key's counter value, corresponding to either success or failure, if it has
    /// not yet expired.
    ///
    /// Uses the service's clock rather than Redis'. Uses Redis' TTL on a best-effort basis.
    pub check_breaker: Script,
}

/// The scripts of a registry.
pub ghost struct RegistryView {
    pub increment_rate_limit: ScriptView,
    pub check_rate_limit: ScriptView,
    pub increment_breaker: ScriptView,
    pub check_breaker: ScriptView,
}

impl View for ScriptRegistry {
    type V = RegistryView;

    open spec fn view(&self) -> RegistryView {
        RegistryView {
            increment_rate_limit: self.increment_rate_limit@,
            check_rate_limit: self.check_rate_limit@,
            increment_breaker: self.increment_breaker@,
            check_breaker: self.check_breaker@,
        }
    }
}

/// The registry of the scripts of this module.
pub open spec fn predefined_scripts() -> RegistryView {
    RegistryView {
        increment_rate_limit: script_of(INCREMENT_RATE_LIMIT@),
        check_rate_limit: script_of(CHECK_RATE_LIMIT@),
        increment_breaker: script_of(INCREMENT_BREAKER@),
        check_breaker: script_of(CHECK_BREAKER@),
    }
}

impl Default for ScriptRegistry {
    fn default() -> (registry: ScriptRegistry)
        ensures
            registry@ == predefined_scripts(),
    {
        ScriptRegistry {
            increment_rate_limit: Script::new(INCREMENT_RATE_LIMIT),
            check_rate_limit: Script::new(CHECK_RATE_LIMIT),
            increment_breaker: Script::new(INCREMENT_BREAKER),
            check_breaker: Script::new(CHECK_BREAKER),
        }
    }
}

} // verus!
