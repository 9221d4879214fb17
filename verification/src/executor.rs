//! One logical API call: credential acquisition, request-address building,
//! and classification of the response into retry, evict and fatal policies.
//!
//! The executor cannot perform the HTTP transfer or sleep itself, so a call
//! is driven as a step machine: [`TornAPI::next_attempt`] acquires a
//! credential and yields the address to fetch, and
//! [`TornAPI::handle_response`] classifies what came back —
//!
//! - no error in the body: the decoded document is the result;
//! - the remote rate limit was exceeded: sleep a fixed backoff, then attempt
//!   the same logical call again (re-acquiring a credential);
//! - the credential was rejected as invalid: evict it for the rest of the
//!   window and attempt again at once;
//! - any other error code, or a transport or decode failure: fatal, the
//!   call fails with no retry.

use vstd::prelude::*;

use crate::json::JsonValue;
use crate::json::parse_json;
use crate::json::parsed_of;
use crate::key_pool::AcquireDecision;
use crate::key_pool::AcquireOutcome;
use crate::key_pool::TornAPI;
use crate::key_pool::acquire_model;
use crate::key_pool::evict_model;
use crate::text::dec_str;

verus! {

/// Fixed backoff after the remote reports its rate limit exceeded, in
/// seconds: the published reset interval of the remote API.
pub const BACKOFF_SECONDS: u64 = 60;

/// Remote error code meaning the rate limit was exceeded.
pub const CODE_RATE_LIMIT: u64 = 5;

/// Remote error code meaning the credential is invalid.
pub const CODE_INVALID_KEY: u64 = 2;

/// One remote endpoint with its parameters.
#[derive(Clone, Copy, Debug, PartialEq, Eq, Structural)]
pub enum Endpoint {
    /// A player's profile, by player identifier.
    PlayerProfile { player_id: u64 },
    /// A faction's basic data, by faction identifier.
    FactionBasic { faction_id: u64 },
    /// The credential owner's faction event feed, from a timestamp
    /// watermark (exclusive).
    RevivesFeed { from: u64 },
}

/// The request address for an endpoint, with the credential secret embedded.
pub open spec fn endpoint_url(ep: Endpoint, secret: Seq<char>) -> Seq<char> {
    match ep {
        Endpoint::PlayerProfile { player_id } => "https://api.torn.com/user/"@ + dec_str(
            player_id as nat,
        ) + "?selections=profile&key="@ + secret,
        Endpoint::FactionBasic { faction_id } => "https://api.torn.com/faction/"@ + dec_str(
            faction_id as nat,
        ) + "?selections=basic&key="@ + secret,
        Endpoint::RevivesFeed { from } => {
            "https://api.torn.com/faction/?selections=revivesfull,basic&from="@ + dec_str(
                from as nat,
            ) + "&key="@ + secret
        },
    }
}

/// The full request address: the endpoint address plus the caller-identifying
/// comment.
pub open spec fn request_url(ep: Endpoint, secret: Seq<char>, comment: Seq<char>) -> Seq<char> {
    endpoint_url(ep, secret) + "&comment="@ + comment
}

/// Builds the request address for `ep` using the given credential secret and
/// caller comment.
pub fn build_request_url(ep: &Endpoint, secret: &String, comment: &String) -> (r: String)
    ensures
        r@ == request_url(*ep, secret@, comment@),
{
    proof {
        reveal_strlit("https://api.torn.com/user/");
        reveal_strlit("?selections=profile&key=");
        reveal_strlit("https://api.torn.com/faction/");
        reveal_strlit("?selections=basic&key=");
        reveal_strlit("https://api.torn.com/faction/?selections=revivesfull,basic&from=");
        reveal_strlit("&key=");
        reveal_strlit("&comment=");
    }
    let mut s: String;
    match ep {
        Endpoint::PlayerProfile { player_id } => {
            s = "https://api.torn.com/user/".to_owned();
            s.append(crate::text::u64_to_string(*player_id).as_str());
            s.append("?selections=profile&key=");
        },
        Endpoint::FactionBasic { faction_id } => {
            s = "https://api.torn.com/faction/".to_owned();
            s.append(crate::text::u64_to_string(*faction_id).as_str());
            s.append("?selections=basic&key=");
        },
        Endpoint::RevivesFeed { from } => {
            s = "https://api.torn.com/faction/?selections=revivesfull,basic&from=".to_owned();
            s.append(crate::text::u64_to_string(*from).as_str());
            s.append("&key=");
        },
    }
    s.append(secret.as_str());
    s.append("&comment=");
    s.append(comment.as_str());
    proof {
        assert(s@ =~= request_url(*ep, secret@, comment@));
    }
    s
}

/// How a decoded response is to be handled.
#[derive(Clone, Copy, Debug, PartialEq, Eq, Structural)]
pub enum ResponseClass {
    /// No error object: the body is the result.
    Success,
    /// The rate limit was exceeded: back off and retry.
    RateLimited,
    /// The credential is invalid: evict it and retry.
    InvalidKey,
    /// Any other remote error code: fatal.
    FatalCode(u64),
    /// An error object without an integral code: fatal.
    Malformed,
}

/// Classification of a decoded response body.  A response whose `"error"`
/// field is absent — or not an object — is a success.
pub open spec fn classify(json: JsonValue) -> ResponseClass {
    match json.spec_field("error"@) {
        Option::Some(err) => {
            if err.spec_is_object() {
                match err.spec_field("code"@) {
                    Option::Some(c) => match c.spec_u64() {
                        Option::Some(code) => {
                            if code == CODE_RATE_LIMIT {
                                ResponseClass::RateLimited
                            } else if code == CODE_INVALID_KEY {
                                ResponseClass::InvalidKey
                            } else {
                                ResponseClass::FatalCode(code)
                            }
                        },
                        Option::None => ResponseClass::Malformed,
                    },
                    Option::None => ResponseClass::Malformed,
                }
            } else {
                ResponseClass::Success
            }
        },
        Option::None => ResponseClass::Success,
    }
}

/// Classifies a decoded response body.
pub fn classify_response(json: &JsonValue) -> (r: ResponseClass)
    ensures
        r == classify(*json),
{
    match json.get("error") {
        Option::Some(err) => {
            if err.is_object() {
                match err.get("code") {
                    Option::Some(c) => match c.get_u64() {
                        Option::Some(code) => {
                            if code == CODE_RATE_LIMIT {
                                ResponseClass::RateLimited
                            } else if code == CODE_INVALID_KEY {
                                ResponseClass::InvalidKey
                            } else {
                                ResponseClass::FatalCode(code)
                            }
                        },
                        Option::None => ResponseClass::Malformed,
                    },
                    Option::None => ResponseClass::Malformed,
                }
            } else {
                ResponseClass::Success
            }
        },
        Option::None => ResponseClass::Success,
    }
}

/// Why a logical call failed for good.
#[derive(Clone, Copy, Debug, PartialEq, Eq, Structural)]
pub enum CallError {
    /// Every credential is evicted and the window has not elapsed.
    Exhausted,
    /// The transfer itself failed.
    Transport,
    /// The body was not JSON, or carried an unreadable error object.
    Decode,
    /// The remote reported an error code with no retry policy.
    Api { code: u64 },
}

/// The next thing the caller driving a logical call must do.
pub enum CallStep {
    /// Fetch this address, then hand the outcome to `handle_response`.
    Get { url: String },
    /// Sleep this many seconds, then call `next_attempt` again.
    Sleep { seconds: u64 },
    /// Call `next_attempt` again at once (a credential was evicted).
    Retry,
    /// The call succeeded with this decoded body.
    Done { value: JsonValue },
    /// The call failed for good.
    Failed { error: CallError },
}

impl TornAPI {
    /// Starts (or resumes) one attempt of a logical call: acquires a
    /// credential and yields the address to fetch, or asks the caller to
    /// sleep until the rate-limit window resets, or fails when the pool is
    /// fatally exhausted.
    pub fn next_attempt(&mut self, endpoint: &Endpoint, now: i64) -> (r: CallStep)
        requires
            old(self).wf(),
            now >= old(self).model().window_start,
        ensures
            final(self).wf(),
            final(self).spec_keys() == old(self).spec_keys(),
            final(self).spec_name() == old(self).spec_name(),
            final(self).model() == acquire_model(old(self).model(), now as int).0,
            ({
                let d = acquire_model(old(self).model(), now as int).1;
                match r {
                    CallStep::Get { url } => d matches AcquireDecision::Granted(i)
                        && url@ == request_url(
                        *endpoint,
                        old(self).spec_keys()[i].key@,
                        old(self).spec_name(),
                    ),
                    CallStep::Sleep { seconds } => d == AcquireDecision::Pause(seconds as int),
                    CallStep::Failed { error } => error == CallError::Exhausted && d
                        == AcquireDecision::Exhausted,
                    _ => false,
                }
            }),
    {
        match self.acquire_step(now) {
            AcquireOutcome::Acquired { key, index } => {
                let url = build_request_url(endpoint, &key.key, self.name());
                CallStep::Get { url }
            },
            AcquireOutcome::Wait { seconds } => CallStep::Sleep { seconds },
            AcquireOutcome::Exhausted => CallStep::Failed { error: CallError::Exhausted },
        }
    }

    /// Applies the retry / evict / fatal policy to a decoded response.
    /// The pool is untouched except when the remote rejected the credential
    /// as invalid, which evicts the credential the attempt was made with.
    pub fn handle_parsed(&mut self, parsed: Option<JsonValue>) -> (r: CallStep)
        requires
            old(self).wf(),
            old(self).model().issued is Some,
        ensures
            final(self).wf(),
            final(self).spec_keys() == old(self).spec_keys(),
            final(self).spec_name() == old(self).spec_name(),
            match parsed {
                Option::Some(v) => match classify(v) {
                    ResponseClass::Success => r == (CallStep::Done { value: v }) && final(self).model() == old(self).model(),
                    ResponseClass::RateLimited => r == (CallStep::Sleep {
                        seconds: BACKOFF_SECONDS,
                    }) && final(self).model() == old(self).model(),
                    ResponseClass::InvalidKey => r == CallStep::Retry && final(self).model()
                        == evict_model(old(self).model(), old(self).model().issued->Some_0),
                    ResponseClass::FatalCode(code) => r == (CallStep::Failed {
                        error: CallError::Api { code },
                    }) && final(self).model() == old(self).model(),
                    ResponseClass::Malformed => r == (CallStep::Failed {
                        error: CallError::Decode,
                    }) && final(self).model() == old(self).model(),
                },
                Option::None => r == (CallStep::Failed { error: CallError::Decode }) && final(self).model() == old(self).model(),
            },
    {
        match parsed {
            Option::Some(v) => {
                let class = classify_response(&v);
                match class {
                    ResponseClass::Success => CallStep::Done { value: v },
                    ResponseClass::RateLimited => CallStep::Sleep { seconds: BACKOFF_SECONDS },
                    ResponseClass::InvalidKey => {
                        self.evict_issued();
                        CallStep::Retry
                    },
                    ResponseClass::FatalCode(code) => CallStep::Failed {
                        error: CallError::Api { code },
                    },
                    ResponseClass::Malformed => CallStep::Failed { error: CallError::Decode },
                }
            },
            Option::None => CallStep::Failed { error: CallError::Decode },
        }
    }

    /// Decodes what the transfer returned — `None` for a failed transfer —
    /// and applies the retry / evict / fatal policy, exactly as
    /// [`TornAPI::handle_parsed`] fixes it for `parsed_of` of the body.
    pub fn handle_response(&mut self, body: Option<&str>) -> (r: CallStep)
        requires
            old(self).wf(),
            old(self).model().issued is Some,
        ensures
            final(self).wf(),
            final(self).spec_keys() == old(self).spec_keys(),
            final(self).spec_name() == old(self).spec_name(),
            match body {
                Option::Some(s) => match parsed_of(s@) {
                    Option::Some(v) => match classify(v) {
                        ResponseClass::Success => r == (CallStep::Done { value: v })
                            && final(self).model() == old(self).model(),
                        ResponseClass::RateLimited => r == (CallStep::Sleep {
                            seconds: BACKOFF_SECONDS,
                        }) && final(self).model() == old(self).model(),
                        ResponseClass::InvalidKey => r == CallStep::Retry && final(self).model()
                            == evict_model(old(self).model(), old(self).model().issued->Some_0),
                        ResponseClass::FatalCode(code) => r == (CallStep::Failed {
                            error: CallError::Api { code },
                        }) && final(self).model() == old(self).model(),
                        ResponseClass::Malformed => r == (CallStep::Failed {
                            error: CallError::Decode,
                        }) && final(self).model() == old(self).model(),
                    },
                    Option::None => r == (CallStep::Failed { error: CallError::Decode })
                        && final(self).model() == old(self).model(),
                },
                Option::None => r == (CallStep::Failed { error: CallError::Transport })
                    && final(self).model() == old(self).model(),
            },
    {
        match body {
            Option::Some(s) => {
                let parsed = parse_json(s);
                self.handle_parsed(parsed)
            },
            Option::None => CallStep::Failed { error: CallError::Transport },
        }
    }
}

} // verus!
