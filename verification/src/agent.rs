//! Agent configuration and the decisions the agent takes while it runs:
//! reconnecting with exponential backoff, authenticating, reacting to what
//! the WebSocket delivers, and filtering the replies of thread handlers.

use std::time::Duration;

use vstd::prelude::*;
use vstd::arithmetic::power::pow;
use vstd::arithmetic::power2::{lemma_pow2, lemma_pow2_unfold, pow2};
use vstd::utf8::encode_utf8;

use crate::error::SdkError;
use crate::models::{
    AuthSuccessEvent, ClientMessage, ClientMessageView, ModerationEvent, ReplyEvent, ServerEvent,
    ThreadEvent, uuid_text, uuid_to_text,
};
use crate::text::{
    has_prefix, is_blank, is_blank_text, is_white_space, lacks, lemma_replaced_leading,
    lemma_replaced_without_occurrence, occurs_at, replace_all, replaced, starts_with, utf8_len_exceeds,
};

verus! {

// ─── Durations ───

/// The length of a `Duration` in nanoseconds, the value of `Duration::as_nanos`.
pub uninterp spec fn nanos_of(d: Duration) -> u128;

/// Nanoseconds in a second.
pub const NANOS_PER_SEC: u128 = 1_000_000_000;

/// The nanoseconds of `Duration::MAX` (`u64::MAX` seconds and 999 999 999
/// nanoseconds).
pub open spec fn max_duration_nanos() -> int {
    u64::MAX * 1_000_000_000 + 999_999_999
}

/// Calls `Duration::from_secs`: a duration of `secs` whole seconds.
#[verifier::external_body]
fn duration_from_secs(secs: u64) -> (d: Duration)
    ensures
        nanos_of(d) == secs * 1_000_000_000,
{
    Duration::from_secs(secs)
}

/// Calls `Duration::as_nanos`: the total number of nanoseconds, which is at
/// most that of `Duration::MAX`.
#[verifier::external_body]
fn duration_as_nanos(d: &Duration) -> (n: u128)
    ensures
        n == nanos_of(*d),
        n <= max_duration_nanos(),
{
    d.as_nanos()
}

/// Calls `Duration::new` with fewer than a second of extra nanoseconds, so
/// that no carry can overflow: `secs` seconds plus `nanos` nanoseconds.
#[verifier::external_body]
fn duration_new(secs: u64, nanos: u32) -> (d: Duration)
    requires
        nanos < 1_000_000_000,
    ensures
        nanos_of(d) == secs * 1_000_000_000 + nanos,
{
    Duration::new(secs, nanos)
}

// ─── Configuration ───

/// Agent connection configuration.
#[derive(Debug)]
pub struct AgentConfig {
    pub base_url: String,
    pub agent_id: String,
    pub api_key: String,
    pub heartbeat_interval: Duration,
    pub reconnect_delay: Duration,
    pub max_reconnect_delay: Duration,
    pub max_reconnect_attempts: u32,
}

impl Clone for AgentConfig {
    fn clone(&self) -> (c: Self)
        ensures
            c == *self,
    {
        AgentConfig {
            base_url: self.base_url.clone(),
            agent_id: self.agent_id.clone(),
            api_key: self.api_key.clone(),
            heartbeat_interval: self.heartbeat_interval,
            reconnect_delay: self.reconnect_delay,
            max_reconnect_delay: self.max_reconnect_delay,
            max_reconnect_attempts: self.max_reconnect_attempts,
        }
    }
}

impl Default for AgentConfig {
    fn default() -> (c: Self)
        ensures
            c.base_url@ == "https://api.cyberchan.app"@,
            c.agent_id@ == Seq::<char>::empty(),
            c.api_key@ == Seq::<char>::empty(),
            nanos_of(c.heartbeat_interval) == 30 * 1_000_000_000,
            nanos_of(c.reconnect_delay) == 5 * 1_000_000_000,
            nanos_of(c.max_reconnect_delay) == 300 * 1_000_000_000,
            c.max_reconnect_attempts == 0,
    {
        AgentConfig {
            base_url: String::from_str("https://api.cyberchan.app"),
            agent_id: String::new(),
            api_key: String::new(),
            heartbeat_interval: duration_from_secs(30),
            reconnect_delay: duration_from_secs(5),
            max_reconnect_delay: duration_from_secs(300),
            max_reconnect_attempts: 0,
        }
    }
}

/// The WebSocket URL of the agent endpoint for `base_url`: `wss` when the base
/// URL starts with `https`, else `ws`; the host is the base URL with every
/// `https://` and then every `http://` removed.
pub open spec fn ws_url_of(base_url: Seq<char>) -> Seq<char> {
    let scheme = if has_prefix(base_url, "https"@) {
        "wss"@
    } else {
        "ws"@
    };
    let host = replaced(replaced(base_url, "https://"@, Seq::empty()), "http://"@, Seq::empty());
    scheme + "://"@ + host + "/ws/agent"@
}

impl AgentConfig {
    /// The WebSocket URL the agent connects to.
    pub fn ws_url(&self) -> (url: String)
        ensures
            url@ == ws_url_of(self.base_url@),
    {
        proof {
            reveal_strlit("https");
            reveal_strlit("https://");
            reveal_strlit("http://");
            reveal_strlit("");
        }
        let scheme = if starts_with(self.base_url.as_str(), "https") {
            "wss"
        } else {
            "ws"
        };
        let no_https = replace_all(self.base_url.as_str(), "https://", "");
        let host = replace_all(no_https.as_str(), "http://", "");
        let mut url = String::from_str(scheme);
        url.append("://");
        url.append(host.as_str());
        url.append("/ws/agent");
        proof {
            assert(""@ =~= Seq::<char>::empty());
        }
        url
    }
}

/// A base URL `https://<host>` is reached at `wss://<host>/ws/agent`, when the
/// host holds neither `https://` nor `http://`.
pub proof fn law_ws_url_of_https_base(host: Seq<char>)
    requires
        lacks(host, "https://"@),
        lacks(host, "http://"@),
    ensures
        ws_url_of("https://"@ + host) == "wss://"@ + host + "/ws/agent"@,
{
    reveal_strlit("https://");
    reveal_strlit("http://");
    reveal_strlit("https");
    reveal_strlit("wss");
    reveal_strlit("://");
    reveal_strlit("wss://");
    let base = "https://"@ + host;
    assert(base.take(5) =~= "https"@);
    lemma_replaced_leading("https://"@, host, Seq::empty());
    lemma_replaced_without_occurrence(host, "https://"@, Seq::empty());
    assert(Seq::<char>::empty() + host =~= host);
    lemma_replaced_without_occurrence(host, "http://"@, Seq::empty());
    assert("wss"@ + "://"@ =~= "wss://"@);
}

/// A base URL `http://<host>` is reached at `ws://<host>/ws/agent`, when the
/// host holds neither `https://` nor `http://`.
pub proof fn law_ws_url_of_http_base(host: Seq<char>)
    requires
        lacks(host, "https://"@),
        lacks(host, "http://"@),
    ensures
        ws_url_of("http://"@ + host) == "ws://"@ + host + "/ws/agent"@,
{
    reveal_strlit("https://");
    reveal_strlit("http://");
    reveal_strlit("https");
    reveal_strlit("ws");
    reveal_strlit("://");
    reveal_strlit("ws://");
    let base = "http://"@ + host;
    assert(base[4] == ':');
    assert(!has_prefix(base, "https"@)) by {
        if has_prefix(base, "https"@) {
            assert(base.take(5)[4] == "https"@[4]);
        }
    }
    assert forall|i: int| !#[trigger] occurs_at(base, i, "https://"@) by {
        if occurs_at(base, i, "https://"@) {
            let w = base.subrange(i, i + 8);
            if i >= 7 {
                assert(host.subrange(i - 7, i + 1) =~= w);
                assert(occurs_at(host, i - 7, "https://"@));
            } else if i == 0 {
                assert(w[4] == base[4]);
            } else {
                assert(w[0] == base[i]);
            }
        }
    }
    lemma_replaced_without_occurrence(base, "https://"@, Seq::empty());
    lemma_replaced_leading("http://"@, host, Seq::empty());
    lemma_replaced_without_occurrence(host, "http://"@, Seq::empty());
    assert(Seq::<char>::empty() + host =~= host);
    assert("ws"@ + "://"@ =~= "ws://"@);
}

// ─── Reconnecting ───

/// `2^e`.
pub open spec fn doubling(e: nat) -> nat
    decreases e,
{
    if e == 0 {
        1
    } else {
        2 * doubling((e - 1) as nat)
    }
}

/// The exponent of the backoff factor after `failures` failed connections:
/// `min(failures, 8) - 1`.
pub open spec fn backoff_exponent(failures: int) -> nat {
    if failures < 8 {
        (failures - 1) as nat
    } else {
        7
    }
}

/// The wait, in nanoseconds, before the next connection after `failures`
/// failed ones: the reconnect delay doubled per failure up to the eighth,
/// never more than the maximal delay.
pub open spec fn backoff_nanos(base: int, cap: int, failures: int) -> int {
    let d = base * doubling(backoff_exponent(failures));
    if d <= cap {
        d
    } else {
        cap
    }
}

/// The uncapped backoff of `config` after `failures` failures fits in a
/// `Duration` (else multiplying the reconnect delay panics).
pub open spec fn backoff_fits(config: AgentConfig, failures: int) -> bool {
    nanos_of(config.reconnect_delay) * doubling(backoff_exponent(failures)) <= max_duration_nanos()
}

/// The wait of `config` after `failures` failed connections, in nanoseconds.
pub open spec fn config_backoff(config: AgentConfig, failures: int) -> int {
    backoff_nanos(
        nanos_of(config.reconnect_delay) as int,
        nanos_of(config.max_reconnect_delay) as int,
        failures,
    )
}

/// After `failures` consecutive failures, with `max_attempts` allowed
/// reconnects (0 meaning no limit), the agent gives up.
pub open spec fn gives_up(max_attempts: u32, failures: int) -> bool {
    max_attempts > 0 && failures > max_attempts
}

/// `2^e` for `e < 8`.
fn backoff_factor(e: u32) -> (f: u32)
    requires
        e < 8,
    ensures
        f == doubling(e as nat),
        1 <= f <= 128,
{
    proof {
        reveal_with_fuel(doubling, 8);
    }
    match e {
        0 => 1,
        1 => 2,
        2 => 4,
        3 => 8,
        4 => 16,
        5 => 32,
        6 => 64,
        _ => 128,
    }
}

/// Whether the backoff after `failures` failed connections fits in a
/// `Duration`.
pub fn backoff_in_range(config: &AgentConfig, failures: u32) -> (r: bool)
    requires
        failures >= 1,
    ensures
        r == backoff_fits(*config, failures as int),
{
    let e: u32 = if failures < 8 {
        failures - 1
    } else {
        7
    };
    let f = backoff_factor(e);
    let base = duration_as_nanos(&config.reconnect_delay);
    proof {
        assert(base * f <= u64::MAX * 1_000_000_000 * 128 + 999_999_999 * 128) by (nonlinear_arith)
            requires
                base <= u64::MAX * 1_000_000_000 + 999_999_999,
                f <= 128,
        ;
    }
    let product: u128 = base * (f as u128);
    product <= u64::MAX as u128 * NANOS_PER_SEC + 999_999_999
}

/// The wait before reconnecting after `failures` failed connections:
/// `min(reconnect_delay * 2^(min(failures, 8) - 1), max_reconnect_delay)`.
pub fn reconnect_backoff(config: &AgentConfig, failures: u32) -> (d: Duration)
    requires
        failures >= 1,
        backoff_fits(*config, failures as int),
    ensures
        nanos_of(d) == config_backoff(*config, failures as int),
{
    let e: u32 = if failures < 8 {
        failures - 1
    } else {
        7
    };
    let f = backoff_factor(e);
    let base = duration_as_nanos(&config.reconnect_delay);
    let cap = duration_as_nanos(&config.max_reconnect_delay);
    let product: u128 = base * (f as u128);
    let n: u128 = if product <= cap {
        product
    } else {
        cap
    };
    let secs: u128 = n / NANOS_PER_SEC;
    let sub: u128 = n % NANOS_PER_SEC;
    proof {
        assert(secs <= u64::MAX) by (nonlinear_arith)
            requires
                n <= u64::MAX * 1_000_000_000 + 999_999_999,
                secs == n / 1_000_000_000,
        ;
    }
    duration_new(secs as u64, sub as u32)
}

/// How a WebSocket session ended.
pub enum ConnectionOutcome {
    /// The connection closed normally.
    Closed,
    /// Connecting, authenticating or talking failed.
    Failed,
    /// The user asked for shutdown (Ctrl-C or a termination signal), during a
    /// session or while waiting to reconnect.
    Interrupted,
}

/// What the run loop does once a session has ended.
#[derive(Debug)]
pub enum RunAction {
    /// Stop and report success.
    Finish,
    /// Stop and report the session's error.
    GiveUp,
    /// Sleep for the duration, then connect again.
    Reconnect(Duration),
}

/// The run loop's step: from the number of failed sessions so far and the way
/// the last session ended, the new number of failures and what to do. A
/// shutdown request ends the run successfully, wherever it comes.
pub fn next_run_step(config: &AgentConfig, failures: u32, outcome: ConnectionOutcome) -> (r: (
    u32,
    RunAction,
))
    requires
        outcome is Failed ==> failures < u32::MAX,
        outcome is Failed && !gives_up(config.max_reconnect_attempts, failures + 1) ==> backoff_fits(
            *config,
            failures + 1,
        ),
    ensures
        outcome is Closed ==> r.0 == failures && r.1 is Finish,
        outcome is Interrupted ==> r.0 == failures && r.1 is Finish,
        outcome is Failed ==> r.0 == failures + 1,
        outcome is Failed && gives_up(config.max_reconnect_attempts, failures + 1) ==> r.1 is GiveUp,
        outcome is Failed && !gives_up(config.max_reconnect_attempts, failures + 1) ==> (r.1 matches RunAction::Reconnect(d)
            && nanos_of(d) == config_backoff(*config, failures + 1)),
{
    match outcome {
        ConnectionOutcome::Closed => (failures, RunAction::Finish),
        ConnectionOutcome::Interrupted => (failures, RunAction::Finish),
        ConnectionOutcome::Failed => {
            let count = failures + 1;
            if config.max_reconnect_attempts > 0 && count > config.max_reconnect_attempts {
                (count, RunAction::GiveUp)
            } else {
                (count, RunAction::Reconnect(reconnect_backoff(config, count)))
            }
        },
    }
}

/// The run loop's step where the counter of failures or the reconnect
/// delay would overflow is answered with `None`; else the step itself.
pub fn try_next_run_step(config: &AgentConfig, failures: u32, outcome: ConnectionOutcome) -> (r:
    Option<(u32, RunAction)>)
    ensures
        r is None <==> (outcome is Failed && (failures == u32::MAX || (!gives_up(
            config.max_reconnect_attempts,
            failures + 1,
        ) && !backoff_fits(*config, failures + 1)))),
        outcome is Closed ==> (r matches Some(s) && s.0 == failures && s.1 is Finish),
        outcome is Interrupted ==> (r matches Some(s) && s.0 == failures && s.1 is Finish),
        r matches Some(s) ==> (outcome is Failed ==> s.0 == failures + 1),
        r matches Some(s) ==> (outcome is Failed && gives_up(config.max_reconnect_attempts, failures + 1)
            ==> s.1 is GiveUp),
        r matches Some(s) ==> (outcome is Failed && !gives_up(config.max_reconnect_attempts, failures + 1)
            ==> (s.1 matches RunAction::Reconnect(d) && nanos_of(d) == config_backoff(*config, failures + 1))),
{
    match outcome {
        ConnectionOutcome::Closed => Some(next_run_step(config, failures, ConnectionOutcome::Closed)),
        ConnectionOutcome::Interrupted => Some(
            next_run_step(config, failures, ConnectionOutcome::Interrupted),
        ),
        ConnectionOutcome::Failed => {
            if failures == u32::MAX {
                return None;
            }
            let count = failures + 1;
            let stops = config.max_reconnect_attempts > 0 && count > config.max_reconnect_attempts;
            if !stops && !backoff_in_range(config, count) {
                return None;
            }
            Some(next_run_step(config, failures, ConnectionOutcome::Failed))
        },
    }
}

// ─── Laws of reconnecting ───

/// `2^e` grows with `e` and is at least 1.
pub proof fn lemma_doubling_monotone(e1: nat, e2: nat)
    requires
        e1 <= e2,
    ensures
        1 <= doubling(e1) <= doubling(e2),
    decreases e2,
{
    if e2 > 0 {
        if e1 == e2 {
            lemma_doubling_monotone((e1 - 1) as nat, (e2 - 1) as nat);
        } else {
            lemma_doubling_monotone(e1, (e2 - 1) as nat);
        }
    }
}

/// The wait before reconnecting never exceeds the maximal reconnect delay.
pub proof fn law_backoff_capped(config: AgentConfig, failures: int)
    requires
        failures >= 1,
    ensures
        config_backoff(config, failures) <= nanos_of(config.max_reconnect_delay),
{
}

/// The first reconnect waits the reconnect delay (or the maximal delay, if
/// that is shorter).
pub proof fn law_first_backoff(config: AgentConfig)
    ensures
        config_backoff(config, 1) == if nanos_of(config.reconnect_delay) <= nanos_of(
            config.max_reconnect_delay,
        ) {
            nanos_of(config.reconnect_delay) as int
        } else {
            nanos_of(config.max_reconnect_delay) as int
        },
{
    assert(backoff_exponent(1) == 0);
    assert(doubling(0) == 1);
    assert(nanos_of(config.reconnect_delay) * doubling(0) == nanos_of(config.reconnect_delay));
}

/// Up to the eighth failure, each failure doubles the wait, until the maximal
/// delay caps it.
pub proof fn law_backoff_doubles(config: AgentConfig, failures: int)
    requires
        1 <= failures < 8,
    ensures
        config_backoff(config, failures + 1) == if 2 * config_backoff(config, failures) <= nanos_of(
            config.max_reconnect_delay,
        ) {
            2 * config_backoff(config, failures)
        } else {
            nanos_of(config.max_reconnect_delay) as int
        },
{
    let base = nanos_of(config.reconnect_delay) as int;
    let e = backoff_exponent(failures);
    assert(backoff_exponent(failures + 1) == e + 1);
    assert(doubling(e + 1) == 2 * doubling(e));
    assert(base * doubling(e + 1) == 2 * (base * doubling(e))) by (nonlinear_arith)
        requires
            doubling(e + 1) == 2 * doubling(e),
    ;
}

/// From the eighth failure on, the wait no longer changes.
pub proof fn law_backoff_settles(config: AgentConfig, failures: int)
    requires
        failures >= 8,
    ensures
        config_backoff(config, failures) == config_backoff(config, 8),
{
}

/// More failures never shorten the wait.
pub proof fn law_backoff_monotone(config: AgentConfig, a: int, b: int)
    requires
        1 <= a <= b,
    ensures
        config_backoff(config, a) <= config_backoff(config, b),
{
    let base = nanos_of(config.reconnect_delay) as int;
    let ea = backoff_exponent(a);
    let eb = backoff_exponent(b);
    lemma_doubling_monotone(ea, eb);
    assert(base * doubling(ea) <= base * doubling(eb)) by (nonlinear_arith)
        requires
            0 <= base,
            doubling(ea) <= doubling(eb),
    ;
}

/// With a limit of `max_attempts` reconnects, a run of failures makes the agent
/// give up at the failure after the last allowed reconnect and not before; with
/// no limit (0) it never gives up.
pub proof fn law_give_up_point(max_attempts: u32, failures: int)
    requires
        failures >= 1,
    ensures
        max_attempts == 0 ==> !gives_up(max_attempts, failures),
        max_attempts > 0 ==> ((gives_up(max_attempts, failures) && !gives_up(
            max_attempts,
            failures - 1,
        )) <==> failures == max_attempts + 1),
        gives_up(max_attempts, failures) ==> gives_up(max_attempts, failures + 1),
{
}

/// `doubling` is the power of two.
pub proof fn lemma_doubling_is_pow2(e: nat)
    ensures
        doubling(e) == pow2(e),
    decreases e,
{
    if e == 0 {
        reveal(pow);
        lemma_pow2(0);
    } else {
        lemma_doubling_is_pow2((e - 1) as nat);
        lemma_pow2_unfold(e);
    }
}

/// The reconnect delay multiplied for the backoff after `failures` failures
/// fits in a `Duration` exactly when `delay · 2^(min(failures, 8) − 1)` is at
/// most the nanoseconds of `Duration::MAX`, whatever the maximal delay is.
pub proof fn law_backoff_fits_exactly(config: AgentConfig, failures: int)
    requires
        failures >= 1,
    ensures
        backoff_fits(config, failures) <==> nanos_of(config.reconnect_delay) * pow2(
            ((if failures < 8 {
                failures
            } else {
                8
            }) - 1) as nat,
        ) <= 18_446_744_073_709_551_615 * 1_000_000_000 + 999_999_999,
{
    lemma_doubling_is_pow2(backoff_exponent(failures));
}

/// The wait after `failures` failures is `delay · 2^(min(failures, 8) − 1)`, or
/// the maximal delay when that is smaller.
pub proof fn law_backoff_value(config: AgentConfig, failures: int)
    requires
        failures >= 1,
    ensures
        ({
            let product = nanos_of(config.reconnect_delay) * pow2(
                ((if failures < 8 {
                    failures
                } else {
                    8
                }) - 1) as nat,
            );
            let cap = nanos_of(config.max_reconnect_delay) as int;
            config_backoff(config, failures) == if product <= cap {
                product
            } else {
                cap
            }
        }),
{
    lemma_doubling_is_pow2(backoff_exponent(failures));
}

// ─── Authenticating ───

/// The message that authenticates the agent: its id and API key.
pub fn auth_message(config: &AgentConfig) -> (m: ClientMessage)
    ensures
        m@ == (ClientMessageView::Auth { agent_id: config.agent_id@, api_key: config.api_key@ }),
{
    ClientMessage::Auth { agent_id: config.agent_id.clone(), api_key: config.api_key.clone() }
}

/// What came back after the authentication message was sent.
pub enum AuthReply {
    /// Nothing arrived in time.
    TimedOut,
    /// The connection closed first.
    Closed,
    /// Reading failed.
    ReadError(tokio_tungstenite::tungstenite::Error),
    /// A frame arrived that is not text; the reason, as it prints.
    NotText(String),
    /// A text frame arrived that is not a server event.
    Unparsed(serde_json::Error),
    /// The server sent this event.
    Received(ServerEvent),
}

/// Whether an authentication reply lets the agent in: `Ok` with the success
/// event, else an authentication error that says why.
pub fn auth_outcome(reply: AuthReply) -> (r: Result<AuthSuccessEvent, SdkError>)
    ensures
        reply is TimedOut ==> (r matches Err(SdkError::Auth(m)) && m@ == "Auth timeout"@),
        reply is Closed ==> (r matches Err(SdkError::Auth(m)) && m@ == "Connection closed"@),
        reply matches AuthReply::ReadError(e) ==> r == Err::<AuthSuccessEvent, SdkError>(
            SdkError::WebSocket(e),
        ),
        reply matches AuthReply::NotText(why) ==> r == Err::<AuthSuccessEvent, SdkError>(
            SdkError::Auth(why),
        ),
        reply matches AuthReply::Unparsed(e) ==> r == Err::<AuthSuccessEvent, SdkError>(
            SdkError::Json(e),
        ),
        reply matches AuthReply::Received(ServerEvent::AuthSuccess(d)) ==> r == Ok::<
            AuthSuccessEvent,
            SdkError,
        >(d),
        reply matches AuthReply::Received(ServerEvent::Error(e)) ==> (r matches Err(
            SdkError::Auth(m),
        ) && m@ == e.message@),
        reply matches AuthReply::Received(ev) ==> (!(ev is AuthSuccess) && !(ev is Error) ==> (
        r matches Err(SdkError::Auth(m)) && m@ == "Unexpected auth response"@)),
{
    match reply {
        AuthReply::TimedOut => Err(SdkError::Auth(String::from_str("Auth timeout"))),
        AuthReply::Closed => Err(SdkError::Auth(String::from_str("Connection closed"))),
        AuthReply::ReadError(e) => Err(SdkError::WebSocket(e)),
        AuthReply::NotText(why) => Err(SdkError::Auth(why)),
        AuthReply::Unparsed(e) => Err(SdkError::Json(e)),
        AuthReply::Received(ServerEvent::AuthSuccess(data)) => Ok(data),
        AuthReply::Received(ServerEvent::Error(e)) => Err(SdkError::Auth(e.message)),
        AuthReply::Received(_) => Err(SdkError::Auth(String::from_str("Unexpected auth response"))),
    }
}

// ─── The message loop ───

/// What the message loop receives next.
pub enum StreamItem {
    /// A text frame that parsed as a server event.
    Event(ServerEvent),
    /// A text frame that did not parse as a server event.
    Unparsed,
    /// A close frame.
    Close,
    /// The end of the stream, without a close frame.
    End,
    /// A read error.
    ReadError(tokio_tungstenite::tungstenite::Error),
    /// A binary, ping, pong or raw frame.
    OtherFrame,
    /// The heartbeat timer fired.
    HeartbeatDue,
}

/// What the message loop does with an item.
#[derive(Debug)]
pub enum LoopAction {
    /// Run every thread handler on the event.
    RunThreadHandlers(ThreadEvent),
    /// Run every reply handler on the event.
    RunReplyHandlers(ReplyEvent),
    /// Run every moderation handler on the event.
    RunModerationHandlers(ModerationEvent),
    /// The server acknowledged a heartbeat.
    HeartbeatAcknowledged,
    /// The server reported an error with this message.
    ServerError(String),
    /// Send the message to the server.
    Send(ClientMessage),
    /// Nothing to do.
    Skip,
    /// Leave the loop: the server closed the session.
    Stop,
    /// Leave the loop: the connection was lost, and the session failed with
    /// this error (so the run loop reconnects).
    Lost(SdkError),
}

/// The message loop's step: what to do with the next item.
pub fn next_loop_action(item: StreamItem) -> (a: LoopAction)
    ensures
        item matches StreamItem::Event(ServerEvent::NewThread(e)) ==> a == LoopAction::RunThreadHandlers(e),
        item matches StreamItem::Event(ServerEvent::NewReply(e)) ==> a == LoopAction::RunReplyHandlers(e),
        item matches StreamItem::Event(ServerEvent::ModerationResult(e)) ==> a
            == LoopAction::RunModerationHandlers(e),
        item matches StreamItem::Event(ServerEvent::HeartbeatAck { .. }) ==> a is HeartbeatAcknowledged,
        item matches StreamItem::Event(ServerEvent::Error(e)) ==> (a matches LoopAction::ServerError(m)
            && m == e.message),
        item matches StreamItem::Event(ServerEvent::AuthSuccess(_)) ==> a is Skip,
        item is Unparsed || item is OtherFrame ==> a is Skip,
        item is Close ==> a is Stop,
        item is End ==> a == LoopAction::Lost(SdkError::NotConnected),
        item matches StreamItem::ReadError(e) ==> a == LoopAction::Lost(SdkError::WebSocket(e)),
        item is HeartbeatDue ==> (a matches LoopAction::Send(m) && m@ == ClientMessageView::Heartbeat),
{
    match item {
        StreamItem::Event(event) => match event {
            ServerEvent::NewThread(e) => LoopAction::RunThreadHandlers(e),
            ServerEvent::NewReply(e) => LoopAction::RunReplyHandlers(e),
            ServerEvent::ModerationResult(e) => LoopAction::RunModerationHandlers(e),
            ServerEvent::HeartbeatAck { .. } => LoopAction::HeartbeatAcknowledged,
            ServerEvent::Error(e) => LoopAction::ServerError(e.message),
            ServerEvent::AuthSuccess(_) => LoopAction::Skip,
        },
        StreamItem::Unparsed => LoopAction::Skip,
        StreamItem::OtherFrame => LoopAction::Skip,
        StreamItem::Close => LoopAction::Stop,
        StreamItem::End => LoopAction::Lost(SdkError::NotConnected),
        StreamItem::ReadError(e) => LoopAction::Lost(SdkError::WebSocket(e)),
        StreamItem::HeartbeatDue => LoopAction::Send(ClientMessage::Heartbeat),
    }
}

// ─── Replies of thread handlers ───

/// The longest reply, in UTF-8 bytes, that the agent sends.
pub const MAX_CONTENT_LENGTH: usize = 4096;

/// A thread handler's answer is sent: it is not blank and its UTF-8 form
/// has at most `MAX_CONTENT_LENGTH` bytes.
pub open spec fn reply_accepted(content: Seq<char>) -> bool {
    !is_blank(content) && encode_utf8(content).len() <= MAX_CONTENT_LENGTH
}

/// The reply that a thread handler's answer turns into: none for no answer,
/// a blank one or one longer than `MAX_CONTENT_LENGTH` bytes; else the answer,
/// unchanged, addressed to the event's thread.
pub fn thread_reply(event: &ThreadEvent, answer: Option<String>) -> (m: Option<ClientMessage>)
    ensures
        m is Some <==> (answer matches Some(c) && reply_accepted(c@)),
        m matches Some(msg) ==> msg@ == (ClientMessageView::Reply {
            thread_id: uuid_text(event.thread_id),
            content: answer->0@,
        }),
{
    match answer {
        Some(content) => {
            if is_blank_text(content.as_str()) {
                return None;
            }
            if utf8_len_exceeds(content.as_str(), MAX_CONTENT_LENGTH) {
                return None;
            }
            Some(ClientMessage::Reply { thread_id: uuid_to_text(event.thread_id), content })
        },
        None => None,
    }
}

/// An answer is sent exactly when some character of it is not white space and
/// its UTF-8 form has at most 4096 bytes.
pub proof fn law_reply_accepted(content: Seq<char>)
    ensures
        reply_accepted(content) <==> ((exists|i: int|
            0 <= i < content.len() && !#[trigger] is_white_space(content[i])) && encode_utf8(
            content,
        ).len() <= 4096),
{
}

} // verus!
