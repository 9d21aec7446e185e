//! The gateway for login events. An event is authenticated by a shared
//! secret, rate limited by its source address, held against the allow-list
//! and, where its source is not trusted, worded as an alert.
//!
//! The allow-list and the log of logins live in a store that the caller
//! owns. The gateway decides in two steps, with the caller's question to the
//! store between them: `handle_login` ends either the handling or asks for
//! the allow-list; `complete_login` takes the store's answer and says what
//! is to be logged and sent.

use crate::auth::constant_time_eq;
use crate::clock::{nanos_since, start};
use crate::recent::{elapsed, fresh, RecentMoments};
use crate::text::text_of;
use crate::random::random_identifier;
use chrono::DateTime;
use std::fmt::Write;
use std::time::Instant;
use vstd::prelude::*;

verus! {

/// How long an address is held back after an accepted event: 10 seconds.
pub const RATE_LIMIT_NANOS: u128 = 10_000_000_000;

/// A login as the local event source reports it.
#[derive(Clone, Debug)]
pub struct SshLoginEvent {
    pub user: String,
    pub ip: String,
    /// Seconds since 1970-01-01 00:00:00 UTC.
    pub timestamp: i64,
    pub method: String,
}

/// An entry of the allow-list: an address whose logins are logged and raise
/// no alert.
#[derive(Clone, Debug)]
pub struct TrustedIp {
    pub id: i64,
    pub ip: String,
    pub description: Option<String>,
    pub added_at: i64,
}

/// A login as the store keeps it.
#[derive(Clone, Debug)]
pub struct SshLoginLog {
    pub id: i64,
    pub user: String,
    pub ip: String,
    pub timestamp: i64,
    pub method: String,
    /// Whether an alert was handed to the dispatcher for this login.
    pub notified: bool,
}

/// Why a login event was turned away.
#[derive(Clone, Copy, Debug, PartialEq, Eq, Structural)]
pub enum LoginError {
    /// The gateway holds no secret yet: nothing is accepted.
    TokenNotConfigured,
    /// The presented token is not the secret.
    InvalidToken,
    /// The store could not say whether the source is on the allow-list.
    StoreUnavailable,
}

/// Why the store turned an operation on the allow-list away.
#[derive(Clone, Copy, Debug, PartialEq, Eq, Structural)]
pub enum StoreError {
    /// The address is on the allow-list already.
    DuplicateIp,
    /// Any other failure of the store.
    Unavailable,
}

impl LoginError {
    /// The error in words.
    pub open spec fn words(self) -> Seq<char> {
        match self {
            LoginError::TokenNotConfigured => "Internal token not configured"@,
            LoginError::InvalidToken => "Invalid internal token"@,
            LoginError::StoreUnavailable => "Allow-list lookup failed"@,
        }
    }

    /// The error in words.
    pub fn message(&self) -> (text: &'static str)
        ensures
            text@ == self.words(),
    {
        match self {
            LoginError::TokenNotConfigured => "Internal token not configured",
            LoginError::InvalidToken => "Invalid internal token",
            LoginError::StoreUnavailable => "Allow-list lookup failed",
        }
    }

    /// Whether the presented token is to blame, and not the store.
    pub fn is_auth_failure(&self) -> (auth: bool)
        ensures
            auth == (*self != LoginError::StoreUnavailable),
    {
        match self {
            LoginError::StoreUnavailable => false,
            _ => true,
        }
    }
}

impl StoreError {
    /// The error in words.
    pub open spec fn words(self) -> Seq<char> {
        match self {
            StoreError::DuplicateIp => "IP address is already trusted"@,
            StoreError::Unavailable => "Store unavailable"@,
        }
    }

    /// The error in words.
    pub fn message(&self) -> (text: &'static str)
        ensures
            text@ == self.words(),
    {
        match self {
            StoreError::DuplicateIp => "IP address is already trusted",
            StoreError::Unavailable => "Store unavailable",
        }
    }
}

/// Where the handling of an authenticated event stands after the rate limit.
#[derive(Clone, Copy, Debug, PartialEq, Eq, Structural)]
pub enum LoginStep {
    /// An event from this address was accepted less than 10 seconds ago. The
    /// handling ends here as a success: nothing is logged, nothing is sent.
    RateLimited,
    /// The event is accepted. The caller asks the store whether the address
    /// is on the allow-list and goes on with `complete_login`.
    CheckAllowList,
}

/// What is to be done about an accepted event.
#[derive(Clone, Debug)]
pub struct LoginOutcome {
    /// The value of `notified` with which the login is logged.
    pub notified: bool,
    /// The alert to hand to the dispatcher, where there is one.
    pub alert: Option<String>,
}

/// The gateway's state as plain values.
pub struct GatewayView {
    pub token: Seq<char>,
    /// For each source address, the moment of its last accepted event.
    pub accepted: Map<Seq<char>, u128>,
}

/// The reason, if any, to turn a presented token away.
pub open spec fn auth_failure(secret: Seq<char>, presented: Seq<char>) -> Option<LoginError> {
    if secret.len() == 0 {
        Some(LoginError::TokenNotConfigured)
    } else if presented != secret {
        Some(LoginError::InvalidToken)
    } else {
        None
    }
}

/// An event from `ip` was accepted less than 10 seconds before `now`.
pub open spec fn is_rate_limited(state: GatewayView, ip: Seq<char>, now: u128) -> bool {
    state.accepted.contains_key(ip) && elapsed(state.accepted[ip], now) < RATE_LIMIT_NANOS
}

/// The state after the addresses whose rate limit has run out at `now` were
/// forgotten.
pub open spec fn swept(state: GatewayView, now: u128) -> GatewayView {
    GatewayView { accepted: fresh(state.accepted, now, RATE_LIMIT_NANOS), ..state }
}

/// The first step of the handling, as a result.
pub open spec fn login_step(state: GatewayView, ip: Seq<char>, presented: Seq<char>, now: u128)
    -> Result<LoginStep, LoginError> {
    match auth_failure(state.token, presented) {
        Some(error) => Err(error),
        None => if is_rate_limited(state, ip, now) {
            Ok(LoginStep::RateLimited)
        } else {
            Ok(LoginStep::CheckAllowList)
        },
    }
}

/// The state after the first step: only an accepted event leaves a trace.
pub open spec fn after_login(state: GatewayView, ip: Seq<char>, presented: Seq<char>, now: u128)
    -> GatewayView {
    if login_step(state, ip, presented, now) == Ok::<LoginStep, LoginError>(
        LoginStep::CheckAllowList,
    ) {
        GatewayView { accepted: state.accepted.insert(ip, now), ..state }
    } else {
        state
    }
}

/// The moment `timestamp`, in seconds since the start of 1970, written in
/// UTC after `pattern` as chrono writes it; `None` for a moment outside
/// chrono's range and for a pattern that chrono cannot write.
pub uninterp spec fn utc_text(timestamp: i64, pattern: Seq<char>) -> Option<Seq<char>>;

/// The time as a login alert shows it: year, month and day, then hour,
/// minute and second, in UTC. A moment that cannot be written is shown as
/// the start of 1970.
pub open spec fn login_time_text(timestamp: i64) -> Seq<char> {
    match utc_text(timestamp, "%Y-%m-%d %H:%M:%S"@) {
        Some(text) => text,
        None => "1970-01-01 00:00:00"@,
    }
}

/// The alert for a login from a source that is not trusted.
pub open spec fn login_alert_text(
    user: Seq<char>,
    ip: Seq<char>,
    method: Seq<char>,
    time: Seq<char>,
) -> Seq<char> {
    "🔐 *SSH Login Detected*\n\n*User:* `"@ + user + "`\n*IP:* `"@ + ip + "`\n*Method:* `"@
        + method + "`\n*Time:* `"@ + time + "`"@
}

/// What is to be done about an accepted event, as plain values.
pub struct OutcomeView {
    pub notified: bool,
    pub alert: Option<Seq<char>>,
}

impl View for LoginOutcome {
    type V = OutcomeView;

    open spec fn view(&self) -> OutcomeView {
        OutcomeView { notified: self.notified, alert: text_of(self.alert) }
    }
}

/// What is to be done about an accepted event, given the store's answer to
/// how many allow-list entries bear its address. Without an answer the
/// handling fails. A trusted source is logged without notice and raises
/// nothing; any other is logged as notified and raises the alert.
pub open spec fn login_outcome(
    user: Seq<char>,
    ip: Seq<char>,
    method: Seq<char>,
    timestamp: i64,
    listed: Result<i64, StoreError>,
) -> Result<OutcomeView, LoginError> {
    match listed {
        Err(_) => Err(LoginError::StoreUnavailable),
        Ok(count) => if count > 0 {
            Ok(OutcomeView { notified: false, alert: None })
        } else {
            Ok(
                OutcomeView {
                    notified: true,
                    alert: Some(login_alert_text(user, ip, method, login_time_text(timestamp))),
                },
            )
        },
    }
}

/// Writes a moment in UTC after a pattern, by chrono's
/// `DateTime::from_timestamp` and `DateTime::format`. The text is a function
/// of the moment and the pattern alone. `None` is what `from_timestamp`
/// gives for a moment outside its range, and what comes of a pattern that
/// the formatter reports as an error.
#[verifier::external_body]
fn format_utc(timestamp: i64, pattern: &str) -> (text: Option<String>)
    ensures
        text_of(text) == utc_text(timestamp, pattern@),
{
    let moment = DateTime::from_timestamp(timestamp, 0)?;
    let mut text = String::new();
    match write!(text, "{}", moment.format(pattern)) {
        Ok(_) => Some(text),
        Err(_) => None,
    }
}

/// Words the alert for a login, with the time as text.
pub fn login_alert(event: &SshLoginEvent, time: &str) -> (alert: String)
    ensures
        alert@ == login_alert_text(event.user@, event.ip@, event.method@, time@),
{
    let mut alert = "🔐 *SSH Login Detected*\n\n*User:* `".to_owned();
    alert.append(event.user.as_str());
    alert.append("`\n*IP:* `");
    alert.append(event.ip.as_str());
    alert.append("`\n*Method:* `");
    alert.append(event.method.as_str());
    alert.append("`\n*Time:* `");
    alert.append(time);
    alert.append("`");
    alert
}

/// The time that an alert shows, given the moment as it was written: the
/// text as it is, and the start of 1970 where the moment could not be
/// written.
pub fn shown_time(written: Option<String>) -> (text: String)
    ensures
        text@ == match text_of(written) {
            Some(t) => t,
            None => "1970-01-01 00:00:00"@,
        },
{
    match written {
        Some(text) => text,
        None => "1970-01-01 00:00:00".to_owned(),
    }
}

/// The time of a login as its alert shows it.
pub fn login_time(timestamp: i64) -> (text: String)
    ensures
        text@ == login_time_text(timestamp),
{
    shown_time(format_utc(timestamp, "%Y-%m-%d %H:%M:%S"))
}

/// The login as the store is to keep it under `id`.
pub fn log_entry(id: i64, event: &SshLoginEvent, notified: bool) -> (row: SshLoginLog)
    ensures
        row.id == id,
        row.user@ == event.user@,
        row.ip@ == event.ip@,
        row.timestamp == event.timestamp,
        row.method@ == event.method@,
        row.notified == notified,
{
    SshLoginLog {
        id,
        user: event.user.clone(),
        ip: event.ip.clone(),
        timestamp: event.timestamp,
        method: event.method.clone(),
        notified,
    }
}

/// The error of a failed insert into the allow-list: a breach of the rule
/// that an address is listed once is a duplicate, anything else a failure of
/// the store.
pub fn insert_failure(unique_violation: bool) -> (error: StoreError)
    ensures
        error == if unique_violation {
            StoreError::DuplicateIp
        } else {
            StoreError::Unavailable
        },
{
    if unique_violation {
        StoreError::DuplicateIp
    } else {
        StoreError::Unavailable
    }
}

/// The gateway for login events.
pub struct SshAlertsService {
    internal_token: String,
    rate_limiter: RecentMoments,
    started: Instant,
}

impl View for SshAlertsService {
    type V = GatewayView;

    closed spec fn view(&self) -> GatewayView {
        GatewayView { token: self.internal_token@, accepted: self.rate_limiter@ }
    }
}

impl SshAlertsService {
    /// A gateway without a secret, which accepts nothing until it gets one.
    pub fn new() -> (service: Self)
        ensures
            service@ == (GatewayView { token: Seq::empty(), accepted: Map::empty() }),
    {
        SshAlertsService {
            internal_token: String::new(),
            rate_limiter: RecentMoments::new(),
            started: start(),
        }
    }

    /// Sets the shared secret.
    pub fn set_token(&mut self, token: String)
        ensures
            final(self)@ == (GatewayView { token: token@, ..old(self)@ }),
    {
        self.internal_token = token;
    }

    /// Replaces the secret by a fresh random one and returns it, for the
    /// caller to pass on to the event source. The new secret is not empty.
    pub fn issue_token(&mut self) -> (token: String)
        ensures
            final(self)@ == (GatewayView { token: token@, ..old(self)@ }),
            token@.len() == 36,
    {
        let token = random_identifier();
        self.internal_token = token.clone();
        token
    }

    /// Holds a presented token against the secret. An empty secret fails
    /// every token; otherwise exactly the secret itself passes.
    pub fn authorize(&self, token: &str) -> (verdict: Result<(), LoginError>)
        ensures
            match verdict {
                Ok(_) => auth_failure(self@.token, token@) is None,
                Err(error) => auth_failure(self@.token, token@) == Some(error),
            },
    {
        if self.internal_token.as_str().is_empty() {
            return Err(LoginError::TokenNotConfigured);
        }
        if !constant_time_eq(token, self.internal_token.as_str()) {
            return Err(LoginError::InvalidToken);
        }
        Ok(())
    }

    /// How many source addresses the gateway remembers.
    pub fn remembered(&self) -> (count: usize)
        ensures
            count == self@.accepted.len(),
    {
        self.rate_limiter.len()
    }

    /// Forgets every address whose rate limit has run out at `now`, so that
    /// the memory of the gateway is bounded by the addresses of the last 10
    /// seconds. Nothing else changes.
    pub fn sweep(&mut self, now: u128)
        ensures
            final(self)@ == swept(old(self)@, now),
    {
        self.rate_limiter.sweep(now, RATE_LIMIT_NANOS);
    }

    /// Forgets every address whose rate limit has run out now, by the
    /// machine's monotonic clock: what `sweep` does at some moment.
    pub fn sweep_now(&mut self)
        ensures
            exists|now: u128| final(self)@ == #[trigger] swept(old(self)@, now),
    {
        let now = nanos_since(&self.started);
        self.sweep(now);
    }

    /// The first step of the handling of an event that comes in at `now`.
    ///
    /// A token that fails is an error and changes nothing. An event from an
    /// address that was accepted less than 10 seconds ago ends as
    /// `RateLimited` and changes nothing. Any other event is accepted: its
    /// moment is recorded under its address, and the allow-list is to be
    /// asked.
    pub fn handle_login_at(&mut self, event: &SshLoginEvent, token: &str, now: u128) -> (step:
        Result<LoginStep, LoginError>)
        ensures
            step == login_step(old(self)@, event.ip@, token@, now),
            final(self)@ == after_login(old(self)@, event.ip@, token@, now),
    {
        match self.authorize(token) {
            Err(error) => {
                return Err(error);
            },
            Ok(_) => {},
        }
        let limited = match self.rate_limiter.get(event.ip.as_str()) {
            Some(last) => now < last || now - last < RATE_LIMIT_NANOS,
            None => false,
        };
        if limited {
            return Ok(LoginStep::RateLimited);
        }
        self.rate_limiter.record(event.ip.as_str(), now);
        Ok(LoginStep::CheckAllowList)
    }

    /// The first step of the handling of an event that comes in now, by the
    /// machine's monotonic clock: what `handle_login_at` does at some moment.
    pub fn handle_login(&mut self, event: &SshLoginEvent, token: &str) -> (step: Result<
        LoginStep,
        LoginError,
    >)
        ensures
            exists|now: u128|
                step == #[trigger] login_step(old(self)@, event.ip@, token@, now) && final(self)@
                    == after_login(old(self)@, event.ip@, token@, now),
    {
        let now = nanos_since(&self.started);
        self.handle_login_at(event, token, now)
    }

    /// The second step: what is to be done about an accepted event, given
    /// the store's answer to how many allow-list entries bear its address.
    ///
    /// Without an answer the handling fails and nothing is logged or sent. A
    /// listed address is logged with `notified` false and raises no alert.
    /// Any other is logged with `notified` true and raises the login alert.
    pub fn complete_login(event: &SshLoginEvent, listed: Result<i64, StoreError>) -> (outcome:
        Result<LoginOutcome, LoginError>)
        ensures
            match outcome {
                Ok(done) => Ok::<OutcomeView, LoginError>(done@),
                Err(error) => Err(error),
            } == login_outcome(event.user@, event.ip@, event.method@, event.timestamp, listed),
    {
        match listed {
            Err(_) => Err(LoginError::StoreUnavailable),
            Ok(count) => if count > 0 {
                Ok(LoginOutcome { notified: false, alert: None })
            } else {
                let time = login_time(event.timestamp);
                let alert = login_alert(event, time.as_str());
                Ok(LoginOutcome { notified: true, alert: Some(alert) })
            },
        }
    }
}

/// The rate limit by source. Of three events from one address with a valid
/// token, the first of them not held back, the second, less than 10 seconds
/// after the first, is dropped and changes nothing, and the third, 10
/// seconds or more after the first, is accepted again.
pub proof fn law_rate_limit(
    state: GatewayView,
    ip: Seq<char>,
    token: Seq<char>,
    first: u128,
    second: u128,
    third: u128,
)
    requires
        auth_failure(state.token, token) is None,
        !is_rate_limited(state, ip, first),
        first <= second,
        second - first < RATE_LIMIT_NANOS,
        third - first >= RATE_LIMIT_NANOS,
    ensures
        ({
            let s1 = after_login(state, ip, token, first);
            let s2 = after_login(s1, ip, token, second);
            &&& login_step(state, ip, token, first) == Ok::<LoginStep, LoginError>(
                LoginStep::CheckAllowList,
            )
            &&& login_step(s1, ip, token, second) == Ok::<LoginStep, LoginError>(
                LoginStep::RateLimited,
            )
            &&& s2 == s1
            &&& login_step(s2, ip, token, third) == Ok::<LoginStep, LoginError>(
                LoginStep::CheckAllowList,
            )
        }),
{
}

/// The rate limit of one address holds no other address back.
pub proof fn law_rate_limit_is_per_source(
    state: GatewayView,
    ip: Seq<char>,
    other: Seq<char>,
    token: Seq<char>,
    first: u128,
    second: u128,
)
    requires
        other != ip,
    ensures
        is_rate_limited(after_login(state, ip, token, first), other, second) == is_rate_limited(
            state,
            other,
            second,
        ),
{
}

/// A login from a source on the allow-list is logged with `notified` false
/// and raises no alert.
pub proof fn law_trusted_source_raises_nothing(
    user: Seq<char>,
    ip: Seq<char>,
    method: Seq<char>,
    timestamp: i64,
    listed: i64,
)
    requires
        listed > 0,
    ensures
        login_outcome(user, ip, method, timestamp, Ok(listed)) == Ok::<OutcomeView, LoginError>(
            OutcomeView { notified: false, alert: None },
        ),
{
}

/// Only the secret itself passes: with a secret in place a token is accepted
/// if and only if it is the secret, character for character, and without a
/// secret no token is. A token that is turned away changes nothing.
pub proof fn law_only_the_secret_passes(
    state: GatewayView,
    ip: Seq<char>,
    presented: Seq<char>,
    now: u128,
)
    ensures
        login_step(state, ip, presented, now) is Ok <==> (state.token.len() > 0 && presented
            == state.token),
        login_step(state, ip, presented, now) is Err ==> after_login(state, ip, presented, now)
            == state,
{
}

/// Sweeping cannot be seen: while the clock does not go back, a gateway
/// swept at `now` takes every later event as the unswept one does.
pub proof fn law_sweep_is_unseen(
    state: GatewayView,
    now: u128,
    ip: Seq<char>,
    presented: Seq<char>,
    later: u128,
)
    requires
        now <= later,
    ensures
        login_step(swept(state, now), ip, presented, later) == login_step(
            state,
            ip,
            presented,
            later,
        ),
{
}

} // verus!
