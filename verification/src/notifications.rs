//! The notification dispatcher: the one gate that every alert passes on its
//! way out. It suppresses a text that was sent within the last half hour,
//! keeps the moment of the last send for the global throttle, and words the
//! message for the transport.
//!
//! Moments are nanoseconds on a monotonic clock. A moment that lies before an
//! earlier one counts as no time passed.

use crate::clock::{nanos_since, start};
use crate::recent::{elapsed, fresh, RecentMoments};
use crate::text::text_of;
use std::time::Instant;
use vstd::prelude::*;

verus! {

/// How long a text stays suppressed after it was sent: 30 minutes.
pub const COOLDOWN_NANOS: u128 = 1_800_000_000_000;

/// The span of the global throttle between any two sends: 3 seconds.
pub const THROTTLE_NANOS: u128 = 3_000_000_000;

/// What the transport is asked to send.
#[derive(Clone, Debug)]
pub struct TelegramMessage {
    /// The address of the bot's `sendMessage` call.
    pub url: String,
    pub chat_id: String,
    pub text: String,
    pub parse_mode: String,
}

/// A transport request as plain values.
pub struct MessageView {
    pub url: Seq<char>,
    pub chat_id: Seq<char>,
    pub text: Seq<char>,
    pub parse_mode: Seq<char>,
}

impl View for TelegramMessage {
    type V = MessageView;

    open spec fn view(&self) -> MessageView {
        MessageView {
            url: self.url@,
            chat_id: self.chat_id@,
            text: self.text@,
            parse_mode: self.parse_mode@,
        }
    }
}

/// What became of an alert.
#[derive(Clone, Debug)]
pub enum Dispatch {
    /// The same text was sent less than 30 minutes ago: nothing happens.
    Suppressed,
    /// The throttle is enforced and another alert went out less than 3
    /// seconds ago: the alert is dropped.
    Throttled,
    /// No transport credentials are configured: the caller logs the alert.
    NotConfigured,
    /// The caller hands the message to the transport.
    Deliver(TelegramMessage),
}

/// The fate of an alert as plain values.
pub enum DispatchView {
    Suppressed,
    Throttled,
    NotConfigured,
    Deliver(MessageView),
}

impl View for Dispatch {
    type V = DispatchView;

    open spec fn view(&self) -> DispatchView {
        match self {
            Dispatch::Suppressed => DispatchView::Suppressed,
            Dispatch::Throttled => DispatchView::Throttled,
            Dispatch::NotConfigured => DispatchView::NotConfigured,
            Dispatch::Deliver(message) => DispatchView::Deliver(message@),
        }
    }
}

/// The dispatcher's state as plain values.
pub struct DispatcherView {
    pub token: Option<Seq<char>>,
    pub chat_id: Option<Seq<char>>,
    pub server_name: Seq<char>,
    /// Whether an alert inside the throttle span is dropped.
    pub enforce_throttle: bool,
    /// For each text sent, the moment it was last accepted.
    pub cooldowns: Map<Seq<char>, u128>,
    /// The moment of the last accepted alert, whatever its text.
    pub last_sent: Option<u128>,
}

/// The name a server goes by: the configured one, else the host name, else
/// a fixed text.
pub open spec fn server_name_of(configured: Option<Seq<char>>, host: Option<Seq<char>>) -> Seq<
    char,
> {
    match configured {
        Some(name) => name,
        None => match host {
            Some(name) => name,
            None => "Unknown Server"@,
        },
    }
}

/// The address of the bot's `sendMessage` call.
pub open spec fn send_url(token: Seq<char>) -> Seq<char> {
    "https://api.telegram.org/bot"@ + token + "/sendMessage"@
}

/// The text that goes out: the alert marker, the server's name and the
/// alert, each on a line of its own, with an empty line before the alert.
pub open spec fn envelope(server_name: Seq<char>, message: Seq<char>) -> Seq<char> {
    "🚨 *Mini-Ops Alert* 🚨\n["@ + server_name + "]\n\n"@ + message
}

/// The same text was accepted less than 30 minutes before `now`.
pub open spec fn is_duplicate(state: DispatcherView, message: Seq<char>, now: u128) -> bool {
    state.cooldowns.contains_key(message) && elapsed(state.cooldowns[message], now)
        < COOLDOWN_NANOS
}

/// Some alert was accepted less than 3 seconds before `now`.
pub open spec fn is_throttled(state: DispatcherView, now: u128) -> bool {
    state.last_sent matches Some(last) && elapsed(last, now) < THROTTLE_NANOS
}

/// The state after an alert came in at `now`. A duplicate changes nothing;
/// any other alert is recorded under its text and as the last one sent,
/// whatever becomes of it afterwards.
pub open spec fn after_alert(state: DispatcherView, message: Seq<char>, now: u128)
    -> DispatcherView {
    if is_duplicate(state, message, now) {
        state
    } else {
        DispatcherView {
            cooldowns: state.cooldowns.insert(message, now),
            last_sent: Some(now),
            ..state
        }
    }
}

/// The state after the texts whose cooldown has run out at `now` were
/// forgotten.
pub open spec fn swept(state: DispatcherView, now: u128) -> DispatcherView {
    DispatcherView { cooldowns: fresh(state.cooldowns, now, COOLDOWN_NANOS), ..state }
}

/// Two states that differ at most in texts whose cooldown has run out at
/// `now`.
pub open spec fn alike_from(a: DispatcherView, b: DispatcherView, now: u128) -> bool {
    &&& a.token == b.token
    &&& a.chat_id == b.chat_id
    &&& a.server_name == b.server_name
    &&& a.enforce_throttle == b.enforce_throttle
    &&& a.last_sent == b.last_sent
    &&& fresh(a.cooldowns, now, COOLDOWN_NANOS) == fresh(b.cooldowns, now, COOLDOWN_NANOS)
}

/// What becomes of an alert that comes in at `now`.
pub open spec fn outcome(state: DispatcherView, message: Seq<char>, now: u128) -> DispatchView {
    if is_duplicate(state, message, now) {
        DispatchView::Suppressed
    } else if state.enforce_throttle && is_throttled(state, now) {
        DispatchView::Throttled
    } else {
        match (state.token, state.chat_id) {
            (Some(token), Some(chat_id)) => DispatchView::Deliver(
                MessageView {
                    url: send_url(token),
                    chat_id,
                    text: envelope(state.server_name, message),
                    parse_mode: "Markdown"@,
                },
            ),
            _ => DispatchView::NotConfigured,
        }
    }
}

/// The machine's host name as `hostname::get` reports it, read as text with
/// the bytes that are no UTF-8 replaced; `None` where the call fails. Nothing
/// is claimed of the name: it depends on the machine.
#[verifier::external_body]
fn host_name() -> Option<String> {
    match hostname::get() {
        Ok(name) => Some(name.to_string_lossy().into_owned()),
        Err(_) => None,
    }
}

/// The name a server goes by: the configured one, else the host name, else
/// `Unknown Server`.
pub fn resolve_server_name(configured: Option<String>, host: Option<String>) -> (name: String)
    ensures
        name@ == server_name_of(text_of(configured), text_of(host)),
{
    match configured {
        Some(name) => name,
        None => match host {
            Some(name) => name,
            None => "Unknown Server".to_owned(),
        },
    }
}

/// The stateful gate between the producers of alerts and the transport.
pub struct NotificationService {
    token: Option<String>,
    chat_id: Option<String>,
    server_name: String,
    enforce_throttle: bool,
    last_sent: Option<u128>,
    alert_history: RecentMoments,
    started: Instant,
}

impl View for NotificationService {
    type V = DispatcherView;

    closed spec fn view(&self) -> DispatcherView {
        DispatcherView {
            token: text_of(self.token),
            chat_id: text_of(self.chat_id),
            server_name: self.server_name@,
            enforce_throttle: self.enforce_throttle,
            cooldowns: self.alert_history@,
            last_sent: self.last_sent,
        }
    }
}

impl NotificationService {
    /// A dispatcher that has sent nothing yet, with the credentials of the
    /// transport, where there are any, and the server's name. The throttle
    /// is recorded and not enforced.
    pub fn with_server_name(
        token: Option<String>,
        chat_id: Option<String>,
        server_name: String,
    ) -> (service: Self)
        ensures
            service@ == (DispatcherView {
                token: text_of(token),
                chat_id: text_of(chat_id),
                server_name: server_name@,
                enforce_throttle: false,
                cooldowns: Map::empty(),
                last_sent: None,
            }),
    {
        NotificationService {
            token,
            chat_id,
            server_name,
            enforce_throttle: false,
            last_sent: None,
            alert_history: RecentMoments::new(),
            started: start(),
        }
    }

    /// A dispatcher that has sent nothing yet. Where no name is configured
    /// the server goes by the machine's host name, and by `Unknown Server`
    /// where that cannot be had.
    pub fn new(
        token: Option<String>,
        chat_id: Option<String>,
        configured_name: Option<String>,
    ) -> (service: Self)
        ensures
            service@.token == text_of(token),
            service@.chat_id == text_of(chat_id),
            configured_name matches Some(name) ==> service@.server_name == name@,
            !service@.enforce_throttle,
            service@.cooldowns == Map::<Seq<char>, u128>::empty(),
            service@.last_sent is None,
    {
        let host = match configured_name {
            Some(_) => None,
            None => host_name(),
        };
        let name = resolve_server_name(configured_name, host);
        Self::with_server_name(token, chat_id, name)
    }

    /// Chooses what the global throttle does with an alert that comes less
    /// than 3 seconds after the last one: with `true` it is dropped, with
    /// `false` it goes out all the same. Either way the moment is recorded,
    /// and a dropped alert counts as sent for its cooldown: the same text is
    /// suppressed for the next 30 minutes.
    pub fn set_throttle_enforced(&mut self, enforce: bool)
        ensures
            final(self)@ == (DispatcherView { enforce_throttle: enforce, ..old(self)@ }),
    {
        self.enforce_throttle = enforce;
    }

    /// Whether the credentials of the transport are configured.
    pub fn is_configured(&self) -> (configured: bool)
        ensures
            configured == (self@.token is Some && self@.chat_id is Some),
    {
        self.token.is_some() && self.chat_id.is_some()
    }

    /// The moment of the last accepted alert.
    pub fn last_sent(&self) -> (moment: Option<u128>)
        ensures
            moment == self@.last_sent,
    {
        self.last_sent
    }

    /// The name the server goes by in the messages.
    pub fn server_name(&self) -> (name: &str)
        ensures
            name@ == self@.server_name,
    {
        self.server_name.as_str()
    }

    /// How many texts the dispatcher remembers.
    pub fn remembered(&self) -> (count: usize)
        ensures
            count == self@.cooldowns.len(),
    {
        self.alert_history.len()
    }

    /// Forgets every text whose cooldown has run out at `now`, so that the
    /// memory of the dispatcher is bounded by what came in during the last
    /// 30 minutes. Nothing else changes.
    pub fn sweep(&mut self, now: u128)
        ensures
            final(self)@ == swept(old(self)@, now),
    {
        self.alert_history.sweep(now, COOLDOWN_NANOS);
    }

    /// Forgets every text whose cooldown has run out now, by the machine's
    /// monotonic clock: what `sweep` does at some moment.
    pub fn sweep_now(&mut self)
        ensures
            exists|now: u128| final(self)@ == #[trigger] swept(old(self)@, now),
    {
        let now = nanos_since(&self.started);
        self.sweep(now);
    }

    /// Takes in an alert at the moment `now` and says what becomes of it.
    ///
    /// A text that was accepted less than 30 minutes ago is suppressed and
    /// leaves no trace. Any other alert is recorded under its text and as the
    /// last one sent. It is then dropped where the throttle is enforced and
    /// the previous alert is less than 3 seconds old, handed back for logging
    /// where no credentials are configured, and worded for the transport
    /// otherwise.
    pub fn send_alert_at(&mut self, message: &str, now: u128) -> (dispatch: Dispatch)
        ensures
            final(self)@ == after_alert(old(self)@, message@, now),
            dispatch@ == outcome(old(self)@, message@, now),
    {
        let duplicate = match self.alert_history.get(message) {
            Some(last) => now < last || now - last < COOLDOWN_NANOS,
            None => false,
        };
        if duplicate {
            return Dispatch::Suppressed;
        }
        self.alert_history.record(message, now);

        let throttled = match self.last_sent {
            Some(last) => now < last || now - last < THROTTLE_NANOS,
            None => false,
        };
        self.last_sent = Some(now);
        if self.enforce_throttle && throttled {
            return Dispatch::Throttled;
        }
        match (&self.token, &self.chat_id) {
            (Some(token), Some(chat_id)) => {
                let mut url = "https://api.telegram.org/bot".to_owned();
                url.append(token.as_str());
                url.append("/sendMessage");
                let mut text = "🚨 *Mini-Ops Alert* 🚨\n[".to_owned();
                text.append(self.server_name.as_str());
                text.append("]\n\n");
                text.append(message);
                Dispatch::Deliver(
                    TelegramMessage {
                        url,
                        chat_id: chat_id.clone(),
                        text,
                        parse_mode: "Markdown".to_owned(),
                    },
                )
            },
            _ => Dispatch::NotConfigured,
        }
    }

    /// Takes in an alert now, by the machine's monotonic clock, and says what
    /// becomes of it: what `send_alert_at` does at some moment.
    pub fn send_alert(&mut self, message: &str) -> (dispatch: Dispatch)
        ensures
            exists|now: u128|
                final(self)@ == #[trigger] after_alert(old(self)@, message@, now) && dispatch@
                    == outcome(old(self)@, message@, now),
    {
        let now = nanos_since(&self.started);
        self.send_alert_at(message, now)
    }
}

/// The transport request for an alert of a configured dispatcher.
pub open spec fn delivery(state: DispatcherView, message: Seq<char>) -> DispatchView
    recommends
        state.token is Some,
        state.chat_id is Some,
{
    DispatchView::Deliver(
        MessageView {
            url: send_url(state.token->0),
            chat_id: state.chat_id->0,
            text: envelope(state.server_name, message),
            parse_mode: "Markdown"@,
        },
    )
}

/// The same text goes out once per half hour. Of three alerts with one text,
/// the first of them not held back, the second, less than 30 minutes after
/// the first, is suppressed and changes nothing, and the third, 30 minutes
/// or more after the first, goes out again.
pub proof fn law_cooldown(
    state: DispatcherView,
    message: Seq<char>,
    first: u128,
    second: u128,
    third: u128,
)
    requires
        state.token is Some,
        state.chat_id is Some,
        !is_duplicate(state, message, first),
        !(state.enforce_throttle && is_throttled(state, first)),
        first <= second,
        second - first < COOLDOWN_NANOS,
        third - first >= COOLDOWN_NANOS,
    ensures
        ({
            let s1 = after_alert(state, message, first);
            let s2 = after_alert(s1, message, second);
            &&& outcome(state, message, first) == delivery(state, message)
            &&& outcome(s1, message, second) == DispatchView::Suppressed
            &&& s2 == s1
            &&& outcome(s2, message, third) == delivery(state, message)
            &&& after_alert(s2, message, third).cooldowns[message] == third
        }),
{
}

/// Other texts leave the cooldown of a text alone: an alert with another
/// text neither starts nor ends the suppression of this one.
pub proof fn law_cooldown_is_per_text(
    state: DispatcherView,
    message: Seq<char>,
    other: Seq<char>,
    first: u128,
    second: u128,
)
    requires
        other != message,
    ensures
        is_duplicate(after_alert(state, other, first), message, second) == is_duplicate(
            state,
            message,
            second,
        ),
{
}

/// Where the throttle is not enforced it holds nothing back: every alert
/// that is no duplicate goes out, or is handed back for want of credentials.
pub proof fn law_recorded_throttle_drops_nothing(
    state: DispatcherView,
    message: Seq<char>,
    now: u128,
)
    requires
        !state.enforce_throttle,
    ensures
        outcome(state, message, now) != DispatchView::Throttled,
        !is_duplicate(state, message, now) ==> after_alert(state, message, now).last_sent == Some(
            now,
        ),
{
}

/// Sweeping cannot be seen. A swept state is like the state it came from,
/// and while the clock does not go back, two states that are alike answer
/// every alert alike and stay alike.
pub proof fn law_sweep_is_unseen(
    a: DispatcherView,
    b: DispatcherView,
    now: u128,
    message: Seq<char>,
    later: u128,
)
    requires
        alike_from(a, b, now),
        now <= later,
    ensures
        alike_from(swept(a, now), a, now),
        outcome(a, message, later) == outcome(b, message, later),
        alike_from(after_alert(a, message, later), after_alert(b, message, later), later),
{
    assert(fresh(swept(a, now).cooldowns, now, COOLDOWN_NANOS) =~= fresh(
        a.cooldowns,
        now,
        COOLDOWN_NANOS,
    ));
    let fa = fresh(a.cooldowns, now, COOLDOWN_NANOS);
    let fb = fresh(b.cooldowns, now, COOLDOWN_NANOS);
    assert forall|key: Seq<char>|
        (a.cooldowns.contains_key(key) && elapsed(a.cooldowns[key], later) < COOLDOWN_NANOS) <==> (
        b.cooldowns.contains_key(key) && elapsed(b.cooldowns[key], later) < COOLDOWN_NANOS) by {
        if a.cooldowns.contains_key(key) && elapsed(a.cooldowns[key], later) < COOLDOWN_NANOS {
            assert(fa.contains_key(key));
            assert(fb.contains_key(key));
            assert(fb[key] == fa[key]);
        }
        if b.cooldowns.contains_key(key) && elapsed(b.cooldowns[key], later) < COOLDOWN_NANOS {
            assert(fb.contains_key(key));
            assert(fa.contains_key(key));
            assert(fa[key] == fb[key]);
        }
    }
    assert(is_duplicate(a, message, later) == is_duplicate(b, message, later));
    let a2 = after_alert(a, message, later);
    let b2 = after_alert(b, message, later);
    assert(fresh(a2.cooldowns, later, COOLDOWN_NANOS) =~= fresh(
        b2.cooldowns,
        later,
        COOLDOWN_NANOS,
    )) by {
        assert forall|key: Seq<char>|
            fresh(a2.cooldowns, later, COOLDOWN_NANOS).contains_key(key) implies fresh(
                b2.cooldowns,
                later,
                COOLDOWN_NANOS,
            ).contains_key(key) && fresh(b2.cooldowns, later, COOLDOWN_NANOS)[key] == fresh(
                a2.cooldowns,
                later,
                COOLDOWN_NANOS,
            )[key] by {
            if a.cooldowns.contains_key(key) && elapsed(a.cooldowns[key], later)
                < COOLDOWN_NANOS {
                assert(fa.contains_key(key) && fb.contains_key(key) && fa[key] == fb[key]);
            }
        }
        assert forall|key: Seq<char>|
            fresh(b2.cooldowns, later, COOLDOWN_NANOS).contains_key(key) implies fresh(
                a2.cooldowns,
                later,
                COOLDOWN_NANOS,
            ).contains_key(key) by {
            if b.cooldowns.contains_key(key) && elapsed(b.cooldowns[key], later)
                < COOLDOWN_NANOS {
                assert(fa.contains_key(key) && fb.contains_key(key) && fa[key] == fb[key]);
            }
        }
    }
}

} // verus!
