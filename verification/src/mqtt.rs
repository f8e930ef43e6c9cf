//! The MQTT side of the relay: the connection status shown to users, the
//! plan for connecting to a broker, and the session that turns broker events
//! into actions (forwarding data to Zabbix, reconnecting with back-off,
//! stopping).
use vstd::prelude::*;
use vstd::string::StringExecFns;
use crate::text::{decimal, push_decimal};
use crate::zabbix::{Data, PayloadIssue, decode_reply, decode_unicode_escape_sequences, validate_data, payload_issue_log};
use crate::messages::{is_blank, is_blank_text};
use crate::settings::{StoredSettings, text_or_empty};
use crate::web::{print_time_date, local_now_rfc3339, is_time_stamp, is_rfc3339_stamp};

verus! {

/// The MQTT connection status as shown to users.
pub struct MqttState {
    pub enabled: bool,
    pub status: String,
    pub url: String,
    pub topic: String,
    /// When the status was last recorded, in RFC 3339 form (local time).
    pub last_updated: String,
}

impl MqttState {
    /// The status before anything is known: disabled, `unknown`.
    pub fn new() -> (s: Self)
        ensures
            !s.enabled,
            s.status@ == "unknown"@,
            s.url@ == Seq::<char>::empty(),
            s.topic@ == Seq::<char>::empty(),
            is_rfc3339_stamp(s.last_updated@),
    {
        MqttState {
            enabled: false,
            status: String::from_str("unknown"),
            url: String::new(),
            topic: String::new(),
            last_updated: local_now_rfc3339(),
        }
    }

    /// The status at start-up, from the settings: `starting` when the client
    /// is enabled, `disabled` otherwise.
    pub fn initial(enabled: bool, url: &str, topic: &str) -> (s: Self)
        ensures
            s.enabled == enabled,
            enabled ==> s.status@ == "starting"@,
            !enabled ==> s.status@ == "disabled"@,
            s.url@ == url@,
            s.topic@ == topic@,
            is_rfc3339_stamp(s.last_updated@),
    {
        MqttState {
            enabled,
            status: if enabled { String::from_str("starting") } else { String::from_str("disabled") },
            url: String::from_str(url),
            topic: String::from_str(topic),
            last_updated: local_now_rfc3339(),
        }
    }

    /// Records a status change.
    pub fn update(&mut self, enabled: bool, status: &str, url: &str, topic: &str)
        ensures
            final(self).enabled == enabled,
            final(self).status@ == status@,
            final(self).url@ == url@,
            final(self).topic@ == topic@,
            is_rfc3339_stamp(final(self).last_updated@),
    {
        self.enabled = enabled;
        self.status = String::from_str(status);
        self.url = String::from_str(url);
        self.topic = String::from_str(topic);
        self.last_updated = local_now_rfc3339();
    }
}

/// The number of times the client tries to reconnect after consecutive
/// connection errors; one more error stops it.
pub const MAX_RECONNECT_ATTEMPTS: u32 = 5;

/// Seconds to wait before resubscribing after the `n`-th consecutive
/// connection error: 5 seconds, doubled at each error, at most 60.
pub open spec fn backoff_secs(n: nat) -> nat
    decreases n,
{
    if n <= 1 {
        5
    } else {
        let prev = backoff_secs((n - 1) as nat);
        if 2 * prev > 60 { 60 } else { 2 * prev }
    }
}

/// `min(5 * 2^(n-1), 60)` for the `n`-th retry.
pub fn reconnect_delay(n: u32) -> (secs: u64)
    requires
        1 <= n <= MAX_RECONNECT_ATTEMPTS,
    ensures
        secs == backoff_secs(n as nat),
{
    reveal_with_fuel(backoff_secs, 6);
    if n == 1 { 5 } else if n == 2 { 10 } else if n == 3 { 20 } else if n == 4 { 40 } else { 60 }
}

/// The back-off before the five retries is 5, 10, 20, 40 and 60 seconds,
/// and never exceeds 60 seconds.
pub proof fn backoff_doubles_up_to_a_minute(n: nat)
    ensures
        backoff_secs(1) == 5,
        backoff_secs(2) == 10,
        backoff_secs(3) == 20,
        backoff_secs(4) == 40,
        backoff_secs(5) == 60,
        backoff_secs(n) <= 60,
        n >= 1 ==> backoff_secs(n + 1) == if 2 * backoff_secs(n) > 60 { 60 } else { 2 * backoff_secs(n) },
    decreases n,
{
    reveal_with_fuel(backoff_secs, 6);
    if n > 1 {
        backoff_doubles_up_to_a_minute((n - 1) as nat);
    }
}

/// An event of the MQTT session, as the code that talks to the broker
/// reports it. Times are nanoseconds on a monotonic clock.
pub enum MqttEvent {
    /// The configuration changed: the client is to stop.
    Shutdown,
    /// The answer to the first subscription.
    Subscribed(Result<(), String>),
    /// A message was published on a topic.
    Publish { topic: String, payload: String, now: u128 },
    /// The payload asked for was read as a data message, or could not be.
    Parsed { parsed: Result<Data, String>, now: u128 },
    /// The data asked to be forwarded was sent: the server's reply, or the error.
    Forwarded { reply: Result<String, String>, now: u128 },
    /// The broker acknowledged the connection.
    ConnAck,
    /// The broker closed the connection.
    Disconnect,
    /// Anything else the broker sent.
    Other,
    /// The connection failed.
    ConnectionError(String),
    /// The answer to a resubscription.
    Resubscribed(Result<(), String>),
}

/// What the session asks to be done, in order.
pub enum MqttAction {
    /// Add a line to the activity log.
    Log(String),
    /// Add this line, the local date and time, to the activity log.
    Timestamp(String),
    /// Record and announce a new connection status.
    Broadcast { enabled: bool, status: String },
    /// Count a received MQTT message.
    CountMessage,
    /// Read this payload as a data message and report it with `Parsed`.
    ParsePayload(String),
    /// Send this data to its Zabbix server and report it with `Forwarded`.
    Forward(Data),
    /// Count a successful send to Zabbix.
    CountSuccess,
    /// Count a failed send to Zabbix.
    CountFailure,
    /// Wait this many seconds.
    Sleep(u64),
    /// Subscribe to the topic again and report it with `Resubscribed`.
    Resubscribe,
    /// End the session, successfully or with this error.
    Stop(Result<(), String>),
}

/// An action as a mathematical value.
pub enum ActionView {
    Log(Seq<char>),
    LogTimestamp,
    Broadcast(bool, Seq<char>),
    CountMessage,
    ParsePayload(Seq<char>),
    Forward(Data),
    CountSuccess,
    CountFailure,
    Sleep(u64),
    Resubscribe,
    Stop(Option<Seq<char>>),
}

pub open spec fn action_view(a: MqttAction) -> ActionView {
    match a {
        MqttAction::Log(s) => ActionView::Log(s@),
        MqttAction::Timestamp(_) => ActionView::LogTimestamp,
        MqttAction::Broadcast { enabled, status } => ActionView::Broadcast(enabled, status@),
        MqttAction::CountMessage => ActionView::CountMessage,
        MqttAction::ParsePayload(p) => ActionView::ParsePayload(p@),
        MqttAction::Forward(d) => ActionView::Forward(d),
        MqttAction::CountSuccess => ActionView::CountSuccess,
        MqttAction::CountFailure => ActionView::CountFailure,
        MqttAction::Sleep(s) => ActionView::Sleep(s),
        MqttAction::Resubscribe => ActionView::Resubscribe,
        MqttAction::Stop(r) => ActionView::Stop(match r {
            Ok(_) => None,
            Err(e) => Some(e@),
        }),
    }
}

pub open spec fn actions_view(v: Seq<MqttAction>) -> Seq<ActionView> {
    v.map_values(|a: MqttAction| action_view(a))
}

/// The state of a session with a broker.
pub struct MqttSession {
    /// The broker URL.
    pub host: String,
    /// The topic data messages come on.
    pub topic: String,
    /// The shortest time between two forwarded messages, in nanoseconds.
    pub period: u128,
    /// When the last message on the topic was dealt with, if one was.
    pub last_handled: Option<u128>,
    /// Consecutive connection errors so far.
    pub reconnect_attempts: u32,
}

/// Time since an earlier instant, zero when the clock reads earlier.
pub open spec fn elapsed(now: u128, then: u128) -> u128 {
    if now >= then { (now - then) as u128 } else { 0 }
}

/// Whether a message on the topic arriving at `now` is dealt with: the
/// first one is, and later ones once more than the period has passed since
/// the last one was dealt with. A period of 0 means no throttling.
pub open spec fn accepts_at(s: MqttSession, now: u128) -> bool {
    match s.last_handled {
        None => true,
        Some(t) => s.period == 0 || elapsed(now, t) > s.period,
    }
}

/// The status announced after the `n`-th consecutive connection error.
pub open spec fn error_status(n: nat) -> Seq<char> {
    if n == 1 { "disconnected"@ } else { "reconnecting"@ }
}

/// What a session asks for in answer to an event.
pub open spec fn step_actions(s: MqttSession, e: MqttEvent) -> Seq<ActionView> {
    match e {
        MqttEvent::Shutdown => seq![
            ActionView::Log("MQTT: Service stopped by configuration change"@),
            ActionView::Broadcast(false, "stopped"@),
            ActionView::Stop(None),
        ],
        MqttEvent::Subscribed(r) => match r {
            Ok(_) => seq![
                ActionView::Log("MQTT: Subscribed to topic "@ + s.topic@),
                ActionView::Log("MQTT: Waiting for connection acknowledgment"@),
            ],
            Err(err) => seq![
                ActionView::Log("MQTT Error: Failed to subscribe - "@ + err@),
                ActionView::Broadcast(true, "error"@),
                ActionView::Stop(Some(err@)),
            ],
        },
        MqttEvent::Publish { topic, payload, now } => {
            if topic@ == s.topic@ && accepts_at(s, now) {
                let head = seq![
                    ActionView::LogTimestamp,
                    ActionView::Log("MQTT: "@ + payload@),
                    ActionView::CountMessage,
                ];
                if is_blank(payload@) { head } else { head.push(ActionView::ParsePayload(payload@)) }
            } else {
                seq![]
            }
        },
        MqttEvent::Parsed { parsed, now } => match parsed {
            Err(err) => seq![ActionView::Log("Parse Error: "@ + err@)],
            Ok(data) => {
                if data.zabbix_server@.len() == 0 {
                    seq![ActionView::Log("MQTT Error: Missing zabbix_server field"@)]
                } else if data.item_host_name@.len() == 0 {
                    seq![ActionView::Log("MQTT Error: Missing item_host_name field"@)]
                } else if data.item@.len() == 0 {
                    seq![ActionView::Log("MQTT Error: No items in payload"@)]
                } else {
                    seq![ActionView::Forward(data)]
                }
            },
        },
        MqttEvent::Forwarded { reply, now } => match reply {
            Ok(text) => seq![
                ActionView::Log("Zabbix: "@ + decode_reply(text@)),
                ActionView::CountSuccess,
            ],
            Err(err) => seq![
                ActionView::Log("Zabbix Error: "@ + err@),
                ActionView::CountFailure,
            ],
        },
        MqttEvent::ConnAck => seq![
            ActionView::Log("MQTT: Client connected and ready"@),
            ActionView::Broadcast(true, "running"@),
        ],
        MqttEvent::Disconnect => seq![
            ActionView::Log("MQTT: Disconnected by broker"@),
            ActionView::Broadcast(true, "disconnected"@),
        ],
        MqttEvent::Other => seq![],
        MqttEvent::ConnectionError(err) => {
            let n = s.reconnect_attempts + 1;
            let head = seq![
                ActionView::Log("MQTT Error ("@ + decimal(n as nat) + "): "@ + err@),
                ActionView::Broadcast(true, error_status(n as nat)),
            ];
            if n > MAX_RECONNECT_ATTEMPTS {
                head + seq![
                    ActionView::Log("MQTT: Max reconnection attempts reached. Client stopped."@),
                    ActionView::Broadcast(true, "error"@),
                    ActionView::Stop(Some(err@)),
                ]
            } else if n > 1 {
                head + seq![
                    ActionView::Broadcast(true, "reconnecting"@),
                    ActionView::Sleep(backoff_secs(n as nat) as u64),
                    ActionView::Resubscribe,
                ]
            } else {
                head + seq![
                    ActionView::Sleep(backoff_secs(n as nat) as u64),
                    ActionView::Resubscribe,
                ]
            }
        },
        MqttEvent::Resubscribed(r) => match r {
            Ok(_) => seq![
                ActionView::Log("MQTT: Re-subscribed to "@ + s.topic@),
                ActionView::Broadcast(true, "connecting"@),
            ],
            Err(err) => seq![ActionView::Log("MQTT Re-subscribe Error: "@ + err@)],
        },
    }
}

/// The number of consecutive connection errors after an event.
pub open spec fn next_attempts(s: MqttSession, e: MqttEvent) -> u32 {
    match e {
        MqttEvent::Publish { .. } => 0,
        MqttEvent::ConnAck => 0,
        MqttEvent::ConnectionError(_) => (s.reconnect_attempts + 1) as u32,
        _ => s.reconnect_attempts,
    }
}

/// When the last message on the topic was dealt with, after an event.
pub open spec fn next_last_handled(s: MqttSession, e: MqttEvent) -> Option<u128> {
    match e {
        MqttEvent::Parsed { parsed, now } => match parsed {
            Err(_) => Some(now),
            Ok(_) => s.last_handled,
        },
        MqttEvent::Forwarded { reply, now } => Some(now),
        _ => s.last_handled,
    }
}

/// Whether the session is still running: no more consecutive errors than
/// retries allowed.
pub open spec fn running(s: MqttSession) -> bool {
    s.reconnect_attempts <= MAX_RECONNECT_ATTEMPTS
}

fn text_with(a: &str, b: &str) -> (s: String)
    ensures
        s@ == a@ + b@,
{
    let mut s = String::from_str(a);
    s.append(b);
    s
}

impl MqttSession {
    /// A session that has not dealt with any message yet. The period is given
    /// in seconds; in milliseconds it must fit in 64 bits.
    pub fn new(host: String, topic: String, period_secs: u64) -> (s: Self)
        requires
            period_secs as int * 1000 <= u64::MAX,
        ensures
            s.host == host,
            s.topic == topic,
            s.period == period_secs as u128 * 1_000_000_000,
            s.last_handled is None,
            s.reconnect_attempts == 0,
    {
        MqttSession {
            host,
            topic,
            period: period_secs as u128 * 1_000_000_000,
            last_handled: None,
            reconnect_attempts: 0,
        }
    }

    /// Handles one event: returns the actions to take, in order, and moves
    /// to the next state.
    pub fn step(&mut self, event: MqttEvent) -> (actions: Vec<MqttAction>)
        requires
            running(*old(self)),
        ensures
            actions_view(actions@) == step_actions(*old(self), event),
            forall|i: int| 0 <= i < actions@.len() ==> (#[trigger] actions@[i] matches MqttAction::Timestamp(t)
                ==> is_time_stamp(t@)),
            final(self).reconnect_attempts == next_attempts(*old(self), event),
            final(self).last_handled == next_last_handled(*old(self), event),
            final(self).host == old(self).host,
            final(self).topic == old(self).topic,
            final(self).period == old(self).period,
    {
        let ghost s0 = *self;
        let ghost e0 = event;
        let mut out: Vec<MqttAction> = Vec::new();
        match event {
            MqttEvent::Shutdown => {
                out.push(MqttAction::Log(String::from_str("MQTT: Service stopped by configuration change")));
                out.push(MqttAction::Broadcast { enabled: false, status: String::from_str("stopped") });
                out.push(MqttAction::Stop(Ok(())));
            },
            MqttEvent::Subscribed(r) => {
                match r {
                    Ok(_) => {
                        out.push(MqttAction::Log(text_with("MQTT: Subscribed to topic ", self.topic.as_str())));
                        out.push(MqttAction::Log(String::from_str("MQTT: Waiting for connection acknowledgment")));
                    },
                    Err(err) => {
                        out.push(MqttAction::Log(text_with("MQTT Error: Failed to subscribe - ", err.as_str())));
                        out.push(MqttAction::Broadcast { enabled: true, status: String::from_str("error") });
                        out.push(MqttAction::Stop(Err(err)));
                    },
                }
            },
            MqttEvent::Publish { topic, payload, now } => {
                self.reconnect_attempts = 0;
                let accepted = match self.last_handled {
                    None => true,
                    Some(t) => {
                        let gap: u128 = if now >= t { now - t } else { 0 };
                        self.period == 0 || gap > self.period
                    },
                };
                if topic == self.topic && accepted {
                    out.push(MqttAction::Timestamp(print_time_date()));
                    out.push(MqttAction::Log(text_with("MQTT: ", payload.as_str())));
                    out.push(MqttAction::CountMessage);
                    if !is_blank_text(payload.as_str()) {
                        out.push(MqttAction::ParsePayload(payload));
                    }
                }
            },
            MqttEvent::Parsed { parsed, now } => {
                match parsed {
                    Err(err) => {
                        out.push(MqttAction::Log(text_with("Parse Error: ", err.as_str())));
                        self.last_handled = Some(now);
                    },
                    Ok(data) => {
                        match validate_data(&data) {
                            Err(issue) => {
                                out.push(MqttAction::Log(payload_issue_log(&issue)));
                            },
                            Ok(()) => {
                                out.push(MqttAction::Forward(data));
                            },
                        }
                    },
                }
            },
            MqttEvent::Forwarded { reply, now } => {
                match reply {
                    Ok(text) => {
                        let decoded = decode_unicode_escape_sequences(text.as_str());
                        out.push(MqttAction::Log(text_with("Zabbix: ", decoded.as_str())));
                        out.push(MqttAction::CountSuccess);
                    },
                    Err(err) => {
                        out.push(MqttAction::Log(text_with("Zabbix Error: ", err.as_str())));
                        out.push(MqttAction::CountFailure);
                    },
                }
                self.last_handled = Some(now);
            },
            MqttEvent::ConnAck => {
                out.push(MqttAction::Log(String::from_str("MQTT: Client connected and ready")));
                out.push(MqttAction::Broadcast { enabled: true, status: String::from_str("running") });
                self.reconnect_attempts = 0;
            },
            MqttEvent::Disconnect => {
                out.push(MqttAction::Log(String::from_str("MQTT: Disconnected by broker")));
                out.push(MqttAction::Broadcast { enabled: true, status: String::from_str("disconnected") });
            },
            MqttEvent::Other => {},
            MqttEvent::ConnectionError(err) => {
                self.reconnect_attempts = self.reconnect_attempts + 1;
                let n = self.reconnect_attempts;
                let mut line = String::from_str("MQTT Error (");
                push_decimal(&mut line, n as u64);
                line.append("): ");
                line.append(err.as_str());
                out.push(MqttAction::Log(line));
                let status = if n == 1 { String::from_str("disconnected") } else { String::from_str("reconnecting") };
                out.push(MqttAction::Broadcast { enabled: true, status });
                if n > MAX_RECONNECT_ATTEMPTS {
                    out.push(MqttAction::Log(String::from_str("MQTT: Max reconnection attempts reached. Client stopped.")));
                    out.push(MqttAction::Broadcast { enabled: true, status: String::from_str("error") });
                    out.push(MqttAction::Stop(Err(err)));
                } else {
                    let delay = reconnect_delay(n);
                    if n > 1 {
                        out.push(MqttAction::Broadcast { enabled: true, status: String::from_str("reconnecting") });
                    }
                    out.push(MqttAction::Sleep(delay));
                    out.push(MqttAction::Resubscribe);
                }
            },
            MqttEvent::Resubscribed(r) => {
                match r {
                    Ok(_) => {
                        out.push(MqttAction::Log(text_with("MQTT: Re-subscribed to ", self.topic.as_str())));
                        out.push(MqttAction::Broadcast { enabled: true, status: String::from_str("connecting") });
                    },
                    Err(err) => {
                        out.push(MqttAction::Log(text_with("MQTT Re-subscribe Error: ", err.as_str())));
                    },
                }
            },
        }
        assert(actions_view(out@) =~= step_actions(s0, e0));
        out
    }
}

/// The client retries after each of up to five consecutive connection
/// errors and stops at the sixth: an error ends the session exactly when it
/// exceeds the retries allowed, and otherwise the session keeps running.
pub proof fn session_stops_after_retries(s: MqttSession, err: String)
    requires
        running(s),
    ensures
        ({
            let acts = step_actions(s, MqttEvent::ConnectionError(err));
            &&& s.reconnect_attempts == MAX_RECONNECT_ATTEMPTS ==> acts.last() == ActionView::Stop(Some(err@))
            &&& s.reconnect_attempts < MAX_RECONNECT_ATTEMPTS ==> {
                &&& acts.last() == ActionView::Resubscribe
                &&& acts[acts.len() - 2] == ActionView::Sleep(backoff_secs((s.reconnect_attempts + 1) as nat) as u64)
                &&& running(MqttSession { reconnect_attempts: next_attempts(s, MqttEvent::ConnectionError(err)), ..s })
            }
        }),
{
}

/// Every event but a connection error beyond the retries keeps the session
/// running; a message or an acknowledged connection resets the error count.
pub proof fn session_keeps_running(s: MqttSession, e: MqttEvent)
    requires
        running(s),
        !(e is ConnectionError && s.reconnect_attempts == MAX_RECONNECT_ATTEMPTS),
    ensures
        next_attempts(s, e) <= MAX_RECONNECT_ATTEMPTS,
        (e is Publish || e is ConnAck) ==> next_attempts(s, e) == 0,
{
}

/// The session after an event, as `step` leaves it.
pub open spec fn after(s: MqttSession, e: MqttEvent) -> MqttSession {
    MqttSession { reconnect_attempts: next_attempts(s, e), last_handled: next_last_handled(s, e), ..s }
}

/// The session after `k` rounds of a connection error followed by a
/// successful re-subscription.
pub open spec fn failed_reconnects(s: MqttSession, err: String, k: nat) -> MqttSession
    decreases k,
{
    if k == 0 {
        s
    } else {
        let t = failed_reconnects(s, err, (k - 1) as nat);
        after(after(t, MqttEvent::ConnectionError(err)), MqttEvent::Resubscribed(Ok(())))
    }
}

/// The count of consecutive connection errors counts only connection
/// errors and is reset only by a message or an acknowledged connection: a
/// re-subscription, whether it succeeds or not, leaves it as it was, and so
/// does every other event.
pub proof fn only_messages_and_connack_reset_errors(s: MqttSession, e: MqttEvent)
    requires
        running(s),
    ensures
        e is ConnectionError ==> next_attempts(s, e) == s.reconnect_attempts + 1,
        (e is Publish || e is ConnAck) ==> next_attempts(s, e) == 0,
        !(e is ConnectionError || e is Publish || e is ConnAck) ==> next_attempts(s, e) == s.reconnect_attempts,
{
}

/// While the broker stays unreachable, each round of a connection error and
/// a re-subscription that the client accepts adds one to the error count,
/// logs the error with that count and waits the back-off for it; once the
/// retries are used up the next connection error stops the client with
/// status `error`.
pub proof fn unreachable_broker_stops_the_client(s: MqttSession, err: String, k: nat)
    requires
        s.reconnect_attempts + k <= MAX_RECONNECT_ATTEMPTS,
    ensures
        failed_reconnects(s, err, k).reconnect_attempts == s.reconnect_attempts + k,
        running(failed_reconnects(s, err, k)),
        s.reconnect_attempts + k < MAX_RECONNECT_ATTEMPTS ==> ({
            let n = s.reconnect_attempts + k + 1;
            let acts = step_actions(failed_reconnects(s, err, k), MqttEvent::ConnectionError(err));
            &&& acts[0] == ActionView::Log("MQTT Error ("@ + decimal(n as nat) + "): "@ + err@)
            &&& acts[1] == ActionView::Broadcast(true, if n == 1 { "disconnected"@ } else { "reconnecting"@ })
            &&& acts[acts.len() - 2] == ActionView::Sleep(backoff_secs(n as nat) as u64)
            &&& acts.last() == ActionView::Resubscribe
        }),
        s.reconnect_attempts + k == MAX_RECONNECT_ATTEMPTS ==> ({
            let acts = step_actions(failed_reconnects(s, err, k), MqttEvent::ConnectionError(err));
            &&& acts[acts.len() - 2] == ActionView::Broadcast(true, "error"@)
            &&& acts.last() == ActionView::Stop(Some(err@))
        }),
    decreases k,
{
    if k > 0 {
        unreachable_broker_stops_the_client(s, err, (k - 1) as nat);
    }
}

/// With a non-zero period, a message on the topic that arrives no later than
/// one period after the last one was dealt with is ignored.
pub proof fn messages_within_period_are_ignored(s: MqttSession, topic: String, payload: String, now: u128)
    requires
        s.period > 0,
        s.last_handled matches Some(t) && t <= now && now - t <= s.period,
    ensures
        step_actions(s, MqttEvent::Publish { topic, payload, now }) == Seq::<ActionView>::empty(),
{
}

/// With a period of 0 there is no throttling: every message on the topic is
/// logged and counted, and read as data unless it is blank.
pub proof fn period_zero_takes_every_message(s: MqttSession, topic: String, payload: String, now: u128)
    requires
        s.period == 0,
        topic@ == s.topic@,
    ensures
        ({
            let acts = step_actions(s, MqttEvent::Publish { topic, payload, now });
            &&& acts.len() >= 3
            &&& acts[0] == ActionView::LogTimestamp
            &&& acts[2] == ActionView::CountMessage
            &&& !is_blank(payload@) ==> acts.last() == ActionView::ParsePayload(payload@)
        }),
{
}

/// Seconds between two forwarded MQTT messages when the settings give none.
pub const DEFAULT_PERIOD_SECS: u64 = 10;

/// `url::ParseError`, why a text is not a URL.
#[verifier::external_type_specification]
#[verifier::external_body]
pub struct ExUrlParseError(url::ParseError);

/// The parts of a URL the client needs.
pub struct UrlParts {
    pub scheme: String,
    pub host: Option<String>,
    pub port: Option<u16>,
}

/// Whether `url::Url::parse` accepts the text.
pub uninterp spec fn url_parses(input: Seq<char>) -> bool;

/// The scheme `url::Url::scheme` gives for the URL parsed from the text.
pub uninterp spec fn url_scheme(input: Seq<char>) -> Seq<char>;

/// The host `url::Url::host_str` gives for the URL parsed from the text.
pub uninterp spec fn url_host(input: Seq<char>) -> Option<Seq<char>>;

/// The port `url::Url::port` gives for the URL parsed from the text.
pub uninterp spec fn url_port(input: Seq<char>) -> Option<u16>;

pub open spec fn opt_text(o: Option<String>) -> Option<Seq<char>> {
    match o {
        Some(s) => Some(s@),
        None => None,
    }
}

/// Parses a URL (`url::Url::parse`) and reads its scheme, host and port
/// (`Url::scheme`, `Url::host_str`, `Url::port`). The results are named, not
/// stated: they depend on the text alone.
#[verifier::external_body]
fn parse_url(input: &str) -> (r: Result<UrlParts, url::ParseError>)
    ensures
        r is Ok <==> url_parses(input@),
        r matches Ok(p) ==> p.scheme@ == url_scheme(input@) && opt_text(p.host) == url_host(input@)
            && p.port == url_port(input@),
{
    match url::Url::parse(input) {
        Ok(u) => Ok(UrlParts {
            scheme: u.scheme().to_string(),
            host: match u.host_str() {
                Some(h) => Some(h.to_string()),
                None => None,
            },
            port: u.port(),
        }),
        Err(e) => Err(e),
    }
}

/// The message of a URL error (its `Display` text). Nothing is claimed of it.
#[verifier::external_body]
fn url_error_text(e: &url::ParseError) -> String {
    e.to_string()
}

/// Where and how to reach the broker.
pub struct BrokerEndpoint {
    pub host: String,
    pub port: u16,
    /// Whether the connection uses TLS.
    pub tls: bool,
}

/// Whether a scheme asks for TLS.
pub open spec fn is_tls_scheme(scheme: Seq<char>) -> bool {
    scheme == "mqtts"@
}

/// The endpoint for the parts of a broker URL: its host (`localhost` when it
/// has none), its port (8883 for `mqtts`, 1883 otherwise, when it has none),
/// TLS for `mqtts`.
pub open spec fn endpoint_matches(e: BrokerEndpoint, scheme: Seq<char>, host: Option<Seq<char>>, port: Option<u16>) -> bool {
    &&& e.host@ == (match host { Some(h) => h, None => "localhost"@ })
    &&& e.port == (match port { Some(p) => p, None => if is_tls_scheme(scheme) { 8883u16 } else { 1883u16 } })
    &&& e.tls == is_tls_scheme(scheme)
}

/// The endpoint for the parts of a broker URL.
pub fn broker_endpoint(parts: &UrlParts) -> (e: BrokerEndpoint)
    ensures
        endpoint_matches(e, parts.scheme@, opt_text(parts.host), parts.port),
{
    let tls = parts.scheme == String::from_str("mqtts");
    let host = match &parts.host {
        Some(h) => h.clone(),
        None => String::from_str("localhost"),
    };
    let port = match parts.port {
        Some(p) => p,
        None => if tls { 8883 } else { 1883 },
    };
    BrokerEndpoint { host, port, tls }
}

/// How to connect to the broker.
pub struct ConnectPlan {
    /// `zbx-np-` and the configured client id.
    pub client_id: String,
    pub endpoint: BrokerEndpoint,
    /// Login and password, given only when the login is not empty.
    pub credentials: Option<(String, String)>,
    pub keep_alive_secs: u64,
    pub clean_session: bool,
    /// Largest incoming and outgoing packet, in bytes.
    pub max_packet_size: usize,
    /// A line for the activity log, when TLS is used.
    pub notice: Option<String>,
    /// How many requests to the client may wait before sending blocks.
    pub request_capacity: usize,
    /// The topic to subscribe to, and again after each reconnection.
    pub topic: String,
    /// The quality of service of the subscription.
    pub qos: QosLevel,
}

/// An MQTT quality-of-service level.
pub enum QosLevel {
    AtMostOnce,
    AtLeastOnce,
    ExactlyOnce,
}

/// Whether a plan follows the settings for the parts of the broker URL.
pub open spec fn plan_matches(p: ConnectPlan, scheme: Seq<char>, host: Option<Seq<char>>, port: Option<u16>,
    id: Seq<char>, login: Seq<char>, password: Seq<char>, topic: Seq<char>) -> bool {
    &&& p.client_id@ == "zbx-np-"@ + id
    &&& endpoint_matches(p.endpoint, scheme, host, port)
    &&& (p.credentials is Some <==> login.len() > 0)
    &&& (p.credentials matches Some(c) ==> c.0@ == login && c.1@ == password)
    &&& p.keep_alive_secs == 30
    &&& !p.clean_session
    &&& p.max_packet_size == 128 * 1024
    &&& (p.notice is Some <==> is_tls_scheme(scheme))
    &&& (p.notice matches Some(n) ==> n@ == "MQTT: Enabling TLS encryption with system CA certificates"@)
    &&& p.request_capacity == 10
    &&& p.topic@ == topic
    &&& p.qos is AtLeastOnce
}

/// The connection plan for the parts of a broker URL and the MQTT settings.
pub fn plan_for(parts: &UrlParts, id: &str, login: &str, password: &str, topic: &str) -> (p: ConnectPlan)
    ensures
        plan_matches(p, parts.scheme@, opt_text(parts.host), parts.port, id@, login@, password@, topic@),
{
    let endpoint = broker_endpoint(parts);
    let mut client_id = String::from_str("zbx-np-");
    client_id.append(id);
    let credentials = if login.is_empty() {
        None
    } else {
        Some((String::from_str(login), String::from_str(password)))
    };
    let notice = if endpoint.tls {
        Some(String::from_str("MQTT: Enabling TLS encryption with system CA certificates"))
    } else {
        None
    };
    ConnectPlan {
        client_id,
        endpoint,
        credentials,
        keep_alive_secs: 30,
        clean_session: false,
        max_packet_size: 128 * 1024,
        notice,
        request_capacity: 10,
        topic: String::from_str(topic),
        qos: QosLevel::AtLeastOnce,
    }
}

/// Plans the connection to the broker at `url`; fails with the URL error's
/// message when the URL does not parse.
pub fn connection_plan(url: &str, id: &str, login: &str, password: &str, topic: &str) -> (r: Result<ConnectPlan, String>)
    ensures
        r is Ok <==> url_parses(url@),
        r matches Ok(p) ==> plan_matches(p, url_scheme(url@), url_host(url@), url_port(url@), id@, login@, password@,
            topic@),
{
    match parse_url(url) {
        Ok(parts) => Ok(plan_for(&parts, id, login, password, topic)),
        Err(e) => Err(url_error_text(&e)),
    }
}

/// What the session announces before connecting.
pub fn connect_announcement(host: &str) -> (actions: Vec<MqttAction>)
    ensures
        actions_view(actions@) == seq![
            ActionView::Log("MQTT: Connecting to "@ + host@),
            ActionView::Broadcast(true, "connecting"@),
        ],
{
    let mut out: Vec<MqttAction> = Vec::new();
    out.push(MqttAction::Log(text_with("MQTT: Connecting to ", host)));
    out.push(MqttAction::Broadcast { enabled: true, status: String::from_str("connecting") });
    assert(actions_view(out@) =~= seq![
        ActionView::Log("MQTT: Connecting to "@ + host@),
        ActionView::Broadcast(true, "connecting"@),
    ]);
    out
}

/// A step of restarting the MQTT client after its settings changed.
pub enum ServiceStep {
    /// Signal the running client, if any, to stop.
    StopClient,
    /// Record and announce a connection status.
    Broadcast { enabled: bool, status: String },
    /// Wait this many milliseconds.
    PauseMillis(u64),
    /// Start a new client.
    StartClient,
    /// Add a line to the activity log.
    Log(String),
}

pub enum StepView {
    StopClient,
    Broadcast(bool, Seq<char>),
    PauseMillis(u64),
    StartClient,
    Log(Seq<char>),
}

pub open spec fn step_view(s: ServiceStep) -> StepView {
    match s {
        ServiceStep::StopClient => StepView::StopClient,
        ServiceStep::Broadcast { enabled, status } => StepView::Broadcast(enabled, status@),
        ServiceStep::PauseMillis(m) => StepView::PauseMillis(m),
        ServiceStep::StartClient => StepView::StartClient,
        ServiceStep::Log(t) => StepView::Log(t@),
    }
}

/// The steps of restarting the client: stop it, announce `stopping` (or
/// `disabled`), wait half a second, then start it again and announce
/// `starting` when it is enabled.
pub open spec fn restart_steps(enabled: bool) -> Seq<StepView> {
    if enabled {
        seq![
            StepView::StopClient,
            StepView::Broadcast(true, "stopping"@),
            StepView::PauseMillis(500),
            StepView::Broadcast(true, "starting"@),
            StepView::StartClient,
            StepView::Log("MQTT: Service restarted"@),
        ]
    } else {
        seq![
            StepView::StopClient,
            StepView::Broadcast(false, "disabled"@),
            StepView::PauseMillis(500),
            StepView::Log("MQTT: Service disabled"@),
        ]
    }
}

/// A restart of the MQTT client: the broker URL and topic the statuses are
/// announced for, and the steps.
pub struct RestartPlan {
    pub url: String,
    pub topic: String,
    pub steps: Vec<ServiceStep>,
}

/// Plans the restart of the MQTT client after its settings changed, from
/// the stored settings; fails when they could not be read.
pub fn restart_mqtt_service(enabled: bool, settings: Option<&StoredSettings>) -> (r: Result<RestartPlan, String>)
    ensures
        settings is None ==> (r matches Err(e) && e@ == "Failed to read config"@),
        settings matches Some(s) ==> (r matches Ok(p)
            && p.url@ == text_or_empty(s.mqtt_url)
            && p.topic@ == text_or_empty(s.mqtt_topic)
            && p.steps@.map_values(|st: ServiceStep| step_view(st)) == restart_steps(enabled)),
{
    match settings {
        None => Err(String::from_str("Failed to read config")),
        Some(s) => Ok(RestartPlan {
            url: setting_text(&s.mqtt_url),
            topic: setting_text(&s.mqtt_topic),
            steps: restart_steps_for(enabled),
        }),
    }
}

fn setting_text(o: &Option<String>) -> (t: String)
    ensures
        t@ == text_or_empty(*o),
{
    match o {
        Some(t) => t.clone(),
        None => String::new(),
    }
}

fn restart_steps_for(enabled: bool) -> (steps: Vec<ServiceStep>)
    ensures
        steps@.map_values(|s: ServiceStep| step_view(s)) == restart_steps(enabled),
{
    let mut steps: Vec<ServiceStep> = Vec::new();
    steps.push(ServiceStep::StopClient);
    if enabled {
        steps.push(ServiceStep::Broadcast { enabled: true, status: String::from_str("stopping") });
    } else {
        steps.push(ServiceStep::Broadcast { enabled: false, status: String::from_str("disabled") });
    }
    steps.push(ServiceStep::PauseMillis(500));
    if enabled {
        steps.push(ServiceStep::Broadcast { enabled: true, status: String::from_str("starting") });
        steps.push(ServiceStep::StartClient);
        steps.push(ServiceStep::Log(String::from_str("MQTT: Service restarted")));
    } else {
        steps.push(ServiceStep::Log(String::from_str("MQTT: Service disabled")));
    }
    assert(steps@.map_values(|s: ServiceStep| step_view(s)) =~= restart_steps(enabled));
    steps
}

} // verus!
