//! The records the relay keeps: counters, settings, users, API tokens and
//! the login exchange.
use vstd::prelude::*;
use std::sync::{Arc, Mutex};

verus! {

/// `std::sync::Mutex`, which guards the counters shared between request
/// handlers. Nothing in the library looks inside it.
#[verifier::external_type_specification]
#[verifier::external_body]
#[verifier::reject_recursive_types(T)]
pub struct ExMutex<T: ?Sized>(Mutex<T>);

/// Activity counters.
pub struct Stats {
    pub total_requests: i64,
    pub successful_requests: i64,
    pub failed_requests: i64,
    pub mqtt_messages: i64,
    pub zabbix_sends: i64,
    pub connected_clients: i32,
    pub uptime: String,
}

impl Default for Stats {
    /// All counters zero, uptime `0s`.
    fn default() -> (s: Self)
        ensures
            s.total_requests == 0,
            s.successful_requests == 0,
            s.failed_requests == 0,
            s.mqtt_messages == 0,
            s.zabbix_sends == 0,
            s.connected_clients == 0,
            s.uptime@ == "0s"@,
    {
        Stats {
            total_requests: 0,
            successful_requests: 0,
            failed_requests: 0,
            mqtt_messages: 0,
            zabbix_sends: 0,
            connected_clients: 0,
            uptime: String::from_str("0s"),
        }
    }
}

impl Stats {
    /// Counts a received MQTT message.
    pub fn count_mqtt_message(&mut self)
        requires
            old(self).mqtt_messages < i64::MAX,
        ensures
            final(self).mqtt_messages == old(self).mqtt_messages + 1,
            final(self).total_requests == old(self).total_requests,
            final(self).successful_requests == old(self).successful_requests,
            final(self).failed_requests == old(self).failed_requests,
            final(self).zabbix_sends == old(self).zabbix_sends,
            final(self).connected_clients == old(self).connected_clients,
            final(self).uptime == old(self).uptime,
    {
        self.mqtt_messages = self.mqtt_messages + 1;
    }

    /// Counts data forwarded to Zabbix: one more send, one more success.
    pub fn count_zabbix_success(&mut self)
        requires
            old(self).zabbix_sends < i64::MAX,
            old(self).successful_requests < i64::MAX,
        ensures
            final(self).zabbix_sends == old(self).zabbix_sends + 1,
            final(self).successful_requests == old(self).successful_requests + 1,
            final(self).total_requests == old(self).total_requests,
            final(self).failed_requests == old(self).failed_requests,
            final(self).mqtt_messages == old(self).mqtt_messages,
            final(self).connected_clients == old(self).connected_clients,
            final(self).uptime == old(self).uptime,
    {
        self.zabbix_sends = self.zabbix_sends + 1;
        self.successful_requests = self.successful_requests + 1;
    }

    /// Counts data that could not be forwarded to Zabbix.
    pub fn count_failed_request(&mut self)
        requires
            old(self).failed_requests < i64::MAX,
        ensures
            final(self).failed_requests == old(self).failed_requests + 1,
            final(self).total_requests == old(self).total_requests,
            final(self).successful_requests == old(self).successful_requests,
            final(self).zabbix_sends == old(self).zabbix_sends,
            final(self).mqtt_messages == old(self).mqtt_messages,
            final(self).connected_clients == old(self).connected_clients,
            final(self).uptime == old(self).uptime,
    {
        self.failed_requests = self.failed_requests + 1;
    }
}

/// The settings shown and edited through the API.
pub struct Config {
    pub http: HttpConfig,
    pub mqtt: MqttConfig,
}

pub struct HttpConfig {
    pub port: u64,
}

pub struct MqttConfig {
    pub enabled: bool,
    pub url: String,
    pub id: String,
    pub login: String,
    pub password: String,
    pub period: u64,
    pub topic: String,
}

/// A user account of the web interface.
pub struct User {
    pub id: u64,
    pub username: String,
    pub password: String,
    pub created_at: String,
}

/// An API token.
pub struct Token {
    pub id: u64,
    pub name: String,
    pub token: String,
    pub created_at: String,
    pub expires_at: Option<String>,
    pub is_active: bool,
}

pub struct LoginRequest {
    pub username: String,
    pub password: String,
}

pub struct LoginResponse {
    pub success: bool,
    pub message: String,
}

/// State shared by the request handlers.
#[derive(Clone)]
pub struct AppState {
    pub stats: Arc<Mutex<Stats>>,
}

} // verus!
