//! The settings kept in the configuration file: what the API shows of them,
//! how an update is merged into them, and the checks made on them.
use vstd::prelude::*;
use vstd::string::StringExecFns;
use crate::auth::{Config, HttpConfig, MqttConfig};

verus! {

/// The settings as found in the configuration file. A field is `None` when
/// it is missing or does not have the expected JSON type.
pub struct StoredSettings {
    pub http_port: Option<u64>,
    pub http_login: Option<String>,
    pub http_password: Option<String>,
    pub mqtt_enabled: Option<bool>,
    pub mqtt_url: Option<String>,
    pub mqtt_id: Option<String>,
    pub mqtt_login: Option<String>,
    pub mqtt_password: Option<String>,
    pub mqtt_period: Option<u64>,
    pub mqtt_topic: Option<String>,
}

/// HTTP port used when the configuration gives none.
pub const DEFAULT_HTTP_PORT: u64 = 7000;

/// The text of an optional string setting, empty when it is absent.
pub open spec fn text_or_empty(o: Option<String>) -> Seq<char> {
    match o {
        Some(s) => s@,
        None => seq![],
    }
}

pub open spec fn u64_or(o: Option<u64>, d: u64) -> u64 {
    match o {
        Some(v) => v,
        None => d,
    }
}

pub open spec fn bool_or_false(o: Option<bool>) -> bool {
    match o {
        Some(b) => b,
        None => false,
    }
}

/// The text that stands for a password the API does not show.
pub open spec fn masked_password() -> Seq<char> {
    "***"@
}

fn text_of(o: &Option<String>) -> (s: String)
    ensures
        s@ == text_or_empty(*o),
{
    match o {
        Some(s) => s.clone(),
        None => String::new(),
    }
}

/// The HTTP port the server listens on.
pub fn http_port(settings: &StoredSettings) -> (port: u64)
    ensures
        port == u64_or(settings.http_port, DEFAULT_HTTP_PORT),
{
    match settings.http_port {
        Some(p) => p,
        None => DEFAULT_HTTP_PORT,
    }
}

/// Whether `c` is the settings `s` as the API shows them.
pub open spec fn is_shown_config(s: StoredSettings, c: Config) -> bool {
    &&& c.http.port == u64_or(s.http_port, DEFAULT_HTTP_PORT)
    &&& c.mqtt.enabled == bool_or_false(s.mqtt_enabled)
    &&& c.mqtt.url@ == text_or_empty(s.mqtt_url)
    &&& c.mqtt.id@ == text_or_empty(s.mqtt_id)
    &&& c.mqtt.login@ == text_or_empty(s.mqtt_login)
    &&& c.mqtt.password@ == masked_password()
    &&& c.mqtt.period == u64_or(s.mqtt_period, 0)
    &&& c.mqtt.topic@ == text_or_empty(s.mqtt_topic)
}

/// The settings as the API shows them: missing values replaced by defaults
/// (port 7000, disabled, empty texts, period 0) and the MQTT password masked.
pub fn get_config(settings: &StoredSettings) -> (c: Config)
    ensures
        is_shown_config(*settings, c),
{
    Config {
        http: HttpConfig { port: http_port(settings) },
        mqtt: MqttConfig {
            enabled: match settings.mqtt_enabled {
                Some(b) => b,
                None => false,
            },
            url: text_of(&settings.mqtt_url),
            id: text_of(&settings.mqtt_id),
            login: text_of(&settings.mqtt_login),
            password: String::from_str("***"),
            period: match settings.mqtt_period {
                Some(p) => p,
                None => 0,
            },
            topic: text_of(&settings.mqtt_topic),
        },
    }
}

/// Whether an update changes the MQTT connection: the switch, broker URL,
/// topic, client id or login differ from what is stored, or a password other
/// than the mask is given that differs from the stored one. Port and period
/// do not count.
pub open spec fn mqtt_settings_changed(existing: StoredSettings, data: Config) -> bool {
    ||| bool_or_false(existing.mqtt_enabled) != data.mqtt.enabled
    ||| text_or_empty(existing.mqtt_url) != data.mqtt.url@
    ||| text_or_empty(existing.mqtt_topic) != data.mqtt.topic@
    ||| text_or_empty(existing.mqtt_id) != data.mqtt.id@
    ||| text_or_empty(existing.mqtt_login) != data.mqtt.login@
    ||| (data.mqtt.password@ != masked_password()
        && text_or_empty(existing.mqtt_password) != data.mqtt.password@)
}

/// The settings after an update has been merged in.
pub open spec fn merged(existing: StoredSettings, data: Config) -> StoredSettings {
    StoredSettings {
        http_port: Some(data.http.port),
        http_login: existing.http_login,
        http_password: existing.http_password,
        mqtt_enabled: Some(data.mqtt.enabled),
        mqtt_url: Some(data.mqtt.url),
        mqtt_id: Some(data.mqtt.id),
        mqtt_login: Some(data.mqtt.login),
        mqtt_password: if data.mqtt.password@ == masked_password() {
            existing.mqtt_password
        } else {
            Some(data.mqtt.password)
        },
        mqtt_period: Some(data.mqtt.period),
        mqtt_topic: Some(data.mqtt.topic),
    }
}

/// How an update is merged into the stored settings. The port, MQTT switch,
/// URL, client id, login, period and topic of the update are written as
/// given; the password only when it is not the mask.
pub struct ConfigUpdate {
    /// Whether the MQTT client is to be restarted.
    pub mqtt_changed: bool,
    /// The password to store, if any.
    pub new_password: Option<String>,
    /// The settings to store.
    pub settings: StoredSettings,
}

/// Decides how an update is merged into the stored settings.
pub fn update_config(existing: &StoredSettings, data: &Config) -> (u: ConfigUpdate)
    ensures
        u.mqtt_changed == mqtt_settings_changed(*existing, *data),
        u.new_password is Some <==> data.mqtt.password@ != masked_password(),
        u.new_password matches Some(p) ==> p@ == data.mqtt.password@,
        u.settings == merged(*existing, *data),
{
    let mask = String::from_str("***");
    let keeps_password = data.mqtt.password == mask;
    let enabled = match existing.mqtt_enabled {
        Some(b) => b,
        None => false,
    };
    let changed = enabled != data.mqtt.enabled
        || text_of(&existing.mqtt_url) != data.mqtt.url
        || text_of(&existing.mqtt_topic) != data.mqtt.topic
        || text_of(&existing.mqtt_id) != data.mqtt.id
        || text_of(&existing.mqtt_login) != data.mqtt.login
        || (!keeps_password && text_of(&existing.mqtt_password) != data.mqtt.password);
    let settings = StoredSettings {
        http_port: Some(data.http.port),
        http_login: copy_text(&existing.http_login),
        http_password: copy_text(&existing.http_password),
        mqtt_enabled: Some(data.mqtt.enabled),
        mqtt_url: Some(data.mqtt.url.clone()),
        mqtt_id: Some(data.mqtt.id.clone()),
        mqtt_login: Some(data.mqtt.login.clone()),
        mqtt_password: if keeps_password { copy_text(&existing.mqtt_password) } else { Some(data.mqtt.password.clone()) },
        mqtt_period: Some(data.mqtt.period),
        mqtt_topic: Some(data.mqtt.topic.clone()),
    };
    ConfigUpdate {
        mqtt_changed: changed,
        new_password: if keeps_password { None } else { Some(data.mqtt.password.clone()) },
        settings,
    }
}

fn copy_text(o: &Option<String>) -> (c: Option<String>)
    ensures
        c == *o,
{
    match o {
        Some(s) => Some(s.clone()),
        None => None,
    }
}

/// Saving what the API shows back unchanged changes nothing in the MQTT
/// connection and keeps every setting as it was: the port, the switch, the
/// broker URL, client id, login, topic and period read back the same, the
/// web login is untouched, and the mask keeps the stored password.
pub proof fn resaving_shown_config_is_no_change(existing: StoredSettings, shown: Config)
    requires
        is_shown_config(existing, shown),
    ensures
        !mqtt_settings_changed(existing, shown),
        ({
            let m = merged(existing, shown);
            &&& u64_or(m.http_port, DEFAULT_HTTP_PORT) == u64_or(existing.http_port, DEFAULT_HTTP_PORT)
            &&& bool_or_false(m.mqtt_enabled) == bool_or_false(existing.mqtt_enabled)
            &&& text_or_empty(m.mqtt_url) == text_or_empty(existing.mqtt_url)
            &&& text_or_empty(m.mqtt_id) == text_or_empty(existing.mqtt_id)
            &&& text_or_empty(m.mqtt_login) == text_or_empty(existing.mqtt_login)
            &&& text_or_empty(m.mqtt_topic) == text_or_empty(existing.mqtt_topic)
            &&& u64_or(m.mqtt_period, 0) == u64_or(existing.mqtt_period, 0)
            &&& m.mqtt_password == existing.mqtt_password
            &&& m.http_login == existing.http_login
            &&& m.http_password == existing.http_password
        }),
{
}

/// After an update, the API shows exactly what was submitted: the port, the
/// switch, the broker URL, client id, login, period and topic read back as
/// given, the password masked. The stored password is the submitted one
/// unless the mask was submitted, and the web login is untouched.
pub proof fn update_shows_what_was_submitted(existing: StoredSettings, data: Config, shown: Config)
    requires
        is_shown_config(merged(existing, data), shown),
    ensures
        shown.http.port == data.http.port,
        shown.mqtt.enabled == data.mqtt.enabled,
        shown.mqtt.url@ == data.mqtt.url@,
        shown.mqtt.id@ == data.mqtt.id@,
        shown.mqtt.login@ == data.mqtt.login@,
        shown.mqtt.period == data.mqtt.period,
        shown.mqtt.topic@ == data.mqtt.topic@,
        shown.mqtt.password@ == "***"@,
        data.mqtt.password@ != "***"@ ==> merged(existing, data).mqtt_password == Some(data.mqtt.password),
        data.mqtt.password@ == "***"@ ==> merged(existing, data).mqtt_password == existing.mqtt_password,
        merged(existing, data).http_login == existing.http_login,
        merged(existing, data).http_password == existing.http_password,
{
}

/// The reply to a saved update.
pub struct UpdateReply {
    pub message: String,
    /// Whether the MQTT client was to be restarted and could not be.
    pub mqtt_restart_error: bool,
}

/// The reply once an update is saved: whether the MQTT client was restarted,
/// and the reason when restarting it failed.
pub fn update_reply(mqtt_changed: bool, restart_error: Option<String>) -> (r: UpdateReply)
    ensures
        !mqtt_changed ==> r.message@ == "Configuration updated successfully."@ && !r.mqtt_restart_error,
        mqtt_changed && restart_error is None ==> !r.mqtt_restart_error
            && r.message@ == "Configuration updated and MQTT service restarted successfully."@,
        mqtt_changed && restart_error is Some ==> r.mqtt_restart_error
            && r.message@ == "Configuration saved, but MQTT restart failed: "@ + restart_error->0@,
{
    if !mqtt_changed {
        return UpdateReply {
            message: String::from_str("Configuration updated successfully."),
            mqtt_restart_error: false,
        };
    }
    match restart_error {
        None => UpdateReply {
            message: String::from_str("Configuration updated and MQTT service restarted successfully."),
            mqtt_restart_error: false,
        },
        Some(e) => {
            let mut m = String::from_str("Configuration saved, but MQTT restart failed: ");
            m.append(e.as_str());
            UpdateReply { message: m, mqtt_restart_error: true }
        },
    }
}

/// One line of a settings check.
pub struct ServiceCheck {
    pub service: String,
    pub status: String,
    pub message: String,
}

/// The report of a settings check.
pub struct TestReport {
    pub results: Vec<ServiceCheck>,
    pub overall_status: String,
}

/// Checks settings before they are saved: an enabled MQTT client with a
/// broker URL is reported as valid; nothing else is checked.
pub fn test_config(data: &Config) -> (r: TestReport)
    ensures
        r.overall_status@ == "success"@,
        (data.mqtt.enabled && data.mqtt.url@.len() > 0) ==> r.results@.len() == 1
            && r.results@[0].service@ == "MQTT"@
            && r.results@[0].status@ == "success"@
            && r.results@[0].message@ == "Configuration appears valid"@,
        !(data.mqtt.enabled && data.mqtt.url@.len() > 0) ==> r.results@.len() == 0,
{
    let mut results: Vec<ServiceCheck> = Vec::new();
    if data.mqtt.enabled && !data.mqtt.url.as_str().is_empty() {
        results.push(ServiceCheck {
            service: String::from_str("MQTT"),
            status: String::from_str("success"),
            message: String::from_str("Configuration appears valid"),
        });
    }
    TestReport { results, overall_status: String::from_str("success") }
}

/// Whether basic-auth credentials match the login and password of the
/// settings; the data endpoints accept a request only then.
pub fn validator(settings_login: &str, settings_passw: &str, user_id: &str, password: &str) -> (ok: bool)
    ensures
        ok == (user_id@ == settings_login@ && password@ == settings_passw@),
{
    let a = String::from_str(user_id);
    let b = String::from_str(settings_login);
    let c = String::from_str(password);
    let d = String::from_str(settings_passw);
    a == b && c == d
}

/// The settings of a new configuration: port 7000, web login `admin` with
/// password `admin`, MQTT disabled with empty texts and period 0.
pub fn default_settings() -> (s: StoredSettings)
    ensures
        s.http_port == Some(DEFAULT_HTTP_PORT),
        s.http_login matches Some(l) && l@ == "admin"@,
        s.http_password matches Some(p) && p@ == "admin"@,
        s.mqtt_enabled == Some(false),
        s.mqtt_url matches Some(t) && t@ == Seq::<char>::empty(),
        s.mqtt_id matches Some(t) && t@ == Seq::<char>::empty(),
        s.mqtt_login matches Some(t) && t@ == Seq::<char>::empty(),
        s.mqtt_password matches Some(t) && t@ == Seq::<char>::empty(),
        s.mqtt_period == Some(0u64),
        s.mqtt_topic matches Some(t) && t@ == Seq::<char>::empty(),
{
    StoredSettings {
        http_port: Some(DEFAULT_HTTP_PORT),
        http_login: Some(String::from_str("admin")),
        http_password: Some(String::from_str("admin")),
        mqtt_enabled: Some(false),
        mqtt_url: Some(String::new()),
        mqtt_id: Some(String::new()),
        mqtt_login: Some(String::new()),
        mqtt_password: Some(String::new()),
        mqtt_period: Some(0),
        mqtt_topic: Some(String::new()),
    }
}

} // verus!
