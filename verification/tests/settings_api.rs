use zbx_np::auth::{Config, HttpConfig, MqttConfig, Stats};
use zbx_np::settings::{
    default_settings, get_config, http_port, test_config, update_config, update_reply, validator,
    StoredSettings,
};

fn stored() -> StoredSettings {
    StoredSettings {
        http_port: Some(8080),
        http_login: Some("admin".to_string()),
        http_password: Some("pw".to_string()),
        mqtt_enabled: Some(true),
        mqtt_url: Some("mqtts://b:8883".to_string()),
        mqtt_id: Some("id1".to_string()),
        mqtt_login: Some("user".to_string()),
        mqtt_password: Some("secret".to_string()),
        mqtt_period: Some(5),
        mqtt_topic: Some("zabbix/t".to_string()),
    }
}

fn config(enabled: bool, url: &str, password: &str) -> Config {
    Config {
        http: HttpConfig { port: 9000 },
        mqtt: MqttConfig {
            enabled,
            url: url.to_string(),
            id: "id1".to_string(),
            login: "user".to_string(),
            password: password.to_string(),
            period: 60,
            topic: "zabbix/t".to_string(),
        },
    }
}

#[test]
fn shown_config_masks_password_and_defaults() {
    let c = get_config(&stored());
    assert_eq!(c.http.port, 8080);
    assert_eq!(c.mqtt.password, "***");
    assert_eq!(c.mqtt.url, "mqtts://b:8883");
    let empty = StoredSettings {
        http_port: None, http_login: None, http_password: None, mqtt_enabled: None, mqtt_url: None,
        mqtt_id: None, mqtt_login: None, mqtt_password: None, mqtt_period: None, mqtt_topic: None,
    };
    let c = get_config(&empty);
    assert_eq!((c.http.port, c.mqtt.enabled, c.mqtt.period), (7000, false, 0));
    assert_eq!(c.mqtt.topic, "");
    assert_eq!(http_port(&empty), 7000);
}

#[test]
fn update_detects_mqtt_changes() {
    let u = update_config(&stored(), &config(true, "mqtts://b:8883", "***"));
    assert!(!u.mqtt_changed);
    assert!(u.new_password.is_none());
    let u = update_config(&stored(), &config(true, "mqtts://b:8883", "secret"));
    assert!(!u.mqtt_changed);
    assert_eq!(u.new_password.as_deref(), Some("secret"));
    assert!(update_config(&stored(), &config(true, "mqtts://b:8883", "other")).mqtt_changed);
    assert!(update_config(&stored(), &config(false, "mqtts://b:8883", "***")).mqtt_changed);
    assert!(update_config(&stored(), &config(true, "mqtt://c", "***")).mqtt_changed);
    let shown = get_config(&stored());
    assert!(!update_config(&stored(), &shown).mqtt_changed);
}

#[test]
fn update_merges_settings() {
    let u = update_config(&stored(), &config(false, "mqtt://c", "***"));
    let m = &u.settings;
    assert_eq!(m.http_port, Some(9000));
    assert_eq!(m.http_login.as_deref(), Some("admin"));
    assert_eq!(m.http_password.as_deref(), Some("pw"));
    assert_eq!(m.mqtt_enabled, Some(false));
    assert_eq!(m.mqtt_url.as_deref(), Some("mqtt://c"));
    assert_eq!(m.mqtt_password.as_deref(), Some("secret"));
    let u = update_config(&stored(), &config(true, "mqtt://c", "fresh"));
    assert_eq!(u.settings.mqtt_password.as_deref(), Some("fresh"));
}

#[test]
fn update_replies() {
    assert_eq!(update_reply(false, None).message, "Configuration updated successfully.");
    assert_eq!(update_reply(true, None).message, "Configuration updated and MQTT service restarted successfully.");
    let r = update_reply(true, Some("Failed to read config".to_string()));
    assert!(r.mqtt_restart_error);
    assert_eq!(r.message, "Configuration saved, but MQTT restart failed: Failed to read config");
}

#[test]
fn settings_check() {
    let r = test_config(&config(true, "mqtt://x", "p"));
    assert_eq!(r.results.len(), 1);
    assert_eq!(r.results[0].message, "Configuration appears valid");
    assert_eq!(test_config(&config(true, "", "p")).results.len(), 0);
    assert_eq!(test_config(&config(false, "mqtt://x", "p")).results.len(), 0);
    assert_eq!(r.overall_status, "success");
}

#[test]
fn basic_auth() {
    assert!(validator("admin", "admin", "admin", "admin"));
    assert!(!validator("admin", "admin", "admin", "x"));
    assert!(!validator("admin", "admin", "root", "admin"));
}

#[test]
fn defaults() {
    let d = default_settings();
    assert_eq!(d.http_port, Some(7000));
    assert_eq!(d.http_login.as_deref(), Some("admin"));
    assert_eq!(d.mqtt_enabled, Some(false));
    let s = Stats::default();
    assert_eq!(s.uptime, "0s");
    assert_eq!(s.mqtt_messages, 0);
}

#[test]
fn counters() {
    let mut s = Stats::default();
    s.count_mqtt_message();
    s.count_zabbix_success();
    s.count_failed_request();
    assert_eq!((s.mqtt_messages, s.zabbix_sends, s.successful_requests, s.failed_requests), (1, 1, 1, 1));
}
