use zbx_np::settings::default_settings;
use zbx_np::mqtt::QosLevel;
use zbx_np::mqtt::{
    connect_announcement, connection_plan, reconnect_delay, restart_mqtt_service, MqttAction,
    MqttEvent, MqttSession, MqttState, ServiceStep,
};
use zbx_np::zabbix::{Data, Item, ItemValue};

fn session() -> MqttSession {
    MqttSession::new("mqtt://b".to_string(), "zabbix/t".to_string(), 10)
}

fn logs(actions: &[MqttAction]) -> Vec<String> {
    actions.iter().filter_map(|a| match a { MqttAction::Log(t) => Some(t.clone()), _ => None }).collect()
}

fn statuses(actions: &[MqttAction]) -> Vec<(bool, String)> {
    actions.iter().filter_map(|a| match a {
        MqttAction::Broadcast { enabled, status } => Some((*enabled, status.clone())),
        _ => None,
    }).collect()
}

const SEC: u128 = 1_000_000_000;

#[test]
fn backoff_delays() {
    assert_eq!((1..=5).map(reconnect_delay).collect::<Vec<_>>(), vec![5, 10, 20, 40, 60]);
}

#[test]
fn retries_then_stops() {
    let mut s = session();
    let mut sleeps = vec![];
    for n in 1..=5u32 {
        let a = s.step(MqttEvent::ConnectionError("refused".to_string()));
        assert_eq!(logs(&a)[0], format!("MQTT Error ({}): refused", n));
        assert_eq!(statuses(&a)[0].1, if n == 1 { "disconnected" } else { "reconnecting" });
        assert!(matches!(a.last(), Some(MqttAction::Resubscribe)));
        for x in &a {
            if let MqttAction::Sleep(d) = x { sleeps.push(*d); }
        }
    }
    assert_eq!(sleeps, vec![5, 10, 20, 40, 60]);
    let a = s.step(MqttEvent::ConnectionError("refused".to_string()));
    assert_eq!(logs(&a), vec!["MQTT Error (6): refused".to_string(),
        "MQTT: Max reconnection attempts reached. Client stopped.".to_string()]);
    assert_eq!(statuses(&a).last().unwrap().1, "error");
    assert!(matches!(a.last(), Some(MqttAction::Stop(Err(e))) if e == "refused"));
}

#[test]
fn connack_resets_errors() {
    let mut s = session();
    s.step(MqttEvent::ConnectionError("x".to_string()));
    s.step(MqttEvent::ConnectionError("x".to_string()));
    let a = s.step(MqttEvent::ConnAck);
    assert_eq!(statuses(&a), vec![(true, "running".to_string())]);
    assert_eq!(s.reconnect_attempts, 0);
    let a = s.step(MqttEvent::Resubscribed(Ok(())));
    assert_eq!(logs(&a), vec!["MQTT: Re-subscribed to zabbix/t".to_string()]);
    assert_eq!(statuses(&a), vec![(true, "connecting".to_string())]);
}

fn data() -> Data {
    Data {
        zabbix_server: "1.2.3.4:10051".to_string(),
        item_host_name: "h".to_string(),
        item: vec![Item { key: "k".to_string(), value: ItemValue::Integer(1) }],
    }
}

#[test]
fn messages_are_throttled_and_forwarded() {
    let mut s = session();
    let a = s.step(MqttEvent::Publish { topic: "other".to_string(), payload: "{}".to_string(), now: 0 });
    assert!(a.is_empty());
    let a = s.step(MqttEvent::Publish { topic: "zabbix/t".to_string(), payload: "{\"x\":1}".to_string(), now: SEC });
    assert!(matches!(a[0], MqttAction::Timestamp(_)));
    assert_eq!(logs(&a), vec!["MQTT: {\"x\":1}".to_string()]);
    assert!(matches!(a[2], MqttAction::CountMessage));
    assert!(matches!(&a[3], MqttAction::ParsePayload(p) if p == "{\"x\":1}"));
    let a = s.step(MqttEvent::Parsed { parsed: Ok(data()), now: 2 * SEC });
    assert!(matches!(&a[..], [MqttAction::Forward(_)]));
    let a = s.step(MqttEvent::Forwarded { reply: Ok("\\u0041".to_string()), now: 3 * SEC });
    assert_eq!(logs(&a), vec!["Zabbix: A".to_string()]);
    assert!(matches!(a[1], MqttAction::CountSuccess));
    assert_eq!(s.last_handled, Some(3 * SEC));
    let a = s.step(MqttEvent::Publish { topic: "zabbix/t".to_string(), payload: "{}".to_string(), now: 13 * SEC });
    assert!(a.is_empty());
    let a = s.step(MqttEvent::Publish { topic: "zabbix/t".to_string(), payload: " ".to_string(), now: 13 * SEC + 1 });
    assert_eq!(a.len(), 3);
    assert_eq!(s.last_handled, Some(3 * SEC));
}

#[test]
fn bad_payloads_are_reported() {
    let mut s = session();
    let a = s.step(MqttEvent::Parsed { parsed: Err("expected value".to_string()), now: 5 });
    assert_eq!(logs(&a), vec!["Parse Error: expected value".to_string()]);
    assert_eq!(s.last_handled, Some(5));
    let mut d = data();
    d.item.clear();
    let a = s.step(MqttEvent::Parsed { parsed: Ok(d), now: 9 });
    assert_eq!(logs(&a), vec!["MQTT Error: No items in payload".to_string()]);
    assert_eq!(s.last_handled, Some(5));
    let a = s.step(MqttEvent::Forwarded { reply: Err("timed out".to_string()), now: 7 });
    assert_eq!(logs(&a), vec!["Zabbix Error: timed out".to_string()]);
    assert!(matches!(a[1], MqttAction::CountFailure));
}

#[test]
fn subscription_and_shutdown() {
    let mut s = session();
    let a = s.step(MqttEvent::Subscribed(Ok(())));
    assert_eq!(logs(&a), vec!["MQTT: Subscribed to topic zabbix/t".to_string(),
        "MQTT: Waiting for connection acknowledgment".to_string()]);
    let a = s.step(MqttEvent::Subscribed(Err("denied".to_string())));
    assert_eq!(statuses(&a), vec![(true, "error".to_string())]);
    let a = s.step(MqttEvent::Shutdown);
    assert_eq!(statuses(&a), vec![(false, "stopped".to_string())]);
    assert!(matches!(a.last(), Some(MqttAction::Stop(Ok(())))));
    let a = s.step(MqttEvent::Disconnect);
    assert_eq!(statuses(&a), vec![(true, "disconnected".to_string())]);
    assert!(s.step(MqttEvent::Other).is_empty());
}

#[test]
fn connection_plans() {
    let p = connection_plan("mqtts://broker.example.com:8884", "dev", "user", "pw", "zabbix/t").unwrap();
    assert_eq!(p.client_id, "zbx-np-dev");
    assert_eq!((p.endpoint.host.as_str(), p.endpoint.port, p.endpoint.tls), ("broker.example.com", 8884, true));
    assert_eq!(p.credentials, Some(("user".to_string(), "pw".to_string())));
    assert!(p.notice.is_some());
    let p = connection_plan("mqtts://broker.example.com", "dev", "", "", "zabbix/t").unwrap();
    assert_eq!(p.endpoint.port, 8883);
    assert!(p.credentials.is_none());
    let p = connection_plan("mqtt://10.0.0.1", "d", "", "", "x").unwrap();
    assert_eq!((p.endpoint.host.as_str(), p.endpoint.port, p.endpoint.tls), ("10.0.0.1", 1883, false));
    assert!(p.notice.is_none());
    assert_eq!(p.keep_alive_secs, 30);
    assert_eq!(p.max_packet_size, 131072);
    assert_eq!((p.topic.as_str(), p.request_capacity), ("x", 10));
    assert!(matches!(p.qos, QosLevel::AtLeastOnce));
    assert!(connection_plan("not a url", "d", "", "", "x").is_err());
    let a = connect_announcement("mqtt://b");
    assert_eq!(logs(&a), vec!["MQTT: Connecting to mqtt://b".to_string()]);
}

#[test]
fn status_and_restart() {
    let st = MqttState::initial(true, "u", "t");
    assert_eq!(st.status, "starting");
    let mut st = MqttState::new();
    assert_eq!(st.status, "unknown");
    st.update(true, "running", "u", "t");
    assert_eq!((st.enabled, st.status.as_str(), st.url.as_str()), (true, "running", "u"));
    let settings = default_settings();
    assert_eq!(restart_mqtt_service(true, None).err().unwrap(), "Failed to read config");
    let plan = restart_mqtt_service(true, Some(&settings)).ok().unwrap();
    assert_eq!((plan.url.as_str(), plan.topic.as_str()), ("", ""));
    let steps = plan.steps;
    assert!(matches!(steps[0], ServiceStep::StopClient));
    assert!(matches!(&steps[1], ServiceStep::Broadcast { enabled: true, status } if status == "stopping"));
    assert!(matches!(steps[2], ServiceStep::PauseMillis(500)));
    assert!(matches!(steps[4], ServiceStep::StartClient));
    let mut stored = default_settings();
    stored.mqtt_url = Some("mqtt://b".to_string());
    stored.mqtt_topic = Some("zabbix/t".to_string());
    let plan = restart_mqtt_service(false, Some(&stored)).ok().unwrap();
    assert_eq!((plan.url.as_str(), plan.topic.as_str()), ("mqtt://b", "zabbix/t"));
    let steps = plan.steps;
    assert_eq!(steps.len(), 4);
    assert!(matches!(&steps[3], ServiceStep::Log(t) if t == "MQTT: Service disabled"));
}

#[test]
fn period_zero_does_not_throttle() {
    let mut s = MqttSession::new("mqtt://b".to_string(), "zabbix/t".to_string(), 0);
    let at = 5 * SEC;
    let a = s.step(MqttEvent::Publish { topic: "zabbix/t".to_string(), payload: "{}".to_string(), now: at });
    assert!(matches!(a.last(), Some(MqttAction::ParsePayload(p)) if p == "{}"));
    s.step(MqttEvent::Parsed { parsed: Err("bad".to_string()), now: at });
    assert_eq!(s.last_handled, Some(at));
    let a = s.step(MqttEvent::Publish { topic: "zabbix/t".to_string(), payload: "{}".to_string(), now: at });
    assert!(matches!(a.last(), Some(MqttAction::ParsePayload(_))));
    let mut t = session();
    t.step(MqttEvent::Parsed { parsed: Err("bad".to_string()), now: at });
    let a = t.step(MqttEvent::Publish { topic: "zabbix/t".to_string(), payload: "{}".to_string(), now: at + 10 * SEC });
    assert!(a.is_empty());
}

fn is_local_stamp(s: &str) -> bool {
    let c: Vec<char> = s.chars().collect();
    let n = c.len();
    n >= 25 && c[4] == '-' && c[7] == '-' && c[10] == 'T' && c[13] == ':' && c[16] == ':'
        && (c[n - 6] == '+' || c[n - 6] == '-') && c[n - 3] == ':'
}

#[test]
fn states_are_stamped_with_local_time() {
    let mut st = MqttState::new();
    assert!(is_local_stamp(&st.last_updated));
    st.update(false, "stopped", "u", "t");
    assert!(is_local_stamp(&st.last_updated));
    assert!(is_local_stamp(&MqttState::initial(false, "", "").last_updated));
    assert!(is_local_stamp(&zbx_np::api::default_admin_user().created_at));
}
