# zbx_np

A relay that forwards item values to a Zabbix server. Data arrives as JSON
over HTTP (GET or POST) or on an MQTT topic; each message names the Zabbix
server, the host and its items, and is sent as a Zabbix sender request. A
small web API manages users, tokens and settings, and a WebSocket console
shows the activity log.

## Layout

- `src/` is the verified library (Verus):
  - `zabbix.rs`: the sender protocol (request JSON, packet framing, reading
    the server's reply), the data messages and their checks;
  - `mqtt.rs`: the MQTT connection status, the connection plan for a broker
    URL, and the session state machine (throttling, reconnecting with
    back-off, stopping);
  - `api.rs`: users, tokens, login, and the replies of the management API;
  - `settings.rs`: what the API shows of the stored settings and how an
    update is merged into them;
  - `messages.rs`: the activity log, what the console sends to clients, and
    the list of connected console clients;
  - `web.rs`: the route table (which routes ask for basic auth), how a
    server reply is shown, log lines and the favicon;
  - `text.rs`, `auth.rs`: text helpers and shared types.
- `tests/` runs the library on concrete values.
- `app/` is the program around it: the HTTP and WebSocket servers, the MQTT
  client, the TCP connection to Zabbix, and the configuration file.
