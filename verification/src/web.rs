//! Helpers of the HTTP front end: the favicon, the activity-log lines about
//! incoming data, and the local time stamps of the log.
use vstd::prelude::*;
use vstd::string::StringExecFns;
use crate::text::chars_of;

verus! {

/// Whether `c` is one of the digits `0` to `9`.
pub open spec fn is_ascii_digit(c: char) -> bool {
    '0' as u32 <= c as u32 && c as u32 <= '9' as u32
}

/// Whether a text has the shape `[HH:MM:SS DD-MM-YYYY]`: two-digit hour,
/// minute, second, day and month, then a year of at least four characters
/// (chrono writes a sign before years outside 0 to 9999).
pub open spec fn is_time_stamp(s: Seq<char>) -> bool {
    &&& s.len() >= 21
    &&& s[0] == '[' && s[3] == ':' && s[6] == ':' && s[9] == ' ' && s[12] == '-' && s[15] == '-'
    &&& s[s.len() - 1] == ']'
    &&& is_ascii_digit(s[1]) && is_ascii_digit(s[2]) && is_ascii_digit(s[4]) && is_ascii_digit(s[5])
    &&& is_ascii_digit(s[7]) && is_ascii_digit(s[8]) && is_ascii_digit(s[10]) && is_ascii_digit(s[11])
    &&& is_ascii_digit(s[13]) && is_ascii_digit(s[14])
}

/// The local date and time as `[HH:MM:SS DD-MM-YYYY]` (`chrono::Local::now`,
/// printed with `format`). Only the shape of the text is claimed, as
/// chrono's format documentation gives it for `%H`, `%M`, `%S`, `%d`, `%m`
/// (two digits each) and `%Y` (at least four characters); which time it
/// shows depends on the clock and the time zone.
#[verifier::external_body]
pub(crate) fn print_time_date() -> (s: String)
    ensures
        is_time_stamp(s@),
{
    chrono::Local::now().format("[%H:%M:%S %d-%m-%Y]").to_string()
}

/// Whether a text is laid out as `DateTime::to_rfc3339` writes a time: a
/// year of `y` characters (four digits, or a sign and at least four digits),
/// then `-MM-DDTHH:MM:SS`, then a fraction of `f` characters (none, or a dot
/// and 3, 6 or 9 digits), then the offset `+HH:MM` or `-HH:MM`.
pub open spec fn rfc3339_layout(s: Seq<char>, y: int, f: int) -> bool {
    let o = y + 15 + f;
    &&& 4 <= y
    &&& (f == 0 || f == 4 || f == 7 || f == 10)
    &&& s.len() == o + 6
    &&& forall|i: int| 0 <= i < y ==> (is_ascii_digit(#[trigger] s[i]) || (i == 0 && y > 4 && (s[0] == '+'
        || s[0] == '-')))
    &&& s[y] == '-' && is_ascii_digit(s[y + 1]) && is_ascii_digit(s[y + 2])
    &&& s[y + 3] == '-' && is_ascii_digit(s[y + 4]) && is_ascii_digit(s[y + 5])
    &&& s[y + 6] == 'T' && is_ascii_digit(s[y + 7]) && is_ascii_digit(s[y + 8])
    &&& s[y + 9] == ':' && is_ascii_digit(s[y + 10]) && is_ascii_digit(s[y + 11])
    &&& s[y + 12] == ':' && is_ascii_digit(s[y + 13]) && is_ascii_digit(s[y + 14])
    &&& (f > 0 ==> s[y + 15] == '.')
    &&& forall|i: int| y + 16 <= i < o ==> is_ascii_digit(#[trigger] s[i])
    &&& (s[o] == '+' || s[o] == '-') && is_ascii_digit(s[o + 1]) && is_ascii_digit(s[o + 2])
    &&& s[o + 3] == ':' && is_ascii_digit(s[o + 4]) && is_ascii_digit(s[o + 5])
}

/// Whether a text is an RFC 3339 time stamp as chrono writes one.
pub open spec fn is_rfc3339_stamp(s: Seq<char>) -> bool {
    exists|y: int, f: int| #[trigger] rfc3339_layout(s, y, f)
}

/// The local date and time in RFC 3339 form (`chrono::Local::now`, printed
/// with `DateTime::to_rfc3339`). Only the layout of the text is claimed, as
/// chrono's RFC 3339 writer lays it out; which time it shows depends on the
/// clock and the time zone.
#[verifier::external_body]
pub(crate) fn local_now_rfc3339() -> (s: String)
    ensures
        is_rfc3339_stamp(s@),
{
    chrono::Local::now().to_rfc3339()
}

/// The part of an address before its first `:` (all of it when it has none).
pub open spec fn before_colon(s: Seq<char>) -> Seq<char>
    decreases s.len(),
{
    if s.len() == 0 {
        seq![]
    } else if s[0] == ':' {
        seq![]
    } else {
        seq![s[0]] + before_colon(s.skip(1))
    }
}

/// The part of an address before its first `:` (`split(':').next()`).
pub fn address_head(ip: &str) -> (head: String)
    ensures
        head@ == before_colon(ip@),
{
    let cs = chars_of(ip);
    let mut head = String::new();
    let mut k: usize = 0;
    assert(cs@.skip(0) =~= ip@);
    assert(head@ + before_colon(cs@.skip(0)) =~= before_colon(ip@));
    while k < cs.len() && cs[k] != ':'
        invariant
            k <= cs@.len(),
            cs@ == ip@,
            head@ + before_colon(cs@.skip(k as int)) == before_colon(ip@),
        decreases cs@.len() - k,
    {
        let ghost rest = cs@.skip(k as int);
        assert(rest.skip(1) =~= cs@.skip(k + 1));
        crate::text::push_char(&mut head, cs[k]);
        assert(head@ + before_colon(cs@.skip(k + 1)) =~= before_colon(ip@));
        k = k + 1;
    }
    proof {
        let rest = cs@.skip(k as int);
        if k < cs@.len() {
            assert(rest[0] == ':');
        } else {
            assert(rest =~= Seq::<char>::empty());
        }
        assert(head@ =~= head@ + before_colon(rest));
    }
    head
}

/// The activity-log line for data received over HTTP with the given method.
pub fn received_log(method: &str, ip: &str) -> (line: String)
    ensures
        line@ == "Received data from HTPP via "@ + method@ + ": "@ + before_colon(ip@),
{
    let mut line = String::from_str("Received data from HTPP via ");
    line.append(method);
    line.append(": ");
    let head = address_head(ip);
    line.append(head.as_str());
    line
}

/// The activity-log lines for data arriving over HTTP with the given method:
/// the local date and time, then, when the peer's address is known, where
/// the data came from.
pub fn arrival_lines(method: &str, peer_ip: Option<&str>) -> (lines: Vec<String>)
    ensures
        lines@.len() >= 1,
        is_time_stamp(lines@[0]@),
        peer_ip is None ==> lines@.len() == 1,
        peer_ip matches Some(ip) ==> lines@.len() == 2
            && lines@[1]@ == "Received data from HTPP via "@ + method@ + ": "@ + before_colon(ip@),
{
    let mut lines: Vec<String> = Vec::new();
    lines.push(print_time_date());
    match peer_ip {
        Some(ip) => {
            lines.push(received_log(method, ip));
        },
        None => {},
    }
    lines
}

/// The activity-log line for the reply of a Zabbix server.
pub fn zabbix_result_log(reply: &str) -> (line: String)
    ensures
        line@ == "Zabbix Result: "@ + reply@,
{
    let mut line = String::from_str("Zabbix Result: ");
    line.append(reply);
    line
}

/// The activity-log line for a failed send to a Zabbix server.
pub fn send_error_log(error: &str) -> (line: String)
    ensures
        line@ == "Error sending data to Zabbix server: "@ + error@,
{
    let mut line = String::from_str("Error sending data to Zabbix server: ");
    line.append(error);
    line
}

/// `base64::DecodeError`, why a text is not base64.
#[verifier::external_type_specification]
#[verifier::external_body]
pub struct ExDecodeError(base64::DecodeError);

/// What `base64::decode` (the standard alphabet, with padding) gives for a text.
pub uninterp spec fn base64_standard(input: Seq<char>) -> Option<Seq<u8>>;

/// Decodes base64 (`base64::decode`). The result is named, not stated: it
/// depends on the text alone.
#[verifier::external_body]
#[allow(deprecated)]
fn base64_decode(input: &str) -> (r: Result<Vec<u8>, base64::DecodeError>)
    ensures
        r is Ok <==> base64_standard(input@) is Some,
        r matches Ok(b) ==> Some(b@) == base64_standard(input@),
{
    base64::decode(input)
}

/// The favicon: a 1x1 PNG image, kept as base64 text.
pub open spec fn favicon_base64() -> Seq<char> {
    "iVBORw0KGgoAAAANSUhEUgAAAAEAAAABCAIAAACQd1PeAAAADElEQVQI12P4//8/AAX+Av7czFnnAAAAAElFTkSuQmCC"@
}

/// Why the favicon could not be served.
pub enum FaviconError {
    InvalidData,
}

/// The favicon's PNG bytes.
pub fn favicon() -> (r: Result<Vec<u8>, FaviconError>)
    ensures
        base64_standard(favicon_base64()) is Some ==> (r matches Ok(b) && Some(b@) == base64_standard(favicon_base64())),
        base64_standard(favicon_base64()) is None ==> r is Err,
{
    let pixel = "iVBORw0KGgoAAAANSUhEUgAAAAEAAAABCAIAAACQd1PeAAAADElEQVQI12P4//8/AAX+Av7czFnnAAAAAElFTkSuQmCC";
    match base64_decode(pixel) {
        Ok(bytes) => Ok(bytes),
        Err(_) => Err(FaviconError::InvalidData),
    }
}

/// Whether `serde_json` reads the text as a JSON object
/// (`serde_json::from_str` into a `serde_json::Map`).
pub uninterp spec fn json_object_text(text: Seq<char>) -> bool;

/// Whether `serde_json` reads the text as a JSON value
/// (`serde_json::from_str` into a `serde_json::Value`).
pub uninterp spec fn json_value_text(text: Seq<char>) -> bool;

/// The JSON object `serde_json::from_str` reads from the text into a
/// `serde_json::Map`, as a `Value`.
pub uninterp spec fn json_object_of(text: Seq<char>) -> serde_json::Value;

/// The JSON value `serde_json::from_str` reads from the text into a
/// `serde_json::Value`.
pub uninterp spec fn json_value_of(text: Seq<char>) -> serde_json::Value;

/// Reads a text as a JSON object (`serde_json::from_str` into a
/// `serde_json::Map`, wrapped as a `Value`). Whether it succeeds and what
/// it reads are named: they depend on the text alone.
#[verifier::external_body]
fn parse_json_object(text: &str) -> (r: Option<serde_json::Value>)
    ensures
        r is Some <==> json_object_text(text@),
        r matches Some(v) ==> v == json_object_of(text@),
{
    match serde_json::from_str::<serde_json::Map<String, serde_json::Value>>(text) {
        Ok(object) => Some(serde_json::Value::Object(object)),
        Err(_) => None,
    }
}

/// Reads a text as a JSON value (`serde_json::from_str` into a
/// `serde_json::Value`). Whether it succeeds and what it reads are named:
/// they depend on the text alone. A text that reads as an object reads as
/// the same object here: both ways collect the entries into a `Map` the same
/// way (`Map`'s and `Value`'s `visit_map` in serde_json).
#[verifier::external_body]
fn parse_json_value(text: &str) -> (r: Option<serde_json::Value>)
    ensures
        r is Some <==> json_value_text(text@),
        r matches Some(v) ==> v == json_value_of(text@),
        json_object_text(text@) ==> r == Some(json_object_of(text@)),
{
    match serde_json::from_str::<serde_json::Value>(text) {
        Ok(value) => Some(value),
        Err(_) => None,
    }
}

/// How data was sent to the relay.
pub enum RequestMethod {
    Get,
    Post,
}

/// How the decoded reply of the Zabbix server appears in the answer.
pub enum ShownReply {
    /// As the JSON it reads as.
    Json(serde_json::Value),
    /// As a JSON string holding the text.
    Text(String),
    /// Not at all: the reply to posted data must read as JSON.
    NotJson,
}

/// The decoded reply as it is answered: for data sent with GET, the JSON
/// object it reads as, or else the text itself; for posted data, the JSON
/// value it reads as, and `NotJson` when it reads as none. A reply that reads
/// as a JSON object is answered alike for both methods.
pub fn shown_reply(decoded: &str, method: RequestMethod) -> (r: ShownReply)
    ensures
        method is Get && json_object_text(decoded@) ==> (r matches ShownReply::Json(v)
            && v == json_object_of(decoded@)),
        method is Get && !json_object_text(decoded@) ==> (r matches ShownReply::Text(t) && t@ == decoded@),
        method is Post && json_value_text(decoded@) ==> (r matches ShownReply::Json(v)
            && v == json_value_of(decoded@)),
        method is Post && !json_value_text(decoded@) ==> r is NotJson,
        json_object_text(decoded@) ==> (r matches ShownReply::Json(v) && v == json_object_of(decoded@)),
{
    match method {
        RequestMethod::Get => match parse_json_object(decoded) {
            Some(object) => ShownReply::Json(object),
            None => ShownReply::Text(String::from_str(decoded)),
        },
        RequestMethod::Post => match parse_json_value(decoded) {
            Some(value) => ShownReply::Json(value),
            None => ShownReply::NotJson,
        },
    }
}

/// An HTTP method of the routes the server serves.
pub enum HttpMethod {
    Get,
    Post,
    Put,
    Delete,
}

/// What a route serves.
pub enum Endpoint {
    Index,
    Console,
    Favicon,
    Login,
    Logout,
    GetConfig,
    UpdateConfig,
    TestConfig,
    Stats,
    StatsHistory,
    StatsRealtime,
    MqttStatus,
    ListUsers,
    CreateUser,
    DeleteUser,
    ListTokens,
    CreateToken,
    DeleteToken,
    Restart,
    Logs,
    ZabbixGet,
    ZabbixPost,
}

/// A route of the HTTP server: method, path, what it serves, and whether it
/// asks for the basic-auth login of the settings.
pub struct Route {
    pub method: HttpMethod,
    pub path: String,
    pub endpoint: Endpoint,
    pub basic_auth: bool,
}

pub open spec fn route_view(r: Route) -> (HttpMethod, Seq<char>, Endpoint, bool) {
    (r.method, r.path@, r.endpoint, r.basic_auth)
}

/// The routes of the server, in the order they are matched: the pages and
/// the management API are open, the data routes ask for basic auth.
pub open spec fn route_table() -> Seq<(HttpMethod, Seq<char>, Endpoint, bool)> {
    seq![
        (HttpMethod::Get, "/"@, Endpoint::Index, false),
        (HttpMethod::Get, "/console"@, Endpoint::Console, false),
        (HttpMethod::Get, "/favicon.ico"@, Endpoint::Favicon, false),
        (HttpMethod::Post, "/api/auth/login"@, Endpoint::Login, false),
        (HttpMethod::Post, "/api/auth/logout"@, Endpoint::Logout, false),
        (HttpMethod::Get, "/api/config"@, Endpoint::GetConfig, false),
        (HttpMethod::Put, "/api/config"@, Endpoint::UpdateConfig, false),
        (HttpMethod::Post, "/api/config/test"@, Endpoint::TestConfig, false),
        (HttpMethod::Get, "/api/stats"@, Endpoint::Stats, false),
        (HttpMethod::Get, "/api/stats/history"@, Endpoint::StatsHistory, false),
        (HttpMethod::Get, "/api/stats/realtime"@, Endpoint::StatsRealtime, false),
        (HttpMethod::Get, "/api/mqtt/status"@, Endpoint::MqttStatus, false),
        (HttpMethod::Get, "/api/users"@, Endpoint::ListUsers, false),
        (HttpMethod::Post, "/api/users"@, Endpoint::CreateUser, false),
        (HttpMethod::Delete, "/api/users/{id}"@, Endpoint::DeleteUser, false),
        (HttpMethod::Get, "/api/tokens"@, Endpoint::ListTokens, false),
        (HttpMethod::Post, "/api/tokens"@, Endpoint::CreateToken, false),
        (HttpMethod::Delete, "/api/tokens/{id}"@, Endpoint::DeleteToken, false),
        (HttpMethod::Post, "/api/restart"@, Endpoint::Restart, false),
        (HttpMethod::Get, "/api/logs"@, Endpoint::Logs, false),
        (HttpMethod::Get, "/zabbix"@, Endpoint::ZabbixGet, true),
        (HttpMethod::Post, "/zabbix"@, Endpoint::ZabbixPost, true)
    ]
}

fn route(method: HttpMethod, path: &str, endpoint: Endpoint, basic_auth: bool) -> (r: Route)
    ensures
        route_view(r) == (method, path@, endpoint, basic_auth),
{
    Route { method, path: String::from_str(path), endpoint, basic_auth }
}

/// The routes the server registers, in order.
pub fn routes() -> (v: Vec<Route>)
    ensures
        v@.map_values(|r: Route| route_view(r)) == route_table(),
{
    let mut v: Vec<Route> = Vec::new();
    v.push(route(HttpMethod::Get, "/", Endpoint::Index, false));
    v.push(route(HttpMethod::Get, "/console", Endpoint::Console, false));
    v.push(route(HttpMethod::Get, "/favicon.ico", Endpoint::Favicon, false));
    v.push(route(HttpMethod::Post, "/api/auth/login", Endpoint::Login, false));
    v.push(route(HttpMethod::Post, "/api/auth/logout", Endpoint::Logout, false));
    v.push(route(HttpMethod::Get, "/api/config", Endpoint::GetConfig, false));
    v.push(route(HttpMethod::Put, "/api/config", Endpoint::UpdateConfig, false));
    v.push(route(HttpMethod::Post, "/api/config/test", Endpoint::TestConfig, false));
    v.push(route(HttpMethod::Get, "/api/stats", Endpoint::Stats, false));
    v.push(route(HttpMethod::Get, "/api/stats/history", Endpoint::StatsHistory, false));
    v.push(route(HttpMethod::Get, "/api/stats/realtime", Endpoint::StatsRealtime, false));
    v.push(route(HttpMethod::Get, "/api/mqtt/status", Endpoint::MqttStatus, false));
    v.push(route(HttpMethod::Get, "/api/users", Endpoint::ListUsers, false));
    v.push(route(HttpMethod::Post, "/api/users", Endpoint::CreateUser, false));
    v.push(route(HttpMethod::Delete, "/api/users/{id}", Endpoint::DeleteUser, false));
    v.push(route(HttpMethod::Get, "/api/tokens", Endpoint::ListTokens, false));
    v.push(route(HttpMethod::Post, "/api/tokens", Endpoint::CreateToken, false));
    v.push(route(HttpMethod::Delete, "/api/tokens/{id}", Endpoint::DeleteToken, false));
    v.push(route(HttpMethod::Post, "/api/restart", Endpoint::Restart, false));
    v.push(route(HttpMethod::Get, "/api/logs", Endpoint::Logs, false));
    v.push(route(HttpMethod::Get, "/zabbix", Endpoint::ZabbixGet, true));
    v.push(route(HttpMethod::Post, "/zabbix", Endpoint::ZabbixPost, true));
    assert(v@.map_values(|r: Route| route_view(r)) =~= route_table());
    v
}

/// Basic auth guards exactly the data routes, GET and POST `/zabbix`; every
/// page and every management API route is served without it.
pub proof fn only_data_routes_need_basic_auth()
    ensures
        forall|i: int| 0 <= i < route_table().len() ==> ((#[trigger] route_table()[i]).3
            <==> (route_table()[i].2 is ZabbixGet || route_table()[i].2 is ZabbixPost)),
        route_table()[20] == (HttpMethod::Get, "/zabbix"@, Endpoint::ZabbixGet, true),
        route_table()[21] == (HttpMethod::Post, "/zabbix"@, Endpoint::ZabbixPost, true),
        route_table().len() == 22,
{
}

/// The method and path at which each endpoint is served.
pub open spec fn served_at(e: Endpoint) -> (HttpMethod, Seq<char>) {
    match e {
        Endpoint::Index => (HttpMethod::Get, "/"@),
        Endpoint::Console => (HttpMethod::Get, "/console"@),
        Endpoint::Favicon => (HttpMethod::Get, "/favicon.ico"@),
        Endpoint::Login => (HttpMethod::Post, "/api/auth/login"@),
        Endpoint::Logout => (HttpMethod::Post, "/api/auth/logout"@),
        Endpoint::GetConfig => (HttpMethod::Get, "/api/config"@),
        Endpoint::UpdateConfig => (HttpMethod::Put, "/api/config"@),
        Endpoint::TestConfig => (HttpMethod::Post, "/api/config/test"@),
        Endpoint::Stats => (HttpMethod::Get, "/api/stats"@),
        Endpoint::StatsHistory => (HttpMethod::Get, "/api/stats/history"@),
        Endpoint::StatsRealtime => (HttpMethod::Get, "/api/stats/realtime"@),
        Endpoint::MqttStatus => (HttpMethod::Get, "/api/mqtt/status"@),
        Endpoint::ListUsers => (HttpMethod::Get, "/api/users"@),
        Endpoint::CreateUser => (HttpMethod::Post, "/api/users"@),
        Endpoint::DeleteUser => (HttpMethod::Delete, "/api/users/{id}"@),
        Endpoint::ListTokens => (HttpMethod::Get, "/api/tokens"@),
        Endpoint::CreateToken => (HttpMethod::Post, "/api/tokens"@),
        Endpoint::DeleteToken => (HttpMethod::Delete, "/api/tokens/{id}"@),
        Endpoint::Restart => (HttpMethod::Post, "/api/restart"@),
        Endpoint::Logs => (HttpMethod::Get, "/api/logs"@),
        Endpoint::ZabbixGet => (HttpMethod::Get, "/zabbix"@),
        Endpoint::ZabbixPost => (HttpMethod::Post, "/zabbix"@),
    }
}

/// Every route serves the endpoint that belongs at its method and path, and
/// every endpoint is served by exactly one route: logging in at
/// `POST /api/auth/login`, logging out at `POST /api/auth/logout`, the data
/// routes at `/zabbix`, and so on for each endpoint.
pub proof fn each_endpoint_is_served_at_its_route()
    ensures
        forall|i: int| 0 <= i < route_table().len() ==> ((#[trigger] route_table()[i]).0,
            route_table()[i].1) == served_at(route_table()[i].2),
        forall|e: Endpoint| #![trigger served_at(e)] exists|i: int| 0 <= i < route_table().len()
            && (#[trigger] route_table()[i]).2 == e,
        forall|i: int, j: int| 0 <= i < j < route_table().len() ==> (#[trigger] route_table()[i]).2
            != (#[trigger] route_table()[j]).2,
{
    let t = route_table();
    assert forall|e: Endpoint| #![trigger served_at(e)] exists|i: int| 0 <= i < t.len() && (#[trigger] t[i]).2 == e by {
        match e {
            Endpoint::Index => assert(t[0].2 == e),
            Endpoint::Console => assert(t[1].2 == e),
            Endpoint::Favicon => assert(t[2].2 == e),
            Endpoint::Login => assert(t[3].2 == e),
            Endpoint::Logout => assert(t[4].2 == e),
            Endpoint::GetConfig => assert(t[5].2 == e),
            Endpoint::UpdateConfig => assert(t[6].2 == e),
            Endpoint::TestConfig => assert(t[7].2 == e),
            Endpoint::Stats => assert(t[8].2 == e),
            Endpoint::StatsHistory => assert(t[9].2 == e),
            Endpoint::StatsRealtime => assert(t[10].2 == e),
            Endpoint::MqttStatus => assert(t[11].2 == e),
            Endpoint::ListUsers => assert(t[12].2 == e),
            Endpoint::CreateUser => assert(t[13].2 == e),
            Endpoint::DeleteUser => assert(t[14].2 == e),
            Endpoint::ListTokens => assert(t[15].2 == e),
            Endpoint::CreateToken => assert(t[16].2 == e),
            Endpoint::DeleteToken => assert(t[17].2 == e),
            Endpoint::Restart => assert(t[18].2 == e),
            Endpoint::Logs => assert(t[19].2 == e),
            Endpoint::ZabbixGet => assert(t[20].2 == e),
            Endpoint::ZabbixPost => assert(t[21].2 == e),
        }
    }
}

} // verus!
