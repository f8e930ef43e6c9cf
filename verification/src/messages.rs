//! The activity log that the web console and the log API show, and the
//! cleaning of its lines before they go out over a WebSocket.
use vstd::prelude::*;
use vstd::string::StringExecFns;
use crate::text::{chars_of, push_char};

verus! {

/// Control characters (`char::is_control`): U+0000 to U+001F and U+007F to U+009F.
pub open spec fn is_control(c: char) -> bool {
    (c as u32) <= 0x1F || (0x7F <= (c as u32) && (c as u32) <= 0x9F)
}

/// White space as `str::trim` removes it (`char::is_whitespace`).
pub open spec fn is_whitespace(c: char) -> bool {
    let u = c as u32;
    ||| (0x09 <= u && u <= 0x0D)
    ||| u == 0x20
    ||| u == 0x85
    ||| u == 0xA0
    ||| u == 0x1680
    ||| (0x2000 <= u && u <= 0x200A)
    ||| u == 0x2028
    ||| u == 0x2029
    ||| u == 0x202F
    ||| u == 0x205F
    ||| u == 0x3000
}

/// Characters that may go out over a WebSocket: anything but control
/// characters, except new line, carriage return and tab.
pub open spec fn is_sendable(c: char) -> bool {
    !is_control(c) || c == '\n' || c == '\r' || c == '\t'
}

/// The sendable characters of `s`, in order.
pub open spec fn sendable_chars(s: Seq<char>) -> Seq<char>
    decreases s.len(),
{
    if s.len() == 0 {
        seq![]
    } else if is_sendable(s.last()) {
        sendable_chars(s.drop_last()).push(s.last())
    } else {
        sendable_chars(s.drop_last())
    }
}

/// At most the first `n` elements of `s`.
pub open spec fn at_most<A>(s: Seq<A>, n: nat) -> Seq<A> {
    if s.len() <= n { s } else { s.take(n as int) }
}

/// A line cleaned for sending: its sendable characters, at most `limit` of them.
pub open spec fn clean_text(s: Seq<char>, limit: nat) -> Seq<char> {
    at_most(sendable_chars(s), limit)
}

/// Whether a text is empty once trimmed.
pub open spec fn is_blank(s: Seq<char>) -> bool {
    forall|i: int| 0 <= i < s.len() ==> is_whitespace(#[trigger] s[i])
}

/// What is sent for a line: its cleaned text, unless that is blank.
pub open spec fn outgoing(s: Seq<char>, limit: nat) -> Option<Seq<char>> {
    if is_blank(clean_text(s, limit)) { None } else { Some(clean_text(s, limit)) }
}

/// Longest line sent to the connected consoles when a line is logged.
pub const BROADCAST_LIMIT: usize = 500;

/// Longest line of the backlog sent to a console that has just connected.
pub const BACKLOG_LINE_LIMIT: usize = 200;

/// How many of the newest lines a console that has just connected receives.
pub const BACKLOG_LINES: usize = 20;

/// How many of the newest lines the log API returns.
pub const API_LOG_LINES: usize = 50;

fn char_is_sendable(c: char) -> (b: bool)
    ensures
        b == is_sendable(c),
{
    let u = c as u32;
    !(u <= 0x1F || (0x7F <= u && u <= 0x9F)) || c == '\n' || c == '\r' || c == '\t'
}

fn char_is_whitespace(c: char) -> (b: bool)
    ensures
        b == is_whitespace(c),
{
    let u = c as u32;
    (0x09 <= u && u <= 0x0D) || u == 0x20 || u == 0x85 || u == 0xA0 || u == 0x1680
        || (0x2000 <= u && u <= 0x200A) || u == 0x2028 || u == 0x2029 || u == 0x202F
        || u == 0x205F || u == 0x3000
}

/// Cleans a line for a WebSocket client: keeps its sendable characters, at
/// most `limit` of them, and gives `None` when what is left is blank.
pub fn clean_for_socket(message: &str, limit: usize) -> (r: Option<String>)
    ensures
        r matches Some(s) ==> outgoing(message@, limit as nat) == Some(s@),
        r is None ==> outgoing(message@, limit as nat) is None,
{
    let cs = chars_of(message);
    let mut out = String::new();
    let mut count: usize = 0;
    let mut blank = true;
    let mut i: usize = 0;
    while i < cs.len()
        invariant
            i <= cs@.len(),
            cs@ == message@,
            count == out@.len(),
            out@ == clean_text(cs@.take(i as int), limit as nat),
            blank == is_blank(out@),
        decreases cs@.len() - i,
    {
        let c = cs[i];
        let ghost pre = cs@.take(i as int);
        let ghost next = cs@.take(i + 1);
        assert(next.drop_last() =~= pre);
        assert(next.last() == c);
        if char_is_sendable(c) && count < limit {
            let ghost before = out@;
            push_char(&mut out, c);
            count = count + 1;
            if !char_is_whitespace(c) {
                blank = false;
                assert(!is_whitespace(out@[out@.len() - 1]));
            } else {
                proof {
                if blank {
                    assert forall|j: int| 0 <= j < out@.len() implies is_whitespace(#[trigger] out@[j]) by {
                        if j < before.len() {
                            assert(out@[j] == before[j]);
                        }
                    }
                } else {
                    let w = choose|j: int| 0 <= j < before.len() && !is_whitespace(#[trigger] before.index(j));
                    assert(out@.index(w) == before.index(w));
                }
                }
            }
            assert(sendable_chars(next) == sendable_chars(pre).push(c));
            assert(out@ =~= clean_text(next, limit as nat));
        } else {
            if char_is_sendable(c) {
                assert(sendable_chars(next) == sendable_chars(pre).push(c));
                assert(clean_text(next, limit as nat) =~= clean_text(pre, limit as nat));
            } else {
                assert(sendable_chars(next) == sendable_chars(pre));
            }
        }
        i = i + 1;
    }
    assert(cs@.take(i as int) =~= message@);
    if blank {
        None
    } else {
        Some(out)
    }
}

/// The activity log, newest line first.
pub struct MessageLog {
    pub messages: Vec<String>,
}

pub open spec fn lines_view(v: Seq<String>) -> Seq<Seq<char>> {
    v.map_values(|s: String| s@)
}

impl MessageLog {
    pub open spec fn view(&self) -> Seq<Seq<char>> {
        lines_view(self.messages@)
    }

    /// An empty log.
    pub fn new() -> (log: Self)
        ensures
            log.view() == Seq::<Seq<char>>::empty(),
    {
        let log = MessageLog { messages: Vec::new() };
        assert(log.view() =~= Seq::<Seq<char>>::empty());
        log
    }
}

/// Records a line at the front of the log and gives what is to be sent to
/// the connected consoles for it, if anything.
pub fn add_message(log: &mut MessageLog, message: String) -> (sent: Option<String>)
    ensures
        final(log).view() == seq![message@] + old(log).view(),
        sent matches Some(s) ==> outgoing(message@, BROADCAST_LIMIT as nat) == Some(s@),
        sent is None ==> outgoing(message@, BROADCAST_LIMIT as nat) is None,
{
    let sent = clean_for_socket(message.as_str(), BROADCAST_LIMIT);
    let ghost m = message@;
    log.messages.insert(0, message);
    assert(log.view() =~= seq![m] + old(log).view());
    sent
}

/// All lines of the log, newest first.
pub fn get_messages(log: &MessageLog) -> (lines: &Vec<String>)
    ensures
        lines_view(lines@) == log.view(),
{
    &log.messages
}

/// The newest `n` lines (all of them when there are fewer).
pub fn recent_messages(log: &MessageLog, n: usize) -> (lines: Vec<String>)
    ensures
        lines_view(lines@) == at_most(log.view(), n as nat),
{
    let mut lines: Vec<String> = Vec::new();
    let mut k: usize = 0;
    while k < log.messages.len() && k < n
        invariant
            k <= log.messages@.len(),
            k <= n,
            lines@.len() == k,
            lines_view(lines@) == log.view().take(k as int),
        decreases log.messages@.len() - k,
    {
        let line = log.messages[k].clone();
        let ghost before = lines@;
        lines.push(line);
        assert(lines@ == before.push(line));
        assert(line@ == log.view()[k as int]);
        assert forall|j: int| 0 <= j < k + 1 implies #[trigger] lines_view(lines@)[j] == log.view().take(k + 1)[j] by {
            if j < k {
                assert(lines_view(before)[j] == log.view().take(k as int)[j]);
                assert(lines@[j] == before[j]);
            }
        }
        assert(lines_view(lines@) =~= log.view().take(k + 1));
        k = k + 1;
    }
    assert(lines_view(lines@) =~= at_most(log.view(), n as nat));
    lines
}

/// The texts sent for a list of lines: each line cleaned for sending with
/// the given limit, blank ones left out.
pub open spec fn outgoing_lines(lines: Seq<Seq<char>>, limit: nat) -> Seq<Seq<char>>
    decreases lines.len(),
{
    if lines.len() == 0 {
        seq![]
    } else {
        let rest = outgoing_lines(lines.drop_last(), limit);
        match outgoing(lines.last(), limit) {
            Some(t) => rest.push(t),
            None => rest,
        }
    }
}

/// The texts sent for a list of lines, each cleaned with `limit`.
pub fn clean_lines(lines: &Vec<String>, limit: usize) -> (out: Vec<String>)
    ensures
        lines_view(out@) == outgoing_lines(lines_view(lines@), limit as nat),
{
    let mut out: Vec<String> = Vec::new();
    let mut k: usize = 0;
    while k < lines.len()
        invariant
            k <= lines@.len(),
            lines_view(out@) == outgoing_lines(lines_view(lines@.take(k as int)), limit as nat),
        decreases lines@.len() - k,
    {
        let ghost pre = lines_view(lines@.take(k as int));
        let ghost next = lines_view(lines@.take(k + 1));
        assert(next.drop_last() =~= pre);
        assert(next.last() == lines@[k as int]@);
        match clean_for_socket(lines[k].as_str(), limit) {
            Some(t) => {
                out.push(t);
                assert(lines_view(out@) =~= outgoing_lines(next, limit as nat));
            },
            None => {
                assert(lines_view(out@) =~= outgoing_lines(next, limit as nat));
            },
        }
        k = k + 1;
    }
    assert(lines@.take(k as int) =~= lines@);
    out
}

/// The backlog a console receives when it connects: the newest lines of the
/// log, newest first, each cleaned for sending, blank ones left out.
pub fn backlog_for_new_client(log: &MessageLog) -> (out: Vec<String>)
    ensures
        lines_view(out@) == outgoing_lines(at_most(log.view(), BACKLOG_LINES as nat),
            BACKLOG_LINE_LIMIT as nat),
{
    let recent = recent_messages(log, BACKLOG_LINES);
    clean_lines(&recent, BACKLOG_LINE_LIMIT)
}

/// Whether a text is empty once trimmed (`str::trim().is_empty()`).
pub fn is_blank_text(s: &str) -> (b: bool)
    ensures
        b == is_blank(s@),
{
    let cs = chars_of(s);
    let mut k: usize = 0;
    while k < cs.len()
        invariant
            k <= cs@.len(),
            cs@ == s@,
            forall|j: int| 0 <= j < k ==> is_whitespace(#[trigger] cs@[j]),
        decreases cs@.len() - k,
    {
        if !char_is_whitespace(cs[k]) {
            return false;
        }
        k = k + 1;
    }
    true
}

/// The WebSocket sub-protocol consoles must ask for.
pub open spec fn console_protocol() -> Seq<char> {
    "rust-websocket"@
}

/// Whether a connecting console asked for the console sub-protocol; others
/// are rejected.
pub fn accepts_connection(protocols: &Vec<String>) -> (ok: bool)
    ensures
        ok == exists|i: int| 0 <= i < protocols@.len() && (#[trigger] protocols@[i])@ == console_protocol(),
{
    let wanted = String::from_str("rust-websocket");
    let mut k: usize = 0;
    while k < protocols.len()
        invariant
            k <= protocols@.len(),
            wanted@ == console_protocol(),
            forall|j: int| 0 <= j < k ==> (#[trigger] protocols@[j])@ != console_protocol(),
        decreases protocols@.len() - k,
    {
        if protocols[k] == wanted {
            return true;
        }
        k = k + 1;
    }
    false
}

/// A message received from a console.
pub enum ConsoleMessage {
    Close,
    Ping(Vec<u8>),
    Text(String),
    /// Anything else (binary data, pongs).
    Other,
}

/// What is done with a message received from a console.
pub enum ConsoleReply {
    /// Forget the console, answer with a close message and stop reading.
    Disconnect,
    /// Answer with a pong carrying the same data.
    Pong(Vec<u8>),
    /// Send these lines to every console.
    Replay(Vec<String>),
    /// Send the message, as it is, to every console.
    Relay,
}

/// Handles a message from a console. The text `last` asks for the stored
/// lines again: each is sent as `add_message` sends a line, blank ones not at
/// all.
pub fn console_reply(msg: ConsoleMessage, stored: &Vec<String>) -> (r: ConsoleReply)
    ensures
        msg is Close ==> r is Disconnect,
        msg matches ConsoleMessage::Ping(d) ==> r matches ConsoleReply::Pong(e) && e@ == d@,
        msg matches ConsoleMessage::Text(t) && t@ == "last"@ ==> (r matches ConsoleReply::Replay(lines)
            && lines_view(lines@) == outgoing_lines(lines_view(stored@), BROADCAST_LIMIT as nat)),
        msg matches ConsoleMessage::Text(t) && t@ != "last"@ ==> r is Relay,
        msg is Other ==> r is Relay,
{
    match msg {
        ConsoleMessage::Close => ConsoleReply::Disconnect,
        ConsoleMessage::Ping(d) => ConsoleReply::Pong(d),
        ConsoleMessage::Text(t) => {
            if t == String::from_str("last") {
                ConsoleReply::Replay(clean_lines(stored, BROADCAST_LIMIT))
            } else {
                ConsoleReply::Relay
            }
        },
        ConsoleMessage::Other => ConsoleReply::Relay,
    }
}

proof fn lemma_sendable_chars(s: Seq<char>)
    ensures
        sendable_chars(s).len() <= s.len(),
        forall|i: int| 0 <= i < sendable_chars(s).len() ==> is_sendable(#[trigger] sendable_chars(s)[i]),
    decreases s.len(),
{
    if s.len() > 0 {
        lemma_sendable_chars(s.drop_last());
        let r = sendable_chars(s.drop_last());
        if is_sendable(s.last()) {
            assert forall|i: int| 0 <= i < sendable_chars(s).len() implies is_sendable(#[trigger] sendable_chars(s)[i]) by {
                if i < r.len() {
                    assert(sendable_chars(s)[i] == r[i]);
                }
            }
        }
    }
}

/// What goes out over a WebSocket for a line never exceeds the limit, holds
/// no control character other than new line, carriage return and tab, and
/// is never blank.
pub proof fn outgoing_is_clean(s: Seq<char>, limit: nat)
    ensures
        outgoing(s, limit) matches Some(t) ==> {
            &&& t.len() <= limit
            &&& forall|i: int| 0 <= i < t.len() ==> is_sendable(#[trigger] t[i])
            &&& !is_blank(t)
        },
{
    lemma_sendable_chars(s);
    let c = clean_text(s, limit);
    assert forall|i: int| 0 <= i < c.len() implies is_sendable(#[trigger] c[i]) by {
        assert(c[i] == sendable_chars(s)[i]);
    }
}

/// A logged line becomes the newest line of the log and the other lines stay,
/// in order, behind it; the log API then returns it first.
pub proof fn logged_line_is_newest(log: Seq<Seq<char>>, line: Seq<char>, n: nat)
    requires
        n > 0,
    ensures
        (seq![line] + log)[0] == line,
        (seq![line] + log).skip(1) == log,
        at_most(seq![line] + log, n)[0] == line,
{
    assert((seq![line] + log).skip(1) =~= log);
}

} // verus!

verus! {

/// The console clients that receive the activity log, in the order they
/// connected: each client's writer under the number it was registered with.
/// Numbers are never reused, so a client is found again by its number.
pub struct ClientList<W> {
    entries: Vec<(u64, W)>,
    next: u64,
}

impl<W> ClientList<W> {
    /// The registered clients, oldest first, with their numbers.
    pub closed spec fn entries(&self) -> Seq<(u64, W)> {
        self.entries@
    }

    /// The number the next client gets.
    pub closed spec fn next_number(&self) -> u64 {
        self.next
    }

    #[verifier::type_invariant]
    spec fn numbers_increase(self) -> bool {
        &&& forall|i: int, j: int| 0 <= i < j < self.entries@.len()
            ==> #[trigger] self.entries@[i].0 < #[trigger] self.entries@[j].0
        &&& forall|i: int| 0 <= i < self.entries@.len() ==> #[trigger] self.entries@[i].0 < self.next
    }

    /// No client yet.
    pub fn new() -> (list: Self)
        ensures
            list.entries() == Seq::<(u64, W)>::empty(),
            list.next_number() == 0,
    {
        ClientList { entries: Vec::new(), next: 0 }
    }

    /// Adds a client at the end under the next number, and returns that
    /// number; `None`, with nothing added, once every number is used.
    pub fn register(&mut self, writer: W) -> (id: Option<u64>)
        ensures
            old(self).next_number() == u64::MAX ==> id is None && final(self).entries() == old(self).entries()
                && final(self).next_number() == old(self).next_number(),
            old(self).next_number() < u64::MAX ==> id == Some(old(self).next_number())
                && final(self).entries() == old(self).entries().push((old(self).next_number(), writer))
                && final(self).next_number() == old(self).next_number() + 1,
    {
        proof {
            use_type_invariant(&*self);
        }
        if self.next == u64::MAX {
            return None;
        }
        let id = self.next;
        let mut entries = Vec::new();
        std::mem::swap(&mut entries, &mut self.entries);
        entries.push((id, writer));
        let list = ClientList { entries, next: id + 1 };
        *self = list;
        Some(id)
    }

    /// Removes the client with this number, keeping the others in order, and
    /// tells whether there was one.
    pub fn remove(&mut self, id: u64) -> (found: bool)
        ensures
            found <==> exists|i: int| 0 <= i < old(self).entries().len() && #[trigger] old(self).entries()[i].0 == id,
            found ==> exists|i: int| 0 <= i < old(self).entries().len() && #[trigger] old(self).entries()[i].0 == id
                && final(self).entries() == old(self).entries().remove(i),
            !found ==> final(self).entries() == old(self).entries(),
            final(self).next_number() == old(self).next_number(),
    {
        proof {
            use_type_invariant(&*self);
        }
        let mut k: usize = 0;
        while k < self.entries.len()
            invariant
                *self == *old(self),
                k <= self.entries@.len(),
                forall|j: int| 0 <= j < k ==> (#[trigger] self.entries@[j]).0 != id,
                forall|i: int, j: int| 0 <= i < j < self.entries@.len()
                    ==> #[trigger] self.entries@[i].0 < #[trigger] self.entries@[j].0,
                forall|i: int| 0 <= i < self.entries@.len() ==> #[trigger] self.entries@[i].0 < self.next,
            decreases self.entries@.len() - k,
        {
            if self.entries[k].0 == id {
                let ghost before = self.entries@;
                let next = self.next;
                let mut entries = Vec::new();
                std::mem::swap(&mut entries, &mut self.entries);
                let _gone = entries.remove(k);
                assert(entries@ == before.remove(k as int));
                assert forall|i: int, j: int| 0 <= i < j < entries@.len()
                    implies #[trigger] entries@[i].0 < #[trigger] entries@[j].0 by {
                    if i < k && j >= k {
                        assert(entries@[j] == before[j + 1]);
                        assert(before[i].0 < before[j + 1].0);
                    } else if i >= k {
                        assert(entries@[i] == before[i + 1]);
                        assert(entries@[j] == before[j + 1]);
                        assert(before[i + 1].0 < before[j + 1].0);
                    } else {
                        assert(before[i].0 < before[j].0);
                    }
                }
                assert forall|i: int| 0 <= i < entries@.len() implies #[trigger] entries@[i].0 < next by {
                    if i < k {
                        assert(entries@[i] == before[i]);
                    } else {
                        assert(entries@[i] == before[i + 1]);
                    }
                }
                *self = ClientList { entries, next };
                assert(old(self).entries()[k as int].0 == id);
                assert(self.entries() == old(self).entries().remove(k as int));
                return true;
            }
            k = k + 1;
        }
        false
    }

    /// The registered clients, oldest first, with their numbers.
    pub fn clients(&self) -> (r: &Vec<(u64, W)>)
        ensures
            r@ == self.entries(),
    {
        &self.entries
    }
}

/// Removing a client leaves no client with its number and keeps every other
/// client, in the order they connected.
pub proof fn removed_client_is_gone<W>(entries: Seq<(u64, W)>, i: int)
    requires
        0 <= i < entries.len(),
        forall|a: int, b: int| 0 <= a < b < entries.len() ==> #[trigger] entries[a].0 < #[trigger] entries[b].0,
    ensures
        entries.remove(i).len() == entries.len() - 1,
        forall|j: int| 0 <= j < entries.remove(i).len() ==> (#[trigger] entries.remove(i)[j]).0 != entries[i].0,
        forall|j: int| 0 <= j < i ==> #[trigger] entries.remove(i)[j] == entries[j],
        forall|j: int| i < j < entries.len() ==> #[trigger] entries.remove(i)[j - 1] == entries[j],
{
    let r = entries.remove(i);
    assert forall|j: int| 0 <= j < r.len() implies (#[trigger] r[j]).0 != entries[i].0 by {
        if j < i {
            assert(r[j] == entries[j]);
        } else {
            assert(r[j] == entries[j + 1]);
        }
    }
}

} // verus!
