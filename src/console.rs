//! The client's state and its decisions: which endpoint to use, when to
//! connect, and which frame each logging call sends.
//!
//! The transport lives with the caller: an operation returns an [`Action`]
//! that says what to do with it, and a connection attempt is reported back
//! through [`WebConsole::finish_connect`].
use vstd::prelude::*;
use vstd::string::*;
use crate::endpoint::{cut, has_prefix, resolve_raw, resolved, same_text, starts_with, trim_text, trimmed, with_scheme, DEFAULT_URI};
use crate::envelope::{envelope, envelope_text, json_string_of, now_seconds, quote, ClientInfo, LogType};

verus! {

/// What the caller does with the transport after a logging operation.
#[derive(Debug)]
pub enum Action {
    /// Nothing: logging is off, or there is nothing to send.
    Skip,
    /// Open a connection to this endpoint, then report the outcome.
    Connect(String),
    /// Send this text frame on the live connection.
    Send(String),
}

/// The abstract state of a client.
pub struct ConsoleView {
    pub uri: Seq<char>,
    pub enabled: bool,
    pub connected: bool,
    pub groups: Seq<Seq<char>>,
    pub info: ClientInfo,
}

/// The client: its endpoint, whether it logs, whether the transport holds a
/// live connection, the open groups and the client record.
pub struct WebConsole {
    uri: String,
    is_enable: bool,
    connected: bool,
    current_group: Vec<String>,
    client_info: ClientInfo,
}

impl View for WebConsole {
    type V = ConsoleView;

    closed spec fn view(&self) -> ConsoleView {
        ConsoleView {
            uri: self.uri@,
            enabled: self.is_enable,
            connected: self.connected,
            groups: self.current_group.deep_view(),
            info: self.client_info,
        }
    }
}

/// The address starts with a WebSocket scheme.
pub open spec fn has_scheme(u: Seq<char>) -> bool {
    has_prefix(u, "ws://"@) || has_prefix(u, "wss://"@)
}

/// The frame that a logging call leads to, in state `v`: none while logging
/// is off; a connection attempt to the endpoint while none is live;
/// otherwise the envelope of the message, stamped with some time.
pub open spec fn dispatched(v: ConsoleView, kind: LogType, items: Seq<Seq<char>>, a: Action) -> bool {
    if !v.enabled {
        a is Skip
    } else if !v.connected {
        a is Connect && a->Connect_0@ == v.uri
    } else {
        a is Send && exists|t: i64| a->Send_0@ == envelope(t as int, kind, &v.info, items)
    }
}

/// The state after the endpoint is set from the address `raw`: the
/// resolved endpoint, and no live connection.
pub open spec fn after_set_uri(v: ConsoleView, raw: Seq<char>) -> ConsoleView {
    ConsoleView { uri: resolve_raw(raw), connected: false, ..v }
}

/// The state after a group labelled `label` is opened.
pub open spec fn after_group(v: ConsoleView, label: Seq<char>) -> ConsoleView {
    ConsoleView { groups: v.groups.push(label), ..v }
}

/// The state after the innermost group is closed; with none open, `v`.
pub open spec fn after_group_end(v: ConsoleView) -> ConsoleView {
    if v.groups.len() > 0 {
        ConsoleView { groups: v.groups.drop_last(), ..v }
    } else {
        v
    }
}

/// The resolved endpoint of any address starts with a WebSocket scheme.
pub proof fn lemma_resolve_has_scheme(raw: Seq<char>)
    ensures
        has_scheme(resolve_raw(raw)),
{
    let u = with_scheme(trimmed(raw));
    if !(has_prefix(trimmed(raw), "ws://"@) || has_prefix(trimmed(raw), "wss://"@)) {
        assert(("ws://"@ + trimmed(raw)).subrange(0, "ws://"@.len() as int) =~= "ws://"@);
    }
    assert(has_scheme(u));
    let v = u + ":9090"@;
    assert(v.subrange(0, "ws://"@.len() as int) =~= u.subrange(0, "ws://"@.len() as int)
        || "ws://"@.len() > u.len());
    if has_prefix(u, "wss://"@) {
        assert(v.subrange(0, "wss://"@.len() as int) =~= u.subrange(0, "wss://"@.len() as int));
    }
}

impl WebConsole {
    /// The endpoint for an optional address: the default when there is none;
    /// otherwise the trimmed address, with `ws://` in front unless it has a
    /// WebSocket scheme, and with the port `9090` added when it has no port
    /// and names a dotted-quad host or `localhost` directly after the colon.
    pub fn get_uri(uri: Option<&str>) -> (r: String)
        ensures
            r@ == resolved(
                match uri {
                    Some(u) => Some(u@),
                    None => None,
                },
            ),
    {
        let raw = match uri {
            None => return String::from_str(DEFAULT_URI),
            Some(u) => trim_text(u),
        };
        let mut uri_new = if starts_with(raw, "ws://") || starts_with(raw, "wss://") {
            String::from_str(raw)
        } else {
            let mut s = String::from_str("ws://");
            s.append(raw);
            s
        };
        let (colons, last) = cut(uri_new.as_str(), ':');
        if colons == 1 {
            let n = uri_new.as_str().unicode_len();
            let host = uri_new.as_str().substring_char(last, n);
            let (dots, _) = cut(host, '.');
            if dots == 3 || same_text(host, "localhost") {
                uri_new.append(":9090");
            }
        }
        uri_new
    }

    /// A client for the default endpoint, logging on, with no connection and
    /// no open group.
    pub fn new(client_info: ClientInfo) -> (r: WebConsole)
        ensures
            r@.uri == DEFAULT_URI@,
            has_scheme(r@.uri),
            r@.enabled,
            !r@.connected,
            r@.groups == Seq::<Seq<char>>::empty(),
            r@.info == client_info,
    {
        let r = WebConsole {
            uri: String::from_str(DEFAULT_URI),
            is_enable: true,
            connected: false,
            current_group: Vec::new(),
            client_info,
        };
        assert(r.current_group.deep_view() =~= Seq::<Seq<char>>::empty());
        proof {
            reveal_strlit("ws://localhost:9090");
            reveal_strlit("ws://");
            assert(r@.uri.subrange(0, 5) =~= "ws://"@);
        }
        r
    }

    /// The endpoint in use.
    pub fn uri(&self) -> (r: &str)
        ensures
            r@ == self@.uri,
    {
        self.uri.as_str()
    }

    /// The client record attached to every message.
    pub fn client_info(&self) -> (r: &ClientInfo)
        ensures
            *r == self@.info,
    {
        &self.client_info
    }

    /// What a message of kind `log_type` with the JSON values `args` leads to.
    pub fn send_log(&self, log_type: LogType, args: &Vec<String>) -> (r: Action)
        ensures
            dispatched(self@, log_type, args.deep_view(), r),
    {
        if !self.is_enable {
            return Action::Skip;
        }
        if !self.connected {
            return Action::Connect(self.uri.clone());
        }
        let t = now_seconds();
        let f = envelope_text(t, log_type, &self.client_info, args);
        assert(f@ == envelope(t as int, log_type, &self@.info, args.deep_view()));
        Action::Send(f)
    }

    /// Takes the outcome of a connection attempt made for a message: on
    /// success the connection is live and the message's frame is sent; on
    /// failure there is still no connection, and the message is dropped.
    pub fn finish_connect(&mut self, ok: bool, log_type: LogType, args: &Vec<String>) -> (r: Action)
        ensures
            final(self)@ == (ConsoleView { connected: ok, ..old(self)@ }),
            ok ==> r is Send && exists|t: i64|
                r->Send_0@ == envelope(t as int, log_type, &old(self)@.info, args.deep_view()),
            !ok ==> r is Skip,
    {
        self.connected = ok;
        if !ok {
            return Action::Skip;
        }
        let t = now_seconds();
        let f = envelope_text(t, log_type, &self.client_info, args);
        assert(f@ == envelope(t as int, log_type, &self@.info, args.deep_view()));
        Action::Send(f)
    }
}

/// The logging operations on a client.
pub struct NConsole;

/// The one JSON value of a group message: the label as a JSON string.
pub open spec fn label_items(label: Seq<char>) -> Seq<Seq<char>> {
    seq![json_string_of(label)]
}

/// The JSON values of a group message: the label as a JSON string.
pub fn label_values(label: &str) -> (r: Vec<String>)
    ensures
        r.deep_view() == label_items(label@),
{
    let r = vec![quote(label)];
    assert(r.deep_view() =~= label_items(label@));
    r
}

impl NConsole {
    /// Points the client at the endpoint resolved from `uri`; any live
    /// connection is given up, so the next message connects afresh.
    pub fn set_uri(console: &mut WebConsole, uri: &str)
        ensures
            final(console)@ == after_set_uri(old(console)@, uri@),
            has_scheme(final(console)@.uri),
    {
        console.uri = WebConsole::get_uri(Some(uri));
        console.connected = false;
        proof {
            lemma_resolve_has_scheme(uri@);
        }
    }

    /// Turns logging on or off.
    pub fn is_enable(console: &mut WebConsole, enable: bool)
        ensures
            final(console)@ == (ConsoleView { enabled: enable, ..old(console)@ }),
    {
        console.is_enable = enable;
    }

    /// A message of kind `log` with the JSON values `args`.
    pub fn log(console: &WebConsole, args: &Vec<String>) -> (r: Action)
        ensures
            dispatched(console@, LogType::Log, args.deep_view(), r),
    {
        console.send_log(LogType::Log, args)
    }

    /// A message of kind `info` with the JSON values `args`.
    pub fn info(console: &WebConsole, args: &Vec<String>) -> (r: Action)
        ensures
            dispatched(console@, LogType::Info, args.deep_view(), r),
    {
        console.send_log(LogType::Info, args)
    }

    /// A message of kind `warn` with the JSON values `args`.
    pub fn warn(console: &WebConsole, args: &Vec<String>) -> (r: Action)
        ensures
            dispatched(console@, LogType::Warn, args.deep_view(), r),
    {
        console.send_log(LogType::Warn, args)
    }

    /// A message of kind `error` with the JSON values `args`.
    pub fn error(console: &WebConsole, args: &Vec<String>) -> (r: Action)
        ensures
            dispatched(console@, LogType::Error, args.deep_view(), r),
    {
        console.send_log(LogType::Error, args)
    }

    /// Opens a group labelled `label`, and announces it.
    pub fn group(console: &mut WebConsole, label: &str) -> (r: Action)
        ensures
            final(console)@ == after_group(old(console)@, label@),
            dispatched(old(console)@, LogType::Group, label_items(label@), r),
    {
        NConsole::open(console, label, LogType::Group)
    }

    /// Opens a collapsed group labelled `label`, and announces it.
    pub fn group_collapsed(console: &mut WebConsole, label: &str) -> (r: Action)
        ensures
            final(console)@ == after_group(old(console)@, label@),
            dispatched(old(console)@, LogType::GroupCollapsed, label_items(label@), r),
    {
        NConsole::open(console, label, LogType::GroupCollapsed)
    }

    fn open(console: &mut WebConsole, label: &str, kind: LogType) -> (r: Action)
        ensures
            final(console)@ == after_group(old(console)@, label@),
            dispatched(old(console)@, kind, label_items(label@), r),
    {
        console.current_group.push(String::from_str(label));
        assert(console@.groups =~= old(console)@.groups.push(label@));
        let items = label_values(label);
        let r = console.send_log(kind, &items);
        assert(console@.info == old(console)@.info);
        r
    }

    /// Closes the innermost group and announces it; with no group open,
    /// nothing happens and nothing is sent.
    pub fn group_end(console: &mut WebConsole) -> (r: Action)
        ensures
            final(console)@ == after_group_end(old(console)@),
            old(console)@.groups.len() == 0 ==> r is Skip,
            old(console)@.groups.len() > 0 ==> dispatched(
                old(console)@,
                LogType::GroupEnd,
                label_items(Seq::<char>::empty()),
                r,
            ),
    {
        if console.current_group.pop().is_some() {
            assert(console@.groups =~= old(console)@.groups.drop_last());
            let items = label_values("");
            proof {
                reveal_strlit("");
                assert(""@ =~= Seq::<char>::empty());
            }
            let r = console.send_log(LogType::GroupEnd, &items);
            assert(console@.info == old(console)@.info);
            r
        } else {
            Action::Skip
        }
    }
}

} // verus!
