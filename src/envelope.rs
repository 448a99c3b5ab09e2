//! The wire format: one JSON object per logging call, whose payload is
//! itself JSON text carried as a JSON string.
use vstd::prelude::*;
use vstd::string::*;

verus! {

/// The lowercase hexadecimal digit for `d`, which is below sixteen.
pub open spec fn hex_digit(d: nat) -> char {
    if d < 10 {
        digit(d)
    } else if d == 10 {
        'a'
    } else if d == 11 {
        'b'
    } else if d == 12 {
        'c'
    } else if d == 13 {
        'd'
    } else if d == 14 {
        'e'
    } else {
        'f'
    }
}

/// How one character is written inside a JSON string: the quote and the
/// backslash after a backslash, the five control characters that have a
/// short form by it, the other controls below U+0020 as `\u00XX` in
/// lowercase hexadecimal, and every other character as it is.
pub open spec fn escaped_char(c: char) -> Seq<char> {
    let n = c as u32;
    if c == '"' {
        seq!['\\', '"']
    } else if c == '\\' {
        seq!['\\', '\\']
    } else if n == 0x08 {
        seq!['\\', 'b']
    } else if n == 0x09 {
        seq!['\\', 't']
    } else if n == 0x0a {
        seq!['\\', 'n']
    } else if n == 0x0c {
        seq!['\\', 'f']
    } else if n == 0x0d {
        seq!['\\', 'r']
    } else if n < 0x20 {
        seq!['\\', 'u', '0', '0', hex_digit((n / 16) as nat), hex_digit((n % 16) as nat)]
    } else {
        seq![c]
    }
}

/// The characters of `s`, each written as inside a JSON string.
pub open spec fn escaped(s: Seq<char>) -> Seq<char>
    decreases s.len(),
{
    if s.len() == 0 {
        Seq::empty()
    } else {
        escaped(s.drop_last()) + escaped_char(s.last())
    }
}

/// The JSON string literal for the characters `s`, quotes included.
pub open spec fn json_string_of(s: Seq<char>) -> Seq<char> {
    seq!['"'] + escaped(s) + seq!['"']
}

/// Relies on `serde_json::to_string` on a `str`: it writes the JSON string
/// literal for it, escaped as `escaped_char` says. Serialising a `str` has
/// no failing case.
#[verifier::external_body]
pub(crate) fn quote(s: &str) -> (r: String)
    ensures
        r@ == json_string_of(s@),
{
    match serde_json::to_string(s) {
        Ok(t) => t,
        Err(_) => String::new(),
    }
}

/// The decimal digit for `d`, which is below ten.
pub open spec fn digit(d: nat) -> char {
    if d == 0 { '0' }
    else if d == 1 { '1' }
    else if d == 2 { '2' }
    else if d == 3 { '3' }
    else if d == 4 { '4' }
    else if d == 5 { '5' }
    else if d == 6 { '6' }
    else if d == 7 { '7' }
    else if d == 8 { '8' }
    else { '9' }
}

/// The decimal digits of `n`, without leading zeros.
pub open spec fn nat_digits(n: nat) -> Seq<char>
    decreases n,
{
    if n < 10 {
        seq![digit(n)]
    } else {
        nat_digits(n / 10).push(digit(n % 10))
    }
}

/// The decimal text of `n`, with a minus sign when it is negative.
pub open spec fn decimal(n: int) -> Seq<char> {
    if n < 0 {
        seq!['-'] + nat_digits((-n) as nat)
    } else {
        nat_digits(n as nat)
    }
}

/// The text of the decimal digit `d`.
fn digit_text(d: u64) -> (r: &'static str)
    requires
        d < 10,
    ensures
        r@ == seq![digit(d as nat)],
{
    proof {
        reveal_strlit("0");
        reveal_strlit("1");
        reveal_strlit("2");
        reveal_strlit("3");
        reveal_strlit("4");
        reveal_strlit("5");
        reveal_strlit("6");
        reveal_strlit("7");
        reveal_strlit("8");
        reveal_strlit("9");
    }
    let r = if d == 0 {
        "0"
    } else if d == 1 {
        "1"
    } else if d == 2 {
        "2"
    } else if d == 3 {
        "3"
    } else if d == 4 {
        "4"
    } else if d == 5 {
        "5"
    } else if d == 6 {
        "6"
    } else if d == 7 {
        "7"
    } else if d == 8 {
        "8"
    } else {
        "9"
    };
    assert(r@ =~= seq![digit(d as nat)]);
    r
}

/// The decimal digits of `m`.
fn digits_text(m: u64) -> (r: String)
    ensures
        r@ == nat_digits(m as nat),
    decreases m,
{
    if m < 10 {
        String::from_str(digit_text(m))
    } else {
        let mut r = digits_text(m / 10);
        r.append(digit_text(m % 10));
        r
    }
}

/// The decimal text of `n`.
pub fn decimal_text(n: i64) -> (r: String)
    ensures
        r@ == decimal(n as int),
{
    if n < 0 {
        let m: u64 = if n == i64::MIN {
            9223372036854775808u64
        } else {
            (-n) as u64
        };
        let mut r = String::from_str("-");
        let t = digits_text(m);
        r.append(t.as_str());
        proof {
            reveal_strlit("-");
        }
        assert(r@ =~= seq!['-'] + nat_digits((-n) as nat));
        r
    } else {
        digits_text(n as u64)
    }
}

/// Relies on chrono's `From<SystemTime> for DateTime<Utc>` and
/// `DateTime::timestamp`: the current time in whole seconds since the Unix
/// epoch, negative for a clock set before it (where `Utc::now` would panic).
/// Nothing is known of its value.
#[verifier::external_body]
pub(crate) fn now_seconds() -> (r: i64) {
    chrono::DateTime::<chrono::Utc>::from(std::time::SystemTime::now()).timestamp()
}

/// The kind of a console message.
#[derive(Clone, Copy, Debug, PartialEq, Eq, Structural)]
pub enum LogType {
    Log,
    Info,
    Warn,
    Error,
    Group,
    GroupCollapsed,
    GroupEnd,
}

/// The name of a kind on the wire.
pub open spec fn kind_name(k: LogType) -> Seq<char> {
    match k {
        LogType::Log => "log"@,
        LogType::Info => "info"@,
        LogType::Warn => "warn"@,
        LogType::Error => "error"@,
        LogType::Group => "group"@,
        LogType::GroupCollapsed => "groupCollapsed"@,
        LogType::GroupEnd => "groupEnd"@,
    }
}

impl LogType {
    /// The name of this kind on the wire.
    pub fn as_str(&self) -> (r: &'static str)
        ensures
            r@ == kind_name(*self),
    {
        match self {
            LogType::Log => "log",
            LogType::Info => "info",
            LogType::Warn => "warn",
            LogType::Error => "error",
            LogType::Group => "group",
            LogType::GroupCollapsed => "groupCollapsed",
            LogType::GroupEnd => "groupEnd",
        }
    }
}

/// What the client says of its environment; attached to every message.
#[derive(Clone, Debug)]
pub struct ClientInfo {
    pub id: String,
    pub name: String,
    pub platform: String,
    pub version: String,
    pub os: String,
    pub os_version: String,
    pub language: String,
    pub time_zone: String,
    pub user_agent: String,
}

/// The identification `Rust/<compiler version> (<os>)`.
pub open spec fn agent_text(rustc: Seq<char>, os: Seq<char>) -> Seq<char> {
    "Rust/"@ + rustc + " ("@ + os + ")"@
}

impl ClientInfo {
    /// The record for the probed environment: the compiler version, the
    /// operating system and its version, the `LANG` setting if any, the
    /// time zone offset and the version of this package.
    pub fn new(
        rustc_version: &str,
        os: &str,
        os_version: &str,
        lang: Option<&str>,
        time_zone: &str,
        package_version: &str,
    ) -> (r: ClientInfo)
        ensures
            r.id@ == agent_text(rustc_version@, os@),
            r.name@ == "Rust Client"@,
            r.platform@ == "rust"@,
            r.version@ == package_version@,
            r.os@ == os@,
            r.os_version@ == os_version@,
            r.language@ == (match lang {
                Some(l) => l@,
                None => "en-US"@,
            }),
            r.time_zone@ == time_zone@,
            r.user_agent@ == agent_text(rustc_version@, os@),
    {
        let mut id = String::from_str("Rust/");
        id.append(rustc_version);
        id.append(" (");
        id.append(os);
        id.append(")");
        let mut user_agent = String::from_str("Rust/");
        user_agent.append(rustc_version);
        user_agent.append(" (");
        user_agent.append(os);
        user_agent.append(")");
        let language = match lang {
            Some(l) => String::from_str(l),
            None => String::from_str("en-US"),
        };
        ClientInfo {
            id,
            name: String::from_str("Rust Client"),
            platform: String::from_str("rust"),
            version: String::from_str(package_version),
            os: String::from_str(os),
            os_version: String::from_str(os_version),
            language,
            time_zone: String::from_str(time_zone),
            user_agent,
        }
    }
}

/// The client record as a JSON object, its keys in sorted order.
pub open spec fn info_json(i: &ClientInfo) -> Seq<char> {
    "{\"id\":"@ + json_string_of(i.id@) + ",\"language\":"@ + json_string_of(i.language@)
        + ",\"name\":"@ + json_string_of(i.name@) + ",\"os\":"@ + json_string_of(i.os@)
        + ",\"os_version\":"@ + json_string_of(i.os_version@) + ",\"platform\":"@
        + json_string_of(i.platform@) + ",\"time_zone\":"@ + json_string_of(i.time_zone@)
        + ",\"user_agent\":"@ + json_string_of(i.user_agent@) + ",\"version\":"@
        + json_string_of(i.version@) + "}"@
}

/// The items joined with commas between them.
pub open spec fn joined(items: Seq<Seq<char>>) -> Seq<char>
    decreases items.len(),
{
    if items.len() == 0 {
        Seq::empty()
    } else if items.len() == 1 {
        items[0]
    } else {
        joined(items.drop_last()) + ","@ + items.last()
    }
}

/// A JSON array of the given JSON texts.
pub open spec fn json_array(items: Seq<Seq<char>>) -> Seq<char> {
    "["@ + joined(items) + "]"@
}

/// The text carried in `payload.data`: the client record and the values.
pub open spec fn payload_json(info: &ClientInfo, items: Seq<Seq<char>>) -> Seq<char> {
    "{\"clientInfo\":"@ + info_json(info) + ",\"data\":"@ + json_array(items) + "}"@
}

/// A frame around the already quoted payload text `data`; its keys in
/// sorted order.
pub open spec fn frame(timestamp: int, kind: LogType, data: Seq<char>) -> Seq<char> {
    "{\"language\":\"rust\",\"logType\":\""@ + kind_name(kind) + "\",\"payload\":{\"data\":"@ + data
        + "},\"secure\":false,\"timestamp\":"@ + decimal(timestamp) + "}"@
}

/// The frame for one message: the payload text carried as a JSON string.
pub open spec fn envelope(
    timestamp: int,
    kind: LogType,
    info: &ClientInfo,
    items: Seq<Seq<char>>,
) -> Seq<char> {
    frame(timestamp, kind, json_string_of(payload_json(info, items)))
}

/// Appends `"<key>":<quoted value>` to `out`.
fn append_field(out: &mut String, key: &str, value: &String)
    ensures
        final(out)@ == old(out)@ + key@ + json_string_of(value@),
{
    out.append(key);
    let q = quote(value.as_str());
    out.append(q.as_str());
}

/// The client record as JSON text.
pub fn info_text(info: &ClientInfo) -> (r: String)
    ensures
        r@ == info_json(info),
{
    let mut out = String::from_str("{\"id\":");
    let q = quote(info.id.as_str());
    out.append(q.as_str());
    append_field(&mut out, ",\"language\":", &info.language);
    append_field(&mut out, ",\"name\":", &info.name);
    append_field(&mut out, ",\"os\":", &info.os);
    append_field(&mut out, ",\"os_version\":", &info.os_version);
    append_field(&mut out, ",\"platform\":", &info.platform);
    append_field(&mut out, ",\"time_zone\":", &info.time_zone);
    append_field(&mut out, ",\"user_agent\":", &info.user_agent);
    append_field(&mut out, ",\"version\":", &info.version);
    out.append("}");
    out
}

/// A JSON array of the given JSON texts.
pub fn array_text(items: &Vec<String>) -> (r: String)
    ensures
        r@ == json_array(items.deep_view()),
{
    let ghost dv = items.deep_view();
    let mut out = String::from_str("[");
    let mut i: usize = 0;
    assert(dv.take(0) =~= Seq::<Seq<char>>::empty());
    while i < items.len()
        invariant
            dv == items.deep_view(),
            i <= items.len(),
            out@ == "["@ + joined(dv.take(i as int)),
        decreases items.len() - i,
    {
        assert(dv.take(i + 1).drop_last() =~= dv.take(i as int));
        if i > 0 {
            out.append(",");
        } else {
            assert(joined(dv.take(0)) =~= Seq::<char>::empty());
            assert(out@ =~= "["@);
        }
        out.append(items[i].as_str());
        i = i + 1;
    }
    assert(dv.take(i as int) =~= dv);
    out.append("]");
    out
}

/// The text carried in `payload.data`, before it is quoted.
pub fn payload_text(info: &ClientInfo, items: &Vec<String>) -> (r: String)
    ensures
        r@ == payload_json(info, items.deep_view()),
{
    let mut inner = String::from_str("{\"clientInfo\":");
    let it = info_text(info);
    inner.append(it.as_str());
    inner.append(",\"data\":");
    let arr = array_text(items);
    inner.append(arr.as_str());
    inner.append("}");
    inner
}

/// The frame of kind `kind` sent at `timestamp` (seconds since the epoch)
/// around the quoted payload text `data`.
pub fn frame_text(timestamp: i64, kind: LogType, data: &str) -> (r: String)
    ensures
        r@ == frame(timestamp as int, kind, data@),
{
    let mut out = String::from_str("{\"language\":\"rust\",\"logType\":\"");
    out.append(kind.as_str());
    out.append("\",\"payload\":{\"data\":");
    out.append(data);
    out.append("},\"secure\":false,\"timestamp\":");
    let ts = decimal_text(timestamp);
    out.append(ts.as_str());
    out.append("}");
    out
}

/// The frame for one message sent at `timestamp` (seconds since the epoch).
pub fn envelope_text(
    timestamp: i64,
    kind: LogType,
    info: &ClientInfo,
    items: &Vec<String>,
) -> (r: String)
    ensures
        r@ == envelope(timestamp as int, kind, info, items.deep_view()),
{
    let inner = payload_text(info, items);
    let q = quote(inner.as_str());
    frame_text(timestamp, kind, q.as_str())
}

} // verus!
