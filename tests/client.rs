use nconsole::console::{label_values, Action, NConsole, WebConsole};
use nconsole::envelope::{array_text, decimal_text, envelope_text, info_text, ClientInfo, LogType};

fn sample_info() -> ClientInfo {
    ClientInfo::new("1.80.0", "linux", "6.1", Some("fr_FR"), "+02:00", "0.1.0")
}

fn frame_of(a: Action) -> String {
    match a {
        Action::Send(f) => f,
        other => panic!("expected a frame, got {:?}", other),
    }
}

#[test]
fn client_info_fields() {
    let i = sample_info();
    assert_eq!(i.id, "Rust/1.80.0 (linux)");
    assert_eq!(i.user_agent, "Rust/1.80.0 (linux)");
    assert_eq!(i.name, "Rust Client");
    assert_eq!(i.platform, "rust");
    assert_eq!(i.version, "0.1.0");
    assert_eq!(i.os, "linux");
    assert_eq!(i.os_version, "6.1");
    assert_eq!(i.language, "fr_FR");
    assert_eq!(i.time_zone, "+02:00");
    let d = ClientInfo::new("1.0.0", "macos", "14", None, "Z", "2");
    assert_eq!(d.language, "en-US");
}

#[test]
fn info_text_sorted_keys() {
    let t = info_text(&sample_info());
    assert_eq!(
        t,
        "{\"id\":\"Rust/1.80.0 (linux)\",\"language\":\"fr_FR\",\"name\":\"Rust Client\",\"os\":\"linux\",\"os_version\":\"6.1\",\"platform\":\"rust\",\"time_zone\":\"+02:00\",\"user_agent\":\"Rust/1.80.0 (linux)\",\"version\":\"0.1.0\"}"
    );
}

#[test]
fn array_text_joins_values() {
    assert_eq!(array_text(&vec![]), "[]");
    assert_eq!(array_text(&vec!["1".to_string()]), "[1]");
    assert_eq!(
        array_text(&vec!["\"a\"".to_string(), "true".to_string(), "{\"k\":2}".to_string()]),
        "[\"a\",true,{\"k\":2}]"
    );
}

#[test]
fn envelope_exact_text() {
    let info = ClientInfo::new("r", "o", "v", Some("l"), "z", "p");
    let f = envelope_text(-5, LogType::Warn, &info, &vec!["\"x\"".to_string()]);
    let expected = [
        "{\"language\":\"rust\",\"logType\":\"warn\",\"payload\":{\"data\":",
        "\"{\\\"clientInfo\\\":{\\\"id\\\":\\\"Rust/r (o)\\\",\\\"language\\\":\\\"l\\\",",
        "\\\"name\\\":\\\"Rust Client\\\",\\\"os\\\":\\\"o\\\",\\\"os_version\\\":\\\"v\\\",",
        "\\\"platform\\\":\\\"rust\\\",\\\"time_zone\\\":\\\"z\\\",\\\"user_agent\\\":\\\"Rust/r (o)\\\",",
        "\\\"version\\\":\\\"p\\\"},\\\"data\\\":[\\\"x\\\"]}\"",
        "},\"secure\":false,\"timestamp\":-5}",
    ]
    .concat();
    assert_eq!(f, expected);
}

#[test]
fn envelope_payload_is_double_encoded() {
    let info = sample_info();
    let f = envelope_text(1700000000, LogType::Log, &info, &vec!["\"Hello, World!\"".to_string(), "18".to_string()]);
    let v: serde_json::Value = serde_json::from_str(&f).unwrap();
    assert_eq!(v["timestamp"], 1700000000);
    assert_eq!(v["logType"], "log");
    assert_eq!(v["language"], "rust");
    assert_eq!(v["secure"], false);
    let data = v["payload"]["data"].as_str().unwrap();
    let inner: serde_json::Value = serde_json::from_str(data).unwrap();
    assert_eq!(inner["data"][0], "Hello, World!");
    assert_eq!(inner["data"][1], 18);
    assert_eq!(inner["clientInfo"]["id"], "Rust/1.80.0 (linux)");
}

#[test]
fn kind_names() {
    assert_eq!(LogType::Log.as_str(), "log");
    assert_eq!(LogType::Info.as_str(), "info");
    assert_eq!(LogType::Warn.as_str(), "warn");
    assert_eq!(LogType::Error.as_str(), "error");
    assert_eq!(LogType::Group.as_str(), "group");
    assert_eq!(LogType::GroupCollapsed.as_str(), "groupCollapsed");
    assert_eq!(LogType::GroupEnd.as_str(), "groupEnd");
}

#[test]
fn new_client_connects_to_default() {
    let c = WebConsole::new(sample_info());
    assert_eq!(c.uri(), "ws://localhost:9090");
    match NConsole::log(&c, &vec!["1".to_string()]) {
        Action::Connect(u) => assert_eq!(u, "ws://localhost:9090"),
        other => panic!("expected a connection attempt, got {:?}", other),
    }
}

#[test]
fn disabled_client_does_nothing() {
    let mut c = WebConsole::new(sample_info());
    NConsole::is_enable(&mut c, false);
    assert!(matches!(NConsole::log(&c, &vec!["1".to_string()]), Action::Skip));
    assert!(matches!(NConsole::error(&c, &vec![]), Action::Skip));
    assert!(matches!(NConsole::group(&mut c, "g"), Action::Skip));
    assert!(matches!(NConsole::group_end(&mut c), Action::Skip));
    // also once a connection is live
    let _ = c.finish_connect(true, LogType::Log, &vec![]);
    assert!(matches!(NConsole::info(&c, &vec![]), Action::Skip));
    assert!(matches!(NConsole::warn(&c, &vec![]), Action::Skip));
}

#[test]
fn set_uri_drops_live_connection() {
    let mut c = WebConsole::new(sample_info());
    let first = c.finish_connect(true, LogType::Info, &vec!["\"Server started\"".to_string()]);
    let f = frame_of(first);
    assert!(f.contains("\"logType\":\"info\""));
    assert!(matches!(NConsole::log(&c, &vec![]), Action::Send(_)));
    NConsole::set_uri(&mut c, "10.10.30.40");
    assert_eq!(c.uri(), "ws://10.10.30.40:9090");
    match NConsole::log(&c, &vec![]) {
        Action::Connect(u) => assert_eq!(u, "ws://10.10.30.40:9090"),
        other => panic!("expected a connection attempt, got {:?}", other),
    }
}

#[test]
fn failed_connect_drops_message_and_retries() {
    let mut c = WebConsole::new(sample_info());
    assert!(matches!(c.finish_connect(false, LogType::Log, &vec![]), Action::Skip));
    assert!(matches!(NConsole::log(&c, &vec![]), Action::Connect(_)));
}

#[test]
fn sends_continue_on_live_connection() {
    let mut c = WebConsole::new(sample_info());
    let _ = c.finish_connect(true, LogType::Log, &vec![]);
    // whatever became of these frames, the connection stays in use
    for _ in 0..3 {
        assert!(matches!(NConsole::warn(&c, &vec!["\"Memory usage high\"".to_string()]), Action::Send(_)));
    }
    assert!(matches!(NConsole::group(&mut c, "Test Group"), Action::Send(_)));
    assert!(matches!(NConsole::group_end(&mut c), Action::Send(_)));
    assert!(matches!(NConsole::error(&c, &vec![]), Action::Send(_)));
}

#[test]
fn group_frames_carry_label() {
    let mut c = WebConsole::new(sample_info());
    let _ = c.finish_connect(true, LogType::Log, &vec![]);
    let f = frame_of(NConsole::group_collapsed(&mut c, "Collapsed Group"));
    let v: serde_json::Value = serde_json::from_str(&f).unwrap();
    assert_eq!(v["logType"], "groupCollapsed");
    let inner: serde_json::Value = serde_json::from_str(v["payload"]["data"].as_str().unwrap()).unwrap();
    assert_eq!(inner["data"], serde_json::Value::Array(vec![serde_json::Value::String("Collapsed Group".to_string())]));
    let e = frame_of(NConsole::group_end(&mut c));
    let v: serde_json::Value = serde_json::from_str(&e).unwrap();
    assert_eq!(v["logType"], "groupEnd");
    let inner: serde_json::Value = serde_json::from_str(v["payload"]["data"].as_str().unwrap()).unwrap();
    assert_eq!(inner["data"], serde_json::Value::Array(vec![serde_json::Value::String(String::new())]));
}

#[test]
fn group_end_without_group_sends_nothing() {
    let mut c = WebConsole::new(sample_info());
    let _ = c.finish_connect(true, LogType::Log, &vec![]);
    assert!(matches!(NConsole::group_end(&mut c), Action::Skip));
    assert!(matches!(NConsole::group(&mut c, "a"), Action::Send(_)));
    assert!(matches!(NConsole::group(&mut c, "b"), Action::Send(_)));
    assert!(matches!(NConsole::group_end(&mut c), Action::Send(_)));
    assert!(matches!(NConsole::group_end(&mut c), Action::Send(_)));
    assert!(matches!(NConsole::group_end(&mut c), Action::Skip));
    assert!(matches!(NConsole::group_end(&mut c), Action::Skip));
}

#[test]
fn label_with_quote_is_escaped() {
    let mut c = WebConsole::new(sample_info());
    let _ = c.finish_connect(true, LogType::Log, &vec![]);
    let f = frame_of(NConsole::group(&mut c, "say \"hi\""));
    let v: serde_json::Value = serde_json::from_str(&f).unwrap();
    let inner: serde_json::Value = serde_json::from_str(v["payload"]["data"].as_str().unwrap()).unwrap();
    assert_eq!(inner["data"][0], "say \"hi\"");
}

#[test]
fn test_basic_logging() {
    let mut c = WebConsole::new(sample_info());
    NConsole::set_uri(&mut c, "10.10.30.40");
    NConsole::is_enable(&mut c, true);

    let expect_connect = |a: Action| match a {
        Action::Connect(u) => assert_eq!(u, "ws://10.10.30.40:9090"),
        other => panic!("expected a connection attempt, got {:?}", other),
    };

    // basic logging
    expect_connect(NConsole::log(&c, &vec!["\"Hello, World!\"".to_string()]));
    expect_connect(NConsole::info(&c, &vec!["\"Server started\"".to_string()]));
    expect_connect(NConsole::warn(&c, &vec!["\"Memory usage high\"".to_string()]));
    expect_connect(NConsole::error(&c, &vec!["\"Connection failed\"".to_string()]));

    // group logging
    expect_connect(NConsole::group(&mut c, "Test Group"));
    expect_connect(NConsole::log(&c, &vec!["\"Inside group\"".to_string()]));
    expect_connect(NConsole::group_end(&mut c));

    // collapsed group
    expect_connect(NConsole::group_collapsed(&mut c, "Collapsed Group"));
    let object = serde_json::to_string(&serde_json::to_string(&{
        let mut m = serde_json::Map::new();
        m.insert("name".to_string(), serde_json::Value::from("name"));
        m.insert("age".to_string(), serde_json::Value::from(18));
        serde_json::Value::Object(m)
    })
    .unwrap())
    .unwrap();
    let args = vec![
        "\"%cInside collapsed group\"".to_string(),
        "\"color: green; font-size: 20px; font-weight: bold\"".to_string(),
        object,
    ];
    expect_connect(NConsole::log(&c, &args));
    let f = frame_of(c.finish_connect(true, LogType::Log, &args));
    let v: serde_json::Value = serde_json::from_str(&f).unwrap();
    let inner: serde_json::Value = serde_json::from_str(v["payload"]["data"].as_str().unwrap()).unwrap();
    assert_eq!(inner["data"][2], "{\"age\":18,\"name\":\"name\"}");
    expect_send(NConsole::group_end(&mut c));
    assert!(matches!(NConsole::group_end(&mut c), Action::Skip));
}

fn expect_send(a: Action) {
    assert!(matches!(a, Action::Send(_)), "expected a frame, got {:?}", a);
}

#[test]
fn frame_text_exact() {
    assert_eq!(
        nconsole::envelope::frame_text(1234567890, LogType::GroupEnd, "\"p\""),
        "{\"language\":\"rust\",\"logType\":\"groupEnd\",\"payload\":{\"data\":\"p\"},\"secure\":false,\"timestamp\":1234567890}"
    );
    assert_eq!(
        nconsole::envelope::frame_text(0, LogType::Log, "\"\""),
        "{\"language\":\"rust\",\"logType\":\"log\",\"payload\":{\"data\":\"\"},\"secure\":false,\"timestamp\":0}"
    );
}

#[test]
fn payload_text_exact() {
    let info = ClientInfo::new("r", "o", "v", None, "z", "p");
    assert_eq!(
        nconsole::envelope::payload_text(&info, &vec!["1".to_string(), "false".to_string()]),
        "{\"clientInfo\":{\"id\":\"Rust/r (o)\",\"language\":\"en-US\",\"name\":\"Rust Client\",\"os\":\"o\",\"os_version\":\"v\",\"platform\":\"rust\",\"time_zone\":\"z\",\"user_agent\":\"Rust/r (o)\",\"version\":\"p\"},\"data\":[1,false]}"
    );
}

#[test]
fn decimal_text_values() {
    assert_eq!(decimal_text(0), "0");
    assert_eq!(decimal_text(7), "7");
    assert_eq!(decimal_text(10), "10");
    assert_eq!(decimal_text(-5), "-5");
    assert_eq!(decimal_text(1700000000), "1700000000");
    assert_eq!(decimal_text(i64::MAX), "9223372036854775807");
    assert_eq!(decimal_text(i64::MIN), "-9223372036854775808");
}

#[test]
fn label_values_escape_as_json() {
    assert_eq!(label_values("a"), vec!["\"a\"".to_string()]);
    assert_eq!(label_values(""), vec!["\"\"".to_string()]);
    assert_eq!(
        label_values("q\"b\\t\tn\nr\rf\u{c}x\u{8}c\u{1}d\u{1f}\u{7f}é"),
        vec!["\"q\\\"b\\\\t\\tn\\nr\\rf\\fx\\bc\\u0001d\\u001f\u{7f}é\"".to_string()]
    );
}
