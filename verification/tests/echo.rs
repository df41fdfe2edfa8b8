use fae::echo::{echo_server_reply, simple_echo_reply, echo_client_reply, EchoReply, ServerTicker, ServerTick,
    ClientTicker, ClientStep, server_status};
use fae::jsonrpc::json::{JsonValue, JsonNumber};

fn s(x: &str) -> JsonValue {
    JsonValue::Str(x.to_string())
}

fn obj(entries: Vec<(&str, JsonValue)>) -> JsonValue {
    JsonValue::Object(entries.into_iter().map(|(k, v)| (k.to_string(), v)).collect())
}

fn invalid(r: EchoReply) -> String {
    match r {
        EchoReply::InvalidParams(m) => m,
        other => panic!("expected invalid params, got {:?}", other),
    }
}

fn str_of(v: &JsonValue) -> &str {
    match v {
        JsonValue::Str(x) => x.as_str(),
        _ => panic!("not a string"),
    }
}

#[test]
fn echo_server_echoes_and_pings() {
    assert!(matches!(echo_server_reply("echo", Some(s("hi"))), EchoReply::Value(JsonValue::Str(x)) if x == "hi"));
    assert!(matches!(echo_server_reply("echo", None), EchoReply::Value(JsonValue::Null)));
    assert!(matches!(echo_server_reply("ping", Some(s("x"))), EchoReply::Value(JsonValue::Str(x)) if x == "pong"));
    assert!(matches!(echo_server_reply("nope", None), EchoReply::MethodNotImplemented(m) if m == "nope"));
}

#[test]
fn echo_server_adds() {
    let arr = JsonValue::Array(vec![JsonValue::Number(JsonNumber::PosInt(2)), JsonValue::Number(JsonNumber::NegInt(-3))]);
    assert!(matches!(echo_server_reply("add", Some(arr)),
        EchoReply::Sum(JsonNumber::PosInt(2), JsonNumber::NegInt(-3))));
    let o = obj(vec![("b", JsonValue::Number(JsonNumber::PosInt(7))), ("a", JsonValue::Number(JsonNumber::PosInt(1)))]);
    assert!(matches!(echo_server_reply("add", Some(o)), EchoReply::Sum(JsonNumber::PosInt(1), JsonNumber::PosInt(7))));
    assert_eq!(invalid(echo_server_reply("add", Some(JsonValue::Array(vec![s("x"), JsonValue::Number(JsonNumber::PosInt(1))])))),
        "First parameter must be a number");
    assert_eq!(invalid(echo_server_reply("add", Some(JsonValue::Array(vec![JsonValue::Number(JsonNumber::PosInt(1)), JsonValue::Null])))),
        "Second parameter must be a number");
    assert_eq!(invalid(echo_server_reply("add", Some(obj(vec![("b", JsonValue::Number(JsonNumber::PosInt(1)))])))),
        "Missing or invalid 'a' parameter");
    assert_eq!(invalid(echo_server_reply("add", Some(obj(vec![("a", JsonValue::Number(JsonNumber::PosInt(1))), ("b", s("2"))])))),
        "Missing or invalid 'b' parameter");
    let expected = "Parameters must be [a, b] or {\"a\": number, \"b\": number}";
    assert_eq!(invalid(echo_server_reply("add", None)), expected);
    assert_eq!(invalid(echo_server_reply("add", Some(JsonValue::Array(vec![])))), expected);
}

#[test]
fn echo_server_describes_itself() {
    match echo_server_reply("info", None) {
        EchoReply::Value(JsonValue::Object(es)) => {
            let keys: Vec<&str> = es.iter().map(|(k, _)| k.as_str()).collect();
            assert_eq!(keys, vec!["name", "version", "methods", "capabilities", "description"]);
            assert_eq!(str_of(&es[0].1), "bidirectional_echo_server");
            assert_eq!(str_of(&es[1].1), "1.0.0");
            match &es[2].1 {
                JsonValue::Array(a) => assert_eq!(a.iter().map(str_of).collect::<Vec<_>>(), vec!["echo", "ping", "add", "info"]),
                _ => panic!("methods"),
            }
        }
        other => panic!("unexpected {:?}", other),
    }
}

#[test]
fn simple_echo_and_client_replies() {
    assert!(matches!(simple_echo_reply("echo", None), EchoReply::Value(JsonValue::Null)));
    assert!(matches!(simple_echo_reply("ping", None), EchoReply::Value(JsonValue::Str(x)) if x == "pong"));
    assert!(matches!(simple_echo_reply("add", None), EchoReply::MethodNotImplemented(m) if m == "add"));
    assert!(matches!(echo_client_reply("shutdown"), EchoReply::Value(JsonValue::Str(x)) if x == "acknowledged"));
    assert!(matches!(echo_client_reply("other"), EchoReply::MethodNotImplemented(m) if m == "other"));
    match echo_client_reply("get_client_info") {
        EchoReply::Value(JsonValue::Object(es)) => {
            assert_eq!(es[0].0, "client_name");
            assert_eq!(str_of(&es[0].1), "bidirectional_echo_client");
        }
        other => panic!("unexpected {:?}", other),
    }
}

#[test]
fn server_ticker_reports_and_stops() {
    let mut t = ServerTicker::new(200);
    let mut statuses = 0;
    let mut last = ServerTick { send_status: false, keep_running: true };
    for _ in 0..200 {
        last = t.on_tick();
        if last.send_status {
            statuses += 1;
        }
        if !last.keep_running {
            break;
        }
    }
    assert_eq!(t.tick_count, 200);
    assert_eq!(statuses, 2);
    assert!(!last.keep_running);
    let mut forever = ServerTicker::new(0);
    for _ in 0..1000 {
        assert!(forever.on_tick().keep_running);
    }
    match server_status(100, "t".to_string()) {
        JsonValue::Object(es) => {
            assert_eq!(es[0].0, "tick");
            assert!(matches!(es[0].1, JsonValue::Number(JsonNumber::PosInt(100))));
            assert_eq!(str_of(&es[1].1), "running");
            assert_eq!(str_of(&es[2].1), "t");
        }
        _ => panic!("status"),
    }
}

#[test]
fn client_ticker_phases() {
    let mut t = ClientTicker::new();
    assert_eq!(t.on_tick(), ClientStep::Idle);
    assert_eq!(t.test_phase, 0);
    t = ClientTicker { tick_count: 9, test_phase: 0, connected: true };
    assert_eq!(t.on_tick(), ClientStep::BasicRequests);
    t = ClientTicker { tick_count: 49, test_phase: 3, connected: true };
    assert_eq!(t.on_tick(), ClientStep::BasicRequests);
    assert_eq!(t.test_phase, 4);
    t = ClientTicker { tick_count: 4, test_phase: 60, connected: true };
    assert_eq!(t.on_tick(), ClientStep::Notifications);
    t = ClientTicker { tick_count: 7, test_phase: 120, connected: true };
    assert_eq!(t.on_tick(), ClientStep::MixedOperations);
    t = ClientTicker { tick_count: 6, test_phase: 120, connected: true };
    assert_eq!(t.on_tick(), ClientStep::Idle);
    t = ClientTicker { tick_count: 99, test_phase: 151, connected: true };
    assert_eq!(t.on_tick(), ClientStep::Finish);
    assert_eq!(t.test_phase, 151);
}
