//! The echo peers that exercise the JSON-RPC transport in both directions:
//! how each answers a request, and what each does on a tick of its main
//! loop.

use vstd::prelude::*;
use crate::jsonrpc::json::{JsonValue, JsonNumber, lookup, take_fields, distinct_keys};
use crate::text::str_eq;

verus! {

/// The answer of an echo peer to a request.
#[derive(Debug)]
pub enum EchoReply {
    /// Answer with this value.
    Value(JsonValue),
    /// Answer with the sum of the two numbers (computed as `f64`).
    Sum(JsonNumber, JsonNumber),
    /// Fail with an invalid-parameters error and this message.
    InvalidParams(String),
    /// Fail: the method is not implemented.
    MethodNotImplemented(String),
}

/// The value is the string `s`.
pub open spec fn is_str(v: JsonValue, s: Seq<char>) -> bool {
    v matches JsonValue::Str(x) && x@ == s
}

/// The value is an array of the strings `items`.
pub open spec fn is_str_array(v: JsonValue, items: Seq<Seq<char>>) -> bool {
    v matches JsonValue::Array(a) && a@.len() == items.len() && forall|i: int|
        0 <= i < items.len() ==> is_str(#[trigger] a@[i], items[i])
}

/// The value is an object whose entries have these keys, in order, and
/// values that satisfy `p` at their position.
pub open spec fn is_object_with(v: JsonValue, keys: Seq<Seq<char>>, p: spec_fn(int, JsonValue) -> bool) -> bool {
    v matches JsonValue::Object(es) && es@.len() == keys.len() && forall|i: int|
        0 <= i < keys.len() ==> (#[trigger] es@[i]).0@ == keys[i] && p(i, es@[i].1)
}

fn str_value(s: &str) -> (v: JsonValue)
    ensures
        is_str(v, s@),
{
    JsonValue::Str(s.to_owned())
}

fn str_array(items: &Vec<&str>) -> (v: JsonValue)
    ensures
        is_str_array(v, items@.map_values(|s: &str| s@)),
{
    let mut a: Vec<JsonValue> = Vec::new();
    let mut i: usize = 0;
    while i < items.len()
        invariant
            i <= items@.len(),
            a@.len() == i,
            forall|k: int| 0 <= k < i ==> is_str(#[trigger] a@[k], items@[k]@),
        decreases items@.len() - i,
    {
        a.push(str_value(items[i]));
        i = i + 1;
    }
    JsonValue::Array(a)
}

/// The description the echo server gives of itself.
pub open spec fn server_info_value(v: JsonValue) -> bool {
    is_object_with(
        v,
        seq!["name"@, "version"@, "methods"@, "capabilities"@, "description"@],
        |i: int, x: JsonValue|
            if i == 0 {
                is_str(x, "bidirectional_echo_server"@)
            } else if i == 1 {
                is_str(x, "1.0.0"@)
            } else if i == 2 {
                is_str_array(x, seq!["echo"@, "ping"@, "add"@, "info"@])
            } else if i == 3 {
                is_str_array(x, seq!["bidirectional_rpc"@, "lsp_framing"@])
            } else {
                is_str(x, "Bidirectional JSON-RPC server that can also act as a client"@)
            },
    )
}

fn server_info() -> (v: JsonValue)
    ensures
        server_info_value(v),
{
    let methods = vec!["echo", "ping", "add", "info"];
    let capabilities = vec!["bidirectional_rpc", "lsp_framing"];
    let mut es: Vec<(String, JsonValue)> = Vec::new();
    es.push(("name".to_owned(), str_value("bidirectional_echo_server")));
    es.push(("version".to_owned(), str_value("1.0.0")));
    es.push(("methods".to_owned(), str_array(&methods)));
    es.push(("capabilities".to_owned(), str_array(&capabilities)));
    es.push(
        ("description".to_owned(), str_value("Bidirectional JSON-RPC server that can also act as a client")),
    );
    proof {
        assert(methods@.map_values(|s: &str| s@) =~= seq!["echo"@, "ping"@, "add"@, "info"@]);
        assert(capabilities@.map_values(|s: &str| s@) =~= seq!["bidirectional_rpc"@, "lsp_framing"@]);
    }
    JsonValue::Object(es)
}

/// The number a value holds, if it is one.
pub open spec fn number_of(v: JsonValue) -> Option<JsonNumber> {
    match v {
        JsonValue::Number(n) => Some(n),
        _ => None,
    }
}

fn number_in(v: &JsonValue) -> (r: Option<JsonNumber>)
    ensures
        r == number_of(*v),
{
    match v {
        JsonValue::Number(n) => Some(*n),
        _ => None,
    }
}

/// The answer to `add`: the two numbers of `[a, b]` or of `{"a": a, "b": b}`.
pub open spec fn add_reply(params: Option<JsonValue>) -> Result<(JsonNumber, JsonNumber), Seq<char>> {
    match params {
        Some(JsonValue::Array(a)) if a@.len() == 2 => match (number_of(a@[0]), number_of(a@[1])) {
            (Some(x), Some(y)) => Ok((x, y)),
            (None, _) => Err("First parameter must be a number"@),
            (Some(_), None) => Err("Second parameter must be a number"@),
        },
        Some(JsonValue::Object(es)) => {
            let a = match lookup(es@, "a"@) {
                Some(v) => number_of(v),
                None => None,
            };
            let b = match lookup(es@, "b"@) {
                Some(v) => number_of(v),
                None => None,
            };
            match (a, b) {
                (Some(x), Some(y)) => Ok((x, y)),
                (None, _) => Err("Missing or invalid 'a' parameter"@),
                (Some(_), None) => Err("Missing or invalid 'b' parameter"@),
            }
        },
        _ => Err("Parameters must be [a, b] or {\"a\": number, \"b\": number}"@),
    }
}

fn add_numbers(params: Option<JsonValue>) -> (r: EchoReply)
    ensures
        match add_reply(params) {
            Ok((x, y)) => r == EchoReply::Sum(x, y),
            Err(m) => r matches EchoReply::InvalidParams(s) && s@ == m,
        },
{
    match params {
        Some(JsonValue::Array(a)) => {
            if a.len() == 2 {
                match number_in(&a[0]) {
                    None => EchoReply::InvalidParams("First parameter must be a number".to_owned()),
                    Some(x) => match number_in(&a[1]) {
                        None => EchoReply::InvalidParams("Second parameter must be a number".to_owned()),
                        Some(y) => EchoReply::Sum(x, y),
                    },
                }
            } else {
                EchoReply::InvalidParams("Parameters must be [a, b] or {\"a\": number, \"b\": number}".to_owned())
            }
        },
        Some(JsonValue::Object(es)) => {
            let ghost entries = es@;
            let mut keys: Vec<&str> = Vec::new();
            keys.push("a");
            keys.push("b");
            proof {
                reveal_strlit("a");
                reveal_strlit("b");
                assert(keys@[0]@[0] != keys@[1]@[0]);
                assert(distinct_keys(keys@));
            }
            let fields = take_fields(es, &keys);
            assert(fields@[0] == lookup(entries, "a"@));
            assert(fields@[1] == lookup(entries, "b"@));
            let a = match &fields[0] {
                Some(v) => number_in(v),
                None => None,
            };
            let b = match &fields[1] {
                Some(v) => number_in(v),
                None => None,
            };
            match a {
                None => EchoReply::InvalidParams("Missing or invalid 'a' parameter".to_owned()),
                Some(x) => match b {
                    None => EchoReply::InvalidParams("Missing or invalid 'b' parameter".to_owned()),
                    Some(y) => EchoReply::Sum(x, y),
                },
            }
        },
        _ => EchoReply::InvalidParams("Parameters must be [a, b] or {\"a\": number, \"b\": number}".to_owned()),
    }
}

/// How the echo server answers a request: `echo` gives back its parameters
/// (null without), `ping` answers `"pong"`, `add` sums two numbers, `info`
/// describes the server; any other method is not implemented.
pub fn echo_server_reply(method: &str, params: Option<JsonValue>) -> (r: EchoReply)
    ensures
        method@ == "echo"@ ==> r == EchoReply::Value(
            match params {
                Some(p) => p,
                None => JsonValue::Null,
            },
        ),
        method@ == "ping"@ ==> (r matches EchoReply::Value(v) && is_str(v, "pong"@)),
        method@ == "add"@ ==> match add_reply(params) {
            Ok((x, y)) => r == EchoReply::Sum(x, y),
            Err(m) => r matches EchoReply::InvalidParams(s) && s@ == m,
        },
        method@ == "info"@ ==> (r matches EchoReply::Value(v) && server_info_value(v)),
        method@ != "echo"@ && method@ != "ping"@ && method@ != "add"@ && method@ != "info"@ ==> (r matches EchoReply::MethodNotImplemented(m) && m@ == method@),
{
    proof {
        reveal_strlit("echo");
        reveal_strlit("ping");
        reveal_strlit("add");
        reveal_strlit("info");
        assert("echo"@[0] == 'e' && "ping"@[0] == 'p' && "add"@[0] == 'a' && "info"@[0] == 'i');
    }
    if str_eq(method, "echo") {
        match params {
            Some(p) => EchoReply::Value(p),
            None => EchoReply::Value(JsonValue::Null),
        }
    } else if str_eq(method, "ping") {
        EchoReply::Value(str_value("pong"))
    } else if str_eq(method, "add") {
        add_numbers(params)
    } else if str_eq(method, "info") {
        EchoReply::Value(server_info())
    } else {
        EchoReply::MethodNotImplemented(method.to_owned())
    }
}

/// How the plain echo peer answers a request: `echo` gives back its
/// parameters (null without), `ping` answers `"pong"`; any other method is
/// not implemented.
pub fn simple_echo_reply(method: &str, params: Option<JsonValue>) -> (r: EchoReply)
    ensures
        method@ == "echo"@ ==> r == EchoReply::Value(
            match params {
                Some(p) => p,
                None => JsonValue::Null,
            },
        ),
        method@ == "ping"@ ==> (r matches EchoReply::Value(v) && is_str(v, "pong"@)),
        method@ != "echo"@ && method@ != "ping"@ ==> (r matches EchoReply::MethodNotImplemented(m) && m@ == method@),
{
    proof {
        reveal_strlit("echo");
        reveal_strlit("ping");
        assert("echo"@[0] == 'e' && "ping"@[0] == 'p');
    }
    if str_eq(method, "echo") {
        match params {
            Some(p) => EchoReply::Value(p),
            None => EchoReply::Value(JsonValue::Null),
        }
    } else if str_eq(method, "ping") {
        EchoReply::Value(str_value("pong"))
    } else {
        EchoReply::MethodNotImplemented(method.to_owned())
    }
}

/// The description the echo client gives of itself.
pub open spec fn client_info_value(v: JsonValue) -> bool {
    is_object_with(
        v,
        seq!["client_name"@, "version"@, "capabilities"@],
        |i: int, x: JsonValue|
            if i == 0 {
                is_str(x, "bidirectional_echo_client"@)
            } else if i == 1 {
                is_str(x, "1.0.0"@)
            } else {
                is_str_array(x, seq!["handle_server_requests"@, "send_notifications"@])
            },
    )
}

/// How the echo client answers a request of the server: `get_client_info`
/// describes the client, `shutdown` is acknowledged; any other method is
/// not implemented.
pub fn echo_client_reply(method: &str) -> (r: EchoReply)
    ensures
        method@ == "get_client_info"@ ==> (r matches EchoReply::Value(v) && client_info_value(v)),
        method@ == "shutdown"@ ==> (r matches EchoReply::Value(v) && is_str(v, "acknowledged"@)),
        method@ != "get_client_info"@ && method@ != "shutdown"@ ==> (r matches EchoReply::MethodNotImplemented(m)
            && m@ == method@),
{
    proof {
        reveal_strlit("get_client_info");
        reveal_strlit("shutdown");
        assert("get_client_info"@[0] == 'g' && "shutdown"@[0] == 's');
    }
    if str_eq(method, "get_client_info") {
        let capabilities = vec!["handle_server_requests", "send_notifications"];
        let mut es: Vec<(String, JsonValue)> = Vec::new();
        es.push(("client_name".to_owned(), str_value("bidirectional_echo_client")));
        es.push(("version".to_owned(), str_value("1.0.0")));
        es.push(("capabilities".to_owned(), str_array(&capabilities)));
        proof {
            assert(capabilities@.map_values(|s: &str| s@) =~= seq![
                "handle_server_requests"@,
                "send_notifications"@,
            ]);
        }
        EchoReply::Value(JsonValue::Object(es))
    } else if str_eq(method, "shutdown") {
        EchoReply::Value(str_value("acknowledged"))
    } else {
        EchoReply::MethodNotImplemented(method.to_owned())
    }
}

/// The main loop of the echo server: it counts ticks, reports its status
/// every hundred, and stops after `max_ticks` (never when that is 0).
#[derive(Debug, Clone, Copy, PartialEq, Eq, Structural)]
pub struct ServerTicker {
    pub tick_count: u32,
    pub max_ticks: u32,
}

/// What the echo server does on a tick.
#[derive(Debug, Clone, Copy, PartialEq, Eq, Structural)]
pub struct ServerTick {
    /// Send a status notification.
    pub send_status: bool,
    /// Go on running.
    pub keep_running: bool,
}

impl ServerTicker {
    pub fn new(max_ticks: u32) -> (t: ServerTicker)
        ensures
            t.tick_count == 0,
            t.max_ticks == max_ticks,
    {
        ServerTicker { tick_count: 0, max_ticks }
    }

    pub fn on_tick(&mut self) -> (t: ServerTick)
        requires
            old(self).tick_count < u32::MAX,
        ensures
            final(self).tick_count == old(self).tick_count + 1,
            final(self).max_ticks == old(self).max_ticks,
            t.send_status == (final(self).tick_count % 100 == 0),
            t.keep_running == !(final(self).max_ticks > 0 && final(self).tick_count >= final(self).max_ticks),
    {
        self.tick_count = self.tick_count + 1;
        let send_status = self.tick_count % 100 == 0;
        let keep_running = !(self.max_ticks > 0 && self.tick_count >= self.max_ticks);
        ServerTick { send_status, keep_running }
    }
}

/// The status the echo server reports: its tick, that it is running, and
/// the time.
pub fn server_status(tick: u32, timestamp: String) -> (v: JsonValue)
    ensures
        is_object_with(
            v,
            seq!["tick"@, "status"@, "timestamp"@],
            |i: int, x: JsonValue|
                if i == 0 {
                    x == JsonValue::Number(JsonNumber::PosInt(tick as u64))
                } else if i == 1 {
                    is_str(x, "running"@)
                } else {
                    is_str(x, timestamp@)
                },
        ),
{
    let mut es: Vec<(String, JsonValue)> = Vec::new();
    es.push(("tick".to_owned(), JsonValue::Number(JsonNumber::PosInt(tick as u64))));
    es.push(("status".to_owned(), str_value("running")));
    es.push(("timestamp".to_owned(), JsonValue::Str(timestamp)));
    JsonValue::Object(es)
}

/// The test phases of the echo client.
#[derive(Debug, Clone, Copy, PartialEq, Eq, Structural)]
pub enum ClientStep {
    /// Send the basic requests.
    BasicRequests,
    /// Send the notifications.
    Notifications,
    /// Send the mixed operations.
    MixedOperations,
    /// Nothing this tick.
    Idle,
    /// The test is over: stop.
    Finish,
}

/// The main loop of the echo client: phases of requests, notifications and
/// mixed operations, advancing every fifty ticks.
#[derive(Debug, Clone, Copy, PartialEq, Eq, Structural)]
pub struct ClientTicker {
    pub tick_count: u32,
    pub test_phase: u32,
    pub connected: bool,
}

/// The client's step at a tick count in a phase.
pub open spec fn client_step(tick: u32, phase: u32) -> ClientStep {
    if phase <= 50 {
        if tick % 10 == 0 { ClientStep::BasicRequests } else { ClientStep::Idle }
    } else if phase <= 100 {
        if tick % 5 == 0 { ClientStep::Notifications } else { ClientStep::Idle }
    } else if phase <= 150 {
        if tick % 8 == 0 { ClientStep::MixedOperations } else { ClientStep::Idle }
    } else {
        ClientStep::Finish
    }
}

impl ClientTicker {
    pub fn new() -> (t: ClientTicker)
        ensures
            t.tick_count == 0 && t.test_phase == 0 && !t.connected,
    {
        ClientTicker { tick_count: 0, test_phase: 0, connected: false }
    }

    /// Counts a tick; while connected, picks the step of the current phase
    /// and enters the next phase every fifty ticks (not after the last).
    pub fn on_tick(&mut self) -> (s: ClientStep)
        requires
            old(self).tick_count < u32::MAX,
            old(self).test_phase < u32::MAX,
        ensures
            final(self).tick_count == old(self).tick_count + 1,
            final(self).connected == old(self).connected,
            !old(self).connected ==> s == ClientStep::Idle && final(self).test_phase == old(self).test_phase,
            old(self).connected ==> s == client_step(final(self).tick_count, old(self).test_phase),
            old(self).connected ==> final(self).test_phase == (if s != ClientStep::Finish
                && final(self).tick_count % 50 == 0 {
                old(self).test_phase + 1
            } else {
                old(self).test_phase as int
            }),
    {
        self.tick_count = self.tick_count + 1;
        if !self.connected {
            return ClientStep::Idle;
        }
        let tick = self.tick_count;
        let phase = self.test_phase;
        let step = if phase <= 50 {
            if tick % 10 == 0 { ClientStep::BasicRequests } else { ClientStep::Idle }
        } else if phase <= 100 {
            if tick % 5 == 0 { ClientStep::Notifications } else { ClientStep::Idle }
        } else if phase <= 150 {
            if tick % 8 == 0 { ClientStep::MixedOperations } else { ClientStep::Idle }
        } else {
            return ClientStep::Finish;
        };
        if tick % 50 == 0 {
            self.test_phase = self.test_phase + 1;
        }
        step
    }
}

} // verus!
