use rpc_relay::bridge::{BunBridge, DelegateError, Reply};
use rpc_relay::config::Config;
use rpc_relay::dispatch::{
    delegate_reply, initialize_reply, list_reply, method_not_found, native_reply, route, Action,
};
use rpc_relay::frame::{header_line, read_frame, write_frame, FrameError, HeaderLine};
use rpc_relay::json::Json;
use rpc_relay::native_tools::{ApiBody, ApiCall, NativeTool, NativeTools, QueryValue, ToolError};
use rpc_relay::token::TokenCache;

fn s(x: &str) -> Json {
    Json::Str(x.as_bytes().to_vec())
}

fn num(x: &str) -> Json {
    Json::Number(x.as_bytes().to_vec())
}

fn obj(members: Vec<(&str, Json)>) -> Json {
    Json::Object(members.into_iter().map(|(k, v)| (k.as_bytes().to_vec(), v)).collect())
}

fn b(x: &str) -> Vec<u8> {
    x.as_bytes().to_vec()
}

fn tools(url: &str) -> NativeTools {
    NativeTools::new(Config {
        api_url: url.to_string(),
        api_key: "user".to_string(),
        api_secret: "pass".to_string(),
        oauth_token_url: "https://auth.example/token".to_string(),
        timeout_ms: 30000,
    })
}

#[test]
fn frame_round_trip() {
    let payload = b("{\"jsonrpc\":\"2.0\",\"id\":1}");
    let frame = write_frame(&payload);
    assert_eq!(frame, b("Content-Length: 24\r\n\r\n{\"jsonrpc\":\"2.0\",\"id\":1}"));
    let (p, used) = read_frame(&frame).unwrap();
    assert_eq!(p, payload);
    assert_eq!(used, frame.len());
}

#[test]
fn frame_counts_bytes_not_characters() {
    let payload = "{\"t\":\"h\u{e9}\u{e9}\"}".as_bytes().to_vec();
    let frame = write_frame(&payload);
    assert!(frame.starts_with(b"Content-Length: 13\r\n\r\n"));
    assert_eq!(read_frame(&frame).unwrap().0, payload);
}

#[test]
fn frame_followed_by_another() {
    let mut stream = write_frame(&b("[1]"));
    let first_len = stream.len();
    stream.extend(write_frame(&b("[2,3]")));
    let (p, used) = read_frame(&stream).unwrap();
    assert_eq!(p, b("[1]"));
    assert_eq!(used, first_len);
    let (q, _) = read_frame(&stream[used..]).unwrap();
    assert_eq!(q, b("[2,3]"));
}

#[test]
fn frame_with_other_headers() {
    let stream = b("Content-Type: application/json\r\nContent-Length: 2\nX: y\r\n\r\n{}tail");
    assert_eq!(read_frame(&stream), Ok((b("{}"), stream.len() - 4)));
}

#[test]
fn empty_stream_is_eof() {
    assert_eq!(read_frame(&[]), Err(FrameError::Eof));
}

#[test]
fn stream_closed_before_length_header() {
    assert_eq!(read_frame(&b("Content-Type: x\r\n")), Err(FrameError::Eof));
    assert_eq!(read_frame(&b("Content-Len")), Err(FrameError::Eof));
}

#[test]
fn stream_closed_inside_payload() {
    assert_eq!(read_frame(&b("Content-Length: 10\r\n\r\n{\"a\":")), Err(FrameError::Truncated));
}

#[test]
fn missing_length_header() {
    assert_eq!(read_frame(&b("X: 1\r\n\r\n{}")), Err(FrameError::MissingLength));
}

#[test]
fn unreadable_length() {
    assert_eq!(read_frame(&b("Content-Length: ten\r\n\r\n")), Err(FrameError::BadLength));
    assert_eq!(read_frame(&b("Content-Length: -1\r\n\r\n")), Err(FrameError::BadLength));
    assert_eq!(
        read_frame(&b("Content-Length: 99999999999999999999999\r\n\r\n")),
        Err(FrameError::BadLength)
    );
}

#[test]
fn header_lines() {
    assert_eq!(header_line(b"\r\n"), Ok(HeaderLine::End));
    assert_eq!(header_line(b""), Ok(HeaderLine::End));
    assert_eq!(header_line(b"Content-Length:  +17 \r\n"), Ok(HeaderLine::Length(17)));
    assert_eq!(header_line(b"content-length: 17\r\n"), Ok(HeaderLine::Other));
    assert_eq!(header_line(b"Content-Length:\r\n"), Err(FrameError::BadLength));
}

#[test]
fn delegate_call_skips_decoy_frames() {
    let mut bridge = BunBridge::new();
    let (first, _) = bridge.start();
    assert_eq!(first, 1);
    let (id, request) = bridge.call_tool(b("lookup"), obj(vec![("q", s("x"))]));
    assert_eq!(id, 2);
    assert_eq!(
        request,
        obj(vec![
            ("jsonrpc", s("2.0")),
            ("id", num("2")),
            ("method", s("tools/call")),
            ("params", obj(vec![("name", s("lookup")), ("arguments", obj(vec![("q", s("x"))]))])),
        ])
    );
    let decoy = obj(vec![("jsonrpc", s("2.0")), ("id", num("1")), ("result", s("stale"))]);
    assert_eq!(bridge.accept(id, decoy), Reply::Skip);
    let no_id = obj(vec![("method", s("notifications/progress"))]);
    assert_eq!(bridge.accept(id, no_id), Reply::Skip);
    let text_id = obj(vec![("id", s("2")), ("result", s("wrong"))]);
    assert_eq!(bridge.accept(id, text_id), Reply::Skip);
    let real = obj(vec![("jsonrpc", s("2.0")), ("id", num("2")), ("result", s("fresh"))]);
    assert_eq!(bridge.accept(id, real), Reply::Done(Ok(s("fresh"))));
}

#[test]
fn delegate_error_and_missing_result() {
    let mut bridge = BunBridge::new();
    let (id, request) = bridge.list_tools();
    assert_eq!(
        request,
        obj(vec![
            ("jsonrpc", s("2.0")),
            ("id", num("1")),
            ("method", s("tools/list")),
            ("params", obj(vec![])),
        ])
    );
    let err = obj(vec![("code", num("-1")), ("message", s("boom"))]);
    let answer = obj(vec![("id", num("1")), ("error", err)]);
    let expected = obj(vec![("code", num("-1")), ("message", s("boom"))]);
    assert_eq!(bridge.accept(id, answer), Reply::Done(Err(DelegateError::Remote(expected))));
    let empty = obj(vec![("id", num("1"))]);
    assert_eq!(bridge.accept(id, empty), Reply::Done(Err(DelegateError::MissingResult)));
    assert_eq!(bridge.next_id, 2);
}

#[test]
fn token_reused_then_refreshed() {
    let now: u64 = 1_000_000;
    let mut cache = TokenCache::new();
    assert_eq!(cache.current(now), None);
    cache.store(b("tok-1"), Some(60), now);
    assert_eq!(cache.current(now + 30_000), Some(b("tok-1")));
    assert_eq!(cache.current(now + 61_000), None);
    cache.store(b("tok-2"), Some(60), now + 61_000);
    assert_eq!(cache.current(now + 61_000), Some(b("tok-2")));
}

#[test]
fn token_default_lifetime_and_short_lifetime() {
    let mut cache = TokenCache::new();
    cache.store(b("t"), None, 0);
    assert_eq!(cache.current(3_570_000), Some(b("t")));
    assert_eq!(cache.current(3_570_001), None);
    cache.store(b("u"), Some(10), 500);
    assert_eq!(cache.current(500), Some(b("u")));
    assert_eq!(cache.current(501), None);
    cache.store(b("v"), Some(u64::MAX), u64::MAX - 1);
    assert_eq!(cache.current(u64::MAX), Some(b("v")));
}

#[test]
fn concurrent_callers_share_one_exchange() {
    let now: u64 = 5_000;
    let mut cache = TokenCache::new();
    let mut exchanges = 0;
    let mut seen = Vec::new();
    for _ in 0..50 {
        let first_look = cache.current(now);
        let token = match first_look {
            Some(t) => t,
            None => match cache.current(now) {
                Some(t) => t,
                None => {
                    exchanges += 1;
                    cache.store(b("shared"), Some(3600), now);
                    b("shared")
                }
            },
        };
        seen.push(token);
    }
    assert_eq!(exchanges, 1);
    assert!(seen.iter().all(|t| *t == b("shared")));
}

#[test]
fn custom_call_path_checks() {
    let t = tools("https://api.example/");
    let bad = ["config/../../etc/passwd", "relative/path", "/api/../secret", ""];
    for p in bad {
        let args = obj(vec![("method", s("get")), ("path", s(p))]);
        assert_eq!(t.call(b"custom_api_call", args), Err(ToolError::InvalidPath));
    }
    let args = obj(vec![
        ("method", s("post")),
        ("path", s("/api/v2/orders")),
        ("query", obj(vec![("limit", num("5")), ("status", s("open"))])),
        ("body", obj(vec![("x", Json::Bool(true))])),
    ]);
    assert_eq!(
        t.call(b"custom_api_call", args),
        Ok(ApiCall {
            method: b("POST"),
            path: b("/api/v2/orders"),
            query: vec![
                (b("limit"), QueryValue::Json(num("5"))),
                (b("status"), QueryValue::Text(b("open"))),
            ],
            body: Some(obj(vec![("x", Json::Bool(true))])),
        })
    );
}

#[test]
fn custom_call_missing_fields() {
    let t = tools("https://api.example");
    assert_eq!(
        t.call(b"custom_api_call", obj(vec![("path", s("/x"))])),
        Err(ToolError::MissingField(b("method")))
    );
    assert_eq!(
        t.call(b"custom_api_call", obj(vec![("method", s("GET"))])),
        Err(ToolError::MissingField(b("path")))
    );
}

#[test]
fn item_and_listing_tools() {
    let t = tools("https://api.example");
    let args = obj(vec![("orderNumber", s("1001"))]);
    assert_eq!(
        t.call(b"get_order_by_id", args),
        Ok(ApiCall { method: b("GET"), path: b("/api/v2/orders/1001"), query: vec![], body: None })
    );
    assert_eq!(
        t.call(b"get_customer_by_code", obj(vec![("customerCode", num("7"))])),
        Err(ToolError::MissingField(b("customerCode")))
    );
    let args = obj(vec![("query", obj(vec![("take", num("10"))]))]);
    assert_eq!(
        t.call(b"get_employees", args),
        Ok(ApiCall {
            method: b("GET"),
            path: b("/api/v2/employees"),
            query: vec![(b("take"), QueryValue::Json(num("10")))],
            body: None,
        })
    );
    assert_eq!(t.call(b"delete_everything", obj(vec![])), Err(ToolError::Unsupported));
}

#[test]
fn native_tool_names() {
    assert!(NativeTools::supports("get_orders"));
    assert!(NativeTools::supports("get_material_by_part_number"));
    assert!(NativeTools::supports("custom_api_call"));
    assert!(!NativeTools::supports("get_order"));
    assert!(!NativeTools::supports(""));
    assert_eq!(NativeTool::from_name(b"get_quote_by_id"), Some(NativeTool::GetQuoteById));
    assert_eq!(NativeTool::GetQuotes.name(), b("get_quotes"));
}

#[test]
fn api_address_and_credentials() {
    let t = tools("https://api.example//");
    assert_eq!(t.url(b"/api/v2/quotes"), b("https://api.example/api/v2/quotes"));
    assert_eq!(t.basic_authorization(), b("Basic dXNlcjpwYXNz"));
}

#[test]
fn api_answers() {
    assert_eq!(NativeTools::read_answer(204, b"  \n"), Ok(ApiBody::Empty));
    assert_eq!(NativeTools::read_answer(200, b"{\"a\":1}"), Ok(ApiBody::Text(b("{\"a\":1}"))));
    assert_eq!(NativeTools::read_answer(404, b"nope"), Err(ToolError::Api(404, b("nope"))));
    assert_eq!(NativeTools::token_status(200), Ok(()));
    assert_eq!(NativeTools::token_status(401), Err(ToolError::Auth(401)));
}

#[test]
fn timeout_setting() {
    assert_eq!(Config::timeout_from(None), 30000);
    assert_eq!(Config::timeout_from(Some(b"1500")), 1500);
    assert_eq!(Config::timeout_from(Some(b"fast")), 30000);
    assert_eq!(Config::timeout_from(Some(b" 15")), 30000);
}

#[test]
fn dispatch_native_call_scenario() {
    let msg = obj(vec![
        ("method", s("tools/call")),
        ("id", num("7")),
        (
            "params",
            obj(vec![("name", s("get_order_by_id")), ("arguments", obj(vec![("orderNumber", s("1001"))]))]),
        ),
    ]);
    let (id, name, arguments) = match route(msg) {
        Action::CallNative { id, name, arguments } => (id, name, arguments),
        other => panic!("unexpected action {:?}", other),
    };
    assert_eq!(id, num("7"));
    let plan = tools("https://api.example").call(&name, arguments).unwrap();
    assert_eq!(plan.path, b("/api/v2/orders/1001"));
    let text = b("{\"id\":\"1001\",\"status\":\"open\"}");
    let reply = native_reply(id, Ok(text));
    assert_eq!(
        reply,
        obj(vec![
            ("jsonrpc", s("2.0")),
            ("id", num("7")),
            (
                "result",
                obj(vec![(
                    "content",
                    Json::Array(vec![obj(vec![
                        ("type", s("text")),
                        ("text", s("{\"id\":\"1001\",\"status\":\"open\"}")),
                    ])]),
                )]),
            ),
        ])
    );
}

#[test]
fn dispatch_delegated_call_scenario() {
    let args = || obj(vec![("deep", Json::Array(vec![num("1"), Json::Null]))]);
    let msg = obj(vec![
        ("jsonrpc", s("2.0")),
        ("id", s("abc")),
        ("method", s("tools/call")),
        ("params", obj(vec![("name", s("summarize_jobs")), ("arguments", args())])),
    ]);
    match route(msg) {
        Action::CallDelegate { id, name, arguments } => {
            assert_eq!(id, s("abc"));
            assert_eq!(name, b("summarize_jobs"));
            assert_eq!(arguments, args());
            let raw = obj(vec![("anything", Json::Bool(false))]);
            let reply = delegate_reply(id, Ok(raw));
            assert_eq!(
                reply,
                obj(vec![
                    ("jsonrpc", s("2.0")),
                    ("id", s("abc")),
                    ("result", obj(vec![("anything", Json::Bool(false))])),
                ])
            );
        }
        other => panic!("unexpected action {:?}", other),
    }
}

#[test]
fn dispatch_other_methods() {
    let note = obj(vec![("method", s("notifications/initialized"))]);
    assert_eq!(route(note), Action::Ignore);
    assert_eq!(route(obj(vec![("id", num("1"))])), Action::Ignore);
    let list = obj(vec![("method", s("tools/list")), ("id", num("3"))]);
    assert_eq!(route(list), Action::ListTools { id: num("3") });
    let unknown = obj(vec![("method", s("resources/list")), ("id", num("4"))]);
    assert_eq!(route(unknown), Action::Reply(method_not_found(num("4"))));
    assert_eq!(
        method_not_found(num("4")),
        obj(vec![
            ("jsonrpc", s("2.0")),
            ("id", num("4")),
            ("error", obj(vec![("code", num("-32601")), ("message", s("Method not found"))])),
        ])
    );
    let init = obj(vec![("method", s("initialize")), ("id", num("0")), ("params", obj(vec![]))]);
    assert_eq!(route(init), Action::Reply(initialize_reply(num("0"))));
    let call = obj(vec![("method", s("tools/call")), ("id", num("5"))]);
    assert_eq!(
        route(call),
        Action::CallDelegate { id: num("5"), name: vec![], arguments: obj(vec![]) }
    );
}

#[test]
fn replies_for_failures() {
    assert_eq!(
        list_reply(num("2"), Err(b("delegate gone"))),
        obj(vec![
            ("jsonrpc", s("2.0")),
            ("id", num("2")),
            ("result", obj(vec![("tools", Json::Array(vec![])), ("error", s("delegate gone"))])),
        ])
    );
    assert_eq!(
        delegate_reply(num("9"), Err(b("bad"))),
        obj(vec![
            ("jsonrpc", s("2.0")),
            ("id", num("9")),
            ("error", obj(vec![("code", num("-32000")), ("message", s("bad"))])),
        ])
    );
    let init = initialize_reply(num("1"));
    let expected = obj(vec![
        ("jsonrpc", s("2.0")),
        ("id", num("1")),
        (
            "result",
            obj(vec![
                ("protocolVersion", s("2024-11-05")),
                ("serverInfo", obj(vec![("name", s("jobboss2-rust")), ("version", s("0.3.0"))])),
                ("capabilities", obj(vec![("tools", obj(vec![]))])),
            ]),
        ),
    ]);
    assert_eq!(init, expected);
}

#[test]
fn json_value_survives_a_frame() {
    let mut m = serde_json::Map::new();
    m.insert("name".to_string(), serde_json::Value::String("caf\u{e9} \u{1f600}".to_string()));
    m.insert("n".to_string(), serde_json::Value::from(-12));
    m.insert("list".to_string(), serde_json::Value::Array(vec![serde_json::Value::Null, true.into()]));
    let value = serde_json::Value::Object(m);
    let frame = write_frame(&serde_json::to_vec(&value).unwrap());
    let (payload, used) = read_frame(&frame).unwrap();
    assert_eq!(used, frame.len());
    let back: serde_json::Value = serde_json::from_slice(&payload).unwrap();
    assert_eq!(back, value);
}
