//! The top-level protocol handler: what to do with each message from the
//! client, and the response frames' values.
use vstd::prelude::*;
use vstd::utf8::encode_utf8;

use crate::json::{
    bytes_equal, empty_object, get_spec, is_number, is_object_of_len, is_str, key_at, str_of,
    str_spec, value_at, Json,
};
use crate::native_tools::{is_native, NativeTool};
use crate::words::{arguments_key, arguments_key_bytes, capabilities_key, capabilities_key_bytes, code_key, code_key_bytes, content_key, content_key_bytes, error_key, error_key_bytes, id_key, id_key_bytes, initialize_method, initialize_method_bytes, jsonrpc_key, jsonrpc_key_bytes, message_key, message_key_bytes, method_key, method_key_bytes, name_key, name_key_bytes, not_found_code, not_found_code_bytes, not_found_message, not_found_message_bytes, params_key, params_key_bytes, protocol_version, protocol_version_bytes, protocol_version_key, protocol_version_key_bytes, result_key, result_key_bytes, server_info_key, server_info_key_bytes, server_name, server_name_bytes, server_version, server_version_bytes, text_key, text_key_bytes, tool_error_code, tool_error_code_bytes, tools_call, tools_call_bytes, tools_key, tools_key_bytes, tools_list, tools_list_bytes, type_key, type_key_bytes, version_key, version_key_bytes, version_tag, version_tag_bytes};

verus! {

/// What the relay does with one message from the client.
#[derive(Debug, PartialEq)]
pub enum Action {
    /// A notification, or a message without a method: no response.
    Ignore,
    /// Answer at once with this response.
    Reply(Json),
    /// Ask the delegate for its tool catalog.
    ListTools { id: Json },
    /// Serve the tool call natively.
    CallNative { id: Json, name: Vec<u8>, arguments: Json },
    /// Forward the tool call, name and arguments unchanged, to the delegate.
    CallDelegate { id: Json, name: Vec<u8>, arguments: Json },
}

/// Whether `r` is the response `{"jsonrpc":"2.0","id":id,"result":result}`.
pub open spec fn is_response(r: Json, id: Json, result: Json) -> bool {
    &&& is_object_of_len(r, 3)
    &&& key_at(r, 0) == jsonrpc_key() && is_str(value_at(r, 0), version_tag())
    &&& key_at(r, 1) == id_key() && value_at(r, 1) == id
    &&& key_at(r, 2) == result_key() && value_at(r, 2) == result
}

/// Whether `r` is the error response
/// `{"jsonrpc":"2.0","id":id,"error":{"code":code,"message":message}}`.
pub open spec fn is_error_response(r: Json, id: Json, code: Seq<u8>, message: Seq<u8>) -> bool {
    &&& is_object_of_len(r, 3)
    &&& key_at(r, 0) == jsonrpc_key() && is_str(value_at(r, 0), version_tag())
    &&& key_at(r, 1) == id_key() && value_at(r, 1) == id
    &&& key_at(r, 2) == error_key() && is_object_of_len(value_at(r, 2), 2)
    &&& key_at(value_at(r, 2), 0) == code_key() && is_number(value_at(value_at(r, 2), 0), code)
    &&& key_at(value_at(r, 2), 1) == message_key() && is_str(value_at(value_at(r, 2), 1), message)
}

/// Whether `v` is the server description that answers `initialize`.
pub open spec fn is_server_description(v: Json) -> bool {
    &&& is_object_of_len(v, 3)
    &&& key_at(v, 0) == protocol_version_key() && is_str(value_at(v, 0), protocol_version())
    &&& key_at(v, 1) == server_info_key() && is_object_of_len(value_at(v, 1), 2)
    &&& key_at(value_at(v, 1), 0) == name_key() && is_str(value_at(value_at(v, 1), 0), server_name())
    &&& key_at(value_at(v, 1), 1) == version_key() && is_str(
        value_at(value_at(v, 1), 1),
        server_version(),
    )
    &&& key_at(v, 2) == capabilities_key() && is_object_of_len(value_at(v, 2), 1)
    &&& key_at(value_at(v, 2), 0) == tools_key() && is_object_of_len(value_at(value_at(v, 2), 0), 0)
}

/// Whether `v` is `{"content":[{"type":"text","text":text}]}`.
pub open spec fn is_text_content(v: Json, text: Seq<u8>) -> bool {
    &&& is_object_of_len(v, 1)
    &&& key_at(v, 0) == content_key()
    &&& value_at(v, 0) matches Json::Array(items) && items@.len() == 1 && {
        let block = items@[0];
        &&& is_object_of_len(block, 2)
        &&& key_at(block, 0) == type_key() && is_str(value_at(block, 0), text_key())
        &&& key_at(block, 1) == text_key() && is_str(value_at(block, 1), text)
    }
}

/// Whether `c` is `{"tools":[],"error":message}`.
pub open spec fn is_failed_catalog(c: Json, message: Seq<u8>) -> bool {
    &&& is_object_of_len(c, 2)
    &&& key_at(c, 0) == tools_key()
    &&& value_at(c, 0) matches Json::Array(items) && items@.len() == 0
    &&& key_at(c, 1) == error_key() && is_str(value_at(c, 1), message)
}

/// The parameters of a message; `null` where it has none.
pub open spec fn params_of(msg: Json) -> Json {
    match get_spec(msg, params_key()) {
        Some(p) => p,
        None => Json::Null,
    }
}

/// The tool name of a call: its string `name` parameter, or empty.
pub open spec fn call_name(msg: Json) -> Seq<u8> {
    match str_spec(get_spec(params_of(msg), name_key())) {
        Some(n) => n,
        None => Seq::empty(),
    }
}

/// Whether `a` is the arguments of a call: its `arguments` parameter, or an
/// empty object.
pub open spec fn is_call_arguments(msg: Json, a: Json) -> bool {
    match get_spec(params_of(msg), arguments_key()) {
        Some(v) => a == v,
        None => is_object_of_len(a, 0),
    }
}

/// The action that `msg` calls for.
pub open spec fn route_spec(msg: Json, r: Action) -> bool {
    match (str_spec(get_spec(msg, method_key())), get_spec(msg, id_key())) {
        (Some(m), Some(id)) => if m == initialize_method() {
            r matches Action::Reply(v) && exists|d: Json| is_server_description(d) && is_response(v, id, d)
        } else if m == tools_list() {
            r == Action::ListTools { id }
        } else if m == tools_call() {
            if is_native(call_name(msg)) {
                r matches Action::CallNative { id: i, name, arguments } && i == id && name@ == call_name(msg)
                    && is_call_arguments(msg, arguments)
            } else {
                r matches Action::CallDelegate { id: i, name, arguments } && i == id && name@ == call_name(msg)
                    && is_call_arguments(msg, arguments)
            }
        } else {
            r matches Action::Reply(v) && is_error_response(v, id, not_found_code(), not_found_message())
        },
        _ => r == Action::Ignore,
    }
}

fn response(id: Json, key: Vec<u8>, value: Json) -> (r: Json)
    ensures
        is_object_of_len(r, 3),
        key_at(r, 0) == jsonrpc_key() && is_str(value_at(r, 0), version_tag()),
        key_at(r, 1) == id_key() && value_at(r, 1) == id,
        key_at(r, 2) == key@ && value_at(r, 2) == value,
{
    Json::Object(
        vec![(jsonrpc_key_bytes(), str_of(version_tag_bytes())), (id_key_bytes(), id), (key, value)],
    )
}

/// The response `{"jsonrpc":"2.0","id":id,"result":result}`.
pub fn result_reply(id: Json, result: Json) -> (r: Json)
    ensures
        is_response(r, id, result),
{
    response(id, result_key_bytes(), result)
}

fn error_reply(id: Json, code: Vec<u8>, message: Vec<u8>) -> (r: Json)
    ensures
        is_error_response(r, id, code@, message@),
{
    let e = Json::Object(
        vec![(code_key_bytes(), Json::Number(code)), (message_key_bytes(), str_of(message))],
    );
    response(id, error_key_bytes(), e)
}

/// The answer to `initialize`: the server's description, never forwarded.
pub fn initialize_reply(id: Json) -> (r: Json)
    ensures
        exists|d: Json| is_server_description(d) && is_response(r, id, d),
{
    let info = Json::Object(
        vec![
            (name_key_bytes(), str_of(server_name_bytes())),
            (version_key_bytes(), str_of(server_version_bytes())),
        ],
    );
    let caps = Json::Object(vec![(tools_key_bytes(), empty_object())]);
    let d = Json::Object(
        vec![
            (protocol_version_key_bytes(), str_of(protocol_version_bytes())),
            (server_info_key_bytes(), info),
            (capabilities_key_bytes(), caps),
        ],
    );
    let ghost g = d;
    let r = result_reply(id, d);
    assert(is_server_description(g));
    r
}

/// The answer to a method that the relay does not know.
pub fn method_not_found(id: Json) -> (r: Json)
    ensures
        is_error_response(r, id, not_found_code(), not_found_message()),
{
    error_reply(id, not_found_code_bytes(), not_found_message_bytes())
}

/// The answer to `tools/list`: the delegate's catalog, or, where the delegate
/// failed, an empty catalog that carries the failure's text.
pub fn list_reply(id: Json, catalog: Result<Json, Vec<u8>>) -> (r: Json)
    ensures
        catalog matches Ok(c) ==> is_response(r, id, c),
        catalog matches Err(m) ==> exists|c: Json| is_failed_catalog(c, m@) && is_response(r, id, c),
{
    match catalog {
        Ok(c) => result_reply(id, c),
        Err(m) => {
            let c = Json::Object(
                vec![(tools_key_bytes(), Json::Array(Vec::new())), (error_key_bytes(), str_of(m))],
            );
            let ghost g = c;
            let r = result_reply(id, c);
            assert(is_failed_catalog(g, m@));
            r
        },
    }
}

/// The answer to a natively served call: the result's JSON text as one text
/// block, or a tool error with the failure's text.
pub fn native_reply(id: Json, outcome: Result<Vec<u8>, Vec<u8>>) -> (r: Json)
    ensures
        outcome matches Ok(text) ==> exists|v: Json| is_text_content(v, text@) && is_response(r, id, v),
        outcome matches Err(m) ==> is_error_response(r, id, tool_error_code(), m@),
{
    match outcome {
        Ok(text) => {
            let block = Json::Object(
                vec![
                    (type_key_bytes(), str_of(text_key_bytes())),
                    (text_key_bytes(), str_of(text)),
                ],
            );
            let v = Json::Object(vec![(content_key_bytes(), Json::Array(vec![block]))]);
            let ghost g = v;
            let r = result_reply(id, v);
            assert(is_text_content(g, text@));
            r
        },
        Err(m) => error_reply(id, tool_error_code_bytes(), m),
    }
}

/// The answer to a forwarded call: the delegate's result as it came, or a tool
/// error with the failure's text.
pub fn delegate_reply(id: Json, outcome: Result<Json, Vec<u8>>) -> (r: Json)
    ensures
        outcome matches Ok(v) ==> is_response(r, id, v),
        outcome matches Err(m) ==> is_error_response(r, id, tool_error_code(), m@),
{
    match outcome {
        Ok(v) => result_reply(id, v),
        Err(m) => error_reply(id, tool_error_code_bytes(), m),
    }
}

/// Decides what to do with one message from the client.
pub fn route(msg: Json) -> (r: Action)
    ensures
        route_spec(msg, r),
{
    let method = match msg.get_str(method_key_bytes().as_slice()) {
        Some(m) => m,
        None => {
            return Action::Ignore;
        },
    };
    let ghost m0 = msg;
    let mut rest = msg;
    let id = match rest.take(id_key_bytes().as_slice()) {
        Some(id) => id,
        None => {
            return Action::Ignore;
        },
    };
    if bytes_equal(method.as_slice(), initialize_method_bytes().as_slice()) {
        return Action::Reply(initialize_reply(id));
    }
    if bytes_equal(method.as_slice(), tools_list_bytes().as_slice()) {
        return Action::ListTools { id };
    }
    if !bytes_equal(method.as_slice(), tools_call_bytes().as_slice()) {
        return Action::Reply(method_not_found(id));
    }
    assert(params_key() != id_key());
    let mut params = match rest.take(params_key_bytes().as_slice()) {
        Some(p) => p,
        None => Json::Null,
    };
    assert(params == params_of(m0));
    let name = match params.get_str(name_key_bytes().as_slice()) {
        Some(n) => n,
        None => Vec::new(),
    };
    assert(name@ =~= call_name(m0));
    let arguments = match params.take(arguments_key_bytes().as_slice()) {
        Some(a) => a,
        None => empty_object(),
    };
    if NativeTool::from_name(name.as_slice()).is_some() {
        Action::CallNative { id, name, arguments }
    } else {
        Action::CallDelegate { id, name, arguments }
    }
}

} // verus!
