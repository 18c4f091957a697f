//! The delegate channel: identifier allocation for requests to the delegate
//! process, and matching of the frames that come back against the call in flight.
use vstd::prelude::*;

use crate::json::{
    bytes_equal, empty_object, get_spec, is_number, is_object_of_len, is_str, key_at, number_of,
    str_of, value_at, Json,
};
use crate::text::{decimal, push_decimal};
use crate::words::{arguments_key, arguments_key_bytes, capabilities_key, capabilities_key_bytes, client_info_key, client_info_key_bytes, client_name, client_name_bytes, client_version, client_version_bytes, error_key, error_key_bytes, id_key, id_key_bytes, initialize_method, initialize_method_bytes, jsonrpc_key, jsonrpc_key_bytes, method_key, method_key_bytes, name_key, name_key_bytes, params_key, params_key_bytes, protocol_version, protocol_version_bytes, protocol_version_key, protocol_version_key_bytes, result_key, result_key_bytes, tools_call, tools_call_bytes, tools_list, tools_list_bytes, version_key, version_key_bytes, version_tag, version_tag_bytes};

verus! {

/// Why a delegate call failed.
#[derive(Debug, PartialEq)]
pub enum DelegateError {
    /// The delegate answered with this error object.
    Remote(Json),
    /// The delegate's answer held neither a result nor an error.
    MissingResult,
}

/// What to do with a frame read while a call is in flight.
#[derive(Debug, PartialEq)]
pub enum Reply {
    /// The frame answers some other identifier: drop it and read on.
    Skip,
    /// The frame answers the call in flight.
    Done(Result<Json, DelegateError>),
}

/// The state of the channel to the delegate process: the identifier that the
/// next request gets. Callers hold it under a lock, so that one call at a time
/// is in flight.
pub struct BunBridge {
    pub next_id: u64,
}

/// Whether `msg` is the request `{"jsonrpc":"2.0","id":id,"method":method,"params":params}`.
pub open spec fn is_request(msg: Json, id: u64, method: Seq<u8>, params: Json) -> bool {
    &&& is_object_of_len(msg, 4)
    &&& key_at(msg, 0) == jsonrpc_key() && is_str(value_at(msg, 0), version_tag())
    &&& key_at(msg, 1) == id_key() && is_number(value_at(msg, 1), decimal(id as nat))
    &&& key_at(msg, 2) == method_key() && is_str(value_at(msg, 2), method)
    &&& key_at(msg, 3) == params_key() && value_at(msg, 3) == params
}

/// Whether `msg` carries the identifier `id`.
pub open spec fn answers(msg: Json, id: u64) -> bool {
    get_spec(msg, id_key()) matches Some(v) && is_number(v, decimal(id as nat))
}

/// What an answer to the call in flight yields: its error if it has one, else
/// its result.
pub open spec fn outcome(msg: Json) -> Result<Json, DelegateError> {
    match get_spec(msg, error_key()) {
        Some(e) => Err(DelegateError::Remote(e)),
        None => match get_spec(msg, result_key()) {
            Some(v) => Ok(v),
            None => Err(DelegateError::MissingResult),
        },
    }
}

/// The parameters of the opening handshake.
pub open spec fn is_initialize_params(p: Json) -> bool {
    &&& is_object_of_len(p, 3)
    &&& key_at(p, 0) == protocol_version_key() && is_str(value_at(p, 0), protocol_version())
    &&& key_at(p, 1) == capabilities_key() && is_object_of_len(value_at(p, 1), 0)
    &&& key_at(p, 2) == client_info_key() && is_object_of_len(value_at(p, 2), 2)
    &&& key_at(value_at(p, 2), 0) == name_key() && is_str(value_at(value_at(p, 2), 0), client_name())
    &&& key_at(value_at(p, 2), 1) == version_key() && is_str(
        value_at(value_at(p, 2), 1),
        client_version(),
    )
}

/// The parameters `{"name":name,"arguments":arguments}` of a forwarded tool call.
pub open spec fn is_call_params(p: Json, name: Seq<u8>, arguments: Json) -> bool {
    &&& is_object_of_len(p, 2)
    &&& key_at(p, 0) == name_key() && is_str(value_at(p, 0), name)
    &&& key_at(p, 1) == arguments_key() && value_at(p, 1) == arguments
}

impl BunBridge {
    /// A channel whose first request gets the identifier 1.
    pub fn new() -> (r: BunBridge)
        ensures
            r.next_id == 1,
    {
        BunBridge { next_id: 1 }
    }

    /// Allocates the next identifier and builds the request that carries it.
    pub fn next_request(&mut self, method: Vec<u8>, params: Json) -> (r: (u64, Json))
        requires
            old(self).next_id < u64::MAX,
        ensures
            r.0 == old(self).next_id,
            final(self).next_id == old(self).next_id + 1,
            is_request(r.1, r.0, method@, params),
    {
        let id = self.next_id;
        self.next_id = self.next_id + 1;
        let msg = Json::Object(
            vec![
                (jsonrpc_key_bytes(), str_of(version_tag_bytes())),
                (id_key_bytes(), number_of(id)),
                (method_key_bytes(), str_of(method)),
                (params_key_bytes(), params),
            ],
        );
        (id, msg)
    }

    /// The opening `initialize` handshake request.
    pub fn start(&mut self) -> (r: (u64, Json))
        requires
            old(self).next_id < u64::MAX,
        ensures
            r.0 == old(self).next_id,
            final(self).next_id == old(self).next_id + 1,
            exists|p: Json| is_initialize_params(p) && is_request(r.1, r.0, initialize_method(), p),
    {
        let client = Json::Object(
            vec![
                (name_key_bytes(), str_of(client_name_bytes())),
                (version_key_bytes(), str_of(client_version_bytes())),
            ],
        );
        let params = Json::Object(
            vec![
                (protocol_version_key_bytes(), str_of(protocol_version_bytes())),
                (capabilities_key_bytes(), empty_object()),
                (client_info_key_bytes(), client),
            ],
        );
        let ghost p = params;
        let r = self.next_request(initialize_method_bytes(), params);
        assert(is_initialize_params(p));
        r
    }

    /// The request that asks the delegate for its tool catalog.
    pub fn list_tools(&mut self) -> (r: (u64, Json))
        requires
            old(self).next_id < u64::MAX,
        ensures
            r.0 == old(self).next_id,
            final(self).next_id == old(self).next_id + 1,
            exists|p: Json| is_object_of_len(p, 0) && is_request(r.1, r.0, tools_list(), p),
    {
        self.next_request(tools_list_bytes(), empty_object())
    }

    /// The request that forwards a tool call, name and arguments unchanged.
    pub fn call_tool(&mut self, name: Vec<u8>, arguments: Json) -> (r: (u64, Json))
        requires
            old(self).next_id < u64::MAX,
        ensures
            r.0 == old(self).next_id,
            final(self).next_id == old(self).next_id + 1,
            exists|p: Json| is_call_params(p, name@, arguments) && is_request(r.1, r.0, tools_call(), p),
    {
        let ghost n = name@;
        let ghost a = arguments;
        let params = Json::Object(
            vec![(name_key_bytes(), str_of(name)), (arguments_key_bytes(), arguments)],
        );
        let ghost p = params;
        assert(is_call_params(p, n, a));
        self.next_request(tools_call_bytes(), params)
    }

    /// Reads one frame while the call `id` is in flight: a frame that carries
    /// another identifier is skipped, and only one that carries `id` ends the call.
    pub fn accept(&self, id: u64, msg: Json) -> (r: Reply)
        ensures
            r is Skip <==> !answers(msg, id),
            r matches Reply::Done(x) ==> x == outcome(msg),
    {
        let mut want: Vec<u8> = Vec::new();
        push_decimal(&mut want, id);
        assert(want@ =~= decimal(id as nat));
        let matched = match msg.get(id_key_bytes().as_slice()) {
            Some(Json::Number(t)) => bytes_equal(t.as_slice(), want.as_slice()),
            _ => false,
        };
        if !matched {
            return Reply::Skip;
        }
        let mut m = msg;
        let ghost m0 = m;
        match m.take(error_key_bytes().as_slice()) {
            Some(e) => Reply::Done(Err(DelegateError::Remote(e))),
            None => {
                assert(error_key() != result_key());
                assert(get_spec(m, result_key()) == get_spec(m0, result_key()));
                match m.take(result_key_bytes().as_slice()) {
                    Some(v) => Reply::Done(Ok(v)),
                    None => Reply::Done(Err(DelegateError::MissingResult)),
                }
            },
        }
    }
}

} // verus!
