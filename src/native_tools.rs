//! The natively served tools: one table from tool name to REST route, the
//! checks made before any request is sent, and how the remote API's answers
//! are read.
use vstd::prelude::*;
use vstd::utf8::encode_utf8;

use crate::config::Config;
use crate::json::{get_spec, str_spec, Json};
use crate::text::{trim, trim_bounds};
use crate::words::{basic_prefix, basic_prefix_bytes, body_key, body_key_bytes, custom_api_call_name, custom_api_call_name_bytes, customer_code_key, customer_code_key_bytes, customers_path, customers_path_bytes, employees_path, employees_path_bytes, get_customer_by_code_name, get_customer_by_code_name_bytes, get_customers_name, get_customers_name_bytes, get_employees_name, get_employees_name_bytes, get_material_by_part_number_name, get_material_by_part_number_name_bytes, get_materials_name, get_materials_name_bytes, get_method, get_method_bytes, get_order_by_id_name, get_order_by_id_name_bytes, get_orders_name, get_orders_name_bytes, get_quote_by_id_name, get_quote_by_id_name_bytes, get_quotes_name, get_quotes_name_bytes, materials_path, materials_path_bytes, method_key, method_key_bytes, order_number_key, order_number_key_bytes, orders_path, orders_path_bytes, part_number_key, part_number_key_bytes, path_key, path_key_bytes, query_key, query_key_bytes, quote_number_key, quote_number_key_bytes, quotes_path, quotes_path_bytes};

verus! {

/// A tool that the relay serves itself against the remote API.
#[derive(Clone, Copy, Debug, PartialEq, Eq, Structural)]
pub enum NativeTool {
    GetOrders,
    GetOrderById,
    GetCustomers,
    GetCustomerByCode,
    GetQuotes,
    GetQuoteById,
    GetMaterials,
    GetMaterialByPartNumber,
    GetEmployees,
    CustomApiCall,
}

/// Why a native tool call failed.
#[derive(Debug, PartialEq)]
pub enum ToolError {
    /// A required string argument is absent or not a string.
    MissingField(Vec<u8>),
    /// The escape-hatch path does not start with `/` or holds `..`.
    InvalidPath,
    /// The name is not one of the native tools.
    Unsupported,
    /// The token endpoint answered with this non-success status.
    Auth(u16),
    /// The remote API answered with this non-success status and body.
    Api(u16, Vec<u8>),
}

/// A query parameter's value: a JSON string goes as its text, any other value
/// as its JSON text.
#[derive(Debug, PartialEq)]
pub enum QueryValue {
    Text(Vec<u8>),
    Json(Json),
}

/// A request to the remote API, before the bearer token is added.
#[derive(Debug, PartialEq)]
pub struct ApiCall {
    pub method: Vec<u8>,
    pub path: Vec<u8>,
    pub query: Vec<(Vec<u8>, QueryValue)>,
    pub body: Option<Json>,
}

/// A successful answer of the remote API.
#[derive(Debug, PartialEq)]
pub enum ApiBody {
    /// The body is empty or only whitespace: the result is JSON `null`.
    Empty,
    /// The body text: its JSON value, or the text itself as a JSON string where
    /// it is not JSON.
    Text(Vec<u8>),
}

/// The native tools and the settings of the API they call.
pub struct NativeTools {
    pub cfg: Config,
}

/// The name under which each native tool is called.
pub open spec fn tool_name(t: NativeTool) -> Seq<u8> {
    match t {
        NativeTool::GetOrders => get_orders_name(),
        NativeTool::GetOrderById => get_order_by_id_name(),
        NativeTool::GetCustomers => get_customers_name(),
        NativeTool::GetCustomerByCode => get_customer_by_code_name(),
        NativeTool::GetQuotes => get_quotes_name(),
        NativeTool::GetQuoteById => get_quote_by_id_name(),
        NativeTool::GetMaterials => get_materials_name(),
        NativeTool::GetMaterialByPartNumber => get_material_by_part_number_name(),
        NativeTool::GetEmployees => get_employees_name(),
        NativeTool::CustomApiCall => custom_api_call_name(),
    }
}

/// Whether `name` is the name of a native tool.
pub open spec fn is_native(name: Seq<u8>) -> bool {
    exists|t: NativeTool| tool_name(t) == name
}

/// The collection that a listing tool reads; `/api/v2/<collection>`.
pub open spec fn collection(t: NativeTool) -> Option<Seq<u8>> {
    match t {
        NativeTool::GetOrders => Some(orders_path()),
        NativeTool::GetCustomers => Some(customers_path()),
        NativeTool::GetQuotes => Some(quotes_path()),
        NativeTool::GetMaterials => Some(materials_path()),
        NativeTool::GetEmployees => Some(employees_path()),
        _ => None,
    }
}

/// The collection and key argument of a tool that fetches one entity, at
/// `/api/v2/<collection>/<key>`.
pub open spec fn item_route(t: NativeTool) -> Option<(Seq<u8>, Seq<u8>)> {
    match t {
        NativeTool::GetOrderById => Some((orders_path(), order_number_key())),
        NativeTool::GetCustomerByCode => Some((customers_path(), customer_code_key())),
        NativeTool::GetQuoteById => Some((quotes_path(), quote_number_key())),
        NativeTool::GetMaterialByPartNumber => Some((materials_path(), part_number_key())),
        _ => None,
    }
}

/// Whether `p` holds `..` anywhere.
pub open spec fn has_parent_step(p: Seq<u8>) -> bool {
    exists|i: int| 0 <= i < p.len() - 1 && p[i] == 46 && #[trigger] p[i + 1] == 46
}

/// The only paths that the escape-hatch tool sends: absolute, without `..`.
pub open spec fn safe_path(p: Seq<u8>) -> bool {
    p.len() > 0 && p[0] == 47 && !has_parent_step(p)
}

/// An ASCII letter in upper case; other bytes as they are.
pub open spec fn upper_byte(b: u8) -> u8 {
    if 97 <= b <= 122 {
        (b - 32) as u8
    } else {
        b
    }
}

pub open spec fn ascii_upper(s: Seq<u8>) -> Seq<u8> {
    s.map_values(|b: u8| upper_byte(b))
}

/// Whether `q` is the query that `args` asks for: each member of its `query`
/// object in order, a string member as its text and any other as JSON; no
/// parameters where there is no such object.
pub open spec fn query_matches(q: Seq<(Vec<u8>, QueryValue)>, args: Json) -> bool {
    match get_spec(args, query_key()) {
        Some(Json::Object(f)) => q.len() == f@.len() && forall|i: int|
            0 <= i < q.len() ==> (#[trigger] q[i]).0@ == f@[i].0@ && match f@[i].1 {
                Json::Str(s) => q[i].1 matches QueryValue::Text(t) && t@ == s@,
                v => q[i].1 == QueryValue::Json(v),
            },
        _ => q.len() == 0,
    }
}

/// Whether `r` is what calling tool `t` with `args` asks of the remote API.
pub open spec fn plan_spec(t: NativeTool, args: Json, r: Result<ApiCall, ToolError>) -> bool {
    if collection(t) is Some {
        r matches Ok(c) && c.method@ == get_method() && c.path@ == collection(t)->Some_0
            && query_matches(c.query@, args) && c.body is None
    } else if item_route(t) is Some {
        let (base, key) = item_route(t)->Some_0;
        match str_spec(get_spec(args, key)) {
            None => r matches Err(ToolError::MissingField(k)) && k@ == key,
            Some(v) => r matches Ok(c) && c.method@ == get_method() && c.path@ == base.push(47) + v
                && c.query@.len() == 0 && c.body is None,
        }
    } else {
        match (
            str_spec(get_spec(args, method_key())),
            str_spec(get_spec(args, path_key())),
        ) {
            (None, _) => r matches Err(ToolError::MissingField(k)) && k@ == method_key(),
            (Some(_), None) => r matches Err(ToolError::MissingField(k)) && k@ == path_key(),
            (Some(m), Some(p)) => if !safe_path(p) {
                r == Err::<ApiCall, ToolError>(ToolError::InvalidPath)
            } else {
                r matches Ok(c) && c.method@ == ascii_upper(m) && c.path@ == p && query_matches(
                    c.query@,
                    args,
                ) && c.body == get_spec(args, body_key())
            },
        }
    }
}

/// A status that HTTP counts as success: 200 to 299.
pub open spec fn is_success(status: u16) -> bool {
    200 <= status <= 299
}

/// The standard base64 text (padded) of some bytes.
pub uninterp spec fn base64_standard(b: Seq<u8>) -> Seq<u8>;

/// Relies on base64's `Engine::encode` with the `STANDARD` engine: the padded
/// standard-alphabet text of the input, as bytes.
#[verifier::external_body]
fn encode_base64(b: &[u8]) -> (r: Vec<u8>)
    requires
        b@.len() <= isize::MAX,
    ensures
        r@ == base64_standard(b@),
{
    base64::Engine::encode(&base64::engine::general_purpose::STANDARD, b).into_bytes()
}

fn append(out: &mut Vec<u8>, s: &[u8])
    ensures
        final(out)@ == old(out)@ + s@,
{
    let ghost start = out@;
    let mut i: usize = 0;
    while i < s.len()
        invariant
            i <= s@.len(),
            out@ == start + s@.subrange(0, i as int),
        decreases s.len() - i,
    {
        out.push(s[i]);
        assert(out@ =~= start + s@.subrange(0, i + 1));
        i = i + 1;
    }
    assert(s@.subrange(0, i as int) =~= s@);
}

/// Whether `path` is one that the escape-hatch tool may send.
pub fn is_safe_path(path: &[u8]) -> (r: bool)
    ensures
        r == safe_path(path@),
{
    if path.len() == 0 || path[0] != 47 {
        return false;
    }
    let mut i: usize = 0;
    while i + 1 < path.len()
        invariant
            i < path@.len(),
            forall|k: int| 0 <= k < i ==> !(path@[k] == 46 && #[trigger] path@[k + 1] == 46),
        decreases path.len() - i,
    {
        if path[i] == 46 && path[i + 1] == 46 {
            assert(has_parent_step(path@));
            return false;
        }
        i = i + 1;
    }
    true
}

fn to_upper(s: &[u8]) -> (r: Vec<u8>)
    ensures
        r@ == ascii_upper(s@),
{
    let mut out: Vec<u8> = Vec::new();
    let mut i: usize = 0;
    while i < s.len()
        invariant
            i <= s@.len(),
            out@ == ascii_upper(s@.subrange(0, i as int)),
        decreases s.len() - i,
    {
        let b = s[i];
        out.push(if 97 <= b && b <= 122 { b - 32 } else { b });
        assert(out@ =~= ascii_upper(s@.subrange(0, i + 1)));
        i = i + 1;
    }
    assert(s@.subrange(0, i as int) =~= s@);
    out
}

/// The query parameters that `args` asks for, moved out of it.
fn take_query(args: &mut Json) -> (r: Vec<(Vec<u8>, QueryValue)>)
    ensures
        query_matches(r@, *old(args)),
        forall|k: Seq<u8>|
            k != query_key() ==> #[trigger] get_spec(*final(args), k) == get_spec(*old(args), k),
{
    let mut out: Vec<(Vec<u8>, QueryValue)> = Vec::new();
    match args.take(query_key_bytes().as_slice()) {
        Some(Json::Object(fields)) => {
            let ghost all = fields@;
            let n = fields.len();
            assert(all.len() == n);
            let mut rest = fields;
            let mut i: usize = 0;
            while rest.len() > 0
                invariant
                    i + rest@.len() == all.len(),
                    all.len() <= usize::MAX,
                    rest@ == all.subrange(i as int, all.len() as int),
                    out@.len() == i,
                    forall|j: int|
                        0 <= j < i ==> (#[trigger] out@[j]).0@ == all[j].0@ && match all[j].1 {
                            Json::Str(s) => out@[j].1 matches QueryValue::Text(t) && t@ == s@,
                            v => out@[j].1 == QueryValue::Json(v),
                        },
                decreases rest.len(),
            {
                let (k, v) = rest.remove(0);
                assert(all[i as int] == (k, v));
                let q = match v {
                    Json::Str(s) => QueryValue::Text(s),
                    other => QueryValue::Json(other),
                };
                out.push((k, q));
                assert(rest@ =~= all.subrange(i + 1, all.len() as int));
                i = i + 1;
            }
            out
        },
        _ => out,
    }
}

/// `s` without its trailing slashes.
pub open spec fn trim_slashes(s: Seq<u8>) -> Seq<u8>
    decreases s.len(),
{
    if s.len() > 0 && s.last() == 47 {
        trim_slashes(s.drop_last())
    } else {
        s
    }
}

/// The text of the HTTP Basic credentials `key:secret`.
pub open spec fn basic_credentials(key: Seq<u8>, secret: Seq<u8>) -> Seq<u8> {
    basic_prefix() + base64_standard(key.push(58) + secret)
}

/// What an answer of the remote API with `status` and `body` yields.
pub open spec fn answer_spec(status: u16, body: Seq<u8>, r: Result<ApiBody, ToolError>) -> bool {
    if !is_success(status) {
        r matches Err(ToolError::Api(s, b)) && s == status && b@ == body
    } else if trim(body).len() == 0 {
        r == Ok::<ApiBody, ToolError>(ApiBody::Empty)
    } else {
        r matches Ok(ApiBody::Text(t)) && t@ == body
    }
}

fn plan(t: NativeTool, args: Json) -> (r: Result<ApiCall, ToolError>)
    ensures
        plan_spec(t, args, r),
{
    match t {
        NativeTool::GetOrders | NativeTool::GetCustomers | NativeTool::GetQuotes
        | NativeTool::GetMaterials | NativeTool::GetEmployees => {
            let path = match t {
                NativeTool::GetOrders => orders_path_bytes(),
                NativeTool::GetCustomers => customers_path_bytes(),
                NativeTool::GetQuotes => quotes_path_bytes(),
                NativeTool::GetMaterials => materials_path_bytes(),
                _ => employees_path_bytes(),
            };
            let mut a = args;
            let query = take_query(&mut a);
            Ok(ApiCall { method: get_method_bytes(), path, query, body: None })
        },
        NativeTool::GetOrderById | NativeTool::GetCustomerByCode | NativeTool::GetQuoteById
        | NativeTool::GetMaterialByPartNumber => {
            let (mut path, key) = match t {
                NativeTool::GetOrderById => (orders_path_bytes(), order_number_key_bytes()),
                NativeTool::GetCustomerByCode => (customers_path_bytes(), customer_code_key_bytes()),
                NativeTool::GetQuoteById => (quotes_path_bytes(), quote_number_key_bytes()),
                _ => (materials_path_bytes(), part_number_key_bytes()),
            };
            match args.get_str(key.as_slice()) {
                None => Err(ToolError::MissingField(key)),
                Some(v) => {
                    let ghost base = path@;
                    path.push(47);
                    append(&mut path, v.as_slice());
                    assert(path@ =~= base.push(47) + v@);
                    Ok(ApiCall { method: get_method_bytes(), path, query: Vec::new(), body: None })
                },
            }
        },
        NativeTool::CustomApiCall => {
            let m = match args.get_str(method_key_bytes().as_slice()) {
                None => {
                    return Err(ToolError::MissingField(method_key_bytes()));
                },
                Some(m) => m,
            };
            let p = match args.get_str(path_key_bytes().as_slice()) {
                None => {
                    return Err(ToolError::MissingField(path_key_bytes()));
                },
                Some(p) => p,
            };
            if !is_safe_path(p.as_slice()) {
                return Err(ToolError::InvalidPath);
            }
            let method = to_upper(m.as_slice());
            let ghost a0 = args;
            let mut a = args;
            let query = take_query(&mut a);
            assert(body_key() != query_key());
            let body = a.take(body_key_bytes().as_slice());
            assert(body == get_spec(a0, body_key()));
            Ok(ApiCall { method, path: p, query, body })
        },
    }
}

impl NativeTool {
    /// The native tool called `name`, if there is one.
    pub fn from_name(name: &[u8]) -> (r: Option<NativeTool>)
        ensures
            r matches Some(t) ==> tool_name(t) == name@,
            r is None ==> !is_native(name@),
    {
        let all = [
            NativeTool::GetOrders,
            NativeTool::GetOrderById,
            NativeTool::GetCustomers,
            NativeTool::GetCustomerByCode,
            NativeTool::GetQuotes,
            NativeTool::GetQuoteById,
            NativeTool::GetMaterials,
            NativeTool::GetMaterialByPartNumber,
            NativeTool::GetEmployees,
            NativeTool::CustomApiCall,
        ];
        let mut i: usize = 0;
        while i < 10
            invariant
                i <= 10,
                all@.len() == 10,
                all@ == seq![
                    NativeTool::GetOrders,
                    NativeTool::GetOrderById,
                    NativeTool::GetCustomers,
                    NativeTool::GetCustomerByCode,
                    NativeTool::GetQuotes,
                    NativeTool::GetQuoteById,
                    NativeTool::GetMaterials,
                    NativeTool::GetMaterialByPartNumber,
                    NativeTool::GetEmployees,
                    NativeTool::CustomApiCall,
                ],
                forall|j: int| 0 <= j < i ==> tool_name(#[trigger] all@[j]) != name@,
            decreases 10 - i,
        {
            let t = all[i];
            if crate::json::bytes_equal(t.name().as_slice(), name) {
                return Some(t);
            }
            i = i + 1;
        }
        assert forall|t: NativeTool| tool_name(t) != name@ by {
            match t {
                NativeTool::GetOrders => assert(all@[0] == t),
                NativeTool::GetOrderById => assert(all@[1] == t),
                NativeTool::GetCustomers => assert(all@[2] == t),
                NativeTool::GetCustomerByCode => assert(all@[3] == t),
                NativeTool::GetQuotes => assert(all@[4] == t),
                NativeTool::GetQuoteById => assert(all@[5] == t),
                NativeTool::GetMaterials => assert(all@[6] == t),
                NativeTool::GetMaterialByPartNumber => assert(all@[7] == t),
                NativeTool::GetEmployees => assert(all@[8] == t),
                NativeTool::CustomApiCall => assert(all@[9] == t),
            }
        }
        None
    }

    /// The name under which this tool is called.
    pub fn name(&self) -> (r: Vec<u8>)
        ensures
            r@ == tool_name(*self),
    {
        match self {
            NativeTool::GetOrders => get_orders_name_bytes(),
            NativeTool::GetOrderById => get_order_by_id_name_bytes(),
            NativeTool::GetCustomers => get_customers_name_bytes(),
            NativeTool::GetCustomerByCode => get_customer_by_code_name_bytes(),
            NativeTool::GetQuotes => get_quotes_name_bytes(),
            NativeTool::GetQuoteById => get_quote_by_id_name_bytes(),
            NativeTool::GetMaterials => get_materials_name_bytes(),
            NativeTool::GetMaterialByPartNumber => get_material_by_part_number_name_bytes(),
            NativeTool::GetEmployees => get_employees_name_bytes(),
            NativeTool::CustomApiCall => custom_api_call_name_bytes(),
        }
    }
}

impl NativeTools {
    /// The native tools, calling the API that `cfg` names.
    pub fn new(cfg: Config) -> (r: NativeTools)
        ensures
            r.cfg == cfg,
    {
        NativeTools { cfg }
    }

    /// Whether the tool `name` is served natively rather than forwarded.
    pub fn supports(name: &str) -> (r: bool)
        ensures
            r == is_native(encode_utf8(name@)),
    {
        NativeTool::from_name(name.as_bytes()).is_some()
    }

    /// The request that calling tool `name` with `args` makes of the remote
    /// API, or why it makes none. Every check is made here, before any request.
    pub fn call(&self, name: &[u8], args: Json) -> (r: Result<ApiCall, ToolError>)
        ensures
            !is_native(name@) ==> r == Err::<ApiCall, ToolError>(ToolError::Unsupported),
            forall|t: NativeTool| tool_name(t) == name@ ==> plan_spec(t, args, r),
    {
        match NativeTool::from_name(name) {
            None => Err(ToolError::Unsupported),
            Some(t) => {
                proof {
                    assert forall|u: NativeTool| tool_name(u) == name@ implies u == t by {
                        assert(tool_name(u) == tool_name(t));
                    }
                }
                plan(t, args)
            },
        }
    }

    /// The `Authorization` header of the token exchange: HTTP Basic with the
    /// API key and secret.
    pub fn basic_authorization(&self) -> (r: Vec<u8>)
        requires
            encode_utf8(self.cfg.api_key@).len() + encode_utf8(self.cfg.api_secret@).len() < isize::MAX,
        ensures
            r@ == basic_credentials(
                encode_utf8(self.cfg.api_key@),
                encode_utf8(self.cfg.api_secret@),
            ),
    {
        let mut pair: Vec<u8> = Vec::new();
        append(&mut pair, self.cfg.api_key.as_str().as_bytes());
        pair.push(58);
        append(&mut pair, self.cfg.api_secret.as_str().as_bytes());
        let mut r = basic_prefix_bytes();
        let encoded = encode_base64(pair.as_slice());
        append(&mut r, encoded.as_slice());
        assert(pair@ =~= encode_utf8(self.cfg.api_key@).push(58) + encode_utf8(self.cfg.api_secret@));
        r
    }

    /// The address of `path` on the remote API: the base address without its
    /// trailing slashes, then the path.
    pub fn url(&self, path: &[u8]) -> (r: Vec<u8>)
        ensures
            r@ == trim_slashes(encode_utf8(self.cfg.api_url@)) + path@,
    {
        let base = self.cfg.api_url.as_str().as_bytes();
        let mut end: usize = base.len();
        assert(base@.subrange(0, end as int) =~= base@);
        while end > 0 && base[end - 1] == 47
            invariant
                end <= base@.len(),
                trim_slashes(base@) == trim_slashes(base@.subrange(0, end as int)),
            decreases end,
        {
            assert(base@.subrange(0, end as int).drop_last() =~= base@.subrange(0, end - 1));
            end = end - 1;
        }
        let mut r = vstd::slice::slice_to_vec(vstd::slice::slice_subrange(base, 0, end));
        append(&mut r, path);
        r
    }

    /// Reads the token endpoint's status: anything but success fails the
    /// exchange, and leaves the cache as it was.
    pub fn token_status(status: u16) -> (r: Result<(), ToolError>)
        ensures
            is_success(status) ==> r is Ok,
            !is_success(status) ==> r == Err::<(), ToolError>(ToolError::Auth(status)),
    {
        if 200 <= status && status <= 299 {
            Ok(())
        } else {
            Err(ToolError::Auth(status))
        }
    }

    /// Reads an answer of the remote API: an error for a non-success status,
    /// with the body kept; else an empty result or the body text.
    pub fn read_answer(status: u16, body: &[u8]) -> (r: Result<ApiBody, ToolError>)
        ensures
            answer_spec(status, body@, r),
    {
        if !(200 <= status && status <= 299) {
            return Err(ToolError::Api(status, vstd::slice::slice_to_vec(body)));
        }
        let (a, b) = trim_bounds(body);
        if a == b {
            Ok(ApiBody::Empty)
        } else {
            Ok(ApiBody::Text(vstd::slice::slice_to_vec(body)))
        }
    }
}

} // verus!
