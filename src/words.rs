//! The fixed byte strings of the protocol: keys, method names, versions and paths.
use vstd::prelude::*;

verus! {

/// The bytes of `id`.
pub open spec fn id_key() -> Seq<u8> {
    seq![105u8, 100]
}

pub fn id_key_bytes() -> (r: Vec<u8>)
    ensures
        r@ == id_key(),
{
    let r: Vec<u8> = vec![105u8, 100];
    assert(r@ =~= id_key());
    r
}

/// The bytes of `jsonrpc`.
pub open spec fn jsonrpc_key() -> Seq<u8> {
    seq![106u8, 115, 111, 110, 114, 112, 99]
}

pub fn jsonrpc_key_bytes() -> (r: Vec<u8>)
    ensures
        r@ == jsonrpc_key(),
{
    let r: Vec<u8> = vec![106u8, 115, 111, 110, 114, 112, 99];
    assert(r@ =~= jsonrpc_key());
    r
}

/// The bytes of `2.0`.
pub open spec fn version_tag() -> Seq<u8> {
    seq![50u8, 46, 48]
}

pub fn version_tag_bytes() -> (r: Vec<u8>)
    ensures
        r@ == version_tag(),
{
    let r: Vec<u8> = vec![50u8, 46, 48];
    assert(r@ =~= version_tag());
    r
}

/// The bytes of `method`.
pub open spec fn method_key() -> Seq<u8> {
    seq![109u8, 101, 116, 104, 111, 100]
}

pub fn method_key_bytes() -> (r: Vec<u8>)
    ensures
        r@ == method_key(),
{
    let r: Vec<u8> = vec![109u8, 101, 116, 104, 111, 100];
    assert(r@ =~= method_key());
    r
}

/// The bytes of `params`.
pub open spec fn params_key() -> Seq<u8> {
    seq![112u8, 97, 114, 97, 109, 115]
}

pub fn params_key_bytes() -> (r: Vec<u8>)
    ensures
        r@ == params_key(),
{
    let r: Vec<u8> = vec![112u8, 97, 114, 97, 109, 115];
    assert(r@ =~= params_key());
    r
}

/// The bytes of `error`.
pub open spec fn error_key() -> Seq<u8> {
    seq![101u8, 114, 114, 111, 114]
}

pub fn error_key_bytes() -> (r: Vec<u8>)
    ensures
        r@ == error_key(),
{
    let r: Vec<u8> = vec![101u8, 114, 114, 111, 114];
    assert(r@ =~= error_key());
    r
}

/// The bytes of `result`.
pub open spec fn result_key() -> Seq<u8> {
    seq![114u8, 101, 115, 117, 108, 116]
}

pub fn result_key_bytes() -> (r: Vec<u8>)
    ensures
        r@ == result_key(),
{
    let r: Vec<u8> = vec![114u8, 101, 115, 117, 108, 116];
    assert(r@ =~= result_key());
    r
}

/// The bytes of `name`.
pub open spec fn name_key() -> Seq<u8> {
    seq![110u8, 97, 109, 101]
}

pub fn name_key_bytes() -> (r: Vec<u8>)
    ensures
        r@ == name_key(),
{
    let r: Vec<u8> = vec![110u8, 97, 109, 101];
    assert(r@ =~= name_key());
    r
}

/// The bytes of `arguments`.
pub open spec fn arguments_key() -> Seq<u8> {
    seq![97u8, 114, 103, 117, 109, 101, 110, 116, 115]
}

pub fn arguments_key_bytes() -> (r: Vec<u8>)
    ensures
        r@ == arguments_key(),
{
    let r: Vec<u8> = vec![97u8, 114, 103, 117, 109, 101, 110, 116, 115];
    assert(r@ =~= arguments_key());
    r
}

/// The bytes of `tools/list`.
pub open spec fn tools_list() -> Seq<u8> {
    seq![116u8, 111, 111, 108, 115, 47, 108, 105, 115, 116]
}

pub fn tools_list_bytes() -> (r: Vec<u8>)
    ensures
        r@ == tools_list(),
{
    let r: Vec<u8> = vec![116u8, 111, 111, 108, 115, 47, 108, 105, 115, 116];
    assert(r@ =~= tools_list());
    r
}

/// The bytes of `tools/call`.
pub open spec fn tools_call() -> Seq<u8> {
    seq![116u8, 111, 111, 108, 115, 47, 99, 97, 108, 108]
}

pub fn tools_call_bytes() -> (r: Vec<u8>)
    ensures
        r@ == tools_call(),
{
    let r: Vec<u8> = vec![116u8, 111, 111, 108, 115, 47, 99, 97, 108, 108];
    assert(r@ =~= tools_call());
    r
}

/// The bytes of `initialize`.
pub open spec fn initialize_method() -> Seq<u8> {
    seq![105u8, 110, 105, 116, 105, 97, 108, 105, 122, 101]
}

pub fn initialize_method_bytes() -> (r: Vec<u8>)
    ensures
        r@ == initialize_method(),
{
    let r: Vec<u8> = vec![105u8, 110, 105, 116, 105, 97, 108, 105, 122, 101];
    assert(r@ =~= initialize_method());
    r
}

/// The bytes of `protocolVersion`.
pub open spec fn protocol_version_key() -> Seq<u8> {
    seq![112u8, 114, 111, 116, 111, 99, 111, 108, 86, 101, 114, 115, 105, 111, 110]
}

pub fn protocol_version_key_bytes() -> (r: Vec<u8>)
    ensures
        r@ == protocol_version_key(),
{
    let r: Vec<u8> = vec![112u8, 114, 111, 116, 111, 99, 111, 108, 86, 101, 114, 115, 105, 111, 110];
    assert(r@ =~= protocol_version_key());
    r
}

/// The bytes of `2024-11-05`.
pub open spec fn protocol_version() -> Seq<u8> {
    seq![50u8, 48, 50, 52, 45, 49, 49, 45, 48, 53]
}

pub fn protocol_version_bytes() -> (r: Vec<u8>)
    ensures
        r@ == protocol_version(),
{
    let r: Vec<u8> = vec![50u8, 48, 50, 52, 45, 49, 49, 45, 48, 53];
    assert(r@ =~= protocol_version());
    r
}

/// The bytes of `capabilities`.
pub open spec fn capabilities_key() -> Seq<u8> {
    seq![99u8, 97, 112, 97, 98, 105, 108, 105, 116, 105, 101, 115]
}

pub fn capabilities_key_bytes() -> (r: Vec<u8>)
    ensures
        r@ == capabilities_key(),
{
    let r: Vec<u8> = vec![99u8, 97, 112, 97, 98, 105, 108, 105, 116, 105, 101, 115];
    assert(r@ =~= capabilities_key());
    r
}

/// The bytes of `clientInfo`.
pub open spec fn client_info_key() -> Seq<u8> {
    seq![99u8, 108, 105, 101, 110, 116, 73, 110, 102, 111]
}

pub fn client_info_key_bytes() -> (r: Vec<u8>)
    ensures
        r@ == client_info_key(),
{
    let r: Vec<u8> = vec![99u8, 108, 105, 101, 110, 116, 73, 110, 102, 111];
    assert(r@ =~= client_info_key());
    r
}

/// The bytes of `rust-bridge`.
pub open spec fn client_name() -> Seq<u8> {
    seq![114u8, 117, 115, 116, 45, 98, 114, 105, 100, 103, 101]
}

pub fn client_name_bytes() -> (r: Vec<u8>)
    ensures
        r@ == client_name(),
{
    let r: Vec<u8> = vec![114u8, 117, 115, 116, 45, 98, 114, 105, 100, 103, 101];
    assert(r@ =~= client_name());
    r
}

/// The bytes of `version`.
pub open spec fn version_key() -> Seq<u8> {
    seq![118u8, 101, 114, 115, 105, 111, 110]
}

pub fn version_key_bytes() -> (r: Vec<u8>)
    ensures
        r@ == version_key(),
{
    let r: Vec<u8> = vec![118u8, 101, 114, 115, 105, 111, 110];
    assert(r@ =~= version_key());
    r
}

/// The bytes of `0.1.0`.
pub open spec fn client_version() -> Seq<u8> {
    seq![48u8, 46, 49, 46, 48]
}

pub fn client_version_bytes() -> (r: Vec<u8>)
    ensures
        r@ == client_version(),
{
    let r: Vec<u8> = vec![48u8, 46, 49, 46, 48];
    assert(r@ =~= client_version());
    r
}

/// The bytes of `serverInfo`.
pub open spec fn server_info_key() -> Seq<u8> {
    seq![115u8, 101, 114, 118, 101, 114, 73, 110, 102, 111]
}

pub fn server_info_key_bytes() -> (r: Vec<u8>)
    ensures
        r@ == server_info_key(),
{
    let r: Vec<u8> = vec![115u8, 101, 114, 118, 101, 114, 73, 110, 102, 111];
    assert(r@ =~= server_info_key());
    r
}

/// The bytes of `jobboss2-rust`.
pub open spec fn server_name() -> Seq<u8> {
    seq![106u8, 111, 98, 98, 111, 115, 115, 50, 45, 114, 117, 115, 116]
}

pub fn server_name_bytes() -> (r: Vec<u8>)
    ensures
        r@ == server_name(),
{
    let r: Vec<u8> = vec![106u8, 111, 98, 98, 111, 115, 115, 50, 45, 114, 117, 115, 116];
    assert(r@ =~= server_name());
    r
}

/// The bytes of `0.3.0`.
pub open spec fn server_version() -> Seq<u8> {
    seq![48u8, 46, 51, 46, 48]
}

pub fn server_version_bytes() -> (r: Vec<u8>)
    ensures
        r@ == server_version(),
{
    let r: Vec<u8> = vec![48u8, 46, 51, 46, 48];
    assert(r@ =~= server_version());
    r
}

/// The bytes of `tools`.
pub open spec fn tools_key() -> Seq<u8> {
    seq![116u8, 111, 111, 108, 115]
}

pub fn tools_key_bytes() -> (r: Vec<u8>)
    ensures
        r@ == tools_key(),
{
    let r: Vec<u8> = vec![116u8, 111, 111, 108, 115];
    assert(r@ =~= tools_key());
    r
}

/// The bytes of `content`.
pub open spec fn content_key() -> Seq<u8> {
    seq![99u8, 111, 110, 116, 101, 110, 116]
}

pub fn content_key_bytes() -> (r: Vec<u8>)
    ensures
        r@ == content_key(),
{
    let r: Vec<u8> = vec![99u8, 111, 110, 116, 101, 110, 116];
    assert(r@ =~= content_key());
    r
}

/// The bytes of `type`.
pub open spec fn type_key() -> Seq<u8> {
    seq![116u8, 121, 112, 101]
}

pub fn type_key_bytes() -> (r: Vec<u8>)
    ensures
        r@ == type_key(),
{
    let r: Vec<u8> = vec![116u8, 121, 112, 101];
    assert(r@ =~= type_key());
    r
}

/// The bytes of `text`.
pub open spec fn text_key() -> Seq<u8> {
    seq![116u8, 101, 120, 116]
}

pub fn text_key_bytes() -> (r: Vec<u8>)
    ensures
        r@ == text_key(),
{
    let r: Vec<u8> = vec![116u8, 101, 120, 116];
    assert(r@ =~= text_key());
    r
}

/// The bytes of `code`.
pub open spec fn code_key() -> Seq<u8> {
    seq![99u8, 111, 100, 101]
}

pub fn code_key_bytes() -> (r: Vec<u8>)
    ensures
        r@ == code_key(),
{
    let r: Vec<u8> = vec![99u8, 111, 100, 101];
    assert(r@ =~= code_key());
    r
}

/// The bytes of `message`.
pub open spec fn message_key() -> Seq<u8> {
    seq![109u8, 101, 115, 115, 97, 103, 101]
}

pub fn message_key_bytes() -> (r: Vec<u8>)
    ensures
        r@ == message_key(),
{
    let r: Vec<u8> = vec![109u8, 101, 115, 115, 97, 103, 101];
    assert(r@ =~= message_key());
    r
}

/// The bytes of `Method not found`.
pub open spec fn not_found_message() -> Seq<u8> {
    seq![77u8, 101, 116, 104, 111, 100, 32, 110, 111, 116, 32, 102, 111, 117, 110, 100]
}

pub fn not_found_message_bytes() -> (r: Vec<u8>)
    ensures
        r@ == not_found_message(),
{
    let r: Vec<u8> = vec![77u8, 101, 116, 104, 111, 100, 32, 110, 111, 116, 32, 102, 111, 117, 110, 100];
    assert(r@ =~= not_found_message());
    r
}

/// The bytes of `-32601`.
pub open spec fn not_found_code() -> Seq<u8> {
    seq![45u8, 51, 50, 54, 48, 49]
}

pub fn not_found_code_bytes() -> (r: Vec<u8>)
    ensures
        r@ == not_found_code(),
{
    let r: Vec<u8> = vec![45u8, 51, 50, 54, 48, 49];
    assert(r@ =~= not_found_code());
    r
}

/// The bytes of `-32000`.
pub open spec fn tool_error_code() -> Seq<u8> {
    seq![45u8, 51, 50, 48, 48, 48]
}

pub fn tool_error_code_bytes() -> (r: Vec<u8>)
    ensures
        r@ == tool_error_code(),
{
    let r: Vec<u8> = vec![45u8, 51, 50, 48, 48, 48];
    assert(r@ =~= tool_error_code());
    r
}

/// The bytes of `query`.
pub open spec fn query_key() -> Seq<u8> {
    seq![113u8, 117, 101, 114, 121]
}

pub fn query_key_bytes() -> (r: Vec<u8>)
    ensures
        r@ == query_key(),
{
    let r: Vec<u8> = vec![113u8, 117, 101, 114, 121];
    assert(r@ =~= query_key());
    r
}

/// The bytes of `body`.
pub open spec fn body_key() -> Seq<u8> {
    seq![98u8, 111, 100, 121]
}

pub fn body_key_bytes() -> (r: Vec<u8>)
    ensures
        r@ == body_key(),
{
    let r: Vec<u8> = vec![98u8, 111, 100, 121];
    assert(r@ =~= body_key());
    r
}

/// The bytes of `path`.
pub open spec fn path_key() -> Seq<u8> {
    seq![112u8, 97, 116, 104]
}

pub fn path_key_bytes() -> (r: Vec<u8>)
    ensures
        r@ == path_key(),
{
    let r: Vec<u8> = vec![112u8, 97, 116, 104];
    assert(r@ =~= path_key());
    r
}

/// The bytes of `GET`.
pub open spec fn get_method() -> Seq<u8> {
    seq![71u8, 69, 84]
}

pub fn get_method_bytes() -> (r: Vec<u8>)
    ensures
        r@ == get_method(),
{
    let r: Vec<u8> = vec![71u8, 69, 84];
    assert(r@ =~= get_method());
    r
}

/// The bytes of `orderNumber`.
pub open spec fn order_number_key() -> Seq<u8> {
    seq![111u8, 114, 100, 101, 114, 78, 117, 109, 98, 101, 114]
}

pub fn order_number_key_bytes() -> (r: Vec<u8>)
    ensures
        r@ == order_number_key(),
{
    let r: Vec<u8> = vec![111u8, 114, 100, 101, 114, 78, 117, 109, 98, 101, 114];
    assert(r@ =~= order_number_key());
    r
}

/// The bytes of `customerCode`.
pub open spec fn customer_code_key() -> Seq<u8> {
    seq![99u8, 117, 115, 116, 111, 109, 101, 114, 67, 111, 100, 101]
}

pub fn customer_code_key_bytes() -> (r: Vec<u8>)
    ensures
        r@ == customer_code_key(),
{
    let r: Vec<u8> = vec![99u8, 117, 115, 116, 111, 109, 101, 114, 67, 111, 100, 101];
    assert(r@ =~= customer_code_key());
    r
}

/// The bytes of `quoteNumber`.
pub open spec fn quote_number_key() -> Seq<u8> {
    seq![113u8, 117, 111, 116, 101, 78, 117, 109, 98, 101, 114]
}

pub fn quote_number_key_bytes() -> (r: Vec<u8>)
    ensures
        r@ == quote_number_key(),
{
    let r: Vec<u8> = vec![113u8, 117, 111, 116, 101, 78, 117, 109, 98, 101, 114];
    assert(r@ =~= quote_number_key());
    r
}

/// The bytes of `partNumber`.
pub open spec fn part_number_key() -> Seq<u8> {
    seq![112u8, 97, 114, 116, 78, 117, 109, 98, 101, 114]
}

pub fn part_number_key_bytes() -> (r: Vec<u8>)
    ensures
        r@ == part_number_key(),
{
    let r: Vec<u8> = vec![112u8, 97, 114, 116, 78, 117, 109, 98, 101, 114];
    assert(r@ =~= part_number_key());
    r
}

/// The bytes of `/api/v2/orders`.
pub open spec fn orders_path() -> Seq<u8> {
    seq![47u8, 97, 112, 105, 47, 118, 50, 47, 111, 114, 100, 101, 114, 115]
}

pub fn orders_path_bytes() -> (r: Vec<u8>)
    ensures
        r@ == orders_path(),
{
    let r: Vec<u8> = vec![47u8, 97, 112, 105, 47, 118, 50, 47, 111, 114, 100, 101, 114, 115];
    assert(r@ =~= orders_path());
    r
}

/// The bytes of `/api/v2/customers`.
pub open spec fn customers_path() -> Seq<u8> {
    seq![47u8, 97, 112, 105, 47, 118, 50, 47, 99, 117, 115, 116, 111, 109, 101, 114, 115]
}

pub fn customers_path_bytes() -> (r: Vec<u8>)
    ensures
        r@ == customers_path(),
{
    let r: Vec<u8> = vec![47u8, 97, 112, 105, 47, 118, 50, 47, 99, 117, 115, 116, 111, 109, 101, 114, 115];
    assert(r@ =~= customers_path());
    r
}

/// The bytes of `/api/v2/quotes`.
pub open spec fn quotes_path() -> Seq<u8> {
    seq![47u8, 97, 112, 105, 47, 118, 50, 47, 113, 117, 111, 116, 101, 115]
}

pub fn quotes_path_bytes() -> (r: Vec<u8>)
    ensures
        r@ == quotes_path(),
{
    let r: Vec<u8> = vec![47u8, 97, 112, 105, 47, 118, 50, 47, 113, 117, 111, 116, 101, 115];
    assert(r@ =~= quotes_path());
    r
}

/// The bytes of `/api/v2/materials`.
pub open spec fn materials_path() -> Seq<u8> {
    seq![47u8, 97, 112, 105, 47, 118, 50, 47, 109, 97, 116, 101, 114, 105, 97, 108, 115]
}

pub fn materials_path_bytes() -> (r: Vec<u8>)
    ensures
        r@ == materials_path(),
{
    let r: Vec<u8> = vec![47u8, 97, 112, 105, 47, 118, 50, 47, 109, 97, 116, 101, 114, 105, 97, 108, 115];
    assert(r@ =~= materials_path());
    r
}

/// The bytes of `/api/v2/employees`.
pub open spec fn employees_path() -> Seq<u8> {
    seq![47u8, 97, 112, 105, 47, 118, 50, 47, 101, 109, 112, 108, 111, 121, 101, 101, 115]
}

pub fn employees_path_bytes() -> (r: Vec<u8>)
    ensures
        r@ == employees_path(),
{
    let r: Vec<u8> = vec![47u8, 97, 112, 105, 47, 118, 50, 47, 101, 109, 112, 108, 111, 121, 101, 101, 115];
    assert(r@ =~= employees_path());
    r
}

/// The bytes of `Basic `.
pub open spec fn basic_prefix() -> Seq<u8> {
    seq![66u8, 97, 115, 105, 99, 32]
}

pub fn basic_prefix_bytes() -> (r: Vec<u8>)
    ensures
        r@ == basic_prefix(),
{
    let r: Vec<u8> = vec![66u8, 97, 115, 105, 99, 32];
    assert(r@ =~= basic_prefix());
    r
}

/// The bytes of `get_orders`.
pub open spec fn get_orders_name() -> Seq<u8> {
    seq![103u8, 101, 116, 95, 111, 114, 100, 101, 114, 115]
}

pub fn get_orders_name_bytes() -> (r: Vec<u8>)
    ensures
        r@ == get_orders_name(),
{
    let r: Vec<u8> = vec![103u8, 101, 116, 95, 111, 114, 100, 101, 114, 115];
    assert(r@ =~= get_orders_name());
    r
}

/// The bytes of `get_order_by_id`.
pub open spec fn get_order_by_id_name() -> Seq<u8> {
    seq![103u8, 101, 116, 95, 111, 114, 100, 101, 114, 95, 98, 121, 95, 105, 100]
}

pub fn get_order_by_id_name_bytes() -> (r: Vec<u8>)
    ensures
        r@ == get_order_by_id_name(),
{
    let r: Vec<u8> = vec![103u8, 101, 116, 95, 111, 114, 100, 101, 114, 95, 98, 121, 95, 105, 100];
    assert(r@ =~= get_order_by_id_name());
    r
}

/// The bytes of `get_customers`.
pub open spec fn get_customers_name() -> Seq<u8> {
    seq![103u8, 101, 116, 95, 99, 117, 115, 116, 111, 109, 101, 114, 115]
}

pub fn get_customers_name_bytes() -> (r: Vec<u8>)
    ensures
        r@ == get_customers_name(),
{
    let r: Vec<u8> = vec![103u8, 101, 116, 95, 99, 117, 115, 116, 111, 109, 101, 114, 115];
    assert(r@ =~= get_customers_name());
    r
}

/// The bytes of `get_customer_by_code`.
pub open spec fn get_customer_by_code_name() -> Seq<u8> {
    seq![103u8, 101, 116, 95, 99, 117, 115, 116, 111, 109, 101, 114, 95, 98, 121, 95, 99, 111, 100, 101]
}

pub fn get_customer_by_code_name_bytes() -> (r: Vec<u8>)
    ensures
        r@ == get_customer_by_code_name(),
{
    let r: Vec<u8> = vec![103u8, 101, 116, 95, 99, 117, 115, 116, 111, 109, 101, 114, 95, 98, 121, 95, 99, 111, 100, 101];
    assert(r@ =~= get_customer_by_code_name());
    r
}

/// The bytes of `get_quotes`.
pub open spec fn get_quotes_name() -> Seq<u8> {
    seq![103u8, 101, 116, 95, 113, 117, 111, 116, 101, 115]
}

pub fn get_quotes_name_bytes() -> (r: Vec<u8>)
    ensures
        r@ == get_quotes_name(),
{
    let r: Vec<u8> = vec![103u8, 101, 116, 95, 113, 117, 111, 116, 101, 115];
    assert(r@ =~= get_quotes_name());
    r
}

/// The bytes of `get_quote_by_id`.
pub open spec fn get_quote_by_id_name() -> Seq<u8> {
    seq![103u8, 101, 116, 95, 113, 117, 111, 116, 101, 95, 98, 121, 95, 105, 100]
}

pub fn get_quote_by_id_name_bytes() -> (r: Vec<u8>)
    ensures
        r@ == get_quote_by_id_name(),
{
    let r: Vec<u8> = vec![103u8, 101, 116, 95, 113, 117, 111, 116, 101, 95, 98, 121, 95, 105, 100];
    assert(r@ =~= get_quote_by_id_name());
    r
}

/// The bytes of `get_materials`.
pub open spec fn get_materials_name() -> Seq<u8> {
    seq![103u8, 101, 116, 95, 109, 97, 116, 101, 114, 105, 97, 108, 115]
}

pub fn get_materials_name_bytes() -> (r: Vec<u8>)
    ensures
        r@ == get_materials_name(),
{
    let r: Vec<u8> = vec![103u8, 101, 116, 95, 109, 97, 116, 101, 114, 105, 97, 108, 115];
    assert(r@ =~= get_materials_name());
    r
}

/// The bytes of `get_material_by_part_number`.
pub open spec fn get_material_by_part_number_name() -> Seq<u8> {
    seq![103u8, 101, 116, 95, 109, 97, 116, 101, 114, 105, 97, 108, 95, 98, 121, 95, 112, 97, 114, 116, 95, 110, 117, 109, 98, 101, 114]
}

pub fn get_material_by_part_number_name_bytes() -> (r: Vec<u8>)
    ensures
        r@ == get_material_by_part_number_name(),
{
    let r: Vec<u8> = vec![103u8, 101, 116, 95, 109, 97, 116, 101, 114, 105, 97, 108, 95, 98, 121, 95, 112, 97, 114, 116, 95, 110, 117, 109, 98, 101, 114];
    assert(r@ =~= get_material_by_part_number_name());
    r
}

/// The bytes of `get_employees`.
pub open spec fn get_employees_name() -> Seq<u8> {
    seq![103u8, 101, 116, 95, 101, 109, 112, 108, 111, 121, 101, 101, 115]
}

pub fn get_employees_name_bytes() -> (r: Vec<u8>)
    ensures
        r@ == get_employees_name(),
{
    let r: Vec<u8> = vec![103u8, 101, 116, 95, 101, 109, 112, 108, 111, 121, 101, 101, 115];
    assert(r@ =~= get_employees_name());
    r
}

/// The bytes of `custom_api_call`.
pub open spec fn custom_api_call_name() -> Seq<u8> {
    seq![99u8, 117, 115, 116, 111, 109, 95, 97, 112, 105, 95, 99, 97, 108, 108]
}

pub fn custom_api_call_name_bytes() -> (r: Vec<u8>)
    ensures
        r@ == custom_api_call_name(),
{
    let r: Vec<u8> = vec![99u8, 117, 115, 116, 111, 109, 95, 97, 112, 105, 95, 99, 97, 108, 108];
    assert(r@ =~= custom_api_call_name());
    r
}
} // verus!
