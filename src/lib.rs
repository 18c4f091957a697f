//! A JSON-RPC relay core: Content-Length framing, delegate call correlation,
//! tool dispatch, the native tool table and a cached OAuth bearer token.
pub mod bridge;
pub mod config;
pub mod dispatch;
pub mod frame;
pub mod json;
pub mod native_tools;
pub mod text;
pub mod token;
pub mod words;
