//! A minimal JSON-RPC-flavored greeting service core.
//!
//! The library holds the one piece of request-handling logic of the
//! service: given a decoded request envelope, validate the method name,
//! trim the caller-supplied name, and produce a response envelope that
//! is either a greeting or a "method not found" error. JSON decoding
//! and encoding, HTTP, and CORS live outside the library.

pub mod rpc;
pub mod text;
