//! The JSON-RPC-flavored request and response envelopes and the one
//! piece of request-handling logic: the greeting handler.

use crate::text::{is_space, trim, trim_str};
use crate::text::{lemma_trim_keeps_content, lemma_trim_of_all_space};
use vstd::prelude::*;

verus! {

/// The JSON-RPC error code for a method that the service does not know.
pub const METHOD_NOT_FOUND_CODE: i32 = -32601;

/// The parameters of a greeting request: the raw name to greet.
pub struct GreetingJsonRpcParams {
    pub name: String,
}

/// A decoded request envelope. Every field is required at decode time;
/// decoding itself happens outside the library.
pub struct GreetingJsonRpcRequest {
    pub id: String,
    pub jsonrpc: String,
    pub method: String,
    pub params: GreetingJsonRpcParams,
}

/// The payload of a successful greeting response.
pub struct GreetingResult {
    pub greeting: String,
}

/// The offending method name, echoed back inside an error response.
pub struct MethodNotFoundData {
    pub method: String,
}

/// The error payload reporting an unrecognized method.
pub struct MethodNotFoundError {
    pub code: i32,
    pub data: MethodNotFoundData,
    pub message: String,
}

/// A response envelope: either a greeting or a "method not found"
/// error, each carrying the request's `id` and `jsonrpc` verbatim.
pub enum GreetingJsonRpcResponse {
    MethodNotFoundError { error: MethodNotFoundError, id: String, jsonrpc: String },
    GreetingResult { id: String, jsonrpc: String, result: GreetingResult },
}

/// The greeting produced for a raw `name`: the default greeting when
/// the name trims to nothing, and the trimmed name interpolated
/// otherwise, with no escaping beyond the trimming.
pub open spec fn greeting_text(name: Seq<char>) -> Seq<char> {
    if trim(name).len() == 0 {
        "Hello, World!"@
    } else {
        "Hello, "@ + trim(name) + "!"@
    }
}

/// `r` is the success reply owed to `req`: the envelope is echoed and
/// the greeting is exactly `greeting_text` of the raw name.
pub open spec fn greeting_reply_to(req: GreetingJsonRpcRequest, r: GreetingJsonRpcResponse) -> bool {
    match r {
        GreetingJsonRpcResponse::GreetingResult { id, jsonrpc, result } => {
            &&& id@ == req.id@
            &&& jsonrpc@ == req.jsonrpc@
            &&& result.greeting@ == greeting_text(req.params.name@)
        },
        GreetingJsonRpcResponse::MethodNotFoundError { .. } => false,
    }
}

/// `r` is the error reply owed to `req`: the envelope is echoed, the
/// code and message are the fixed "method not found" pair, and the
/// offending method name is echoed verbatim in the error data.
pub open spec fn method_not_found_reply_to(
    req: GreetingJsonRpcRequest,
    r: GreetingJsonRpcResponse,
) -> bool {
    match r {
        GreetingJsonRpcResponse::MethodNotFoundError { error, id, jsonrpc } => {
            &&& id@ == req.id@
            &&& jsonrpc@ == req.jsonrpc@
            &&& error.code == METHOD_NOT_FOUND_CODE
            &&& error.message@ == "Method not found"@
            &&& error.data.method@ == req.method@
        },
        GreetingJsonRpcResponse::GreetingResult { .. } => false,
    }
}

/// The `id` a response envelope carries.
pub open spec fn response_id(r: GreetingJsonRpcResponse) -> Seq<char> {
    match r {
        GreetingJsonRpcResponse::MethodNotFoundError { id, .. } => id@,
        GreetingJsonRpcResponse::GreetingResult { id, .. } => id@,
    }
}

/// The `jsonrpc` a response envelope carries.
pub open spec fn response_jsonrpc(r: GreetingJsonRpcResponse) -> Seq<char> {
    match r {
        GreetingJsonRpcResponse::MethodNotFoundError { jsonrpc, .. } => jsonrpc@,
        GreetingJsonRpcResponse::GreetingResult { jsonrpc, .. } => jsonrpc@,
    }
}

/// `r` echoes the correlation fields of `req` verbatim.
pub open spec fn echoes_envelope(req: GreetingJsonRpcRequest, r: GreetingJsonRpcResponse) -> bool {
    response_id(r) == req.id@ && response_jsonrpc(r) == req.jsonrpc@
}

/// The greeting handler: the whole of the service's logic. Total:
/// every decoded request, whatever its method and name, maps to a
/// well-formed response.
pub fn handle(request: GreetingJsonRpcRequest) -> (r: GreetingJsonRpcResponse)
    ensures
        echoes_envelope(request, r),
        request.method@ == "greeting"@ ==> greeting_reply_to(request, r),
        request.method@ != "greeting"@ ==> method_not_found_reply_to(request, r),
{
    let recognized: String = "greeting".to_owned();
    if request.method != recognized {
        return GreetingJsonRpcResponse::MethodNotFoundError {
            error: MethodNotFoundError {
                code: METHOD_NOT_FOUND_CODE,
                data: MethodNotFoundData { method: request.method },
                message: "Method not found".to_owned(),
            },
            id: request.id,
            jsonrpc: request.jsonrpc,
        };
    }
    let name = trim_str(request.params.name.as_str());
    if name.is_empty() {
        return GreetingJsonRpcResponse::GreetingResult {
            id: request.id,
            jsonrpc: request.jsonrpc,
            result: GreetingResult { greeting: "Hello, World!".to_owned() },
        };
    }
    let mut greeting: String = "Hello, ".to_owned();
    greeting.append(name);
    greeting.append("!");
    GreetingJsonRpcResponse::GreetingResult {
        id: request.id,
        jsonrpc: request.jsonrpc,
        result: GreetingResult { greeting },
    }
}

/// Law: a name with at least one non-whitespace character is greeted
/// by its trimmed form, interpolated as-is.
pub proof fn lemma_nonblank_name_greets_name(name: Seq<char>)
    requires
        exists|k: int| 0 <= k < name.len() && !is_space(name[k]),
    ensures
        greeting_text(name) == "Hello, "@ + trim(name) + "!"@,
{
    lemma_trim_keeps_content(name);
}

/// Law: an empty or whitespace-only name is greeted with the default
/// greeting.
pub proof fn lemma_blank_name_greets_world(name: Seq<char>)
    requires
        forall|k: int| 0 <= k < name.len() ==> is_space(name[k]),
    ensures
        greeting_text(name) == "Hello, World!"@,
{
    lemma_trim_of_all_space(name);
}

} // verus!
