use greeting_rpc::rpc::{
    handle, GreetingJsonRpcParams, GreetingJsonRpcRequest, GreetingJsonRpcResponse,
};

fn request(id: &str, jsonrpc: &str, method: &str, name: &str) -> GreetingJsonRpcRequest {
    GreetingJsonRpcRequest {
        id: id.to_owned(),
        jsonrpc: jsonrpc.to_owned(),
        method: method.to_owned(),
        params: GreetingJsonRpcParams {
            name: name.to_owned(),
        },
    }
}

fn expect_greeting(r: GreetingJsonRpcResponse, id: &str, jsonrpc: &str, greeting: &str) {
    match r {
        GreetingJsonRpcResponse::GreetingResult {
            id: rid,
            jsonrpc: rj,
            result,
        } => {
            assert_eq!(rid, id);
            assert_eq!(rj, jsonrpc);
            assert_eq!(result.greeting, greeting);
        }
        GreetingJsonRpcResponse::MethodNotFoundError { .. } => {
            panic!("expected a greeting result")
        }
    }
}

fn expect_method_not_found(r: GreetingJsonRpcResponse, id: &str, jsonrpc: &str, method: &str) {
    match r {
        GreetingJsonRpcResponse::MethodNotFoundError {
            error,
            id: rid,
            jsonrpc: rj,
        } => {
            assert_eq!(rid, id);
            assert_eq!(rj, jsonrpc);
            assert_eq!(error.code, -32601);
            assert_eq!(error.message, "Method not found");
            assert_eq!(error.data.method, method);
        }
        GreetingJsonRpcResponse::GreetingResult { .. } => {
            panic!("expected a method-not-found error")
        }
    }
}

#[test]
fn greets_plain_name() {
    let r = handle(request("1", "2.0", "greeting", "Ada"));
    expect_greeting(r, "1", "2.0", "Hello, Ada!");
}

#[test]
fn greets_world_for_empty_name() {
    let r = handle(request("2", "2.0", "greeting", ""));
    expect_greeting(r, "2", "2.0", "Hello, World!");
}

#[test]
fn trims_surrounding_whitespace() {
    let r = handle(request("3", "2.0", "greeting", "  Bob  "));
    expect_greeting(r, "3", "2.0", "Hello, Bob!");
}

#[test]
fn rejects_unknown_method() {
    let r = handle(request("4", "2.0", "ping", "x"));
    expect_method_not_found(r, "4", "2.0", "ping");
}

#[test]
fn greets_world_for_single_space() {
    let r = handle(request("5", "2.0", "greeting", " "));
    expect_greeting(r, "5", "2.0", "Hello, World!");
}

#[test]
fn greets_world_for_whitespace_only_name() {
    let r = handle(request("6", "2.0", "greeting", " \t\r\n\u{00A0}\u{2003}\u{3000} "));
    expect_greeting(r, "6", "2.0", "Hello, World!");
}

#[test]
fn keeps_inner_whitespace() {
    let r = handle(request("7", "2.0", "greeting", "  Ada   Lovelace\t"));
    expect_greeting(r, "7", "2.0", "Hello, Ada   Lovelace!");
}

#[test]
fn passes_special_characters_through_unescaped() {
    let r = handle(request("8", "2.0", "greeting", " <b>\"O'Brien\" & co</b> "));
    expect_greeting(r, "8", "2.0", "Hello, <b>\"O'Brien\" & co</b>!");
}

#[test]
fn greets_unicode_name() {
    let r = handle(request("9", "2.0", "greeting", "\u{3000}Åke 北京\u{2028}"));
    expect_greeting(r, "9", "2.0", "Hello, Åke 北京!");
}

#[test]
fn zero_width_space_is_not_trimmed() {
    let r = handle(request("10", "2.0", "greeting", "\u{200B}Ada\u{200B}"));
    expect_greeting(r, "10", "2.0", "Hello, \u{200B}Ada\u{200B}!");
}

#[test]
fn rejects_empty_method() {
    let r = handle(request("11", "2.0", "", "Ada"));
    expect_method_not_found(r, "11", "2.0", "");
}

#[test]
fn rejects_method_differing_by_case() {
    let r = handle(request("12", "2.0", "Greeting", "Ada"));
    expect_method_not_found(r, "12", "2.0", "Greeting");
}

#[test]
fn echoes_arbitrary_id_and_jsonrpc() {
    let r = handle(request("abc-42", "3.5-draft", "greeting", "Eve"));
    expect_greeting(r, "abc-42", "3.5-draft", "Hello, Eve!");
    let r = handle(request("", "", "nope", ""));
    expect_method_not_found(r, "", "", "nope");
}
