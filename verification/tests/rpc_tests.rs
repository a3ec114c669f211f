use docsearch::rpc::{process_rpc_request, McpRpcServerImpl};
use docsearch::search::SearchService;

fn server() -> McpRpcServerImpl {
    McpRpcServerImpl::new(SearchService::new_in_ram())
}

#[test]
fn ping_without_params_uses_placeholder() {
    let mut s = server();
    let r = process_rpc_request(&mut s, r#"{"jsonrpc":"2.0","method":"ping","id":1}"#);
    assert_eq!(
        r,
        r#"{"jsonrpc":"2.0","id":1,"result":{"reply":"pong - received: No message provided"}}"#
    );
}

#[test]
fn ping_with_message_echoes_it() {
    let mut s = server();
    let r = process_rpc_request(
        &mut s,
        r#"{"jsonrpc":"2.0","method":"ping","params":{"message":"hello"},"id":7}"#,
    );
    assert_eq!(r, r#"{"jsonrpc":"2.0","id":7,"result":{"reply":"pong - received: hello"}}"#);
}

#[test]
fn ping_with_empty_object_params_uses_placeholder() {
    let mut s = server();
    let r = process_rpc_request(&mut s, r#"{"jsonrpc":"2.0","method":"ping","params":{},"id":8}"#);
    assert_eq!(
        r,
        r#"{"jsonrpc":"2.0","id":8,"result":{"reply":"pong - received: No message provided"}}"#
    );
}

#[test]
fn ping_reply_escapes_quotes_and_newlines() {
    let mut s = server();
    let r = process_rpc_request(
        &mut s,
        "{\"jsonrpc\":\"2.0\",\"method\":\"ping\",\"params\":{\"message\":\"say \\\"hi\\\"\\nnow\"},\"id\":9}",
    );
    assert_eq!(
        r,
        "{\"jsonrpc\":\"2.0\",\"id\":9,\"result\":{\"reply\":\"pong - received: say \\\"hi\\\"\\nnow\"}}"
    );
    // The response itself must be valid JSON again.
    let v: serde_json::Value = serde_json::from_str(&r).unwrap();
    assert_eq!(
        v.get("result").unwrap().get("reply").unwrap().as_str().unwrap(),
        "pong - received: say \"hi\"\nnow"
    );
}

#[test]
fn ping_with_non_object_params_is_invalid_params() {
    let mut s = server();
    let r = process_rpc_request(&mut s, r#"{"jsonrpc":"2.0","method":"ping","params":[1],"id":3}"#);
    assert_eq!(
        r,
        r#"{"jsonrpc":"2.0","id":3,"error":{"code":-32602,"message":"Invalid params","data":"Invalid params for ping"}}"#
    );
}

#[test]
fn unknown_method_is_method_not_found() {
    let mut s = server();
    let r = process_rpc_request(&mut s, r#"{"jsonrpc":"2.0","method":"bogus","id":2}"#);
    assert_eq!(
        r,
        r#"{"jsonrpc":"2.0","id":2,"error":{"code":-32601,"message":"Method not found","data":"bogus"}}"#
    );
}

#[test]
fn malformed_json_is_parse_error_with_null_id() {
    let mut s = server();
    let r = process_rpc_request(&mut s, "this is not json");
    assert!(r.starts_with(
        r#"{"jsonrpc":"2.0","id":null,"error":{"code":-32700,"message":"Parse error","data":""#
    ));
    let v: serde_json::Value = serde_json::from_str(&r).unwrap();
    assert!(v.get("id").unwrap().is_null());
    assert_eq!(v.get("error").unwrap().get("code").unwrap().as_i64().unwrap(), -32700);
}

#[test]
fn missing_method_is_invalid_request_with_id_echoed() {
    let mut s = server();
    let r = process_rpc_request(&mut s, r#"{"jsonrpc":"2.0","id":3}"#);
    assert_eq!(
        r,
        r#"{"jsonrpc":"2.0","id":3,"error":{"code":-32600,"message":"Invalid Request","data":"Missing method"}}"#
    );
}

#[test]
fn non_string_method_is_invalid_request_with_id_echoed() {
    let mut s = server();
    let r = process_rpc_request(&mut s, r#"{"jsonrpc":"2.0","method":5,"id":4}"#);
    assert_eq!(
        r,
        r#"{"jsonrpc":"2.0","id":4,"error":{"code":-32600,"message":"Invalid Request","data":"Missing method"}}"#
    );
}

#[test]
fn missing_method_without_id_gets_null_id() {
    let mut s = server();
    let r = process_rpc_request(&mut s, r#"{"jsonrpc":"2.0"}"#);
    assert_eq!(
        r,
        r#"{"jsonrpc":"2.0","id":null,"error":{"code":-32600,"message":"Invalid Request","data":"Missing method"}}"#
    );
}

#[test]
fn string_id_is_echoed_verbatim() {
    let mut s = server();
    let r = process_rpc_request(&mut s, r#"{"jsonrpc":"2.0","method":"ping","id":"abc"}"#);
    assert_eq!(
        r,
        r#"{"jsonrpc":"2.0","id":"abc","result":{"reply":"pong - received: No message provided"}}"#
    );
}

#[test]
fn absent_id_is_echoed_as_null() {
    let mut s = server();
    let r = process_rpc_request(&mut s, r#"{"jsonrpc":"2.0","method":"ping"}"#);
    assert_eq!(
        r,
        r#"{"jsonrpc":"2.0","id":null,"result":{"reply":"pong - received: No message provided"}}"#
    );
}

#[test]
fn add_document_confirms_by_id() {
    let mut s = server();
    let r = process_rpc_request(
        &mut s,
        r#"{"jsonrpc":"2.0","method":"addDocument","params":{"document":{"id":"doc-1","title":"alpha title","body":"body text","source":"rust-docs"}},"id":11}"#,
    );
    assert_eq!(r, r#"{"jsonrpc":"2.0","id":11,"result":"Document doc-1 added successfully."}"#);
}

#[test]
fn add_then_search_round_trip_over_rpc() {
    let mut s = server();
    process_rpc_request(
        &mut s,
        r#"{"jsonrpc":"2.0","method":"addDocument","params":{"document":{"id":"doc-2","title":"omega title","body":"searchable body","source":"src","version":"v2"}},"id":1}"#,
    );
    let r = process_rpc_request(
        &mut s,
        r#"{"jsonrpc":"2.0","method":"searchDocuments","params":{"query":"omega"},"id":2}"#,
    );
    assert_eq!(
        r,
        r#"{"jsonrpc":"2.0","id":2,"result":{"documents":[{"id":"doc-2","title":"omega title","body":"searchable body","source":"src","version":"v2"}]}}"#
    );
}

#[test]
fn search_omitted_version_serialised_as_null() {
    let mut s = server();
    process_rpc_request(
        &mut s,
        r#"{"jsonrpc":"2.0","method":"addDocument","params":{"document":{"id":"doc-3","title":"sigma title","body":"b","source":"s"}},"id":1}"#,
    );
    let r = process_rpc_request(
        &mut s,
        r#"{"jsonrpc":"2.0","method":"searchDocuments","params":{"query":"sigma"},"id":2}"#,
    );
    assert_eq!(
        r,
        r#"{"jsonrpc":"2.0","id":2,"result":{"documents":[{"id":"doc-3","title":"sigma title","body":"b","source":"s","version":null}]}}"#
    );
}

#[test]
fn search_empty_index_returns_empty_array() {
    let mut s = server();
    let r = process_rpc_request(
        &mut s,
        r#"{"jsonrpc":"2.0","method":"searchDocuments","params":{"query":"nothing"},"id":5}"#,
    );
    assert_eq!(r, r#"{"jsonrpc":"2.0","id":5,"result":{"documents":[]}}"#);
}

#[test]
fn search_limit_respected_over_rpc() {
    let mut s = server();
    for i in 0..15 {
        let req = format!(
            r#"{{"jsonrpc":"2.0","method":"addDocument","params":{{"document":{{"id":"d{i}","title":"lambda common","body":"shared","source":"s"}}}},"id":{i}}}"#
        );
        process_rpc_request(&mut s, &req);
    }
    let r = process_rpc_request(
        &mut s,
        r#"{"jsonrpc":"2.0","method":"searchDocuments","params":{"query":"lambda","limit":5},"id":99}"#,
    );
    let v: serde_json::Value = serde_json::from_str(&r).unwrap();
    let docs = v.get("result").unwrap().get("documents").unwrap().as_array().unwrap();
    assert_eq!(docs.len(), 5);
}

#[test]
fn add_without_params_is_invalid_params() {
    let mut s = server();
    let r = process_rpc_request(&mut s, r#"{"jsonrpc":"2.0","method":"addDocument","id":6}"#);
    assert_eq!(
        r,
        r#"{"jsonrpc":"2.0","id":6,"error":{"code":-32602,"message":"Invalid params","data":"Missing params for addDocument"}}"#
    );
}

#[test]
fn add_with_incomplete_document_is_invalid_params() {
    let mut s = server();
    let r = process_rpc_request(
        &mut s,
        r#"{"jsonrpc":"2.0","method":"addDocument","params":{"document":{"id":"only-id"}},"id":7}"#,
    );
    assert_eq!(
        r,
        r#"{"jsonrpc":"2.0","id":7,"error":{"code":-32602,"message":"Invalid params","data":"Invalid params for addDocument"}}"#
    );
}

#[test]
fn search_without_params_is_invalid_params() {
    let mut s = server();
    let r = process_rpc_request(&mut s, r#"{"jsonrpc":"2.0","method":"searchDocuments","id":8}"#);
    assert_eq!(
        r,
        r#"{"jsonrpc":"2.0","id":8,"error":{"code":-32602,"message":"Invalid params","data":"Missing params for searchDocuments"}}"#
    );
}

#[test]
fn search_with_non_string_query_is_invalid_params() {
    let mut s = server();
    let r = process_rpc_request(
        &mut s,
        r#"{"jsonrpc":"2.0","method":"searchDocuments","params":{"query":5},"id":9}"#,
    );
    assert_eq!(
        r,
        r#"{"jsonrpc":"2.0","id":9,"error":{"code":-32602,"message":"Invalid params","data":"Invalid params for searchDocuments"}}"#
    );
}

#[test]
fn search_with_malformed_query_is_internal_error() {
    let mut s = server();
    let r = process_rpc_request(
        &mut s,
        r#"{"jsonrpc":"2.0","method":"searchDocuments","params":{"query":"title:\"unclosed"},"id":10}"#,
    );
    let v: serde_json::Value = serde_json::from_str(&r).unwrap();
    assert_eq!(v.get("error").unwrap().get("code").unwrap().as_i64().unwrap(), -32603);
    let msg = v.get("error").unwrap().get("message").unwrap().as_str().unwrap();
    assert!(msg.starts_with("Failed to search documents: "));
}

#[test]
fn confirmation_with_quoted_id_is_escaped() {
    let mut s = server();
    let r = process_rpc_request(
        &mut s,
        "{\"jsonrpc\":\"2.0\",\"method\":\"addDocument\",\"params\":{\"document\":{\"id\":\"a\\\"b\",\"title\":\"t\",\"body\":\"b\",\"source\":\"s\"}},\"id\":12}",
    );
    assert_eq!(
        r,
        "{\"jsonrpc\":\"2.0\",\"id\":12,\"result\":\"Document a\\\"b added successfully.\"}"
    );
    assert!(serde_json::from_str::<serde_json::Value>(&r).is_ok());
}
