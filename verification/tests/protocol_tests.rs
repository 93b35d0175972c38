use tictactoe::{
    JsonRpcError, JsonRpcRequest, JsonRpcResponse, RpcOutcome, RpcParams, INTERNAL_ERROR,
    INVALID_PARAMS, INVALID_REQUEST, METHOD_NOT_FOUND, PARSE_ERROR,
};

#[test]
fn test_validate_request() {
    let request = JsonRpcRequest::new(
        serde_json::Value::from(1),
        "test_method".to_string(),
        RpcParams::empty(),
    );

    assert!(request.validate().is_ok());
}

#[test]
fn test_validate_invalid_version() {
    let mut request = JsonRpcRequest::new(
        serde_json::Value::from(1),
        "test_method".to_string(),
        RpcParams::empty(),
    );
    request.jsonrpc = "1.0".to_string();

    let result = request.validate();
    assert!(result.is_err());
    assert_eq!(result.unwrap_err().code, INVALID_REQUEST);
}

#[test]
fn test_validate_empty_method() {
    let request = JsonRpcRequest::new(
        serde_json::Value::from(1),
        "".to_string(),
        RpcParams::empty(),
    );

    let result = request.validate();
    assert!(result.is_err());
    assert_eq!(result.unwrap_err().code, INVALID_REQUEST);
}

#[test]
fn test_success_response() {
    let response = JsonRpcResponse::success(serde_json::Value::from(1), RpcOutcome::TauntSent);

    assert_eq!(response.jsonrpc, "2.0");
    assert_eq!(response.id, serde_json::Value::from(1));
    assert_eq!(response.result, Some(RpcOutcome::TauntSent));
    assert!(response.error.is_none());
}

#[test]
fn test_error_response() {
    let error = JsonRpcError::internal_error("Something went wrong".to_string());
    let response = JsonRpcResponse::error(serde_json::Value::from(1), error);

    assert_eq!(response.jsonrpc, "2.0");
    assert_eq!(response.id, serde_json::Value::from(1));
    assert!(response.result.is_none());
    assert!(response.error.is_some());
    assert_eq!(response.error.as_ref().unwrap().code, INTERNAL_ERROR);
}

#[test]
fn test_error_constructors() {
    let parse = JsonRpcError::parse_error("test".to_string());
    assert_eq!(parse.code, PARSE_ERROR);

    let invalid = JsonRpcError::invalid_request("test".to_string());
    assert_eq!(invalid.code, INVALID_REQUEST);

    let not_found = JsonRpcError::method_not_found("test".to_string());
    assert_eq!(not_found.code, METHOD_NOT_FOUND);

    let params = JsonRpcError::invalid_params("test".to_string());
    assert_eq!(params.code, INVALID_PARAMS);

    let internal = JsonRpcError::internal_error("test".to_string());
    assert_eq!(internal.code, INTERNAL_ERROR);
}

#[test]
fn test_method_not_found_names_the_method() {
    let err = JsonRpcError::method_not_found("do_thing".to_string());
    assert_eq!(err.message, "Method 'do_thing' not found");
}

#[test]
fn test_new_request_carries_fields() {
    let params = RpcParams { row: Some(2), col: Some(1), message: None };
    let request = JsonRpcRequest::new(
        serde_json::Value::from(7),
        "make_move".to_string(),
        params,
    );
    assert_eq!(request.jsonrpc, "2.0");
    assert_eq!(request.id, serde_json::Value::from(7));
    assert_eq!(request.method, "make_move");
    assert_eq!(request.params.row, Some(2));
    assert_eq!(request.params.col, Some(1));
}
