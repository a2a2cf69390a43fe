use wspc::dispatch::{batch_reply, finish_request, is_reserved_method, plan_request, Plan};
use wspc::types::{ErrorResponse, Id, Message, RpcParams, RpcRequest, RpcResponse, Version};
use wspc::value::Value;

fn request(id: Id, method: &str) -> RpcRequest {
    RpcRequest::new(id, method, RpcParams::Null)
}

#[test]
fn lifecycle_methods_are_reserved() {
    assert!(is_reserved_method("connect"));
    assert!(is_reserved_method("disconnect"));
    assert!(!is_reserved_method("connected"));
    assert!(!is_reserved_method("add"));
    assert!(!is_reserved_method(""));
}

#[test]
fn reserved_method_with_id_is_refused_as_internal_error() {
    match plan_request(request(Id::Number(1), "connect"), true) {
        Plan::Answer(Some(RpcResponse::Error { jsonrpc, id, error })) => {
            assert_eq!(jsonrpc, Some(Version::V2));
            assert_eq!(id, Id::Number(1));
            assert_eq!(error.code, -32603);
            assert_eq!(error.message, "Internal error");
            assert!(matches!(error.data,
                Value::String(ref s) if s == "Method is reserved for internal lifecycle events"));
        }
        _ => panic!("expected a refusal"),
    }
}

#[test]
fn reserved_notification_is_dropped() {
    assert!(matches!(plan_request(request(Id::Null, "disconnect"), true), Plan::Answer(None)));
    assert!(matches!(plan_request(request(Id::Null, "connect"), false), Plan::Answer(None)));
}

#[test]
fn unknown_method_with_id_is_not_found() {
    match plan_request(request(Id::String("a".to_string()), "nope"), false) {
        Plan::Answer(Some(RpcResponse::Error { jsonrpc, id, error })) => {
            assert_eq!(jsonrpc, Some(Version::V2));
            assert_eq!(id, Id::String("a".to_string()));
            assert_eq!(error.code, -32601);
            assert_eq!(error.message, "Method not found");
            assert!(error.data.is_null());
        }
        _ => panic!("expected method not found"),
    }
}

#[test]
fn unknown_notification_is_dropped() {
    assert!(matches!(plan_request(request(Id::Null, "nope"), false), Plan::Answer(None)));
}

#[test]
fn registered_method_is_called_with_its_params() {
    let params = RpcParams::from_value(Value::Array(vec![Value::Bool(true)])).unwrap();
    let r = RpcRequest::new(Id::Number(9), "add", params);
    match plan_request(r, true) {
        Plan::Call { id, params: RpcParams::Array(items) } => {
            assert_eq!(id, Id::Number(9));
            assert!(items.len() == 1 && matches!(items[0], Value::Bool(true)));
        }
        _ => panic!("expected a call"),
    }
    assert!(matches!(plan_request(request(Id::Null, "add"), true), Plan::Call { id: Id::Null, .. }));
}

#[test]
fn finish_answers_the_id_with_the_outcome() {
    match finish_request(Id::Number(4), Ok(Value::Bool(false))) {
        Some(RpcResponse::Success { jsonrpc, id, result }) => {
            assert_eq!(jsonrpc, Some(Version::V2));
            assert_eq!(id, Id::Number(4));
            assert!(matches!(result, Value::Bool(false)));
        }
        _ => panic!("expected a success"),
    }
    let err = ErrorResponse { code: 7, message: "Value is even".to_string(), data: Value::Null };
    match finish_request(Id::Number(5), Err(err)) {
        Some(RpcResponse::Error { jsonrpc, id, error }) => {
            assert_eq!(jsonrpc, Some(Version::V2));
            assert_eq!(id, Id::Number(5));
            assert_eq!(error.code, 7);
            assert_eq!(error.message, "Value is even");
        }
        _ => panic!("expected an error"),
    }
}

#[test]
fn notification_gets_no_answer_after_its_handler() {
    assert!(finish_request(Id::Null, Ok(Value::Null)).is_none());
    assert!(finish_request(Id::Null, Err(ErrorResponse::internal_error(Value::Null))).is_none());
}

#[test]
fn batch_reply_keeps_answers_in_order_without_notifications() {
    let answers = vec![
        finish_request(Id::Number(1), Ok(Value::Null)),
        finish_request(Id::Null, Ok(Value::Null)),
        finish_request(Id::Number(3), Ok(Value::Bool(true))),
    ];
    match batch_reply(answers) {
        Message::Batch(sent) => {
            assert_eq!(sent.len(), 2);
            assert!(matches!(sent[0], RpcResponse::Success { id: Id::Number(1), .. }));
            assert!(matches!(sent[1], RpcResponse::Success { id: Id::Number(3), .. }));
        }
        _ => panic!("expected a batch"),
    }
}

#[test]
fn batch_of_notifications_only_gets_an_empty_batch() {
    match batch_reply(vec![None, None]) {
        Message::Batch(sent) => assert!(sent.is_empty()),
        _ => panic!("expected a batch"),
    }
    match batch_reply(vec![]) {
        Message::Batch(sent) => assert!(sent.is_empty()),
        _ => panic!("expected a batch"),
    }
}
