use std::collections::VecDeque;

use wspc::callback::{result_response, value_response, Params};
use wspc::error::Error;
use wspc::types::{ErrorResponse, RpcParams};
use wspc::value::Value;

fn num(n: u64) -> Value {
    Value::Number(serde_json::Number::from(n))
}

fn is_num(v: &Value, n: u64) -> bool {
    matches!(v, Value::Number(x) if x.as_u64() == Some(n))
}

#[test]
fn from_value_reads_null_array_and_object() {
    assert!(matches!(RpcParams::from_value(Value::Null), Ok(RpcParams::Null)));
    match RpcParams::from_value(Value::Array(vec![num(1), num(2)])) {
        Ok(RpcParams::Array(items)) => {
            assert_eq!(items.len(), 2);
            assert!(is_num(&items[0], 1) && is_num(&items[1], 2));
        }
        _ => panic!("expected positional parameters"),
    }
    match RpcParams::from_value(Value::Object(vec![("a".to_string(), num(1))])) {
        Ok(RpcParams::Object(members)) => {
            assert_eq!(members.len(), 1);
            assert_eq!(members[0].0, "a");
        }
        _ => panic!("expected named parameters"),
    }
}

#[test]
fn from_value_refuses_scalars() {
    assert!(matches!(RpcParams::from_value(Value::Bool(true)), Err(Error::InvalidArgumentType)));
    assert!(matches!(RpcParams::from_value(num(4)), Err(Error::InvalidArgumentType)));
    assert!(matches!(
        RpcParams::from_value(Value::String("s".to_string())),
        Err(Error::InvalidArgumentType)
    ));
}

#[test]
fn into_value_keeps_items_in_order() {
    let params = RpcParams::Array(VecDeque::from(vec![num(3), num(4), num(5)]));
    match params.into_value() {
        Value::Array(values) => {
            assert_eq!(values.len(), 3);
            assert!(is_num(&values[0], 3) && is_num(&values[1], 4) && is_num(&values[2], 5));
        }
        _ => panic!("expected an array"),
    }
    assert!(matches!(RpcParams::Null.into_value(), Value::Null));
    assert!(matches!(RpcParams::Object(vec![]).into_value(), Value::Object(ref m) if m.is_empty()));
}

#[test]
fn params_read_back_from_their_value() {
    let params = RpcParams::Array(VecDeque::from(vec![num(9), Value::Null]));
    match RpcParams::from_value(params.into_value()) {
        Ok(RpcParams::Array(items)) => {
            assert_eq!(items.len(), 2);
            assert!(is_num(&items[0], 9));
            assert!(items[1].is_null());
        }
        _ => panic!("expected positional parameters"),
    }
}

#[test]
fn take_argument_hands_out_positional_items_front_to_back() {
    let mut params = RpcParams::Array(VecDeque::from(vec![num(1), num(2)]));
    assert!(is_num(&params.take_argument().unwrap(), 1));
    assert!(is_num(&params.take_argument().unwrap(), 2));
    assert!(matches!(params.take_argument(), Err(Error::ArgumentNotFound)));
    assert!(matches!(params, RpcParams::Array(ref items) if items.is_empty()));
}

#[test]
fn take_argument_without_parameters_finds_none() {
    let mut params = RpcParams::Null;
    assert!(matches!(params.take_argument(), Err(Error::ArgumentNotFound)));
    assert!(matches!(params, RpcParams::Null));
}

#[test]
fn take_argument_gives_named_parameters_whole_and_empties_them() {
    let mut params = RpcParams::Object(vec![("a".to_string(), num(1)), ("b".to_string(), num(2))]);
    match params.take_argument() {
        Ok(Value::Object(members)) => {
            assert_eq!(members.len(), 2);
            assert_eq!(members[0].0, "a");
            assert_eq!(members[1].0, "b");
        }
        _ => panic!("expected an object"),
    }
    assert!(matches!(params, RpcParams::Object(ref m) if m.is_empty()));
    assert!(matches!(params.take_argument(), Ok(Value::Object(ref m)) if m.is_empty()));
}

#[test]
fn take_all_leaves_no_parameters() {
    let mut params = RpcParams::Array(VecDeque::from(vec![num(1)]));
    match params.take_all() {
        Value::Array(values) => assert!(values.len() == 1 && is_num(&values[0], 1)),
        _ => panic!("expected an array"),
    }
    assert!(matches!(params, RpcParams::Null));
    assert!(params.take_all().is_null());
}

#[test]
fn params_into_inner() {
    let p = Params(41u32);
    assert_eq!(p.into_inner(), 41);
}

#[test]
fn result_response_of_ok_err_and_unwritable() {
    let r = result_response::<ErrorResponse>(Ok(Some(num(2))));
    assert!(matches!(r, Ok(ref v) if is_num(v, 2)));
    let r = result_response::<ErrorResponse>(Ok(None));
    assert!(matches!(r, Err(ref e) if e.code == -32603 && e.message == "Internal error"));
    let r = result_response(Err(Error::ArgumentNotFound));
    assert!(matches!(r, Err(ref e) if e.code == -32602));
    let custom = ErrorResponse { code: 42, message: "Value is not even".to_string(), data: Value::Null };
    let r = result_response(Err(custom));
    assert!(matches!(r, Err(ref e) if e.code == 42 && e.message == "Value is not even"));
}

#[test]
fn value_response_of_written_and_unwritable() {
    assert!(matches!(value_response(Some(Value::Bool(true))), Ok(Value::Bool(true))));
    let r = value_response(None);
    assert!(matches!(r, Err(ref e) if e.code == -32700 && e.message == "Failed to parse JSON"));
}

#[test]
fn params_deref_reads_and_writes_the_inner_value() {
    let mut p = Params(vec![1u8, 2]);
    assert_eq!(p.len(), 2);
    p.push(3);
    assert_eq!(p.into_inner(), vec![1, 2, 3]);
}
