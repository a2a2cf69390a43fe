//! Building blocks of a callback-driven JSON-RPC service over WebSockets:
//! the message types, the rules that answer a request, the extraction of
//! handler arguments from request parameters, the bookkeeping of the rooms
//! a connection has joined, and the rules of the error-answer derive.

pub mod callback;
pub mod dispatch;
pub mod error;
pub mod response_attrs;
pub mod rooms;
pub mod session;
pub mod types;
pub mod value;

pub use crate::callback::{
    result_response, value_response, AsyncCall, CallbackResult, IntoErrorResponse, Params,
    SyncCall,
};
pub use crate::dispatch::{batch_reply, finish_request, is_reserved_method, plan_request, Plan};
pub use crate::error::Error;
pub use crate::rooms::JoinedRooms;
pub use crate::types::{
    ErrorResponse, Id, Message, RpcParams, RpcRequest, RpcResponse, Version,
    INTERNAL_ERROR_CODE, INVALID_PARAMS_CODE, INVALID_REQUEST_CODE, METHOD_NOT_FOUND_CODE,
    PARSE_ERROR_CODE,
};
pub use crate::value::Value;
