//! What handlers take and give back.

use vstd::prelude::*;

use crate::error::Error;
use crate::types::{params_match_value, ErrorResponse, RpcParams};
use crate::value::Value;

verus! {

/// What a handler answers: a result value or an error.
pub type CallbackResult = Result<Value, ErrorResponse>;

/// Turns an error into the error part of an answer.
pub trait IntoErrorResponse {
    fn into_error_response(self) -> ErrorResponse;
}

impl IntoErrorResponse for ErrorResponse {
    /// An error answer is its own error part.
    fn into_error_response(self) -> (r: ErrorResponse)
        ensures
            r == self,
    {
        self
    }
}

/// All the parameters of a request, read as one value of type `T`.
pub struct Params<T>(pub T);

impl<T> Params<T> {
    /// The value inside.
    pub fn into_inner(self) -> (r: T)
        ensures
            r == self.0,
    {
        self.0
    }
}

impl RpcParams {
    /// Hands out the next argument of a handler. Positional parameters give
    /// their first item and keep the rest; named parameters give all their
    /// members as one object and are left empty; no parameters, or no items
    /// left, give no argument.
    pub fn take_argument(&mut self) -> (r: Result<Value, Error>)
        ensures
            match *old(self) {
                RpcParams::Null => {
                    &&& r == Err::<Value, Error>(Error::ArgumentNotFound)
                    &&& *final(self) is Null
                },
                RpcParams::Array(items) => {
                    &&& r == (match next_positional(items@).0 {
                        Some(v) => Ok::<Value, Error>(v),
                        None => Err::<Value, Error>(Error::ArgumentNotFound),
                    })
                    &&& *final(self) is Array
                    &&& (*final(self))->Array_0@ == next_positional(items@).1
                },
                RpcParams::Object(members) => {
                    &&& r matches Ok(Value::Object(taken))
                    &&& taken@ == members@
                    &&& *final(self) is Object
                    &&& (*final(self))->Object_0@.len() == 0
                },
            },
    {
        match self {
            RpcParams::Null => Err(Error::ArgumentNotFound),
            RpcParams::Object(members) => {
                let mut taken: Vec<(String, Value)> = Vec::new();
                std::mem::swap(&mut taken, members);
                Ok(Value::Object(taken))
            },
            RpcParams::Array(items) => match items.pop_front() {
                Some(item) => Ok(item),
                None => Err(Error::ArgumentNotFound),
            },
        }
    }

    /// Hands out all parameters as one value and leaves none behind.
    pub fn take_all(&mut self) -> (r: Value)
        ensures
            params_match_value(*old(self), r),
            *final(self) is Null,
    {
        let mut taken = RpcParams::Null;
        std::mem::swap(&mut taken, self);
        taken.into_value()
    }
}

/// What one call of `take_argument` on positional parameters holding
/// `items` hands out (`None`: the argument is not found), and the items
/// left afterwards.
pub open spec fn next_positional(items: Seq<Value>) -> (Option<Value>, Seq<Value>) {
    if items.len() == 0 {
        (None, items)
    } else {
        (Some(items[0]), items.drop_first())
    }
}

/// What `k` successive calls of `take_argument` on positional parameters
/// holding `items` hand out, and the items left afterwards.
pub open spec fn positional_after(items: Seq<Value>, k: nat) -> (Seq<Option<Value>>, Seq<Value>)
    decreases k,
{
    if k == 0 {
        (Seq::empty(), items)
    } else {
        let (got, rest) = positional_after(items, (k - 1) as nat);
        let (arg, left) = next_positional(rest);
        (got.push(arg), left)
    }
}

/// A handler's arguments receive positional parameters in order: the `i`-th
/// argument gets the `i`-th item, an argument past the last item is not
/// found, and the items not yet handed out stay, in order.
pub proof fn positional_arguments_in_order(items: Seq<Value>, k: nat)
    ensures
        positional_after(items, k).0.len() == k,
        forall|i: int|
            0 <= i < k ==> #[trigger] positional_after(items, k).0[i] == (if i < items.len() {
                Some(items[i])
            } else {
                None
            }),
        positional_after(items, k).1 == items.skip(
            if k < items.len() {
                k as int
            } else {
                items.len() as int
            },
        ),
    decreases k,
{
    if k > 0 {
        positional_arguments_in_order(items, (k - 1) as nat);
        let (got, rest) = positional_after(items, (k - 1) as nat);
        if rest.len() > 0 {
            assert(rest[0] == items[k - 1]);
            assert(rest.drop_first() =~= items.skip(k as int));
        }
        let now = positional_after(items, k).0;
        assert forall|i: int| 0 <= i < k implies #[trigger] now[i] == (if i < items.len() {
            Some(items[i])
        } else {
            None
        }) by {
            if i < k - 1 {
                assert(now[i] == got[i]);
            }
        }
    } else {
        assert(items.skip(0) =~= items);
    }
}

impl<T> std::ops::Deref for Params<T> {
    type Target = T;

    fn deref(&self) -> (r: &T)
        ensures
            *r == self.0,
    {
        &self.0
    }
}

impl<T> std::ops::DerefMut for Params<T> {
    fn deref_mut(&mut self) -> (r: &mut T)
        ensures
            *r == old(self).0,
            final(self).0 == *final(r),
    {
        &mut self.0
    }
}

/// The answer of a handler that returned a `Result`: its `Ok` value once
/// written as JSON (`None` where that failed, which is an internal error),
/// or its error turned into an error answer.
pub fn result_response<E: IntoErrorResponse>(result: Result<Option<Value>, E>) -> (r: CallbackResult)
    ensures
        match result {
            Ok(Some(value)) => r == Ok::<Value, ErrorResponse>(value),
            Ok(None) => r matches Err(e) && crate::types::error_is(
                e,
                crate::types::INTERNAL_ERROR_CODE,
                "Internal error"@,
                Value::Null,
            ),
            Err(error) => r matches Err(e) && call_ensures(E::into_error_response, (error,), e),
        },
{
    match result {
        Ok(Some(value)) => Ok(value),
        Ok(None) => Err(ErrorResponse::internal_error(Value::Null)),
        Err(error) => Err(error.into_error_response()),
    }
}

/// The answer of a handler that returned a plain value: the value once
/// written as JSON, or, where that failed (`None`), a parse error.
pub fn value_response(serialized: Option<Value>) -> (r: CallbackResult)
    ensures
        match serialized {
            Some(value) => r == Ok::<Value, ErrorResponse>(value),
            None => r matches Err(e) && crate::types::error_is(
                e,
                crate::types::PARSE_ERROR_CODE,
                "Failed to parse JSON"@,
                Value::Null,
            ),
        },
{
    match serialized {
        Some(value) => Ok(value),
        None => Err(ErrorResponse::parse_error(Value::Null)),
    }
}

/// Marks handlers that return a future.
pub struct AsyncCall;

/// Marks handlers that return their answer at once.
pub struct SyncCall;

} // verus!
