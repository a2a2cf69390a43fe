//! How a request is answered: the rules around the call of its handler.

use vstd::prelude::*;

use crate::callback::CallbackResult;
use crate::types::{Id, Message, RpcParams, RpcRequest, RpcResponse, Version};
use crate::value::Value;

verus! {

/// The methods that name the lifecycle events of a connection; a client
/// may not call them.
pub open spec fn is_reserved(method: Seq<char>) -> bool {
    method == "connect"@ || method == "disconnect"@
}

/// The text that a refused call of a lifecycle method carries as data.
pub open spec fn reserved_text() -> Seq<char> {
    "Method is reserved for internal lifecycle events"@
}

/// What to do with a request before any handler runs.
pub enum Plan {
    /// Answer at once; `None` sends nothing.
    Answer(Option<RpcResponse>),
    /// Run the method's handler on these parameters, then answer `id`.
    Call { id: Id, params: RpcParams },
}

/// `r` is the internal-error answer to `id` that refuses a lifecycle method.
pub open spec fn is_reserved_refusal(r: RpcResponse, id: Id) -> bool {
    &&& r is Error
    &&& r->Error_jsonrpc == Some(Version::V2)
    &&& r->Error_id == id
    &&& r->Error_error.code == crate::types::INTERNAL_ERROR_CODE
    &&& r->Error_error.message@ == "Internal error"@
    &&& r->Error_error.data matches Value::String(text)
    &&& text@ == reserved_text()
}

/// `plan` is what `plan_request` decides for a request with this method, id
/// and parameters, where `has_handler` tells whether a handler is registered
/// under the method.
pub open spec fn plan_is(
    method: Seq<char>,
    id: Id,
    params: RpcParams,
    has_handler: bool,
    plan: Plan,
) -> bool {
    if is_reserved(method) {
        &&& plan is Answer
        &&& id is Null ==> plan->Answer_0 is None
        &&& !(id is Null) ==> (plan->Answer_0 matches Some(r) && is_reserved_refusal(r, id))
    } else if !has_handler {
        &&& plan is Answer
        &&& id is Null ==> plan->Answer_0 is None
        &&& !(id is Null) ==> (plan->Answer_0 matches Some(r) && crate::types::error_answer_is(
            r,
            id,
            crate::types::METHOD_NOT_FOUND_CODE,
            "Method not found"@,
            Value::Null,
        ))
    } else {
        plan == Plan::Call { id, params }
    }
}

/// `answer` is what `finish_request` sends once the handler for a request
/// with this id gave `outcome`.
pub open spec fn finish_is(id: Id, outcome: CallbackResult, answer: Option<RpcResponse>) -> bool {
    if id is Null {
        answer is None
    } else {
        match outcome {
            Ok(result) => answer == Some(
                RpcResponse::Success { jsonrpc: Some(Version::V2), id, result },
            ),
            Err(error) => answer == Some(
                RpcResponse::Error { jsonrpc: Some(Version::V2), id, error },
            ),
        }
    }
}

/// Whether `method` is one of the lifecycle events `connect` and
/// `disconnect`.
pub fn is_reserved_method(method: &str) -> (r: bool)
    ensures
        r == is_reserved(method@),
{
    let owned = method.to_owned();
    owned == "connect".to_owned() || owned == "disconnect".to_owned()
}

/// Decides what becomes of `request`. A lifecycle method is refused, a
/// method without a handler is not found, and either refusal is sent only
/// where the request has an id; otherwise the handler is to run.
pub fn plan_request(request: RpcRequest, has_handler: bool) -> (plan: Plan)
    ensures
        plan_is(request.method@, request.id, request.params, has_handler, plan),
{
    let RpcRequest { jsonrpc: _, id, method, params } = request;
    if is_reserved_method(method.as_str()) {
        if id.is_null() {
            return Plan::Answer(None);
        }
        let text = "Method is reserved for internal lifecycle events".to_owned();
        return Plan::Answer(Some(RpcResponse::internal_error(id, Value::String(text))));
    }
    if !has_handler {
        if id.is_null() {
            return Plan::Answer(None);
        }
        return Plan::Answer(Some(RpcResponse::method_not_found(id, Value::Null)));
    }
    Plan::Call { id, params }
}

/// The answer to a request with this id once its handler gave `outcome`:
/// nothing for a notification, else the result or the error, as version 2.0.
pub fn finish_request(id: Id, outcome: CallbackResult) -> (answer: Option<RpcResponse>)
    ensures
        finish_is(id, outcome, answer),
{
    if id.is_null() {
        return None;
    }
    match outcome {
        Ok(result) => Some(RpcResponse::Success { jsonrpc: Some(Version::V2), id, result }),
        Err(error) => Some(RpcResponse::Error { jsonrpc: Some(Version::V2), id, error }),
    }
}

/// The answers that were given, in order, leaving out the requests that got
/// none.
pub open spec fn given<T>(answers: Seq<Option<T>>) -> Seq<T>
    decreases answers.len(),
{
    if answers.len() == 0 {
        Seq::empty()
    } else {
        let earlier = given(answers.drop_last());
        match answers.last() {
            Some(a) => earlier.push(a),
            None => earlier,
        }
    }
}

/// The reply to a batch: the answers of its requests, in request order,
/// without the notifications, which get none. A batch of notifications only
/// is answered by an empty batch.
pub fn batch_reply(answers: Vec<Option<RpcResponse>>) -> (reply: Message<RpcResponse>)
    ensures
        reply is Batch,
        reply->Batch_0@ == given(answers@),
{
    let ghost all = answers@;
    let mut sent: Vec<RpcResponse> = Vec::new();
    for answer in it: answers.into_iter()
        invariant
            it.seq() == all,
            sent@ == given(all.take(it.index() as int)),
    {
        let ghost i = it.index();
        assert(all.take(i + 1).drop_last() =~= all.take(i as int));
        match answer {
            Some(r) => sent.push(r),
            None => {},
        }
    }
    assert(all.take(all.len() as int) =~= all);
    Message::Batch(sent)
}

/// The id an answer is addressed to.
pub open spec fn answer_id(r: RpcResponse) -> Id {
    match r {
        RpcResponse::Success { id, .. } => id,
        RpcResponse::Error { id, .. } => id,
    }
}

/// The version an answer declares.
pub open spec fn answer_version(r: RpcResponse) -> Option<Version> {
    match r {
        RpcResponse::Success { jsonrpc, .. } => jsonrpc,
        RpcResponse::Error { jsonrpc, .. } => jsonrpc,
    }
}

/// The ids of a batch that expect an answer, in order.
pub open spec fn answered_ids(ids: Seq<Id>) -> Seq<Id>
    decreases ids.len(),
{
    if ids.len() == 0 {
        Seq::empty()
    } else if ids.last() is Null {
        answered_ids(ids.drop_last())
    } else {
        answered_ids(ids.drop_last()).push(ids.last())
    }
}

/// A notification is never answered: neither before its handler would run
/// nor after.
pub proof fn notification_gets_no_answer(
    method: Seq<char>,
    params: RpcParams,
    has_handler: bool,
    plan: Plan,
    outcome: CallbackResult,
    answer: Option<RpcResponse>,
)
    requires
        plan_is(method, Id::Null, params, has_handler, plan),
        plan is Call ==> finish_is(plan->Call_id, outcome, answer),
    ensures
        plan is Answer ==> plan->Answer_0 is None,
        plan is Call ==> answer is None,
{
}

/// A request with an id gets exactly one answer, addressed to that id and
/// declaring version 2.0: at once when it is refused, else once its handler
/// has run.
pub proof fn request_with_id_gets_one_answer(
    method: Seq<char>,
    id: Id,
    params: RpcParams,
    has_handler: bool,
    plan: Plan,
    outcome: CallbackResult,
    answer: Option<RpcResponse>,
)
    requires
        !(id is Null),
        plan_is(method, id, params, has_handler, plan),
        plan is Call ==> finish_is(plan->Call_id, outcome, answer),
    ensures
        ({
            let sent = if plan is Answer { plan->Answer_0 } else { answer };
            &&& sent is Some
            &&& answer_id(sent->0) == id
            &&& answer_version(sent->0) == Some(Version::V2)
        }),
{
}

/// A client never reaches a handler through a lifecycle method, whether or
/// not one is registered under its name.
pub proof fn reserved_method_runs_no_handler(
    method: Seq<char>,
    id: Id,
    params: RpcParams,
    has_handler: bool,
    plan: Plan,
)
    requires
        is_reserved(method),
        plan_is(method, id, params, has_handler, plan),
    ensures
        plan is Answer,
{
}

/// Exactly `connect` and `disconnect` are lifecycle methods.
pub proof fn only_connect_and_disconnect_are_reserved(method: Seq<char>)
    ensures
        is_reserved(method) <==> (method == "connect"@ || method == "disconnect"@),
{
}

/// Every method other than `connect` and `disconnect` that has a handler
/// runs it on the request's parameters, to answer the request's id; a
/// method without a handler, or a lifecycle method, never does.
pub proof fn handler_runs_for_every_other_method(
    method: Seq<char>,
    id: Id,
    params: RpcParams,
    has_handler: bool,
    plan: Plan,
)
    requires
        plan_is(method, id, params, has_handler, plan),
    ensures
        (method != "connect"@ && method != "disconnect"@ && has_handler) ==> (plan == (Plan::Call {
            id,
            params,
        })),
        (method == "connect"@ || method == "disconnect"@ || !has_handler) ==> (plan is Answer),
{
}

/// The reply to a batch holds one answer for each request with an id, in
/// the order of the requests.
pub proof fn batch_answers_each_request_with_id(ids: Seq<Id>, answers: Seq<Option<RpcResponse>>)
    requires
        answers.len() == ids.len(),
        forall|i: int| 0 <= i < ids.len() ==> (#[trigger] answers[i] is Some <==> !(ids[i] is Null)),
        forall|i: int|
            0 <= i < ids.len() && #[trigger] answers[i] is Some ==> answer_id(answers[i]->0) == ids[i],
    ensures
        given(answers).map_values(|r: RpcResponse| answer_id(r)) == answered_ids(ids),
    decreases ids.len(),
{
    if ids.len() > 0 {
        let n = ids.len() - 1;
        assert(answers[n] is Some <==> !(ids[n] is Null));
        batch_answers_each_request_with_id(ids.drop_last(), answers.drop_last());
        let earlier = given(answers.drop_last());
        if answers[n] is Some {
            assert(answer_id(answers[n]->0) == ids[n]);
            assert(earlier.push(answers.last()->0).map_values(|r: RpcResponse| answer_id(r))
                =~= earlier.map_values(|r: RpcResponse| answer_id(r)).push(ids.last()));
        }
    } else {
        assert(given(answers).map_values(|r: RpcResponse| answer_id(r)) =~= Seq::empty());
    }
}

} // verus!
