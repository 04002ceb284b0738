//! The JSON form of JSON-RPC messages, one object per line on the wire. A
//! JSON value that is not a message is dropped.
use vstd::prelude::*;

use crate::json::{text_member, Json, ObjectBuilder};
use crate::rpc::{
    JsonRpcError, JsonRpcMessage, JsonRpcNotification, JsonRpcRequest, JsonRpcResponse,
};
use crate::text::copy_string;

verus! {

/// The id member, when it is a non-negative integer.
pub open spec fn id_of(j: Json) -> Option<u64> {
    match j.get_spec("id"@) {
        Some(Json::UInt(n)) => Some(n),
        _ => None,
    }
}

/// The code member of an error, when it is an integer that fits an `i64`.
pub open spec fn code_of(e: Json) -> Option<i64> {
    match e.get_spec("code"@) {
        Some(Json::Int(n)) => Some(n),
        Some(Json::UInt(n)) => if n <= i64::MAX as u64 {
            Some(n as i64)
        } else {
            None
        },
        _ => None,
    }
}

/// The error object, read: a code and a message, and any data.
pub fn error_from_json(e: Json) -> (r: Option<JsonRpcError>)
    ensures
        r is Some <==> code_of(e) is Some && text_member(e, "message"@) is Some,
        r matches Some(err) ==> Some(err.code) == code_of(e) && Some(err.message@)
            == text_member(e, "message"@) && err.data == e.get_spec("data"@),
{
    let code = match e.get("code") {
        Some(c) => c.as_i64(),
        None => None,
    };
    let message = match e.get("message") {
        Some(m) => match m.as_text() {
            Some(t) => Some(copy_string(t)),
            None => None,
        },
        None => None,
    };
    match (code, message) {
        (Some(code), Some(message)) => Some(JsonRpcError { code, message, data: e.take("data") }),
        _ => None,
    }
}

/// The message a JSON value stands for. It needs a text `jsonrpc`; with a
/// text `method` it is a request when it has an integer `id` and a
/// notification when not; without one, an `id` makes it a response, whose
/// `error`, if present, must read as one.
pub fn message_from_json(j: Json) -> (r: Option<JsonRpcMessage>)
    ensures
        text_member(j, "jsonrpc"@) is None ==> r is None,
        text_member(j, "jsonrpc"@) is Some ==> {
            let version = text_member(j, "jsonrpc"@)->Some_0;
            let method = text_member(j, "method"@);
            &&& method is Some && id_of(j) is Some ==> (r matches Some(JsonRpcMessage::Request(q))
                && q.jsonrpc@ == version && q.id == id_of(j)->Some_0 && q.method@
                == method->Some_0 && q.params == j.get_spec("params"@))
            &&& method is Some && id_of(j) is None ==> (r matches Some(
                JsonRpcMessage::Notification(n),
            ) && n.jsonrpc@ == version && n.method@ == method->Some_0 && n.params
                == j.get_spec("params"@))
            &&& method is None && id_of(j) is None ==> r is None
            &&& method is None && id_of(j) is Some ==> match j.get_spec("error"@) {
                Some(e) => (code_of(e) is Some && text_member(e, "message"@) is Some) == (
                r is Some),
                None => r is Some,
            } && (r is Some ==> (r->Some_0 matches JsonRpcMessage::Response(p) && p.jsonrpc@
                == version && p.id == id_of(j)->Some_0 && p.result == j.get_spec("result"@)
                && (p.error is Some <==> j.get_spec("error"@) is Some)))
        },
{
    let jsonrpc = match j.get("jsonrpc") {
        Some(v) => match v.as_text() {
            Some(t) => copy_string(t),
            None => {
                return None;
            },
        },
        None => {
            return None;
        },
    };
    let id = match j.get("id") {
        Some(v) => v.as_u64(),
        None => None,
    };
    let method = match j.get("method") {
        Some(v) => match v.as_text() {
            Some(t) => Some(copy_string(t)),
            None => None,
        },
        None => None,
    };
    let mut j = j;
    match (method, id) {
        (Some(method), Some(id)) => Some(
            JsonRpcMessage::Request(JsonRpcRequest { jsonrpc, id, method, params: j.take("params") }),
        ),
        (Some(method), None) => Some(
            JsonRpcMessage::Notification(
                JsonRpcNotification { jsonrpc, method, params: j.take("params") },
            ),
        ),
        (None, Some(id)) => {
            proof {
                reveal_strlit("error");
                reveal_strlit("result");
            }
            let error = match j.remove("error") {
                Some(e) => match error_from_json(e) {
                    Some(err) => Some(err),
                    None => {
                        return None;
                    },
                },
                None => None,
            };
            assert("error"@.len() == 5 && "result"@.len() == 6);
            Some(
                JsonRpcMessage::Response(
                    JsonRpcResponse { jsonrpc, id, result: j.take("result"), error },
                ),
            )
        },
        (None, None) => None,
    }
}

/// The JSON object of an error.
pub fn error_to_json(e: JsonRpcError) -> (r: Json)
    ensures
        code_of(r) == Some(e.code),
        text_member(r, "message"@) == Some(e.message@),
        r.get_spec("data"@) == e.data,
{
    proof {
        reveal_strlit("code");
        reveal_strlit("message");
        reveal_strlit("data");
        assert("code"@.len() == 4 && "message"@.len() == 7 && "data"@.len() == 4);
        assert("code"@[0] == 'c' && "data"@[0] == 'd');
    }
    let mut members = ObjectBuilder::new();
    members.push("code", Json::Int(e.code));
    members.push("message", Json::Str(e.message));
    if let Some(d) = e.data {
        members.push("data", d);
    }
    members.build()
}

/// The JSON object of a message: what `message_from_json` reads back.
pub fn message_to_json(msg: JsonRpcMessage) -> (r: Json)
    ensures
        msg matches JsonRpcMessage::Request(q) ==> text_member(r, "jsonrpc"@) == Some(q.jsonrpc@)
            && id_of(r) == Some(q.id) && text_member(r, "method"@) == Some(q.method@)
            && r.get_spec("params"@) == q.params,
        msg matches JsonRpcMessage::Notification(n) ==> text_member(r, "jsonrpc"@) == Some(
            n.jsonrpc@,
        ) && id_of(r) is None && text_member(r, "method"@) == Some(n.method@) && r.get_spec(
            "params"@,
        ) == n.params,
        msg matches JsonRpcMessage::Response(p) ==> text_member(r, "jsonrpc"@) == Some(p.jsonrpc@)
            && id_of(r) == Some(p.id) && text_member(r, "method"@) is None && r.get_spec(
            "result"@,
        ) == p.result && (p.error is Some <==> r.get_spec("error"@) is Some) && (p.error is Some ==> code_of(
            r.get_spec("error"@)->Some_0,
        ) == Some(p.error->Some_0.code) && text_member(r.get_spec("error"@)->Some_0, "message"@)
            == Some(p.error->Some_0.message@)),
{
    proof {
        reveal_strlit("jsonrpc");
        reveal_strlit("id");
        reveal_strlit("method");
        reveal_strlit("params");
        reveal_strlit("result");
        reveal_strlit("error");
        assert("jsonrpc"@.len() == 7 && "id"@.len() == 2 && "method"@.len() == 6);
        assert("params"@.len() == 6 && "result"@.len() == 6 && "error"@.len() == 5);
        assert("method"@[0] == 'm' && "params"@[0] == 'p' && "result"@[0] == 'r');
    }
    let mut members = ObjectBuilder::new();
    match msg {
        JsonRpcMessage::Request(q) => {
            members.push("jsonrpc", Json::Str(q.jsonrpc));
            members.push("id", Json::UInt(q.id));
            members.push("method", Json::Str(q.method));
            if let Some(p) = q.params {
                members.push("params", p);
            }
        },
        JsonRpcMessage::Notification(n) => {
            members.push("jsonrpc", Json::Str(n.jsonrpc));
            members.push("method", Json::Str(n.method));
            if let Some(p) = n.params {
                members.push("params", p);
            }
        },
        JsonRpcMessage::Response(p) => {
            members.push("jsonrpc", Json::Str(p.jsonrpc));
            members.push("id", Json::UInt(p.id));
            if let Some(res) = p.result {
                members.push("result", res);
            }
            if let Some(e) = p.error {
                members.push("error", error_to_json(e));
            }
        },
    }
    members.build()
}

} // verus!
