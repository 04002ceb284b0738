//! JSON-RPC 2.0 messages, the errors of a peer session, and the bookkeeping
//! of outstanding requests.
use vstd::prelude::*;

use crate::json::Json;

use crate::text::{concat, same_text};

verus! {

/// Error code for a request whose method this client does not serve.
pub const METHOD_NOT_FOUND: i64 = -32601;

/// Error code for a failure inside this client.
pub const INTERNAL_ERROR: i64 = -32603;

/// Error code for a request that the user turned down.
pub const USER_REJECTED: i64 = -32000;

/// The protocol version both ends must speak.
pub open spec fn protocol_version() -> Seq<char> {
    seq!['2', '.', '0']
}

pub fn jsonrpc_version() -> (r: String)
    ensures
        r@ == protocol_version(),
{
    proof {
        reveal_strlit("2.0");
    }
    let r = "2.0".to_owned();
    assert(r@ =~= protocol_version());
    r
}

#[derive(Debug)]
pub struct JsonRpcError {
    pub code: i64,
    pub message: String,
    pub data: Option<Json>,
}

#[derive(Debug)]
pub struct JsonRpcRequest {
    pub jsonrpc: String,
    pub id: u64,
    pub method: String,
    pub params: Option<Json>,
}

#[derive(Debug)]
pub struct JsonRpcResponse {
    pub jsonrpc: String,
    pub id: u64,
    pub result: Option<Json>,
    pub error: Option<JsonRpcError>,
}

#[derive(Debug)]
pub struct JsonRpcNotification {
    pub jsonrpc: String,
    pub method: String,
    pub params: Option<Json>,
}

#[derive(Debug)]
pub enum JsonRpcMessage {
    Request(JsonRpcRequest),
    Response(JsonRpcResponse),
    Notification(JsonRpcNotification),
}

/// What can go wrong in a session with a peer. Failures of the transport,
/// of I/O and of decoding are carried as their text.
#[derive(Debug)]
pub enum ClientError {
    TransportError(String),
    Io(String),
    Serialization(String),
    RuntimeError { context: String },
    UnexpectedMsgType,
    NegotiationError(String),
    MissingProcessId,
    InvalidPath,
    ProcessKillError(String),
    PoisonError(String),
}

/// Accepts the peer's answer to `initialize` only when it speaks exactly
/// the protocol version of this client.
pub fn examine_server_capabilities(ser_cap: &JsonRpcResponse) -> (r: Result<(), ClientError>)
    ensures
        r is Ok <==> ser_cap.jsonrpc@ == protocol_version(),
        r is Err ==> r->Err_0 is NegotiationError,
{
    let ours = jsonrpc_version();
    if same_text(ser_cap.jsonrpc.as_str(), ours.as_str()) {
        Ok(())
    } else {
        Err(
            ClientError::NegotiationError(
                "Incompatible jrpc version between server and client".to_owned(),
            ),
        )
    }
}

pub open spec fn notification_prefix() -> Seq<char> {
    seq!['n', 'o', 't', 'i', 'f', 'i', 'c', 'a', 't', 'i', 'o', 'n', 's', '/']
}

/// The notification sent for `method`: its name gets the `notifications/`
/// prefix.
pub fn notification(method: &str, params: Option<Json>) -> (r: JsonRpcNotification)
    ensures
        r.method@ == notification_prefix() + method@,
        r.jsonrpc@ == protocol_version(),
        r.params == params,
{
    proof {
        reveal_strlit("notifications/");
    }
    let m = concat("notifications/", method);
    assert(m@ =~= notification_prefix() + method@);
    JsonRpcNotification { jsonrpc: jsonrpc_version(), method: m, params }
}

/// `resp` answers request `id` with the error `code` and `message`.
pub open spec fn is_error_response(resp: JsonRpcResponse, id: u64, code: i64, message: Seq<char>) -> bool {
    &&& resp.id == id
    &&& resp.result is None
    &&& resp.error is Some
    &&& resp.error->Some_0.code == code
    &&& resp.error->Some_0.message@ == message
}

/// An error response to the request `id`.
pub fn error_response(id: u64, code: i64, message: String) -> (r: JsonRpcResponse)
    ensures
        is_error_response(r, id, code, message@),
        r.jsonrpc@ == protocol_version(),
        r.error->Some_0.data is None,
{
    JsonRpcResponse {
        jsonrpc: jsonrpc_version(),
        id,
        result: None,
        error: Some(JsonRpcError { code, message, data: None }),
    }
}

/// A request as this client sends it.
pub fn request_message(id: u64, method: &str, params: Option<Json>) -> (r:
    JsonRpcRequest)
    ensures
        r.id == id,
        r.method@ == method@,
        r.params == params,
        r.jsonrpc@ == protocol_version(),
{
    JsonRpcRequest { jsonrpc: jsonrpc_version(), id, method: method.to_owned(), params }
}

/// A request that is sent and not yet answered.
#[derive(Debug)]
pub struct OutstandingRequest {
    pub id: u64,
    pub method: String,
}

/// The requests of one peer that await their responses, in the order they
/// were sent, and the id the next request gets.
#[derive(Debug)]
pub struct RequestTracker {
    pub next_id: u64,
    pub outstanding: Vec<OutstandingRequest>,
}

impl RequestTracker {
    pub open spec fn ids(&self) -> Seq<u64> {
        self.outstanding@.map_values(|o: OutstandingRequest| o.id)
    }

    pub open spec fn methods(&self) -> Seq<Seq<char>> {
        self.outstanding@.map_values(|o: OutstandingRequest| o.method@)
    }

    /// Ids are handed out in increasing order, so those in flight are
    /// increasing and all below the next one.
    pub open spec fn wf(&self) -> bool {
        &&& forall|i: int, j: int|
            0 <= i < j < self.outstanding@.len() ==> self.outstanding@[i].id
                < self.outstanding@[j].id
        &&& forall|i: int|
            0 <= i < self.outstanding@.len() ==> #[trigger] self.outstanding@[i].id < self.next_id
    }

    pub fn new() -> (r: Self)
        ensures
            r.wf(),
            r.next_id == 0,
            r.outstanding@.len() == 0,
    {
        RequestTracker { next_id: 0, outstanding: Vec::new() }
    }

    /// Gives the next id to a request of `method` and records it as in
    /// flight.
    pub fn begin(&mut self, method: &str) -> (id: u64)
        requires
            old(self).wf(),
            old(self).next_id < u64::MAX,
        ensures
            final(self).wf(),
            id == old(self).next_id,
            final(self).next_id == id + 1,
            !old(self).ids().contains(id),
            final(self).ids() == old(self).ids().push(id),
            final(self).methods() == old(self).methods().push(method@),
    {
        let id = self.next_id;
        self.outstanding.push(OutstandingRequest { id, method: method.to_owned() });
        self.next_id = id + 1;
        proof {
            assert(final(self).ids() =~= old(self).ids().push(id));
            assert(final(self).methods() =~= old(self).methods().push(method@));
            if old(self).ids().contains(id) {
                let k = choose|k: int| 0 <= k < old(self).ids().len() && old(self).ids()[k] == id;
                assert(old(self).outstanding@[k].id < old(self).next_id);
            }
        }
        id
    }

    /// Takes the request `id` out of the table and gives its method; an id
    /// that is not in flight leaves the table as it is.
    pub fn complete(&mut self, id: u64) -> (r: Option<String>)
        requires
            old(self).wf(),
        ensures
            final(self).wf(),
            final(self).next_id == old(self).next_id,
            r is Some <==> old(self).ids().contains(id),
            r is None ==> final(self).outstanding@ == old(self).outstanding@,
            r matches Some(m) ==> exists|k: int|
                0 <= k < old(self).ids().len() && old(self).ids()[k] == id && m@
                    == old(self).methods()[k] && final(self).ids() == old(self).ids().remove(k)
                    && final(self).methods() == old(self).methods().remove(k),
    {
        let mut k: usize = 0;
        while k < self.outstanding.len()
            invariant
                self.wf(),
                *self == *old(self),
                k <= self.outstanding@.len(),
                forall|j: int| 0 <= j < k ==> self.outstanding@[j].id != id,
            decreases self.outstanding.len() - k,
        {
            if self.outstanding[k].id == id {
                let entry = self.outstanding.remove(k);
                proof {
                    assert(final(self).ids() =~= old(self).ids().remove(k as int));
                    assert(final(self).methods() =~= old(self).methods().remove(k as int));
                    assert(old(self).ids()[k as int] == id);
                }
                return Some(entry.method);
            }
            k = k + 1;
        }
        proof {
            if old(self).ids().contains(id) {
                let j = choose|j: int| 0 <= j < old(self).ids().len() && old(self).ids()[j] == id;
                assert(old(self).outstanding@[j].id == id);
            }
        }
        None
    }
}

/// Two requests in flight on one peer never share an id.
pub proof fn lemma_in_flight_ids_distinct(t: &RequestTracker, i: int, j: int)
    requires
        t.wf(),
        0 <= i < t.outstanding@.len(),
        0 <= j < t.outstanding@.len(),
        i != j,
    ensures
        t.ids()[i] != t.ids()[j],
{
    if i < j {
        assert(t.outstanding@[i].id < t.outstanding@[j].id);
    } else {
        assert(t.outstanding@[j].id < t.outstanding@[i].id);
    }
}

} // verus!
